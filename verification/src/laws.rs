//! What holds of every script: how many events a line emits, how far it moves
//! the clock, and how the actions of a script grow line by line.

use vstd::prelude::*;
use crate::engine::{
    actions_of, clear_actions, command_actions, highlight_marker, is_readable, keystroke,
    preview_of, readable_prefix, script_actions, script_preview, typed, typing_end, ActionView,
};
use crate::document::span_markups;
use crate::line::{classified, LineView};
use crate::preview::preview_rows;
use crate::seconds::is_number;

verus! {

/// 1 for an emission, 0 for any other action.
pub open spec fn emits(a: ActionView) -> nat {
    match a {
        ActionView::Emit { .. } => 1,
        _ => 0,
    }
}

/// The keystroke times by which an action moves the clock on; a pause is not
/// counted in keystroke times.
pub open spec fn steps(a: ActionView) -> nat {
    match a {
        ActionView::Advance { steps } => steps,
        _ => 0,
    }
}

/// 1 for a pause, 0 for any other action.
pub open spec fn waits(a: ActionView) -> nat {
    match a {
        ActionView::Wait { .. } => 1,
        _ => 0,
    }
}

/// The number of emissions among `s`.
pub open spec fn emit_count(s: Seq<ActionView>) -> nat
    decreases s.len(),
{
    if s.len() == 0 {
        0
    } else {
        emit_count(s.drop_last()) + emits(s.last())
    }
}

/// The keystroke times by which `s` moves the clock on in all.
pub open spec fn step_total(s: Seq<ActionView>) -> nat
    decreases s.len(),
{
    if s.len() == 0 {
        0
    } else {
        step_total(s.drop_last()) + steps(s.last())
    }
}

/// The number of pauses among `s`.
pub open spec fn wait_count(s: Seq<ActionView>) -> nat
    decreases s.len(),
{
    if s.len() == 0 {
        0
    } else {
        wait_count(s.drop_last()) + waits(s.last())
    }
}

/// How often the highlight marker occurs in `text`.
pub open spec fn marker_count(text: Seq<char>) -> nat
    decreases text.len(),
{
    if text.len() == 0 {
        0
    } else {
        marker_count(text.drop_last()) + if text.last() == highlight_marker() {
            1nat
        } else {
            0nat
        }
    }
}

/// Whether a line of this role is shown in the preview.
pub open spec fn is_shown(line: LineView) -> bool {
    line is CommandLine || line is Plain
}

/// How many of the first `n` lines of a script are shown in the preview.
pub open spec fn shown_count(lines: Seq<Seq<char>>, n: nat) -> nat
    decreases n,
{
    if n == 0 {
        0
    } else {
        shown_count(lines, (n - 1) as nat) + if is_shown(
            classified(lines[n - 1], (n - 1) as nat),
        ) {
            1nat
        } else {
            0nat
        }
    }
}

/// The three counts of a list with one more action at its end.
pub proof fn lemma_counts_push(s: Seq<ActionView>, a: ActionView)
    ensures
        emit_count(s.push(a)) == emit_count(s) + emits(a),
        step_total(s.push(a)) == step_total(s) + steps(a),
        wait_count(s.push(a)) == wait_count(s) + waits(a),
{
    assert(s.push(a).drop_last() =~= s);
}

/// The three counts of two lists joined are the sums of their counts.
pub proof fn lemma_counts_join(s: Seq<ActionView>, t: Seq<ActionView>)
    ensures
        emit_count(s + t) == emit_count(s) + emit_count(t),
        step_total(s + t) == step_total(s) + step_total(t),
        wait_count(s + t) == wait_count(s) + wait_count(t),
    decreases t.len(),
{
    if t.len() == 0 {
        assert(s + t =~= s);
    } else {
        lemma_counts_join(s, t.drop_last());
        assert((s + t).drop_last() =~= s + t.drop_last());
        assert((s + t).last() == t.last());
    }
}

/// One keystroke moves the clock by one step and emits the character, and
/// one event more where the character is the highlight marker.
pub proof fn lemma_keystroke_counts(c: char)
    ensures
        step_total(keystroke(c)) == 1,
        wait_count(keystroke(c)) == 0,
        emit_count(keystroke(c)) == if c == highlight_marker() {
            2nat
        } else {
            1nat
        },
{
    let first = ActionView::Advance { steps: 1 };
    let key = ActionView::Emit { data: seq![c] };
    let e = Seq::<ActionView>::empty();
    lemma_counts_push(e, first);
    if c == highlight_marker() {
        let bright = ActionView::Emit { data: crate::engine::bright_on() };
        lemma_counts_push(e.push(first), bright);
        lemma_counts_push(e.push(first).push(bright), key);
        assert(keystroke(c) =~= e.push(first).push(bright).push(key));
    } else {
        lemma_counts_push(e.push(first), key);
        assert(keystroke(c) =~= e.push(first).push(key));
    }
}

/// Typing a text takes one step for each of its characters and emits one
/// event for each, and one more for each highlight marker among them.
pub proof fn lemma_typed_counts(text: Seq<char>)
    ensures
        step_total(typed(text)) == text.len(),
        wait_count(typed(text)) == 0,
        emit_count(typed(text)) == text.len() + marker_count(text),
    decreases text.len(),
{
    if text.len() > 0 {
        lemma_typed_counts(text.drop_last());
        lemma_keystroke_counts(text.last());
        lemma_counts_join(typed(text.drop_last()), keystroke(text.last()));
    }
}

/// A command emits its prompt, one event for each character of its text, one
/// more for each highlight marker in it, one that restores the styling if
/// there was a marker, and the line break. It moves the clock by seven steps
/// and one for each character, and never pauses.
pub proof fn law_command_counts(prompt: Seq<char>, text: Seq<char>)
    ensures
        emit_count(command_actions(prompt, text)) == 2 + text.len() + marker_count(text) + if text.contains(
            highlight_marker(),
        ) {
            1nat
        } else {
            0nat
        },
        step_total(command_actions(prompt, text)) == 7 + text.len(),
        wait_count(command_actions(prompt, text)) == 0,
{
    let e = Seq::<ActionView>::empty();
    let a1 = ActionView::Advance { steps: 1 };
    let a2 = ActionView::Emit { data: crate::engine::prompt_text(prompt) };
    let a3 = ActionView::Advance { steps: 3 };
    let head = e.push(a1).push(a2).push(a3);
    lemma_counts_push(e, a1);
    lemma_counts_push(e.push(a1), a2);
    lemma_counts_push(e.push(a1).push(a2), a3);
    let b1 = ActionView::Emit { data: crate::engine::style_off() };
    let b2 = ActionView::Advance { steps: 3 };
    let b3 = ActionView::Emit { data: crate::engine::line_break() };
    if text.contains(highlight_marker()) {
        lemma_counts_push(e, b1);
        lemma_counts_push(e.push(b1), b2);
        lemma_counts_push(e.push(b1).push(b2), b3);
        assert(typing_end(text) =~= e.push(b1).push(b2).push(b3));
    } else {
        lemma_counts_push(e, b2);
        lemma_counts_push(e.push(b2), b3);
        assert(typing_end(text) =~= e.push(b2).push(b3));
    }
    lemma_typed_counts(text);
    lemma_counts_join(head, typed(text));
    lemma_counts_join(head + typed(text), typing_end(text));
    assert(command_actions(prompt, text) =~= head + typed(text) + typing_end(text));
}

/// A blank line emits nothing and moves the clock by three steps; a remark
/// and the settings line emit nothing and leave the clock where it is; a
/// pause emits nothing and moves the clock by no step. None of them is shown
/// in the preview.
pub proof fn law_silent_lines(seconds: Seq<char>)
    ensures
        actions_of(LineView::Comment) == Seq::<ActionView>::empty(),
        actions_of(LineView::HeaderDirective) == Seq::<ActionView>::empty(),
        emit_count(actions_of(LineView::Blank)) == 0,
        step_total(actions_of(LineView::Blank)) == 3,
        wait_count(actions_of(LineView::Blank)) == 0,
        emit_count(actions_of(LineView::TimeoutDirective { seconds })) == 0,
        step_total(actions_of(LineView::TimeoutDirective { seconds })) == 0,
        wait_count(actions_of(LineView::TimeoutDirective { seconds })) == 1,
        preview_of(LineView::Comment) is None,
        preview_of(LineView::HeaderDirective) is None,
        preview_of(LineView::Blank) is None,
        preview_of(LineView::ClearDirective) is None,
        preview_of(LineView::TimeoutDirective { seconds }) is None,
{
    let e = Seq::<ActionView>::empty();
    lemma_counts_push(e, ActionView::Advance { steps: 3 });
    assert(actions_of(LineView::Blank) =~= e.push(ActionView::Advance { steps: 3 }));
    lemma_counts_push(e, ActionView::Wait { seconds });
    assert(actions_of(LineView::TimeoutDirective { seconds }) =~= e.push(
        ActionView::Wait { seconds },
    ));
}

/// Clearing the screen moves the clock by twenty-one steps in all, eighteen
/// of them before its one event, and never pauses.
pub proof fn law_clear_counts()
    ensures
        step_total(clear_actions()) == 21,
        emit_count(clear_actions()) == 1,
        wait_count(clear_actions()) == 0,
        clear_actions().len() == 3,
        clear_actions()[0] == (ActionView::Advance { steps: 18 }),
        clear_actions()[1] is Emit,
        clear_actions()[2] == (ActionView::Advance { steps: 3 }),
{
    let e = Seq::<ActionView>::empty();
    let a1 = ActionView::Advance { steps: 18 };
    let a2 = ActionView::Emit { data: crate::engine::clear_screen() };
    let a3 = ActionView::Advance { steps: 3 };
    lemma_counts_push(e, a1);
    lemma_counts_push(e.push(a1), a2);
    lemma_counts_push(e.push(a1).push(a2), a3);
    assert(clear_actions() =~= e.push(a1).push(a2).push(a3));
}

/// A plain line emits one event where the clock stands and moves it by
/// nothing.
pub proof fn law_plain_counts(text: Seq<char>)
    ensures
        emit_count(actions_of(LineView::Plain { text })) == 1,
        step_total(actions_of(LineView::Plain { text })) == 0,
        wait_count(actions_of(LineView::Plain { text })) == 0,
{
    let e = Seq::<ActionView>::empty();
    let a = ActionView::Emit { data: text + crate::engine::line_break() };
    lemma_counts_push(e, a);
    assert(actions_of(LineView::Plain { text }) =~= e.push(a));
}

/// How many events a line of this role emits.
pub open spec fn events_of(line: LineView) -> nat {
    match line {
        LineView::CommandLine { prompt, text } => 2 + text.len() + marker_count(text) + if text.contains(
            highlight_marker(),
        ) {
            1nat
        } else {
            0nat
        },
        LineView::ClearDirective => 1,
        LineView::Plain { .. } => 1,
        _ => 0,
    }
}

/// By how many keystroke times a line of this role moves the clock on.
pub open spec fn steps_of(line: LineView) -> nat {
    match line {
        LineView::CommandLine { prompt, text } => 7 + text.len(),
        LineView::ClearDirective => 21,
        LineView::Blank => 3,
        _ => 0,
    }
}

/// How many pauses a line of this role holds.
pub open spec fn pauses_of(line: LineView) -> nat {
    match line {
        LineView::TimeoutDirective { .. } => 1,
        _ => 0,
    }
}

/// The events of the first `n` lines of a script.
pub open spec fn script_events(lines: Seq<Seq<char>>, n: nat) -> nat
    decreases n,
{
    if n == 0 {
        0
    } else {
        script_events(lines, (n - 1) as nat) + events_of(classified(lines[n - 1], (n - 1) as nat))
    }
}

/// The keystroke times of the first `n` lines of a script, with the three of
/// the lead-in.
pub open spec fn script_steps(lines: Seq<Seq<char>>, n: nat) -> nat
    decreases n,
{
    if n == 0 {
        3
    } else {
        script_steps(lines, (n - 1) as nat) + steps_of(classified(lines[n - 1], (n - 1) as nat))
    }
}

/// The pauses of the first `n` lines of a script.
pub open spec fn script_pauses(lines: Seq<Seq<char>>, n: nat) -> nat
    decreases n,
{
    if n == 0 {
        0
    } else {
        script_pauses(lines, (n - 1) as nat) + pauses_of(classified(lines[n - 1], (n - 1) as nat))
    }
}

/// The actions of a line emit the events of its role, move the clock by the
/// keystroke times of its role, and hold a pause just for a pause line.
pub proof fn law_line_counts(line: LineView)
    ensures
        emit_count(actions_of(line)) == events_of(line),
        step_total(actions_of(line)) == steps_of(line),
        wait_count(actions_of(line)) == pauses_of(line),
{
    match line {
        LineView::CommandLine { prompt, text } => {
            law_command_counts(prompt, text);
        },
        LineView::ClearDirective => {
            law_clear_counts();
        },
        LineView::Plain { text } => {
            law_plain_counts(text);
        },
        LineView::TimeoutDirective { seconds } => {
            law_silent_lines(seconds);
        },
        _ => {
            law_silent_lines(Seq::empty());
        },
    }
}

/// The actions of a script emit the events of its lines and nothing more,
/// move the clock by the lead-in and the keystroke times of its lines, and
/// hold one pause for each pause line.
pub proof fn law_script_counts(lines: Seq<Seq<char>>, n: nat)
    requires
        n <= lines.len(),
    ensures
        emit_count(script_actions(lines, n)) == script_events(lines, n),
        step_total(script_actions(lines, n)) == script_steps(lines, n),
        wait_count(script_actions(lines, n)) == script_pauses(lines, n),
    decreases n,
{
    if n == 0 {
        lemma_counts_push(Seq::empty(), ActionView::Advance { steps: 3 });
        assert(script_actions(lines, 0) =~= Seq::<ActionView>::empty().push(
            ActionView::Advance { steps: 3 },
        ));
    } else {
        let line = classified(lines[n - 1], (n - 1) as nat);
        law_script_counts(lines, (n - 1) as nat);
        law_line_counts(line);
        lemma_counts_join(script_actions(lines, (n - 1) as nat), actions_of(line));
    }
}

/// The preview holds one line for each command and each plain line of the
/// script, and none for any other line; so do its rows, and so does the text
/// element of its image document. No preview line is without a segment.
pub proof fn law_preview_rows(lines: Seq<Seq<char>>, n: nat)
    requires
        n <= lines.len(),
    ensures
        script_preview(lines, n).len() == shown_count(lines, n),
        preview_rows(script_preview(lines, n)).len() == shown_count(lines, n),
        span_markups(preview_rows(script_preview(lines, n))).len() == shown_count(lines, n),
        forall|j: int|
            0 <= j < script_preview(lines, n).len() ==> 1 <= (#[trigger] script_preview(
                lines,
                n,
            )[j]).len() <= 2,
    decreases n,
{
    if n > 0 {
        law_preview_rows(lines, (n - 1) as nat);
    }
}

/// The actions of the first `k` lines of a script stand unchanged at the
/// start of the actions of its first `n` lines: what a later line holds, or
/// whether a later pause can be read, changes nothing that came before it.
pub proof fn law_earlier_lines_stand(lines: Seq<Seq<char>>, k: nat, n: nat)
    requires
        k <= n <= lines.len(),
    ensures
        script_actions(lines, k).is_prefix_of(script_actions(lines, n)),
    decreases n - k,
{
    if k < n {
        law_earlier_lines_stand(lines, k, (n - 1) as nat);
        let shorter = script_actions(lines, (n - 1) as nat);
        let longer = script_actions(lines, n);
        assert(shorter.is_prefix_of(longer)) by {
            assert(longer.subrange(0, shorter.len() as int) =~= shorter);
        }
        assert(script_actions(lines, k) =~= longer.subrange(
            0,
            script_actions(lines, k).len() as int,
        ));
    } else {
        assert(script_actions(lines, n).subrange(0, script_actions(lines, n).len() as int)
            =~= script_actions(lines, n));
    }
}

/// Two scripts that agree on their first `n` lines have the same actions and
/// the same preview for those lines: nothing but the lines themselves enters
/// into either.
pub proof fn law_same_lines_same_run(a: Seq<Seq<char>>, b: Seq<Seq<char>>, n: nat)
    requires
        n <= a.len(),
        n <= b.len(),
        forall|i: int| 0 <= i < n ==> a[i] == b[i],
    ensures
        script_actions(a, n) == script_actions(b, n),
        script_preview(a, n) == script_preview(b, n),
    decreases n,
{
    if n > 0 {
        law_same_lines_same_run(a, b, (n - 1) as nat);
    }
}

/// What is played of a script: every line before the first pause whose
/// seconds spell no number, and that line is not played. A script without
/// such a pause is played to its end.
pub proof fn law_run_ends_at_first_bad_pause(lines: Seq<Seq<char>>, n: nat)
    requires
        n <= lines.len(),
    ensures
        readable_prefix(lines, n) <= n,
        forall|i: int|
            0 <= i < readable_prefix(lines, n) ==> is_readable(
                #[trigger] classified(lines[i], i as nat),
            ),
        readable_prefix(lines, n) < n ==> !is_readable(
            classified(lines[readable_prefix(lines, n) as int], readable_prefix(lines, n)),
        ),
    decreases n,
{
    if n > 0 {
        law_run_ends_at_first_bad_pause(lines, (n - 1) as nat);
    }
}

/// The events of a run that a pause has ended at line `k` are the events of
/// the lines before `k`, as they would stand at the start of the whole
/// script were the pause readable: nothing of line `k` or of a later line is
/// among them, and nothing of an earlier line is missing.
pub proof fn law_halted_run_keeps_earlier_events(lines: Seq<Seq<char>>, k: nat)
    requires
        k < lines.len(),
        readable_prefix(lines, lines.len()) == k,
    ensures
        script_actions(lines, k).is_prefix_of(script_actions(lines, lines.len())),
        classified(lines[k as int], k) is TimeoutDirective,
        emit_count(actions_of(classified(lines[k as int], k))) == 0,
{
    law_earlier_lines_stand(lines, k, lines.len());
    law_run_ends_at_first_bad_pause(lines, lines.len());
    law_silent_lines(classified(lines[k as int], k)->seconds);
}

/// Whether every pause among `s` has seconds that spell a number.
pub open spec fn pauses_spell_numbers(s: Seq<ActionView>) -> bool {
    forall|i: int| 0 <= i < s.len() && #[trigger] s[i] is Wait ==> is_number(s[i]->seconds)
}

/// A list that counts no pause holds none.
pub proof fn lemma_no_pause(s: Seq<ActionView>)
    requires
        wait_count(s) == 0,
    ensures
        forall|i: int| 0 <= i < s.len() ==> !(#[trigger] s[i] is Wait),
    decreases s.len(),
{
    if s.len() > 0 {
        lemma_no_pause(s.drop_last());
        assert forall|i: int| 0 <= i < s.len() implies !(#[trigger] s[i] is Wait) by {
            if i < s.len() - 1 {
                assert(s[i] == s.drop_last()[i]);
            }
        }
    }
}

/// Every pause that a run hands to the player has seconds that spell a
/// number: the lines that are played hold no other.
pub proof fn law_played_pauses_spell_numbers(lines: Seq<Seq<char>>, n: nat)
    requires
        n <= lines.len(),
        readable_prefix(lines, n) == n,
    ensures
        pauses_spell_numbers(script_actions(lines, n)),
    decreases n,
{
    if n > 0 {
        law_run_ends_at_first_bad_pause(lines, (n - 1) as nat);
        law_played_pauses_spell_numbers(lines, (n - 1) as nat);
        let line = classified(lines[n - 1], (n - 1) as nat);
        let head = script_actions(lines, (n - 1) as nat);
        let tail = actions_of(line);
        law_line_counts(line);
        if !(line is TimeoutDirective) {
            lemma_no_pause(tail);
        }
        assert forall|i: int| 0 <= i < (head + tail).len() && #[trigger] (head + tail)[i] is Wait implies is_number(
            (head + tail)[i]->seconds,
        ) by {
            if i < head.len() {
                assert((head + tail)[i] == head[i]);
            } else {
                assert((head + tail)[i] == tail[i - head.len()]);
            }
        }
    }
}

} // verus!
