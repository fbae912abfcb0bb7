//! The engine: what each line of a script does to the clock and to the
//! terminal, as a list of actions for a player to perform in order.
//!
//! The clock itself is the player's. An action moves it on by a number of
//! keystroke times or by a pause, or emits text at its present time.

use vstd::prelude::*;
use vstd::string::*;
use crate::line::{classified, classify, Line, LineView};
use crate::seconds::{is_number, spells_number};

verus! {

/// One thing for the player to do.
#[derive(Clone, Debug, PartialEq, Eq)]
pub enum Action {
    /// Move the clock on by `steps` keystroke times.
    Advance { steps: u64 },
    /// Move the clock on by the number of seconds that `seconds` spells.
    Wait { seconds: String },
    /// Emit `data` at the present time of the clock.
    Emit { data: String },
}

/// The mathematical value of an [`Action`].
pub enum ActionView {
    Advance { steps: nat },
    Wait { seconds: Seq<char> },
    Emit { data: Seq<char> },
}

impl View for Action {
    type V = ActionView;

    open spec fn view(&self) -> ActionView {
        match *self {
            Action::Advance { steps } => ActionView::Advance { steps: steps as nat },
            Action::Wait { seconds } => ActionView::Wait { seconds: seconds@ },
            Action::Emit { data } => ActionView::Emit { data: data@ },
        }
    }
}

/// The values of a list of actions.
pub open spec fn views(v: Seq<Action>) -> Seq<ActionView> {
    v.map_values(|a: Action| a@)
}

/// The values of a list of texts.
pub open spec fn texts(v: Seq<String>) -> Seq<Seq<char>> {
    v.map_values(|s: String| s@)
}

/// The values of a list of preview lines.
pub open spec fn rows(v: Seq<Vec<String>>) -> Seq<Seq<Seq<char>>> {
    v.map_values(|r: Vec<String>| texts(r@))
}

/// The character that switches bright mode on while a command is typed.
pub open spec fn highlight_marker() -> char {
    '#'
}

/// The sequence that clears the screen and sends the cursor home.
pub open spec fn clear_screen() -> Seq<char> {
    "\r\x1b[2J\r\x1b[H"@
}

/// The sequence that switches bright mode on.
pub open spec fn bright_on() -> Seq<char> {
    "\x1b[1m"@
}

/// The sequence that restores normal styling.
pub open spec fn style_off() -> Seq<char> {
    "\x1b[0m"@
}

/// Carriage return and newline.
pub open spec fn line_break() -> Seq<char> {
    "\r\n"@
}

/// How a prompt with the label `label` is shown: the plain prompt where the
/// label is empty, else the coloured label and then the prompt.
pub open spec fn prompt_text(label: Seq<char>) -> Seq<char> {
    if label.len() == 0 {
        "$ "@
    } else {
        "\x1b[32m"@ + label + "\x1b[0m$ "@
    }
}

/// The actions of one keystroke: a step, then the character, with bright mode
/// switched on before it if it is the highlight marker.
pub open spec fn keystroke(c: char) -> Seq<ActionView> {
    if c == highlight_marker() {
        seq![
            ActionView::Advance { steps: 1 },
            ActionView::Emit { data: bright_on() },
            ActionView::Emit { data: seq![c] },
        ]
    } else {
        seq![ActionView::Advance { steps: 1 }, ActionView::Emit { data: seq![c] }]
    }
}

/// The actions of typing `text` key by key.
pub open spec fn typed(text: Seq<char>) -> Seq<ActionView>
    decreases text.len(),
{
    if text.len() == 0 {
        Seq::empty()
    } else {
        typed(text.drop_last()) + keystroke(text.last())
    }
}

/// The actions that end a typed command: normal styling again if bright mode
/// was switched on, then a pause of three steps and the line break.
pub open spec fn typing_end(text: Seq<char>) -> Seq<ActionView> {
    let restore = if text.contains(highlight_marker()) {
        seq![ActionView::Emit { data: style_off() }]
    } else {
        Seq::empty()
    };
    restore + seq![ActionView::Advance { steps: 3 }, ActionView::Emit { data: line_break() }]
}

/// The actions of a command: a step, the prompt, a pause of three steps, the
/// typing and its end.
pub open spec fn command_actions(prompt: Seq<char>, text: Seq<char>) -> Seq<ActionView> {
    seq![
        ActionView::Advance { steps: 1 },
        ActionView::Emit { data: prompt_text(prompt) },
        ActionView::Advance { steps: 3 },
    ] + typed(text) + typing_end(text)
}

/// The actions of clearing the screen.
pub open spec fn clear_actions() -> Seq<ActionView> {
    seq![
        ActionView::Advance { steps: 18 },
        ActionView::Emit { data: clear_screen() },
        ActionView::Advance { steps: 3 },
    ]
}

/// The actions of a line, by its role.
pub open spec fn actions_of(line: LineView) -> Seq<ActionView> {
    match line {
        LineView::HeaderDirective => Seq::empty(),
        LineView::TimeoutDirective { seconds } => seq![ActionView::Wait { seconds }],
        LineView::Comment => Seq::empty(),
        LineView::CommandLine { prompt, text } => command_actions(prompt, text),
        LineView::ClearDirective => clear_actions(),
        LineView::Blank => seq![ActionView::Advance { steps: 3 }],
        LineView::Plain { text } => seq![ActionView::Emit { data: text + line_break() }],
    }
}

/// The preview line of a line, by its role: the prompt label and the typed
/// text of a command, the text of a plain line, and none for any other role.
pub open spec fn preview_of(line: LineView) -> Option<Seq<Seq<char>>> {
    match line {
        LineView::CommandLine { prompt, text } => Some(seq![prompt, text]),
        LineView::Plain { text } => Some(seq![text]),
        _ => None,
    }
}

/// The actions of the first `n` lines of a script, after the lead-in of three
/// steps with which every run begins.
pub open spec fn script_actions(lines: Seq<Seq<char>>, n: nat) -> Seq<ActionView>
    decreases n,
{
    if n == 0 {
        seq![ActionView::Advance { steps: 3 }]
    } else {
        script_actions(lines, (n - 1) as nat) + actions_of(
            classified(lines[n - 1], (n - 1) as nat),
        )
    }
}

/// The preview lines of the first `n` lines of a script, in their order.
pub open spec fn script_preview(lines: Seq<Seq<char>>, n: nat) -> Seq<Seq<Seq<char>>>
    decreases n,
{
    if n == 0 {
        Seq::empty()
    } else {
        let before = script_preview(lines, (n - 1) as nat);
        match preview_of(classified(lines[n - 1], (n - 1) as nat)) {
            Some(row) => before.push(row),
            None => before,
        }
    }
}

/// Adds to `out` an advance of the clock by `steps` keystroke times.
pub fn advance(out: &mut Vec<Action>, steps: u64)
    ensures
        views(final(out)@) == views(old(out)@).push(ActionView::Advance { steps: steps as nat }),
{
    out.push(Action::Advance { steps });
    proof {
        assert(views(out@) =~= views(old(out)@).push(ActionView::Advance { steps: steps as nat }));
    }
}

/// Adds to `out` the emission of `data`.
pub fn emit(out: &mut Vec<Action>, data: String)
    ensures
        views(final(out)@) == views(old(out)@).push(ActionView::Emit { data: data@ }),
{
    let ghost d = data@;
    out.push(Action::Emit { data });
    proof {
        assert(views(out@) =~= views(old(out)@).push(ActionView::Emit { data: d }));
    }
}

/// Adds to `out` a pause whose length `seconds` spells.
pub fn wait(out: &mut Vec<Action>, seconds: String)
    ensures
        views(final(out)@) == views(old(out)@).push(ActionView::Wait { seconds: seconds@ }),
{
    let ghost d = seconds@;
    out.push(Action::Wait { seconds });
    proof {
        assert(views(out@) =~= views(old(out)@).push(ActionView::Wait { seconds: d }));
    }
}

/// Adds to `out` the actions that clear the screen: eighteen steps, the
/// clearing sequence, three steps.
pub fn clear_terminal(out: &mut Vec<Action>)
    ensures
        views(final(out)@) == views(old(out)@) + clear_actions(),
{
    advance(out, 18);
    emit(out, String::from_str("\r\x1b[2J\r\x1b[H"));
    advance(out, 3);
    proof {
        assert(views(out@) =~= views(old(out)@) + clear_actions());
    }
}

/// Adds to `out` the actions of typing `text` key by key and of ending the
/// line, and returns the text as typed.
pub fn echo_typing(out: &mut Vec<Action>, text: &str) -> (shown: String)
    ensures
        views(final(out)@) == views(old(out)@) + typed(text@) + typing_end(text@),
        shown@ == text@,
{
    let n: usize = text.unicode_len();
    let mut bright_applied = false;
    let mut i: usize = 0;
    while i < n
        invariant
            0 <= i <= n,
            n == text@.len(),
            views(out@) == views(old(out)@) + typed(text@.subrange(0, i as int)),
            bright_applied == text@.subrange(0, i as int).contains(highlight_marker()),
        decreases n - i,
    {
        let c = text.get_char(i);
        let ghost before = views(out@);
        let ghost head = text@.subrange(0, i as int);
        let ghost next = text@.subrange(0, i + 1);
        advance(out, 1);
        if c == '#' {
            emit(out, String::from_str("\x1b[1m"));
            bright_applied = true;
        }
        emit(out, String::from_str(text.substring_char(i, i + 1)));
        proof {
            assert(text@.subrange(i as int, i + 1) =~= seq![c]);
            assert(next.drop_last() =~= head);
            assert(next.last() == c);
            assert(views(out@) =~= before + keystroke(c));
            assert(views(out@) =~= views(old(out)@) + typed(next));
            if head.contains(highlight_marker()) {
                let k = choose|k: int| 0 <= k < head.len() && head[k] == highlight_marker();
                assert(next[k] == highlight_marker());
            }
            if c == highlight_marker() {
                assert(next[i as int] == highlight_marker());
            }
            if next.contains(highlight_marker()) && c != highlight_marker() {
                let k = choose|k: int| 0 <= k < next.len() && next[k] == highlight_marker();
                assert(head[k] == highlight_marker());
            }
        }
        i += 1;
    }
    proof {
        assert(text@.subrange(0, n as int) =~= text@);
    }
    let ghost typed_all = views(out@);
    if bright_applied {
        emit(out, String::from_str("\x1b[0m"));
    }
    advance(out, 3);
    emit(out, String::from_str("\r\n"));
    proof {
        assert(views(out@) =~= typed_all + typing_end(text@));
        assert(views(out@) =~= views(old(out)@) + typed(text@) + typing_end(text@));
    }
    String::from_str(text)
}

/// The text that shows a prompt with the label `prompt`.
pub fn prompt_line(prompt: &str) -> (shown: String)
    ensures
        shown@ == prompt_text(prompt@),
{
    if prompt.unicode_len() != 0 {
        String::from_str("\x1b[32m").concat(prompt).concat("\x1b[0m$ ")
    } else {
        String::from_str("$ ")
    }
}

/// Adds to `out` the actions of a command with the prompt label `prompt` and
/// the typed text `line`, and returns its preview line: the label, then the
/// text.
pub fn echo_console_line(out: &mut Vec<Action>, prompt: &str, line: &str) -> (preview: Vec<String>)
    ensures
        views(final(out)@) == views(old(out)@) + command_actions(prompt@, line@),
        texts(preview@) == seq![prompt@, line@],
{
    advance(out, 1);
    let mut preview: Vec<String> = Vec::new();
    preview.push(String::from_str(prompt));
    emit(out, prompt_line(prompt));
    advance(out, 3);
    let shown = echo_typing(out, line);
    preview.push(shown);
    proof {
        assert(views(out@) =~= views(old(out)@) + command_actions(prompt@, line@));
        assert(texts(preview@) =~= seq![prompt@, line@]);
    }
    preview
}

/// The actions and the preview lines of a script, or of its first lines.
#[derive(Clone, Debug, PartialEq, Eq)]
pub struct Session {
    /// What the player has to do, in order.
    pub actions: Vec<Action>,
    /// The lines of the preview, top to bottom.
    pub preview: Vec<Vec<String>>,
}

/// A pause whose seconds spell no number. It ends the run.
#[derive(Clone, Debug, PartialEq, Eq)]
pub struct BadTimeout {
    /// The text that stands where the seconds should.
    pub seconds: String,
}

/// A run that a pause without readable seconds has ended.
#[derive(Clone, Debug, PartialEq, Eq)]
pub struct Halted {
    /// The position of the line that holds the pause, counted from zero.
    pub line: usize,
    /// The text that stands where the seconds should.
    pub seconds: String,
    /// What the lines before that line came to.
    pub session: Session,
}

/// Whether a line of this role can be played: any line but a pause whose
/// seconds spell no number.
pub open spec fn is_readable(line: LineView) -> bool {
    match line {
        LineView::TimeoutDirective { seconds } => is_number(seconds),
        _ => true,
    }
}

/// How many lines are played of the first `n` lines of a script: all of
/// them, or those before the first that cannot be played.
pub open spec fn readable_prefix(lines: Seq<Seq<char>>, n: nat) -> nat
    decreases n,
{
    if n == 0 {
        0
    } else {
        let k = readable_prefix(lines, (n - 1) as nat);
        if k == n - 1 && is_readable(classified(lines[n - 1], (n - 1) as nat)) {
            n
        } else {
            k
        }
    }
}

/// Once a line cannot be played, no later line adds to what is played.
pub proof fn lemma_prefix_stops(lines: Seq<Seq<char>>, m: nat, n: nat)
    requires
        m <= n,
        readable_prefix(lines, m) < m,
    ensures
        readable_prefix(lines, n) == readable_prefix(lines, m),
    decreases n - m,
{
    if m < n {
        lemma_prefix_stops(lines, m, (n - 1) as nat);
    }
}

/// Adds to `out` the lead-in of three steps with which every run begins.
pub fn lead_in(out: &mut Vec<Action>)
    ensures
        views(final(out)@) == views(old(out)@).push(ActionView::Advance { steps: 3 }),
{
    advance(out, 3);
}

/// Adds to `out` the actions of a line with the role `role`, and to `preview`
/// its preview line, if it has one. A pause whose seconds spell no number is
/// refused, and nothing is added.
pub fn perform(out: &mut Vec<Action>, preview: &mut Vec<Vec<String>>, role: &Line) -> (done: Result<
    (),
    BadTimeout,
>)
    ensures
        done is Ok <==> is_readable(role@),
        done is Ok ==> views(final(out)@) == views(old(out)@) + actions_of(role@),
        done is Ok ==> rows(final(preview)@) == match preview_of(role@) {
            Some(row) => rows(old(preview)@).push(row),
            None => rows(old(preview)@),
        },
        done is Err ==> *final(out) == *old(out) && *final(preview) == *old(preview),
        done is Err ==> role@ == (LineView::TimeoutDirective { seconds: done->Err_0.seconds@ }),
{
    match role {
        Line::HeaderDirective => {},
        Line::TimeoutDirective { seconds } => {
            if !spells_number(seconds.as_str()) {
                return Err(BadTimeout { seconds: seconds.clone() });
            }
            wait(out, seconds.clone());
        },
        Line::Comment => {},
        Line::CommandLine { prompt, text } => {
            let row = echo_console_line(out, prompt.as_str(), text.as_str());
            preview.push(row);
        },
        Line::ClearDirective => {
            clear_terminal(out);
        },
        Line::Blank => {
            advance(out, 3);
        },
        Line::Plain { text } => {
            emit(out, text.clone().concat("\r\n"));
            let mut row: Vec<String> = Vec::new();
            row.push(text.clone());
            proof {
                assert(texts(row@) =~= seq![text@]);
            }
            preview.push(row);
        },
    }
    proof {
        assert(views(out@) =~= views(old(out)@) + actions_of(role@));
        assert(rows(preview@) =~= match preview_of(role@) {
            Some(row) => rows(old(preview)@).push(row),
            None => rows(old(preview)@),
        });
    }
    Ok(())
}

/// Classifies the line `line`, which stands at position `index` of its
/// script, and adds its actions to `out` and its preview line, if it has one,
/// to `preview`. A pause whose seconds spell no number is refused, and
/// nothing is added.
pub fn play_line(
    out: &mut Vec<Action>,
    preview: &mut Vec<Vec<String>>,
    line: &str,
    index: usize,
) -> (done: Result<(), BadTimeout>)
    ensures
        done is Ok <==> is_readable(classified(line@, index as nat)),
        done is Ok ==> views(final(out)@) == views(old(out)@) + actions_of(
            classified(line@, index as nat),
        ),
        done is Ok ==> rows(final(preview)@) == match preview_of(classified(line@, index as nat)) {
            Some(row) => rows(old(preview)@).push(row),
            None => rows(old(preview)@),
        },
        done is Err ==> *final(out) == *old(out) && *final(preview) == *old(preview),
        done is Err ==> classified(line@, index as nat) == (LineView::TimeoutDirective {
            seconds: done->Err_0.seconds@,
        }),
{
    let role = classify(line, index);
    perform(out, preview, &role)
}

/// Plays a script: the lead-in, then every line in its order. The run ends
/// at the first pause whose seconds spell no number, with what the lines
/// before it came to; no line from there on is played.
pub fn run(lines: &Vec<String>) -> (end: Result<Session, Halted>)
    ensures
        end is Ok <==> readable_prefix(texts(lines@), lines@.len()) == lines@.len(),
        end is Ok ==> views(end->Ok_0.actions@) == script_actions(texts(lines@), lines@.len()),
        end is Ok ==> rows(end->Ok_0.preview@) == script_preview(texts(lines@), lines@.len()),
        end is Err ==> end->Err_0.line == readable_prefix(texts(lines@), lines@.len()),
        end is Err ==> end->Err_0.line < lines@.len(),
        end is Err ==> classified(lines@[end->Err_0.line as int]@, end->Err_0.line as nat) == (
        LineView::TimeoutDirective { seconds: end->Err_0.seconds@ }),
        end is Err ==> views(end->Err_0.session.actions@) == script_actions(
            texts(lines@),
            end->Err_0.line as nat,
        ),
        end is Err ==> rows(end->Err_0.session.preview@) == script_preview(
            texts(lines@),
            end->Err_0.line as nat,
        ),
{
    let mut actions: Vec<Action> = Vec::new();
    let mut preview: Vec<Vec<String>> = Vec::new();
    lead_in(&mut actions);
    proof {
        assert(views(actions@) =~= script_actions(texts(lines@), 0));
        assert(rows(preview@) =~= script_preview(texts(lines@), 0));
    }
    let n: usize = lines.len();
    let mut i: usize = 0;
    while i < n
        invariant
            0 <= i <= n,
            n == lines@.len(),
            readable_prefix(texts(lines@), i as nat) == i,
            views(actions@) == script_actions(texts(lines@), i as nat),
            rows(preview@) == script_preview(texts(lines@), i as nat),
        decreases n - i,
    {
        proof {
            assert(texts(lines@)[i as int] == lines@[i as int]@);
        }
        match play_line(&mut actions, &mut preview, lines[i].as_str(), i) {
            Ok(()) => {},
            Err(bad) => {
                proof {
                    assert(readable_prefix(texts(lines@), (i + 1) as nat) == i);
                    lemma_prefix_stops(texts(lines@), (i + 1) as nat, n as nat);
                }
                return Err(
                    Halted { line: i, seconds: bad.seconds, session: Session { actions, preview } },
                );
            },
        }
        i += 1;
    }
    Ok(Session { actions, preview })
}

} // verus!
