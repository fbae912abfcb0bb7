use asciinema_scenario::engine::{
    clear_terminal, echo_console_line, echo_typing, lead_in, perform, play_line, run, Action,
    BadTimeout, Halted, Session,
};
use asciinema_scenario::line::{classify, Line};

fn advance(steps: u64) -> Action {
    Action::Advance { steps }
}

fn emit(data: &str) -> Action {
    Action::Emit { data: data.to_string() }
}

fn wait(seconds: &str) -> Action {
    Action::Wait { seconds: seconds.to_string() }
}

fn script(lines: &[&str]) -> Vec<String> {
    lines.iter().map(|l| l.to_string()).collect()
}

/// Plays the actions on a clock with the given step and returns each event
/// with its time, as it is printed: rounded to two decimal places.
fn replay(actions: &[Action], step: f64) -> Vec<(String, String)> {
    let mut time: f64 = 0.0;
    let mut events: Vec<(String, String)> = Vec::new();
    for action in actions {
        match action {
            Action::Advance { steps } => time += (*steps as f64) * step,
            Action::Wait { seconds } => time += seconds.parse::<f64>().unwrap(),
            Action::Emit { data } => events.push((format!("{:.2}", time), data.clone())),
        }
    }
    events
}

#[test]
fn command_ls_has_the_documented_times() {
    let session = run(&script(&["$ ls"])).unwrap();
    let events = replay(&session.actions, 0.10);
    assert_eq!(
        events,
        vec![
            ("0.40".to_string(), "$ ".to_string()),
            ("0.80".to_string(), "l".to_string()),
            ("0.90".to_string(), "s".to_string()),
            ("1.20".to_string(), "\r\n".to_string()),
        ]
    );
}

#[test]
fn command_ls_actions_are_exact() {
    let session = run(&script(&["$ ls"])).unwrap();
    assert_eq!(
        session.actions,
        vec![
            advance(3),
            advance(1),
            emit("$ "),
            advance(3),
            advance(1),
            emit("l"),
            advance(1),
            emit("s"),
            advance(3),
            emit("\r\n"),
        ]
    );
    assert_eq!(session.preview, vec![vec!["".to_string(), "ls".to_string()]]);
}

#[test]
fn run_of_empty_script_is_the_lead_in() {
    let session = run(&Vec::new()).unwrap();
    assert_eq!(session.actions, vec![advance(3)]);
    assert!(session.preview.is_empty());
}

#[test]
fn typing_a_marker_switches_bright_on_and_off() {
    let mut out: Vec<Action> = Vec::new();
    let shown = echo_typing(&mut out, "a#b#");
    assert_eq!(shown, "a#b#");
    assert_eq!(
        out,
        vec![
            advance(1),
            emit("a"),
            advance(1),
            emit("\x1b[1m"),
            emit("#"),
            advance(1),
            emit("b"),
            advance(1),
            emit("\x1b[1m"),
            emit("#"),
            emit("\x1b[0m"),
            advance(3),
            emit("\r\n"),
        ]
    );
}

#[test]
fn typing_counts_one_event_per_character_and_marker() {
    let text = "git log # all";
    let mut out: Vec<Action> = Vec::new();
    echo_typing(&mut out, text);
    let emitted = out.iter().filter(|a| matches!(a, Action::Emit { .. })).count();
    let chars = text.chars().count();
    let markers = text.chars().filter(|c| *c == '#').count();
    // characters, one toggle per marker, one restore, the line break
    assert_eq!(emitted, chars + markers + 1 + 1);
}

#[test]
fn typing_nothing_only_ends_the_line() {
    let mut out: Vec<Action> = vec![advance(7)];
    let shown = echo_typing(&mut out, "");
    assert_eq!(shown, "");
    assert_eq!(out, vec![advance(7), advance(3), emit("\r\n")]);
}

#[test]
fn typing_keeps_characters_beyond_ascii() {
    let mut out: Vec<Action> = Vec::new();
    echo_typing(&mut out, "é✓");
    assert_eq!(
        out,
        vec![advance(1), emit("é"), advance(1), emit("✓"), advance(3), emit("\r\n")]
    );
}

#[test]
fn console_line_with_label_colours_the_prompt() {
    let mut out: Vec<Action> = Vec::new();
    let preview = echo_console_line(&mut out, "(nix-shell) ", "x");
    assert_eq!(preview, vec!["(nix-shell) ".to_string(), "x".to_string()]);
    assert_eq!(
        out,
        vec![
            advance(1),
            emit("\x1b[32m(nix-shell) \x1b[0m$ "),
            advance(3),
            advance(1),
            emit("x"),
            advance(3),
            emit("\r\n"),
        ]
    );
}

#[test]
fn clear_advances_twenty_one_steps_around_one_event() {
    let mut out: Vec<Action> = Vec::new();
    clear_terminal(&mut out);
    assert_eq!(out, vec![advance(18), emit("\r\x1b[2J\r\x1b[H"), advance(3)]);
    let events = replay(&out, 0.10);
    assert_eq!(events, vec![("1.80".to_string(), "\r\x1b[2J\r\x1b[H".to_string())]);
}

#[test]
fn blank_and_comment_emit_nothing() {
    let mut out: Vec<Action> = Vec::new();
    let mut preview: Vec<Vec<String>> = Vec::new();
    assert_eq!(play_line(&mut out, &mut preview, "   ", 3), Ok(()));
    assert_eq!(out, vec![advance(3)]);
    assert_eq!(play_line(&mut out, &mut preview, "# a remark", 4), Ok(()));
    assert_eq!(out, vec![advance(3)]);
    assert_eq!(play_line(&mut out, &mut preview, "", 5), Ok(()));
    assert_eq!(out, vec![advance(3), advance(3)]);
    assert!(preview.is_empty());
}

#[test]
fn plain_line_is_emitted_where_the_clock_stands() {
    let session = run(&script(&["hello <world>"])).unwrap();
    assert_eq!(session.actions, vec![advance(3), emit("hello <world>\r\n")]);
    assert_eq!(session.preview, vec![vec!["hello <world>".to_string()]]);
    assert_eq!(
        replay(&session.actions, 0.10),
        vec![("0.30".to_string(), "hello <world>\r\n".to_string())]
    );
}

#[test]
fn timeout_moves_the_clock_by_its_seconds() {
    let session = run(&script(&["#timeout: 2.5 ", "done"])).unwrap();
    assert_eq!(session.actions, vec![advance(3), wait("2.5"), emit("done\r\n")]);
    assert_eq!(
        replay(&session.actions, 0.10),
        vec![("2.80".to_string(), "done\r\n".to_string())]
    );
}

#[test]
fn malformed_timeout_ends_the_run_after_the_earlier_lines() {
    let lines = script(&["first", "$ a", "#timeout: abc", "later", "#timeout: x"]);
    let earlier = run(&script(&["first", "$ a"])).unwrap();
    assert_eq!(
        run(&lines),
        Err(Halted { line: 2, seconds: "abc".to_string(), session: earlier.clone() })
    );
    let events = replay(&earlier.actions, 0.10);
    assert_eq!(
        events,
        vec![
            ("0.30".to_string(), "first\r\n".to_string()),
            ("0.40".to_string(), "$ ".to_string()),
            ("0.80".to_string(), "a".to_string()),
            ("1.10".to_string(), "\r\n".to_string()),
        ]
    );
}

#[test]
fn malformed_timeout_on_the_first_line_leaves_the_lead_in() {
    assert_eq!(
        run(&script(&["#timeout:", "x"])),
        Err(Halted {
            line: 0,
            seconds: String::new(),
            session: Session { actions: vec![advance(3)], preview: vec![] },
        })
    );
}

#[test]
fn play_line_refuses_a_malformed_timeout_and_adds_nothing() {
    let mut out: Vec<Action> = Vec::new();
    let mut preview: Vec<Vec<String>> = Vec::new();
    lead_in(&mut out);
    assert_eq!(play_line(&mut out, &mut preview, "x", 0), Ok(()));
    assert_eq!(
        play_line(&mut out, &mut preview, "#timeout: 1s", 1),
        Err(BadTimeout { seconds: "1s".to_string() })
    );
    assert_eq!(out, vec![advance(3), emit("x\r\n")]);
    assert_eq!(preview, vec![vec!["x".to_string()]]);
    assert_eq!(play_line(&mut out, &mut preview, "#timeout: 1e1", 2), Ok(()));
    assert_eq!(out, vec![advance(3), emit("x\r\n"), wait("1e1")]);
}

#[test]
fn header_line_is_skipped_only_at_the_top() {
    let session = run(&script(&["#! {\"step\": 0.2}", "#! not a header", "x"])).unwrap();
    assert_eq!(session.actions, vec![advance(3), emit("x\r\n")]);
    assert_eq!(classify("#! {}", 0), Line::HeaderDirective);
    assert_eq!(classify("#! {}", 1), Line::Comment);
}

#[test]
fn running_twice_gives_the_same_session() {
    let lines = script(&["#! {}", "$ echo #hi", "--", "", "out", "(nix-shell) $ ls", "#timeout: 1"]);
    assert_eq!(run(&lines), run(&lines));
}

#[test]
fn preview_has_one_line_per_command_and_plain_line() {
    let lines = script(&["# c", "$ a", "--", "", "#timeout: 1", "text", "(nix-shell) $ b"]);
    let session = run(&lines).unwrap();
    assert_eq!(
        session.preview,
        vec![
            vec!["".to_string(), "a".to_string()],
            vec!["text".to_string()],
            vec!["(nix-shell) ".to_string(), "b".to_string()],
        ]
    );
}

#[test]
fn perform_follows_the_role() {
    let mut out: Vec<Action> = Vec::new();
    let mut preview: Vec<Vec<String>> = Vec::new();
    assert_eq!(perform(&mut out, &mut preview, &Line::ClearDirective), Ok(()));
    assert_eq!(perform(&mut out, &mut preview, &Line::HeaderDirective), Ok(()));
    let pause = Line::TimeoutDirective { seconds: "4".to_string() };
    assert_eq!(perform(&mut out, &mut preview, &pause), Ok(()));
    let bad = Line::TimeoutDirective { seconds: "four".to_string() };
    assert_eq!(
        perform(&mut out, &mut preview, &bad),
        Err(BadTimeout { seconds: "four".to_string() })
    );
    assert_eq!(perform(&mut out, &mut preview, &Line::Plain { text: "p".to_string() }), Ok(()));
    assert_eq!(
        out,
        vec![advance(18), emit("\r\x1b[2J\r\x1b[H"), advance(3), wait("4"), emit("p\r\n")]
    );
    assert_eq!(preview, vec![vec!["p".to_string()]]);
}
