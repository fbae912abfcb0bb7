use asciinema_scenario::seconds::{char_is_digit, decimal_at, digit_run, spells_number, word_at};

#[test]
fn numbers_are_read() {
    for s in [
        "0", "1", "10", "1.5", "1.", ".5", "+1", "-1", "+.5e-3", "1e5", "1E5", "1.e1", "1e+10",
        "1e-10", "0.10", "007", "inf", "INF", "Inf", "+inf", "-inf", "infinity", "Infinity",
        "-INFINITY", "nan", "NaN", "+nan", "-NAN", "123456789012345678901234567890",
    ] {
        assert!(spells_number(s), "{:?}", s);
        assert!(s.parse::<f64>().is_ok(), "{:?}", s);
    }
}

#[test]
fn other_texts_are_not_read() {
    for s in [
        "", "abc", ".", "+", "-", "e1", "1e", "1e+", "1e-", "1.5.2", "1 2", " 1", "1 ", "1,5",
        "0x10", "1_000", "infinit", "infinityy", "in", "na", "nane", "++1", "+-1", "1e1.5", "1f",
        "1.e", ".e1", "+.", "١", "1e١",
    ] {
        assert!(!spells_number(s), "{:?}", s);
        assert!(s.parse::<f64>().is_err(), "{:?}", s);
    }
}

#[test]
fn every_short_text_is_judged_as_the_float_parser_judges_it() {
    let alphabet = ['0', '7', '+', '-', '.', 'e', 'E', 'i', 'n', 'f', 'a', 'N', ' ', 'x'];
    let mut texts: Vec<String> = vec![String::new()];
    let mut from = 0;
    for _ in 0..5 {
        let upto = texts.len();
        for k in from..upto {
            for c in alphabet {
                let mut t = texts[k].clone();
                t.push(c);
                texts.push(t);
            }
        }
        from = upto;
    }
    for t in &texts {
        assert_eq!(spells_number(t), t.parse::<f64>().is_ok(), "{:?}", t);
    }
}

#[test]
fn digit_runs_and_words() {
    assert_eq!(digit_run("12a", 0), 2);
    assert_eq!(digit_run("12a", 2), 2);
    assert_eq!(digit_run("12", 2), 2);
    assert_eq!(digit_run("a12", 1), 3);
    assert!(char_is_digit('0') && char_is_digit('9') && !char_is_digit('a'));
    assert!(word_at("+iNf", 1, "inf", "INF"));
    assert!(!word_at("+iNfo", 1, "inf", "INF"));
    assert!(!word_at("in", 0, "inf", "INF"));
    assert!(decimal_at("x1.5", 1));
    assert!(!decimal_at("x1.5", 0));
    assert!(!decimal_at("", 0));
}
