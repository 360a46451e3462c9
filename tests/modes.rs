use modal_keys::grammar::{
    digit_from_char, Direction, Motion, ObjMotion, ObjRange, Operator, TextObject,
};
use modal_keys::modes::{Command, Mode, Normal, NormalMinor, Operation};

fn normal_parse(input: &str) -> Option<Command> {
    let mut mode = Mode::default();
    for ch in input.chars() {
        if let Some(cmd) = mode.consume_char(ch) {
            return Some(cmd);
        }
    }
    None
}

fn minor_of(mode: &Mode) -> NormalMinor {
    match mode {
        Mode::Normal(normal) => normal.minor.clone(),
    }
}

fn feed_all(mode: &mut Mode, input: &str) -> Vec<Option<Command>> {
    let mut out = Vec::new();
    for ch in input.chars() {
        out.push(mode.consume_char(ch));
    }
    out
}

#[test]
fn test_subword_motion() {
    let expectations = [
        ("w", Some(Command::Motion(1, Motion::Subword, Direction::Forward))),
        ("2w", Some(Command::Motion(2, Motion::Subword, Direction::Forward))),
        ("340w", Some(Command::Motion(340, Motion::Subword, Direction::Forward))),
    ];
    for (input, expected) in expectations.iter() {
        assert_eq!(normal_parse(input), *expected);
    }
}

#[test]
fn test_word_motion() {
    let expectations = [
        ("W", Some(Command::Motion(1, Motion::Word, Direction::Forward))),
        ("2W", Some(Command::Motion(2, Motion::Word, Direction::Forward))),
        ("340W", Some(Command::Motion(340, Motion::Word, Direction::Forward))),
    ];
    for (input, expected) in expectations.iter() {
        assert_eq!(normal_parse(input), *expected);
    }
}

#[test]
fn test_hjkl_motion() {
    let expectations = [
        ("h", Some(Command::Motion(1, Motion::Char, Direction::Backward))),
        ("j", Some(Command::Motion(1, Motion::Line, Direction::Forward))),
        ("k", Some(Command::Motion(1, Motion::Line, Direction::Backward))),
        ("l", Some(Command::Motion(1, Motion::Char, Direction::Forward))),
    ];
    for (input, expected) in expectations.iter() {
        assert_eq!(normal_parse(input), *expected);
    }
}

#[test]
fn test_word_end_motion() {
    let expectations = [
        ("e", Some(Command::Motion(1, Motion::SubwordEnd, Direction::Forward))),
        ("E", Some(Command::Motion(1, Motion::WordEnd, Direction::Forward))),
        ("2e", Some(Command::Motion(2, Motion::SubwordEnd, Direction::Forward))),
        ("2E", Some(Command::Motion(2, Motion::WordEnd, Direction::Forward))),
        ("340e", Some(Command::Motion(340, Motion::SubwordEnd, Direction::Forward))),
        ("340E", Some(Command::Motion(340, Motion::WordEnd, Direction::Forward))),
    ];
    for (input, expected) in expectations.iter() {
        assert_eq!(normal_parse(input), *expected);
    }
}

#[test]
fn test_word_back_motion() {
    let expectations = [
        ("b", Some(Command::Motion(1, Motion::Subword, Direction::Backward))),
        ("B", Some(Command::Motion(1, Motion::Word, Direction::Backward))),
        ("2b", Some(Command::Motion(2, Motion::Subword, Direction::Backward))),
        ("2B", Some(Command::Motion(2, Motion::Word, Direction::Backward))),
        ("340b", Some(Command::Motion(340, Motion::Subword, Direction::Backward))),
        ("340B", Some(Command::Motion(340, Motion::Word, Direction::Backward))),
    ];
    for (input, expected) in expectations.iter() {
        assert_eq!(normal_parse(input), *expected);
    }
}

#[test]
fn digits_then_motion_scale_the_count() {
    let mut mode = Mode::default();
    let out = feed_all(&mut mode, "12e");
    assert_eq!(
        out,
        vec![None, None, Some(Command::Motion(12, Motion::SubwordEnd, Direction::Forward))]
    );
    assert_eq!(minor_of(&mode), NormalMinor::Initial(None));
    assert_eq!(
        normal_parse("007k"),
        Some(Command::Motion(7, Motion::Line, Direction::Backward))
    );
}

#[test]
fn zero_count_means_one() {
    assert_eq!(
        normal_parse("0w"),
        Some(Command::Motion(1, Motion::Subword, Direction::Forward))
    );
    assert_eq!(
        normal_parse("00dl"),
        Some(Command::Operation(Operation::Motion(
            1,
            Operator::Delete,
            Motion::Char,
            Direction::Forward
        )))
    );
}

#[test]
fn long_digit_run_saturates() {
    let input = format!("{}w", "9".repeat(40));
    assert_eq!(
        normal_parse(&input),
        Some(Command::Motion(usize::MAX, Motion::Subword, Direction::Forward))
    );
    let mut mode = Mode::default();
    feed_all(&mut mode, &"7".repeat(25));
    assert_eq!(minor_of(&mode), NormalMinor::Initial(Some(usize::MAX)));
}

#[test]
fn bare_motion_counts_one() {
    assert_eq!(
        normal_parse("B"),
        Some(Command::Motion(1, Motion::Word, Direction::Backward))
    );
}

#[test]
fn operator_then_motion() {
    assert_eq!(
        normal_parse("dw"),
        Some(Command::Operation(Operation::Motion(
            1,
            Operator::Delete,
            Motion::Subword,
            Direction::Forward
        )))
    );
    let mut mode = Mode::default();
    let out = feed_all(&mut mode, "5ch");
    assert_eq!(
        out,
        vec![
            None,
            None,
            Some(Command::Operation(Operation::Motion(
                5,
                Operator::Change,
                Motion::Char,
                Direction::Backward
            )))
        ]
    );
    assert_eq!(minor_of(&mode), NormalMinor::default());
}

#[test]
fn operator_then_text_object() {
    assert_eq!(
        normal_parse("3diw"),
        Some(Command::Operation(Operation::TextObject(
            3,
            Operator::Delete,
            TextObject(ObjRange::Inner, ObjMotion::Word)
        )))
    );
    assert_eq!(
        normal_parse("yaw"),
        Some(Command::Operation(Operation::TextObject(
            1,
            Operator::Yank,
            TextObject(ObjRange::Outer, ObjMotion::Word)
        )))
    );
    let mut mode = Mode::default();
    let out = feed_all(&mut mode, "12va");
    assert_eq!(out, vec![None, None, None, None]);
    assert_eq!(
        minor_of(&mode),
        NormalMinor::TextObjectPending(12, Operator::Visual, ObjRange::Outer)
    );
}

#[test]
fn invalid_continuation_resets_without_reprocessing() {
    let mut mode = Mode::default();
    let out = feed_all(&mut mode, "d9");
    assert_eq!(out, vec![None, None]);
    assert_eq!(minor_of(&mode), NormalMinor::Initial(None));
    assert_eq!(
        mode.consume_char('w'),
        Some(Command::Motion(1, Motion::Subword, Direction::Forward))
    );

    let mut mode = Mode::default();
    assert_eq!(feed_all(&mut mode, "3dix"), vec![None, None, None, None]);
    assert_eq!(minor_of(&mode), NormalMinor::Initial(None));

    let mut mode = Mode::default();
    assert_eq!(feed_all(&mut mode, "42q"), vec![None, None, None]);
    assert_eq!(minor_of(&mode), NormalMinor::Initial(None));
    assert_eq!(
        mode.consume_char('j'),
        Some(Command::Motion(1, Motion::Line, Direction::Forward))
    );

    // The dropped character is not read as the start of a new sequence.
    let mut mode = Mode::default();
    assert_eq!(feed_all(&mut mode, "d0"), vec![None, None]);
    assert_eq!(minor_of(&mode), NormalMinor::Initial(None));
}

#[test]
fn state_after_command_is_fresh() {
    let fresh = minor_of(&Mode::default());
    for input in ["w", "4E", "dw", "2c3l", "yiw", "vaw"] {
        let mut mode = Mode::default();
        let out = feed_all(&mut mode, input);
        assert!(out.last().unwrap().is_some());
        assert_eq!(minor_of(&mode), fresh);
    }
    for input in ["z", "dz", "diz", "5ix"] {
        let mut mode = Mode::default();
        let out = feed_all(&mut mode, input);
        assert!(out.iter().all(|o| o.is_none()));
        assert_eq!(minor_of(&mode), fresh);
    }
}

#[test]
fn normal_and_minor_consume_alike() {
    let mut normal = Normal::default();
    let mut minor = NormalMinor::default();
    for ch in "2d3".chars() {
        assert_eq!(normal.consume_char(ch), minor.consume_char(ch));
    }
    assert_eq!(normal.minor, minor);
    assert_eq!(minor, NormalMinor::Initial(None));
}

#[test]
fn classifiers() {
    assert_eq!(Operator::from_char('c'), Some(Operator::Change));
    assert_eq!(Operator::from_char('d'), Some(Operator::Delete));
    assert_eq!(Operator::from_char('y'), Some(Operator::Yank));
    assert_eq!(Operator::from_char('v'), Some(Operator::Visual));
    assert_eq!(Operator::from_char('x'), None);
    assert_eq!(ObjRange::from_char('i'), Some(ObjRange::Inner));
    assert_eq!(ObjRange::from_char('a'), Some(ObjRange::Outer));
    assert_eq!(ObjRange::from_char('w'), None);
    assert_eq!(ObjMotion::from_char('w'), Some(ObjMotion::Word));
    assert_eq!(ObjMotion::from_char('W'), None);
    assert_eq!(Motion::from_char('x'), None);
    assert_eq!(Direction::from_char('x'), None);
    for ch in "hjklwWeEbB".chars() {
        assert!(Motion::from_char(ch).is_some());
        assert!(Direction::from_char(ch).is_some());
    }
    for (i, ch) in "0123456789".chars().enumerate() {
        assert_eq!(digit_from_char(ch), Some(i));
    }
    assert_eq!(digit_from_char('a'), None);
    assert_eq!(digit_from_char('/'), None);
    assert_eq!(digit_from_char(':'), None);
}
