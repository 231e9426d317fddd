use metronome::parse::{
    parse_bpm, parse_downbeat_toggle, parse_help, parse_individual_time_signature, parse_quit,
    parse_time_signature, parse_time_signatures_to_vec, InputType, ParseError,
};

fn assert_variant(actual: &InputType, expected: &InputType) {
    assert_eq!(std::mem::discriminant(actual), std::mem::discriminant(expected));
}

fn bars_of(r: Result<InputType, ParseError>) -> Vec<(u8, u8)> {
    match r {
        Ok(InputType::TimeSignatureChange(bars)) => bars,
        other => panic!("not a time signature: {:?}", other),
    }
}

#[test]
fn test_parse_help() {
    let actual = parse_help("h").unwrap();
    let expected = InputType::Help;
    assert_variant(&actual, &expected);

    let actual = parse_help("help").unwrap();
    assert_variant(&actual, &expected);
}

#[test]
fn test_parse_quit() {
    let actual = parse_quit("q").unwrap();
    let expected = InputType::Quit;
    assert_variant(&actual, &expected);

    let actual = parse_quit("quit").unwrap();
    assert_variant(&actual, &expected);

    let actual = parse_quit("quit").unwrap();
    assert_variant(&actual, &expected);
}

#[test]
fn test_parse_downbeat_toggle() {
    let actual = parse_downbeat_toggle("db").unwrap();
    let expected = InputType::DownbeatToggle;
    assert_variant(&actual, &expected);

    let actual = parse_downbeat_toggle("downbeat").unwrap();
    assert_variant(&actual, &expected);
}

#[test]
fn test_parse_time_signature() {
    let actual = parse_time_signature("ts 4/4").unwrap();
    let expected = InputType::TimeSignatureChange(vec![]);
    assert_variant(&actual, &expected);

    let actual = parse_time_signature("time signature 4/4 3/4").unwrap();
    assert_variant(&actual, &expected);
}

#[test]
fn test_parse_bpm() {
    let actual = parse_bpm("bpm 200").unwrap();
    let expected = InputType::TempoChange(0_u16);
    assert_variant(&actual, &expected);

    let actual = parse_bpm("tempo 200").unwrap();
    assert_variant(&actual, &expected);
}

#[test]
fn test_parse_individual_time_signature() {
    let actual = parse_individual_time_signature("3/4").unwrap();
    assert_eq!(actual, (3_u8, 4_u8));
}

#[test]
fn test_parse_multiple_time_signature() {
    let actual = parse_time_signatures_to_vec("3/4 4/4 5/4").unwrap();
    let expected = vec![(3_u8, 4_u8), (4_u8, 4_u8), (5_u8, 4_u8)];
    assert_eq!(actual, expected);
}

#[test]
fn bpm_and_tempo_give_the_same_change() {
    assert!(matches!(InputType::parse("bpm 120"), Ok(InputType::TempoChange(120))));
    assert!(matches!(InputType::parse("tempo 120"), Ok(InputType::TempoChange(120))));
}

#[test]
fn time_signature_lists_bars_in_order() {
    assert_eq!(bars_of(InputType::parse("ts 4/4 3/4")), vec![(4, 4), (3, 4)]);
    assert_eq!(
        bars_of(InputType::parse("time signature 7/8 5/16")),
        vec![(7, 8), (5, 16)]
    );
}

#[test]
fn downbeat_needs_an_exact_word() {
    assert!(matches!(InputType::parse("db"), Ok(InputType::DownbeatToggle)));
    assert!(matches!(InputType::parse("downbeat"), Ok(InputType::DownbeatToggle)));
    assert!(matches!(InputType::parse("downbeatx"), Err(ParseError::UnknownCommand)));
    assert!(matches!(InputType::parse("dbx"), Err(ParseError::UnknownCommand)));
}

#[test]
fn quit_words_and_unknown_input() {
    assert!(matches!(InputType::parse("q"), Ok(InputType::Quit)));
    assert!(matches!(InputType::parse("quit"), Ok(InputType::Quit)));
    assert!(matches!(InputType::parse("exit"), Ok(InputType::Quit)));
    assert!(matches!(InputType::parse("xyz"), Err(ParseError::UnknownCommand)));
    assert!(matches!(InputType::parse(""), Err(ParseError::UnknownCommand)));
}

#[test]
fn help_words() {
    assert!(matches!(InputType::parse("h"), Ok(InputType::Help)));
    assert!(matches!(InputType::parse("help"), Ok(InputType::Help)));
    assert!(matches!(InputType::parse("helpme"), Err(ParseError::UnknownCommand)));
}

#[test]
fn tempo_argument_errors() {
    assert!(matches!(InputType::parse("bpm 65535"), Ok(InputType::TempoChange(65535))));
    assert!(matches!(InputType::parse("bpm 007"), Ok(InputType::TempoChange(7))));
    assert!(matches!(InputType::parse("bpm 0"), Ok(InputType::TempoChange(0))));
    assert!(matches!(InputType::parse("bpm 65536"), Err(ParseError::InvalidNumber)));
    assert!(matches!(InputType::parse("bpm 99999999999"), Err(ParseError::InvalidNumber)));
    assert!(matches!(InputType::parse("tempo fast"), Err(ParseError::InvalidNumber)));
    assert!(matches!(InputType::parse("bpm 12x"), Err(ParseError::InvalidNumber)));
    assert!(matches!(InputType::parse("bpm -5"), Err(ParseError::InvalidNumber)));
    assert!(matches!(InputType::parse("bpm "), Err(ParseError::InvalidNumber)));
    assert!(matches!(InputType::parse("tempo "), Err(ParseError::InvalidNumber)));
    assert!(matches!(InputType::parse("bpm"), Err(ParseError::UnknownCommand)));
    assert!(matches!(InputType::parse("tempo"), Err(ParseError::UnknownCommand)));
}

#[test]
fn time_signature_argument_errors() {
    assert_eq!(bars_of(InputType::parse("ts ")), Vec::<(u8, u8)>::new());
    assert!(matches!(InputType::parse("ts 4/x"), Err(ParseError::InvalidNumber)));
    assert!(matches!(InputType::parse("ts 4/256"), Err(ParseError::InvalidNumber)));
    assert!(matches!(InputType::parse("ts 4"), Err(ParseError::InvalidNumber)));
    assert!(matches!(InputType::parse("ts 4/4/4"), Err(ParseError::InvalidNumber)));
    assert!(matches!(InputType::parse("ts 4/4  3/4"), Err(ParseError::InvalidNumber)));
    assert!(matches!(InputType::parse("ts 4/4 "), Err(ParseError::InvalidNumber)));
    assert!(matches!(InputType::parse("ts"), Err(ParseError::UnknownCommand)));
    assert!(matches!(InputType::parse("time signature"), Err(ParseError::UnknownCommand)));
    assert_eq!(bars_of(InputType::parse("ts 0/3")), vec![(0, 3)]);
    assert_eq!(bars_of(InputType::parse("ts 255/255")), vec![(255, 255)]);
}

#[test]
fn individual_and_list_errors() {
    assert_eq!(parse_individual_time_signature("3/"), Err(ParseError::InvalidNumber));
    assert_eq!(parse_individual_time_signature("12/8"), Ok((12, 8)));
    assert_eq!(parse_time_signatures_to_vec(""), Ok(vec![]));
    assert_eq!(parse_time_signatures_to_vec("3/4 x"), Err(ParseError::InvalidNumber));
}

#[test]
fn sub_parsers_leave_other_commands_alone() {
    assert!(matches!(parse_bpm("db"), Err(ParseError::UnknownCommand)));
    assert!(matches!(parse_time_signature("bpm 3"), Err(ParseError::UnknownCommand)));
    assert!(matches!(parse_help("quit"), Err(ParseError::UnknownCommand)));
    assert!(matches!(parse_quit("quitter"), Err(ParseError::UnknownCommand)));
    assert!(matches!(parse_downbeat_toggle("down"), Err(ParseError::UnknownCommand)));
}

#[test]
fn from_str_parses_like_parse() {
    assert!(matches!("exit".parse::<InputType>(), Ok(InputType::Quit)));
    assert!(matches!("bpm 90".parse::<InputType>(), Ok(InputType::TempoChange(90))));
    assert!(matches!("nope".parse::<InputType>(), Err(ParseError::UnknownCommand)));
}
