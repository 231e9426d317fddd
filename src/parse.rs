use vstd::prelude::*;

use crate::text::{
    chars_of, has_prefix, is_word, numeral, read_numeral, split_chars, split_on, suffix_from,
};

verus! {

/// A command typed by the operator.
#[derive(Debug)]
pub enum InputType {
    TempoChange(u16),
    TimeSignatureChange(Vec<(u8, u8)>),
    DownbeatToggle,
    Help,
    Quit,
}

/// Why a line is not a command.
#[derive(Debug, Clone, Copy, PartialEq, Eq, Structural)]
pub enum ParseError {
    UnknownCommand,
    InvalidNumber,
    MissingArgument,
}

/// The mathematical value of an `InputType`.
pub enum CommandModel {
    TempoChange(u16),
    TimeSignatureChange(Seq<(u8, u8)>),
    DownbeatToggle,
    Help,
    Quit,
}

impl View for InputType {
    type V = CommandModel;

    open spec fn view(&self) -> CommandModel {
        match self {
            InputType::TempoChange(bpm) => CommandModel::TempoChange(*bpm),
            InputType::TimeSignatureChange(bars) => CommandModel::TimeSignatureChange(bars@),
            InputType::DownbeatToggle => CommandModel::DownbeatToggle,
            InputType::Help => CommandModel::Help,
            InputType::Quit => CommandModel::Quit,
        }
    }
}

/// The mathematical value of a parse result.
pub open spec fn result_model(r: Result<InputType, ParseError>) -> Result<CommandModel, ParseError> {
    match r {
        Ok(c) => Ok(c@),
        Err(e) => Err(e),
    }
}

/// One `numerator/denominator` token, each side an 8-bit decimal numeral.
pub open spec fn pair_model(t: Seq<char>) -> Option<(u8, u8)> {
    let parts = split_on(t, '/');
    if parts.len() == 2 && numeral(parts[0], 255) is Some && numeral(parts[1], 255) is Some {
        Some(((numeral(parts[0], 255)->0) as u8, (numeral(parts[1], 255)->0) as u8))
    } else {
        None
    }
}

/// Tokens separated by single spaces; no text at all is the empty list.
pub open spec fn pairs_model(t: Seq<char>) -> Result<Seq<(u8, u8)>, ParseError> {
    let fields = split_on(t, ' ');
    if t.len() == 0 {
        Ok(Seq::empty())
    } else if forall|k: int| 0 <= k < fields.len() ==> (#[trigger] pair_model(fields[k])) is Some {
        Ok(fields.map_values(|f: Seq<char>| pair_model(f)->0))
    } else {
        Err(ParseError::InvalidNumber)
    }
}

/// `ts ` or `time signature ` followed by the bars.
pub open spec fn time_signature_model(s: Seq<char>) -> Result<CommandModel, ParseError> {
    if "ts "@.is_prefix_of(s) {
        match pairs_model(s.skip(3)) {
            Ok(bars) => Ok(CommandModel::TimeSignatureChange(bars)),
            Err(e) => Err(e),
        }
    } else if "time signature "@.is_prefix_of(s) {
        match pairs_model(s.skip(15)) {
            Ok(bars) => Ok(CommandModel::TimeSignatureChange(bars)),
            Err(e) => Err(e),
        }
    } else {
        Err(ParseError::UnknownCommand)
    }
}

/// The argument of a tempo command: a 16-bit decimal numeral.
pub open spec fn bpm_argument_model(t: Seq<char>) -> Result<CommandModel, ParseError> {
    match numeral(t, 65535) {
        Some(n) => Ok(CommandModel::TempoChange(n as u16)),
        None => Err(ParseError::InvalidNumber),
    }
}

/// `bpm ` or `tempo ` followed by the tempo.
pub open spec fn bpm_model(s: Seq<char>) -> Result<CommandModel, ParseError> {
    if "bpm "@.is_prefix_of(s) {
        bpm_argument_model(s.skip(4))
    } else if "tempo "@.is_prefix_of(s) {
        bpm_argument_model(s.skip(6))
    } else {
        Err(ParseError::UnknownCommand)
    }
}

pub open spec fn downbeat_model(s: Seq<char>) -> Result<CommandModel, ParseError> {
    if s == "db"@ || s == "downbeat"@ {
        Ok(CommandModel::DownbeatToggle)
    } else {
        Err(ParseError::UnknownCommand)
    }
}

pub open spec fn help_model(s: Seq<char>) -> Result<CommandModel, ParseError> {
    if s == "h"@ || s == "help"@ {
        Ok(CommandModel::Help)
    } else {
        Err(ParseError::UnknownCommand)
    }
}

pub open spec fn quit_model(s: Seq<char>) -> Result<CommandModel, ParseError> {
    if s == "q"@ || s == "quit"@ || s == "exit"@ {
        Ok(CommandModel::Quit)
    } else {
        Err(ParseError::UnknownCommand)
    }
}

/// The forms tried in order of priority: the first one that recognises its
/// keyword decides the result.
pub open spec fn command_model(s: Seq<char>) -> Result<CommandModel, ParseError> {
    if time_signature_model(s) != Err::<CommandModel, ParseError>(ParseError::UnknownCommand) {
        time_signature_model(s)
    } else if bpm_model(s) != Err::<CommandModel, ParseError>(ParseError::UnknownCommand) {
        bpm_model(s)
    } else if downbeat_model(s) != Err::<CommandModel, ParseError>(ParseError::UnknownCommand) {
        downbeat_model(s)
    } else if help_model(s) != Err::<CommandModel, ParseError>(ParseError::UnknownCommand) {
        help_model(s)
    } else {
        quit_model(s)
    }
}

fn pair_of(t: &Vec<char>) -> (r: Option<(u8, u8)>)
    ensures
        r == pair_model(t@),
{
    let parts = split_chars(t, '/');
    if parts.len() != 2 {
        return None;
    }
    let numerator = read_numeral(&parts[0], 255);
    let denominator = read_numeral(&parts[1], 255);
    match (numerator, denominator) {
        (Some(n), Some(d)) => Some((n as u8, d as u8)),
        _ => None,
    }
}

fn pairs_of(t: &Vec<char>) -> (r: Result<Vec<(u8, u8)>, ParseError>)
    ensures
        match r {
            Ok(bars) => pairs_model(t@) == Ok::<Seq<(u8, u8)>, ParseError>(bars@),
            Err(e) => pairs_model(t@) == Err::<Seq<(u8, u8)>, ParseError>(e),
        },
{
    let mut bars: Vec<(u8, u8)> = Vec::new();
    if t.len() == 0 {
        return Ok(bars);
    }
    let fields = split_chars(t, ' ');
    let ghost model = split_on(t@, ' ');
    let mut k: usize = 0;
    while k < fields.len()
        invariant
            t@.len() > 0,
            model == split_on(t@, ' '),
            fields.len() == model.len(),
            forall|j: int| 0 <= j < fields.len() ==> (#[trigger] fields[j])@ == model[j],
            k <= fields.len(),
            bars.len() == k,
            forall|j: int| 0 <= j < k ==> #[trigger] pair_model(model[j]) == Some(bars@[j]),
        decreases fields.len() - k,
    {
        match pair_of(&fields[k]) {
            Some(p) => bars.push(p),
            None => {
                assert(pair_model(model[k as int]) is None);
                assert(!(forall|j: int|
                    0 <= j < model.len() ==> (#[trigger] pair_model(model[j])) is Some));
                return Err(ParseError::InvalidNumber);
            },
        }
        k = k + 1;
    }
    assert(forall|j: int| 0 <= j < model.len() ==> (#[trigger] pair_model(model[j])) is Some);
    assert(bars@ =~= model.map_values(|f: Seq<char>| pair_model(f)->0));
    Ok(bars)
}

fn time_signature_from(s: &Vec<char>) -> (r: Result<InputType, ParseError>)
    ensures
        result_model(r) == time_signature_model(s@),
{
    proof {
        reveal_strlit("ts ");
        reveal_strlit("time signature ");
    }
    let start: usize = if has_prefix(s, "ts ") {
        3
    } else if has_prefix(s, "time signature ") {
        15
    } else {
        return Err(ParseError::UnknownCommand);
    };
    let rest = suffix_from(s, start);
    match pairs_of(&rest) {
        Ok(bars) => Ok(InputType::TimeSignatureChange(bars)),
        Err(e) => Err(e),
    }
}

fn bpm_from(s: &Vec<char>) -> (r: Result<InputType, ParseError>)
    ensures
        result_model(r) == bpm_model(s@),
{
    proof {
        reveal_strlit("bpm ");
        reveal_strlit("tempo ");
    }
    let start: usize = if has_prefix(s, "bpm ") {
        4
    } else if has_prefix(s, "tempo ") {
        6
    } else {
        return Err(ParseError::UnknownCommand);
    };
    let rest = suffix_from(s, start);
    match read_numeral(&rest, 65535) {
        Some(n) => Ok(InputType::TempoChange(n as u16)),
        None => Err(ParseError::InvalidNumber),
    }
}

fn downbeat_from(s: &Vec<char>) -> (r: Result<InputType, ParseError>)
    ensures
        result_model(r) == downbeat_model(s@),
{
    if is_word(s, "db") || is_word(s, "downbeat") {
        Ok(InputType::DownbeatToggle)
    } else {
        Err(ParseError::UnknownCommand)
    }
}

fn help_from(s: &Vec<char>) -> (r: Result<InputType, ParseError>)
    ensures
        result_model(r) == help_model(s@),
{
    if is_word(s, "h") || is_word(s, "help") {
        Ok(InputType::Help)
    } else {
        Err(ParseError::UnknownCommand)
    }
}

fn quit_from(s: &Vec<char>) -> (r: Result<InputType, ParseError>)
    ensures
        result_model(r) == quit_model(s@),
{
    if is_word(s, "q") || is_word(s, "quit") || is_word(s, "exit") {
        Ok(InputType::Quit)
    } else {
        Err(ParseError::UnknownCommand)
    }
}

fn is_unknown(r: &Result<InputType, ParseError>) -> (b: bool)
    ensures
        b == (result_model(*r) == Err::<CommandModel, ParseError>(ParseError::UnknownCommand)),
{
    match r {
        Err(ParseError::UnknownCommand) => true,
        _ => false,
    }
}

impl InputType {
    /// Decodes one trimmed, lower-case line of operator input.
    pub fn parse(input: &str) -> (r: Result<InputType, ParseError>)
        ensures
            result_model(r) == command_model(input@),
    {
        let s = chars_of(input);
        let r = time_signature_from(&s);
        if !is_unknown(&r) {
            return r;
        }
        let r = bpm_from(&s);
        if !is_unknown(&r) {
            return r;
        }
        let r = downbeat_from(&s);
        if !is_unknown(&r) {
            return r;
        }
        let r = help_from(&s);
        if !is_unknown(&r) {
            return r;
        }
        quit_from(&s)
    }
}

impl core::str::FromStr for InputType {
    type Err = ParseError;

    fn from_str(s: &str) -> (r: Result<InputType, ParseError>)
        ensures
            result_model(r) == command_model(s@),
    {
        InputType::parse(s)
    }
}

/// Reads one `numerator/denominator` token.
pub fn parse_individual_time_signature(i: &str) -> (r: Result<(u8, u8), ParseError>)
    ensures
        match pair_model(i@) {
            Some(p) => r == Ok::<(u8, u8), ParseError>(p),
            None => r == Err::<(u8, u8), ParseError>(ParseError::InvalidNumber),
        },
{
    let s = chars_of(i);
    match pair_of(&s) {
        Some(p) => Ok(p),
        None => Err(ParseError::InvalidNumber),
    }
}

/// Reads tokens separated by single spaces.
pub fn parse_time_signatures_to_vec(i: &str) -> (r: Result<Vec<(u8, u8)>, ParseError>)
    ensures
        match r {
            Ok(bars) => pairs_model(i@) == Ok::<Seq<(u8, u8)>, ParseError>(bars@),
            Err(e) => pairs_model(i@) == Err::<Seq<(u8, u8)>, ParseError>(e),
        },
{
    let s = chars_of(i);
    pairs_of(&s)
}

/// The time signature form alone.
pub fn parse_time_signature(i: &str) -> (r: Result<InputType, ParseError>)
    ensures
        result_model(r) == time_signature_model(i@),
{
    time_signature_from(&chars_of(i))
}

/// The tempo form alone.
pub fn parse_bpm(i: &str) -> (r: Result<InputType, ParseError>)
    ensures
        result_model(r) == bpm_model(i@),
{
    bpm_from(&chars_of(i))
}

/// The downbeat toggle form alone.
pub fn parse_downbeat_toggle(i: &str) -> (r: Result<InputType, ParseError>)
    ensures
        result_model(r) == downbeat_model(i@),
{
    downbeat_from(&chars_of(i))
}

/// The help form alone.
pub fn parse_help(i: &str) -> (r: Result<InputType, ParseError>)
    ensures
        result_model(r) == help_model(i@),
{
    help_from(&chars_of(i))
}

/// The quit form alone.
pub fn parse_quit(i: &str) -> (r: Result<InputType, ParseError>)
    ensures
        result_model(r) == quit_model(i@),
{
    quit_from(&chars_of(i))
}

} // verus!
