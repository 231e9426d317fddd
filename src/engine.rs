use vstd::prelude::*;

use tokio_util::sync::CancellationToken;

use crate::parse::{CommandModel, InputType};
use crate::schedule::{valid_bars, ConfigModel, Snapshot};

verus! {

/// Why a command was refused; the configuration is left as it was.
#[derive(Debug, Clone, Copy, PartialEq, Eq, Structural)]
pub enum EngineError {
    InvalidTempo,
    InvalidTimeSignature,
}

/// What the caller must do after a command was accepted: start a generation
/// that plays the snapshot, show the instructions, or end the process.
#[derive(Debug)]
pub enum Action {
    Play(Snapshot),
    ShowHelp,
    Exit,
}

/// The mathematical value of an `Action`.
pub enum ActionModel {
    Play(ConfigModel),
    ShowHelp,
    Exit,
}

impl View for Action {
    type V = ActionModel;

    open spec fn view(&self) -> ActionModel {
        match self {
            Action::Play(s) => ActionModel::Play(s@),
            Action::ShowHelp => ActionModel::ShowHelp,
            Action::Exit => ActionModel::Exit,
        }
    }
}

/// The mathematical value of a command's outcome.
pub open spec fn outcome_model(r: Result<Action, EngineError>) -> Result<ActionModel, EngineError> {
    match r {
        Ok(a) => Ok(a@),
        Err(e) => Err(e),
    }
}

/// Whether a command's outcome started a new generation.
pub open spec fn restarts(r: Result<ActionModel, EngineError>) -> bool {
    match r {
        Ok(ActionModel::Play(_)) => true,
        _ => false,
    }
}

/// The mathematical value of a `Metronome`: the live configuration; for each
/// token that has been replaced, in order, whether it was cancelled before it
/// was let go; and whether the current token has been cancelled. Generation
/// `g` is the one whose token came `g`-th, so the current generation is the
/// number of tokens replaced so far.
pub struct MetronomeModel {
    pub config: ConfigModel,
    pub retired: Seq<bool>,
    pub token_cancelled: bool,
}

impl MetronomeModel {
    /// The number of the current generation.
    pub open spec fn generation(self) -> nat {
        self.retired.len()
    }

    /// A playable configuration, and every generation before the current one
    /// was cancelled before its token was replaced.
    pub open spec fn wf(self) -> bool {
        &&& self.config.wf()
        &&& forall|g: int| 0 <= g < self.retired.len() ==> #[trigger] self.retired[g]
    }

    /// Whether generation `g` may still play: it is the current one and its
    /// token has not been cancelled.
    pub open spec fn is_live(self, g: nat) -> bool {
        g == self.generation() && !self.token_cancelled
    }
}

/// The configuration at process start: 100 beats per minute, no accents, one
/// bar of four quarter notes.
pub open spec fn initial_config() -> ConfigModel {
    ConfigModel { tempo: 100, downbeat: false, time_signature: seq![(4u8, 4u8)] }
}

/// A metronome at process start: the initial configuration and one token that
/// nobody has cancelled.
pub open spec fn initial_model() -> MetronomeModel {
    MetronomeModel { config: initial_config(), retired: Seq::empty(), token_cancelled: false }
}

/// Cancels the current token, lets it go, and takes a fresh one for the next
/// generation, which plays `config`.
pub open spec fn restarted(m: MetronomeModel, config: ConfigModel) -> MetronomeModel {
    MetronomeModel { config, retired: m.retired.push(true), token_cancelled: false }
}

/// What a command does to the metronome, and what it asks of the caller.
pub open spec fn apply_model(m: MetronomeModel, c: CommandModel) -> (
    MetronomeModel,
    Result<ActionModel, EngineError>,
) {
    match c {
        CommandModel::TempoChange(bpm) => {
            if bpm == 0 {
                (m, Err(EngineError::InvalidTempo))
            } else {
                let n = restarted(
                    m,
                    ConfigModel {
                        tempo: bpm,
                        downbeat: m.config.downbeat,
                        time_signature: m.config.time_signature,
                    },
                );
                (n, Ok(ActionModel::Play(n.config)))
            }
        },
        CommandModel::TimeSignatureChange(bars) => {
            if !valid_bars(bars) {
                (m, Err(EngineError::InvalidTimeSignature))
            } else {
                let n = restarted(
                    m,
                    ConfigModel {
                        tempo: m.config.tempo,
                        downbeat: m.config.downbeat,
                        time_signature: bars,
                    },
                );
                (n, Ok(ActionModel::Play(n.config)))
            }
        },
        CommandModel::DownbeatToggle => {
            let n = restarted(
                m,
                ConfigModel {
                    tempo: m.config.tempo,
                    downbeat: !m.config.downbeat,
                    time_signature: m.config.time_signature,
                },
            );
            (n, Ok(ActionModel::Play(n.config)))
        },
        CommandModel::Help => (m, Ok(ActionModel::ShowHelp)),
        CommandModel::Quit => (
            MetronomeModel { config: m.config, retired: m.retired, token_cancelled: true },
            Ok(ActionModel::Exit),
        ),
    }
}

/// How to use the metronome: every command of the language, with examples.
pub const INSTRUCTIONS: &'static str = "\nWelcome to Metronome!\n\n\
    Commands:\n\
    - Change the tempo: 'bpm' or 'tempo' followed by the beats per minute, e.g. 'bpm 100'.\n\
    - Toggle the accent on the first beat of each bar: 'db' or 'downbeat'.\n\
    - Set the time signature: 'ts' or 'time signature' followed by space separated bars, \
    e.g. 'ts 4/4 3/4' for one bar of 4/4 followed by one bar of 3/4.\n\
    - Quit: 'q', 'quit' or 'exit'.\n\
    Enter 'h' or 'help' at any time to show these instructions again.";

/// The owner of the live configuration and of the current generation's
/// cancellation token.
pub struct Metronome {
    current_token: CancellationToken,
    downbeat: bool,
    time_signature: Vec<(u8, u8)>,
    tempo: u16,
    retired: Ghost<Seq<bool>>,
    token_cancelled: Ghost<bool>,
}

impl View for Metronome {
    type V = MetronomeModel;

    closed spec fn view(&self) -> MetronomeModel {
        MetronomeModel {
            config: ConfigModel {
                tempo: self.tempo,
                downbeat: self.downbeat,
                time_signature: self.time_signature@,
            },
            retired: self.retired@,
            token_cancelled: self.token_cancelled@,
        }
    }
}

fn copy_bars(bars: &Vec<(u8, u8)>) -> (r: Vec<(u8, u8)>)
    ensures
        r@ == bars@,
{
    let mut r: Vec<(u8, u8)> = Vec::new();
    let mut i: usize = 0;
    while i < bars.len()
        invariant
            i <= bars.len(),
            r@ == bars@.take(i as int),
        decreases bars.len() - i,
    {
        r.push(bars[i]);
        i = i + 1;
        assert(r@ =~= bars@.take(i as int));
    }
    assert(r@ =~= bars@);
    r
}

/// Whether `bars` can be played.
pub fn is_valid_time_signature(bars: &Vec<(u8, u8)>) -> (r: bool)
    ensures
        r == valid_bars(bars@),
{
    if bars.len() == 0 {
        return false;
    }
    let mut i: usize = 0;
    while i < bars.len()
        invariant
            i <= bars.len(),
            forall|j: int|
                0 <= j < i ==> (#[trigger] bars@[j]).0 >= 1 && crate::schedule::valid_denominator(
                    bars@[j].1,
                ),
        decreases bars.len() - i,
    {
        let (n, d) = bars[i];
        if n == 0 || !(d == 1 || d == 2 || d == 4 || d == 8 || d == 16 || d == 32) {
            assert(!((bars@[i as int]).0 >= 1 && crate::schedule::valid_denominator(
                bars@[i as int].1,
            )));
            return false;
        }
        i = i + 1;
    }
    true
}

impl Metronome {
    /// A metronome with the initial configuration; no generation plays yet.
    pub fn new() -> (r: Metronome)
        ensures
            r@.wf(),
            r@ == initial_model(),
    {
        let time_signature = vec![(4u8, 4u8)];
        assert(time_signature@ =~= seq![(4u8, 4u8)]);
        Metronome {
            current_token: CancellationToken::new(),
            downbeat: false,
            time_signature,
            tempo: 100,
            retired: Ghost(Seq::empty()),
            token_cancelled: Ghost(false),
        }
    }

    /// The token of the current generation, as a value.
    pub closed spec fn token(&self) -> CancellationToken {
        self.current_token
    }

    /// Relies on tokio_util's CancellationToken::cancel, which marks the token
    /// and all its clones as cancelled for good.
    #[verifier::external_body]
    fn cancel_current(&mut self)
        ensures
            final(self)@ == (MetronomeModel {
                config: old(self)@.config,
                retired: old(self)@.retired,
                token_cancelled: true,
            }),
            final(self).token() == old(self).token(),
    {
        self.current_token.cancel();
    }

    /// Relies on tokio_util's CancellationToken::new, which makes a token in the
    /// non-cancelled state, shared with no earlier token.
    #[verifier::external_body]
    fn fresh_token(&mut self)
        ensures
            final(self)@ == (MetronomeModel {
                config: old(self)@.config,
                retired: old(self)@.retired,
                token_cancelled: false,
            }),
    {
        self.current_token = CancellationToken::new();
    }

    /// The token of the current generation, for the task that plays it.
    pub fn current_token(&self) -> &CancellationToken {
        &self.current_token
    }

    /// The instructions shown at start and on request.
    pub fn instructions(&self) -> (r: &'static str)
        ensures
            r@ == INSTRUCTIONS@,
    {
        INSTRUCTIONS
    }

    /// A copy of the live configuration.
    pub fn snapshot(&self) -> (r: Snapshot)
        ensures
            r@ == self@.config,
    {
        Snapshot {
            tempo: self.tempo,
            downbeat: self.downbeat,
            time_signature: copy_bars(&self.time_signature),
        }
    }

    /// Cancels the current generation, starts the next one with a fresh token,
    /// and returns the configuration that it is to play.
    pub fn restart_task(&mut self) -> (r: Snapshot)
        requires
            old(self)@.wf(),
        ensures
            final(self)@ == restarted(old(self)@, old(self)@.config),
            final(self)@.wf(),
            r@ == final(self)@.config,
    {
        self.cancel_current();
        self.retired = Ghost(self.retired@.push(self.token_cancelled@));
        self.fresh_token();
        self.snapshot()
    }

    /// Carries out one command: changes the configuration and restarts
    /// playback, or refuses the change and leaves everything as it was.
    pub fn apply(&mut self, command: InputType) -> (r: Result<Action, EngineError>)
        requires
            old(self)@.wf(),
        ensures
            (final(self)@, outcome_model(r)) == apply_model(old(self)@, command@),
            final(self)@.wf(),
            !restarts(outcome_model(r)) ==> final(self).token() == old(self).token(),
    {
        match command {
            InputType::TempoChange(bpm) => {
                if bpm == 0 {
                    return Err(EngineError::InvalidTempo);
                }
                self.tempo = bpm;
            },
            InputType::TimeSignatureChange(bars) => {
                if !is_valid_time_signature(&bars) {
                    return Err(EngineError::InvalidTimeSignature);
                }
                self.time_signature = bars;
            },
            InputType::DownbeatToggle => {
                self.downbeat = !self.downbeat;
            },
            InputType::Help => {
                return Ok(Action::ShowHelp);
            },
            InputType::Quit => {
                self.cancel_current();
                return Ok(Action::Exit);
            },
        }
        let snapshot = self.restart_task();
        Ok(Action::Play(snapshot))
    }
}

impl Default for Metronome {
    fn default() -> (r: Metronome)
        ensures
            r@.wf(),
            r@ == initial_model(),
    {
        Metronome::new()
    }
}

/// A tempo of zero is refused and changes nothing.
pub proof fn lemma_zero_tempo_refused(m: MetronomeModel)
    ensures
        apply_model(m, CommandModel::TempoChange(0)) == (m, Err::<ActionModel, EngineError>(
            EngineError::InvalidTempo,
        )),
{
}

/// An empty time signature is refused and changes nothing.
pub proof fn lemma_empty_time_signature_refused(m: MetronomeModel)
    ensures
        apply_model(m, CommandModel::TimeSignatureChange(Seq::empty())) == (
            m,
            Err::<ActionModel, EngineError>(EngineError::InvalidTimeSignature),
        ),
{
}

/// After two accepted changes in a row exactly one generation is live, the
/// one the second change started; it plays the configuration after the second
/// change, and the token that was current before the first change and the one
/// the first change took were both cancelled before they were let go.
pub proof fn lemma_latest_change_wins(m: MetronomeModel, c1: CommandModel, c2: CommandModel)
    requires
        m.wf(),
        restarts(apply_model(m, c1).1),
        restarts(apply_model(apply_model(m, c1).0, c2).1),
    ensures
        ({
            let m1 = apply_model(m, c1).0;
            let (m2, r2) = apply_model(m1, c2);
            &&& m2.wf()
            &&& m2.is_live(m2.generation())
            &&& forall|g: nat| g != m2.generation() ==> !#[trigger] m2.is_live(g)
            &&& m2.retired == m.retired.push(true).push(true)
            &&& m1.generation() == m.generation() + 1
            &&& m2.generation() == m.generation() + 2
            &&& r2 == Ok::<ActionModel, EngineError>(ActionModel::Play(m2.config))
        }),
{
    let m1 = apply_model(m, c1).0;
    let m2 = apply_model(m1, c2).0;
    assert(m1.wf());
    assert(m2.wf());
}

} // verus!
