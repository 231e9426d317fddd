use vstd::prelude::*;

use tokio_util::sync::CancellationToken;

verus! {

/// Nanoseconds in one minute.
pub const NANOS_PER_MINUTE: u64 = 60_000_000_000;

/// A denominator whose note length is a power-of-two fraction of a whole note.
pub open spec fn valid_denominator(d: u8) -> bool {
    d == 1 || d == 2 || d == 4 || d == 8 || d == 16 || d == 32
}

/// A playable time signature: at least one bar, each with a beat and a
/// supported denominator.
pub open spec fn valid_bars(bars: Seq<(u8, u8)>) -> bool {
    &&& bars.len() > 0
    &&& forall|i: int|
        0 <= i < bars.len() ==> (#[trigger] bars[i]).0 >= 1 && valid_denominator(bars[i].1)
}

/// The quarter-note pulse at `tempo` beats per minute, in nanoseconds.
pub open spec fn base_interval(tempo: u16) -> nat
    recommends
        tempo > 0,
{
    NANOS_PER_MINUTE as nat / tempo as nat
}

/// The pulse for a bar with denominator `d`, from the quarter-note pulse `base`:
/// the shorter the notated beat, the shorter the pulse.
pub open spec fn resolved_interval(base: nat, d: u8) -> nat {
    if d == 1 {
        base * 4
    } else if d == 2 {
        base * 2
    } else if d == 4 {
        base
    } else if d == 8 {
        base / 2
    } else if d == 16 {
        base / 4
    } else {
        base / 8
    }
}

/// The quarter-note pulse at `tempo` beats per minute, in nanoseconds.
pub fn base_interval_nanos(tempo: u16) -> (r: u64)
    requires
        tempo > 0,
    ensures
        r == base_interval(tempo),
        r <= NANOS_PER_MINUTE,
{
    NANOS_PER_MINUTE / (tempo as u64)
}

/// The pulse for a bar with denominator `d`.
pub fn resolved_interval_nanos(base: u64, d: u8) -> (r: u64)
    requires
        base <= u64::MAX / 4,
        valid_denominator(d),
    ensures
        r == resolved_interval(base as nat, d),
{
    if d == 1 {
        base * 4
    } else if d == 2 {
        base * 2
    } else if d == 4 {
        base
    } else if d == 8 {
        base / 2
    } else if d == 16 {
        base / 4
    } else {
        base / 8
    }
}

/// The pulse of each bar of `time_signature`, in order, from the quarter-note
/// pulse `pause`.
pub fn calculate_pause_durations(time_signature: &Vec<(u8, u8)>, pause: u64) -> (r: Vec<u64>)
    requires
        pause <= u64::MAX / 4,
        forall|i: int|
            0 <= i < time_signature.len() ==> valid_denominator((#[trigger] time_signature[i]).1),
    ensures
        r.len() == time_signature.len(),
        forall|i: int|
            0 <= i < r.len() ==> #[trigger] r[i] == resolved_interval(
                pause as nat,
                time_signature[i].1,
            ),
{
    let mut r: Vec<u64> = Vec::new();
    let mut i: usize = 0;
    while i < time_signature.len()
        invariant
            pause <= u64::MAX / 4,
            forall|j: int|
                0 <= j < time_signature.len() ==> valid_denominator(
                    (#[trigger] time_signature[j]).1,
                ),
            i <= time_signature.len(),
            r.len() == i,
            forall|j: int|
                0 <= j < i ==> #[trigger] r[j] == resolved_interval(
                    pause as nat,
                    time_signature[j].1,
                ),
        decreases time_signature.len() - i,
    {
        let d = time_signature[i].1;
        r.push(resolved_interval_nanos(pause, d));
        i = i + 1;
    }
    r
}

/// The two sounds of the metronome.
#[derive(Debug, Clone, Copy, PartialEq, Eq, Structural)]
pub enum Sound {
    Downbeat,
    Pulse,
}

/// What a running generation does next: play a sound and then wait the given
/// number of nanoseconds, or stop for good.
#[derive(Debug, Clone, Copy, PartialEq, Eq, Structural)]
pub enum Step {
    Play(Sound, u64),
    Stop,
}

/// The configuration that one generation plays, fixed when it starts.
#[derive(Debug)]
pub struct Snapshot {
    pub tempo: u16,
    pub downbeat: bool,
    pub time_signature: Vec<(u8, u8)>,
}

/// The mathematical value of a `Snapshot`.
pub struct ConfigModel {
    pub tempo: u16,
    pub downbeat: bool,
    pub time_signature: Seq<(u8, u8)>,
}

impl ConfigModel {
    pub open spec fn wf(self) -> bool {
        self.tempo > 0 && valid_bars(self.time_signature)
    }
}

impl View for Snapshot {
    type V = ConfigModel;

    open spec fn view(&self) -> ConfigModel {
        ConfigModel {
            tempo: self.tempo,
            downbeat: self.downbeat,
            time_signature: self.time_signature@,
        }
    }
}

/// The mathematical value of a `Player`: its configuration, the bar and the
/// beat within it that come next, and whether it has stopped.
pub struct PlayerModel {
    pub config: ConfigModel,
    pub bar: nat,
    pub beat: nat,
    pub stopped: bool,
}

impl PlayerModel {
    pub open spec fn wf(self) -> bool {
        &&& self.config.wf()
        &&& self.bar < self.config.time_signature.len()
        &&& self.beat < self.config.time_signature[self.bar as int].0
    }

    pub open spec fn stop(self) -> PlayerModel {
        PlayerModel { config: self.config, bar: self.bar, beat: self.beat, stopped: true }
    }

    /// The position after the beat at `bar`, `beat`: the next beat of the
    /// bar, or the first beat of the next bar, the first bar following the last.
    pub open spec fn advance(self) -> PlayerModel {
        let bars = self.config.time_signature;
        if self.beat + 1 < bars[self.bar as int].0 {
            PlayerModel {
                config: self.config,
                bar: self.bar,
                beat: self.beat + 1,
                stopped: self.stopped,
            }
        } else {
            PlayerModel {
                config: self.config,
                bar: (self.bar + 1) % bars.len(),
                beat: 0,
                stopped: self.stopped,
            }
        }
    }
}

/// One step of a generation: it stops for good once it has been cancelled;
/// without accents it plays a pulse each quarter note; with them it plays a
/// downbeat on the first beat of each bar and pulses on the others, waiting
/// the pulse of that bar after each.
pub open spec fn step_model(p: PlayerModel, cancelled: bool) -> (PlayerModel, Step) {
    if p.stopped || cancelled {
        (p.stop(), Step::Stop)
    } else if !p.config.downbeat {
        (p, Step::Play(Sound::Pulse, base_interval(p.config.tempo) as u64))
    } else {
        let d = p.config.time_signature[p.bar as int].1;
        let sound = if p.beat == 0 {
            Sound::Downbeat
        } else {
            Sound::Pulse
        };
        (
            p.advance(),
            Step::Play(sound, resolved_interval(base_interval(p.config.tempo), d) as u64),
        )
    }
}

/// The steps of a generation from `p`, when the k-th step sees `cancels[k]`.
pub open spec fn run(p: PlayerModel, cancels: Seq<bool>) -> Seq<Step>
    decreases cancels.len(),
{
    if cancels.len() == 0 {
        Seq::empty()
    } else {
        let (q, s) = step_model(p, cancels[0]);
        seq![s] + run(q, cancels.drop_first())
    }
}

/// Once a generation has seen its cancellation it plays nothing more, whatever
/// it is told afterwards.
pub proof fn lemma_cancellation_is_final(p: PlayerModel, cancels: Seq<bool>, k: int)
    requires
        0 <= k < cancels.len(),
        cancels[k],
    ensures
        run(p, cancels).len() == cancels.len(),
        forall|i: int| k <= i < cancels.len() ==> #[trigger] run(p, cancels)[i] == Step::Stop,
    decreases cancels.len(),
{
    lemma_run_len(p, cancels);
    if k == 0 {
        lemma_stopped_stays_silent(step_model(p, true).0, cancels.drop_first());
    } else {
        let (q, s) = step_model(p, cancels[0]);
        lemma_cancellation_is_final(q, cancels.drop_first(), k - 1);
    }
    assert forall|i: int| k <= i < cancels.len() implies #[trigger] run(p, cancels)[i]
        == Step::Stop by {
        let (q, s) = step_model(p, cancels[0]);
        if i > 0 {
            assert(run(p, cancels)[i] == run(q, cancels.drop_first())[i - 1]);
        }
    }
}

proof fn lemma_run_len(p: PlayerModel, cancels: Seq<bool>)
    ensures
        run(p, cancels).len() == cancels.len(),
    decreases cancels.len(),
{
    if cancels.len() > 0 {
        lemma_run_len(step_model(p, cancels[0]).0, cancels.drop_first());
    }
}

proof fn lemma_stopped_stays_silent(p: PlayerModel, cancels: Seq<bool>)
    requires
        p.stopped,
    ensures
        forall|i: int| 0 <= i < cancels.len() ==> #[trigger] run(p, cancels)[i] == Step::Stop,
    decreases cancels.len(),
{
    lemma_run_len(p, cancels);
    if cancels.len() > 0 {
        let q = step_model(p, cancels[0]).0;
        lemma_stopped_stays_silent(q, cancels.drop_first());
        lemma_run_len(q, cancels.drop_first());
        assert forall|i: int| 0 <= i < cancels.len() implies #[trigger] run(p, cancels)[i]
            == Step::Stop by {
            if i > 0 {
                assert(run(p, cancels)[i] == run(q, cancels.drop_first())[i - 1]);
            }
        }
    }
}

/// The next `k` steps of a generation that is not cancelled meanwhile.
pub open spec fn uncancelled(p: PlayerModel, k: nat) -> Seq<Step>
    decreases k,
{
    if k == 0 {
        Seq::empty()
    } else {
        let (q, s) = step_model(p, false);
        seq![s] + uncancelled(q, (k - 1) as nat)
    }
}

/// The position of a generation after `k` steps that are not cancelled.
pub open spec fn after(p: PlayerModel, k: nat) -> PlayerModel
    decreases k,
{
    if k == 0 {
        p
    } else {
        after(step_model(p, false).0, (k - 1) as nat)
    }
}

/// The sound and wait of the beat at position `beat` of bar `bar` of `config`.
pub open spec fn beat_step(config: ConfigModel, bar: nat, beat: nat) -> Step {
    Step::Play(
        if beat == 0 {
            Sound::Downbeat
        } else {
            Sound::Pulse
        },
        resolved_interval(base_interval(config.tempo), config.time_signature[bar as int].1) as u64,
    )
}

/// With accents, a generation plays the rest of the current bar beat by beat,
/// the first beat of the bar as a downbeat and each other as a pulse, all with
/// the bar's own pulse, and then stands on the first beat of the next bar,
/// the first bar following the last.
pub proof fn lemma_rest_of_bar(p: PlayerModel)
    requires
        p.wf(),
        p.config.downbeat,
        !p.stopped,
    ensures
        ({
            let n = p.config.time_signature[p.bar as int].0 as nat;
            let k = (n - p.beat) as nat;
            &&& uncancelled(p, k).len() == k
            &&& forall|i: int|
                0 <= i < k ==> #[trigger] uncancelled(p, k)[i] == beat_step(
                    p.config,
                    p.bar,
                    (p.beat + i) as nat,
                )
            &&& after(p, k) == PlayerModel {
                config: p.config,
                bar: (p.bar + 1) % p.config.time_signature.len(),
                beat: 0,
                stopped: false,
            }
        }),
    decreases p.config.time_signature[p.bar as int].0 - p.beat,
{
    let n = p.config.time_signature[p.bar as int].0 as nat;
    let k = (n - p.beat) as nat;
    let q = step_model(p, false).0;
    if p.beat + 1 < n {
        lemma_rest_of_bar(q);
        assert(q.bar == p.bar && q.beat == p.beat + 1 && q.config == p.config);
        assert(uncancelled(p, k) == seq![beat_step(p.config, p.bar, p.beat)] + uncancelled(
            q,
            (k - 1) as nat,
        ));
        assert(after(p, k) == after(q, (k - 1) as nat));
        assert forall|i: int| 0 <= i < k implies #[trigger] uncancelled(p, k)[i] == beat_step(
            p.config,
            p.bar,
            (p.beat + i) as nat,
        ) by {
            if i > 0 {
                assert(uncancelled(p, k)[i] == uncancelled(q, (k - 1) as nat)[i - 1]);
            }
        }
    } else {
        assert(uncancelled(q, 0) =~= Seq::<Step>::empty());
        assert(uncancelled(p, k) =~= seq![beat_step(p.config, p.bar, p.beat)]);
        assert(after(p, k) == after(q, 0));
    }
}

/// The event loop of one generation, one decision at a time: the caller plays
/// each sound it is given, waits, and asks again, until it is told to stop.
pub struct Player {
    snapshot: Snapshot,
    pauses: Vec<u64>,
    bar: usize,
    beat: u8,
    stopped: bool,
}

impl View for Player {
    type V = PlayerModel;

    closed spec fn view(&self) -> PlayerModel {
        PlayerModel {
            config: self.snapshot@,
            bar: self.bar as nat,
            beat: self.beat as nat,
            stopped: self.stopped,
        }
    }
}

impl Player {
    /// Whether the player is at a valid position of a playable configuration.
    pub closed spec fn inv(&self) -> bool {
        &&& self@.wf()
        &&& self.pauses.len() == self.snapshot.time_signature.len()
        &&& forall|i: int|
            0 <= i < self.pauses.len() ==> #[trigger] self.pauses[i] == resolved_interval(
                base_interval(self.snapshot.tempo),
                self.snapshot.time_signature[i].1,
            )
    }

    /// A player at the first beat of the first bar of `snapshot`.
    pub fn new(snapshot: Snapshot) -> (r: Player)
        requires
            snapshot@.wf(),
        ensures
            r.inv(),
            r@ == (PlayerModel { config: snapshot@, bar: 0, beat: 0, stopped: false }),
    {
        let base = base_interval_nanos(snapshot.tempo);
        let pauses = calculate_pause_durations(&snapshot.time_signature, base);
        Player { snapshot, pauses, bar: 0, beat: 0, stopped: false }
    }

    /// Decides what comes next, given whether the generation has been cancelled.
    pub fn step(&mut self, cancelled: bool) -> (r: Step)
        requires
            old(self).inv(),
        ensures
            final(self).inv(),
            (final(self)@, r) == step_model(old(self)@, cancelled),
    {
        if self.stopped || cancelled {
            self.stopped = true;
            return Step::Stop;
        }
        if !self.snapshot.downbeat {
            return Step::Play(Sound::Pulse, base_interval_nanos(self.snapshot.tempo));
        }
        let (numerator, _denominator) = self.snapshot.time_signature[self.bar];
        let pause = self.pauses[self.bar];
        let sound = if self.beat == 0 {
            Sound::Downbeat
        } else {
            Sound::Pulse
        };
        if self.beat + 1 < numerator {
            self.beat = self.beat + 1;
        } else {
            proof {
                let len = self.snapshot.time_signature.len() as int;
                let b = self.bar as int;
                if b + 1 < len {
                    vstd::arithmetic::div_mod::lemma_small_mod((b + 1) as nat, len as nat);
                } else {
                    vstd::arithmetic::div_mod::lemma_mod_self_0(len);
                }
            }
            self.beat = 0;
            self.bar = if self.bar + 1 < self.snapshot.time_signature.len() {
                self.bar + 1
            } else {
                0
            };
        }
        Step::Play(sound, pause)
    }

    /// Decides what comes next, asking `token` whether the generation has been
    /// cancelled; another holder may cancel it at any moment, so the step is
    /// the one for either answer.
    pub fn poll(&mut self, token: &CancellationToken) -> (r: Step)
        requires
            old(self).inv(),
        ensures
            final(self).inv(),
            (final(self)@, r) == step_model(old(self)@, true) || (final(self)@, r) == step_model(
                old(self)@,
                false,
            ),
    {
        let cancelled = token.is_cancelled();
        self.step(cancelled)
    }
}

} // verus!
