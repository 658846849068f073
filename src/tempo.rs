use vstd::prelude::*;

verus! {

/// How a file's header measures time.
#[derive(Clone, Copy, Debug, PartialEq, Eq, Structural)]
pub enum Timing {
    /// Pulses (ticks) per quarter note.
    Metrical(u16),
    /// Frames per second and subframes per frame: not supported for playback.
    Timecode(u8, u8),
}

/// Why a file's timing cannot drive playback.
#[derive(Clone, Copy, Debug, PartialEq, Eq, Structural)]
pub enum TimingError {
    /// Frame-based timing.
    UnsupportedFormat,
    /// A pulses-per-quarter-note value of zero.
    ZeroTicksPerBeat,
}

/// The pulses-per-quarter-note constant of a file, or why it has none.
pub fn ticks_per_beat(timing: Timing) -> (r: Result<u64, TimingError>)
    ensures
        match timing {
            Timing::Metrical(p) => if p == 0 {
                r == Err::<u64, TimingError>(TimingError::ZeroTicksPerBeat)
            } else {
                r == Ok::<u64, TimingError>(p as u64)
            },
            Timing::Timecode(_, _) => r == Err::<u64, TimingError>(TimingError::UnsupportedFormat),
        },
{
    match timing {
        Timing::Metrical(p) => if p == 0 {
            Err(TimingError::ZeroTicksPerBeat)
        } else {
            Ok(p as u64)
        },
        Timing::Timecode(_, _) => Err(TimingError::UnsupportedFormat),
    }
}

/// Microseconds per tick for a tempo of `us_per_beat` at `ppqn` ticks per beat.
pub open spec fn us_per_tick_spec(us_per_beat: nat, ppqn: nat) -> nat {
    us_per_beat / ppqn
}

/// The abstract state of a tempo model.
pub struct TempoState {
    pub ppqn: nat,
    pub us_per_tick: nat,
    pub established: bool,
}

impl TempoState {
    /// The state after a tempo change to `us_per_beat`.
    pub open spec fn set_tempo(self, us_per_beat: nat) -> TempoState {
        TempoState {
            ppqn: self.ppqn,
            us_per_tick: us_per_tick_spec(us_per_beat, self.ppqn),
            established: true,
        }
    }

    /// How many microseconds `delta` ticks last.
    pub open spec fn microseconds_for(self, delta: nat) -> nat {
        delta * self.us_per_tick
    }
}

/// Converts tick deltas into microseconds under the most recent tempo.
pub struct TempoModel {
    ppqn: u64,
    us_per_tick: u64,
    established: bool,
}

impl View for TempoModel {
    type V = TempoState;

    closed spec fn view(&self) -> TempoState {
        TempoState {
            ppqn: self.ppqn as nat,
            us_per_tick: self.us_per_tick as nat,
            established: self.established,
        }
    }
}

impl TempoModel {
    /// The model keeps a positive ppqn and a rate that fits a `u32` tempo.
    pub closed spec fn wf(&self) -> bool {
        &&& 0 < self.ppqn <= u16::MAX
        &&& self.us_per_tick <= u32::MAX
    }

    /// A model with no tempo established yet.
    pub fn new(ppqn: u64) -> (r: TempoModel)
        requires
            0 < ppqn <= u16::MAX,
        ensures
            r.wf(),
            r@.ppqn == ppqn,
            r@.us_per_tick == 0,
            !r@.established,
    {
        TempoModel { ppqn, us_per_tick: 0, established: false }
    }

    /// Ticks per quarter note.
    pub fn ppqn(&self) -> (r: u64)
        ensures
            r == self@.ppqn,
    {
        self.ppqn
    }

    /// Microseconds per tick under the current tempo.
    pub fn us_per_tick(&self) -> (r: u64)
        ensures
            r == self@.us_per_tick,
    {
        self.us_per_tick
    }

    /// Whether a tempo change has been seen.
    pub fn is_established(&self) -> (r: bool)
        ensures
            r == self@.established,
    {
        self.established
    }

    /// Records a tempo change: microseconds per tick becomes
    /// `us_per_beat / ppqn`, truncated.
    pub fn set_tempo(&mut self, us_per_beat: u32)
        requires
            old(self).wf(),
        ensures
            final(self).wf(),
            final(self)@ == old(self)@.set_tempo(us_per_beat as nat),
    {
        assert(us_per_beat as u64 / self.ppqn <= us_per_beat) by (nonlinear_arith)
            requires self.ppqn > 0;
        self.us_per_tick = us_per_beat as u64 / self.ppqn;
        self.established = true;
    }

    /// How many microseconds `delta` ticks last under the current tempo.
    pub fn microseconds_for(&self, delta: u32) -> (r: u64)
        requires
            self.wf(),
            self@.established,
        ensures
            r == self@.microseconds_for(delta as nat),
    {
        assert(delta as u64 * self.us_per_tick <= u32::MAX as u64 * u32::MAX as u64) by (nonlinear_arith)
            requires self.us_per_tick <= u32::MAX, delta <= u32::MAX;
        delta as u64 * self.us_per_tick
    }
}

/// After a tempo change to `t` microseconds per beat, microseconds per tick
/// is `t / ppqn` (truncated), and `d` ticks last `d` times that.
pub proof fn lemma_tempo_conversion(m: TempoState, t: u32, d: u32)
    requires
        m.ppqn > 0,
    ensures
        m.set_tempo(t as nat).us_per_tick == t as nat / m.ppqn,
        m.set_tempo(t as nat).microseconds_for(d as nat) == d as nat * (t as nat / m.ppqn),
        m.set_tempo(t as nat).established,
{
}

} // verus!
