use vstd::prelude::*;
use crate::tempo::{TempoModel, TempoState};

verus! {

/// Kinds of text a meta event carries for display.
#[derive(Clone, Copy, Debug, PartialEq, Eq, Structural)]
pub enum MetaText {
    TrackName,
    Lyric,
    Text,
    Copyright,
    Marker,
    InstrumentName,
}

/// What an event of a track is, as far as playback cares.
#[derive(Clone, Copy, Debug, PartialEq, Eq, Structural)]
pub enum EventKind {
    /// Channel-voice, system-exclusive or escape: its bytes go to the device.
    Transmit,
    /// A tempo change, in microseconds per beat.
    Tempo(u32),
    /// Text for display only; its bytes hold the text.
    Text(MetaText),
    /// Any other meta event: ignored.
    OtherMeta,
}

/// One event of a track: ticks since the previous event, its kind, and its
/// bytes (the raw message for `Transmit`, the text for `Text`).
#[derive(Clone, Debug)]
pub struct TrackEvent {
    pub delta: u32,
    pub kind: EventKind,
    pub bytes: Vec<u8>,
}

/// What to do with an event once it is due.
#[derive(Clone, Debug)]
pub enum Output {
    /// Transmit these bytes to the device.
    Send(Vec<u8>),
    /// Show the event's text.
    Show(MetaText),
    /// Nothing.
    Skip,
}

/// The work one event asks for: a pacing wait of `wait_us` microseconds
/// (before compensation; zero for no wait), then `output`.
#[derive(Clone, Debug)]
pub struct Step {
    pub wait_us: u64,
    pub output: Output,
}

/// Why playback stopped.
#[derive(Clone, Copy, Debug, PartialEq, Eq, Structural)]
pub enum PlaybackError {
    /// A non-zero delta came before any tempo; `tick` is the event's
    /// absolute tick within its track.
    MissingTempo { tick: u64 },
    /// The device refused event `index` of the track, `len` bytes long, at
    /// absolute tick `tick`.
    Transmission { tick: u64, index: usize, len: usize },
}

/// The abstract state of a dispatcher: the tempo model and the ticks
/// accumulated in the current track.
pub struct DispatchState {
    pub tempo: TempoState,
    pub ticks: nat,
}

/// The wait a delta asks for, or `None` where no tempo is known yet.
pub open spec fn wait_spec(tempo: TempoState, delta: nat) -> Option<nat> {
    if delta == 0 {
        Some(0)
    } else if tempo.established {
        Some(tempo.microseconds_for(delta))
    } else {
        None
    }
}

/// The tempo after an event of kind `kind`.
pub open spec fn tempo_after(tempo: TempoState, kind: EventKind) -> TempoState {
    match kind {
        EventKind::Tempo(t) => tempo.set_tempo(t as nat),
        _ => tempo,
    }
}

/// Whether an output is the transmission of exactly `bytes`.
pub open spec fn sends(out: Output, bytes: Seq<u8>) -> bool {
    match out {
        Output::Send(b) => b@ == bytes,
        _ => false,
    }
}

/// The output an event asks for.
pub open spec fn output_ok(out: Output, e: TrackEvent) -> bool {
    match e.kind {
        EventKind::Transmit => sends(out, e.bytes@),
        EventKind::Text(t) => out == Output::Show(t),
        _ => out == Output::Skip,
    }
}

/// Walks the events of a track in order, keeping the tempo and the tick
/// position, and says for each what to wait and what to send.
pub struct Dispatcher {
    tempo: TempoModel,
    ticks: u64,
}

impl View for Dispatcher {
    type V = DispatchState;

    closed spec fn view(&self) -> DispatchState {
        DispatchState { tempo: self.tempo@, ticks: self.ticks as nat }
    }
}

impl Dispatcher {
    pub closed spec fn wf(&self) -> bool {
        self.tempo.wf()
    }

    /// A dispatcher for a file of `ppqn` ticks per beat, with no tempo yet,
    /// at tick zero.
    pub fn new(ppqn: u64) -> (r: Dispatcher)
        requires
            0 < ppqn <= u16::MAX,
        ensures
            r.wf(),
            r@.tempo.ppqn == ppqn,
            r@.tempo.us_per_tick == 0,
            !r@.tempo.established,
            r@.ticks == 0,
    {
        Dispatcher { tempo: TempoModel::new(ppqn), ticks: 0 }
    }

    /// Absolute tick of the last event dispatched in the current track.
    pub fn ticks(&self) -> (r: u64)
        ensures
            r == self@.ticks,
    {
        self.ticks
    }

    /// Begins a new track: the tick position returns to zero, the tempo
    /// stays.
    pub fn start_track(&mut self)
        requires
            old(self).wf(),
        ensures
            final(self).wf(),
            final(self)@.tempo == old(self)@.tempo,
            final(self)@.ticks == 0,
    {
        self.ticks = 0;
    }

    /// Handles the next event of the track: the wait due before it, then
    /// what to do with it. A tempo change takes effect after its own wait.
    pub fn dispatch(&mut self, e: &TrackEvent) -> (r: Result<Step, PlaybackError>)
        requires
            old(self).wf(),
            old(self)@.ticks + e.delta <= u64::MAX,
        ensures
            final(self).wf(),
            final(self)@.tempo.ppqn == old(self)@.tempo.ppqn,
            match wait_spec(old(self)@.tempo, e.delta as nat) {
                None => {
                    &&& r == Err::<Step, PlaybackError>(
                        PlaybackError::MissingTempo { tick: (old(self)@.ticks + e.delta) as u64 },
                    )
                    &&& final(self)@ == old(self)@
                },
                Some(w) => {
                    &&& r is Ok
                    &&& r->Ok_0.wait_us == w
                    &&& output_ok(r->Ok_0.output, *e)
                    &&& final(self)@.ticks == old(self)@.ticks + e.delta
                    &&& final(self)@.tempo == tempo_after(old(self)@.tempo, e.kind)
                },
            },
    {
        let wait_us: u64 = if e.delta == 0 {
            0
        } else if self.tempo.is_established() {
            self.tempo.microseconds_for(e.delta)
        } else {
            return Err(PlaybackError::MissingTempo { tick: self.ticks + e.delta as u64 });
        };
        self.ticks = self.ticks + e.delta as u64;
        let output = match e.kind {
            EventKind::Transmit => {
                let b = e.bytes.clone();
                assert(b@ =~= e.bytes@);
                Output::Send(b)
            },
            EventKind::Tempo(t) => {
                self.tempo.set_tempo(t);
                Output::Skip
            },
            EventKind::Text(t) => Output::Show(t),
            EventKind::OtherMeta => Output::Skip,
        };
        Ok(Step { wait_us, output })
    }

    /// The error for a failed transmission of event `index`, `len` bytes
    /// long, tagged with the current tick.
    pub fn transmission_failed(&self, index: usize, len: usize) -> (r: PlaybackError)
        ensures
            r == (PlaybackError::Transmission { tick: self@.ticks as u64, index, len }),
    {
        PlaybackError::Transmission { tick: self.ticks, index, len }
    }
}

/// An event is sent exactly when it is a channel-voice, system-exclusive or
/// escape event, and then its bytes go out unchanged; a tempo change is never
/// sent, and a track name is only shown.
pub proof fn lemma_output_of_kind(out: Output, e: TrackEvent)
    requires
        output_ok(out, e),
    ensures
        out is Send <==> e.kind is Transmit,
        out matches Output::Send(b) ==> b@ == e.bytes@,
        e.kind is Tempo ==> out == Output::Skip,
        e.kind == EventKind::Text(MetaText::TrackName) ==> out == Output::Show(MetaText::TrackName),
{
}

/// The dispatcher's state after event `e`, or `None` where it stops with
/// `MissingTempo`.
pub open spec fn next_state(s: DispatchState, e: TrackEvent) -> Option<DispatchState> {
    match wait_spec(s.tempo, e.delta as nat) {
        None => None,
        Some(_) => Some(
            DispatchState { tempo: tempo_after(s.tempo, e.kind), ticks: s.ticks + e.delta as nat },
        ),
    }
}

/// Playback of `events` from index `i` on, `acks[j]` being whether the
/// device accepted event `j`: the indices of the events handed to the device,
/// in order, and the error that ended playback, if any.
pub open spec fn track_run(
    s: DispatchState,
    events: Seq<TrackEvent>,
    acks: Seq<bool>,
    i: nat,
) -> (Seq<nat>, Option<PlaybackError>)
    decreases events.len() - i,
{
    if i >= events.len() {
        (Seq::empty(), None)
    } else {
        let e = events[i as int];
        match next_state(s, e) {
            None => (Seq::empty(), Some(PlaybackError::MissingTempo { tick: (s.ticks + e.delta) as u64 })),
            Some(s2) => if e.kind is Transmit {
                if i < acks.len() && acks[i as int] {
                    let rest = track_run(s2, events, acks, i + 1);
                    (seq![i].add(rest.0), rest.1)
                } else {
                    (
                        seq![i],
                        Some(
                            PlaybackError::Transmission {
                                tick: s2.ticks as u64,
                                index: i as usize,
                                len: e.bytes.len(),
                            },
                        ),
                    )
                }
            } else {
                track_run(s2, events, acks, i + 1)
            },
        }
    }
}

/// Sum of the deltas of events `i` through `n`.
pub open spec fn ticks_from(events: Seq<TrackEvent>, i: nat, n: nat) -> nat
    decreases n + 1 - i,
{
    if i > n || n >= events.len() {
        0
    } else {
        events[i as int].delta as nat + ticks_from(events, i + 1, n)
    }
}

/// A failed transmission of event `n` ends playback: no event after it is
/// handed to the device, and the error names event `n`, its length and its
/// absolute tick.
pub proof fn lemma_failure_aborts(
    s: DispatchState,
    events: Seq<TrackEvent>,
    acks: Seq<bool>,
    i: nat,
    n: nat,
)
    requires
        track_run(s, events, acks, i).0.contains(n),
        n < acks.len() ==> !acks[n as int],
    ensures
        track_run(s, events, acks, i).0.last() == n,
        forall|k: int| 0 <= k < track_run(s, events, acks, i).0.len()
            ==> #[trigger] track_run(s, events, acks, i).0[k] <= n,
        track_run(s, events, acks, i).1 == Some(
            PlaybackError::Transmission {
                tick: (s.ticks + ticks_from(events, i, n)) as u64,
                index: n as usize,
                len: events[n as int].bytes.len(),
            },
        ),
    decreases events.len() - i,
{
    let r = track_run(s, events, acks, i);
    let e = events[i as int];
    let s2 = next_state(s, e).unwrap();
    if e.kind is Transmit && i < acks.len() && acks[i as int] {
        let rest = track_run(s2, events, acks, i + 1);
        assert(r.0 == seq![i].add(rest.0));
        assert(n != i);
        let k0 = choose|k: int| 0 <= k < r.0.len() && r.0[k] == n;
        assert(rest.0[k0 - 1] == n);
        lemma_failure_aborts(s2, events, acks, i + 1, n);
        lemma_run_indices(s2, events, acks, i + 1);
        assert forall|k: int| 0 <= k < r.0.len() implies #[trigger] r.0[k] <= n by {
            if k > 0 {
                assert(r.0[k] == rest.0[k - 1]);
            }
        }
        assert(ticks_from(events, i, n) == e.delta + ticks_from(events, i + 1, n));
    } else if e.kind is Transmit {
        assert(r.0 == seq![i]);
        assert(r.0[0] == n);
        assert(ticks_from(events, i, n) == e.delta + ticks_from(events, i + 1, n));
        assert(ticks_from(events, i + 1, n) == 0);
    } else {
        lemma_run_indices(s2, events, acks, i + 1);
        lemma_failure_aborts(s2, events, acks, i + 1, n);
        assert(ticks_from(events, i, n) == e.delta + ticks_from(events, i + 1, n));
    }
}

/// Every event a run hands to the device lies at or after its start and is a
/// channel-voice, system-exclusive or escape event: tempo changes, text and
/// other meta events never reach the device.
pub proof fn lemma_run_indices(s: DispatchState, events: Seq<TrackEvent>, acks: Seq<bool>, i: nat)
    ensures
        forall|k: int| 0 <= k < track_run(s, events, acks, i).0.len()
            ==> i <= #[trigger] track_run(s, events, acks, i).0[k] < events.len(),
        forall|k: int| 0 <= k < track_run(s, events, acks, i).0.len()
            ==> events[#[trigger] track_run(s, events, acks, i).0[k] as int].kind is Transmit,
    decreases events.len() - i,
{
    if i < events.len() {
        let e = events[i as int];
        match next_state(s, e) {
            None => {},
            Some(s2) => {
                lemma_run_indices(s2, events, acks, i + 1);
                if e.kind is Transmit && i < acks.len() && acks[i as int] {
                    let r = track_run(s, events, acks, i);
                    let rest = track_run(s2, events, acks, i + 1);
                    assert forall|k: int| 0 <= k < r.0.len() implies i <= #[trigger] r.0[k]
                        < events.len() && events[r.0[k] as int].kind is Transmit by {
                        if k > 0 {
                            assert(r.0[k] == rest.0[k - 1]);
                        }
                    }
                }
            },
        }
    }
}

} // verus!
