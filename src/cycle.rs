use vstd::prelude::*;

use crate::point::{measurement, measurement_spec, PointView, SeriesPoint};
use crate::reading::{kind_after, FieldKind, Freshness, Reading};
use crate::warmup::{counted_after, gate_open, WarmupGate};

verus! {

/// Pause between the end of one cycle's work and the start of the next.
pub const CYCLE_PAUSE_MS: u64 = 5000;

/// Where the sampling loop stands: which outside step it is waiting on.
#[derive(Clone, Copy, Debug)]
pub enum Phase<V> {
    /// Waiting for the device to enter forced (single-shot) mode.
    SettingMode,
    /// Waiting for the measurement of the cycle.
    Sampling,
    /// Waiting for the database write of `kind` of `reading`.
    Publishing { reading: Reading<V>, kind: FieldKind },
    /// Waiting for the pause between cycles to end.
    Sleeping,
    /// Stopped for good after a device failure.
    Halted,
}

/// The outcome of the outside step the loop asked for.
#[derive(Clone, Copy, Debug)]
pub enum Event<V> {
    ModeSet,
    ModeFailed,
    Sampled(Reading<V>),
    SampleFailed,
    Written,
    WriteFailed,
    Woke,
}

/// The outside step the loop asks for next.
#[derive(Debug)]
pub enum Action<V> {
    SetForcedMode,
    ReadSensor,
    Publish(SeriesPoint<V>),
    Sleep(u64),
    /// A device failure: the process must stop.
    Abort,
}

/// The mathematical content of an `Action`.
pub enum Step<V> {
    SetForcedMode,
    ReadSensor,
    Publish(PointView<V>),
    Sleep(u64),
    Abort,
}

impl<V> View for Action<V> {
    type V = Step<V>;

    open spec fn view(&self) -> Step<V> {
        match self {
            Action::SetForcedMode => Step::SetForcedMode,
            Action::ReadSensor => Step::ReadSensor,
            Action::Publish(p) => Step::Publish(p@),
            Action::Sleep(ms) => Step::Sleep(*ms),
            Action::Abort => Step::Abort,
        }
    }
}

/// The mathematical content of a `Controller`.
pub struct ControllerView<V> {
    pub phase: Phase<V>,
    pub warm: nat,
    pub device_id: Seq<char>,
}

/// The step a controller in phase `phase` waits on.
pub open spec fn pending_step<V: Copy>(phase: Phase<V>, id: Seq<char>) -> Step<V> {
    match phase {
        Phase::SettingMode => Step::SetForcedMode,
        Phase::Sampling => Step::ReadSensor,
        Phase::Publishing { reading, kind } => Step::Publish(
            measurement_spec(kind, reading.value_spec(kind), id),
        ),
        Phase::Sleeping => Step::Sleep(CYCLE_PAUSE_MS),
        Phase::Halted => Step::Abort,
    }
}

/// The state after `e`. A device failure halts for good; a write is followed
/// by the next quantity or the pause whatever its outcome; a reading counts
/// one warm-up cycle and is published only once warm-up is over and the
/// data is new. An event that does not answer the pending step changes
/// nothing.
pub open spec fn next_state<V: Copy>(s: ControllerView<V>, e: Event<V>) -> ControllerView<V> {
    match s.phase {
        Phase::SettingMode => match e {
            Event::ModeSet => ControllerView { phase: Phase::Sampling, ..s },
            Event::ModeFailed => ControllerView { phase: Phase::Halted, ..s },
            _ => s,
        },
        Phase::Sampling => match e {
            Event::Sampled(r) => {
                let w = counted_after(s.warm);
                if gate_open(w) && r.freshness == Freshness::NewData {
                    ControllerView {
                        phase: Phase::Publishing { reading: r, kind: FieldKind::Temperature },
                        warm: w,
                        ..s
                    }
                } else {
                    ControllerView { phase: Phase::Sleeping, warm: w, ..s }
                }
            },
            Event::SampleFailed => ControllerView { phase: Phase::Halted, ..s },
            _ => s,
        },
        Phase::Publishing { reading, kind } => match e {
            Event::Written | Event::WriteFailed => match kind_after(kind) {
                Some(k) => ControllerView { phase: Phase::Publishing { reading, kind: k }, ..s },
                None => ControllerView { phase: Phase::Sleeping, ..s },
            },
            _ => s,
        },
        Phase::Sleeping => match e {
            Event::Woke => ControllerView { phase: Phase::SettingMode, ..s },
            _ => s,
        },
        Phase::Halted => s,
    }
}

/// The state after a sequence of events, in order.
pub open spec fn run<V: Copy>(s: ControllerView<V>, events: Seq<Event<V>>) -> ControllerView<V>
    decreases events.len(),
{
    if events.len() == 0 {
        s
    } else {
        run(next_state(s, events[0]), events.drop_first())
    }
}

/// Drives the sampling loop: fed the outcome of each outside step, it answers
/// with the next one to perform.
pub struct Controller<V> {
    gate: WarmupGate,
    phase: Phase<V>,
    device_id: String,
}

impl<V> View for Controller<V> {
    type V = ControllerView<V>;

    closed spec fn view(&self) -> ControllerView<V> {
        ControllerView { phase: self.phase, warm: self.gate@, device_id: self.device_id@ }
    }
}

impl<V: Copy> Controller<V> {
    /// A controller for the device `device_id` at the start of its first cycle,
    /// with the warm-up period ahead of it.
    pub fn new(device_id: String) -> (r: Controller<V>)
        ensures
            r@.phase == Phase::<V>::SettingMode,
            r@.warm == 0,
            r@.device_id == device_id@,
    {
        Controller { gate: WarmupGate::new(), phase: Phase::SettingMode, device_id }
    }

    /// The outside step the controller waits on.
    pub fn pending(&self) -> (r: Action<V>)
        ensures
            r@ == pending_step(self@.phase, self@.device_id),
    {
        match self.phase {
            Phase::SettingMode => Action::SetForcedMode,
            Phase::Sampling => Action::ReadSensor,
            Phase::Publishing { reading, kind } => Action::Publish(
                measurement(kind, reading.value_of(kind), self.device_id.as_str()),
            ),
            Phase::Sleeping => Action::Sleep(CYCLE_PAUSE_MS),
            Phase::Halted => Action::Abort,
        }
    }

    /// Takes the outcome of the pending step and returns the next step.
    pub fn step(&mut self, event: Event<V>) -> (r: Action<V>)
        ensures
            final(self)@ == next_state(old(self)@, event),
            r@ == pending_step(final(self)@.phase, final(self)@.device_id),
    {
        match self.phase {
            Phase::SettingMode => match event {
                Event::ModeSet => self.phase = Phase::Sampling,
                Event::ModeFailed => self.phase = Phase::Halted,
                _ => {},
            },
            Phase::Sampling => match event {
                Event::Sampled(reading) => {
                    let open = self.gate.pass_cycle();
                    if open && reading.is_new() {
                        self.phase = Phase::Publishing { reading, kind: FieldKind::Temperature };
                    } else {
                        self.phase = Phase::Sleeping;
                    }
                },
                Event::SampleFailed => self.phase = Phase::Halted,
                _ => {},
            },
            Phase::Publishing { reading, kind } => match event {
                Event::Written | Event::WriteFailed => match kind.next() {
                    Some(k) => self.phase = Phase::Publishing { reading, kind: k },
                    None => self.phase = Phase::Sleeping,
                },
                _ => {},
            },
            Phase::Sleeping => match event {
                Event::Woke => self.phase = Phase::SettingMode,
                _ => {},
            },
            Phase::Halted => {},
        }
        self.pending()
    }

    /// Whether a device failure has stopped the loop.
    pub fn is_halted(&self) -> (r: bool)
        ensures
            r == (self@.phase is Halted),
    {
        match self.phase {
            Phase::Halted => true,
            _ => false,
        }
    }

    /// Whether the warm-up period is over.
    pub fn warmed_up(&self) -> (r: bool)
        ensures
            r == gate_open(self@.warm),
    {
        self.gate.is_open()
    }
}

/// Whether every reading waiting to be published is a new sample.
pub open spec fn only_new_pending<V>(s: ControllerView<V>) -> bool {
    match s.phase {
        Phase::Publishing { reading, .. } => reading.freshness == Freshness::NewData,
        _ => true,
    }
}

/// A stale reading is never published, whatever the warm-up state: the cycle
/// that samples it goes straight to the pause, and along any sequence of
/// events from a state with no stale reading pending (such as a new
/// controller's) no stale reading is ever pending publication.
pub proof fn lemma_stale_never_published<V: Copy>(
    s: ControllerView<V>,
    r: Reading<V>,
    events: Seq<Event<V>>,
)
    ensures
        s.phase is Sampling && r.freshness == Freshness::StaleOrUnchanged ==> next_state(
            s,
            Event::Sampled(r),
        ).phase is Sleeping,
        only_new_pending(s) ==> only_new_pending(run(s, events)),
        only_new_pending(ControllerView { phase: Phase::<V>::SettingMode, warm: 0, device_id: s.device_id }),
    decreases events.len(),
{
    if events.len() > 0 {
        lemma_stale_never_published(next_state(s, events[0]), r, events.drop_first());
    }
}

/// A failed database write changes nothing that a successful one would not:
/// the loop goes on to the next quantity or to the pause either way. From the
/// first write of a reading, four writes that all fail lead to the pause with
/// the warm-up count and device unchanged.
pub proof fn lemma_write_failure_ignored<V: Copy>(s: ControllerView<V>, reading: Reading<V>)
    ensures
        next_state(s, Event::WriteFailed) == next_state(s, Event::Written),
        run(
            ControllerView {
                phase: Phase::Publishing { reading, kind: FieldKind::Temperature },
                ..s
            },
            seq![Event::WriteFailed, Event::WriteFailed, Event::WriteFailed, Event::WriteFailed],
        ) == (ControllerView { phase: Phase::<V>::Sleeping, ..s }),
{
    let s0 = ControllerView {
        phase: Phase::Publishing { reading, kind: FieldKind::Temperature },
        ..s
    };
    let e: Seq<Event<V>> = seq![Event::WriteFailed, Event::WriteFailed, Event::WriteFailed, Event::WriteFailed];
    let s1 = next_state(s0, Event::<V>::WriteFailed);
    let s2 = next_state(s1, Event::<V>::WriteFailed);
    let s3 = next_state(s2, Event::<V>::WriteFailed);
    let s4 = next_state(s3, Event::<V>::WriteFailed);
    let e1 = e.drop_first();
    let e2 = e1.drop_first();
    let e3 = e2.drop_first();
    let e4 = e3.drop_first();
    assert(e4.len() == 0);
    assert(run(s3, e3) == run(s4, e4));
    assert(run(s2, e2) == run(s3, e3));
    assert(run(s1, e1) == run(s2, e2));
    assert(run(s0, e) == run(s1, e1));
}

/// A failed measurement stops the loop for good: the controller halts, asks
/// for nothing but the abort from then on, and no later event moves it.
pub proof fn lemma_read_failure_halts<V: Copy>(s: ControllerView<V>, events: Seq<Event<V>>)
    requires
        s.phase is Sampling,
    ensures
        next_state(s, Event::SampleFailed).phase is Halted,
        run(next_state(s, Event::SampleFailed), events) == next_state(s, Event::SampleFailed),
        pending_step(run(next_state(s, Event::SampleFailed), events).phase, s.device_id)
            == Step::<V>::Abort,
{
    lemma_halt_is_final(next_state(s, Event::SampleFailed), events);
}

/// A halted controller stays halted whatever follows.
pub proof fn lemma_halt_is_final<V: Copy>(s: ControllerView<V>, events: Seq<Event<V>>)
    requires
        s.phase is Halted,
    ensures
        run(s, events) == s,
    decreases events.len(),
{
    if events.len() > 0 {
        lemma_halt_is_final(next_state(s, events[0]), events.drop_first());
    }
}

} // verus!
