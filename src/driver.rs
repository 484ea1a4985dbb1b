use vstd::prelude::*;

use crate::port::{find_arduino_port, first_target, PortDescriptor};
use crate::sleep_monitor::{state_after, SleepMonitor};

verus! {

/// Baud rate of the heartbeat connection.
pub const BAUD_RATE: u32 = 9600;

/// Milliseconds between heartbeat cycles.
pub const INTERVAL_MS: u64 = 5000;

/// Milliseconds to wait before discovering ports again after a failure or disconnect.
pub const DELAY_MS: u64 = 8000;

/// The byte written as a heartbeat.
pub const HEARTBEAT_BYTE: u8 = 0x21;

/// Parity setting of a serial connection.
#[derive(Debug, Clone, Copy, PartialEq, Eq, Structural)]
pub enum Parity {
    NoParity,
    Odd,
    Even,
}

/// Settings with which the heartbeat connection is opened.
#[derive(Debug, Clone, Copy, PartialEq, Eq, Structural)]
pub struct SerialSettings {
    pub baud_rate: u32,
    pub data_bits: u8,
    pub stop_bits: u8,
    pub parity: Parity,
    pub dtr_on_open: bool,
}

/// 9600 baud, 8 data bits, 1 stop bit, no parity, DTR asserted on open.
pub open spec fn fixed_settings() -> SerialSettings {
    SerialSettings {
        baud_rate: BAUD_RATE,
        data_bits: 8,
        stop_bits: 1,
        parity: Parity::NoParity,
        dtr_on_open: true,
    }
}

/// The settings every connection is opened with.
pub fn serial_settings() -> (r: SerialSettings)
    ensures
        r == fixed_settings(),
{
    SerialSettings {
        baud_rate: BAUD_RATE,
        data_bits: 8,
        stop_bits: 1,
        parity: Parity::NoParity,
        dtr_on_open: true,
    }
}

/// How a heartbeat write ended.
#[derive(Debug, Clone, Copy, PartialEq, Eq, Structural)]
pub enum WriteOutcome {
    Written,
    /// The device went away: the connection is stale.
    BrokenPipe,
    /// A transient failure.
    TimedOut,
    /// Any other failure, treated as best effort.
    Other,
}

/// Where the driver stands; each phase awaits the result of one action.
#[derive(Debug, Clone, Copy, PartialEq, Eq, Structural)]
pub enum Phase {
    /// Awaits the list of available ports.
    Discovering,
    /// Awaits the outcome of opening the resolved port.
    Connecting,
    /// Connected; awaits what one pump of the sleep monitor delivered.
    Pumping,
    /// Connected and awake; awaits the outcome of a heartbeat write.
    Writing,
    /// Connected; awaits the end of one heartbeat interval.
    Resting,
    /// Awaits the closing of the stale connection.
    Closing,
    /// Disconnected; awaits the end of the reconnect delay.
    Backoff,
    /// The sleep-notification channel is lost; nothing more is done.
    Failed,
}

/// The work the driver asks of its environment next.
#[derive(Debug, Clone, PartialEq, Eq)]
pub enum Action {
    /// Enumerate the serial ports.
    ListPorts,
    /// Open the named port with the given settings.
    Open { port_name: String, settings: SerialSettings },
    /// Pump pending sleep notifications, with a short bounded wait.
    PumpEvents,
    /// Write one byte to the open connection.
    Write { byte: u8 },
    /// Wait the given number of milliseconds.
    Wait { millis: u64 },
    /// Close the open connection.
    Disconnect,
    /// Stop: the sleep-notification channel is lost.
    Exit,
}

/// What came of the last action.
#[derive(Debug, Clone, PartialEq, Eq)]
pub enum Event {
    /// The ports that enumeration found.
    PortsListed(Vec<PortDescriptor>),
    /// Enumeration failed.
    PortsUnavailable,
    Opened,
    OpenFailed,
    /// The notifications one pump delivered, in order.
    Pumped(Vec<bool>),
    /// The sleep-notification channel broke.
    PumpFailed,
    WriteDone(WriteOutcome),
    Waited,
    Closed,
}

/// The reconnecting heartbeat loop, as a state machine driven by events.
#[derive(Debug, Clone)]
pub struct HeartbeatDriver {
    pub phase: Phase,
    pub monitor: SleepMonitor,
    /// Name of the port last resolved; empty before the first resolution.
    pub port_name: String,
}

/// A connection is open in this phase.
pub open spec fn connected(p: Phase) -> bool {
    p is Pumping || p is Writing || p is Resting || p is Closing
}

/// The action that the driver's phase awaits.
pub open spec fn awaits(d: HeartbeatDriver, a: Action) -> bool {
    match d.phase {
        Phase::Discovering => a is ListPorts,
        Phase::Connecting => a == Action::Open { port_name: d.port_name, settings: fixed_settings() },
        Phase::Pumping => a is PumpEvents,
        Phase::Writing => a == Action::Write { byte: HEARTBEAT_BYTE },
        Phase::Resting => a == Action::Wait { millis: INTERVAL_MS },
        Phase::Closing => a is Disconnect,
        Phase::Backoff => a == Action::Wait { millis: DELAY_MS },
        Phase::Failed => a is Exit,
    }
}

/// The monitor after the event: only a pump's notifications change it.
pub open spec fn next_monitor(d: HeartbeatDriver, e: Event) -> SleepMonitor {
    match e {
        Event::Pumped(notes) => if d.phase is Pumping && d.monitor.monitoring {
            SleepMonitor {
                sleeping: state_after(d.monitor.sleeping, notes@),
                monitoring: d.monitor.monitoring,
            }
        } else {
            d.monitor
        },
        _ => d.monitor,
    }
}

/// The phase after the event; an event that the phase does not await changes nothing.
pub open spec fn next_phase(d: HeartbeatDriver, e: Event) -> Phase {
    match (d.phase, e) {
        (Phase::Discovering, Event::PortsListed(ports)) => if first_target(ports@) is Some {
            Phase::Connecting
        } else {
            Phase::Backoff
        },
        (Phase::Discovering, Event::PortsUnavailable) => Phase::Backoff,
        (Phase::Connecting, Event::Opened) => Phase::Pumping,
        (Phase::Connecting, Event::OpenFailed) => Phase::Backoff,
        (Phase::Pumping, Event::Pumped(_)) => if next_monitor(d, e).sleeping {
            Phase::Resting
        } else {
            Phase::Writing
        },
        (Phase::Pumping, Event::PumpFailed) => Phase::Failed,
        (Phase::Writing, Event::WriteDone(outcome)) => if outcome is BrokenPipe {
            Phase::Closing
        } else {
            Phase::Resting
        },
        (Phase::Resting, Event::Waited) => Phase::Pumping,
        (Phase::Closing, Event::Closed) => Phase::Backoff,
        (Phase::Backoff, Event::Waited) => Phase::Discovering,
        _ => d.phase,
    }
}

/// The port name after the event: a resolution that finds the target records its name.
pub open spec fn next_port_name(d: HeartbeatDriver, e: Event) -> String {
    match (d.phase, e) {
        (Phase::Discovering, Event::PortsListed(ports)) => match first_target(ports@) {
            Some(i) => ports@[i].port_name,
            None => d.port_name,
        },
        _ => d.port_name,
    }
}

/// The driver after one event.
pub open spec fn step_spec(d: HeartbeatDriver, e: Event) -> HeartbeatDriver {
    HeartbeatDriver {
        phase: next_phase(d, e),
        monitor: next_monitor(d, e),
        port_name: next_port_name(d, e),
    }
}

/// The driver after the events, taken in order.
pub open spec fn run(d: HeartbeatDriver, events: Seq<Event>) -> HeartbeatDriver
    decreases events.len(),
{
    if events.len() == 0 {
        d
    } else {
        run(step_spec(d, events[0]), events.drop_first())
    }
}

/// A live connection handle is in use in this phase.
pub open spec fn holds_live_connection(p: Phase) -> bool {
    p is Pumping || p is Writing || p is Resting
}

impl HeartbeatDriver {
    /// No heartbeat is pending while the monitor reports sleeping.
    pub open spec fn wf(&self) -> bool {
        self.phase is Writing ==> !self.monitor.sleeping
    }

    /// A driver about to discover ports, with the given monitor, and its first action.
    pub fn new(monitor: SleepMonitor) -> (r: (HeartbeatDriver, Action))
        ensures
            r.0.phase == Phase::Discovering,
            r.0.monitor == monitor,
            r.0.port_name@.len() == 0,
            r.0.wf(),
            r.1 == Action::ListPorts,
    {
        (
            HeartbeatDriver { phase: Phase::Discovering, monitor, port_name: String::new() },
            Action::ListPorts,
        )
    }

    /// Whether the monitor reports sleeping.
    pub fn is_sleeping(&self) -> (r: bool)
        ensures
            r == self.monitor.sleeping,
    {
        self.monitor.is_sleeping()
    }

    /// Takes the result of the last action and returns the next one.
    pub fn step(&mut self, event: Event) -> (r: Action)
        requires
            old(self).wf(),
        ensures
            *final(self) == step_spec(*old(self), event),
            final(self).wf(),
            awaits(*final(self), r),
            r is Write ==> !final(self).monitor.sleeping,
    {
        match (self.phase, event) {
            (Phase::Discovering, Event::PortsListed(ports)) => {
                match find_arduino_port(&ports) {
                    Some(target) => {
                        self.phase = Phase::Connecting;
                        self.port_name = target.port_name.clone();
                        Action::Open { port_name: self.port_name.clone(), settings: serial_settings() }
                    },
                    None => {
                        self.phase = Phase::Backoff;
                        Action::Wait { millis: DELAY_MS }
                    },
                }
            },
            (Phase::Discovering, Event::PortsUnavailable) | (Phase::Connecting, Event::OpenFailed)
            | (Phase::Closing, Event::Closed) => {
                self.phase = Phase::Backoff;
                Action::Wait { millis: DELAY_MS }
            },
            (Phase::Connecting, Event::Opened) | (Phase::Resting, Event::Waited) => {
                self.phase = Phase::Pumping;
                Action::PumpEvents
            },
            (Phase::Pumping, Event::Pumped(notes)) => {
                let _ = self.monitor.process_events(Some(notes));
                if self.monitor.is_sleeping() {
                    self.phase = Phase::Resting;
                    Action::Wait { millis: INTERVAL_MS }
                } else {
                    self.phase = Phase::Writing;
                    Action::Write { byte: HEARTBEAT_BYTE }
                }
            },
            (Phase::Pumping, Event::PumpFailed) => {
                let _ = self.monitor.process_events(None);
                self.phase = Phase::Failed;
                Action::Exit
            },
            (Phase::Writing, Event::WriteDone(outcome)) => {
                match outcome {
                    WriteOutcome::BrokenPipe => {
                        self.phase = Phase::Closing;
                        Action::Disconnect
                    },
                    _ => {
                        self.phase = Phase::Resting;
                        Action::Wait { millis: INTERVAL_MS }
                    },
                }
            },
            (Phase::Backoff, Event::Waited) => {
                self.phase = Phase::Discovering;
                Action::ListPorts
            },
            _ => self.pending_action(),
        }
    }

    /// The action that the current phase awaits.
    pub fn pending_action(&self) -> (r: Action)
        ensures
            awaits(*self, r),
    {
        match self.phase {
            Phase::Discovering => Action::ListPorts,
            Phase::Connecting => Action::Open {
                port_name: self.port_name.clone(),
                settings: serial_settings(),
            },
            Phase::Pumping => Action::PumpEvents,
            Phase::Writing => Action::Write { byte: HEARTBEAT_BYTE },
            Phase::Resting => Action::Wait { millis: INTERVAL_MS },
            Phase::Closing => Action::Disconnect,
            Phase::Backoff => Action::Wait { millis: DELAY_MS },
            Phase::Failed => Action::Exit,
        }
    }
}

proof fn lemma_run_three(d: HeartbeatDriver, events: Seq<Event>)
    requires
        events.len() == 3,
    ensures
        run(d, events) == step_spec(step_spec(step_spec(d, events[0]), events[1]), events[2]),
{
    let rest1 = events.drop_first();
    let rest2 = rest1.drop_first();
    let rest3 = rest2.drop_first();
    let d1 = step_spec(d, events[0]);
    let d2 = step_spec(d1, rest1[0]);
    let d3 = step_spec(d2, rest2[0]);
    assert(rest3.len() == 0);
    assert(run(d2, rest2) == run(d3, rest3));
    assert(run(d1, rest1) == run(d2, rest2));
    assert(run(d, events) == run(d1, rest1));
}

/// One event keeps the driver well formed.
pub proof fn lemma_step_keeps_wf(d: HeartbeatDriver, e: Event)
    requires
        d.wf(),
    ensures
        step_spec(d, e).wf(),
{
}

/// However events arrive, the driver never has a heartbeat pending while the
/// monitor reports sleeping: no write happens for the duration of sleep.
pub proof fn lemma_no_heartbeat_while_asleep(d: HeartbeatDriver, events: Seq<Event>)
    requires
        d.wf(),
    ensures
        run(d, events).wf(),
        run(d, events).monitor.sleeping ==> !(run(d, events).phase is Writing),
    decreases events.len(),
{
    if events.len() > 0 {
        lemma_step_keeps_wf(d, events[0]);
        lemma_no_heartbeat_while_asleep(step_spec(d, events[0]), events.drop_first());
    }
}

/// A broken pipe ends the active phase: the stale connection is closed, the
/// reconnect delay follows, and then discovery starts again.
pub proof fn lemma_broken_pipe_reconnects(d: HeartbeatDriver)
    requires
        d.phase is Writing,
    ensures
        step_spec(d, Event::WriteDone(WriteOutcome::BrokenPipe)).phase is Closing,
        run(d, seq![Event::WriteDone(WriteOutcome::BrokenPipe), Event::Closed, Event::Waited]).phase
            is Discovering,
{
    let events = seq![Event::WriteDone(WriteOutcome::BrokenPipe), Event::Closed, Event::Waited];
    lemma_run_three(d, events);
}

/// Without a live connection the driver gets one only through a new open:
/// whatever events come, none of them `Opened`, no write is attempted.
pub proof fn lemma_no_write_until_reopened(d: HeartbeatDriver, events: Seq<Event>)
    requires
        !holds_live_connection(d.phase),
        forall|i: int| 0 <= i < events.len() ==> !(#[trigger] events[i] is Opened),
    ensures
        !holds_live_connection(run(d, events).phase),
        !(run(d, events).phase is Writing),
    decreases events.len(),
{
    if events.len() > 0 {
        let rest = events.drop_first();
        assert forall|i: int| 0 <= i < rest.len() implies !(#[trigger] rest[i] is Opened) by {
            assert(rest[i] == events[i + 1]);
        }
        lemma_no_write_until_reopened(step_spec(d, events[0]), rest);
    }
}

/// A timed-out write leaves the driver connected: it rests one interval,
/// pumps again, and writes again unless the monitor then reports sleeping.
pub proof fn lemma_timeout_keeps_active(d: HeartbeatDriver, notes: Vec<bool>)
    requires
        d.phase is Writing,
    ensures
        step_spec(d, Event::WriteDone(WriteOutcome::TimedOut)).phase is Resting,
        step_spec(d, Event::WriteDone(WriteOutcome::TimedOut)).monitor == d.monitor,
        ({
            let d3 = run(
                d,
                seq![Event::WriteDone(WriteOutcome::TimedOut), Event::Waited, Event::Pumped(notes)],
            );
            d3.phase is Writing <==> !d3.monitor.sleeping
        }),
{
    let events = seq![Event::WriteDone(WriteOutcome::TimedOut), Event::Waited, Event::Pumped(notes)];
    lemma_run_three(d, events);
}

} // verus!
