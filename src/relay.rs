//! The packet relay between the virtual interface and the message channel,
//! with the monitor of the connection state that ends it.
//!
//! The engine decides; the caller performs. Each event (the channel opened, a
//! read from the interface, a message from the channel, a failure, a change
//! of connection state) goes in, and one action comes out.
use crate::negotiate::Role;
use vstd::prelude::*;

verus! {

/// The largest frame read from the interface and sent as one message.
pub const FRAME_SIZE: usize = 500;

/// The connection states that the transport reports.
#[derive(Debug, Clone, Copy, PartialEq, Eq, Structural)]
pub enum PeerState {
    Unspecified,
    New,
    Connecting,
    Connected,
    Disconnected,
    Failed,
    Closed,
}

/// What the process does on a change of connection state.
#[derive(Debug, Clone, Copy, PartialEq, Eq, Structural)]
pub enum MonitorAction {
    /// Nothing.
    Ignore,
    /// Signal completion: the top level closes the session and returns.
    Shutdown,
    /// End the process at once.
    Exit,
}

/// What the caller does after an event.
#[derive(Debug, PartialEq, Eq)]
pub enum RelayAction {
    /// Nothing.
    Idle,
    /// Send these bytes over the channel as one message.
    Send(Vec<u8>),
    /// Write these bytes to the interface.
    Write(Vec<u8>),
    /// Stop this direction: its last read or write failed or was out of bounds.
    Stop,
}

/// The model of an action.
pub enum ActionView {
    Idle,
    Send(Seq<u8>),
    Write(Seq<u8>),
    Stop,
}

impl View for RelayAction {
    type V = ActionView;

    open spec fn view(&self) -> ActionView {
        match self {
            RelayAction::Idle => ActionView::Idle,
            RelayAction::Send(b) => ActionView::Send(b@),
            RelayAction::Write(b) => ActionView::Write(b@),
            RelayAction::Stop => ActionView::Stop,
        }
    }
}

/// The model of the relay engine.
pub struct RelayView {
    /// The channel has opened.
    pub open: bool,
    /// The connection failed or closed: nothing more is relayed.
    pub terminal: bool,
    /// The interface-to-channel direction has stopped.
    pub outbound_stopped: bool,
    /// The channel-to-interface direction has stopped.
    pub inbound_stopped: bool,
    /// Every message dispatched to the channel, in dispatch order.
    pub sent: Seq<Seq<u8>>,
    /// Every payload dispatched to the interface, in dispatch order.
    pub written: Seq<Seq<u8>>,
}

/// The relay engine of one session.
pub struct Relay {
    open: bool,
    terminal: bool,
    outbound_stopped: bool,
    inbound_stopped: bool,
    sent: Ghost<Seq<Seq<u8>>>,
    written: Ghost<Seq<Seq<u8>>>,
}

impl View for Relay {
    type V = RelayView;

    closed spec fn view(&self) -> RelayView {
        RelayView {
            open: self.open,
            terminal: self.terminal,
            outbound_stopped: self.outbound_stopped,
            inbound_stopped: self.inbound_stopped,
            sent: self.sent@,
            written: self.written@,
        }
    }
}

/// What the monitor does when the connection enters `s`: a failure ends the
/// session on either side; a close ends the answering process at once.
pub open spec fn monitor_spec(role: Role, s: PeerState) -> MonitorAction {
    match s {
        PeerState::Failed => MonitorAction::Shutdown,
        PeerState::Closed => match role {
            Role::Answerer => MonitorAction::Exit,
            Role::Offerer => MonitorAction::Ignore,
        },
        _ => MonitorAction::Ignore,
    }
}

/// The engine before the channel opens.
pub open spec fn initial_view() -> RelayView {
    RelayView {
        open: false,
        terminal: false,
        outbound_stopped: false,
        inbound_stopped: false,
        sent: seq![],
        written: seq![],
    }
}

/// Interface reads are relayed.
pub open spec fn outbound_live(v: RelayView) -> bool {
    v.open && !v.terminal && !v.outbound_stopped
}

/// Channel messages are relayed.
pub open spec fn inbound_live(v: RelayView) -> bool {
    v.open && !v.terminal && !v.inbound_stopped
}

/// The frame that a read of `n` bytes into `buf` yields: the first `n` bytes,
/// when there are any and at most a frame's worth.
pub open spec fn frame_of(buf: Seq<u8>, n: int) -> Option<Seq<u8>> {
    if 0 < n <= FRAME_SIZE && n <= buf.len() {
        Some(buf.take(n))
    } else {
        None
    }
}

/// An event that the engine takes.
pub enum RelayEvent {
    Opened,
    Read(Seq<u8>, int),
    ReadFailed,
    Message(Seq<u8>),
    WriteFailed,
    StateChanged(Role, PeerState),
}

/// The engine after `e`, and the action it asks for.
pub open spec fn step_spec(v: RelayView, e: RelayEvent) -> (RelayView, ActionView) {
    match e {
        RelayEvent::Opened => (RelayView { open: true, ..v }, ActionView::Idle),
        RelayEvent::Read(buf, n) => if !outbound_live(v) || n == 0 {
            (v, ActionView::Idle)
        } else {
            match frame_of(buf, n) {
                Some(f) => (RelayView { sent: v.sent.push(f), ..v }, ActionView::Send(f)),
                None => (RelayView { outbound_stopped: true, ..v }, ActionView::Stop),
            }
        },
        RelayEvent::ReadFailed => if outbound_live(v) {
            (RelayView { outbound_stopped: true, ..v }, ActionView::Stop)
        } else {
            (v, ActionView::Idle)
        },
        RelayEvent::Message(data) => if inbound_live(v) {
            (RelayView { written: v.written.push(data), ..v }, ActionView::Write(data))
        } else {
            (v, ActionView::Idle)
        },
        RelayEvent::WriteFailed => if inbound_live(v) {
            (RelayView { inbound_stopped: true, ..v }, ActionView::Stop)
        } else {
            (v, ActionView::Idle)
        },
        RelayEvent::StateChanged(_, s) => if s == PeerState::Failed || s == PeerState::Closed {
            (RelayView { terminal: true, ..v }, ActionView::Idle)
        } else {
            (v, ActionView::Idle)
        },
    }
}

/// The engine after `events` in turn.
pub open spec fn run_spec(v: RelayView, events: Seq<RelayEvent>) -> RelayView
    decreases events.len(),
{
    if events.len() == 0 {
        v
    } else {
        run_spec(step_spec(v, events[0]).0, events.skip(1))
    }
}

/// The engine after reading each of `reads` whole.
pub open spec fn run_reads(v: RelayView, reads: Seq<Seq<u8>>) -> RelayView
    decreases reads.len(),
{
    if reads.len() == 0 {
        v
    } else {
        run_reads(step_spec(v, RelayEvent::Read(reads[0], reads[0].len() as int)).0, reads.skip(1))
    }
}

/// What the monitor does when the connection enters `s`.
pub fn monitor_action(role: Role, s: PeerState) -> (r: MonitorAction)
    ensures
        r == monitor_spec(role, s),
{
    match s {
        PeerState::Failed => MonitorAction::Shutdown,
        PeerState::Closed => match role {
            Role::Answerer => MonitorAction::Exit,
            Role::Offerer => MonitorAction::Ignore,
        },
        _ => MonitorAction::Ignore,
    }
}

impl Relay {
    /// An engine whose channel has not opened yet.
    pub fn new() -> (r: Relay)
        ensures
            r@ == initial_view(),
    {
        Relay {
            open: false,
            terminal: false,
            outbound_stopped: false,
            inbound_stopped: false,
            sent: Ghost(Seq::empty()),
            written: Ghost(Seq::empty()),
        }
    }

    /// Whether the channel has opened.
    pub fn is_open(&self) -> (r: bool)
        ensures
            r == self@.open,
    {
        self.open
    }

    /// Whether the connection failed or closed.
    pub fn is_terminal(&self) -> (r: bool)
        ensures
            r == self@.terminal,
    {
        self.terminal
    }

    /// The channel opened: relaying may start.
    pub fn on_open(&mut self) -> (r: RelayAction)
        ensures
            (final(self)@, r@) == step_spec(old(self)@, RelayEvent::Opened),
    {
        self.open = true;
        RelayAction::Idle
    }

    /// A read of the interface put `n` bytes at the start of `buf`. Yields
    /// those bytes as one message, or stops the direction when `n` exceeds
    /// the buffer or a frame.
    pub fn on_read(&mut self, buf: &[u8], n: usize) -> (r: RelayAction)
        ensures
            (final(self)@, r@) == step_spec(old(self)@, RelayEvent::Read(buf@, n as int)),
    {
        if !self.open || self.terminal || self.outbound_stopped || n == 0 {
            return RelayAction::Idle;
        }
        if n > FRAME_SIZE || n > buf.len() {
            self.outbound_stopped = true;
            return RelayAction::Stop;
        }
        let mut frame: Vec<u8> = Vec::with_capacity(n);
        let mut i: usize = 0;
        while i < n
            invariant
                n <= buf@.len(),
                i <= n,
                frame@ =~= buf@.take(i as int),
            decreases n - i,
        {
            frame.push(buf[i]);
            i = i + 1;
        }
        self.sent = Ghost(self.sent@.push(frame@));
        RelayAction::Send(frame)
    }

    /// A read of the interface failed: the direction stops.
    pub fn on_read_failed(&mut self) -> (r: RelayAction)
        ensures
            (final(self)@, r@) == step_spec(old(self)@, RelayEvent::ReadFailed),
    {
        if !self.open || self.terminal || self.outbound_stopped {
            return RelayAction::Idle;
        }
        self.outbound_stopped = true;
        RelayAction::Stop
    }

    /// A message arrived on the channel: its whole payload goes to the interface.
    pub fn on_message(&mut self, data: &[u8]) -> (r: RelayAction)
        ensures
            (final(self)@, r@) == step_spec(old(self)@, RelayEvent::Message(data@)),
    {
        if !self.open || self.terminal || self.inbound_stopped {
            return RelayAction::Idle;
        }
        let payload = vstd::slice::slice_to_vec(data);
        self.written = Ghost(self.written@.push(payload@));
        RelayAction::Write(payload)
    }

    /// A write to the interface failed: the direction stops.
    pub fn on_write_failed(&mut self) -> (r: RelayAction)
        ensures
            (final(self)@, r@) == step_spec(old(self)@, RelayEvent::WriteFailed),
    {
        if !self.open || self.terminal || self.inbound_stopped {
            return RelayAction::Idle;
        }
        self.inbound_stopped = true;
        RelayAction::Stop
    }

    /// The connection entered `s`. A failure or a close ends all relaying;
    /// the result says what the process does.
    pub fn on_state_change(&mut self, role: Role, s: PeerState) -> (r: MonitorAction)
        ensures
            final(self)@ == step_spec(old(self)@, RelayEvent::StateChanged(role, s)).0,
            r == monitor_spec(role, s),
    {
        match s {
            PeerState::Failed | PeerState::Closed => {
                self.terminal = true;
            },
            _ => {},
        }
        monitor_action(role, s)
    }
}

/// A read of `b`, with `0 < |b| <= FRAME_SIZE`, on a live direction dispatches
/// exactly one message, equal to `b`.
pub proof fn lemma_frame_integrity(v: RelayView, b: Seq<u8>)
    requires
        outbound_live(v),
        0 < b.len() <= FRAME_SIZE,
    ensures
        step_spec(v, RelayEvent::Read(b, b.len() as int)).1 == ActionView::Send(b),
        step_spec(v, RelayEvent::Read(b, b.len() as int)).0.sent == v.sent.push(b),
{
    assert(b.take(b.len() as int) =~= b);
}

/// Reads on a live direction are dispatched in the order they were read.
pub proof fn lemma_dispatch_order(v: RelayView, reads: Seq<Seq<u8>>)
    requires
        outbound_live(v),
        forall|i: int| 0 <= i < reads.len() ==> 0 < #[trigger] reads[i].len() <= FRAME_SIZE,
    ensures
        run_reads(v, reads).sent == v.sent + reads,
        outbound_live(run_reads(v, reads)),
    decreases reads.len(),
{
    if reads.len() == 0 {
        assert(v.sent + reads =~= v.sent);
    } else {
        let b = reads[0];
        lemma_frame_integrity(v, b);
        let next = step_spec(v, RelayEvent::Read(b, b.len() as int)).0;
        let rest = reads.skip(1);
        assert forall|i: int| 0 <= i < rest.len() implies 0 < #[trigger] rest[i].len()
            <= FRAME_SIZE by {
            assert(rest[i] == reads[i + 1]);
        }
        lemma_dispatch_order(next, rest);
        assert(next.sent + rest =~= v.sent + reads);
    }
}

/// Once the connection has failed or closed, no event dispatches anything:
/// what was sent and written stays as it was.
pub proof fn lemma_terminal_is_final(v: RelayView, events: Seq<RelayEvent>)
    requires
        v.terminal,
    ensures
        run_spec(v, events).terminal,
        run_spec(v, events).sent == v.sent,
        run_spec(v, events).written == v.written,
        forall|i: int|
            0 <= i < events.len() ==> {
                let a = (#[trigger] step_spec(v, events[i])).1;
                !(a is Send) && !(a is Write)
            },
    decreases events.len(),
{
    if events.len() > 0 {
        let next = step_spec(v, events[0]).0;
        lemma_terminal_is_final(next, events.skip(1));
    }
}

/// Once the monitor observes `Closed`, on either side, no later event
/// dispatches anything: what was sent and written stays as it was.
pub proof fn lemma_closed_ends_relay(v: RelayView, role: Role, events: Seq<RelayEvent>)
    ensures
        ({
            let closed = step_spec(v, RelayEvent::StateChanged(role, PeerState::Closed)).0;
            &&& closed.terminal
            &&& run_spec(closed, events).sent == v.sent
            &&& run_spec(closed, events).written == v.written
        }),
{
    let closed = step_spec(v, RelayEvent::StateChanged(role, PeerState::Closed)).0;
    lemma_terminal_is_final(closed, events);
}

} // verus!
