//! The Transmission Control Block (RFC 793, section 3.2) and the step
//! function that advances it on each received segment.
use vstd::prelude::*;
use crate::control_bits::ControlBits;
use crate::tcp::{TcpView, TCP};
use vstd::arithmetic::div_mod::lemma_add_mod_noop_right;
use crate::states::{
    handle_established_receive,
    handle_listen_receive,
    handle_syn_received_receive,
};

verus! {

/// The window that this end announces in its SYN-ACK.
pub const LOCAL_WINDOW: u16 = 1024;

/// The connection states of RFC 793. CLOSED has no value: a closed
/// connection has no control block.
#[derive(Clone, Copy, Debug, PartialEq, Eq, Structural)]
pub enum TcpState {
    Listen,
    SynSent,
    SynReceived,
    Established,
    FinWait1,
    FinWait2,
    CloseWait,
    Closing,
    LastAck,
    TimeWait,
}

/// Why a segment was refused.
#[derive(Clone, Copy, Debug, PartialEq, Eq, Structural)]
pub enum TcpError {
    /// A segment without SYN reached a listening connection.
    UnexpectedConnection,
    /// A segment without ACK reached a synchronised connection.
    MissingAck,
    /// The connection is in a state whose handling is not modelled.
    NotSupported(TcpState),
}

/// The send sequence variables.
#[derive(Clone, Copy, Debug, PartialEq, Eq, Structural)]
pub struct SendSequence {
    pub unacknowledged: u32,
    pub next: u32,
    pub window: u16,
    pub urgent_pointer: u32,
    /// WL1: the sequence number of the last window update.
    pub last_window_update_sequence: u32,
    /// WL2: the acknowledgement number of the last window update.
    pub last_window_update_ack: u32,
    pub initial_send_sequence: u32,
}

/// The receive sequence variables.
#[derive(Clone, Copy, Debug, PartialEq, Eq, Structural)]
pub struct ReceiveSequence {
    pub next: u32,
    pub window: u16,
    pub urgent_pointer: u32,
    pub initial_receive_sequence: u32,
}

/// `x` reduced modulo 2^32: sequence-number arithmetic.
pub open spec fn wrap32(x: int) -> u32 {
    (x % 0x1_0000_0000) as u32
}

impl SendSequence {
    /// All variables zero.
    pub open spec fn zero() -> SendSequence {
        SendSequence {
            unacknowledged: 0,
            next: 0,
            window: 0,
            urgent_pointer: 0,
            last_window_update_sequence: 0,
            last_window_update_ack: 0,
            initial_send_sequence: 0,
        }
    }

    /// The send sequence of a connection that starts at the initial send
    /// sequence number `iss`, answering a peer whose initial sequence number
    /// is `rcv_seq`. The SYN is not yet counted in `next`.
    pub open spec fn started(rcv_seq: u32, iss: u32) -> SendSequence {
        SendSequence {
            unacknowledged: iss,
            next: iss,
            window: LOCAL_WINDOW,
            urgent_pointer: 0,
            last_window_update_sequence: rcv_seq,
            last_window_update_ack: rcv_seq,
            initial_send_sequence: iss,
        }
    }

    /// The send sequence of a new connection; `iss` comes from the caller's
    /// clock.
    pub fn new_send_sequence(rcv_seq: u32, iss: u32) -> (r: SendSequence)
        ensures
            r == SendSequence::started(rcv_seq, iss),
    {
        SendSequence {
            unacknowledged: iss,
            next: iss,
            window: LOCAL_WINDOW,
            urgent_pointer: 0,
            last_window_update_sequence: rcv_seq,
            last_window_update_ack: rcv_seq,
            initial_send_sequence: iss,
        }
    }
}

/// The initial send sequence number for a clock reading of `micros`
/// microseconds since the Unix epoch: one tick every four microseconds,
/// modulo 2^32.
pub fn initial_sequence_number(micros: u128) -> (r: u32)
    ensures
        r == (micros / 4) % 0x1_0000_0000,
{
    ((micros / 4) % 0x1_0000_0000) as u32
}

/// A connection's control block.
pub struct TCB {
    pub local_port: u16,
    pub remote_port: u16,
    pub send_sequence: SendSequence,
    pub receive_sequence: ReceiveSequence,
    pub state: TcpState,
    pub send_buffer: Vec<u8>,
    pub receive_buffer: Vec<u8>,
}

/// The value of a control block.
pub struct TcbView {
    pub local_port: u16,
    pub remote_port: u16,
    pub send_sequence: SendSequence,
    pub receive_sequence: ReceiveSequence,
    pub state: TcpState,
    pub send_buffer: Seq<u8>,
    pub receive_buffer: Seq<u8>,
}

impl View for TCB {
    type V = TcbView;

    open spec fn view(&self) -> TcbView {
        TcbView {
            local_port: self.local_port,
            remote_port: self.remote_port,
            send_sequence: self.send_sequence,
            receive_sequence: self.receive_sequence,
            state: self.state,
            send_buffer: self.send_buffer@,
            receive_buffer: self.receive_buffer@,
        }
    }
}

/// The control block that a connection has before its first segment:
/// LISTEN, every sequence variable zero, empty buffers.
pub open spec fn listening_tcb() -> TcbView {
    TcbView {
        local_port: 0,
        remote_port: 0,
        send_sequence: SendSequence::zero(),
        receive_sequence: ReceiveSequence {
            next: 0,
            window: 0,
            urgent_pointer: 0,
            initial_receive_sequence: 0,
        },
        state: TcpState::Listen,
        send_buffer: Seq::empty(),
        receive_buffer: Seq::empty(),
    }
}

impl Default for TCB {
    fn default() -> (r: TCB)
        ensures
            r@ == listening_tcb(),
    {
        TCB {
            local_port: 0,
            remote_port: 0,
            send_sequence: SendSequence {
                unacknowledged: 0,
                next: 0,
                window: 0,
                urgent_pointer: 0,
                last_window_update_sequence: 0,
                last_window_update_ack: 0,
                initial_send_sequence: 0,
            },
            receive_sequence: ReceiveSequence {
                next: 0,
                window: 0,
                urgent_pointer: 0,
                initial_receive_sequence: 0,
            },
            state: TcpState::Listen,
            send_buffer: Vec::new(),
            receive_buffer: Vec::new(),
        }
    }
}

/// What a segment does to a connection: the new control block, and the
/// segment to send back if there is one.
pub enum TCPStateChange {
    WithResponse(TCB, TCP),
    NoResponse(TCB),
}

/// The value of a state change.
pub enum StateChangeView {
    WithResponse(TcbView, TcpView),
    NoResponse(TcbView),
}

impl View for TCPStateChange {
    type V = StateChangeView;

    open spec fn view(&self) -> StateChangeView {
        match self {
            TCPStateChange::WithResponse(t, s) => StateChangeView::WithResponse(t@, s@),
            TCPStateChange::NoResponse(t) => StateChangeView::NoResponse(t@),
        }
    }
}

/// A segment with no options and no data.
pub open spec fn bare_segment(
    src_port: u16,
    dst_port: u16,
    sequence_number: u32,
    acknowledgement_number: u32,
    control_bits: ControlBits,
    window: u16,
) -> TcpView {
    TcpView {
        src_port,
        dst_port,
        sequence_number,
        acknowledgement_number,
        data_offset: 5,
        reserved: 0,
        control_bits,
        window,
        checksum: 0,
        urgent_pointer: 0,
        options: Seq::empty(),
        data: Seq::empty(),
    }
}

/// LISTEN: a SYN opens the connection. The send sequence starts at `iss`
/// and counts the SYN; the receive sequence starts after the peer's SYN;
/// the reply is a SYN-ACK that announces the local window.
pub open spec fn listen_step(tcb: TcbView, seg: TcpView, iss: u32) -> Result<
    StateChangeView,
    TcpError,
> {
    if !seg.control_bits.syn {
        Err(TcpError::UnexpectedConnection)
    } else {
        let send = SendSequence::started(seg.sequence_number, iss);
        let new_tcb = TcbView {
            local_port: seg.dst_port,
            remote_port: seg.src_port,
            send_sequence: SendSequence { next: wrap32(iss + 1), ..send },
            receive_sequence: ReceiveSequence {
                next: wrap32(seg.sequence_number + 1),
                window: seg.window,
                urgent_pointer: 0,
                initial_receive_sequence: seg.sequence_number,
            },
            state: TcpState::SynReceived,
            send_buffer: tcb.send_buffer,
            receive_buffer: tcb.receive_buffer,
        };
        Ok(
            StateChangeView::WithResponse(
                new_tcb,
                bare_segment(
                    seg.dst_port,
                    seg.src_port,
                    iss,
                    wrap32(seg.sequence_number + 1),
                    ControlBits {
                        urg: false,
                        ack: true,
                        psh: false,
                        rst: false,
                        syn: true,
                        fin: false,
                    },
                    send.window,
                ),
            ),
        )
    }
}

/// SYN-RECEIVED: the ACK that completes the handshake establishes the
/// connection. The receive sequence keeps its next number (RFC 793: a bare
/// ACK consumes no sequence number) and takes the peer's window. No reply.
pub open spec fn syn_received_step(tcb: TcbView, seg: TcpView) -> Result<
    StateChangeView,
    TcpError,
> {
    if !seg.control_bits.ack {
        Err(TcpError::MissingAck)
    } else {
        Ok(
            StateChangeView::NoResponse(
                TcbView {
                    receive_sequence: ReceiveSequence {
                        next: tcb.receive_sequence.next,
                        window: seg.window,
                        urgent_pointer: 0,
                        initial_receive_sequence: tcb.receive_sequence.initial_receive_sequence,
                    },
                    state: TcpState::Established,
                    ..tcb
                },
            ),
        )
    }
}

/// The part of `seg`'s data that is new to a receiver expecting `next`: all
/// of it when it starts at `next`, the part after `next` when it starts
/// before and reaches past it, and nothing otherwise.
pub open spec fn new_data(next: u32, seg: TcpView) -> Seq<u8> {
    let s = seg.sequence_number as int;
    let len = seg.data.len() as int;
    if s == next {
        seg.data
    } else if s < next && next < s + len {
        seg.data.subrange(next - s, len)
    } else {
        Seq::empty()
    }
}

/// The receiver's next number after `seg`: the end of its data when any of
/// it was new or it started at `next`, `next` otherwise.
pub open spec fn next_after(next: u32, seg: TcpView) -> u32 {
    let s = seg.sequence_number as int;
    let len = seg.data.len() as int;
    if s == next || (s < next && next < s + len) {
        wrap32(s + len)
    } else {
        next
    }
}

/// ESTABLISHED: an acknowledging segment delivers its new data, in order,
/// to the receive buffer, and is answered with a bare ACK.
pub open spec fn established_step(tcb: TcbView, seg: TcpView) -> Result<
    StateChangeView,
    TcpError,
> {
    if !seg.control_bits.ack {
        Err(TcpError::MissingAck)
    } else {
        let next = next_after(tcb.receive_sequence.next, seg);
        let new_tcb = TcbView {
            receive_sequence: ReceiveSequence {
                next,
                window: seg.window,
                urgent_pointer: 0,
                initial_receive_sequence: tcb.receive_sequence.initial_receive_sequence,
            },
            state: TcpState::Established,
            receive_buffer: tcb.receive_buffer + new_data(tcb.receive_sequence.next, seg),
            ..tcb
        };
        Ok(
            StateChangeView::WithResponse(
                new_tcb,
                bare_segment(
                    tcb.local_port,
                    tcb.remote_port,
                    tcb.send_sequence.next,
                    next,
                    ControlBits {
                        urg: false,
                        ack: true,
                        psh: false,
                        rst: false,
                        syn: false,
                        fin: false,
                    },
                    seg.window,
                ),
            ),
        )
    }
}

/// The step of the state machine: what `seg` does to a connection in
/// `tcb`'s state, with `iss` as the initial send sequence number should the
/// segment open the connection.
pub open spec fn tcb_step(tcb: TcbView, seg: TcpView, iss: u32) -> Result<
    StateChangeView,
    TcpError,
> {
    match tcb.state {
        TcpState::Listen => listen_step(tcb, seg, iss),
        TcpState::SynReceived => syn_received_step(tcb, seg),
        TcpState::Established => established_step(tcb, seg),
        state => Err(TcpError::NotSupported(state)),
    }
}

impl TCB {
    /// Advances the connection on a received segment. `iss` is used only
    /// when the segment opens the connection.
    pub fn on_packet_received(&self, tcp: &TCP, iss: u32) -> (r: Result<TCPStateChange, TcpError>)
        ensures
            match r {
                Ok(c) => tcb_step(self@, tcp@, iss) == Ok::<StateChangeView, TcpError>(c@),
                Err(e) => tcb_step(self@, tcp@, iss) == Err::<StateChangeView, TcpError>(e),
            },
    {
        match self.state {
            TcpState::Listen => handle_listen_receive(self, tcp, iss),
            TcpState::SynReceived => handle_syn_received_receive(self, tcp),
            TcpState::Established => handle_established_receive(self, tcp),
            state => Err(TcpError::NotSupported(state)),
        }
    }
}

/// Two adjacent segments received in order by an established connection,
/// the first at the receiver's next number and the second where the first
/// ends, append both data fields to the receive buffer, in order, and
/// advance the receiver's next number by both lengths (modulo 2^32). Each
/// is acknowledged.
pub proof fn lemma_adjacent_segments(tcb: TcbView, s1: TcpView, s2: TcpView, iss: u32)
    requires
        tcb.state == TcpState::Established,
        s1.control_bits.ack,
        s2.control_bits.ack,
        s1.sequence_number == tcb.receive_sequence.next,
        s2.sequence_number == wrap32(s1.sequence_number + s1.data.len()),
    ensures
        tcb_step(tcb, s1, iss) matches Ok(StateChangeView::WithResponse(t1, _)) && tcb_step(
            t1,
            s2,
            iss,
        ) matches Ok(StateChangeView::WithResponse(t2, _)) && t2.receive_buffer
            == tcb.receive_buffer + s1.data + s2.data && t2.receive_sequence.next == wrap32(
            tcb.receive_sequence.next + s1.data.len() + s2.data.len(),
        ),
{
    let n = tcb.receive_sequence.next as int;
    let l1 = s1.data.len() as int;
    let l2 = s2.data.len() as int;
    assert((((n + l1) % 0x1_0000_0000) + l2) % 0x1_0000_0000 == (n + l1 + l2) % 0x1_0000_0000) by {
        lemma_add_mod_noop_right(l2, n + l1, 0x1_0000_0000);
    }
}

} // verus!
