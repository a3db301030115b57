//! The handling of a received segment in each modelled connection state.
use vstd::prelude::*;
use crate::control_bits::ControlBits;
use crate::parsing::slice_to_vec;
use crate::tcb::{
    established_step,
    listen_step,
    new_data,
    next_after,
    syn_received_step,
    ReceiveSequence,
    SendSequence,
    StateChangeView,
    TCPStateChange,
    TcpError,
    TcpState,
    TCB,
};
use crate::tcp::{TCP, TCP_MIN_HEADER_LENGTH};
use crate::writing::push_all;

verus! {

/// A segment with no options and no data.
fn bare_segment(
    src_port: u16,
    dst_port: u16,
    sequence_number: u32,
    acknowledgement_number: u32,
    control_bits: ControlBits,
    window: u16,
) -> (r: TCP)
    ensures
        r@ == crate::tcb::bare_segment(
            src_port,
            dst_port,
            sequence_number,
            acknowledgement_number,
            control_bits,
            window,
        ),
{
    let r = TCP {
        src_port,
        dst_port,
        sequence_number,
        acknowledgement_number,
        data_offset: TCP_MIN_HEADER_LENGTH,
        reserved: 0,
        control_bits,
        window,
        checksum: 0,
        urgent_pointer: 0,
        options: Vec::new(),
        data: Vec::new(),
    };
    assert(r.options@ =~= Seq::<u8>::empty());
    assert(r.data@ =~= Seq::<u8>::empty());
    r
}

/// LISTEN: accepts a SYN, answers with a SYN-ACK and moves to
/// SYN-RECEIVED.
pub fn handle_listen_receive(tcb: &TCB, segment: &TCP, iss: u32) -> (r: Result<
    TCPStateChange,
    TcpError,
>)
    ensures
        match r {
            Ok(c) => listen_step(tcb@, segment@, iss) == Ok::<StateChangeView, TcpError>(c@),
            Err(e) => listen_step(tcb@, segment@, iss) == Err::<StateChangeView, TcpError>(e),
        },
{
    if !segment.control_bits.syn {
        return Err(TcpError::UnexpectedConnection);
    }
    let mut send_sequence = SendSequence::new_send_sequence(segment.sequence_number, iss);
    let sequence_number = send_sequence.next;
    send_sequence.next = iss.wrapping_add(1);
    let receive_next = segment.sequence_number.wrapping_add(1);
    let new_tcb = TCB {
        local_port: segment.dst_port,
        remote_port: segment.src_port,
        send_sequence,
        receive_sequence: ReceiveSequence {
            next: receive_next,
            window: segment.window,
            urgent_pointer: 0,
            initial_receive_sequence: segment.sequence_number,
        },
        state: TcpState::SynReceived,
        send_buffer: slice_to_vec(tcb.send_buffer.as_slice()),
        receive_buffer: slice_to_vec(tcb.receive_buffer.as_slice()),
    };
    let response_segment = bare_segment(
        new_tcb.local_port,
        new_tcb.remote_port,
        sequence_number,
        receive_next,
        ControlBits::get_syn_ack(),
        send_sequence.window,
    );
    Ok(TCPStateChange::WithResponse(new_tcb, response_segment))
}

/// SYN-RECEIVED: accepts the ACK that completes the handshake and moves to
/// ESTABLISHED, without a reply.
pub fn handle_syn_received_receive(tcb: &TCB, segment: &TCP) -> (r: Result<
    TCPStateChange,
    TcpError,
>)
    ensures
        match r {
            Ok(c) => syn_received_step(tcb@, segment@) == Ok::<StateChangeView, TcpError>(c@),
            Err(e) => syn_received_step(tcb@, segment@) == Err::<StateChangeView, TcpError>(e),
        },
{
    if !segment.control_bits.ack {
        return Err(TcpError::MissingAck);
    }
    let new_tcb = TCB {
        local_port: tcb.local_port,
        remote_port: tcb.remote_port,
        send_sequence: tcb.send_sequence,
        receive_sequence: ReceiveSequence {
            next: tcb.receive_sequence.next,
            window: segment.window,
            urgent_pointer: 0,
            initial_receive_sequence: tcb.receive_sequence.initial_receive_sequence,
        },
        state: TcpState::Established,
        send_buffer: slice_to_vec(tcb.send_buffer.as_slice()),
        receive_buffer: slice_to_vec(tcb.receive_buffer.as_slice()),
    };
    Ok(TCPStateChange::NoResponse(new_tcb))
}

/// ESTABLISHED: delivers the segment's new data to the receive buffer and
/// answers with an ACK of everything received so far.
pub fn handle_established_receive(tcb: &TCB, segment: &TCP) -> (r: Result<
    TCPStateChange,
    TcpError,
>)
    ensures
        match r {
            Ok(c) => established_step(tcb@, segment@) == Ok::<StateChangeView, TcpError>(c@),
            Err(e) => established_step(tcb@, segment@) == Err::<StateChangeView, TcpError>(e),
        },
{
    if !segment.control_bits.ack {
        return Err(TcpError::MissingAck);
    }
    let next = tcb.receive_sequence.next;
    let seq = segment.sequence_number;
    let len = segment.data.len();
    let mut new_buffer = slice_to_vec(tcb.receive_buffer.as_slice());
    // The segment reaches past `next` when its end, seq + len, does; a
    // length of 2^32 or more always does.
    let reaches_past = len as u64 >= 0x1_0000_0000 || (next as u64) < seq as u64 + len as u64;
    let next_sequence_number: u32;
    if seq == next || (seq < next && reaches_past) {
        let start: usize = if seq == next {
            0
        } else {
            (next - seq) as usize
        };
        let (_, fresh) = segment.data.as_slice().split_at(start);
        push_all(&mut new_buffer, fresh);
        let len_mod = (len as u64 % 0x1_0000_0000) as u32;
        next_sequence_number = seq.wrapping_add(len_mod);
        proof {
            assert(new_data(next, segment@) =~= fresh@);
            assert(next_sequence_number == next_after(next, segment@));
        }
    } else {
        next_sequence_number = next;
        assert(new_data(next, segment@) =~= Seq::<u8>::empty());
    }
    let new_tcb = TCB {
        local_port: tcb.local_port,
        remote_port: tcb.remote_port,
        send_sequence: tcb.send_sequence,
        receive_sequence: ReceiveSequence {
            next: next_sequence_number,
            window: segment.window,
            urgent_pointer: 0,
            initial_receive_sequence: tcb.receive_sequence.initial_receive_sequence,
        },
        state: TcpState::Established,
        send_buffer: slice_to_vec(tcb.send_buffer.as_slice()),
        receive_buffer: new_buffer,
    };
    let response = bare_segment(
        tcb.local_port,
        tcb.remote_port,
        tcb.send_sequence.next,
        next_sequence_number,
        ControlBits::get_ack(),
        segment.window,
    );
    Ok(TCPStateChange::WithResponse(new_tcb, response))
}

} // verus!
