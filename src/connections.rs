//! The connection table, and the handling of one received frame: find the
//! connection's control block, step it, store it back, and wrap the reply.
use vstd::prelude::*;
use crate::error::ResponseError;
use crate::ip_address::IPAddress;
use crate::ip_layer::{IPLayerProtocol, IpView};
use crate::ipv4::ipv4_response;
use crate::control_bits::ControlBits;
use crate::tcb::{listening_tcb, tcb_step, wrap32, StateChangeView, TCPStateChange, TcbView, TcpState, TCB};
use crate::tcp::TcpView;
use crate::transport_layer::{transport_length, TransportLayer, TransportView};
use crate::tun_layer::{Protocol, TunLayer, TunView};

verus! {

/// The key of a connection, as seen from the sender of a received segment.
#[derive(Clone, Copy, Debug, PartialEq, Eq, Hash, Structural)]
pub struct TCPQuad {
    pub src_ip: IPAddress,
    pub dst_ip: IPAddress,
    pub src_port: u16,
    pub dst_port: u16,
}

/// One connection in the table.
pub struct Connection {
    pub quad: TCPQuad,
    pub tcb: TCB,
}

/// The control blocks of the connections seen so far, one per quadruple.
pub struct ConnectionTable {
    entries: Vec<Connection>,
}

/// The quadruple of a segment received from `src` at `dst`.
pub open spec fn quad_of(src: IPAddress, dst: IPAddress, seg: TcpView) -> TCPQuad {
    TCPQuad { src_ip: src, dst_ip: dst, src_port: seg.src_port, dst_port: seg.dst_port }
}

/// The control block of `q`: the stored one, or a listening one when the
/// connection has not been seen.
pub open spec fn tcb_for(table: Map<TCPQuad, TcbView>, q: TCPQuad) -> TcbView {
    if table.contains_key(q) {
        table[q]
    } else {
        listening_tcb()
    }
}

/// What a TCP segment received from `src` at `dst` does to the table, and
/// the segment that answers it. A refused segment leaves its connection's
/// control block as it was, and a connection seen for the first time is
/// stored with the listening block.
pub open spec fn handle_tcp(
    table: Map<TCPQuad, TcbView>,
    src: IPAddress,
    dst: IPAddress,
    seg: TcpView,
    iss: u32,
) -> (Map<TCPQuad, TcbView>, Option<TcpView>) {
    let q = quad_of(src, dst, seg);
    match tcb_step(tcb_for(table, q), seg, iss) {
        Err(_) => (table.insert(q, tcb_for(table, q)), None),
        Ok(StateChangeView::WithResponse(t, r)) => (table.insert(q, t), Some(r)),
        Ok(StateChangeView::NoResponse(t)) => (table.insert(q, t), None),
    }
}

/// What a transport payload received from `src` at `dst` does to the
/// table, and the payload that answers it. Only TCP is handled.
pub open spec fn handle_transport(
    table: Map<TCPQuad, TcbView>,
    src: IPAddress,
    dst: IPAddress,
    data: TransportView,
    iss: u32,
) -> (Map<TCPQuad, TcbView>, Option<TransportView>) {
    match data {
        TransportView::TCP(seg) => {
            let (m, r) = handle_tcp(table, src, dst, seg, iss);
            match r {
                Some(s) => (m, Some(TransportView::TCP(s))),
                None => (m, None),
            }
        },
        _ => (table, None),
    }
}

/// What a received frame does to the table, and the frame that answers it:
/// over IPv4 the reply goes back in an IPv4 response header; a reply over
/// IPv6 cannot be built.
pub open spec fn handle_frame(table: Map<TCPQuad, TcbView>, frame: TunView, iss: u32) -> (
    Map<TCPQuad, TcbView>,
    Result<Option<TunView>, ResponseError>,
) {
    match frame.data {
        IpView::IPv4(h) => {
            let (m, r) = handle_transport(
                table,
                IPAddress::V4(h.source_address),
                IPAddress::V4(h.destination_address),
                h.data,
                iss,
            );
            match r {
                None => (m, Ok(None)),
                Some(d) => match transport_length(d) {
                    None => (m, Err(ResponseError::Unsupported)),
                    Some(n) => if 20 + n > 0xFFFF {
                        (m, Err(ResponseError::SizeOverflow))
                    } else {
                        (
                            m,
                            Ok(
                                Some(
                                    TunView {
                                        flags: 0,
                                        proto: Protocol::IPv4,
                                        data: IpView::IPv4(ipv4_response(h, d, 20 + n)),
                                    },
                                ),
                            ),
                        )
                    },
                },
            }
        },
        IpView::IPv6(h) => {
            let (m, r) = handle_transport(
                table,
                IPAddress::V6(h.source_address),
                IPAddress::V6(h.destination_address),
                h.data,
                iss,
            );
            match r {
                None => (m, Ok(None)),
                Some(_) => (m, Err(ResponseError::Unsupported)),
            }
        },
        IpView::Other(_) => (table, Ok(None)),
    }
}

impl ConnectionTable {
    /// Each quadruple has at most one entry.
    pub closed spec fn wf(&self) -> bool {
        forall|i: int, j: int|
            0 <= i < j < self.entries@.len() ==> self.entries@[i].quad != self.entries@[j].quad
    }

    pub closed spec fn entries_view(&self) -> Seq<Connection> {
        self.entries@
    }

    /// The table as a map from quadruple to control block.
    pub open spec fn view(&self) -> Map<TCPQuad, TcbView> {
        Map::new(
            |q: TCPQuad| exists|i: int| 0 <= i < self.entries_view().len() && self.entries_view()[i].quad == q,
            |q: TCPQuad|
                self.entries_view()[choose|i: int|
                    0 <= i < self.entries_view().len() && self.entries_view()[i].quad == q].tcb@,
        )
    }

    /// An empty table.
    pub fn new() -> (r: ConnectionTable)
        ensures
            r.wf(),
            r@ == Map::<TCPQuad, TcbView>::empty(),
    {
        let r = ConnectionTable { entries: Vec::new() };
        assert(r@ =~= Map::<TCPQuad, TcbView>::empty());
        r
    }

    proof fn lemma_view_at(&self, i: int)
        requires
            self.wf(),
            0 <= i < self.entries@.len(),
        ensures
            self@.contains_key(self.entries@[i].quad),
            self@[self.entries@[i].quad] == self.entries@[i].tcb@,
    {
        let q = self.entries@[i].quad;
        assert(self.entries_view()[i].quad == q);
        let j = choose|j: int| 0 <= j < self.entries_view().len() && self.entries_view()[j].quad == q;
        assert(j == i);
    }

    fn position(&self, quad: &TCPQuad) -> (r: Option<usize>)
        requires
            self.wf(),
        ensures
            match r {
                Some(i) => i < self.entries@.len() && self.entries@[i as int].quad == *quad,
                None => forall|i: int|
                    0 <= i < self.entries@.len() ==> self.entries@[i].quad != *quad,
            },
    {
        let mut i: usize = 0;
        while i < self.entries.len()
            invariant
                0 <= i <= self.entries@.len(),
                forall|j: int| 0 <= j < i ==> self.entries@[j].quad != *quad,
            decreases self.entries@.len() - i,
        {
            if self.entries[i].quad == *quad {
                return Some(i);
            }
            i = i + 1;
        }
        None
    }

    /// The control block stored for `quad`.
    pub fn get(&self, quad: &TCPQuad) -> (r: Option<&TCB>)
        requires
            self.wf(),
        ensures
            match r {
                Some(t) => self@.contains_key(*quad) && t@ == self@[*quad],
                None => !self@.contains_key(*quad),
            },
    {
        match self.position(quad) {
            Some(i) => {
                assert(self@.contains_key(*quad));
                Some(&self.entries[i].tcb)
            },
            None => None,
        }
    }

    /// Stores `tcb` for `quad`, in place of any block stored before.
    pub fn insert(&mut self, quad: TCPQuad, tcb: TCB)
        requires
            old(self).wf(),
        ensures
            final(self).wf(),
            final(self)@ == old(self)@.insert(quad, tcb@),
    {
        let ghost tv = tcb@;
        let ghost pre = *self;
        let ghost idx: int;
        match self.position(&quad) {
            Some(i) => {
                self.entries.set(i, Connection { quad, tcb });
                proof {
                    idx = i as int;
                }
            },
            None => {
                self.entries.push(Connection { quad, tcb });
                proof {
                    idx = self.entries@.len() - 1;
                }
            },
        }
        proof {
            assert(self.wf());
            assert forall|q: TCPQuad| #[trigger] self@.contains_key(q) == old(self)@.insert(
                quad,
                tv,
            ).contains_key(q) && (self@.contains_key(q) ==> self@[q] == old(self)@.insert(
                quad,
                tv,
            )[q]) by {
                if q == quad {
                    self.lemma_view_at(idx);
                } else if pre@.contains_key(q) {
                    let j = choose|j: int|
                        0 <= j < pre.entries_view().len() && pre.entries_view()[j].quad == q;
                    pre.lemma_view_at(j);
                    self.lemma_view_at(j);
                } else if self@.contains_key(q) {
                    let j = choose|j: int|
                        0 <= j < self.entries_view().len() && self.entries_view()[j].quad == q;
                    assert(j != idx);
                    assert(pre.entries_view()[j].quad == q);
                }
            }
            assert(self@ =~= old(self)@.insert(quad, tv));
        }
    }
}

/// The view of an optional payload.
pub open spec fn payload_view(r: Option<TransportLayer>) -> Option<TransportView> {
    match r {
        Some(x) => Some(x@),
        None => None,
    }
}

/// The view of an optional frame.
pub open spec fn frame_view(r: Option<TunLayer>) -> Option<TunView> {
    match r {
        Some(x) => Some(x@),
        None => None,
    }
}

/// Handles a transport payload received from `source_address` at
/// `destination_address`: a TCP segment steps its connection's control block
/// (a listening one when the connection is new) and the result is stored
/// back; the reply, if any, is returned. A refused segment leaves the block
/// as it was, stored under its quadruple all the same. A payload that is
/// not TCP changes nothing and gets no reply. `iss` is the initial
/// send sequence number should the segment open a connection.
pub fn handle_transport_layer(
    data: &TransportLayer,
    connections: &mut ConnectionTable,
    source_address: IPAddress,
    destination_address: IPAddress,
    iss: u32,
) -> (r: Option<TransportLayer>)
    requires
        old(connections).wf(),
    ensures
        final(connections).wf(),
        (final(connections)@, payload_view(r)) == handle_transport(
            old(connections)@,
            source_address,
            destination_address,
            data@,
            iss,
        ),
{
    match data {
        TransportLayer::TCP(tcp) => {
            let quad = TCPQuad {
                src_ip: source_address,
                dst_ip: destination_address,
                src_port: tcp.src_port,
                dst_port: tcp.dst_port,
            };
            let listening = TCB::default();
            let (result, known) = match connections.get(&quad) {
                Some(tcb) => (tcb.on_packet_received(tcp, iss), true),
                None => (listening.on_packet_received(tcp, iss), false),
            };
            match result {
                Err(_) => {
                    if known {
                        assert(connections@.insert(quad, connections@[quad]) =~= connections@);
                    } else {
                        connections.insert(quad, listening);
                    }
                    None
                },
                Ok(TCPStateChange::WithResponse(new_tcb, response)) => {
                    connections.insert(quad, new_tcb);
                    Some(TransportLayer::TCP(response))
                },
                Ok(TCPStateChange::NoResponse(new_tcb)) => {
                    connections.insert(quad, new_tcb);
                    None
                },
            }
        },
        _ => None,
    }
}

/// Handles a received frame: its TCP payload steps its connection, and the
/// reply, if any, comes back in an IPv4 response frame. A reply over IPv6
/// cannot be built (`Unsupported`); the connection has advanced all the
/// same. `iss` is the initial send sequence number should the segment open
/// a connection.
pub fn handle_tun_layer(tun_layer: TunLayer, connections: &mut ConnectionTable, iss: u32) -> (r:
    Result<Option<TunLayer>, ResponseError>)
    requires
        old(connections).wf(),
    ensures
        final(connections).wf(),
        ({
            let (m, expected) = handle_frame(old(connections)@, tun_layer@, iss);
            &&& final(connections)@ == m
            &&& match r {
                Ok(f) => expected == Ok::<Option<TunView>, ResponseError>(frame_view(f)),
                Err(e) => expected == Err::<Option<TunView>, ResponseError>(e),
            }
        }),
{
    match tun_layer.data {
        IPLayerProtocol::IPv4(ipv4) => {
            let response = handle_transport_layer(
                &ipv4.data,
                connections,
                IPAddress::V4(ipv4.source_address),
                IPAddress::V4(ipv4.destination_address),
                iss,
            );
            match response {
                None => Ok(None),
                Some(data) => {
                    let header = ipv4.generate_response(data)?;
                    Ok(Some(TunLayer::generate_response(IPLayerProtocol::IPv4(header))))
                },
            }
        },
        IPLayerProtocol::IPv6(ipv6) => {
            let response = handle_transport_layer(
                &ipv6.data,
                connections,
                IPAddress::V6(ipv6.source_address),
                IPAddress::V6(ipv6.destination_address),
                iss,
            );
            match response {
                None => Ok(None),
                Some(data) => {
                    let header = ipv6.generate_response(data)?;
                    Ok(Some(TunLayer::generate_response(IPLayerProtocol::IPv6(header))))
                },
            }
        },
        IPLayerProtocol::Other(_) => Ok(None),
    }
}

/// A SYN alone, received on a connection that has no control block yet,
/// is answered from the port it was sent to, to the port it came from, with
/// SYN and ACK and an acknowledgement of the SYN's sequence number plus one;
/// the connection is stored in SYN-RECEIVED.
pub proof fn lemma_syn_opens_connection(
    table: Map<TCPQuad, TcbView>,
    src: IPAddress,
    dst: IPAddress,
    seg: TcpView,
    iss: u32,
)
    requires
        !table.contains_key(quad_of(src, dst, seg)),
        seg.control_bits == (ControlBits {
            urg: false,
            ack: false,
            psh: false,
            rst: false,
            syn: true,
            fin: false,
        }),
    ensures
        ({
            let (m, r) = handle_tcp(table, src, dst, seg, iss);
            &&& r matches Some(resp)
            &&& resp.src_port == seg.dst_port
            &&& resp.dst_port == seg.src_port
            &&& resp.control_bits == (ControlBits {
                urg: false,
                ack: true,
                psh: false,
                rst: false,
                syn: true,
                fin: false,
            })
            &&& resp.acknowledgement_number == wrap32(seg.sequence_number + 1)
            &&& m.contains_key(quad_of(src, dst, seg))
            &&& m[quad_of(src, dst, seg)].state == TcpState::SynReceived
        }),
{
}

} // verus!
