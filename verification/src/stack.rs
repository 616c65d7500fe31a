//! The flow demultiplexer.
//!
//! A [`TcpStack`] owns the connection table, a mapping from the four-tuple
//! of an inbound segment to the [`Connection`] that handles the flow.
//! [`TcpStack::handle_frame`] takes one raw IPv4 frame, parses the two
//! headers, and either dispatches the segment to the existing connection or
//! lets a SYN establish a new one; at most one frame comes back to be sent.
//!
//! The table is keyed by the four-tuple packed into a `u128`; the packing
//! is injective ([`lemma_quad_key_injective`]), so distinct flows never
//! share an entry.

use crate::tcp::{connection_wf, lemma_accept_connection_wf, lemma_step_preserves_wf};
use crate::tcp::{spec_accept_connection, spec_accept_reply, spec_reply_frame, spec_step};
use crate::tcp::Connection;
use crate::wire::{lemma_parse_ipv4_header_len, lemma_parse_tcp_header_len};
use crate::wire::{parse_ipv4, parse_tcp, spec_parse_ipv4, spec_parse_tcp};
use crate::wire::{IpHeaderInfo, TcpHeaderInfo, TCP_PROTOCOL};
use std::collections::HashMap;
use vstd::prelude::*;

verus! {

broadcast use vstd::std_specs::hash::group_hash_axioms;

/// The four-tuple identifying one TCP flow. Addresses are host-order `u32`
/// values.
#[derive(Clone, Copy, Debug, PartialEq, Eq, Structural)]
pub struct Quad {
    pub src_ip: u32,
    pub src_port: u16,
    pub dst_ip: u32,
    pub dst_port: u16,
}

/// The four-tuple of an inbound segment: who sent it, and to which of our
/// ports.
pub open spec fn spec_frame_quad(iph: IpHeaderInfo, tcph: TcpHeaderInfo) -> Quad {
    Quad { src_ip: iph.src, src_port: tcph.src_port, dst_ip: iph.dst, dst_port: tcph.dst_port }
}

/// The four-tuple packed into one integer, each field in its own bit range.
pub open spec fn spec_quad_key(q: Quad) -> u128 {
    (q.src_ip * 0x1_0000_0000_0000_0000 + q.src_port * 0x1_0000_0000_0000 + q.dst_ip * 0x1_0000
        + q.dst_port) as u128
}

/// The packing is injective: two four-tuples with the same key are the same
/// flow.
pub proof fn lemma_quad_key_injective(a: Quad, b: Quad)
    requires
        spec_quad_key(a) == spec_quad_key(b),
    ensures
        a == b,
{
}

impl Quad {
    /// The table key for this four-tuple.
    pub fn key(&self) -> (k: u128)
        ensures
            k == spec_quad_key(*self),
    {
        (self.src_ip as u128) * 0x1_0000_0000_0000_0000 + (self.src_port as u128)
            * 0x1_0000_0000_0000 + (self.dst_ip as u128) * 0x1_0000 + (self.dst_port as u128)
    }
}

/// What handling one inbound frame asks of the caller: send a frame back,
/// send nothing, or stop — the segment reached a path the machine does not
/// implement, which the endpoint treats as fatal.
pub enum FrameOutcome {
    Reply(Vec<u8>),
    NoReply,
    Fatal,
}

/// The endpoint: the connection table behind one interface.
pub struct TcpStack {
    pub connections: HashMap<u128, Connection>,
}

/// What [`TcpStack::handle_frame`] does to the table and answers for a
/// frame `buf`, stated over the parses of the frame's bytes: `table` is the
/// table before, the result is the table after together with what the
/// outcome must be.
pub open spec fn spec_handle_frame(table: Map<u128, Connection>, buf: Seq<u8>) -> (Map<
    u128,
    Connection,
>, FrameOutcomeSpec) {
    match spec_parse_ipv4(buf) {
        Option::None => (table, FrameOutcomeSpec::NoReply),
        Option::Some(iph) => {
            if iph.protocol != TCP_PROTOCOL {
                (table, FrameOutcomeSpec::NoReply)
            } else {
                match spec_parse_tcp(buf.skip(iph.header_len as int)) {
                    Option::None => (table, FrameOutcomeSpec::NoReply),
                    Option::Some(tcph) => {
                        let key = spec_quad_key(spec_frame_quad(iph, tcph));
                        let payload_len = (buf.len() - iph.header_len - tcph.header_len) as u32;
                        if table.contains_key(key) {
                            let step = spec_step(table[key], tcph, payload_len);
                            if step.aborts {
                                (table, FrameOutcomeSpec::Fatal)
                            } else {
                                (
                                    table.insert(key, step.conn),
                                    match step.reply {
                                        Option::Some(r) => FrameOutcomeSpec::Reply(
                                            spec_reply_frame(table[key], r),
                                        ),
                                        Option::None => FrameOutcomeSpec::NoReply,
                                    },
                                )
                            }
                        } else {
                            if tcph.syn {
                                (
                                    table.insert(key, spec_accept_connection(iph, tcph)),
                                    FrameOutcomeSpec::Reply(spec_accept_reply(iph, tcph)),
                                )
                            } else {
                                (table, FrameOutcomeSpec::NoReply)
                            }
                        }
                    },
                }
            }
        },
    }
}

/// The outcome [`spec_handle_frame`] prescribes: like [`FrameOutcome`] with
/// the reply's bytes as a mathematical sequence.
pub enum FrameOutcomeSpec {
    Reply(Seq<u8>),
    NoReply,
    Fatal,
}

/// Whether an executable outcome matches the prescribed one.
pub open spec fn outcome_matches(out: FrameOutcome, spec_out: FrameOutcomeSpec) -> bool {
    match (out, spec_out) {
        (FrameOutcome::Reply(f), FrameOutcomeSpec::Reply(s)) => f@ == s,
        (FrameOutcome::NoReply, FrameOutcomeSpec::NoReply) => true,
        (FrameOutcome::Fatal, FrameOutcomeSpec::Fatal) => true,
        _ => false,
    }
}

impl TcpStack {
    /// The connection table as a mapping from packed four-tuple to flow.
    pub open spec fn table(self) -> Map<u128, Connection> {
        self.connections@
    }

    /// An endpoint with no flows.
    pub fn new() -> (s: Self)
        ensures
            s.table() == Map::<u128, Connection>::empty(),
    {
        TcpStack { connections: HashMap::new() }
    }

    /// Handle one raw IPv4 frame as read from the interface: parse the
    /// IPv4 and TCP headers, drop the frame silently if either parse fails
    /// or the payload is not TCP, and otherwise hand the segment to the
    /// flow's connection — letting a SYN for an unknown four-tuple found a
    /// new one. The answer carries at most one frame to write back to the
    /// interface; `Fatal` reports a segment the machine cannot take, on
    /// which the endpoint stops.
    pub fn handle_frame(&mut self, buf: &[u8]) -> (out: FrameOutcome)
        requires
            buf@.len() <= 1504,
        ensures
            final(self).table() == spec_handle_frame(old(self).table(), buf@).0,
            outcome_matches(out, spec_handle_frame(old(self).table(), buf@).1),
    {
        let iph = match parse_ipv4(buf) {
            Option::Some(i) => i,
            Option::None => {
                return FrameOutcome::NoReply;
            },
        };
        proof {
            lemma_parse_ipv4_header_len(buf@);
        }
        if iph.protocol != TCP_PROTOCOL {
            return FrameOutcome::NoReply;
        }
        let tcp_bytes = vstd::slice::slice_subrange(buf, iph.header_len, buf.len());
        proof {
            assert(tcp_bytes@ =~= buf@.skip(iph.header_len as int));
        }
        let tcph = match parse_tcp(tcp_bytes) {
            Option::Some(t) => t,
            Option::None => {
                return FrameOutcome::NoReply;
            },
        };
        proof {
            lemma_parse_tcp_header_len(tcp_bytes@);
        }
        let data_begin = iph.header_len + tcph.header_len;
        let data = vstd::slice::slice_subrange(buf, data_begin, buf.len());
        let quad = Quad {
            src_ip: iph.src,
            src_port: tcph.src_port,
            dst_ip: iph.dst,
            dst_port: tcph.dst_port,
        };
        let key = quad.key();
        match self.connections.remove(&key) {
            Option::Some(mut conn) => {
                let ghost table0 = old(self).table();
                if conn.packet_would_abort(&tcph, data.len() as u32) {
                    self.connections.insert(key, conn);
                    proof {
                        assert(self.connections@ =~= table0);
                    }
                    FrameOutcome::Fatal
                } else {
                    let reply = conn.on_packet(&tcph, data);
                    self.connections.insert(key, conn);
                    proof {
                        assert(self.connections@ =~= table0.insert(
                            key,
                            spec_step(table0[key], tcph, data@.len() as u32).conn,
                        ));
                    }
                    match reply {
                        Option::Some(frame) => FrameOutcome::Reply(frame),
                        Option::None => FrameOutcome::NoReply,
                    }
                }
            },
            Option::None => {
                match Connection::accept(&iph, &tcph, data) {
                    Option::Some(pair) => {
                        self.connections.insert(key, pair.0);
                        FrameOutcome::Reply(pair.1)
                    },
                    Option::None => FrameOutcome::NoReply,
                }
            },
        }
    }
}

/// Every flow in a table is well formed; see [`connection_wf`].
pub open spec fn stack_wf(table: Map<u128, Connection>) -> bool {
    forall|k: u128| table.contains_key(k) ==> connection_wf(#[trigger] table[k])
}

/// Handling a frame keeps every connection in the table well formed: a new
/// flow starts well formed, and a step preserves well-formedness.
pub proof fn lemma_handle_frame_preserves_wf(table: Map<u128, Connection>, buf: Seq<u8>)
    requires
        stack_wf(table),
    ensures
        stack_wf(spec_handle_frame(table, buf).0),
{
    if let Some(iph) = spec_parse_ipv4(buf) {
        if iph.protocol == TCP_PROTOCOL {
            if let Some(tcph) = spec_parse_tcp(buf.skip(iph.header_len as int)) {
                let key = spec_quad_key(spec_frame_quad(iph, tcph));
                let payload_len = (buf.len() - iph.header_len - tcph.header_len) as u32;
                if table.contains_key(key) {
                    if !spec_step(table[key], tcph, payload_len).aborts {
                        lemma_step_preserves_wf(table[key], tcph, payload_len);
                    }
                } else {
                    if tcph.syn {
                        lemma_accept_connection_wf(iph, tcph);
                    }
                }
            }
        }
    }
}

} // verus!
