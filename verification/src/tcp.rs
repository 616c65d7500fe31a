//! The per-flow TCP state machine.
//!
//! One [`Connection`] exists per four-tuple. It owns the send and receive
//! sequence spaces, the protocol state, and the header templates used to
//! frame outbound segments. [`Connection::on_packet`] advances the machine
//! by one inbound segment and yields at most one outbound frame; its whole
//! behaviour is the transition function [`spec_step`].
//!
//! The machine implements the passive-open half of the handshake, segment
//! acceptability on the 32-bit sequence ring, acknowledgment bookkeeping,
//! and FIN-initiated shutdown. On reaching the established state it at once
//! initiates an active close — no application sits behind the endpoint.
//! Segments the machine cannot take (a payload byte while synchronized, or
//! a FIN outside the one handled state) abort processing: such inputs are
//! fenced out of [`Connection::on_packet`] by its precondition, and
//! [`Connection::packet_would_abort`] decides them for the caller.

use crate::ring::{between_wrapped, is_between_wrapped, ring_add, ring_dist, ring_sub};
use crate::wire::{build_frame, spec_frame, IpHeaderInfo, TcpHeaderInfo};
use vstd::prelude::*;

verus! {

/// The initial send sequence number the endpoint chooses for every flow.
pub const INITIAL_SEND_SEQ: u32 = 0;

/// The receive window advertised to the peer.
pub const RECEIVE_WINDOW: u16 = 1024;

/// Time-to-live written into every outbound IPv4 header.
pub const OUTBOUND_TTL: u8 = 64;

/// Payload bytes one outbound frame can carry beside the two 20-byte
/// headers, given the 1500-byte emission buffer.
pub const MAX_EMIT_PAYLOAD: usize = 1460;

/// The protocol states the machine implements: the passive-open handshake
/// and the active-close half of shutdown.
#[derive(Clone, Copy, Debug, PartialEq, Eq, Structural)]
pub enum State {
    SynRcvd,
    Estab,
    FinWait1,
    FinWait2,
    TimeWait,
}

impl State {
    /// A state is synchronized once the peer has acknowledged our SYN.
    pub open spec fn spec_is_synchronized(self) -> bool {
        !(self is SynRcvd)
    }

    /// Whether the connection has left the handshake.
    pub fn is_synchronized(&self) -> (r: bool)
        ensures
            r == self.spec_is_synchronized(),
    {
        match *self {
            State::SynRcvd => false,
            State::Estab | State::FinWait1 | State::FinWait2 | State::TimeWait => true,
        }
    }
}

/// The sender's view of its own stream (RFC 793, send sequence space).
#[derive(Clone, Copy, Debug, PartialEq, Eq, Structural)]
pub struct SendSequenceSpace {
    /// Oldest unacknowledged sequence number.
    pub una: u32,
    /// Next sequence number to send.
    pub nxt: u32,
    /// Send window.
    pub wnd: u16,
    /// Urgent flag (tracked, unused).
    pub up: bool,
    /// Sequence number of the last window update (reserved, unused).
    pub wl1: usize,
    /// Acknowledgment number of the last window update (reserved, unused).
    pub wl2: usize,
    /// Initial send sequence number.
    pub iss: u32,
}

/// The receiver's view of the peer's stream (RFC 793, receive sequence
/// space).
#[derive(Clone, Copy, Debug, PartialEq, Eq, Structural)]
pub struct RecvSequenceSpace {
    /// Next sequence number expected.
    pub nxt: u32,
    /// Receive window.
    pub wnd: u16,
    /// Urgent flag (tracked, unused).
    pub up: bool,
    /// Initial receive sequence number.
    pub irs: u32,
}

/// The immutable scaffold of every outbound IPv4 header.
#[derive(Clone, Copy, Debug, PartialEq, Eq, Structural)]
pub struct IpTemplate {
    /// Our address, host order.
    pub src: u32,
    /// The peer's address, host order.
    pub dst: u32,
    pub ttl: u8,
}

/// The scaffold of every outbound TCP header: ports and window are fixed at
/// accept time; sequence and acknowledgment numbers and the control flags
/// are patched per emission.
#[derive(Clone, Copy, Debug, PartialEq, Eq, Structural)]
pub struct TcpTemplate {
    pub src_port: u16,
    pub dst_port: u16,
    /// Sequence number of the last emission.
    pub seq: u32,
    /// Acknowledgment number of the last emission.
    pub ackn: u32,
    /// Window advertised in every emission.
    pub wnd: u16,
    pub syn: bool,
    /// Set once at accept time: every later emission acknowledges.
    pub ack: bool,
    pub fin: bool,
    pub rst: bool,
}

/// One TCP flow: protocol state, both sequence spaces, and the outbound
/// header templates.
#[derive(Clone, Copy, Debug, PartialEq, Eq, Structural)]
pub struct Connection {
    pub state: State,
    pub send: SendSequenceSpace,
    pub rcv: RecvSequenceSpace,
    pub ip: IpTemplate,
    pub tcp: TcpTemplate,
}

/// A segment's length in sequence-number space: one per payload byte, one
/// for SYN, one for FIN.
pub open spec fn spec_seg_len(payload_len: u32, syn: bool, fin: bool) -> u32
    recommends
        payload_len <= 0xFFFF_FFFD,
{
    (payload_len + (if syn {
        1int
    } else {
        0int
    }) + (if fin {
        1int
    } else {
        0int
    })) as u32
}

/// The acceptability rule of RFC 793 on the sequence ring: whether a
/// segment of length `slen` starting at `seq` overlaps the receive window
/// `[rcv_nxt, rcv_nxt + rcv_wnd)`.
pub open spec fn segment_acceptable(rcv_nxt: u32, rcv_wnd: u16, seq: u32, slen: u32) -> bool {
    let wend = ring_add(rcv_nxt, rcv_wnd as u32);
    if slen == 0 {
        if rcv_wnd == 0 {
            seq == rcv_nxt
        } else {
            between_wrapped(ring_sub(rcv_nxt, 1), seq, wend)
        }
    } else {
        if rcv_wnd == 0 {
            false
        } else {
            between_wrapped(ring_sub(rcv_nxt, 1), seq, wend) || between_wrapped(
                ring_sub(rcv_nxt, 1),
                ring_add(seq, (slen - 1) as u32),
                wend,
            )
        }
    }
}

/// What one emission carries beside the fixed template fields.
#[derive(Clone, Copy, Debug, PartialEq, Eq, Structural)]
pub struct ReplySpec {
    pub seq: u32,
    pub ackn: u32,
    pub syn: bool,
    pub fin: bool,
}

/// The bytes of the frame that [`Connection::write`] emits for reply `r`
/// from a connection whose templates are those of `c`.
pub open spec fn spec_reply_frame(c: Connection, r: ReplySpec) -> Seq<u8> {
    spec_frame(
        c.ip.src,
        c.ip.dst,
        c.tcp.src_port,
        c.tcp.dst_port,
        r.seq,
        r.ackn,
        c.tcp.wnd,
        r.syn,
        c.tcp.ack,
        r.fin,
        c.tcp.rst,
        c.ip.ttl,
        Seq::<u8>::empty(),
    )
}

/// The connection after an emission of `payload_bytes` payload bytes: the
/// template records the emitted cursors, `send.nxt` advances by the
/// emission's sequence length, and the one-shot SYN and FIN flags are
/// consumed.
pub open spec fn spec_after_write(c: Connection, payload_bytes: u32) -> Connection {
    Connection {
        send: SendSequenceSpace {
            nxt: ring_add(c.send.nxt, spec_seg_len(payload_bytes, c.tcp.syn, c.tcp.fin)),
            ..c.send
        },
        tcp: TcpTemplate { seq: c.send.nxt, ackn: c.rcv.nxt, syn: false, fin: false, ..c.tcp },
        ..c
    }
}

/// The result of advancing a connection by one inbound segment.
pub struct StepResult {
    /// The connection afterwards.
    pub conn: Connection,
    /// The emission, if the step produced one.
    pub reply: Option<ReplySpec>,
    /// The segment is one the machine cannot take: a payload byte while
    /// synchronized (no receive buffer exists), or a FIN in a state whose
    /// shutdown path is not implemented. Processing must abort instead.
    pub aborts: bool,
}

/// The transition function of the state machine: what
/// [`Connection::on_packet`] does for a segment `seg` carrying
/// `payload_len` payload bytes.
///
/// An unacceptable segment draws a bare acknowledgment and changes no
/// cursor. An acceptable one advances `rcv.nxt` by the segment length;
/// without an ACK flag processing ends there. An in-range acknowledgment
/// completes the handshake, advances `send.una`, triggers the active close
/// out of the established state, and recognizes the acknowledgment of our
/// FIN; a FIN from the peer is answered and moves the flow to its terminal
/// state.
pub open spec fn spec_step(c: Connection, seg: TcpHeaderInfo, payload_len: u32) -> StepResult {
    let slen = spec_seg_len(payload_len, seg.syn, seg.fin);
    if !segment_acceptable(c.rcv.nxt, c.rcv.wnd, seg.seq, slen) {
        // Out of window: answer with the current cursors, advance nothing.
        StepResult {
            conn: spec_after_write(c, 0),
            reply: Some(
                ReplySpec { seq: c.send.nxt, ackn: c.rcv.nxt, syn: c.tcp.syn, fin: c.tcp.fin },
            ),
            aborts: false,
        }
    } else {
        let c1 = Connection {
            rcv: RecvSequenceSpace { nxt: ring_add(seg.seq, slen), ..c.rcv },
            ..c
        };
        if !seg.ack {
            StepResult { conn: c1, reply: None, aborts: false }
        } else {
            // Our SYN is acknowledged when the acknowledgment lies in
            // (una - 1, nxt + 1): at least the one byte the SYN occupied.
            let c2 = if c1.state is SynRcvd && between_wrapped(
                ring_sub(c1.send.una, 1),
                seg.ackn,
                ring_add(c1.send.nxt, 1),
            ) {
                Connection { state: State::Estab, ..c1 }
            } else {
                c1
            };
            let in_sync = c2.state is Estab || c2.state is FinWait1 || c2.state is FinWait2;
            let ack_in_range = between_wrapped(c2.send.una, seg.ackn, ring_add(c2.send.nxt, 1));
            if in_sync && ack_in_range && payload_len != 0 {
                // No receive buffer exists to deliver payload into.
                StepResult { conn: c2, reply: None, aborts: true }
            } else {
                // An acknowledgment outside (una, nxt] carries no news and
                // advances nothing; the segment's FIN, if any, is still
                // examined below.
                let c3 = if in_sync && ack_in_range {
                    Connection { send: SendSequenceSpace { una: seg.ackn, ..c2.send }, ..c2 }
                } else {
                    c2
                };
                // Reaching the established state at once initiates the
                // active close: emit a FIN and wait for its acknowledgment.
                let armed = Connection { tcp: TcpTemplate { fin: true, ..c3.tcp }, ..c3 };
                let fin_emitted = in_sync && ack_in_range && c3.state is Estab;
                let c4 = if fin_emitted {
                    Connection { state: State::FinWait1, ..spec_after_write(armed, 0) }
                } else {
                    c3
                };
                let fin_reply = ReplySpec {
                    seq: c3.send.nxt,
                    ackn: c3.rcv.nxt,
                    syn: c3.tcp.syn,
                    fin: true,
                };
                // Our SYN and our FIN are both acknowledged once una
                // reaches iss + 2.
                let c5 = if c4.state is FinWait1 && c4.send.una == ring_add(c4.send.iss, 2) {
                    Connection { state: State::FinWait2, ..c4 }
                } else {
                    c4
                };
                if seg.fin {
                    if c5.state is FinWait2 {
                        // The peer closes too: acknowledge its FIN and
                        // rest in the terminal state.
                        StepResult {
                            conn: Connection { state: State::TimeWait, ..spec_after_write(c5, 0) },
                            reply: Some(
                                ReplySpec {
                                    seq: c5.send.nxt,
                                    ackn: c5.rcv.nxt,
                                    syn: c5.tcp.syn,
                                    fin: c5.tcp.fin,
                                },
                            ),
                            aborts: false,
                        }
                    } else {
                        // A FIN in any other state reaches a shutdown path
                        // that is not implemented.
                        StepResult { conn: c5, reply: None, aborts: true }
                    }
                } else if fin_emitted {
                    StepResult { conn: c5, reply: Some(fin_reply), aborts: false }
                } else {
                    StepResult { conn: c5, reply: None, aborts: false }
                }
            }
        }
    }
}

/// The connection [`Connection::accept`] builds for a SYN segment `tcph`
/// that arrived under the IPv4 header `iph`.
pub open spec fn spec_accept_connection(iph: IpHeaderInfo, tcph: TcpHeaderInfo) -> Connection {
    Connection {
        state: State::SynRcvd,
        send: SendSequenceSpace {
            iss: INITIAL_SEND_SEQ,
            una: INITIAL_SEND_SEQ,
            nxt: ring_add(INITIAL_SEND_SEQ, 1),
            wnd: RECEIVE_WINDOW,
            up: false,
            wl1: 0,
            wl2: 0,
        },
        rcv: RecvSequenceSpace {
            irs: tcph.seq,
            nxt: ring_add(tcph.seq, 1),
            wnd: tcph.wnd,
            up: false,
        },
        tcp: TcpTemplate {
            src_port: tcph.dst_port,
            dst_port: tcph.src_port,
            seq: INITIAL_SEND_SEQ,
            ackn: 0,
            wnd: RECEIVE_WINDOW,
            syn: false,
            ack: true,
            fin: false,
            rst: false,
        },
        ip: IpTemplate { src: iph.dst, dst: iph.src, ttl: OUTBOUND_TTL },
    }
}

/// The SYN|ACK frame [`Connection::accept`] answers a SYN with.
pub open spec fn spec_accept_reply(iph: IpHeaderInfo, tcph: TcpHeaderInfo) -> Seq<u8> {
    spec_frame(
        iph.dst,
        iph.src,
        tcph.dst_port,
        tcph.src_port,
        INITIAL_SEND_SEQ,
        ring_add(tcph.seq, 1),
        RECEIVE_WINDOW,
        true,
        true,
        false,
        false,
        OUTBOUND_TTL,
        Seq::<u8>::empty(),
    )
}

impl Connection {
    /// Decides strict membership on the sequence ring; see
    /// [`between_wrapped`].
    pub fn is_between_wrapped(start: u32, x: u32, end: u32) -> (r: bool)
        ensures
            r == between_wrapped(start, x, end),
    {
        is_between_wrapped(start, x, end)
    }

    /// The acceptability check of RFC 793 for a segment starting at `seq`
    /// with sequence length `len`, against this connection's receive
    /// window.
    pub fn check(&self, seq: u32, len: u32) -> (r: bool)
        ensures
            r == segment_acceptable(self.rcv.nxt, self.rcv.wnd, seq, len),
    {
        let wend = self.rcv.nxt.wrapping_add(self.rcv.wnd as u32);
        if len == 0 {
            // A zero-length segment has separate acceptance rules.
            if self.rcv.wnd == 0 {
                seq == self.rcv.nxt
            } else {
                Self::is_between_wrapped(self.rcv.nxt.wrapping_sub(1), seq, wend)
            }
        } else {
            if self.rcv.wnd == 0 {
                false
            } else {
                Self::is_between_wrapped(self.rcv.nxt.wrapping_sub(1), seq, wend)
                    || Self::is_between_wrapped(
                    self.rcv.nxt.wrapping_sub(1),
                    seq.wrapping_add(len - 1),
                    wend,
                )
            }
        }
    }

    /// Frames one outbound segment from the templates and the current
    /// cursors, and returns it together with the number of payload bytes it
    /// carries. The template records the emitted cursors; `send.nxt`
    /// advances by the payload length plus one for each of the SYN and FIN
    /// flags, which are consumed by the emission.
    pub fn write(&mut self, payload: &[u8]) -> (out: (Vec<u8>, usize))
        ensures
            out.1 == vstd::math::min(payload@.len() as int, MAX_EMIT_PAYLOAD as int),
            *final(self) == spec_after_write(*old(self), out.1 as u32),
            out.0@ == spec_frame(
                old(self).ip.src,
                old(self).ip.dst,
                old(self).tcp.src_port,
                old(self).tcp.dst_port,
                old(self).send.nxt,
                old(self).rcv.nxt,
                old(self).tcp.wnd,
                old(self).tcp.syn,
                old(self).tcp.ack,
                old(self).tcp.fin,
                old(self).tcp.rst,
                old(self).ip.ttl,
                payload@.take(out.1 as int),
            ),
    {
        self.tcp.seq = self.send.nxt;
        self.tcp.ackn = self.rcv.nxt;
        let payload_bytes: usize = if payload.len() < MAX_EMIT_PAYLOAD {
            payload.len()
        } else {
            MAX_EMIT_PAYLOAD
        };
        let frame = build_frame(
            self.ip.src,
            self.ip.dst,
            self.tcp.src_port,
            self.tcp.dst_port,
            self.tcp.seq,
            self.tcp.ackn,
            self.tcp.wnd,
            self.tcp.syn,
            self.tcp.ack,
            self.tcp.fin,
            self.tcp.rst,
            self.ip.ttl,
            vstd::slice::slice_subrange(payload, 0, payload_bytes),
        );
        self.send.nxt = self.send.nxt.wrapping_add(payload_bytes as u32);
        if self.tcp.syn {
            self.send.nxt = self.send.nxt.wrapping_add(1);
            self.tcp.syn = false;
        }
        if self.tcp.fin {
            self.send.nxt = self.send.nxt.wrapping_add(1);
            self.tcp.fin = false;
        }
        (frame, payload_bytes)
    }

    /// The passive open: a SYN segment for an unknown flow yields a fresh
    /// connection in `SynRcvd` together with the SYN|ACK frame answering
    /// it; any other segment yields nothing.
    pub fn accept(iph: &IpHeaderInfo, tcph: &TcpHeaderInfo, _data: &[u8]) -> (r: Option<
        (Connection, Vec<u8>),
    >)
        ensures
            r is Some <==> tcph.syn,
            r matches Some(cf) ==> cf.0 == spec_accept_connection(*iph, *tcph) && cf.1@
                == spec_accept_reply(*iph, *tcph),
    {
        if !tcph.syn {
            return None;
        }
        let connection = Connection {
            state: State::SynRcvd,
            send: SendSequenceSpace {
                iss: INITIAL_SEND_SEQ,
                una: INITIAL_SEND_SEQ,
                nxt: INITIAL_SEND_SEQ.wrapping_add(1),
                wnd: RECEIVE_WINDOW,
                up: false,
                wl1: 0,
                wl2: 0,
            },
            rcv: RecvSequenceSpace {
                irs: tcph.seq,
                nxt: tcph.seq.wrapping_add(1),
                wnd: tcph.wnd,
                up: false,
            },
            tcp: TcpTemplate {
                src_port: tcph.dst_port,
                dst_port: tcph.src_port,
                seq: INITIAL_SEND_SEQ,
                ackn: 0,
                wnd: RECEIVE_WINDOW,
                syn: false,
                ack: true,
                fin: false,
                rst: false,
            },
            ip: IpTemplate { src: iph.dst, dst: iph.src, ttl: OUTBOUND_TTL },
        };
        let empty: &[u8] = &[];
        let syn_ack = build_frame(
            connection.ip.src,
            connection.ip.dst,
            connection.tcp.src_port,
            connection.tcp.dst_port,
            INITIAL_SEND_SEQ,
            tcph.seq.wrapping_add(1),
            RECEIVE_WINDOW,
            true,
            true,
            false,
            false,
            OUTBOUND_TTL,
            empty,
        );
        proof {
            assert(empty@ =~= Seq::<u8>::empty());
        }
        Some((connection, syn_ack))
    }

    /// Whether [`Self::on_packet`] would have to abort on this segment: a
    /// payload byte arriving with an in-range acknowledgment while
    /// synchronized, or a FIN reaching a state whose shutdown path is not
    /// implemented.
    pub fn packet_would_abort(&self, tcph: &TcpHeaderInfo, payload_len: u32) -> (b: bool)
        requires
            payload_len <= 1504,
        ensures
            b == spec_step(*self, *tcph, payload_len).aborts,
    {
        let mut len: u32 = payload_len;
        if tcph.fin {
            len = len + 1;
        }
        if tcph.syn {
            len = len + 1;
        }
        if !self.check(tcph.seq, len) {
            return false;
        }
        if !tcph.ack {
            return false;
        }
        // Replay the handshake-completion decision.
        let state1 = match self.state {
            State::SynRcvd => {
                if Self::is_between_wrapped(
                    self.send.una.wrapping_sub(1),
                    tcph.ackn,
                    self.send.nxt.wrapping_add(1),
                ) {
                    State::Estab
                } else {
                    State::SynRcvd
                }
            },
            _ => self.state,
        };
        let in_sync = match state1 {
            State::Estab | State::FinWait1 | State::FinWait2 => true,
            State::SynRcvd | State::TimeWait => false,
        };
        let ack_in_range = Self::is_between_wrapped(
            self.send.una,
            tcph.ackn,
            self.send.nxt.wrapping_add(1),
        );
        if in_sync && ack_in_range && payload_len != 0 {
            return true;
        }
        if !tcph.fin {
            return false;
        }
        // Replay the state the machine will hold when the FIN is examined.
        let una_now = if in_sync && ack_in_range {
            tcph.ackn
        } else {
            self.send.una
        };
        let state4 = if in_sync && ack_in_range && matches!(state1, State::Estab) {
            State::FinWait1
        } else {
            state1
        };
        let reaches_fin_wait2 = match state4 {
            State::FinWait1 => una_now == self.send.iss.wrapping_add(2),
            State::FinWait2 => true,
            _ => false,
        };
        !reaches_fin_wait2
    }

    /// Advance the machine by one inbound segment, already parsed, carrying
    /// `data` as payload; the result is the at most one frame to send back.
    /// The whole behaviour is [`spec_step`] applied to the prior state.
    pub fn on_packet(&mut self, tcph: &TcpHeaderInfo, data: &[u8]) -> (reply: Option<Vec<u8>>)
        requires
            data@.len() <= 1504,
            !spec_step(*old(self), *tcph, data@.len() as u32).aborts,
        ensures
            *final(self) == spec_step(*old(self), *tcph, data@.len() as u32).conn,
            (match (reply, spec_step(*old(self), *tcph, data@.len() as u32).reply) {
                (Some(f), Some(r)) => f@ == spec_reply_frame(*old(self), r),
                (None, None) => true,
                _ => false,
            }),
    {
        let seq = tcph.seq;
        let mut len: u32 = data.len() as u32;
        if tcph.fin {
            len = len + 1;
        }
        if tcph.syn {
            len = len + 1;
        }
        if !self.check(seq, len) {
            let empty: &[u8] = &[];
            let (frame, _n) = self.write(empty);
            proof {
                assert(empty@.take(0) =~= Seq::<u8>::empty());
            }
            return Some(frame);
        }
        self.rcv.nxt = seq.wrapping_add(len);

        if !tcph.ack {
            return None;
        }
        let ackn = tcph.ackn;

        if let State::SynRcvd = self.state {
            if Self::is_between_wrapped(
                self.send.una.wrapping_sub(1),
                ackn,
                self.send.nxt.wrapping_add(1),
            ) {
                // The peer acknowledged at least one byte, and only our SYN
                // was ever sent: the handshake is complete.
                self.state = State::Estab;
            }
        }

        let mut reply: Option<Vec<u8>> = None;

        let in_sync = match self.state {
            State::Estab | State::FinWait1 | State::FinWait2 => true,
            State::SynRcvd | State::TimeWait => false,
        };
        // An acknowledgment outside (una, nxt] carries no news: skip the
        // bookkeeping but still examine the segment's FIN below.
        if in_sync && Self::is_between_wrapped(self.send.una, ackn, self.send.nxt.wrapping_add(1))
        {
            self.send.una = ackn;
            // data is empty here: the precondition fences out payload while
            // synchronized, since no receive buffer exists.
            if let State::Estab = self.state {
                // Nobody will ever send on this flow: close it at once.
                self.tcp.fin = true;
                let empty: &[u8] = &[];
                let (frame, _n) = self.write(empty);
                proof {
                    assert(empty@.take(0) =~= Seq::<u8>::empty());
                }
                reply = Some(frame);
                self.state = State::FinWait1;
            }
        }

        if let State::FinWait1 = self.state {
            if self.send.una == self.send.iss.wrapping_add(2) {
                // Our FIN has been acknowledged.
                self.state = State::FinWait2;
            }
        }

        if tcph.fin {
            match self.state {
                State::FinWait2 => {
                    // The peer is done as well: acknowledge its FIN.
                    let empty: &[u8] = &[];
                    let (frame, _n) = self.write(empty);
                    proof {
                        assert(empty@.take(0) =~= Seq::<u8>::empty());
                    }
                    reply = Some(frame);
                    self.state = State::TimeWait;
                },
                _ => {
                    // Fenced out by the precondition.
                    assert(false);
                },
            }
        }

        reply
    }

    /// Arm the reset flag and emit one empty segment. The sequence fields
    /// the emission carries are the current cursors — aligning them with
    /// the inbound segment as RFC 793 asks is not implemented — and the
    /// armed flag stays set on the template afterwards.
    pub fn send_rst(&mut self) -> (frame: Vec<u8>)
        ensures
            *final(self) == spec_after_write(
                (Connection { tcp: (TcpTemplate { rst: true, ..old(self).tcp }), ..*old(self) }),
                0,
            ),
            frame@ == spec_reply_frame(
                (Connection { tcp: (TcpTemplate { rst: true, ..old(self).tcp }), ..*old(self) }),
                (ReplySpec {
                    seq: old(self).send.nxt,
                    ackn: old(self).rcv.nxt,
                    syn: old(self).tcp.syn,
                    fin: old(self).tcp.fin,
                }),
            ),
    {
        self.tcp.rst = true;
        self.tcp.seq = 0;
        self.tcp.ackn = 0;
        let empty: &[u8] = &[];
        let (frame, _n) = self.write(empty);
        proof {
            assert(empty@.take(0) =~= Seq::<u8>::empty());
        }
        frame
    }
}

/// A connection at rest. Between steps the one-shot SYN and FIN template
/// flags are clear — an emission consumes them — and the send space obeys
/// the modular invariant of RFC 793: `una <= nxt <= una + 2^31` on the
/// sequence ring.
pub open spec fn connection_wf(c: Connection) -> bool {
    &&& !c.tcp.syn
    &&& !c.tcp.fin
    &&& ring_dist(c.send.una, c.send.nxt) <= 0x8000_0000
}

/// A freshly accepted connection is well formed: its one sent sequence
/// number is the SYN.
pub proof fn lemma_accept_connection_wf(iph: IpHeaderInfo, tcph: TcpHeaderInfo)
    ensures
        connection_wf(spec_accept_connection(iph, tcph)),
{
}

/// One step of the machine keeps a well-formed connection well formed:
/// `una` only advances to an acknowledgment inside `(una, nxt]`, and `nxt`
/// only advances past the FIN the step itself emits.
pub proof fn lemma_step_preserves_wf(c: Connection, seg: TcpHeaderInfo, payload_len: u32)
    requires
        connection_wf(c),
        !spec_step(c, seg, payload_len).aborts,
    ensures
        connection_wf(spec_step(c, seg, payload_len).conn),
{
}

} // verus!
