use tcp_endpoint::is_little_endian;
use tcp_endpoint::stack::{FrameOutcome, Quad, TcpStack};
use tcp_endpoint::tcp::{Connection, IpTemplate, RecvSequenceSpace, SendSequenceSpace, State,
    TcpTemplate};
use tcp_endpoint::wire::TcpHeaderInfo;

const CLIENT_IP: [u8; 4] = [10, 0, 0, 2];
const SERVER_IP: [u8; 4] = [10, 0, 0, 1];
const CLIENT_IP_U32: u32 = 0x0A00_0002;
const SERVER_IP_U32: u32 = 0x0A00_0001;
const CLIENT_PORT: u16 = 54321;
const SERVER_PORT: u16 = 80;

fn build_segment(
    src_ip: [u8; 4],
    dst_ip: [u8; 4],
    src_port: u16,
    dst_port: u16,
    seq: u32,
    ackn: u32,
    wnd: u16,
    syn: bool,
    ack: bool,
    fin: bool,
    payload: &[u8],
) -> Vec<u8> {
    let mut tcp = etherparse::TcpHeader::new(src_port, dst_port, seq, wnd);
    tcp.acknowledgment_number = ackn;
    tcp.syn = syn;
    tcp.ack = ack;
    tcp.fin = fin;
    let ip = etherparse::Ipv4Header::new(
        (tcp.header_len() + payload.len()) as u16,
        64,
        etherparse::IpNumber::TCP,
        src_ip,
        dst_ip,
    )
    .unwrap();
    tcp.checksum = tcp.calc_checksum_ipv4(&ip, payload).unwrap();
    let mut out = Vec::new();
    ip.write(&mut out).unwrap();
    tcp.write(&mut out).unwrap();
    out.extend_from_slice(payload);
    out
}

struct ParsedReply {
    src: [u8; 4],
    dst: [u8; 4],
    src_port: u16,
    dst_port: u16,
    seq: u32,
    ackn: u32,
    wnd: u16,
    syn: bool,
    ack: bool,
    fin: bool,
    rst: bool,
    checksum_ok: bool,
}

fn parse_reply(frame: &[u8]) -> ParsedReply {
    let ip = etherparse::Ipv4HeaderSlice::from_slice(frame).unwrap();
    assert_eq!(ip.protocol(), etherparse::IpNumber::TCP);
    let tcp_bytes = &frame[ip.slice().len()..];
    let tcp = etherparse::TcpHeaderSlice::from_slice(tcp_bytes).unwrap();
    let payload = &frame[ip.slice().len() + tcp.slice().len()..];
    let expected = tcp
        .to_header()
        .calc_checksum_ipv4(&ip.to_header(), payload)
        .unwrap();
    ParsedReply {
        src: ip.source(),
        dst: ip.destination(),
        src_port: tcp.source_port(),
        dst_port: tcp.destination_port(),
        seq: tcp.sequence_number(),
        ackn: tcp.acknowledgment_number(),
        wnd: tcp.window_size(),
        syn: tcp.syn(),
        ack: tcp.ack(),
        fin: tcp.fin(),
        rst: tcp.rst(),
        checksum_ok: tcp.checksum() == expected,
    }
}

fn client_quad_key() -> u128 {
    Quad {
        src_ip: CLIENT_IP_U32,
        src_port: CLIENT_PORT,
        dst_ip: SERVER_IP_U32,
        dst_port: SERVER_PORT,
    }
    .key()
}

/// Runs the handshake's first step: one SYN into an empty stack.
fn stack_after_syn() -> (TcpStack, Vec<u8>) {
    let mut stack = TcpStack::new();
    let syn = build_segment(
        CLIENT_IP,
        SERVER_IP,
        CLIENT_PORT,
        SERVER_PORT,
        1000,
        0,
        65535,
        true,
        false,
        false,
        &[],
    );
    match stack.handle_frame(&syn) {
        FrameOutcome::Reply(frame) => (stack, frame),
        _ => panic!("a SYN to an empty stack must draw a reply"),
    }
}

/// Runs the full handshake: SYN, then the completing ACK.
fn stack_after_handshake() -> (TcpStack, Vec<u8>) {
    let (mut stack, _) = stack_after_syn();
    let ack = build_segment(
        CLIENT_IP,
        SERVER_IP,
        CLIENT_PORT,
        SERVER_PORT,
        1001,
        1,
        65535,
        false,
        true,
        false,
        &[],
    );
    match stack.handle_frame(&ack) {
        FrameOutcome::Reply(frame) => (stack, frame),
        _ => panic!("completing the handshake must draw the FIN"),
    }
}

/// Runs through to FinWait2: handshake, then the ACK of our FIN.
fn stack_after_fin_acked() -> TcpStack {
    let (mut stack, _) = stack_after_handshake();
    let ack = build_segment(
        CLIENT_IP,
        SERVER_IP,
        CLIENT_PORT,
        SERVER_PORT,
        1001,
        2,
        65535,
        false,
        true,
        false,
        &[],
    );
    match stack.handle_frame(&ack) {
        FrameOutcome::NoReply => stack,
        _ => panic!("the ACK of our FIN draws no reply"),
    }
}

#[test]
fn handshake_syn_draws_syn_ack() {
    let (_stack, frame) = stack_after_syn();
    assert_eq!(frame.len(), 40);
    let r = parse_reply(&frame);
    assert_eq!(r.src, SERVER_IP);
    assert_eq!(r.dst, CLIENT_IP);
    assert_eq!(r.src_port, SERVER_PORT);
    assert_eq!(r.dst_port, CLIENT_PORT);
    assert!(r.syn);
    assert!(r.ack);
    assert!(!r.fin);
    assert!(!r.rst);
    assert_eq!(r.seq, 0);
    assert_eq!(r.ackn, 1001);
    assert_eq!(r.wnd, 1024);
    assert!(r.checksum_ok);
}

#[test]
fn handshake_creates_syn_rcvd_entry() {
    let (stack, _frame) = stack_after_syn();
    assert_eq!(stack.connections.len(), 1);
    let conn = stack.connections.get(&client_quad_key()).unwrap();
    assert_eq!(conn.state, State::SynRcvd);
    assert_eq!(conn.send.iss, 0);
    assert_eq!(conn.send.una, 0);
    assert_eq!(conn.send.nxt, 1);
    assert_eq!(conn.send.wnd, 1024);
    assert_eq!(conn.rcv.irs, 1000);
    assert_eq!(conn.rcv.nxt, 1001);
    assert_eq!(conn.rcv.wnd, 65535);
}

#[test]
fn handshake_completion_emits_fin() {
    let (stack, frame) = stack_after_handshake();
    let r = parse_reply(&frame);
    assert!(r.fin);
    assert!(r.ack);
    assert!(!r.syn);
    assert_eq!(r.seq, 1);
    assert_eq!(r.ackn, 1001);
    assert!(r.checksum_ok);
    let conn = stack.connections.get(&client_quad_key()).unwrap();
    assert_eq!(conn.state, State::FinWait1);
    assert_eq!(conn.send.nxt, 2);
    assert_eq!(conn.send.una, 1);
}

#[test]
fn fin_acknowledgment_reaches_fin_wait2() {
    let stack = stack_after_fin_acked();
    let conn = stack.connections.get(&client_quad_key()).unwrap();
    assert_eq!(conn.state, State::FinWait2);
    assert_eq!(conn.send.una, 2);
}

#[test]
fn peer_fin_draws_final_ack() {
    let mut stack = stack_after_fin_acked();
    let fin = build_segment(
        CLIENT_IP,
        SERVER_IP,
        CLIENT_PORT,
        SERVER_PORT,
        1001,
        2,
        65535,
        false,
        true,
        true,
        &[],
    );
    let frame = match stack.handle_frame(&fin) {
        FrameOutcome::Reply(frame) => frame,
        _ => panic!("the peer's FIN must be acknowledged"),
    };
    let r = parse_reply(&frame);
    assert!(r.ack);
    assert!(!r.fin);
    assert!(!r.syn);
    assert_eq!(r.seq, 2);
    assert_eq!(r.ackn, 1002);
    assert!(r.checksum_ok);
    let conn = stack.connections.get(&client_quad_key()).unwrap();
    assert_eq!(conn.state, State::TimeWait);
}

fn established_connection() -> Connection {
    Connection {
        state: State::Estab,
        send: SendSequenceSpace { una: 0, nxt: 1, wnd: 1024, up: false, wl1: 0, wl2: 0, iss: 0 },
        rcv: RecvSequenceSpace { nxt: 1001, wnd: 1024, up: false, irs: 1000 },
        ip: IpTemplate { src: SERVER_IP_U32, dst: CLIENT_IP_U32, ttl: 64 },
        tcp: TcpTemplate {
            src_port: SERVER_PORT,
            dst_port: CLIENT_PORT,
            seq: 0,
            ackn: 0,
            wnd: 1024,
            syn: false,
            ack: true,
            fin: false,
            rst: false,
        },
    }
}

fn segment_info(seq: u32, ackn: u32, syn: bool, ack: bool, fin: bool) -> TcpHeaderInfo {
    TcpHeaderInfo {
        src_port: CLIENT_PORT,
        dst_port: SERVER_PORT,
        seq,
        ackn,
        wnd: 65535,
        syn,
        ack,
        fin,
        rst: false,
        header_len: 20,
    }
}

#[test]
fn unacceptable_segment_draws_bare_ack() {
    let mut conn = established_connection();
    // Far outside the window: rcv.nxt + rcv.wnd + 100.
    let seg = segment_info(1001 + 1024 + 100, 1, false, true, false);
    assert!(!conn.packet_would_abort(&seg, 0));
    let reply = conn.on_packet(&seg, &[]);
    let frame = reply.expect("an unacceptable segment draws a bare acknowledgment");
    let r = parse_reply(&frame);
    assert!(r.ack);
    assert!(!r.fin);
    assert_eq!(r.seq, 1);
    assert_eq!(r.ackn, 1001);
    // The cursors did not move.
    assert_eq!(conn.rcv.nxt, 1001);
    assert_eq!(conn.state, State::Estab);
}

#[test]
fn non_syn_to_unknown_flow_is_dropped() {
    let mut stack = TcpStack::new();
    let stray = build_segment(
        CLIENT_IP,
        SERVER_IP,
        CLIENT_PORT,
        SERVER_PORT,
        400,
        7,
        512,
        false,
        true,
        false,
        &[],
    );
    match stack.handle_frame(&stray) {
        FrameOutcome::NoReply => {},
        _ => panic!("a stray segment to an unknown flow draws nothing"),
    }
    assert_eq!(stack.connections.len(), 0);
}

#[test]
fn payload_while_synchronized_is_fatal() {
    let (mut stack, _) = stack_after_syn();
    let data = build_segment(
        CLIENT_IP,
        SERVER_IP,
        CLIENT_PORT,
        SERVER_PORT,
        1001,
        1,
        65535,
        false,
        true,
        false,
        b"hello",
    );
    match stack.handle_frame(&data) {
        FrameOutcome::Fatal => {},
        _ => panic!("payload has nowhere to go: the endpoint must stop"),
    }
}

#[test]
fn malformed_frame_is_dropped() {
    let mut stack = TcpStack::new();
    let garbage = [0u8; 7];
    match stack.handle_frame(&garbage) {
        FrameOutcome::NoReply => {},
        _ => panic!("an unparseable frame draws nothing"),
    }
    assert_eq!(stack.connections.len(), 0);
}

#[test]
fn non_tcp_frame_is_dropped() {
    let mut stack = TcpStack::new();
    let ip = etherparse::Ipv4Header::new(4, 64, etherparse::IpNumber::UDP, CLIENT_IP, SERVER_IP)
        .unwrap();
    let mut frame = Vec::new();
    ip.write(&mut frame).unwrap();
    frame.extend_from_slice(&[1, 2, 3, 4]);
    match stack.handle_frame(&frame) {
        FrameOutcome::NoReply => {},
        _ => panic!("a non-TCP frame draws nothing"),
    }
    assert_eq!(stack.connections.len(), 0);
}

#[test]
fn send_rst_emits_reset() {
    let mut conn = established_connection();
    let frame = conn.send_rst();
    let r = parse_reply(&frame);
    assert!(r.rst);
    assert_eq!(r.seq, 1);
    assert_eq!(r.ackn, 1001);
}

#[test]
fn quad_keys_distinguish_flows() {
    let a = Quad { src_ip: 1, src_port: 2, dst_ip: 3, dst_port: 4 };
    let b = Quad { src_ip: 1, src_port: 2, dst_ip: 3, dst_port: 5 };
    let c = Quad { src_ip: 1, src_port: 3, dst_ip: 3, dst_port: 4 };
    assert_ne!(a.key(), b.key());
    assert_ne!(a.key(), c.key());
    assert_ne!(b.key(), c.key());
}

#[test]
fn synchronized_states() {
    assert!(!State::SynRcvd.is_synchronized());
    assert!(State::Estab.is_synchronized());
    assert!(State::FinWait1.is_synchronized());
    assert!(State::FinWait2.is_synchronized());
    assert!(State::TimeWait.is_synchronized());
}

#[test]
fn little_endian_probe_holds() {
    assert!(is_little_endian());
}

#[test]
fn write_carries_payload_and_advances_cursor() {
    let mut conn = established_connection();
    let payload = b"abcdef";
    let (frame, sent) = conn.write(payload);
    assert_eq!(sent, 6);
    assert_eq!(frame.len(), 46);
    let r = parse_reply(&frame);
    assert_eq!(r.seq, 1);
    assert_eq!(r.ackn, 1001);
    assert!(r.checksum_ok);
    assert_eq!(&frame[40..], payload);
    assert_eq!(conn.send.nxt, 7);
}

#[test]
fn fin_before_our_fin_is_acked_is_fatal() {
    let (mut stack, _) = stack_after_handshake();
    // The flow waits in FinWait1; a FIN here reaches an unimplemented
    // shutdown path.
    let fin = build_segment(
        CLIENT_IP,
        SERVER_IP,
        CLIENT_PORT,
        SERVER_PORT,
        1001,
        1,
        65535,
        false,
        true,
        true,
        &[],
    );
    match stack.handle_frame(&fin) {
        FrameOutcome::Fatal => {},
        _ => panic!("a FIN outside FinWait2 must stop the endpoint"),
    }
}
