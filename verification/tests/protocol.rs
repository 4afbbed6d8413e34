use loqui_connection::frames::{
    ErrorFrame, GoAway, Hello, HelloAck, LoquiFrame, Ping, Pong, Push, Request, Response,
    OPCODE_ERROR, OPCODE_GO_AWAY, OPCODE_HELLO, OPCODE_HELLO_ACK, OPCODE_PING, OPCODE_PONG,
    OPCODE_PUSH, OPCODE_REQUEST, OPCODE_RESPONSE,
};
use loqui_connection::id_sequence::IdSequence;

#[test]
fn each_frame_kind_has_its_own_opcode() {
    let cases: Vec<(LoquiFrame, u8)> = vec![
        (
            LoquiFrame::Hello(Hello {
                flags: 0,
                payload: Vec::new(),
            }),
            OPCODE_HELLO,
        ),
        (
            LoquiFrame::HelloAck(HelloAck {
                flags: 0,
                payload: Vec::new(),
            }),
            OPCODE_HELLO_ACK,
        ),
        (
            LoquiFrame::Ping(Ping {
                flags: 0,
                sequence_id: 1,
            }),
            OPCODE_PING,
        ),
        (
            LoquiFrame::Pong(Pong {
                flags: 0,
                sequence_id: 1,
            }),
            OPCODE_PONG,
        ),
        (
            LoquiFrame::Request(Request {
                flags: 0,
                sequence_id: 1,
                payload: Vec::new(),
            }),
            OPCODE_REQUEST,
        ),
        (
            LoquiFrame::Response(Response {
                flags: 0,
                sequence_id: 1,
                payload: Vec::new(),
            }),
            OPCODE_RESPONSE,
        ),
        (
            LoquiFrame::Push(Push {
                flags: 0,
                payload: Vec::new(),
            }),
            OPCODE_PUSH,
        ),
        (
            LoquiFrame::GoAway(GoAway {
                flags: 0,
                payload: Vec::new(),
            }),
            OPCODE_GO_AWAY,
        ),
        (
            LoquiFrame::Error(ErrorFrame {
                flags: 0,
                sequence_id: 1,
                code: 0,
                payload: Vec::new(),
            }),
            OPCODE_ERROR,
        ),
    ];
    let mut seen: Vec<u8> = Vec::new();
    for (frame, opcode) in cases {
        assert_eq!(frame.opcode(), opcode);
        assert!(!seen.contains(&opcode));
        seen.push(opcode);
    }
}

#[test]
fn id_sequence_counts_up_from_one() {
    let mut sequence = IdSequence::new();
    assert_eq!(sequence.next(), 1);
    assert_eq!(sequence.next(), 2);
    assert_eq!(sequence.next(), 3);
}

#[test]
fn default_id_sequence_starts_like_a_new_one() {
    let mut sequence = IdSequence::default();
    assert_eq!(sequence.next(), 1);
}
