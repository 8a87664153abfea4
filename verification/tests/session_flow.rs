// The session layer: handshake bytes, ordering over whole wire streams, the
// reader path's stop-on-error policy, and the end-to-end scenario.

use ibapi::error::Error;
use ibapi::frame::encode_frame;
use ibapi::message::encode_hello;
use ibapi::message::encode_message;
use ibapi::message::Hello;
use ibapi::message::Message;
use ibapi::request::Request;
use ibapi::session::client_greeting;
use ibapi::session::encode_request_queue;
use ibapi::session::frame_request;
use ibapi::session::read_stream;
use ibapi::session::Session;
use ibapi::session::SessionState;

fn frame_of(m: &Message) -> Vec<u8> {
    encode_frame(&encode_message(m))
}

#[test]
fn greeting_is_magic_then_framed_version_range() {
    let g = client_greeting();
    let mut expected = b"API\0".to_vec();
    expected.extend_from_slice(&9u32.to_be_bytes());
    expected.extend_from_slice(b"v100..151");
    assert_eq!(g, expected);
}

#[test]
fn start_api_frame_bytes_are_exact() {
    let req = Request::StartApi {
        client_id: 0,
        optional_capabilities: String::new(),
    };
    let framed = frame_request(&req).unwrap();
    let body = b"71\x002\x000\x00\x00".to_vec();
    assert_eq!(framed, encode_frame(&body));
}

#[test]
fn simple_requests_encode_exactly() {
    assert_eq!(
        frame_request(&Request::ReqPositions).unwrap(),
        encode_frame(&b"61\x001\x00".to_vec())
    );
    assert_eq!(
        frame_request(&Request::ReqOpenOrders).unwrap(),
        encode_frame(&b"5\x001\x00".to_vec())
    );
    assert_eq!(
        frame_request(&Request::ReqAllOpenOrders).unwrap(),
        encode_frame(&b"16\x001\x00".to_vec())
    );
    assert_eq!(
        frame_request(&Request::ReqAcctData {
            subscribe: true,
            acct_code: String::from("DU12345"),
        })
        .unwrap(),
        encode_frame(&b"6\x002\x001\x00DU12345\x00".to_vec())
    );
}

#[test]
fn outbound_requests_keep_submission_order() {
    // The bytes for the first request precede the second's, which precede
    // the third's, with nothing reordered or dropped.
    let r1 = Request::ReqPositions;
    let r2 = Request::ReqAcctData {
        subscribe: true,
        acct_code: String::from("A1"),
    };
    let r3 = Request::ReqOpenOrders;
    let wire = encode_request_queue(&vec![r1.clone(), r2.clone(), r3.clone()]).unwrap();
    let mut expected = frame_request(&r1).unwrap();
    expected.extend_from_slice(&frame_request(&r2).unwrap());
    expected.extend_from_slice(&frame_request(&r3).unwrap());
    assert_eq!(wire, expected);
}

#[test]
fn inbound_messages_keep_wire_order() {
    let m1 = Message::NextValidId { version: 1, order_id: 1 };
    let m2 = Message::AcctTime {
        version: 1,
        account_time: String::from("10:00"),
    };
    let m3 = Message::PositionDataEnd { version: 1 };
    let mut wire = frame_of(&m1);
    wire.extend_from_slice(&frame_of(&m2));
    wire.extend_from_slice(&frame_of(&m3));
    let (msgs, err) = read_stream(&wire);
    assert!(err.is_none());
    assert_eq!(msgs, vec![m1, m2, m3]);
}

#[test]
fn reader_survives_unknown_tags() {
    // An unrecognized tag becomes data and the reader keeps going; the
    // following frame is still delivered.
    let mut wire = encode_frame(&b"9999\x00future\x00stuff\x00".to_vec());
    wire.extend_from_slice(&frame_of(&Message::PositionDataEnd { version: 1 }));
    let (msgs, err) = read_stream(&wire);
    assert!(err.is_none());
    assert_eq!(
        msgs,
        vec![
            Message::UnknownMessage(String::from("9999")),
            Message::PositionDataEnd { version: 1 },
        ]
    );
}

#[test]
fn reader_stops_for_good_at_a_malformed_frame() {
    // A known tag with a malformed field is fatal: nothing after it is ever
    // delivered, not even a perfectly good frame.
    let m1 = Message::NextValidId { version: 1, order_id: 7 };
    let mut wire = frame_of(&m1);
    wire.extend_from_slice(&encode_frame(&b"9\x00bad\x00worse\x00".to_vec()));
    wire.extend_from_slice(&frame_of(&Message::PositionDataEnd { version: 1 }));
    let (msgs, err) = read_stream(&wire);
    assert_eq!(msgs, vec![m1]);
    assert!(matches!(err, Some(Error::Malformed { .. })));
}

#[test]
fn truncated_frame_stops_the_reader() {
    // A frame claiming 50 bytes with only 30 present: Truncated, and the
    // stream yields nothing further.
    let m1 = Message::PositionDataEnd { version: 1 };
    let mut wire = frame_of(&m1);
    wire.extend_from_slice(&50u32.to_be_bytes());
    wire.extend_from_slice(&[1u8; 30]);
    let (msgs, err) = read_stream(&wire);
    assert_eq!(msgs, vec![m1]);
    assert!(matches!(err, Some(Error::Truncated)));
}

#[test]
fn handshake_failure_closes_the_session() {
    let mut s = Session::new();
    let _greeting = s.on_connected();
    let bad_hello = b"notanumber\x00t\x00".to_vec();
    assert!(matches!(
        s.on_hello_frame(bad_hello, 0),
        Err(Error::Handshake { .. })
    ));
    assert_eq!(s.state, SessionState::Closed);
}

#[test]
fn end_to_end_scenario() {
    // Client connects and greets; the server answers with its hello; the
    // client sends start-of-API; the server later streams position records
    // and the end marker, on which a consumer loop terminates.
    let mut s = Session::new();
    let greeting = s.on_connected();
    assert!(greeting.starts_with(b"API\0"));
    assert_eq!(s.state, SessionState::Handshaking);

    let hello_body = encode_hello(&Hello {
        server_version: 154,
        server_connection_time: String::from("20240101 10:00:00 EST"),
    });
    let start_api = s.on_hello_frame(hello_body, 0).unwrap();
    assert_eq!(s.state, SessionState::Established);
    let server = s.server.clone().unwrap();
    assert_eq!(server.server_version, 154);
    assert_eq!(server.server_connection_time, "20240101 10:00:00 EST");
    assert_eq!(start_api, encode_frame(&b"71\x002\x000\x00\x00".to_vec()));

    // The server's stream: one position record, then the end marker.
    let position = Message::PositionData {
        version: 3,
        account: String::from("DU12345"),
        contract: Default::default(),
        position: String::from("100"),
        avg_cost: String::from("150.25"),
    };
    let end = Message::PositionDataEnd { version: 1 };
    let mut inbound = frame_of(&position);
    inbound.extend_from_slice(&frame_of(&end));

    let (msgs, err) = read_stream(&inbound);
    assert!(err.is_none());
    let mut seen_positions = 0;
    let mut terminated = false;
    for m in msgs {
        match m {
            Message::PositionData { .. } => seen_positions += 1,
            Message::PositionDataEnd { .. } => {
                terminated = true;
                break;
            }
            _ => {}
        }
    }
    assert_eq!(seen_positions, 1);
    assert!(terminated);
}
