//! The bytes of packets, and what is read out of bytes.

use easy_rpc::method::{HandleError, Method, ToMethod};
use easy_rpc::packet::{self, Packet, PacketError};
use easy_rpc::session::{Handled, Session, WaitAction};
use easy_rpc::wire::Value;

fn sent(action: WaitAction) -> Vec<u8> {
    match action {
        WaitAction::Send(pack) => pack,
        _ => panic!("a request is sent first"),
    }
}

fn error_of(pack: &[u8]) -> PacketError {
    match packet::parse_packet(pack) {
        Ok(_) => panic!("the packet was read"),
        Err(e) => e,
    }
}

/// The call that a packet leads to: the integer or the string of its method, and its arguments.
fn call_of(pack: Vec<u8>) -> (Option<u32>, Option<String>, Option<u32>, Vec<u8>) {
    let mut session: Session<()> = Session::new();
    match session.try_handle_packet(pack) {
        Ok(Handled::Call(call)) => {
            let arg = call.arg();
            let int = arg.method.to_int().ok();
            let text = arg.method.to_str().ok().map(|s| s.to_string());
            (int, text, call.req_id(), arg.bytes.to_vec())
        }
        _ => panic!("not a call"),
    }
}

#[test]
fn request_with_integer_method() {
    let mut session: Session<()> = Session::new();
    let pack = sent(session.request(5u32, &[0x2a], ()));
    assert_eq!(
        pack,
        vec![0x94, 0xce, 0, 0, 0, 0, 0xce, 0, 0, 0, 1, 0xce, 0, 0, 0, 5, 0x2a]
    );
}

#[test]
fn request_with_string_method() {
    let mut session: Session<()> = Session::new();
    let pack = sent(session.request("add", &[0x92, 1, 2], ()));
    assert_eq!(
        pack,
        vec![0x94, 0xce, 0, 0, 0, 0, 0xce, 0, 0, 0, 1, 0xa3, b'a', b'd', b'd', 0x92, 1, 2]
    );
}

#[test]
fn request_transfer_is_a_request() {
    let mut a: Session<()> = Session::new();
    let mut b: Session<()> = Session::new();
    assert_eq!(
        sent(a.request_transfer("add", &[0x92, 1, 2], ())),
        sent(b.request("add", &[0x92, 1, 2], ()))
    );
}

#[test]
fn notification() {
    let session: Session<()> = Session::new();
    let pack = session.notify("print", &[0xc0]);
    assert_eq!(
        pack,
        vec![0x93, 0xce, 0, 0, 0, 2, 0xa5, b'p', b'r', b'i', b'n', b't', 0xc0]
    );
    assert_eq!(pack, session.notify_transfer("print", &[0xc0]));
}

#[test]
fn response_with_result() {
    assert_eq!(
        packet::response(0x01020304, &[0x07]),
        vec![0x94, 0xce, 0, 0, 0, 1, 0xce, 1, 2, 3, 4, 0xc0, 0x07]
    );
}

#[test]
fn response_with_error() {
    assert_eq!(
        packet::response_error(2, "no"),
        vec![0x94, 0xce, 0, 0, 0, 1, 0xce, 0, 0, 0, 2, 0xa2, b'n', b'o', 0xc0]
    );
}

#[test]
fn response_transfer_leaves_the_error_to_the_bytes() {
    let session: Session<()> = Session::new();
    assert_eq!(session.response_transfer(2, &[0xc0, 9]), packet::response(2, &[9]));
    assert_eq!(
        session.response_transfer(2, &[0xa2, b'n', b'o', 0xc0]),
        packet::response_error(2, "no")
    );
}

#[test]
fn ids_start_at_one_and_count_up() {
    let mut session: Session<()> = Session::new();
    for id in 1u32..100 {
        assert_eq!(session.next_id(), id);
    }
    let (pack, id) = session.prepare_request(Method::Int(7));
    assert_eq!(id, 100);
    assert_eq!(pack[7..11], [0, 0, 0, 100]);
}

#[test]
fn strings_of_every_header_width_come_back() {
    let session: Session<()> = Session::new();
    for (len, marker) in [
        (0usize, 0xa0u8),
        (31, 0xbf),
        (32, 0xd9),
        (255, 0xd9),
        (256, 0xda),
        (65535, 0xda),
        (65536, 0xdb),
    ] {
        let name = "m".repeat(len);
        let pack = session.notify(name.as_str(), &[1, 2, 3]);
        assert_eq!(pack[6], marker);
        assert_eq!(call_of(pack), (None, Some(name), None, vec![1, 2, 3]));
    }
}

#[test]
fn strings_need_not_be_ascii() {
    let session: Session<()> = Session::new();
    let pack = session.notify("通信", &[]);
    assert_eq!(pack[6], 0xa6);
    assert_eq!(call_of(pack), (None, Some("通信".to_string()), None, vec![]));
}

#[test]
fn requests_come_back() {
    let mut session: Session<()> = Session::new();
    let pack = sent(session.request(0xffff_ffffu32, &[9, 9], ()));
    assert_eq!(call_of(pack), (Some(0xffff_ffff), None, Some(1), vec![9, 9]));
}

#[test]
fn integers_of_every_width_are_read() {
    // The type, the id and the method as other writers put them.
    assert_eq!(call_of(vec![0x94, 0, 7, 5, 1]), (Some(5), None, Some(7), vec![1]));
    assert_eq!(
        call_of(vec![0x94, 0xcc, 0, 0xcd, 1, 2, 0xd1, 0x7f, 0xff]),
        (Some(0x7fff), None, Some(0x102), vec![])
    );
    assert_eq!(
        call_of(vec![0x94, 0xd0, 0, 0xd3, 0, 0, 0, 0, 0, 0, 0, 9, 0xd2, 0, 0, 0, 3]),
        (Some(3), None, Some(9), vec![])
    );
    assert_eq!(
        call_of(vec![0xdc, 0, 4, 0, 0xcf, 0, 0, 0, 0, 0xff, 0xff, 0xff, 0xff, 0xcd, 0, 1]),
        (Some(1), None, Some(0xffff_ffff), vec![])
    );
    assert_eq!(call_of(vec![0xdd, 0, 0, 0, 3, 2, 5]), (Some(5), None, None, vec![]));
}

#[test]
fn a_wide_method_keeps_its_low_bits() {
    assert_eq!(
        call_of(vec![0x93, 2, 0xcf, 0, 0, 0, 1, 0, 0, 0, 5, 0x0a]),
        (Some(5), None, None, vec![0x0a])
    );
    let value = Value::Integer(Some(0x1_0000_0007));
    assert!(packet::parse_method(&value) == Some(Method::Int(7)));
}

#[test]
fn values_that_are_no_method() {
    assert!(packet::parse_method(&Value::Nil).is_none());
    assert!(packet::parse_method(&Value::Other).is_none());
    assert!(packet::parse_method(&Value::Integer(None)).is_none());
    assert!(packet::parse_method(&Value::Str(None)).is_none());
    assert!(packet::parse_method(&Value::Str(Some("x".to_string()))) == Some(Method::Str("x")));
}

#[test]
fn header_errors() {
    assert_eq!(error_of(&[]), PacketError::Header);
    assert_eq!(error_of(&[0x84, 0]), PacketError::Header);
    assert_eq!(error_of(&[0xdc, 0]), PacketError::Header);
    assert_eq!(error_of(&[0xdd, 0, 0, 0]), PacketError::Header);
}

#[test]
fn pack_type_errors() {
    assert_eq!(error_of(&[0x94]), PacketError::PackType);
    assert_eq!(error_of(&[0x94, 0xff]), PacketError::PackType);
    assert_eq!(error_of(&[0x94, 0xa0]), PacketError::PackType);
    assert_eq!(error_of(&[0x94, 0xce, 0, 0]), PacketError::PackType);
    assert_eq!(error_of(&[0x94, 0xcf, 0, 0, 0, 1, 0, 0, 0, 0]), PacketError::PackType);
    assert_eq!(error_of(&[0x94, 3]), PacketError::InvalidPackType);
    assert_eq!(error_of(&[0x90, 3]), PacketError::InvalidPackType);
}

#[test]
fn length_errors() {
    assert_eq!(error_of(&[0x93, 0, 1, 1]), PacketError::Length);
    assert_eq!(error_of(&[0x93, 1, 1, 0xc0]), PacketError::Length);
    assert_eq!(error_of(&[0x94, 2, 1]), PacketError::Length);
}

#[test]
fn request_id_errors() {
    assert_eq!(error_of(&[0x94, 0]), PacketError::RequestId);
    assert_eq!(error_of(&[0x94, 0, 0xe0, 1]), PacketError::RequestId);
    assert_eq!(error_of(&[0x94, 1, 0xc0, 0xc0]), PacketError::RequestId);
}

#[test]
fn method_errors() {
    // Missing, negative, nil, a boolean, an array, a map, a string that is cut off or not UTF-8.
    assert_eq!(error_of(&[0x94, 0, 1]), PacketError::Method);
    assert_eq!(error_of(&[0x94, 0, 1, 0xff]), PacketError::Method);
    assert_eq!(error_of(&[0x94, 0, 1, 0xd1, 0x80, 0]), PacketError::Method);
    assert_eq!(error_of(&[0x94, 0, 1, 0xc0]), PacketError::Method);
    assert_eq!(error_of(&[0x94, 0, 1, 0xc3]), PacketError::Method);
    assert_eq!(error_of(&[0x93, 2, 0x91, 1]), PacketError::Method);
    assert_eq!(error_of(&[0x93, 2, 0x80]), PacketError::Method);
    assert_eq!(error_of(&[0x93, 2, 0xa3, b'a', b'd']), PacketError::Method);
    assert_eq!(error_of(&[0x93, 2, 0xa1, 0xff]), PacketError::Method);
}

#[test]
fn error_errors() {
    // Missing, an integer, a float, a binary, a string that is not UTF-8.
    assert_eq!(error_of(&[0x94, 1, 1]), PacketError::Error);
    assert_eq!(error_of(&[0x94, 1, 1, 5]), PacketError::Error);
    assert_eq!(error_of(&[0x94, 1, 1, 0xca, 0, 0, 0, 0]), PacketError::Error);
    assert_eq!(error_of(&[0x94, 1, 1, 0xc4, 1, 7]), PacketError::Error);
    assert_eq!(error_of(&[0x94, 1, 1, 0xa1, 0x80]), PacketError::Error);
}

#[test]
fn the_unused_marker_reads_as_nil() {
    match packet::parse_packet(&[0x94, 1, 1, 0xc1, 6]) {
        Ok(Packet::Response { id, error, offset }) => {
            assert_eq!(id, 1);
            assert!(error.is_none());
            assert_eq!(offset, 4);
        }
        _ => panic!("not a response"),
    }
}

#[test]
fn methods_compare_with_integers_and_strings() {
    assert!(Method::Int(3) == 3u32);
    assert!(Method::Int(3) != 4u32);
    assert!(Method::Str("3") != 3u32);
    assert!(Method::Str("add") == *"add");
    assert!(Method::Str("add") != *"adD");
    assert!(Method::Str("add") != *"addd");
    assert!(Method::Int(3) != *"3");
    assert!(Method::Int(3) == Method::Int(3));
    assert!(Method::Str("a") != Method::Int(0));
}

#[test]
fn methods_of_the_other_kind() {
    assert!(matches!(Method::Int(3).to_int(), Ok(3)));
    assert!(matches!(Method::Str("x").to_str(), Ok("x")));
    match Method::Int(3).to_str() {
        Err(e) => assert_eq!(e.text(), "Method not match"),
        Ok(_) => panic!("an integer is no string"),
    }
    match Method::Str("x").to_int() {
        Err(e) => assert_eq!(e.text(), "Method not match"),
        Ok(_) => panic!("a string is no integer"),
    }
}

#[test]
fn what_stands_for_a_method() {
    assert!(3u32.to_method() == Method::Int(3));
    assert!("x".to_method() == Method::Str("x"));
    assert!(Method::Str("y").to_method() == Method::Str("y"));
    let mut out = vec![1u8];
    Method::Str("x").serialize(&mut out);
    Method::Int(2).serialize(&mut out);
    assert_eq!(out, vec![1, 0xa1, b'x', 0xce, 0, 0, 0, 2]);
}

#[test]
fn handle_errors_are_debug_text() {
    assert_eq!(HandleError::new("as it is".to_string()).text(), "as it is");
    assert_eq!(HandleError::from("Unhandled Method").text(), "\"Unhandled Method\"");
    assert_eq!(HandleError::from(Some(1)).text(), "Some(\n    1,\n)");
}
