//! What handlers answer with, and how results are shown.

use easy_rpc::packet;
use easy_rpc::reply::Ret;
use easy_rpc::result::{RequestResult, Summary};
use easy_rpc::session::{Handled, Session};

/// What becomes of a request that is answered with `frame`, which has the id 1.
fn delivered(frame: Vec<u8>) -> RequestResult {
    let mut session: Session<()> = Session::new();
    session.request(1u32, &[], ());
    match session.try_handle_packet(frame) {
        Ok(Handled::Deliver { result, .. }) => result,
        _ => panic!("not delivered"),
    }
}

#[test]
fn a_request_can_be_answered_once() {
    let mut req_id = Some(9);
    assert!(Ret { req_id: &mut req_id }.is_valid());
    assert_eq!(Ret { req_id: &mut req_id }.ret_raw(&[1]), Some(packet::response(9, &[1])));
    assert_eq!(req_id, None);
    assert!(!Ret { req_id: &mut req_id }.is_valid());
    assert_eq!(Ret { req_id: &mut req_id }.ret_raw(&[1]), None);
    assert_eq!(Ret { req_id: &mut req_id }.error("e"), None);
    assert!(Ret { req_id: &mut req_id }.into_async().is_none());
}

#[test]
fn a_request_can_be_answered_with_an_error() {
    let mut req_id = Some(9);
    assert_eq!(Ret { req_id: &mut req_id }.error("e"), Some(packet::response_error(9, "e")));
    assert_eq!(req_id, None);
}

#[test]
fn a_request_can_be_answered_with_a_result() {
    let mut req_id = Some(9);
    let data = delivered(packet::response(1, &[4, 5]));
    assert_eq!(
        Ret { req_id: &mut req_id }.call_once(data),
        Some(packet::response(9, &[4, 5]))
    );
    assert_eq!(req_id, None);

    let mut req_id = Some(8);
    let error = delivered(packet::response_error(1, "bad"));
    assert_eq!(
        Ret { req_id: &mut req_id }.call_once(error),
        Some(packet::response_error(8, "bad"))
    );
    assert_eq!(req_id, None);

    // A lost connection is no answer.
    let mut req_id = Some(7);
    assert_eq!(Ret { req_id: &mut req_id }.call_once(RequestResult::Disconnect), None);
    assert_eq!(req_id, Some(7));
}

#[test]
fn a_request_can_be_answered_later() {
    let mut req_id = Some(9);
    let later = Ret { req_id: &mut req_id }.into_async().unwrap();
    assert_eq!(later.ret_raw(&[1]), packet::response(9, &[1]));
    // The request stays open for the handler itself.
    assert_eq!(req_id, Some(9));
    let later = Ret { req_id: &mut req_id }.into_async().unwrap();
    assert_eq!(later.error("e"), packet::response_error(9, "e"));
    let later = Ret { req_id: &mut req_id }.into_async().unwrap();
    assert_eq!(
        later.call_once(delivered(packet::response(1, &[3]))),
        Some(packet::response(9, &[3]))
    );
    let later = Ret { req_id: &mut req_id }.into_async().unwrap();
    assert_eq!(
        later.call_once(delivered(packet::response_error(1, "bad"))),
        Some(packet::response_error(9, "bad"))
    );
    let later = Ret { req_id: &mut req_id }.into_async().unwrap();
    assert_eq!(later.call_once(RequestResult::Disconnect), None);
}

#[test]
fn how_results_are_shown() {
    assert_eq!(delivered(packet::response(1, &[3])).to_string(), "<Success>");
    assert_eq!(delivered(packet::response_error(1, "bad")).to_string(), "Error: bad");
    assert_eq!(delivered(packet::response_error(1, "")).to_string(), "Error: ");
    assert_eq!(RequestResult::Disconnect.to_string(), "Disconnect");
    assert_eq!(Summary::Error("bad").to_string(), "Error: bad");
    assert!(matches!(delivered(packet::response(1, &[3])).summary(), Summary::Success));
    match delivered(packet::response(1, &[3])).into(None::<u8>) {
        Err(e) => assert_eq!(e.to_string(), "DecodeError"),
        Ok(_) => panic!("nothing was decoded"),
    }
}

#[test]
fn results_become_values() {
    assert!(matches!(delivered(packet::response(1, &[3])).into(Some(3u8)), Ok(3)));
    assert!(matches!(
        RequestResult::Disconnect.into(None::<u8>),
        Err(RequestResult::Disconnect)
    ));
    assert!(RequestResult::Disconnect.data().is_none());
    assert_eq!(delivered(packet::response(1, &[3])).data(), Some(&[3u8][..]));
    assert_eq!(delivered(packet::response(1, &[3])).intos(Some(3u8)), Ok(3));
    assert_eq!(
        delivered(packet::response(1, &[3])).intos(None::<u8>),
        Err("DecodeError".to_string())
    );
    assert_eq!(
        delivered(packet::response_error(1, "bad")).intos(None::<u8>),
        Err("Error: bad".to_string())
    );
    assert_eq!(RequestResult::Disconnect.intos(None::<u8>), Err("Disconnect".to_string()));
}

#[test]
fn results_may_be_empty() {
    match delivered(packet::response(1, &[])) {
        RequestResult::Data(d) => assert_eq!(d.as_slice(), &[] as &[u8]),
        _ => panic!("not a result"),
    }
}
