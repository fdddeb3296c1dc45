use bsh_generic::engine::BshGeneric;
use bsh_generic::types::{Asset, BshError};

#[test]
fn check_has_pending_request() {
    let bsh = BshGeneric::default();
    assert_eq!(bsh.has_pending_requests().unwrap(), false);
}

#[test]
fn check_send_service_message() {
    let mut bsh = BshGeneric::default();

    let from = "btp://0x1.near/cx77ed9048b594b95199f326fc76e76a9d33dd665b";
    let to = "btp://0x1.near/cx67ed9048b594b95199f326fc76e76a9d33dd665b";
    let coin_names = vec!["btc".to_string(), "ether".to_string(), "usdt".to_string()];
    let values = vec![100, 200, 300];
    let fees = vec![1, 2, 3];

    assert!(bsh.send_service_message(from, to, coin_names, values, fees).is_ok());
}

#[test]
fn check_handle_btp_message() {
    let mut bsh = BshGeneric::default();

    let from = "btp://0x1.near/cx77ed9048b594b95199f326fc76e76a9d33dd665b";
    let svc = "";
    let sn = 1;
    let msg = vec![b'1', b'2', b'3'];

    // Three raw bytes are no well-formed envelope: the engine
    // reports the malformed message instead of aborting.
    assert_eq!(bsh.handle_btp_message(from, svc, sn, &msg), Err(BshError::MalformedMessage));
}

#[test]
fn check_handle_btp_error() {
    let mut bsh = BshGeneric::default();

    let src = "btp://0x1.near/cx77ed9048b594b95199f326fc76e76a9d33dd665b";
    let svc = "";
    let sn = 1;
    let code = 1;
    let msg = "test-msg";

    // Nothing is pending under this sequence number, so the error
    // cannot be correlated; it is reported, never dropped.
    assert_eq!(bsh.handle_btp_error(src, svc, sn, code, msg), Err(BshError::UnknownSequence));
}

#[test]
fn check_handle_response_service() {
    let mut bsh = BshGeneric::default();

    let sn = 1;
    let code = 1;
    let msg = "test-msg";

    // An empty ledger holds no entry to resolve.
    assert_eq!(bsh.handle_response_service(sn, code, msg), Err(BshError::UnknownSequence));
}

#[test]
fn check_handle_request_service() {
    let mut bsh = BshGeneric::default();

    let btc = Asset { coin_name: "btc".to_string(), value: 100 };
    let ether = Asset { coin_name: "ether".to_string(), value: 200 };
    let usdt = Asset { coin_name: "usdt".to_string(), value: 300 };
    let assets = vec![btc, ether, usdt];
    let to = "btp://0x1.near/cx67ed9048b594b95199f326fc76e76a9d33dd665b";

    assert!(bsh.handle_request_service(to, assets).is_ok());
}

#[test]
fn check_handle_fee_gathering() {
    let mut bsh = BshGeneric::default();

    let fa = "btp://0x1.near/cx77ed9048b594b95199f326fc76e76a9d33dd665b";
    let svc = "";

    // The arguments arrive swapped, so the declared service name is
    // the aggregator address and cannot match the configured name.
    assert_eq!(bsh.handle_fee_gathering(svc, fa), Err(BshError::InvalidService));
}
