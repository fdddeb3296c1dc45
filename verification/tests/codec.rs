use bsh_generic::address::{split_btp_address, validate_btp_address};
use bsh_generic::codec::{
    decode_response, decode_service_message, decode_transfer_coin, encode_response,
    encode_service_message, encode_transfer_coin,
};
use bsh_generic::engine::BshGeneric;
use bsh_generic::types::{Asset, BshError, Response, ServiceMessage, ServiceType, TransferCoin};

#[test]
fn response_round_trips() {
    let original = Response { code: 7, message: "almost, but not quite".to_string() };
    let bytes = encode_response(&original);
    let back = decode_response(&bytes).unwrap();
    assert_eq!(back.code, 7);
    assert_eq!(back.message, "almost, but not quite");
}

#[test]
fn response_with_non_ascii_message_round_trips() {
    let original = Response { code: 1, message: "ünïcode — ✓".to_string() };
    let bytes = encode_response(&original);
    let back = decode_response(&bytes).unwrap();
    assert_eq!(back.code, 1);
    assert_eq!(back.message, "ünïcode — ✓");
}

#[test]
fn transfer_coin_round_trips() {
    let original = TransferCoin {
        from: "btp://0x1.near/alice".to_string(),
        to: "btp://0x2.icon/bob".to_string(),
        assets: vec![
            Asset { coin_name: "btc".to_string(), value: 100 },
            Asset { coin_name: "ether".to_string(), value: u64::MAX },
        ],
    };
    let bytes = encode_transfer_coin(&original);
    let back = decode_transfer_coin(&bytes).unwrap();
    assert_eq!(back.from, original.from);
    assert_eq!(back.to, original.to);
    assert_eq!(back.assets.len(), 2);
    assert_eq!(back.assets[0].coin_name, "btc");
    assert_eq!(back.assets[0].value, 100);
    assert_eq!(back.assets[1].coin_name, "ether");
    assert_eq!(back.assets[1].value, u64::MAX);
}

#[test]
fn envelope_round_trips_each_kind() {
    for st in [
        ServiceType::RequestCoinRegister,
        ServiceType::ResponseHandleService,
        ServiceType::UnknownType,
    ] {
        let envelope = ServiceMessage { service_type: st, data: vec![9, 8, 7] };
        let bytes = encode_service_message(&envelope);
        let back = decode_service_message(&bytes).unwrap();
        assert_eq!(back.service_type, st);
        assert_eq!(back.data, vec![9, 8, 7]);
    }
}

#[test]
fn malformed_bytes_are_rejected() {
    assert!(decode_service_message(&[]).is_none());
    assert!(decode_service_message(&[9]).is_none());

    let envelope = ServiceMessage { service_type: ServiceType::UnknownType, data: vec![1, 2, 3] };
    let mut bytes = encode_service_message(&envelope);
    // Truncated input is rejected.
    bytes.pop();
    assert!(decode_service_message(&bytes).is_none());
    // Trailing garbage is rejected too.
    let mut bytes = encode_service_message(&envelope);
    bytes.push(0);
    assert!(decode_service_message(&bytes).is_none());

    let response = Response { code: 0, message: "m".to_string() };
    let mut bytes = encode_response(&response);
    bytes.pop();
    assert!(decode_response(&bytes).is_none());
}

#[test]
fn invalid_utf8_in_payload_is_rejected() {
    // code 0, then a one-byte string whose byte is no valid UTF-8.
    let mut bytes = vec![0, 0, 0, 0, 0, 0, 0, 0];
    bytes.extend_from_slice(&[1, 0, 0, 0, 0, 0, 0, 0]);
    bytes.push(0xFF);
    assert!(decode_response(&bytes).is_none());
}

#[test]
fn inbound_transfer_request_is_applied_and_acknowledged() {
    let mut bsh = BshGeneric::new("bmc.near", "core.near", "svc");
    let request = TransferCoin {
        from: "btp://0x2.icon/bob".to_string(),
        to: "btp://0x1.near/cx67ed9048b594b95199f326fc76e76a9d33dd665b".to_string(),
        assets: vec![Asset { coin_name: "btc".to_string(), value: 5 }],
    };
    let data = encode_transfer_coin(&request);
    let envelope = ServiceMessage { service_type: ServiceType::RequestCoinRegister, data };
    let msg = encode_service_message(&envelope);

    assert!(bsh.handle_btp_message("peer", "svc", 11, &msg).is_ok());
    assert_eq!(bsh.asset_core_actions.len(), 1);
    // No reply yet: it waits for the asset core's verdict.
    assert!(bsh.outbox.is_empty());

    bsh.handle_request_outcome(true, "peer", 11, "");
    assert_eq!(bsh.outbox.len(), 1);
    assert_eq!(bsh.outbox[0].to, "peer");
    assert_eq!(bsh.outbox[0].sn, 11);
    let sm = decode_service_message(&bsh.outbox[0].payload).unwrap();
    assert_eq!(sm.service_type, ServiceType::ResponseHandleService);
    let reply = decode_response(&sm.data).unwrap();
    assert_eq!(reply.code, 0);
    assert_eq!(reply.message, "");
}

#[test]
fn rejected_transfer_request_is_answered_with_the_diagnostic() {
    let mut bsh = BshGeneric::new("bmc.near", "core.near", "svc");
    bsh.handle_request_outcome(false, "peer", 12, "UnregisteredCoin");
    assert_eq!(bsh.outbox.len(), 1);
    let sm = decode_service_message(&bsh.outbox[0].payload).unwrap();
    assert_eq!(sm.service_type, ServiceType::ResponseHandleService);
    let reply = decode_response(&sm.data).unwrap();
    assert_eq!(reply.code, 1);
    assert_eq!(reply.message, "UnregisteredCoin");
}

#[test]
fn inbound_transfer_request_with_bad_destination_is_refused() {
    let mut bsh = BshGeneric::new("bmc.near", "core.near", "svc");
    let request = TransferCoin {
        from: "btp://0x2.icon/bob".to_string(),
        to: "nowhere".to_string(),
        assets: vec![Asset { coin_name: "btc".to_string(), value: 5 }],
    };
    let data = encode_transfer_coin(&request);
    let envelope = ServiceMessage { service_type: ServiceType::RequestCoinRegister, data };
    let msg = encode_service_message(&envelope);

    assert_eq!(bsh.handle_btp_message("peer", "svc", 11, &msg), Err(BshError::InvalidAddress));
    assert!(bsh.asset_core_actions.is_empty());
    assert_eq!(bsh.outbox.len(), 1);
    let sm = decode_service_message(&bsh.outbox[0].payload).unwrap();
    assert_eq!(sm.service_type, ServiceType::ResponseHandleService);
    let reply = decode_response(&sm.data).unwrap();
    assert_eq!(reply.code, 1);
    assert_eq!(reply.message, "InvalidAddress");
}

#[test]
fn address_validation_accepts_and_rejects() {
    assert!(validate_btp_address("btp://0x1.near/cx77ed9048b594b95199f326fc76e76a9d33dd665b"));
    assert!(validate_btp_address("btp://net/c"));
    assert!(!validate_btp_address(""));
    assert!(!validate_btp_address("btp://"));
    assert!(!validate_btp_address("http://net/contract"));
    assert!(!validate_btp_address("btp:///contract"));
    assert!(!validate_btp_address("btp://network/"));
    assert!(!validate_btp_address("btp://network"));
    assert!(!validate_btp_address("not-a-valid-address"));
}

#[test]
fn address_splits_into_network_and_contract() {
    let (network, contract) =
        split_btp_address("btp://0x1.near/cx77ed9048b594b95199f326fc76e76a9d33dd665b").unwrap();
    assert_eq!(network, "0x1.near");
    assert_eq!(contract, "cx77ed9048b594b95199f326fc76e76a9d33dd665b");
    // Only the first slash after the scheme separates the parts.
    let (network, contract) = split_btp_address("btp://net/a/b").unwrap();
    assert_eq!(network, "net");
    assert_eq!(contract, "a/b");
    assert!(split_btp_address("not-a-valid-address").is_none());
    assert!(split_btp_address("btp://only-network").is_none());
}
