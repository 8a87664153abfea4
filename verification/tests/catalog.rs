// Catalog types and the variable-shape pieces: algo parameter lists, counted
// tag/value lists, the kind-led conditional group, and the market-data
// request's full encoding.

use ibapi::contract::ComboLeg;
use ibapi::contract::Contract;
use ibapi::contract::DeltaNeutralContract;
use ibapi::contract::LegOpenClose;
use ibapi::contract::ShortSaleSlot;
use ibapi::de::Deserializer;
use ibapi::request::request_wf_check;
use ibapi::request::to_bytes;
use ibapi::request::Request;
use ibapi::session::frame_request;
use ibapi::types::read_kinded_tag_values;
use ibapi::types::read_tag_values;
use ibapi::types::Action;
use ibapi::types::AlgoParam;
use ibapi::types::AlgoStrategy;
use ibapi::types::Right;
use ibapi::types::TagValue;

/// Joins tokens into a field stream: each token's bytes, then a NUL.
fn toks(ts: &[&[u8]]) -> Vec<u8> {
    let mut v = Vec::new();
    for t in ts {
        v.extend_from_slice(t);
        v.push(0);
    }
    v
}

#[test]
fn algo_params_lists_are_exact() {
    assert_eq!(AlgoStrategy::Unset.params(), vec![]);
    assert_eq!(
        AlgoStrategy::Twap.params(),
        vec![
            AlgoParam::startTime,
            AlgoParam::endTime,
            AlgoParam::allowPastEndTime,
            AlgoParam::strategyType,
        ]
    );
    assert_eq!(AlgoStrategy::Vwap.params().len(), 7);
    assert_eq!(AlgoStrategy::AD.params().len(), 9);
}

#[test]
fn counted_tag_value_list_reads_back() {
    let mut d = Deserializer::new(b"2\x00k1\x00v1\x00k2\x00v2\x00".to_vec());
    let items = read_tag_values(&mut d).unwrap();
    assert_eq!(items.len(), 2);
    assert_eq!(items[0].tag, "k1");
    assert_eq!(items[0].value, "v1");
    assert_eq!(items[1].tag, "k2");
    assert_eq!(items[1].value, "v2");
}

#[test]
fn short_tag_value_list_is_an_error() {
    let mut d = Deserializer::new(b"2\x00k1\x00v1\x00".to_vec());
    assert!(read_tag_values(&mut d).is_err());
}

#[test]
fn empty_kind_skips_the_group() {
    // The conditional group: an empty kind token means nothing further is
    // read, so the next field is still in place.
    let mut d = Deserializer::new(b"\x00next\x00".to_vec());
    assert!(read_kinded_tag_values(&mut d).unwrap().is_none());
    assert_eq!(d.read_text().unwrap(), "next");
}

#[test]
fn nonempty_kind_reads_the_group() {
    let mut d = Deserializer::new(b"Vwap\x001\x00maxPctVol\x000.2\x00after\x00".to_vec());
    let (kind, items) = read_kinded_tag_values(&mut d).unwrap().unwrap();
    assert_eq!(kind, "Vwap");
    assert_eq!(items.len(), 1);
    assert_eq!(items[0].tag, "maxPctVol");
    assert_eq!(d.read_text().unwrap(), "after");
}

#[test]
fn combo_leg_default_has_negative_exempt_code() {
    let leg = ComboLeg::default();
    assert_eq!(leg.exempt_code, -1);
    assert_eq!(leg.con_id, 0);
    assert_eq!(leg.action, Action::Unset);
    assert_eq!(leg.open_close, LegOpenClose::Same);
}

#[test]
fn is_combo_follows_the_legs() {
    let mut c = Contract::default();
    assert!(!c.is_combo());
    c.combo_legs.push(ComboLeg::default());
    assert!(c.is_combo());
}

#[test]
fn req_mkt_data_encodes_contract_legs_and_flag() {
    let contract = Contract {
        conid: 383430121,
        symbol: String::from("ESTC"),
        sec_type: String::from("OPT"),
        last_trade_date_or_contract_month: String::from("20200717"),
        strike: String::from("60"),
        right: Right::Put,
        multiplier: String::from("100"),
        exchange: String::from("SMART"),
        primary_exch: String::new(),
        currency: String::from("USD"),
        local_symbol: String::from("ESTC  200717P00060000"),
        trading_class: String::from("ESTC"),
        ..Default::default()
    };
    let req = Request::ReqMktData {
        ticker_id: 1,
        contract,
        generic_tick_list: String::from("221"),
        snapshot: false,
        regulatory_snapshot: false,
        mkt_data_options: vec![],
    };
    assert!(request_wf_check(&req));
    let body = to_bytes(&req);
    let expected = toks(&[
        b"1",
        b"11",
        b"1",
        b"383430121",
        b"ESTC",
        b"OPT",
        b"20200717",
        b"60",
        b"P",
        b"100",
        b"SMART",
        b"",
        b"USD",
        b"ESTC  200717P00060000",
        b"ESTC",
        b"0",
        b"0",
        b"221",
        b"0",
        b"0",
        b"0",
    ]);
    assert_eq!(body, expected);
}

#[test]
fn req_mkt_data_flag_tracks_delta_neutral_presence() {
    let mut contract = Contract::default();
    contract.delta_neutral_contract = Some(DeltaNeutralContract {
        conid: 1,
        delta: String::from("0.5"),
        price: String::from("12.5"),
    });
    let with = to_bytes(&Request::ReqMktData {
        ticker_id: 1,
        contract,
        generic_tick_list: String::new(),
        snapshot: false,
        regulatory_snapshot: false,
        mkt_data_options: vec![],
    });
    let without = to_bytes(&Request::ReqMktData {
        ticker_id: 1,
        contract: Contract::default(),
        generic_tick_list: String::new(),
        snapshot: false,
        regulatory_snapshot: false,
        mkt_data_options: vec![],
    });
    // The two encodings differ only in the presence flag.
    let tail = toks(&[b"", b"0", b"0", b"0"]);
    let mut with_expected = toks(&[b"1"]);
    with_expected.extend_from_slice(&tail);
    let mut without_expected = toks(&[b"0"]);
    without_expected.extend_from_slice(&tail);
    assert!(with.ends_with(&with_expected));
    assert!(without.ends_with(&without_expected));
    assert_eq!(with.len(), without.len());
    assert_ne!(with, without);
}

#[test]
fn combo_legs_encode_with_count_and_fields() {
    let mut contract = Contract::default();
    contract.combo_legs.push(ComboLeg {
        con_id: 5,
        ratio: 2,
        action: Action::BUY,
        exchange: String::from("SMART"),
        open_close: LegOpenClose::Open,
        short_sale_slot: ShortSaleSlot::Unset,
        designated_location: String::new(),
        exempt_code: -1,
    });
    let body = to_bytes(&Request::ReqMktData {
        ticker_id: 9,
        contract,
        generic_tick_list: String::new(),
        snapshot: true,
        regulatory_snapshot: false,
        mkt_data_options: vec![TagValue {
            tag: String::from("k"),
            value: String::from("v"),
        }],
    });
    let expected = toks(&[
        b"1",
        b"11",
        b"9",
        b"0",
        b"",
        b"",
        b"",
        b"",
        b"",
        b"",
        b"",
        b"",
        b"",
        b"",
        b"",
        b"1",
        b"5",
        b"2",
        b"BUY",
        b"SMART",
        b"1",
        b"0",
        b"",
        b"-1",
        b"0",
        b"",
        b"1",
        b"0",
        b"1",
        b"k",
        b"v",
    ]);
    assert_eq!(body, expected);
}

#[test]
fn requests_with_nul_text_are_rejected_by_the_gate() {
    let req = Request::StartApi {
        client_id: 0,
        optional_capabilities: String::from("bad\0text"),
    };
    assert!(!request_wf_check(&req));
    assert!(request_wf_check(&Request::StartApi {
        client_id: 0,
        optional_capabilities: String::from("ok"),
    }));
}

#[test]
fn unset_request_encodes_as_its_name() {
    assert_eq!(to_bytes(&Request::Unset), b"None\x00".to_vec());
    assert!(frame_request(&Request::Unset).is_some());
}

#[test]
fn tag_value_list_round_trips() {
    let items = vec![
        TagValue {
            tag: String::from("alpha"),
            value: String::from("1"),
        },
        TagValue {
            tag: String::from("beta"),
            value: String::from("two"),
        },
    ];
    let mut s = ibapi::ser::Serializer::new();
    ibapi::request::write_tag_values(&mut s, &items);
    let mut d = Deserializer::new(s.into_bytes());
    assert_eq!(read_tag_values(&mut d).unwrap(), items);
}
