// Message dispatch and round trips: every supported variant encodes to a
// frame body that decodes back to the same value.

use ibapi::contract::Contract;
use ibapi::contract::PortfolioValueContract;
use ibapi::error::Error;
use ibapi::message::decode_message;
use ibapi::message::encode_message;
use ibapi::message::decode_hello;
use ibapi::message::encode_hello;
use ibapi::message::Hello;
use ibapi::message::Message;
use ibapi::types::Right;

fn round_trips(m: Message) {
    let body = encode_message(&m);
    assert_eq!(decode_message(body).unwrap(), m);
}

#[test]
fn hello_round_trips() {
    let h = Hello {
        server_version: 154,
        server_connection_time: String::from("20240101 10:00:00 EST"),
    };
    let body = encode_hello(&h);
    assert_eq!(body, b"154\x0020240101 10:00:00 EST\0".to_vec());
    assert_eq!(decode_hello(body).unwrap(), h);
}

#[test]
fn hello_with_trailing_bytes_is_rejected() {
    let mut body = encode_hello(&Hello {
        server_version: 154,
        server_connection_time: String::from("t"),
    });
    body.extend_from_slice(b"junk\0");
    assert!(decode_hello(body).is_err());
}

#[test]
fn err_msg_round_trips() {
    round_trips(Message::ErrMsg {
        version: 2,
        id: -1,
        error_code: 2104,
        error_msg: String::from("Market data farm connection is OK"),
    });
}

#[test]
fn acct_value_round_trips() {
    round_trips(Message::AcctValue {
        version: 2,
        key: String::from("NetLiquidation"),
        val: String::from("125000.50"),
        cur: String::from("USD"),
        account_name: String::from("DU12345"),
    });
}

#[test]
fn acct_time_round_trips() {
    round_trips(Message::AcctTime {
        version: 1,
        account_time: String::from("16:21"),
    });
}

#[test]
fn next_valid_id_round_trips() {
    round_trips(Message::NextValidId { version: 1, order_id: 42 });
}

#[test]
fn managed_accts_round_trips() {
    round_trips(Message::ManagedAccts {
        version: 1,
        accounts_list: String::from("DU12345,DU12346"),
    });
}

#[test]
fn acct_download_end_round_trips() {
    round_trips(Message::AcctDownloadEnd {
        version: 1,
        account: String::from("DU12345"),
    });
}

#[test]
fn order_status_round_trips() {
    round_trips(Message::OrderStatus);
}

#[test]
fn position_data_end_round_trips() {
    round_trips(Message::PositionDataEnd { version: 1 });
}

#[test]
fn portfolio_value_round_trips() {
    round_trips(Message::PortfolioValue {
        version: 8,
        contract: PortfolioValueContract {
            conid: 383430121,
            symbol: String::from("ESTC"),
            sec_type: String::from("OPT"),
            last_trade_date_or_contract_month: String::from("20200717"),
            strike: String::from("60"),
            right: Right::Put,
            multiplier: String::from("100"),
            primary_exch: String::new(),
            currency: String::from("USD"),
            local_symbol: String::from("ESTC  200717P00060000"),
            trading_class: String::from("ESTC"),
        },
        position: String::from("2"),
        market_price: String::from("1.25"),
        market_value: String::from("250.0"),
        average_cost: String::from("130.0"),
        unrealized_pnl: String::from("-10.0"),
        realized_pnl: String::from("0.0"),
        account_name: String::from("DU12345"),
    });
}

#[test]
fn position_data_round_trips() {
    // The position record carries an eleven-field contract subset; decoding
    // widens it into a contract with everything else at its default.
    let contract = Contract {
        conid: 265598,
        symbol: String::from("AAPL"),
        sec_type: String::from("STK"),
        last_trade_date_or_contract_month: String::new(),
        strike: String::from("0"),
        right: Right::Unset,
        multiplier: String::new(),
        exchange: String::from("NASDAQ"),
        currency: String::from("USD"),
        local_symbol: String::from("AAPL"),
        trading_class: String::from("NMS"),
        ..Default::default()
    };
    round_trips(Message::PositionData {
        version: 3,
        account: String::from("DU12345"),
        contract,
        position: String::from("100"),
        avg_cost: String::from("150.25"),
    });
}

#[test]
fn position_data_decodes_field_by_field() {
    // The exact wire image of one position record, written out by hand.
    let body = b"61\x003\x00DU12345\x00265598\x00AAPL\x00STK\x00\x000\x00\x00\x00NASDAQ\x00USD\x00AAPL\x00NMS\x00100\x00150.25\x00"
        .to_vec();
    match decode_message(body) {
        Ok(Message::PositionData { version, account, contract, position, avg_cost }) => {
            assert_eq!(version, 3);
            assert_eq!(account, "DU12345");
            assert_eq!(contract.conid, 265598);
            assert_eq!(contract.symbol, "AAPL");
            assert_eq!(contract.right, Right::Unset);
            assert_eq!(contract.exchange, "NASDAQ");
            assert_eq!(contract.primary_exch, "");
            assert!(contract.combo_legs.is_empty());
            assert_eq!(position, "100");
            assert_eq!(avg_cost, "150.25");
        }
        other => panic!("expected a position record, got {:?}", other),
    }
}

#[test]
fn right_tokens_decode_with_alias() {
    // An option right reads the question-mark alias as unset.
    let body = b"61\x003\x00A\x001\x00S\x00OPT\x00\x000\x00?\x00\x00\x00E\x00USD\x00L\x00T\x000\x00".to_vec();
    match decode_message(body) {
        Ok(Message::PositionData { contract, .. }) => {
            assert_eq!(contract.right, Right::Unset);
        }
        other => panic!("expected a position record, got {:?}", other),
    }
}

#[test]
fn unknown_tag_is_data_not_failure() {
    let body = b"17\x001\x00whatever\0".to_vec();
    assert_eq!(
        decode_message(body).unwrap(),
        Message::UnknownMessage(String::from("17"))
    );
}

#[test]
fn known_tag_with_malformed_field_fails() {
    // Tag 9 wants two integers; the second token is not one.
    let body = b"9\x001\x00notanumber\0".to_vec();
    assert!(matches!(decode_message(body), Err(Error::Malformed { .. })));
}

#[test]
fn known_tag_with_missing_field_is_truncated() {
    let body = b"9\x001\x00".to_vec();
    assert!(matches!(decode_message(body), Err(Error::Truncated)));
}

#[test]
fn invalid_utf8_tag_fails() {
    let body = b"\xff\xfe\x00".to_vec();
    assert!(decode_message(body).is_err());
}
