//! Inbound messages: the tagged union the reader path decodes.
//!
//! Each frame body starts with a small integer tag token naming the variant,
//! followed by that variant's fields in declaration order. A tag outside the
//! known set does not fail: it decodes to the `UnknownMessage` fallback
//! carrying the raw tag text, and whatever follows the tag is skipped, so
//! that new message kinds never break an old client. For a known tag,
//! trailing bytes inside the frame beyond the variant's schema are a
//! schema or version mismatch and are rejected as corruption.

use vstd::prelude::*;
use vstd::utf8::decode_utf8;
use vstd::utf8::valid_utf8;

use crate::contract::Contract;
use crate::contract::ContractV;
use crate::contract::PortfolioValueContract;
use crate::contract::PortfolioValueContractV;
use crate::contract::contract_of_position;
use crate::contract::lemma_rt_portfolio_contract;
use crate::contract::lemma_rt_position_contract;
use crate::contract::read_portfolio_contract;
use crate::contract::read_position_contract;
use crate::contract::spec_read_portfolio_contract;
use crate::contract::spec_read_position_contract;
use crate::contract::spec_write_portfolio_contract;
use crate::contract::spec_write_position_contract;
use crate::contract::write_portfolio_contract;
use crate::contract::write_position_contract;
use crate::de::Deserializer;
use crate::de::bytes_eq;
use crate::de::fmt_u64_exec;
use crate::de::spec_read_i32;
use crate::de::spec_read_text;
use crate::de::spec_read_token;
use crate::de::spec_read_u64;
use crate::error::Error;
use crate::error::malformed;
use crate::num::dec_nat;
use crate::num::dec_value;
use crate::num::lemma_dec_nat_value;
use crate::ser::Serializer;
use crate::ser::lemma_rt_i32;
use crate::ser::lemma_rt_text;
use crate::ser::lemma_rt_u64;
use crate::ser::spec_write_i32;
use crate::ser::spec_write_text;
use crate::ser::spec_write_u64;
use crate::ser::text_ok;
use crate::text::bytes_to_string;
use crate::text::text_nul_free;
use crate::token::nul_free;
use crate::token::lemma_read_tok;
use crate::token::tok;

verus! {

/// The server's greeting: its version and the connection timestamp.
#[derive(Clone, Debug, Default, PartialEq)]
pub struct Hello {
    pub server_version: u64,
    pub server_connection_time: String,
}

/// The abstract value of a `Hello`.
pub struct HelloV {
    pub server_version: u64,
    pub server_connection_time: Seq<char>,
}

impl View for Hello {
    type V = HelloV;

    open spec fn view(&self) -> HelloV {
        HelloV {
            server_version: self.server_version,
            server_connection_time: self.server_connection_time@,
        }
    }
}

/// One decoded inbound message.
#[derive(Clone, Debug, PartialEq)]
pub enum Message {
    /// Tag `3`; its fields are not decoded by this client.
    OrderStatus,
    /// Tag `4`: an error notification.
    ErrMsg { version: i32, id: i32, error_code: i32, error_msg: String },
    /// Tag `6`: one account value.
    AcctValue { version: i32, key: String, val: String, cur: String, account_name: String },
    /// Tag `7`: one portfolio position's valuation; the numeric fields are
    /// kept as their wire text.
    PortfolioValue {
        version: i32,
        contract: PortfolioValueContract,
        position: String,
        market_price: String,
        market_value: String,
        average_cost: String,
        unrealized_pnl: String,
        realized_pnl: String,
        account_name: String,
    },
    /// Tag `8`: the account data timestamp.
    AcctTime { version: i32, account_time: String },
    /// Tag `9`: the next valid order id.
    NextValidId { version: i32, order_id: i32 },
    /// Tag `15`: the list of managed accounts.
    ManagedAccts { version: i32, accounts_list: String },
    /// Tag `54`: end of an account-data download.
    AcctDownloadEnd { version: i32, account: String },
    /// Tag `61`: one position record; the numeric fields are kept as their
    /// wire text.
    PositionData { version: i32, account: String, contract: Contract, position: String, avg_cost: String },
    /// Tag `62`: end of a position-data batch.
    PositionDataEnd { version: i32 },
    /// Not a gateway message: the decode-time fallback for a tag outside the
    /// known set, carrying the raw tag text. It is never sent.
    UnknownMessage(String),
}

/// The abstract value of a `Message`.
pub enum MessageV {
    OrderStatus,
    ErrMsg { version: i32, id: i32, error_code: i32, error_msg: Seq<char> },
    AcctValue { version: i32, key: Seq<char>, val: Seq<char>, cur: Seq<char>, account_name: Seq<char> },
    PortfolioValue {
        version: i32,
        contract: PortfolioValueContractV,
        position: Seq<char>,
        market_price: Seq<char>,
        market_value: Seq<char>,
        average_cost: Seq<char>,
        unrealized_pnl: Seq<char>,
        realized_pnl: Seq<char>,
        account_name: Seq<char>,
    },
    AcctTime { version: i32, account_time: Seq<char> },
    NextValidId { version: i32, order_id: i32 },
    ManagedAccts { version: i32, accounts_list: Seq<char> },
    AcctDownloadEnd { version: i32, account: Seq<char> },
    PositionData { version: i32, account: Seq<char>, contract: ContractV, position: Seq<char>, avg_cost: Seq<char> },
    PositionDataEnd { version: i32 },
    UnknownMessage(Seq<char>),
}

impl View for Message {
    type V = MessageV;

    open spec fn view(&self) -> MessageV {
        match self {
            Message::OrderStatus => MessageV::OrderStatus,
            Message::ErrMsg { version, id, error_code, error_msg } => MessageV::ErrMsg {
                version: *version,
                id: *id,
                error_code: *error_code,
                error_msg: error_msg@,
            },
            Message::AcctValue { version, key, val, cur, account_name } => MessageV::AcctValue {
                version: *version,
                key: key@,
                val: val@,
                cur: cur@,
                account_name: account_name@,
            },
            Message::PortfolioValue {
                version,
                contract,
                position,
                market_price,
                market_value,
                average_cost,
                unrealized_pnl,
                realized_pnl,
                account_name,
            } => MessageV::PortfolioValue {
                version: *version,
                contract: contract@,
                position: position@,
                market_price: market_price@,
                market_value: market_value@,
                average_cost: average_cost@,
                unrealized_pnl: unrealized_pnl@,
                realized_pnl: realized_pnl@,
                account_name: account_name@,
            },
            Message::AcctTime { version, account_time } => MessageV::AcctTime {
                version: *version,
                account_time: account_time@,
            },
            Message::NextValidId { version, order_id } => MessageV::NextValidId {
                version: *version,
                order_id: *order_id,
            },
            Message::ManagedAccts { version, accounts_list } => MessageV::ManagedAccts {
                version: *version,
                accounts_list: accounts_list@,
            },
            Message::AcctDownloadEnd { version, account } => MessageV::AcctDownloadEnd {
                version: *version,
                account: account@,
            },
            Message::PositionData { version, account, contract, position, avg_cost } => MessageV::PositionData {
                version: *version,
                account: account@,
                contract: contract@,
                position: position@,
                avg_cost: avg_cost@,
            },
            Message::PositionDataEnd { version } => MessageV::PositionDataEnd { version: *version },
            Message::UnknownMessage(tag) => MessageV::UnknownMessage(tag@),
        }
    }
}

/// Reads the server greeting: version, then connection time.
pub open spec fn spec_read_hello(s: Seq<u8>) -> Option<(HelloV, Seq<u8>)> {
    match spec_read_u64(s) {
        Option::None => Option::None,
        Option::Some((server_version, s)) => match spec_read_text(s) {
            Option::None => Option::None,
            Option::Some((server_connection_time, s)) => Option::Some(
                (HelloV { server_version, server_connection_time }, s),
            ),
        },
    }
}

/// Writes the server greeting.
pub open spec fn spec_write_hello(h: HelloV) -> Seq<u8> {
    spec_write_u64(h.server_version) + spec_write_text(h.server_connection_time)
}

/// A hello frame body: the greeting with nothing after it.
pub open spec fn spec_decode_hello_frame(body: Seq<u8>) -> Option<HelloV> {
    match spec_read_hello(body) {
        Option::None => Option::None,
        Option::Some((h, rest)) => if rest.len() == 0 {
            Option::Some(h)
        } else {
            Option::None
        },
    }
}

/// Decodes the server's hello from one frame body. A frame that holds more
/// or less than exactly one greeting is rejected.
pub fn decode_hello(body: Vec<u8>) -> (r: Result<Hello, Error>)
    ensures
        match spec_decode_hello_frame(body@) {
            Option::Some(h) => r matches Ok(x) && x@ == h,
            Option::None => r is Err,
        },
{
    let mut d = Deserializer::new(body);
    let server_version = match d.read_u64() {
        Ok(v) => v,
        Err(e) => { return Err(e) },
    };
    let server_connection_time = match d.read_text() {
        Ok(v) => v,
        Err(e) => { return Err(e) },
    };
    if d.has_remaining() {
        return Err(malformed("end of hello frame", Vec::new()));
    }
    Ok(Hello { server_version, server_connection_time })
}

/// Encodes the server greeting (used by tests and by servers).
pub fn encode_hello(h: &Hello) -> (r: Vec<u8>)
    requires
        text_nul_free(h.server_connection_time@),
    ensures
        r@ == spec_write_hello(h@),
{
    let mut ser = Serializer::new();
    ser.write_u64(h.server_version);
    ser.write_str(&h.server_connection_time);
    let out = ser.into_bytes();
    assert(out@ =~= spec_write_hello(h@));
    out
}

/// The hello round trip: an encoded greeting decodes to itself.
pub proof fn lemma_rt_hello(h: HelloV)
    requires
        text_nul_free(h.server_connection_time),
    ensures
        spec_decode_hello_frame(spec_write_hello(h)) == Some(h),
{
    let r1 = spec_write_text(h.server_connection_time) + Seq::<u8>::empty();
    assert(spec_write_hello(h) =~= spec_write_u64(h.server_version) + r1);
    lemma_rt_u64(h.server_version, r1);
    lemma_rt_text(h.server_connection_time, Seq::empty());
    assert(spec_write_text(h.server_connection_time) + Seq::<u8>::empty() =~= spec_write_text(
        h.server_connection_time,
    ));
}

/// Reads the fields of an error notification (after its tag).
pub open spec fn spec_read_err_msg(s: Seq<u8>) -> Option<(MessageV, Seq<u8>)> {
    match spec_read_i32(s) {
        Option::None => Option::None,
        Option::Some((version, s)) => match spec_read_i32(s) {
            Option::None => Option::None,
            Option::Some((id, s)) => match spec_read_i32(s) {
                Option::None => Option::None,
                Option::Some((error_code, s)) => match spec_read_text(s) {
                    Option::None => Option::None,
                    Option::Some((error_msg, s)) => Option::Some(
                        (MessageV::ErrMsg { version, id, error_code, error_msg }, s),
                    ),
                },
            },
        },
    }
}

/// Reads the fields of an account value (after its tag).
pub open spec fn spec_read_acct_value(s: Seq<u8>) -> Option<(MessageV, Seq<u8>)> {
    match spec_read_i32(s) {
        Option::None => Option::None,
        Option::Some((version, s)) => match spec_read_text(s) {
            Option::None => Option::None,
            Option::Some((key, s)) => match spec_read_text(s) {
                Option::None => Option::None,
                Option::Some((val, s)) => match spec_read_text(s) {
                    Option::None => Option::None,
                    Option::Some((cur, s)) => match spec_read_text(s) {
                        Option::None => Option::None,
                        Option::Some((account_name, s)) => Option::Some(
                            (MessageV::AcctValue { version, key, val, cur, account_name }, s),
                        ),
                    },
                },
            },
        },
    }
}

/// Reads the fields of a portfolio valuation (after its tag).
pub open spec fn spec_read_portfolio_value(s: Seq<u8>) -> Option<(MessageV, Seq<u8>)> {
    match spec_read_i32(s) {
        Option::None => Option::None,
        Option::Some((version, s)) => match spec_read_portfolio_contract(s) {
            Option::None => Option::None,
            Option::Some((contract, s)) => match spec_read_text(s) {
                Option::None => Option::None,
                Option::Some((position, s)) => match spec_read_text(s) {
                    Option::None => Option::None,
                    Option::Some((market_price, s)) => match spec_read_text(s) {
                        Option::None => Option::None,
                        Option::Some((market_value, s)) => match spec_read_text(s) {
                            Option::None => Option::None,
                            Option::Some((average_cost, s)) => match spec_read_text(s) {
                                Option::None => Option::None,
                                Option::Some((unrealized_pnl, s)) => match spec_read_text(s) {
                                    Option::None => Option::None,
                                    Option::Some((realized_pnl, s)) => match spec_read_text(s) {
                                        Option::None => Option::None,
                                        Option::Some((account_name, s)) => Option::Some(
                                            (
                                                MessageV::PortfolioValue {
                                                    version,
                                                    contract,
                                                    position,
                                                    market_price,
                                                    market_value,
                                                    average_cost,
                                                    unrealized_pnl,
                                                    realized_pnl,
                                                    account_name,
                                                },
                                                s,
                                            ),
                                        ),
                                    },
                                },
                            },
                        },
                    },
                },
            },
        },
    }
}

/// Reads the fields of a position record (after its tag): the contract
/// subset widens into a full contract.
pub open spec fn spec_read_position_data(s: Seq<u8>) -> Option<(MessageV, Seq<u8>)> {
    match spec_read_i32(s) {
        Option::None => Option::None,
        Option::Some((version, s)) => match spec_read_text(s) {
            Option::None => Option::None,
            Option::Some((account, s)) => match spec_read_position_contract(s) {
                Option::None => Option::None,
                Option::Some((c, s)) => match spec_read_text(s) {
                    Option::None => Option::None,
                    Option::Some((position, s)) => match spec_read_text(s) {
                        Option::None => Option::None,
                        Option::Some((avg_cost, s)) => Option::Some(
                            (
                                MessageV::PositionData {
                                    version,
                                    account,
                                    contract: contract_of_position(c),
                                    position,
                                    avg_cost,
                                },
                                s,
                            ),
                        ),
                    },
                },
            },
        },
    }
}

/// Reads a version and one text field (after the tag), building the message
/// the constructor gives.
pub open spec fn spec_read_ver_text(s: Seq<u8>) -> Option<(i32, Seq<char>, Seq<u8>)> {
    match spec_read_i32(s) {
        Option::None => Option::None,
        Option::Some((version, s)) => match spec_read_text(s) {
            Option::None => Option::None,
            Option::Some((t, s)) => Option::Some((version, t, s)),
        },
    }
}

/// Reads one whole message: the tag token, then the named variant's fields;
/// a tag outside the known set reads as the fallback, consuming only the tag.
pub open spec fn spec_read_message(s: Seq<u8>) -> Option<(MessageV, Seq<u8>)> {
    match spec_read_token(s) {
        Option::None => Option::None,
        Option::Some((tag, rest)) => {
            if tag == dec_nat(3nat) {
                Option::Some((MessageV::OrderStatus, rest))
            } else if tag == dec_nat(4nat) {
                spec_read_err_msg(rest)
            } else if tag == dec_nat(6nat) {
                spec_read_acct_value(rest)
            } else if tag == dec_nat(7nat) {
                spec_read_portfolio_value(rest)
            } else if tag == dec_nat(8nat) {
                match spec_read_ver_text(rest) {
                    Option::None => Option::None,
                    Option::Some((version, account_time, s)) => Option::Some(
                        (MessageV::AcctTime { version, account_time }, s),
                    ),
                }
            } else if tag == dec_nat(9nat) {
                match spec_read_i32(rest) {
                    Option::None => Option::None,
                    Option::Some((version, s)) => match spec_read_i32(s) {
                        Option::None => Option::None,
                        Option::Some((order_id, s)) => Option::Some(
                            (MessageV::NextValidId { version, order_id }, s),
                        ),
                    },
                }
            } else if tag == dec_nat(15nat) {
                match spec_read_ver_text(rest) {
                    Option::None => Option::None,
                    Option::Some((version, accounts_list, s)) => Option::Some(
                        (MessageV::ManagedAccts { version, accounts_list }, s),
                    ),
                }
            } else if tag == dec_nat(54nat) {
                match spec_read_ver_text(rest) {
                    Option::None => Option::None,
                    Option::Some((version, account, s)) => Option::Some(
                        (MessageV::AcctDownloadEnd { version, account }, s),
                    ),
                }
            } else if tag == dec_nat(61nat) {
                spec_read_position_data(rest)
            } else if tag == dec_nat(62nat) {
                match spec_read_i32(rest) {
                    Option::None => Option::None,
                    Option::Some((version, s)) => Option::Some(
                        (MessageV::PositionDataEnd { version }, s),
                    ),
                }
            } else if valid_utf8(tag) {
                Option::Some((MessageV::UnknownMessage(decode_utf8(tag)), rest))
            } else {
                Option::None
            }
        },
    }
}

/// One frame body as a message. For a known tag the body must hold exactly
/// the variant's fields: trailing bytes are a schema mismatch. For the
/// unknown-tag fallback everything after the tag is skipped.
pub open spec fn spec_decode_message_frame(body: Seq<u8>) -> Option<MessageV> {
    match spec_read_message(body) {
        Option::None => Option::None,
        Option::Some((m, rest)) => {
            if m is UnknownMessage || rest.len() == 0 {
                Option::Some(m)
            } else {
                Option::None
            }
        },
    }
}

/// Reads one message from the stream.
pub fn read_message(d: &mut Deserializer) -> (r: Result<Message, Error>)
    requires
        old(d).wf(),
    ensures
        final(d).wf(),
        match spec_read_message(old(d)@) {
            Option::Some((m, rest)) => r matches Ok(x) && x@ == m && final(d)@ == rest,
            Option::None => r is Err,
        },
        old(d)@.len() == 0 ==> (r matches Err(e) && e is Truncated),
{
    proof {
        lemma_dec_nat_value(3nat);
        lemma_dec_nat_value(4nat);
        lemma_dec_nat_value(6nat);
        lemma_dec_nat_value(7nat);
        lemma_dec_nat_value(8nat);
        lemma_dec_nat_value(9nat);
        lemma_dec_nat_value(15nat);
        lemma_dec_nat_value(54nat);
        lemma_dec_nat_value(61nat);
        lemma_dec_nat_value(62nat);
    }
    let tag = match d.read_token() {
        Ok(t) => t,
        Err(e) => { return Err(e) },
    };
    if bytes_eq(&tag, &fmt_u64_exec(3)) {
        Ok(Message::OrderStatus)
    } else if bytes_eq(&tag, &fmt_u64_exec(4)) {
        let version = match d.read_i32() {
            Ok(v) => v,
            Err(e) => { return Err(e) },
        };
        let id = match d.read_i32() {
            Ok(v) => v,
            Err(e) => { return Err(e) },
        };
        let error_code = match d.read_i32() {
            Ok(v) => v,
            Err(e) => { return Err(e) },
        };
        let error_msg = match d.read_text() {
            Ok(v) => v,
            Err(e) => { return Err(e) },
        };
        Ok(Message::ErrMsg { version, id, error_code, error_msg })
    } else if bytes_eq(&tag, &fmt_u64_exec(6)) {
        let version = match d.read_i32() {
            Ok(v) => v,
            Err(e) => { return Err(e) },
        };
        let key = match d.read_text() {
            Ok(v) => v,
            Err(e) => { return Err(e) },
        };
        let val = match d.read_text() {
            Ok(v) => v,
            Err(e) => { return Err(e) },
        };
        let cur = match d.read_text() {
            Ok(v) => v,
            Err(e) => { return Err(e) },
        };
        let account_name = match d.read_text() {
            Ok(v) => v,
            Err(e) => { return Err(e) },
        };
        Ok(Message::AcctValue { version, key, val, cur, account_name })
    } else if bytes_eq(&tag, &fmt_u64_exec(7)) {
        let version = match d.read_i32() {
            Ok(v) => v,
            Err(e) => { return Err(e) },
        };
        let contract = match read_portfolio_contract(d) {
            Ok(v) => v,
            Err(e) => { return Err(e) },
        };
        let position = match d.read_text() {
            Ok(v) => v,
            Err(e) => { return Err(e) },
        };
        let market_price = match d.read_text() {
            Ok(v) => v,
            Err(e) => { return Err(e) },
        };
        let market_value = match d.read_text() {
            Ok(v) => v,
            Err(e) => { return Err(e) },
        };
        let average_cost = match d.read_text() {
            Ok(v) => v,
            Err(e) => { return Err(e) },
        };
        let unrealized_pnl = match d.read_text() {
            Ok(v) => v,
            Err(e) => { return Err(e) },
        };
        let realized_pnl = match d.read_text() {
            Ok(v) => v,
            Err(e) => { return Err(e) },
        };
        let account_name = match d.read_text() {
            Ok(v) => v,
            Err(e) => { return Err(e) },
        };
        Ok(
            Message::PortfolioValue {
                version,
                contract,
                position,
                market_price,
                market_value,
                average_cost,
                unrealized_pnl,
                realized_pnl,
                account_name,
            },
        )
    } else if bytes_eq(&tag, &fmt_u64_exec(8)) {
        let version = match d.read_i32() {
            Ok(v) => v,
            Err(e) => { return Err(e) },
        };
        let account_time = match d.read_text() {
            Ok(v) => v,
            Err(e) => { return Err(e) },
        };
        Ok(Message::AcctTime { version, account_time })
    } else if bytes_eq(&tag, &fmt_u64_exec(9)) {
        let version = match d.read_i32() {
            Ok(v) => v,
            Err(e) => { return Err(e) },
        };
        let order_id = match d.read_i32() {
            Ok(v) => v,
            Err(e) => { return Err(e) },
        };
        Ok(Message::NextValidId { version, order_id })
    } else if bytes_eq(&tag, &fmt_u64_exec(15)) {
        let version = match d.read_i32() {
            Ok(v) => v,
            Err(e) => { return Err(e) },
        };
        let accounts_list = match d.read_text() {
            Ok(v) => v,
            Err(e) => { return Err(e) },
        };
        Ok(Message::ManagedAccts { version, accounts_list })
    } else if bytes_eq(&tag, &fmt_u64_exec(54)) {
        let version = match d.read_i32() {
            Ok(v) => v,
            Err(e) => { return Err(e) },
        };
        let account = match d.read_text() {
            Ok(v) => v,
            Err(e) => { return Err(e) },
        };
        Ok(Message::AcctDownloadEnd { version, account })
    } else if bytes_eq(&tag, &fmt_u64_exec(61)) {
        let version = match d.read_i32() {
            Ok(v) => v,
            Err(e) => { return Err(e) },
        };
        let account = match d.read_text() {
            Ok(v) => v,
            Err(e) => { return Err(e) },
        };
        let c = match read_position_contract(d) {
            Ok(v) => v,
            Err(e) => { return Err(e) },
        };
        let position = match d.read_text() {
            Ok(v) => v,
            Err(e) => { return Err(e) },
        };
        let avg_cost = match d.read_text() {
            Ok(v) => v,
            Err(e) => { return Err(e) },
        };
        Ok(Message::PositionData { version, account, contract: c.into_contract(), position, avg_cost })
    } else if bytes_eq(&tag, &fmt_u64_exec(62)) {
        let version = match d.read_i32() {
            Ok(v) => v,
            Err(e) => { return Err(e) },
        };
        Ok(Message::PositionDataEnd { version })
    } else {
        match bytes_to_string(tag) {
            Option::Some(raw) => Ok(Message::UnknownMessage(raw)),
            Option::None => Err(malformed("a utf-8 message tag", Vec::new())),
        }
    }
}

/// Decodes one frame body into a message, enforcing the trailing-bytes rule:
/// a known variant must fill its frame exactly; an unknown tag skips the
/// rest of the frame.
pub fn decode_message(body: Vec<u8>) -> (r: Result<Message, Error>)
    ensures
        match spec_decode_message_frame(body@) {
            Option::Some(m) => r matches Ok(x) && x@ == m,
            Option::None => r is Err,
        },
        body@.len() == 0 ==> (r matches Err(e) && e is Truncated),
{
    let mut d = Deserializer::new(body);
    let m = match read_message(&mut d) {
        Ok(m) => m,
        Err(e) => { return Err(e) },
    };
    let unknown = match m {
        Message::UnknownMessage(_) => true,
        _ => false,
    };
    if !unknown && d.has_remaining() {
        return Err(malformed("end of message frame", Vec::new()));
    }
    Ok(m)
}

/// Writes one whole message: its tag token, then its fields.
///
/// The fallback variant is never sent, so it has no encoding; for
/// completeness the function of its text is the tag token alone.
pub open spec fn spec_write_message(m: MessageV) -> Seq<u8> {
    match m {
        MessageV::OrderStatus => tok(dec_nat(3nat)),
        MessageV::ErrMsg { version, id, error_code, error_msg } => tok(dec_nat(4nat))
            + spec_write_i32(version) + spec_write_i32(id) + spec_write_i32(error_code)
            + spec_write_text(error_msg),
        MessageV::AcctValue { version, key, val, cur, account_name } => tok(dec_nat(6nat))
            + spec_write_i32(version) + spec_write_text(key) + spec_write_text(val)
            + spec_write_text(cur) + spec_write_text(account_name),
        MessageV::PortfolioValue {
            version,
            contract,
            position,
            market_price,
            market_value,
            average_cost,
            unrealized_pnl,
            realized_pnl,
            account_name,
        } => tok(dec_nat(7nat)) + spec_write_i32(version) + spec_write_portfolio_contract(contract)
            + spec_write_text(position) + spec_write_text(market_price) + spec_write_text(
            market_value,
        ) + spec_write_text(average_cost) + spec_write_text(unrealized_pnl) + spec_write_text(
            realized_pnl,
        ) + spec_write_text(account_name),
        MessageV::AcctTime { version, account_time } => tok(dec_nat(8nat)) + spec_write_i32(version)
            + spec_write_text(account_time),
        MessageV::NextValidId { version, order_id } => tok(dec_nat(9nat)) + spec_write_i32(version)
            + spec_write_i32(order_id),
        MessageV::ManagedAccts { version, accounts_list } => tok(dec_nat(15nat)) + spec_write_i32(
            version,
        ) + spec_write_text(accounts_list),
        MessageV::AcctDownloadEnd { version, account } => tok(dec_nat(54nat)) + spec_write_i32(
            version,
        ) + spec_write_text(account),
        MessageV::PositionData { version, account, contract, position, avg_cost } => tok(
            dec_nat(61nat),
        ) + spec_write_i32(version) + spec_write_text(account) + spec_write_position_contract(
            position_part_of_contract(contract),
        ) + spec_write_text(position) + spec_write_text(avg_cost),
        MessageV::PositionDataEnd { version } => tok(dec_nat(62nat)) + spec_write_i32(version),
        MessageV::UnknownMessage(t) => tok(vstd::utf8::encode_utf8(t)),
    }
}

/// The position-record subset of a contract: the eleven fields that travel
/// in a position-data record.
pub open spec fn position_part_of_contract(c: ContractV) -> crate::contract::PositionDataContractV {
    crate::contract::PositionDataContractV {
        conid: c.conid,
        symbol: c.symbol,
        sec_type: c.sec_type,
        last_trade_date_or_contract_month: c.last_trade_date_or_contract_month,
        strike: c.strike,
        right: c.right,
        multiplier: c.multiplier,
        exchange: c.exchange,
        currency: c.currency,
        local_symbol: c.local_symbol,
        trading_class: c.trading_class,
    }
}

/// Every text field of the message can stand as a wire token.
pub open spec fn message_wf(m: MessageV) -> bool {
    match m {
        MessageV::OrderStatus => true,
        MessageV::ErrMsg { error_msg, .. } => text_nul_free(error_msg),
        MessageV::AcctValue { key, val, cur, account_name, .. } => text_nul_free(key)
            && text_nul_free(val) && text_nul_free(cur) && text_nul_free(account_name),
        MessageV::PortfolioValue {
            contract,
            position,
            market_price,
            market_value,
            average_cost,
            unrealized_pnl,
            realized_pnl,
            account_name,
            ..
        } => text_nul_free(contract.symbol) && text_nul_free(contract.sec_type) && text_nul_free(
            contract.last_trade_date_or_contract_month,
        ) && text_nul_free(contract.strike) && text_nul_free(contract.multiplier) && text_nul_free(
            contract.primary_exch,
        ) && text_nul_free(contract.currency) && text_nul_free(contract.local_symbol)
            && text_nul_free(contract.trading_class) && text_nul_free(position) && text_nul_free(
            market_price,
        ) && text_nul_free(market_value) && text_nul_free(average_cost) && text_nul_free(
            unrealized_pnl,
        ) && text_nul_free(realized_pnl) && text_nul_free(account_name),
        MessageV::AcctTime { account_time, .. } => text_nul_free(account_time),
        MessageV::NextValidId { .. } => true,
        MessageV::ManagedAccts { accounts_list, .. } => text_nul_free(accounts_list),
        MessageV::AcctDownloadEnd { account, .. } => text_nul_free(account),
        MessageV::PositionData { account, contract, position, avg_cost, .. } => text_nul_free(
            account,
        ) && contract.wf() && text_nul_free(position) && text_nul_free(avg_cost),
        MessageV::PositionDataEnd { .. } => true,
        MessageV::UnknownMessage(t) => text_nul_free(t),
    }
}

/// Encodes one message into the bytes its frame will carry.
pub fn encode_message(m: &Message) -> (r: Vec<u8>)
    requires
        message_wf(m@),
        !(m@ is UnknownMessage),
    ensures
        r@ == spec_write_message(m@),
{
    let mut ser = Serializer::new();
    match m {
        Message::OrderStatus => {
            let t = fmt_u64_exec(3);
            proof {
                lemma_dec_nat_digits_pub(3nat);
            }
            ser.write_token(&t);
        },
        Message::ErrMsg { version, id, error_code, error_msg } => {
            let t = fmt_u64_exec(4);
            proof {
                lemma_dec_nat_digits_pub(4nat);
            }
            ser.write_token(&t);
            ser.write_i32(*version);
            ser.write_i32(*id);
            ser.write_i32(*error_code);
            ser.write_str(error_msg);
        },
        Message::AcctValue { version, key, val, cur, account_name } => {
            let t = fmt_u64_exec(6);
            proof {
                lemma_dec_nat_digits_pub(6nat);
            }
            ser.write_token(&t);
            ser.write_i32(*version);
            ser.write_str(key);
            ser.write_str(val);
            ser.write_str(cur);
            ser.write_str(account_name);
        },
        Message::PortfolioValue {
            version,
            contract,
            position,
            market_price,
            market_value,
            average_cost,
            unrealized_pnl,
            realized_pnl,
            account_name,
        } => {
            let t = fmt_u64_exec(7);
            proof {
                lemma_dec_nat_digits_pub(7nat);
            }
            ser.write_token(&t);
            ser.write_i32(*version);
            write_portfolio_contract(&mut ser, contract);
            ser.write_str(position);
            ser.write_str(market_price);
            ser.write_str(market_value);
            ser.write_str(average_cost);
            ser.write_str(unrealized_pnl);
            ser.write_str(realized_pnl);
            ser.write_str(account_name);
        },
        Message::AcctTime { version, account_time } => {
            let t = fmt_u64_exec(8);
            proof {
                lemma_dec_nat_digits_pub(8nat);
            }
            ser.write_token(&t);
            ser.write_i32(*version);
            ser.write_str(account_time);
        },
        Message::NextValidId { version, order_id } => {
            let t = fmt_u64_exec(9);
            proof {
                lemma_dec_nat_digits_pub(9nat);
            }
            ser.write_token(&t);
            ser.write_i32(*version);
            ser.write_i32(*order_id);
        },
        Message::ManagedAccts { version, accounts_list } => {
            let t = fmt_u64_exec(15);
            proof {
                lemma_dec_nat_digits_pub(15nat);
            }
            ser.write_token(&t);
            ser.write_i32(*version);
            ser.write_str(accounts_list);
        },
        Message::AcctDownloadEnd { version, account } => {
            let t = fmt_u64_exec(54);
            proof {
                lemma_dec_nat_digits_pub(54nat);
            }
            ser.write_token(&t);
            ser.write_i32(*version);
            ser.write_str(account);
        },
        Message::PositionData { version, account, contract, position, avg_cost } => {
            let t = fmt_u64_exec(61);
            proof {
                lemma_dec_nat_digits_pub(61nat);
            }
            ser.write_token(&t);
            ser.write_i32(*version);
            ser.write_str(account);
            ser.write_i32(contract.conid);
            ser.write_str(&contract.symbol);
            ser.write_str(&contract.sec_type);
            ser.write_str(&contract.last_trade_date_or_contract_month);
            ser.write_str(&contract.strike);
            crate::types::write_right(&mut ser, contract.right);
            ser.write_str(&contract.multiplier);
            ser.write_str(&contract.exchange);
            ser.write_str(&contract.currency);
            ser.write_str(&contract.local_symbol);
            ser.write_str(&contract.trading_class);
            ser.write_str(position);
            ser.write_str(avg_cost);
        },
        Message::PositionDataEnd { version } => {
            let t = fmt_u64_exec(62);
            proof {
                lemma_dec_nat_digits_pub(62nat);
            }
            ser.write_token(&t);
            ser.write_i32(*version);
        },
        Message::UnknownMessage(_) => {
            proof {
                assert(false);
            }
        },
    }
    let out = ser.into_bytes();
    assert(out@ =~= spec_write_message(m@));
    out
}

proof fn lemma_dec_nat_digits_pub(n: nat)
    ensures
        nul_free(dec_nat(n)),
{
    crate::num::lemma_dec_nat_digits(n);
}

/// The tag tokens of the known variants: all digits, all distinct.
proof fn lemma_tag_facts()
    ensures
        nul_free(dec_nat(3nat)) && dec_value(dec_nat(3nat)) == 3,
        nul_free(dec_nat(4nat)) && dec_value(dec_nat(4nat)) == 4,
        nul_free(dec_nat(6nat)) && dec_value(dec_nat(6nat)) == 6,
        nul_free(dec_nat(7nat)) && dec_value(dec_nat(7nat)) == 7,
        nul_free(dec_nat(8nat)) && dec_value(dec_nat(8nat)) == 8,
        nul_free(dec_nat(9nat)) && dec_value(dec_nat(9nat)) == 9,
        nul_free(dec_nat(15nat)) && dec_value(dec_nat(15nat)) == 15,
        nul_free(dec_nat(54nat)) && dec_value(dec_nat(54nat)) == 54,
        nul_free(dec_nat(61nat)) && dec_value(dec_nat(61nat)) == 61,
        nul_free(dec_nat(62nat)) && dec_value(dec_nat(62nat)) == 62,
{
    lemma_dec_nat_value(3nat);
    lemma_dec_nat_value(4nat);
    lemma_dec_nat_value(6nat);
    lemma_dec_nat_value(7nat);
    lemma_dec_nat_value(8nat);
    lemma_dec_nat_value(9nat);
    lemma_dec_nat_value(15nat);
    lemma_dec_nat_value(54nat);
    lemma_dec_nat_value(61nat);
    lemma_dec_nat_value(62nat);
    crate::num::lemma_dec_nat_digits(3nat);
    crate::num::lemma_dec_nat_digits(4nat);
    crate::num::lemma_dec_nat_digits(6nat);
    crate::num::lemma_dec_nat_digits(7nat);
    crate::num::lemma_dec_nat_digits(8nat);
    crate::num::lemma_dec_nat_digits(9nat);
    crate::num::lemma_dec_nat_digits(15nat);
    crate::num::lemma_dec_nat_digits(54nat);
    crate::num::lemma_dec_nat_digits(61nat);
    crate::num::lemma_dec_nat_digits(62nat);
}

proof fn lemma_rt_msg_order_status(m: MessageV)
    requires
        m is OrderStatus,
    ensures
        spec_decode_message_frame(spec_write_message(m)) == Some(m),
{
    lemma_tag_facts();
    let nil = Seq::<u8>::empty();
    assert(spec_write_message(m) =~= tok(dec_nat(3nat)) + nil);
    lemma_read_tok(dec_nat(3nat), nil);
}

#[verifier::rlimit(100)]
proof fn lemma_rt_msg_err(m: MessageV)
    requires
        m matches MessageV::ErrMsg { error_msg, .. } && text_nul_free(error_msg),
    ensures
        spec_decode_message_frame(spec_write_message(m)) == Some(m),
{
    lemma_tag_facts();
    let nil = Seq::<u8>::empty();
    let (version, id, error_code, error_msg) = match m {
        MessageV::ErrMsg { version, id, error_code, error_msg } => (
            version,
            id,
            error_code,
            error_msg,
        ),
        _ => (0i32, 0i32, 0i32, Seq::empty()),
    };
    let r3 = spec_write_text(error_msg) + nil;
    let r2 = spec_write_i32(error_code) + r3;
    let r1 = spec_write_i32(id) + r2;
    let r0 = spec_write_i32(version) + r1;
    assert(spec_write_message(m) =~= tok(dec_nat(4nat)) + r0);
    lemma_read_tok(dec_nat(4nat), r0);
    lemma_rt_i32(version, r1);
    lemma_rt_i32(id, r2);
    lemma_rt_i32(error_code, r3);
    lemma_rt_text(error_msg, nil);
}

#[verifier::rlimit(100)]
proof fn lemma_rt_msg_acct_value(m: MessageV)
    requires
        m matches MessageV::AcctValue { key, val, cur, account_name, .. } && text_nul_free(key)
            && text_nul_free(val) && text_nul_free(cur) && text_nul_free(account_name),
    ensures
        spec_decode_message_frame(spec_write_message(m)) == Some(m),
{
    lemma_tag_facts();
    let nil = Seq::<u8>::empty();
    let (version, key, val, cur, account_name) = match m {
        MessageV::AcctValue { version, key, val, cur, account_name } => (
            version,
            key,
            val,
            cur,
            account_name,
        ),
        _ => (0i32, Seq::empty(), Seq::empty(), Seq::empty(), Seq::empty()),
    };
    let r4 = spec_write_text(account_name) + nil;
    let r3 = spec_write_text(cur) + r4;
    let r2 = spec_write_text(val) + r3;
    let r1 = spec_write_text(key) + r2;
    let r0 = spec_write_i32(version) + r1;
    assert(spec_write_message(m) =~= tok(dec_nat(6nat)) + r0);
    lemma_read_tok(dec_nat(6nat), r0);
    lemma_rt_i32(version, r1);
    lemma_rt_text(key, r2);
    lemma_rt_text(val, r3);
    lemma_rt_text(cur, r4);
    lemma_rt_text(account_name, nil);
}

#[verifier::rlimit(100)]
proof fn lemma_rt_msg_portfolio(m: MessageV)
    requires
        m is PortfolioValue,
        message_wf(m),
    ensures
        spec_decode_message_frame(spec_write_message(m)) == Some(m),
{
    lemma_tag_facts();
    let nil = Seq::<u8>::empty();
    let (
        version,
        contract,
        position,
        market_price,
        market_value,
        average_cost,
        unrealized_pnl,
        realized_pnl,
        account_name,
    ) = match m {
        MessageV::PortfolioValue {
            version,
            contract,
            position,
            market_price,
            market_value,
            average_cost,
            unrealized_pnl,
            realized_pnl,
            account_name,
        } => (
            version,
            contract,
            position,
            market_price,
            market_value,
            average_cost,
            unrealized_pnl,
            realized_pnl,
            account_name,
        ),
        _ => (
            0i32,
            arbitrary(),
            Seq::empty(),
            Seq::empty(),
            Seq::empty(),
            Seq::empty(),
            Seq::empty(),
            Seq::empty(),
            Seq::empty(),
        ),
    };
    let r8 = spec_write_text(account_name) + nil;
    let r7 = spec_write_text(realized_pnl) + r8;
    let r6 = spec_write_text(unrealized_pnl) + r7;
    let r5 = spec_write_text(average_cost) + r6;
    let r4 = spec_write_text(market_value) + r5;
    let r3 = spec_write_text(market_price) + r4;
    let r2 = spec_write_text(position) + r3;
    let r1 = spec_write_portfolio_contract(contract) + r2;
    let r0 = spec_write_i32(version) + r1;
    assert(spec_write_message(m) =~= tok(dec_nat(7nat)) + r0);
    lemma_read_tok(dec_nat(7nat), r0);
    lemma_rt_i32(version, r1);
    lemma_rt_portfolio_contract(contract, r2);
    lemma_rt_text(position, r3);
    lemma_rt_text(market_price, r4);
    lemma_rt_text(market_value, r5);
    lemma_rt_text(average_cost, r6);
    lemma_rt_text(unrealized_pnl, r7);
    lemma_rt_text(realized_pnl, r8);
    lemma_rt_text(account_name, nil);
}

#[verifier::rlimit(100)]
proof fn lemma_rt_msg_ver_text(m: MessageV)
    requires
        message_wf(m),
        m is AcctTime || m is ManagedAccts || m is AcctDownloadEnd,
    ensures
        spec_decode_message_frame(spec_write_message(m)) == Some(m),
{
    lemma_tag_facts();
    let nil = Seq::<u8>::empty();
    match m {
        MessageV::AcctTime { version, account_time } => {
            let r1 = spec_write_text(account_time) + nil;
            let r0 = spec_write_i32(version) + r1;
            assert(spec_write_message(m) =~= tok(dec_nat(8nat)) + r0);
            lemma_read_tok(dec_nat(8nat), r0);
            lemma_rt_i32(version, r1);
            lemma_rt_text(account_time, nil);
        },
        MessageV::ManagedAccts { version, accounts_list } => {
            let r1 = spec_write_text(accounts_list) + nil;
            let r0 = spec_write_i32(version) + r1;
            assert(spec_write_message(m) =~= tok(dec_nat(15nat)) + r0);
            lemma_read_tok(dec_nat(15nat), r0);
            lemma_rt_i32(version, r1);
            lemma_rt_text(accounts_list, nil);
        },
        MessageV::AcctDownloadEnd { version, account } => {
            let r1 = spec_write_text(account) + nil;
            let r0 = spec_write_i32(version) + r1;
            assert(spec_write_message(m) =~= tok(dec_nat(54nat)) + r0);
            lemma_read_tok(dec_nat(54nat), r0);
            lemma_rt_i32(version, r1);
            lemma_rt_text(account, nil);
        },
        _ => {},
    }
}

proof fn lemma_rt_msg_two_i32(m: MessageV)
    requires
        m is NextValidId || m is PositionDataEnd,
    ensures
        spec_decode_message_frame(spec_write_message(m)) == Some(m),
{
    lemma_tag_facts();
    let nil = Seq::<u8>::empty();
    match m {
        MessageV::NextValidId { version, order_id } => {
            let r1 = spec_write_i32(order_id) + nil;
            let r0 = spec_write_i32(version) + r1;
            assert(spec_write_message(m) =~= tok(dec_nat(9nat)) + r0);
            lemma_read_tok(dec_nat(9nat), r0);
            lemma_rt_i32(version, r1);
            lemma_rt_i32(order_id, nil);
        },
        MessageV::PositionDataEnd { version } => {
            let r0 = spec_write_i32(version) + nil;
            assert(spec_write_message(m) =~= tok(dec_nat(62nat)) + r0);
            lemma_read_tok(dec_nat(62nat), r0);
            lemma_rt_i32(version, nil);
        },
        _ => {},
    }
}

#[verifier::rlimit(100)]
proof fn lemma_rt_msg_position(m: MessageV)
    requires
        m is PositionData,
        message_wf(m),
        message_rt_form(m),
    ensures
        spec_decode_message_frame(spec_write_message(m)) == Some(m),
{
    lemma_tag_facts();
    let nil = Seq::<u8>::empty();
    let (version, account, contract, position, avg_cost) = match m {
        MessageV::PositionData { version, account, contract, position, avg_cost } => (
            version,
            account,
            contract,
            position,
            avg_cost,
        ),
        _ => (0i32, Seq::empty(), arbitrary(), Seq::empty(), Seq::empty()),
    };
    let part = position_part_of_contract(contract);
    let r4 = spec_write_text(avg_cost) + nil;
    let r3 = spec_write_text(position) + r4;
    let r2 = spec_write_position_contract(part) + r3;
    let r1 = spec_write_text(account) + r2;
    let r0 = spec_write_i32(version) + r1;
    assert(spec_write_message(m) =~= tok(dec_nat(61nat)) + r0);
    lemma_read_tok(dec_nat(61nat), r0);
    lemma_rt_i32(version, r1);
    lemma_rt_text(account, r2);
    lemma_rt_position_contract(part, r3);
    lemma_rt_text(position, r4);
    lemma_rt_text(avg_cost, nil);
    assert(contract_of_position(part) == contract);
}

/// Whether a message's shape survives a round trip: a position record's
/// contract must carry only the eleven fields its wire record has.
pub open spec fn message_rt_form(m: MessageV) -> bool {
    match m {
        MessageV::PositionData { contract, .. } => contract.position_form(),
        _ => true,
    }
}

/// The message round trip: every well-formed message a frame can be built
/// for decodes back to itself, with nothing left in the frame.
pub proof fn lemma_message_round_trip(m: MessageV)
    requires
        message_wf(m),
        !(m is UnknownMessage),
        message_rt_form(m),
    ensures
        spec_decode_message_frame(spec_write_message(m)) == Some(m),
{
    match m {
        MessageV::OrderStatus => lemma_rt_msg_order_status(m),
        MessageV::ErrMsg { .. } => lemma_rt_msg_err(m),
        MessageV::AcctValue { .. } => lemma_rt_msg_acct_value(m),
        MessageV::PortfolioValue { .. } => lemma_rt_msg_portfolio(m),
        MessageV::AcctTime { .. } => lemma_rt_msg_ver_text(m),
        MessageV::NextValidId { .. } => lemma_rt_msg_two_i32(m),
        MessageV::ManagedAccts { .. } => lemma_rt_msg_ver_text(m),
        MessageV::AcctDownloadEnd { .. } => lemma_rt_msg_ver_text(m),
        MessageV::PositionData { .. } => lemma_rt_msg_position(m),
        MessageV::PositionDataEnd { .. } => lemma_rt_msg_two_i32(m),
        MessageV::UnknownMessage(_) => {},
    }
}
} // verus!
