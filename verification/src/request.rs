//! Outbound requests: the messages this client sends.
//!
//! Each request travels as a tag token, a schema-version token, then the
//! variant's fields in order. The market-data request shows the protocol's
//! variable shape on the encode side: whether a delta-neutral contract is
//! attached is written as a flag derived from the option's presence.

use vstd::prelude::*;

use crate::contract::ComboLeg;
use crate::contract::ComboLegV;
use crate::contract::Contract;
use crate::contract::ContractV;
use crate::contract::spec_write_combo_leg;
use crate::contract::spec_write_contract_mkt;
use crate::contract::write_combo_leg;
use crate::contract::write_contract_mkt;
use crate::num::dec_nat;
use crate::num::lemma_dec_nat_digits;
use crate::ser::Serializer;
use crate::ser::spec_write_bool;
use crate::ser::spec_write_i32;
use crate::ser::spec_write_text;
use crate::ser::spec_write_u64;
use crate::text::string_token_ok;
use crate::text::text_nul_free;
use crate::token::nul_free;
use crate::token::tok;
use crate::types::TagValue;
use crate::types::TagValueV;
use crate::types::spec_write_tag_value;
use crate::types::write_tag_value;

verus! {

/// One outbound request.
#[derive(Clone, Debug, Default, PartialEq)]
pub enum Request {
    /// The neutral value; its wire text is the bare token `None`.
    #[default]
    Unset,
    /// Tag `1`, version `11`: subscribe to market data for a contract.
    ReqMktData {
        ticker_id: i32,
        contract: Contract,
        generic_tick_list: String,
        snapshot: bool,
        regulatory_snapshot: bool,
        mkt_data_options: Vec<TagValue>,
    },
    /// Tag `5`, version `1`: report this client's open orders.
    ReqOpenOrders,
    /// Tag `6`, version `2`: subscribe to account data.
    ReqAcctData { subscribe: bool, acct_code: String },
    /// Tag `16`, version `1`: report every account's open orders.
    ReqAllOpenOrders,
    /// Tag `61`, version `1`: report all positions.
    ReqPositions,
    /// Tag `71`, version `2`: the start-of-API control request sent once
    /// after the hello, carrying the caller-chosen client id.
    StartApi { client_id: i32, optional_capabilities: String },
}

/// The abstract value of a `Request`.
pub enum RequestV {
    Unset,
    ReqMktData {
        ticker_id: i32,
        contract: ContractV,
        generic_tick_list: Seq<char>,
        snapshot: bool,
        regulatory_snapshot: bool,
        mkt_data_options: Seq<TagValueV>,
    },
    ReqOpenOrders,
    ReqAcctData { subscribe: bool, acct_code: Seq<char> },
    ReqAllOpenOrders,
    ReqPositions,
    StartApi { client_id: i32, optional_capabilities: Seq<char> },
}

impl View for Request {
    type V = RequestV;

    open spec fn view(&self) -> RequestV {
        match self {
            Request::Unset => RequestV::Unset,
            Request::ReqMktData {
                ticker_id,
                contract,
                generic_tick_list,
                snapshot,
                regulatory_snapshot,
                mkt_data_options,
            } => RequestV::ReqMktData {
                ticker_id: *ticker_id,
                contract: contract@,
                generic_tick_list: generic_tick_list@,
                snapshot: *snapshot,
                regulatory_snapshot: *regulatory_snapshot,
                mkt_data_options: mkt_data_options@.map_values(|t: TagValue| t@),
            },
            Request::ReqOpenOrders => RequestV::ReqOpenOrders,
            Request::ReqAcctData { subscribe, acct_code } => RequestV::ReqAcctData {
                subscribe: *subscribe,
                acct_code: acct_code@,
            },
            Request::ReqAllOpenOrders => RequestV::ReqAllOpenOrders,
            Request::ReqPositions => RequestV::ReqPositions,
            Request::StartApi { client_id, optional_capabilities } => RequestV::StartApi {
                client_id: *client_id,
                optional_capabilities: optional_capabilities@,
            },
        }
    }
}

/// Every text field of the request can stand as a wire token.
pub open spec fn request_wf(r: RequestV) -> bool {
    match r {
        RequestV::Unset => true,
        RequestV::ReqMktData { contract, generic_tick_list, mkt_data_options, .. } => {
            &&& contract.wf()
            &&& text_nul_free(generic_tick_list)
            &&& forall|i: int|
                0 <= i < mkt_data_options.len() ==> (#[trigger] mkt_data_options[i]).wf()
        },
        RequestV::ReqOpenOrders => true,
        RequestV::ReqAcctData { acct_code, .. } => text_nul_free(acct_code),
        RequestV::ReqAllOpenOrders => true,
        RequestV::ReqPositions => true,
        RequestV::StartApi { optional_capabilities, .. } => text_nul_free(optional_capabilities),
    }
}

/// The bytes of a combo-leg list's elements, in order.
pub open spec fn spec_write_combo_leg_items(s: Seq<ComboLegV>) -> Seq<u8>
    decreases s.len(),
{
    if s.len() == 0 {
        Seq::empty()
    } else {
        spec_write_combo_leg(s[0]) + spec_write_combo_leg_items(s.drop_first())
    }
}

proof fn lemma_combo_leg_items_snoc(s: Seq<ComboLegV>, x: ComboLegV)
    ensures
        spec_write_combo_leg_items(s.push(x)) == spec_write_combo_leg_items(s)
            + spec_write_combo_leg(x),
    decreases s.len(),
{
    if s.len() == 0 {
        assert(s.push(x)[0] == x);
        assert(s.push(x).drop_first() =~= Seq::<ComboLegV>::empty());
        assert(spec_write_combo_leg_items(Seq::<ComboLegV>::empty()) =~= Seq::<u8>::empty());
        assert(spec_write_combo_leg_items(s.push(x)) =~= spec_write_combo_leg(x));
        assert(spec_write_combo_leg_items(s) + spec_write_combo_leg(x) =~= spec_write_combo_leg(
            x,
        ));
    } else {
        assert(s.push(x).drop_first() =~= s.drop_first().push(x));
        lemma_combo_leg_items_snoc(s.drop_first(), x);
        assert(s.push(x)[0] == s[0]);
        assert(spec_write_combo_leg(s[0]) + (spec_write_combo_leg_items(s.drop_first())
            + spec_write_combo_leg(x)) =~= (spec_write_combo_leg(s[0])
            + spec_write_combo_leg_items(s.drop_first())) + spec_write_combo_leg(x));
    }
}

/// A combo-leg list: its element count, then each leg.
pub open spec fn spec_write_combo_legs(s: Seq<ComboLegV>) -> Seq<u8> {
    spec_write_u64(s.len() as u64) + spec_write_combo_leg_items(s)
}

/// Writes a counted combo-leg list.
pub fn write_combo_legs(ser: &mut Serializer, v: &Vec<ComboLeg>)
    requires
        forall|i: int| 0 <= i < v@.len() ==> (#[trigger] v@[i])@.wf(),
    ensures
        final(ser)@ == old(ser)@ + spec_write_combo_legs(v@.map_values(|l: ComboLeg| l@)),
{
    let ghost legs = v@.map_values(|l: ComboLeg| l@);
    ser.write_u64(v.len() as u64);
    let mut i: usize = 0;
    assert(legs.take(0) =~= Seq::<ComboLegV>::empty());
    while i < v.len()
        invariant
            0 <= i <= v@.len(),
            legs == v@.map_values(|l: ComboLeg| l@),
            legs.len() == v@.len(),
            forall|j: int| 0 <= j < v@.len() ==> (#[trigger] v@[j])@.wf(),
            ser@ == old(ser)@ + spec_write_u64(v@.len() as u64) + spec_write_combo_leg_items(
                legs.take(i as int),
            ),
        decreases v@.len() - i,
    {
        write_combo_leg(ser, &v[i]);
        proof {
            lemma_combo_leg_items_snoc(legs.take(i as int), legs[i as int]);
            assert(legs.take(i as int).push(legs[i as int]) =~= legs.take(i as int + 1));
        }
        i = i + 1;
    }
    assert(legs.take(v@.len() as int) =~= legs);
}

/// The bytes of a tag/value list's elements, in order.
pub open spec fn spec_write_tag_value_items(s: Seq<TagValueV>) -> Seq<u8>
    decreases s.len(),
{
    if s.len() == 0 {
        Seq::empty()
    } else {
        spec_write_tag_value(s[0]) + spec_write_tag_value_items(s.drop_first())
    }
}

proof fn lemma_tag_value_items_snoc(s: Seq<TagValueV>, x: TagValueV)
    ensures
        spec_write_tag_value_items(s.push(x)) == spec_write_tag_value_items(s)
            + spec_write_tag_value(x),
    decreases s.len(),
{
    if s.len() == 0 {
        assert(s.push(x)[0] == x);
        assert(s.push(x).drop_first() =~= Seq::<TagValueV>::empty());
        assert(spec_write_tag_value_items(Seq::<TagValueV>::empty()) =~= Seq::<u8>::empty());
        assert(spec_write_tag_value_items(s.push(x)) =~= spec_write_tag_value(x));
        assert(spec_write_tag_value_items(s) + spec_write_tag_value(x) =~= spec_write_tag_value(
            x,
        ));
    } else {
        assert(s.push(x).drop_first() =~= s.drop_first().push(x));
        lemma_tag_value_items_snoc(s.drop_first(), x);
        assert(s.push(x)[0] == s[0]);
        assert(spec_write_tag_value(s[0]) + (spec_write_tag_value_items(s.drop_first())
            + spec_write_tag_value(x)) =~= (spec_write_tag_value(s[0])
            + spec_write_tag_value_items(s.drop_first())) + spec_write_tag_value(x));
    }
}

/// A tag/value list: its element count, then each pair.
pub open spec fn spec_write_tag_values(s: Seq<TagValueV>) -> Seq<u8> {
    spec_write_u64(s.len() as u64) + spec_write_tag_value_items(s)
}

/// Writes a counted tag/value list.
pub fn write_tag_values(ser: &mut Serializer, v: &Vec<TagValue>)
    requires
        forall|i: int| 0 <= i < v@.len() ==> (#[trigger] v@[i])@.wf(),
    ensures
        final(ser)@ == old(ser)@ + spec_write_tag_values(v@.map_values(|t: TagValue| t@)),
{
    let ghost items = v@.map_values(|t: TagValue| t@);
    ser.write_u64(v.len() as u64);
    let mut i: usize = 0;
    assert(items.take(0) =~= Seq::<TagValueV>::empty());
    while i < v.len()
        invariant
            0 <= i <= v@.len(),
            items == v@.map_values(|t: TagValue| t@),
            items.len() == v@.len(),
            forall|j: int| 0 <= j < v@.len() ==> (#[trigger] v@[j])@.wf(),
            ser@ == old(ser)@ + spec_write_u64(v@.len() as u64) + spec_write_tag_value_items(
                items.take(i as int),
            ),
        decreases v@.len() - i,
    {
        write_tag_value(ser, &v[i]);
        proof {
            lemma_tag_value_items_snoc(items.take(i as int), items[i as int]);
            assert(items.take(i as int).push(items[i as int]) =~= items.take(i as int + 1));
        }
        i = i + 1;
    }
    assert(items.take(v@.len() as int) =~= items);
}

proof fn lemma_rt_tag_value_items(items: Seq<TagValueV>, rest: Seq<u8>)
    requires
        forall|i: int| 0 <= i < items.len() ==> (#[trigger] items[i]).wf(),
    ensures
        crate::types::spec_read_tag_value_items(spec_write_tag_value_items(items) + rest, items.len())
            == Some((items, rest)),
    decreases items.len(),
{
    if items.len() == 0 {
        assert(spec_write_tag_value_items(items) + rest =~= rest);
    } else {
        let tail_bytes = spec_write_tag_value_items(items.drop_first()) + rest;
        assert(spec_write_tag_value_items(items) + rest =~= spec_write_tag_value(items[0])
            + tail_bytes);
        crate::types::lemma_rt_tag_value(items[0], tail_bytes);
        assert(forall|i: int|
            0 <= i < items.drop_first().len() ==> (#[trigger] items.drop_first()[i]).wf()) by {
            assert(forall|i: int|
                0 <= i < items.drop_first().len() ==> items.drop_first()[i] == items[i + 1]);
        }
        lemma_rt_tag_value_items(items.drop_first(), rest);
        assert(seq![items[0]] + items.drop_first() =~= items);
    }
}

/// The sequence-schema round trip: a counted tag/value list reads back as
/// exactly the list that was written, leaving the rest of the stream.
pub proof fn lemma_rt_tag_values(items: Seq<TagValueV>, rest: Seq<u8>)
    requires
        forall|i: int| 0 <= i < items.len() ==> (#[trigger] items[i]).wf(),
        items.len() <= usize::MAX,
    ensures
        crate::types::spec_read_tag_values(spec_write_tag_values(items) + rest) == Some(
            (items, rest),
        ),
{
    let body = spec_write_tag_value_items(items) + rest;
    assert(spec_write_tag_values(items) + rest =~= spec_write_u64(items.len() as u64) + body);
    crate::ser::lemma_rt_count(items.len() as usize, body);
    lemma_rt_tag_value_items(items, rest);
}

/// Writes one whole request: its tag and version tokens, then its fields.
///
/// In a market-data request the contract's twelve descriptive fields come
/// first, then its combo legs, then a flag that says whether a delta-neutral
/// contract is attached — the flag is a function of the option's presence.
pub open spec fn spec_write_request(r: RequestV) -> Seq<u8> {
    match r {
        RequestV::Unset => tok(vstd::utf8::encode_utf8("None"@)),
        RequestV::ReqMktData {
            ticker_id,
            contract,
            generic_tick_list,
            snapshot,
            regulatory_snapshot,
            mkt_data_options,
        } => tok(dec_nat(1nat)) + tok(dec_nat(11nat)) + spec_write_i32(ticker_id)
            + spec_write_contract_mkt(contract) + spec_write_combo_legs(contract.combo_legs)
            + spec_write_bool(contract.delta_neutral_contract is Some) + spec_write_text(
            generic_tick_list,
        ) + spec_write_bool(snapshot) + spec_write_bool(regulatory_snapshot)
            + spec_write_tag_values(mkt_data_options),
        RequestV::ReqOpenOrders => tok(dec_nat(5nat)) + tok(dec_nat(1nat)),
        RequestV::ReqAcctData { subscribe, acct_code } => tok(dec_nat(6nat)) + tok(dec_nat(2nat))
            + spec_write_bool(subscribe) + spec_write_text(acct_code),
        RequestV::ReqAllOpenOrders => tok(dec_nat(16nat)) + tok(dec_nat(1nat)),
        RequestV::ReqPositions => tok(dec_nat(61nat)) + tok(dec_nat(1nat)),
        RequestV::StartApi { client_id, optional_capabilities } => tok(dec_nat(71nat)) + tok(
            dec_nat(2nat),
        ) + spec_write_i32(client_id) + spec_write_text(optional_capabilities),
    }
}

/// Encodes one request into the bytes its frame will carry.
///
/// Encoding is total on well-formed requests: it never fails.
pub fn to_bytes(r: &Request) -> (out: Vec<u8>)
    requires
        request_wf(r@),
    ensures
        out@ == spec_write_request(r@),
{
    let mut ser = Serializer::new();
    match r {
        Request::Unset => {
            let s = String::from_str("None");
            proof {
                reveal_strlit("None");
            }
            ser.write_str(&s);
        },
        Request::ReqMktData {
            ticker_id,
            contract,
            generic_tick_list,
            snapshot,
            regulatory_snapshot,
            mkt_data_options,
        } => {
            proof {
                let ghost items = mkt_data_options@.map_values(|t: TagValue| t@);
                assert(r@ matches RequestV::ReqMktData { mkt_data_options: mo, .. } && mo == items);
                assert forall|i: int|
                    0 <= i < mkt_data_options@.len() implies ((
                #[trigger] mkt_data_options@[i])@).wf() by {
                    assert(items[i] == mkt_data_options@[i]@);
                    assert(items[i].wf());
                }
            }
            write_req_mkt_data(
                &mut ser,
                *ticker_id,
                contract,
                generic_tick_list,
                *snapshot,
                *regulatory_snapshot,
                mkt_data_options,
            );
        },
        Request::ReqOpenOrders => {
            write_tag_tokens(&mut ser, 5, 1);
        },
        Request::ReqAcctData { subscribe, acct_code } => {
            write_tag_tokens(&mut ser, 6, 2);
            ser.write_bool(*subscribe);
            ser.write_str(acct_code);
        },
        Request::ReqAllOpenOrders => {
            write_tag_tokens(&mut ser, 16, 1);
        },
        Request::ReqPositions => {
            write_tag_tokens(&mut ser, 61, 1);
        },
        Request::StartApi { client_id, optional_capabilities } => {
            write_tag_tokens(&mut ser, 71, 2);
            ser.write_i32(*client_id);
            ser.write_str(optional_capabilities);
        },
    }
    let out = ser.into_bytes();
    assert(out@ =~= spec_write_request(r@));
    out
}

/// Writes the body of a market-data request, after its tag and version.
fn write_req_mkt_data(
    ser: &mut Serializer,
    ticker_id: i32,
    contract: &Contract,
    generic_tick_list: &String,
    snapshot: bool,
    regulatory_snapshot: bool,
    mkt_data_options: &Vec<TagValue>,
)
    requires
        contract@.wf(),
        text_nul_free(generic_tick_list@),
        forall|i: int| 0 <= i < mkt_data_options@.len() ==> ((#[trigger] mkt_data_options@[i])@).wf(),
    ensures
        final(ser)@ == old(ser)@ + tok(dec_nat(1nat)) + tok(dec_nat(11nat)) + spec_write_i32(
            ticker_id,
        ) + spec_write_contract_mkt(contract@) + spec_write_combo_legs(contract@.combo_legs)
            + spec_write_bool(contract@.delta_neutral_contract is Some) + spec_write_text(
            generic_tick_list@,
        ) + spec_write_bool(snapshot) + spec_write_bool(regulatory_snapshot)
            + spec_write_tag_values(mkt_data_options@.map_values(|t: TagValue| t@)),
{
    proof {
        let legs = contract@.combo_legs;
        assert forall|i: int|
            0 <= i < contract.combo_legs@.len() implies ((
        #[trigger] contract.combo_legs@[i])@).wf() by {
            assert(legs[i] == contract.combo_legs@[i]@);
            assert(legs[i].wf());
        }
        assert(contract@.combo_legs =~= contract.combo_legs@.map_values(|l: ComboLeg| l@));
    }
    write_tag_tokens(ser, 1, 11);
    ser.write_i32(ticker_id);
    write_contract_mkt(ser, contract);
    write_combo_legs(ser, &contract.combo_legs);
    let has_dnc = match &contract.delta_neutral_contract {
        Option::Some(_) => true,
        Option::None => false,
    };
    ser.write_bool(has_dnc);
    ser.write_str(generic_tick_list);
    ser.write_bool(snapshot);
    ser.write_bool(regulatory_snapshot);
    write_tag_values(ser, mkt_data_options);
}

/// Writes a request's tag and schema-version tokens.
fn write_tag_tokens(ser: &mut Serializer, tag: u64, version: u64)
    ensures
        final(ser)@ == old(ser)@ + tok(dec_nat(tag as nat)) + tok(dec_nat(version as nat)),
{
    let t = crate::de::fmt_u64_exec(tag);
    proof {
        lemma_dec_nat_digits(tag as nat);
        lemma_dec_nat_digits(version as nat);
    }
    ser.write_token(&t);
    let v = crate::de::fmt_u64_exec(version);
    ser.write_token(&v);
}

/// Whether the request is well-formed, checked at run time: every text
/// field is NUL-free.
pub fn request_wf_check(r: &Request) -> (ok: bool)
    ensures
        ok == request_wf(r@),
{
    match r {
        Request::Unset => true,
        Request::ReqMktData { contract, generic_tick_list, mkt_data_options, .. } => {
            if !contract_wf_check(contract) {
                return false;
            }
            if !string_token_ok(generic_tick_list) {
                return false;
            }
            let ghost items = mkt_data_options@.map_values(|t: TagValue| t@);
            proof {
                assert(r@ matches RequestV::ReqMktData { mkt_data_options: mo, .. } && mo
                    == items);
                assert(forall|i: int|
                    0 <= i < items.len() ==> #[trigger] items[i] == mkt_data_options@[i]@);
            }
            let ok = tag_values_wf_check(mkt_data_options);
            proof {
                if ok {
                    assert forall|i: int| 0 <= i < items.len() implies (
                    #[trigger] items[i]).wf() by {
                        assert(items[i] == mkt_data_options@[i]@);
                        assert((mkt_data_options@[i]@).wf());
                    }
                } else {
                    let i = choose|i: int|
                        !(0 <= i < mkt_data_options@.len() ==> (#[trigger] mkt_data_options@[i])@.wf());
                    assert(!items[i].wf());
                }
            }
            ok
        },
        Request::ReqOpenOrders => true,
        Request::ReqAcctData { acct_code, .. } => string_token_ok(acct_code),
        Request::ReqAllOpenOrders => true,
        Request::ReqPositions => true,
        Request::StartApi { optional_capabilities, .. } => string_token_ok(optional_capabilities),
    }
}

/// Whether every pair of the list is well-formed.
fn tag_values_wf_check(v: &Vec<TagValue>) -> (ok: bool)
    ensures
        ok == (forall|i: int| 0 <= i < v@.len() ==> (#[trigger] v@[i])@.wf()),
{
    let mut i: usize = 0;
    while i < v.len()
        invariant
            0 <= i <= v@.len(),
            forall|j: int| 0 <= j < i ==> (#[trigger] v@[j])@.wf(),
        decreases v@.len() - i,
    {
        if !string_token_ok(&v[i].tag) || !string_token_ok(&v[i].value) {
            return false;
        }
        i = i + 1;
    }
    true
}

/// Whether every leg of the list is well-formed.
fn combo_legs_wf_check(v: &Vec<ComboLeg>) -> (ok: bool)
    ensures
        ok == (forall|i: int| 0 <= i < v@.len() ==> (#[trigger] v@[i])@.wf()),
{
    let mut i: usize = 0;
    while i < v.len()
        invariant
            0 <= i <= v@.len(),
            forall|j: int| 0 <= j < i ==> (#[trigger] v@[j])@.wf(),
        decreases v@.len() - i,
    {
        if !string_token_ok(&v[i].exchange) || !string_token_ok(&v[i].designated_location) {
            return false;
        }
        i = i + 1;
    }
    true
}

/// Whether every text field of the contract is NUL-free.
pub fn contract_wf_check(c: &Contract) -> (ok: bool)
    ensures
        ok == c@.wf(),
{
    proof {
        assert(forall|i: int|
            0 <= i < c.combo_legs@.len() ==> (#[trigger] c.combo_legs@[i])@
                == c@.combo_legs[i]);
    }
    string_token_ok(&c.symbol) && string_token_ok(&c.sec_type) && string_token_ok(
        &c.last_trade_date_or_contract_month,
    ) && string_token_ok(&c.strike) && string_token_ok(&c.multiplier) && string_token_ok(
        &c.exchange,
    ) && string_token_ok(&c.primary_exch) && string_token_ok(&c.currency) && string_token_ok(
        &c.local_symbol,
    ) && string_token_ok(&c.trading_class) && string_token_ok(&c.sec_id_type) && string_token_ok(
        &c.sec_id,
    ) && string_token_ok(&c.combo_legs_descrip) && combo_legs_wf_check(&c.combo_legs)
}

} // verus!
