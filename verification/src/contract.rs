//! Contract records: the instrument descriptions that messages and requests
//! carry.
//!
//! Price-like fields (`strike`, `delta`, `price`) travel as decimal text and
//! are kept as their wire text here; interpreting them numerically is the
//! caller's concern. Inbound message schemas carry fixed subsets of the full
//! contract (`PositionDataContract`, `PortfolioValueContract`) which widen
//! into a `Contract` with every other field at its default.

use vstd::prelude::*;

use crate::de::Deserializer;
use crate::de::spec_read_i32;
use crate::de::spec_read_text;
use crate::error::Error;
use crate::error::malformed;
use crate::num::dec_nat;
use crate::ser::Serializer;
use crate::ser::spec_write_i32;
use crate::ser::spec_write_text;
use crate::ser::spec_write_bool;
use crate::text::text_nul_free;
use crate::token::tok;
use crate::types::Action;
use crate::types::Right;
use crate::types::read_right;
use crate::types::spec_read_right;
use crate::types::spec_write_action;
use crate::types::spec_write_right;
use crate::types::write_action;
use crate::types::write_right;

verus! {

/// An instrument description.
#[derive(Clone, Debug, Default, PartialEq)]
pub struct Contract {
    pub conid: i32,
    pub symbol: String,
    pub sec_type: String,
    pub last_trade_date_or_contract_month: String,
    /// The strike price, as its wire text.
    pub strike: String,
    pub right: Right,
    pub multiplier: String,
    pub exchange: String,
    /// A non-aggregate exchange the contract trades on.
    pub primary_exch: String,
    pub currency: String,
    pub local_symbol: String,
    pub trading_class: String,
    pub sec_id_type: String,
    pub sec_id: String,
    pub delta_neutral_contract: Option<DeltaNeutralContract>,
    /// Cannot be set for orders.
    pub include_expired: bool,
    /// Received in open-order reports for all combos.
    pub combo_legs_descrip: String,
    pub combo_legs: Vec<ComboLeg>,
}

/// The abstract value of a `Contract`.
pub struct ContractV {
    pub conid: i32,
    pub symbol: Seq<char>,
    pub sec_type: Seq<char>,
    pub last_trade_date_or_contract_month: Seq<char>,
    pub strike: Seq<char>,
    pub right: Right,
    pub multiplier: Seq<char>,
    pub exchange: Seq<char>,
    pub primary_exch: Seq<char>,
    pub currency: Seq<char>,
    pub local_symbol: Seq<char>,
    pub trading_class: Seq<char>,
    pub sec_id_type: Seq<char>,
    pub sec_id: Seq<char>,
    pub delta_neutral_contract: Option<DeltaNeutralContractV>,
    pub include_expired: bool,
    pub combo_legs_descrip: Seq<char>,
    pub combo_legs: Seq<ComboLegV>,
}

impl View for Contract {
    type V = ContractV;

    open spec fn view(&self) -> ContractV {
        ContractV {
            conid: self.conid,
            symbol: self.symbol@,
            sec_type: self.sec_type@,
            last_trade_date_or_contract_month: self.last_trade_date_or_contract_month@,
            strike: self.strike@,
            right: self.right,
            multiplier: self.multiplier@,
            exchange: self.exchange@,
            primary_exch: self.primary_exch@,
            currency: self.currency@,
            local_symbol: self.local_symbol@,
            trading_class: self.trading_class@,
            sec_id_type: self.sec_id_type@,
            sec_id: self.sec_id@,
            delta_neutral_contract: match self.delta_neutral_contract {
                Option::Some(ref d) => Option::Some(d@),
                Option::None => Option::None,
            },
            include_expired: self.include_expired,
            combo_legs_descrip: self.combo_legs_descrip@,
            combo_legs: self.combo_legs@.map_values(|l: ComboLeg| l@),
        }
    }
}

impl ContractV {
    /// Every text field can stand as a wire token.
    pub open spec fn wf(self) -> bool {
        &&& text_nul_free(self.symbol)
        &&& text_nul_free(self.sec_type)
        &&& text_nul_free(self.last_trade_date_or_contract_month)
        &&& text_nul_free(self.strike)
        &&& text_nul_free(self.multiplier)
        &&& text_nul_free(self.exchange)
        &&& text_nul_free(self.primary_exch)
        &&& text_nul_free(self.currency)
        &&& text_nul_free(self.local_symbol)
        &&& text_nul_free(self.trading_class)
        &&& text_nul_free(self.sec_id_type)
        &&& text_nul_free(self.sec_id)
        &&& text_nul_free(self.combo_legs_descrip)
        &&& forall|i: int| 0 <= i < self.combo_legs.len() ==> (#[trigger] self.combo_legs[i]).wf()
    }

    /// The shape a contract decoded from a position-data record has: only
    /// the eleven fields of that record are set, everything else is at its
    /// default.
    pub open spec fn position_form(self) -> bool {
        &&& self.primary_exch == Seq::<char>::empty()
        &&& self.sec_id_type == Seq::<char>::empty()
        &&& self.sec_id == Seq::<char>::empty()
        &&& self.delta_neutral_contract is None
        &&& !self.include_expired
        &&& self.combo_legs_descrip == Seq::<char>::empty()
        &&& self.combo_legs == Seq::<ComboLegV>::empty()
    }
}

impl Contract {
    /// Whether this contract is a combination of legs.
    pub fn is_combo(&self) -> (r: bool)
        ensures
            r == (self@.combo_legs.len() > 0),
    {
        self.combo_legs.len() > 0
    }
}

/// An offsetting contract for delta-neutral orders; `delta` and `price`
/// travel as decimal text.
#[derive(Clone, Debug, Default, PartialEq)]
pub struct DeltaNeutralContract {
    pub conid: i32,
    pub delta: String,
    pub price: String,
}

/// The abstract value of a `DeltaNeutralContract`.
pub struct DeltaNeutralContractV {
    pub conid: i32,
    pub delta: Seq<char>,
    pub price: Seq<char>,
}

impl View for DeltaNeutralContract {
    type V = DeltaNeutralContractV;

    open spec fn view(&self) -> DeltaNeutralContractV {
        DeltaNeutralContractV { conid: self.conid, delta: self.delta@, price: self.price@ }
    }
}

/// How a combo leg's open/close marker travels: one digit token.
#[derive(Clone, Copy, Debug, Default, PartialEq, Eq, Structural)]
pub enum LegOpenClose {
    /// The leg's value is the same as the combo's.
    #[default]
    Same,
    Open,
    Close,
    Unknown,
}

/// The digit a `LegOpenClose` travels as.
pub open spec fn leg_open_close_num(v: LegOpenClose) -> u64 {
    match v {
        LegOpenClose::Same => 0,
        LegOpenClose::Open => 1,
        LegOpenClose::Close => 2,
        LegOpenClose::Unknown => 3,
    }
}

#[derive(Clone, Copy, Debug, Default, PartialEq, Eq, Structural)]
pub enum ShortSaleSlot {
    #[default]
    Unset,
    ClearingBroker,
    ThirdParty,
}

/// The digit a `ShortSaleSlot` travels as.
pub open spec fn short_sale_slot_num(v: ShortSaleSlot) -> u64 {
    match v {
        ShortSaleSlot::Unset => 0,
        ShortSaleSlot::ClearingBroker => 1,
        ShortSaleSlot::ThirdParty => 2,
    }
}

/// One leg of a combination contract.
#[derive(Clone, Debug, PartialEq)]
pub struct ComboLeg {
    pub con_id: i32,
    pub ratio: i32,
    pub action: Action,
    pub exchange: String,
    pub open_close: LegOpenClose,
    /// For stock legs of a short sale.
    pub short_sale_slot: ShortSaleSlot,
    pub designated_location: String,
    pub exempt_code: i32,
}

/// The abstract value of a `ComboLeg`.
pub struct ComboLegV {
    pub con_id: i32,
    pub ratio: i32,
    pub action: Action,
    pub exchange: Seq<char>,
    pub open_close: LegOpenClose,
    pub short_sale_slot: ShortSaleSlot,
    pub designated_location: Seq<char>,
    pub exempt_code: i32,
}

impl View for ComboLeg {
    type V = ComboLegV;

    open spec fn view(&self) -> ComboLegV {
        ComboLegV {
            con_id: self.con_id,
            ratio: self.ratio,
            action: self.action,
            exchange: self.exchange@,
            open_close: self.open_close,
            short_sale_slot: self.short_sale_slot,
            designated_location: self.designated_location@,
            exempt_code: self.exempt_code,
        }
    }
}

impl ComboLegV {
    /// Every text field can stand as a wire token.
    pub open spec fn wf(self) -> bool {
        text_nul_free(self.exchange) && text_nul_free(self.designated_location)
    }
}

impl Default for ComboLeg {
    /// A leg with everything unset; the exempt code's neutral value is -1.
    fn default() -> (r: ComboLeg)
        ensures
            r.con_id == 0 && r.ratio == 0 && r.action == Action::Unset,
            r.exchange@ == Seq::<char>::empty(),
            r.open_close == LegOpenClose::Same,
            r.short_sale_slot == ShortSaleSlot::Unset,
            r.designated_location@ == Seq::<char>::empty(),
            r.exempt_code == -1,
    {
        ComboLeg {
            con_id: 0,
            ratio: 0,
            action: Action::Unset,
            exchange: String::new(),
            open_close: LegOpenClose::Same,
            short_sale_slot: ShortSaleSlot::Unset,
            designated_location: String::new(),
            exempt_code: -1,
        }
    }
}

/// Writes one combo leg: its eight fields in declaration order.
pub open spec fn spec_write_combo_leg(l: ComboLegV) -> Seq<u8> {
    spec_write_i32(l.con_id) + spec_write_i32(l.ratio) + spec_write_action(l.action)
        + spec_write_text(l.exchange) + tok(dec_nat(leg_open_close_num(l.open_close) as nat)) + tok(
        dec_nat(short_sale_slot_num(l.short_sale_slot) as nat),
    ) + spec_write_text(l.designated_location) + spec_write_i32(l.exempt_code)
}

pub fn write_combo_leg(ser: &mut Serializer, l: &ComboLeg)
    requires
        l@.wf(),
    ensures
        final(ser)@ == old(ser)@ + spec_write_combo_leg(l@),
{
    ser.write_i32(l.con_id);
    ser.write_i32(l.ratio);
    write_action(ser, l.action);
    ser.write_str(&l.exchange);
    let oc: u64 = match l.open_close {
        LegOpenClose::Same => 0,
        LegOpenClose::Open => 1,
        LegOpenClose::Close => 2,
        LegOpenClose::Unknown => 3,
    };
    ser.write_u64(oc);
    let slot: u64 = match l.short_sale_slot {
        ShortSaleSlot::Unset => 0,
        ShortSaleSlot::ClearingBroker => 1,
        ShortSaleSlot::ThirdParty => 2,
    };
    ser.write_u64(slot);
    ser.write_str(&l.designated_location);
    ser.write_i32(l.exempt_code);
    assert(final(ser)@ =~= old(ser)@ + spec_write_combo_leg(l@));
}

/// The contract fields a position-data record carries, in wire order.
#[derive(Clone, Debug, Default, PartialEq)]
pub struct PositionDataContract {
    pub conid: i32,
    pub symbol: String,
    pub sec_type: String,
    pub last_trade_date_or_contract_month: String,
    /// The strike price, as its wire text.
    pub strike: String,
    pub right: Right,
    pub multiplier: String,
    pub exchange: String,
    pub currency: String,
    pub local_symbol: String,
    pub trading_class: String,
}

/// The abstract value of a `PositionDataContract`.
pub struct PositionDataContractV {
    pub conid: i32,
    pub symbol: Seq<char>,
    pub sec_type: Seq<char>,
    pub last_trade_date_or_contract_month: Seq<char>,
    pub strike: Seq<char>,
    pub right: Right,
    pub multiplier: Seq<char>,
    pub exchange: Seq<char>,
    pub currency: Seq<char>,
    pub local_symbol: Seq<char>,
    pub trading_class: Seq<char>,
}

impl View for PositionDataContract {
    type V = PositionDataContractV;

    open spec fn view(&self) -> PositionDataContractV {
        PositionDataContractV {
            conid: self.conid,
            symbol: self.symbol@,
            sec_type: self.sec_type@,
            last_trade_date_or_contract_month: self.last_trade_date_or_contract_month@,
            strike: self.strike@,
            right: self.right,
            multiplier: self.multiplier@,
            exchange: self.exchange@,
            currency: self.currency@,
            local_symbol: self.local_symbol@,
            trading_class: self.trading_class@,
        }
    }
}

/// The contract a position-data record denotes: its eleven fields, with
/// every other contract field at its default.
pub open spec fn contract_of_position(c: PositionDataContractV) -> ContractV {
    ContractV {
        conid: c.conid,
        symbol: c.symbol,
        sec_type: c.sec_type,
        last_trade_date_or_contract_month: c.last_trade_date_or_contract_month,
        strike: c.strike,
        right: c.right,
        multiplier: c.multiplier,
        exchange: c.exchange,
        primary_exch: Seq::empty(),
        currency: c.currency,
        local_symbol: c.local_symbol,
        trading_class: c.trading_class,
        sec_id_type: Seq::empty(),
        sec_id: Seq::empty(),
        delta_neutral_contract: Option::None,
        include_expired: false,
        combo_legs_descrip: Seq::empty(),
        combo_legs: Seq::empty(),
    }
}

impl PositionDataContract {
    /// Widens into a full contract, every extra field at its default.
    pub fn into_contract(self) -> (r: Contract)
        ensures
            r@ == contract_of_position(self@),
    {
        let r = Contract {
            conid: self.conid,
            symbol: self.symbol,
            sec_type: self.sec_type,
            last_trade_date_or_contract_month: self.last_trade_date_or_contract_month,
            strike: self.strike,
            right: self.right,
            multiplier: self.multiplier,
            exchange: self.exchange,
            primary_exch: String::new(),
            currency: self.currency,
            local_symbol: self.local_symbol,
            trading_class: self.trading_class,
            sec_id_type: String::new(),
            sec_id: String::new(),
            delta_neutral_contract: Option::None,
            include_expired: false,
            combo_legs_descrip: String::new(),
            combo_legs: Vec::new(),
        };
        proof {
            assert(r@.combo_legs =~= Seq::<ComboLegV>::empty());
        }
        r
    }
}

/// Reads the eleven contract fields of a position-data record.
pub open spec fn spec_read_position_contract(s: Seq<u8>) -> Option<
    (PositionDataContractV, Seq<u8>),
> {
    match spec_read_i32(s) {
        Option::None => Option::None,
        Option::Some((conid, s)) => match spec_read_text(s) {
            Option::None => Option::None,
            Option::Some((symbol, s)) => match spec_read_text(s) {
                Option::None => Option::None,
                Option::Some((sec_type, s)) => match spec_read_text(s) {
                    Option::None => Option::None,
                    Option::Some((ltd, s)) => match spec_read_text(s) {
                        Option::None => Option::None,
                        Option::Some((strike, s)) => match spec_read_right(s) {
                            Option::None => Option::None,
                            Option::Some((right, s)) => match spec_read_text(s) {
                                Option::None => Option::None,
                                Option::Some((multiplier, s)) => match spec_read_text(s) {
                                    Option::None => Option::None,
                                    Option::Some((exchange, s)) => match spec_read_text(s) {
                                        Option::None => Option::None,
                                        Option::Some((currency, s)) => match spec_read_text(s) {
                                            Option::None => Option::None,
                                            Option::Some((local_symbol, s)) => match spec_read_text(
                                                s,
                                            ) {
                                                Option::None => Option::None,
                                                Option::Some((trading_class, s)) => Option::Some(
                                                    (
                                                        PositionDataContractV {
                                                            conid,
                                                            symbol,
                                                            sec_type,
                                                            last_trade_date_or_contract_month: ltd,
                                                            strike,
                                                            right,
                                                            multiplier,
                                                            exchange,
                                                            currency,
                                                            local_symbol,
                                                            trading_class,
                                                        },
                                                        s,
                                                    ),
                                                ),
                                            },
                                        },
                                    },
                                },
                            },
                        },
                    },
                },
            },
        },
    }
}

/// Writes the eleven contract fields of a position-data record.
pub open spec fn spec_write_position_contract(c: PositionDataContractV) -> Seq<u8> {
    spec_write_i32(c.conid) + spec_write_text(c.symbol) + spec_write_text(c.sec_type)
        + spec_write_text(c.last_trade_date_or_contract_month) + spec_write_text(c.strike)
        + spec_write_right(c.right) + spec_write_text(c.multiplier) + spec_write_text(c.exchange)
        + spec_write_text(c.currency) + spec_write_text(c.local_symbol) + spec_write_text(
        c.trading_class,
    )
}

pub fn read_position_contract(d: &mut Deserializer) -> (r: Result<PositionDataContract, Error>)
    requires
        old(d).wf(),
    ensures
        final(d).wf(),
        match spec_read_position_contract(old(d)@) {
            Option::Some((v, rest)) => r matches Ok(x) && x@ == v && final(d)@ == rest,
            Option::None => r is Err,
        },
{
    let conid = match d.read_i32() {
        Ok(v) => v,
        Err(e) => { return Err(e) },
    };
    let symbol = match d.read_text() {
        Ok(v) => v,
        Err(e) => { return Err(e) },
    };
    let sec_type = match d.read_text() {
        Ok(v) => v,
        Err(e) => { return Err(e) },
    };
    let ltd = match d.read_text() {
        Ok(v) => v,
        Err(e) => { return Err(e) },
    };
    let strike = match d.read_text() {
        Ok(v) => v,
        Err(e) => { return Err(e) },
    };
    let right = match read_right(d) {
        Ok(v) => v,
        Err(e) => { return Err(e) },
    };
    let multiplier = match d.read_text() {
        Ok(v) => v,
        Err(e) => { return Err(e) },
    };
    let exchange = match d.read_text() {
        Ok(v) => v,
        Err(e) => { return Err(e) },
    };
    let currency = match d.read_text() {
        Ok(v) => v,
        Err(e) => { return Err(e) },
    };
    let local_symbol = match d.read_text() {
        Ok(v) => v,
        Err(e) => { return Err(e) },
    };
    let trading_class = match d.read_text() {
        Ok(v) => v,
        Err(e) => { return Err(e) },
    };
    Ok(
        PositionDataContract {
            conid,
            symbol,
            sec_type,
            last_trade_date_or_contract_month: ltd,
            strike,
            right,
            multiplier,
            exchange,
            currency,
            local_symbol,
            trading_class,
        },
    )
}

pub fn write_position_contract(ser: &mut Serializer, c: &PositionDataContract)
    requires
        text_nul_free(c.symbol@),
        text_nul_free(c.sec_type@),
        text_nul_free(c.last_trade_date_or_contract_month@),
        text_nul_free(c.strike@),
        text_nul_free(c.multiplier@),
        text_nul_free(c.exchange@),
        text_nul_free(c.currency@),
        text_nul_free(c.local_symbol@),
        text_nul_free(c.trading_class@),
    ensures
        final(ser)@ == old(ser)@ + spec_write_position_contract(c@),
{
    ser.write_i32(c.conid);
    ser.write_str(&c.symbol);
    ser.write_str(&c.sec_type);
    ser.write_str(&c.last_trade_date_or_contract_month);
    ser.write_str(&c.strike);
    write_right(ser, c.right);
    ser.write_str(&c.multiplier);
    ser.write_str(&c.exchange);
    ser.write_str(&c.currency);
    ser.write_str(&c.local_symbol);
    ser.write_str(&c.trading_class);
    assert(final(ser)@ =~= old(ser)@ + spec_write_position_contract(c@));
}

/// A position-data contract reads back as itself.
pub proof fn lemma_rt_position_contract(c: PositionDataContractV, rest: Seq<u8>)
    requires
        text_nul_free(c.symbol),
        text_nul_free(c.sec_type),
        text_nul_free(c.last_trade_date_or_contract_month),
        text_nul_free(c.strike),
        text_nul_free(c.multiplier),
        text_nul_free(c.exchange),
        text_nul_free(c.currency),
        text_nul_free(c.local_symbol),
        text_nul_free(c.trading_class),
    ensures
        spec_read_position_contract(spec_write_position_contract(c) + rest) == Some((c, rest)),
{
    let r10 = spec_write_text(c.trading_class) + rest;
    let r9 = spec_write_text(c.local_symbol) + r10;
    let r8 = spec_write_text(c.currency) + r9;
    let r7 = spec_write_text(c.exchange) + r8;
    let r6 = spec_write_text(c.multiplier) + r7;
    let r5 = spec_write_right(c.right) + r6;
    let r4 = spec_write_text(c.strike) + r5;
    let r3 = spec_write_text(c.last_trade_date_or_contract_month) + r4;
    let r2 = spec_write_text(c.sec_type) + r3;
    let r1 = spec_write_text(c.symbol) + r2;
    assert(spec_write_position_contract(c) + rest =~= spec_write_i32(c.conid) + r1);
    crate::ser::lemma_rt_i32(c.conid, r1);
    crate::ser::lemma_rt_text(c.symbol, r2);
    crate::ser::lemma_rt_text(c.sec_type, r3);
    crate::ser::lemma_rt_text(c.last_trade_date_or_contract_month, r4);
    crate::ser::lemma_rt_text(c.strike, r5);
    crate::types::lemma_rt_right(c.right, r6);
    crate::ser::lemma_rt_text(c.multiplier, r7);
    crate::ser::lemma_rt_text(c.exchange, r8);
    crate::ser::lemma_rt_text(c.currency, r9);
    crate::ser::lemma_rt_text(c.local_symbol, r10);
    crate::ser::lemma_rt_text(c.trading_class, rest);
}

/// A portfolio-value contract reads back as itself.
pub proof fn lemma_rt_portfolio_contract(c: PortfolioValueContractV, rest: Seq<u8>)
    requires
        text_nul_free(c.symbol),
        text_nul_free(c.sec_type),
        text_nul_free(c.last_trade_date_or_contract_month),
        text_nul_free(c.strike),
        text_nul_free(c.multiplier),
        text_nul_free(c.primary_exch),
        text_nul_free(c.currency),
        text_nul_free(c.local_symbol),
        text_nul_free(c.trading_class),
    ensures
        spec_read_portfolio_contract(spec_write_portfolio_contract(c) + rest) == Some((c, rest)),
{
    let r10 = spec_write_text(c.trading_class) + rest;
    let r9 = spec_write_text(c.local_symbol) + r10;
    let r8 = spec_write_text(c.currency) + r9;
    let r7 = spec_write_text(c.primary_exch) + r8;
    let r6 = spec_write_text(c.multiplier) + r7;
    let r5 = spec_write_right(c.right) + r6;
    let r4 = spec_write_text(c.strike) + r5;
    let r3 = spec_write_text(c.last_trade_date_or_contract_month) + r4;
    let r2 = spec_write_text(c.sec_type) + r3;
    let r1 = spec_write_text(c.symbol) + r2;
    assert(spec_write_portfolio_contract(c) + rest =~= spec_write_i32(c.conid) + r1);
    crate::ser::lemma_rt_i32(c.conid, r1);
    crate::ser::lemma_rt_text(c.symbol, r2);
    crate::ser::lemma_rt_text(c.sec_type, r3);
    crate::ser::lemma_rt_text(c.last_trade_date_or_contract_month, r4);
    crate::ser::lemma_rt_text(c.strike, r5);
    crate::types::lemma_rt_right(c.right, r6);
    crate::ser::lemma_rt_text(c.multiplier, r7);
    crate::ser::lemma_rt_text(c.primary_exch, r8);
    crate::ser::lemma_rt_text(c.currency, r9);
    crate::ser::lemma_rt_text(c.local_symbol, r10);
    crate::ser::lemma_rt_text(c.trading_class, rest);
}

/// The contract fields a portfolio-value record carries, in wire order;
/// unlike a position-data record it names the primary exchange instead of
/// the plain exchange.
#[derive(Clone, Debug, Default, PartialEq)]
pub struct PortfolioValueContract {
    pub conid: i32,
    pub symbol: String,
    pub sec_type: String,
    pub last_trade_date_or_contract_month: String,
    /// The strike price, as its wire text.
    pub strike: String,
    pub right: Right,
    pub multiplier: String,
    pub primary_exch: String,
    pub currency: String,
    pub local_symbol: String,
    pub trading_class: String,
}

/// The abstract value of a `PortfolioValueContract`.
pub struct PortfolioValueContractV {
    pub conid: i32,
    pub symbol: Seq<char>,
    pub sec_type: Seq<char>,
    pub last_trade_date_or_contract_month: Seq<char>,
    pub strike: Seq<char>,
    pub right: Right,
    pub multiplier: Seq<char>,
    pub primary_exch: Seq<char>,
    pub currency: Seq<char>,
    pub local_symbol: Seq<char>,
    pub trading_class: Seq<char>,
}

impl View for PortfolioValueContract {
    type V = PortfolioValueContractV;

    open spec fn view(&self) -> PortfolioValueContractV {
        PortfolioValueContractV {
            conid: self.conid,
            symbol: self.symbol@,
            sec_type: self.sec_type@,
            last_trade_date_or_contract_month: self.last_trade_date_or_contract_month@,
            strike: self.strike@,
            right: self.right,
            multiplier: self.multiplier@,
            primary_exch: self.primary_exch@,
            currency: self.currency@,
            local_symbol: self.local_symbol@,
            trading_class: self.trading_class@,
        }
    }
}

/// Reads the eleven contract fields of a portfolio-value record.
pub open spec fn spec_read_portfolio_contract(s: Seq<u8>) -> Option<
    (PortfolioValueContractV, Seq<u8>),
> {
    match spec_read_i32(s) {
        Option::None => Option::None,
        Option::Some((conid, s)) => match spec_read_text(s) {
            Option::None => Option::None,
            Option::Some((symbol, s)) => match spec_read_text(s) {
                Option::None => Option::None,
                Option::Some((sec_type, s)) => match spec_read_text(s) {
                    Option::None => Option::None,
                    Option::Some((ltd, s)) => match spec_read_text(s) {
                        Option::None => Option::None,
                        Option::Some((strike, s)) => match spec_read_right(s) {
                            Option::None => Option::None,
                            Option::Some((right, s)) => match spec_read_text(s) {
                                Option::None => Option::None,
                                Option::Some((multiplier, s)) => match spec_read_text(s) {
                                    Option::None => Option::None,
                                    Option::Some((primary_exch, s)) => match spec_read_text(s) {
                                        Option::None => Option::None,
                                        Option::Some((currency, s)) => match spec_read_text(s) {
                                            Option::None => Option::None,
                                            Option::Some((local_symbol, s)) => match spec_read_text(
                                                s,
                                            ) {
                                                Option::None => Option::None,
                                                Option::Some((trading_class, s)) => Option::Some(
                                                    (
                                                        PortfolioValueContractV {
                                                            conid,
                                                            symbol,
                                                            sec_type,
                                                            last_trade_date_or_contract_month: ltd,
                                                            strike,
                                                            right,
                                                            multiplier,
                                                            primary_exch,
                                                            currency,
                                                            local_symbol,
                                                            trading_class,
                                                        },
                                                        s,
                                                    ),
                                                ),
                                            },
                                        },
                                    },
                                },
                            },
                        },
                    },
                },
            },
        },
    }
}

/// Writes the eleven contract fields of a portfolio-value record.
pub open spec fn spec_write_portfolio_contract(c: PortfolioValueContractV) -> Seq<u8> {
    spec_write_i32(c.conid) + spec_write_text(c.symbol) + spec_write_text(c.sec_type)
        + spec_write_text(c.last_trade_date_or_contract_month) + spec_write_text(c.strike)
        + spec_write_right(c.right) + spec_write_text(c.multiplier) + spec_write_text(
        c.primary_exch,
    ) + spec_write_text(c.currency) + spec_write_text(c.local_symbol) + spec_write_text(
        c.trading_class,
    )
}

pub fn read_portfolio_contract(d: &mut Deserializer) -> (r: Result<PortfolioValueContract, Error>)
    requires
        old(d).wf(),
    ensures
        final(d).wf(),
        match spec_read_portfolio_contract(old(d)@) {
            Option::Some((v, rest)) => r matches Ok(x) && x@ == v && final(d)@ == rest,
            Option::None => r is Err,
        },
{
    let conid = match d.read_i32() {
        Ok(v) => v,
        Err(e) => { return Err(e) },
    };
    let symbol = match d.read_text() {
        Ok(v) => v,
        Err(e) => { return Err(e) },
    };
    let sec_type = match d.read_text() {
        Ok(v) => v,
        Err(e) => { return Err(e) },
    };
    let ltd = match d.read_text() {
        Ok(v) => v,
        Err(e) => { return Err(e) },
    };
    let strike = match d.read_text() {
        Ok(v) => v,
        Err(e) => { return Err(e) },
    };
    let right = match read_right(d) {
        Ok(v) => v,
        Err(e) => { return Err(e) },
    };
    let multiplier = match d.read_text() {
        Ok(v) => v,
        Err(e) => { return Err(e) },
    };
    let primary_exch = match d.read_text() {
        Ok(v) => v,
        Err(e) => { return Err(e) },
    };
    let currency = match d.read_text() {
        Ok(v) => v,
        Err(e) => { return Err(e) },
    };
    let local_symbol = match d.read_text() {
        Ok(v) => v,
        Err(e) => { return Err(e) },
    };
    let trading_class = match d.read_text() {
        Ok(v) => v,
        Err(e) => { return Err(e) },
    };
    Ok(
        PortfolioValueContract {
            conid,
            symbol,
            sec_type,
            last_trade_date_or_contract_month: ltd,
            strike,
            right,
            multiplier,
            primary_exch,
            currency,
            local_symbol,
            trading_class,
        },
    )
}

pub fn write_portfolio_contract(ser: &mut Serializer, c: &PortfolioValueContract)
    requires
        text_nul_free(c.symbol@),
        text_nul_free(c.sec_type@),
        text_nul_free(c.last_trade_date_or_contract_month@),
        text_nul_free(c.strike@),
        text_nul_free(c.multiplier@),
        text_nul_free(c.primary_exch@),
        text_nul_free(c.currency@),
        text_nul_free(c.local_symbol@),
        text_nul_free(c.trading_class@),
    ensures
        final(ser)@ == old(ser)@ + spec_write_portfolio_contract(c@),
{
    ser.write_i32(c.conid);
    ser.write_str(&c.symbol);
    ser.write_str(&c.sec_type);
    ser.write_str(&c.last_trade_date_or_contract_month);
    ser.write_str(&c.strike);
    write_right(ser, c.right);
    ser.write_str(&c.multiplier);
    ser.write_str(&c.primary_exch);
    ser.write_str(&c.currency);
    ser.write_str(&c.local_symbol);
    ser.write_str(&c.trading_class);
    assert(final(ser)@ =~= old(ser)@ + spec_write_portfolio_contract(c@));
}

/// Writes the twelve contract fields a market-data request carries.
pub open spec fn spec_write_contract_mkt(c: ContractV) -> Seq<u8> {
    spec_write_i32(c.conid) + spec_write_text(c.symbol) + spec_write_text(c.sec_type)
        + spec_write_text(c.last_trade_date_or_contract_month) + spec_write_text(c.strike)
        + spec_write_right(c.right) + spec_write_text(c.multiplier) + spec_write_text(c.exchange)
        + spec_write_text(c.primary_exch) + spec_write_text(c.currency) + spec_write_text(
        c.local_symbol,
    ) + spec_write_text(c.trading_class)
}

pub fn write_contract_mkt(ser: &mut Serializer, c: &Contract)
    requires
        c@.wf(),
    ensures
        final(ser)@ == old(ser)@ + spec_write_contract_mkt(c@),
{
    ser.write_i32(c.conid);
    ser.write_str(&c.symbol);
    ser.write_str(&c.sec_type);
    ser.write_str(&c.last_trade_date_or_contract_month);
    ser.write_str(&c.strike);
    write_right(ser, c.right);
    ser.write_str(&c.multiplier);
    ser.write_str(&c.exchange);
    ser.write_str(&c.primary_exch);
    ser.write_str(&c.currency);
    ser.write_str(&c.local_symbol);
    ser.write_str(&c.trading_class);
    assert(final(ser)@ =~= old(ser)@ + spec_write_contract_mkt(c@));
}

} // verus!
