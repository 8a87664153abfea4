//! The catalog of wire-level value types.
//!
//! Each enum names one closed set of wire tokens; the token maps below give
//! the exact text each variant travels as. Only the types the retained
//! message and request schemas read or write carry executable codecs; the
//! rest stand as plain data for callers.

use vstd::prelude::*;

use crate::de::Deserializer;
use crate::de::spec_read_text;
use crate::error::Error;
use crate::error::malformed;
use crate::ser::Serializer;
use crate::ser::spec_write_text;
use crate::ser::text_ok;
use crate::text::text_nul_free;

verus! {

#[derive(Clone, Copy, Debug, Default, PartialEq, Eq, Structural)]
pub enum TickByTickType {
    #[default]
    Unset,
    Last,
    AllLast,
    BidAsk,
    MidPoint,
}

#[derive(Clone, Copy, Debug, PartialEq, Eq, Structural)]
pub enum ComboParam {
    NonGuaranteed,
    PriceCondConid,
    CondPriceMax,
    CondPriceMin,
    ChangeToMktTime1,
    ChangeToMktTime2,
    DiscretionaryPct,
    DontLeginNext,
    LeginPrio,
    MaxSegSize,
}

#[allow(non_camel_case_types)]
#[derive(Clone, Copy, Debug, PartialEq, Eq, Structural)]
pub enum AlgoParam {
    startTime,
    endTime,
    allowPastEndTime,
    maxPctVol,
    pctVol,
    strategyType,
    noTakeLiq,
    riskAversion,
    forceCompletion,
    displaySize,
    getDone,
    noTradeAhead,
    useOddLots,
    componentSize,
    timeBetweenOrders,
    randomizeTime20,
    randomizeSize55,
    giveUp,
    catchUp,
    waitForFill,
}

#[derive(Clone, Copy, Debug, Default, PartialEq, Eq, Structural)]
pub enum AlgoStrategy {
    #[default]
    Unset,
    Vwap,
    Twap,
    ArrivalPx,
    DarkIce,
    PctVol,
    AD,
}

/// The parameter list each algo strategy takes, in declaration order.
pub open spec fn spec_algo_params(s: AlgoStrategy) -> Seq<AlgoParam> {
    match s {
        AlgoStrategy::Unset => seq![],
        AlgoStrategy::Vwap => seq![
            AlgoParam::startTime, AlgoParam::endTime, AlgoParam::maxPctVol, AlgoParam::noTakeLiq,
            AlgoParam::getDone, AlgoParam::noTradeAhead, AlgoParam::useOddLots,
        ],
        AlgoStrategy::Twap => seq![
            AlgoParam::startTime, AlgoParam::endTime, AlgoParam::allowPastEndTime,
            AlgoParam::strategyType,
        ],
        AlgoStrategy::ArrivalPx => seq![
            AlgoParam::startTime, AlgoParam::endTime, AlgoParam::allowPastEndTime,
            AlgoParam::maxPctVol, AlgoParam::riskAversion, AlgoParam::forceCompletion,
        ],
        AlgoStrategy::DarkIce => seq![
            AlgoParam::startTime, AlgoParam::endTime, AlgoParam::allowPastEndTime,
            AlgoParam::displaySize,
        ],
        AlgoStrategy::PctVol => seq![
            AlgoParam::startTime, AlgoParam::endTime, AlgoParam::pctVol, AlgoParam::noTakeLiq,
        ],
        AlgoStrategy::AD => seq![
            AlgoParam::startTime, AlgoParam::endTime, AlgoParam::componentSize,
            AlgoParam::timeBetweenOrders, AlgoParam::randomizeTime20, AlgoParam::randomizeSize55,
            AlgoParam::giveUp, AlgoParam::catchUp, AlgoParam::waitForFill,
        ],
    }
}

impl AlgoStrategy {
    /// The parameters this strategy takes, in declaration order.
    pub fn params(&self) -> (r: Vec<AlgoParam>)
        ensures
            r@ == spec_algo_params(*self),
    {
        let mut v: Vec<AlgoParam> = Vec::new();
        match self {
            AlgoStrategy::Unset => {},
            AlgoStrategy::Vwap => {
                v.push(AlgoParam::startTime);
                v.push(AlgoParam::endTime);
                v.push(AlgoParam::maxPctVol);
                v.push(AlgoParam::noTakeLiq);
                v.push(AlgoParam::getDone);
                v.push(AlgoParam::noTradeAhead);
                v.push(AlgoParam::useOddLots);
            },
            AlgoStrategy::Twap => {
                v.push(AlgoParam::startTime);
                v.push(AlgoParam::endTime);
                v.push(AlgoParam::allowPastEndTime);
                v.push(AlgoParam::strategyType);
            },
            AlgoStrategy::ArrivalPx => {
                v.push(AlgoParam::startTime);
                v.push(AlgoParam::endTime);
                v.push(AlgoParam::allowPastEndTime);
                v.push(AlgoParam::maxPctVol);
                v.push(AlgoParam::riskAversion);
                v.push(AlgoParam::forceCompletion);
            },
            AlgoStrategy::DarkIce => {
                v.push(AlgoParam::startTime);
                v.push(AlgoParam::endTime);
                v.push(AlgoParam::allowPastEndTime);
                v.push(AlgoParam::displaySize);
            },
            AlgoStrategy::PctVol => {
                v.push(AlgoParam::startTime);
                v.push(AlgoParam::endTime);
                v.push(AlgoParam::pctVol);
                v.push(AlgoParam::noTakeLiq);
            },
            AlgoStrategy::AD => {
                v.push(AlgoParam::startTime);
                v.push(AlgoParam::endTime);
                v.push(AlgoParam::componentSize);
                v.push(AlgoParam::timeBetweenOrders);
                v.push(AlgoParam::randomizeTime20);
                v.push(AlgoParam::randomizeSize55);
                v.push(AlgoParam::giveUp);
                v.push(AlgoParam::catchUp);
                v.push(AlgoParam::waitForFill);
            },
        }
        assert(v@ =~= spec_algo_params(*self));
        v
    }
}

/// `hedge_param` is associated data of the variant.
#[derive(Clone, Debug, Default, PartialEq, Eq)]
pub enum HedgeType {
    #[default]
    Unset,
    Delta(String),
    Beta(String),
    Fx(String),
    Pair(String),
}

/// Wire tokens: empty for none, `P` put, `C` call; `?` also reads as none.
#[derive(Clone, Copy, Debug, Default, PartialEq, Eq, Structural)]
pub enum Right {
    #[default]
    Unset,
    Put,
    Call,
}

#[derive(Clone, Copy, Debug, Default, PartialEq, Eq, Structural)]
pub enum VolatilityType {
    #[default]
    Unset,
    Daily,
    Annual,
}

#[derive(Clone, Copy, Debug, Default, PartialEq, Eq, Structural)]
pub enum ReferencePriceType {
    #[default]
    Unset,
    Midpoint,
    BidOrAsk,
}

#[derive(Clone, Copy, Debug, Default, PartialEq, Eq, Structural)]
pub enum TriggerMethod {
    #[default]
    Default,
    DoubleBidAsk,
    Last,
    DoubleLast,
    BidAsk,
    LastOrBidAsk,
    Midpoint,
}

/// Wire tokens: empty for none, else the variant name.
#[allow(non_camel_case_types)]
#[derive(Clone, Copy, Debug, Default, PartialEq, Eq, Structural)]
pub enum Action {
    #[default]
    Unset,
    BUY,
    SELL,
    SSHORT,
}

#[derive(Clone, Copy, Debug, Default, PartialEq, Eq, Structural)]
pub enum Rule80A {
    #[default]
    Unset,
    Individual,
    Agency,
    AgentOtherMember,
    IndividualPTIA,
    AgencyPTIA,
    AgentOtherMemberPTIA,
    IndividualPT,
    AgencyPT,
    AgentOtherMemberPT,
}

#[derive(Clone, Copy, Debug, Default, PartialEq, Eq, Structural)]
pub enum OcaType {
    #[default]
    Unset,
    CancelWithBlocking,
    ReduceWithBlocking,
    ReduceWithoutBlocking,
}

#[derive(Clone, Copy, Debug, Default, PartialEq, Eq, Structural)]
pub enum TimeInForce {
    #[default]
    DAY,
    GTC,
    OPG,
    IOC,
    GTD,
    GTT,
    AUC,
    FOK,
    GTX,
    DTC,
}

#[derive(Clone, Copy, Debug, PartialEq, Eq, Structural)]
pub enum ExerciseType {
    Unset,
    Exercise,
    Lapse,
}

#[derive(Clone, Copy, Debug, PartialEq, Eq, Structural)]
pub enum FundamentalType {
    ReportSnapshot,
    ReportsFinSummary,
    ReportRatios,
    ReportsFinStatements,
    RESC,
    CalendarReport,
    ReportsOwnership,
}

#[allow(non_camel_case_types)]
#[derive(Clone, Copy, Debug, PartialEq, Eq, Structural)]
pub enum WhatToShow {
    TRADES,
    MIDPOINT,
    BID,
    ASK,
    BID_ASK,
    HISTORICAL_VOLATILITY,
    OPTION_IMPLIED_VOLATILITY,
    YIELD_ASK,
    YIELD_BID,
    YIELD_BID_ASK,
    YIELD_LAST,
    ADJUSTED_LAST,
}

#[allow(non_camel_case_types)]
#[derive(Clone, Copy, Debug, PartialEq, Eq, Structural)]
pub enum BarSize {
    _1_secs,
    _5_secs,
    _10_secs,
    _15_secs,
    _30_secs,
    _1_min,
    _2_mins,
    _3_mins,
    _5_mins,
    _10_mins,
    _15_mins,
    _20_mins,
    _30_mins,
    _1_hour,
    _4_hours,
    _1_day,
    _1_week,
    _1_month,
}

#[allow(non_camel_case_types)]
#[derive(Clone, Copy, Debug, PartialEq, Eq, Structural)]
pub enum DurationUnit {
    SECOND,
    DAY,
    WEEK,
    MONTH,
    YEAR,
}

#[allow(non_camel_case_types)]
#[derive(Clone, Copy, Debug, PartialEq, Eq, Structural)]
pub enum DeepType {
    INSERT,
    UPDATE,
    DELETE,
}

#[allow(non_camel_case_types)]
#[derive(Clone, Copy, Debug, PartialEq, Eq, Structural)]
pub enum DeepSide {
    SELL,
    BUY,
}

#[allow(non_camel_case_types)]
#[derive(Clone, Copy, Debug, PartialEq, Eq, Structural)]
pub enum NewsType {
    UNKNOWN,
    BBS,
    LIVE_EXCH,
    DEAD_EXCH,
    HTML,
    POPUP_TEXT,
    POPUP_HTML,
}

#[allow(non_camel_case_types)]
#[derive(Clone, Copy, Debug, PartialEq, Eq, Structural)]
pub enum FADataType {
    UNUSED,
    GROUPS,
    PROFILES,
    ALIASES,
}

#[allow(non_camel_case_types)]
#[derive(Clone, Copy, Debug, PartialEq, Eq, Structural)]
pub enum SecIdType {
    Unset,
    CUSIP,
    SEDOL,
    ISIN,
    RIC,
}

#[allow(non_camel_case_types)]
#[derive(Clone, Copy, Debug, PartialEq, Eq, Structural)]
pub enum SecType {
    Unset,
    STK,
    OPT,
    FUT,
    CONTFUT,
    CASH,
    BOND,
    CFD,
    FOP,
    WAR,
    IOPT,
    FWD,
    BAG,
    IND,
    BILL,
    FUND,
    FIXED,
    SLB,
    NEWS,
    CMDTY,
    BSK,
    ICU,
    ICS,
}

#[derive(Clone, Copy, Debug, PartialEq, Eq, Structural)]
pub enum MktDataType {
    Unknown,
    Realtime,
    Frozen,
    Delayed,
    DelayedFrozen,
}

#[derive(Clone, Copy, Debug, PartialEq, Eq, Structural)]
pub enum Method {
    Unset,
    EqualQuantity,
    AvailableEquity,
    NetLiq,
    PctChange,
}

#[derive(Clone, Copy, Debug, PartialEq, Eq, Structural)]
pub enum UsePriceMgmtAlgo {
    Unset,
    NotUse,
    Use,
}

/// One name/value pair of an options list.
#[derive(Clone, Debug, Default, PartialEq, Eq)]
pub struct TagValue {
    pub tag: String,
    pub value: String,
}

/// The abstract value of a `TagValue`.
pub struct TagValueV {
    pub tag: Seq<char>,
    pub value: Seq<char>,
}

impl View for TagValue {
    type V = TagValueV;

    open spec fn view(&self) -> TagValueV {
        TagValueV { tag: self.tag@, value: self.value@ }
    }
}

impl TagValueV {
    /// Both texts can stand as wire tokens.
    pub open spec fn wf(self) -> bool {
        text_nul_free(self.tag) && text_nul_free(self.value)
    }
}

#[derive(Clone, Debug, Default, PartialEq, Eq)]
pub struct SoftDollarTier {
    pub name: String,
    pub value: String,
    pub display_name: String,
}

/// The wire text of a `Right`.
pub open spec fn right_text(v: Right) -> Seq<char> {
    match v {
        Right::Unset => ""@,
        Right::Put => "P"@,
        Right::Call => "C"@,
    }
}

/// The `Right` a wire text reads as, if any.
pub open spec fn right_of_text(c: Seq<char>) -> Option<Right> {
    if c == ""@ || c == "?"@ {
        Option::Some(Right::Unset)
    } else if c == "P"@ {
        Option::Some(Right::Put)
    } else if c == "C"@ {
        Option::Some(Right::Call)
    } else {
        Option::None
    }
}

/// Reads a `Right` field.
pub open spec fn spec_read_right(s: Seq<u8>) -> Option<(Right, Seq<u8>)> {
    match spec_read_text(s) {
        Option::None => Option::None,
        Option::Some((c, rest)) => match right_of_text(c) {
            Option::None => Option::None,
            Option::Some(v) => Option::Some((v, rest)),
        },
    }
}

/// Writes a `Right` field.
pub open spec fn spec_write_right(v: Right) -> Seq<u8> {
    spec_write_text(right_text(v))
}

/// A `Right`'s wire text is NUL-free, and reads back as the same value.
pub proof fn lemma_rt_right(v: Right, rest: Seq<u8>)
    ensures
        text_ok(right_text(v)),
        spec_read_right(spec_write_right(v) + rest) == Some((v, rest)),
{
    reveal_strlit("");
    reveal_strlit("?");
    reveal_strlit("P");
    reveal_strlit("C");
    assert(text_ok(right_text(v)));
    crate::ser::lemma_rt_text(right_text(v), rest);
    match v {
        Right::Unset => {
            assert(right_of_text(""@) == Option::Some(Right::Unset));
        },
        Right::Put => {
            assert("P"@ != ""@ && "P"@ != "?"@);
        },
        Right::Call => {
            assert("C"@ != ""@ && "C"@ != "?"@ && "C"@ != "P"@);
        },
    }
}

/// A `TagValue` reads back as itself.
pub proof fn lemma_rt_tag_value(v: TagValueV, rest: Seq<u8>)
    requires
        v.wf(),
    ensures
        spec_read_tag_value(spec_write_tag_value(v) + rest) == Some((v, rest)),
{
    let second = spec_write_text(v.value) + rest;
    assert(spec_write_tag_value(v) + rest =~= spec_write_text(v.tag) + second);
    crate::ser::lemma_rt_text(v.tag, second);
    crate::ser::lemma_rt_text(v.value, rest);
}

/// Whether the string equals the (NUL-free) literal.
pub fn str_eq_lit(s: &String, lit: &str) -> (r: bool)
    ensures
        r == (s@ == lit@),
{
    let other = String::from_str(lit);
    s.eq(&other)
}

pub fn read_right(d: &mut Deserializer) -> (r: Result<Right, Error>)
    requires
        old(d).wf(),
    ensures
        final(d).wf(),
        match spec_read_right(old(d)@) {
            Option::Some((v, rest)) => r matches Ok(x) && x == v && final(d)@ == rest,
            Option::None => r is Err,
        },
        old(d)@.len() == 0 ==> (r matches Err(e) && e is Truncated),
{
    let s = match d.read_text() {
        Ok(s) => s,
        Err(e) => { return Err(e) },
    };
    proof {
        reveal_strlit("");
    }
    if s.as_str().is_empty() {
        proof {
            assert(s@ =~= ""@);
        }
        Ok(Right::Unset)
    } else if str_eq_lit(&s, "?") {
        Ok(Right::Unset)
    } else if str_eq_lit(&s, "P") {
        Ok(Right::Put)
    } else if str_eq_lit(&s, "C") {
        Ok(Right::Call)
    } else {
        proof {
            reveal_strlit("");
            assert(s@ != ""@);
        }
        Err(malformed("an option right", Vec::new()))
    }
}

pub fn write_right(ser: &mut Serializer, v: Right)
    ensures
        final(ser)@ == old(ser)@ + spec_write_right(v),
{
    match v {
        Right::Unset => {
            let s = String::from_str("");
            proof {
                reveal_strlit("");
            }
            ser.write_str(&s);
        },
        Right::Put => {
            let s = String::from_str("P");
            proof {
                reveal_strlit("P");
            }
            ser.write_str(&s);
        },
        Right::Call => {
            let s = String::from_str("C");
            proof {
                reveal_strlit("C");
            }
            ser.write_str(&s);
        },
    }
}

/// The wire text of an `Action`.
pub open spec fn action_text(v: Action) -> Seq<char> {
    match v {
        Action::Unset => ""@,
        Action::BUY => "BUY"@,
        Action::SELL => "SELL"@,
        Action::SSHORT => "SSHORT"@,
    }
}

/// Writes an `Action` field.
pub open spec fn spec_write_action(v: Action) -> Seq<u8> {
    spec_write_text(action_text(v))
}

pub fn write_action(ser: &mut Serializer, v: Action)
    ensures
        final(ser)@ == old(ser)@ + spec_write_action(v),
{
    match v {
        Action::Unset => {
            let s = String::from_str("");
            proof {
                reveal_strlit("");
            }
            ser.write_str(&s);
        },
        Action::BUY => {
            let s = String::from_str("BUY");
            proof {
                reveal_strlit("BUY");
            }
            ser.write_str(&s);
        },
        Action::SELL => {
            let s = String::from_str("SELL");
            proof {
                reveal_strlit("SELL");
            }
            ser.write_str(&s);
        },
        Action::SSHORT => {
            let s = String::from_str("SSHORT");
            proof {
                reveal_strlit("SSHORT");
            }
            ser.write_str(&s);
        },
    }
}

/// Reads one `TagValue`: two text fields, tag then value.
pub open spec fn spec_read_tag_value(s: Seq<u8>) -> Option<(TagValueV, Seq<u8>)> {
    match spec_read_text(s) {
        Option::None => Option::None,
        Option::Some((tag, s1)) => match spec_read_text(s1) {
            Option::None => Option::None,
            Option::Some((value, s2)) => Option::Some((TagValueV { tag, value }, s2)),
        },
    }
}

/// Writes one `TagValue`.
pub open spec fn spec_write_tag_value(v: TagValueV) -> Seq<u8> {
    spec_write_text(v.tag) + spec_write_text(v.value)
}

pub fn read_tag_value(d: &mut Deserializer) -> (r: Result<TagValue, Error>)
    requires
        old(d).wf(),
    ensures
        final(d).wf(),
        match spec_read_tag_value(old(d)@) {
            Option::Some((v, rest)) => r matches Ok(x) && x@ == v && final(d)@ == rest,
            Option::None => r is Err,
        },
        old(d)@.len() == 0 ==> (r matches Err(e) && e is Truncated),
{
    let tag = match d.read_text() {
        Ok(s) => s,
        Err(e) => { return Err(e) },
    };
    let value = match d.read_text() {
        Ok(s) => s,
        Err(e) => { return Err(e) },
    };
    Ok(TagValue { tag, value })
}

pub fn write_tag_value(ser: &mut Serializer, v: &TagValue)
    requires
        v@.wf(),
    ensures
        final(ser)@ == old(ser)@ + spec_write_tag_value(v@),
{
    ser.write_str(&v.tag);
    ser.write_str(&v.value);
}

/// Reads exactly `n` tag/value pairs.
pub open spec fn spec_read_tag_value_items(s: Seq<u8>, n: nat) -> Option<(Seq<TagValueV>, Seq<u8>)>
    decreases n,
{
    if n == 0 {
        Option::Some((Seq::empty(), s))
    } else {
        match spec_read_tag_value(s) {
            Option::None => Option::None,
            Option::Some((v, s1)) => match spec_read_tag_value_items(s1, (n - 1) as nat) {
                Option::None => Option::None,
                Option::Some((items, s2)) => Option::Some((seq![v] + items, s2)),
            },
        }
    }
}

/// Reads a tag/value list: its element count, then that many pairs.
pub open spec fn spec_read_tag_values(s: Seq<u8>) -> Option<(Seq<TagValueV>, Seq<u8>)> {
    match crate::de::spec_read_count(s) {
        Option::None => Option::None,
        Option::Some((n, s1)) => spec_read_tag_value_items(s1, n as nat),
    }
}

/// Reads a counted tag/value list.
pub fn read_tag_values(d: &mut Deserializer) -> (r: Result<Vec<TagValue>, Error>)
    requires
        old(d).wf(),
    ensures
        final(d).wf(),
        match spec_read_tag_values(old(d)@) {
            Option::Some((items, rest)) => r matches Ok(x) && x@.map_values(|t: TagValue| t@)
                == items && final(d)@ == rest,
            Option::None => r is Err,
        },
        old(d)@.len() == 0 ==> (r matches Err(e) && e is Truncated),
{
    let ghost s0 = old(d)@;
    let n = match d.read_count() {
        Ok(n) => n,
        Err(e) => { return Err(e) },
    };
    let mut out: Vec<TagValue> = Vec::new();
    let mut i: usize = 0;
    assert(out@.map_values(|t: TagValue| t@) =~= Seq::<TagValueV>::empty());
    while i < n
        invariant
            0 <= i <= n,
            d.wf(),
            out@.len() == i,
            s0 == old(d)@,
            s0.len() > 0,
            spec_read_tag_value_items(d@, (n - i) as nat) matches Option::Some((items, rest))
                ==> spec_read_tag_values(s0) == Option::Some(
                (out@.map_values(|t: TagValue| t@) + items, rest),
            ),
            spec_read_tag_value_items(d@, (n - i) as nat) is None ==> spec_read_tag_values(s0)
                is None,
        decreases n - i,
    {
        let ghost before = d@;
        let ghost acc = out@.map_values(|t: TagValue| t@);
        let item = match read_tag_value(d) {
            Ok(v) => v,
            Err(e) => {
                proof {
                    assert(spec_read_tag_value_items(before, (n - i) as nat) is None);
                }
                return Err(e);
            },
        };
        out.push(item);
        i = i + 1;
        proof {
            let itemv = item@;
            assert(out@.map_values(|t: TagValue| t@) =~= acc + seq![itemv]);
            match spec_read_tag_value_items(d@, (n - i) as nat) {
                Option::Some((items, rest)) => {
                    assert(spec_read_tag_value_items(before, (n - i + 1) as nat) == Option::Some(
                        (seq![itemv] + items, rest),
                    ));
                    assert(acc + (seq![itemv] + items) =~= (acc + seq![itemv]) + items);
                },
                Option::None => {},
            }
        }
    }
    proof {
        assert(spec_read_tag_value_items(d@, 0nat) == Option::Some(
            (Seq::<TagValueV>::empty(), d@),
        ));
        assert(out@.map_values(|t: TagValue| t@) + Seq::<TagValueV>::empty() =~= out@.map_values(
            |t: TagValue| t@,
        ));
    }
    Ok(out)
}

/// Reads a conditional sub-schema led by a kind token: an empty kind means
/// the whole group is absent and nothing further is read; a nonempty kind is
/// followed by the group's fields (here, a tag/value list). This is the
/// decode-order branch on an earlier field that variable-shape records need.
pub open spec fn spec_read_kinded_tag_values(s: Seq<u8>) -> Option<
    (Option<(Seq<char>, Seq<TagValueV>)>, Seq<u8>),
> {
    match spec_read_text(s) {
        Option::None => Option::None,
        Option::Some((kind, s1)) => {
            if kind.len() == 0 {
                Option::Some((Option::None, s1))
            } else {
                match spec_read_tag_values(s1) {
                    Option::None => Option::None,
                    Option::Some((items, s2)) => Option::Some(
                        (Option::Some((kind, items)), s2),
                    ),
                }
            }
        },
    }
}

/// Reads a kind token and, only when it is nonempty, the tag/value list
/// that follows it.
pub fn read_kinded_tag_values(d: &mut Deserializer) -> (r: Result<
    Option<(String, Vec<TagValue>)>,
    Error,
>)
    requires
        old(d).wf(),
    ensures
        final(d).wf(),
        match spec_read_kinded_tag_values(old(d)@) {
            Option::Some((v, rest)) => r matches Ok(x) && final(d)@ == rest && (match v {
                Option::Some((kind, items)) => x matches Some((xk, xi)) && xk@ == kind
                    && xi@.map_values(|t: TagValue| t@) == items,
                Option::None => x is None,
            }),
            Option::None => r is Err,
        },
        old(d)@.len() == 0 ==> (r matches Err(e) && e is Truncated),
{
    let kind = match d.read_text() {
        Ok(s) => s,
        Err(e) => { return Err(e) },
    };
    if kind.as_str().is_empty() {
        return Ok(Option::None);
    }
    let items = match read_tag_values(d) {
        Ok(v) => v,
        Err(e) => { return Err(e) },
    };
    Ok(Option::Some((kind, items)))
}

} // verus!
