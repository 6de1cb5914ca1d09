//! Prices: how much and how often a product is charged.

pub mod create;
pub mod get;
pub mod list;
pub mod update;

use crate::decode::{
    decode_each, lemma_decode_each_failure, lemma_decode_each_step, optional_array,
    optional_object, optional_tag, optional_text, read_optional_array, read_optional_object,
    read_optional_text, read_required_i32, read_required_object, read_required_text,
    read_required_texts, required_i32, required_object, required_tag, required_text,
    required_texts, shape,
};
use crate::encode::{number_json, put, put_text, text_json, texts_json, with_member};
use crate::entities::product::{Product, ProductView};
use crate::entities::{
    opt_deref, opt_str, EntityBase, EntityBaseGettersSetters, EntityBaseView, EntityStatus,
    EntityType, Meta, MetaView,
};
use crate::error::{ClientError, DecodeError, PaddleError};
use crate::json::{json_model, json_models, Json};
use crate::text::str_eq;
use vstd::prelude::*;
use vstd::string::*;

verus! {

/// Unit of time of a billing or trial period.
#[derive(Clone, Copy, Debug, PartialEq, Eq, Structural)]
pub enum PriceInterval {
    Day,
    Week,
    Month,
    Year,
}

/// How tax is calculated for a price.
#[derive(Clone, Copy, Debug, PartialEq, Eq, Structural)]
pub enum TaxMode {
    /// Prices use the setting of the account.
    AccountSetting,
    /// Prices are exclusive of tax.
    External,
    /// Prices are inclusive of tax.
    Internal,
}

impl PriceInterval {
    /// The tag that stands for the interval on the wire.
    pub open spec fn wire_tag(self) -> Seq<char> {
        match self {
            PriceInterval::Day => "day"@,
            PriceInterval::Week => "week"@,
            PriceInterval::Month => "month"@,
            PriceInterval::Year => "year"@,
        }
    }

    /// The interval that a wire tag stands for, if it stands for one.
    pub open spec fn from_tag(tag: Seq<char>) -> Option<PriceInterval> {
        if tag == "day"@ {
            Some(PriceInterval::Day)
        } else if tag == "week"@ {
            Some(PriceInterval::Week)
        } else if tag == "month"@ {
            Some(PriceInterval::Month)
        } else if tag == "year"@ {
            Some(PriceInterval::Year)
        } else {
            None
        }
    }

    /// The wire tag of the interval.
    pub fn as_str(&self) -> (r: &'static str)
        ensures
            r@ == self.wire_tag(),
    {
        match self {
            PriceInterval::Day => "day",
            PriceInterval::Week => "week",
            PriceInterval::Month => "month",
            PriceInterval::Year => "year",
        }
    }

    /// The wire tag of the interval, as an owned string.
    pub fn to_string(&self) -> (r: String)
        ensures
            r@ == self.wire_tag(),
    {
        String::from_str(self.as_str())
    }

    /// Reads a wire tag. Unknown tags are reported, never guessed.
    pub fn from_str(s: &str) -> (r: Result<PriceInterval, String>)
        ensures
            match r {
                Ok(interval) => PriceInterval::from_tag(s@) == Some(interval),
                Err(message) => PriceInterval::from_tag(s@) is None && message@
                    == "Unknown price interval"@,
            },
    {
        if str_eq(s, "day") {
            Ok(PriceInterval::Day)
        } else if str_eq(s, "week") {
            Ok(PriceInterval::Week)
        } else if str_eq(s, "month") {
            Ok(PriceInterval::Month)
        } else if str_eq(s, "year") {
            Ok(PriceInterval::Year)
        } else {
            Err(String::from_str("Unknown price interval"))
        }
    }

    /// Every interval is read back from its own wire tag, and a tag that is
    /// read as an interval is the wire tag of that interval.
    pub proof fn lemma_wire_tag_round_trip(interval: PriceInterval, tag: Seq<char>)
        ensures
            PriceInterval::from_tag(interval.wire_tag()) == Some(interval),
            PriceInterval::from_tag(tag) matches Some(read) ==> read.wire_tag() == tag,
    {
        reveal_strlit("day");
        reveal_strlit("week");
        reveal_strlit("month");
        reveal_strlit("year");
        assert("day"@.len() == 3 && "week"@.len() == 4 && "month"@.len() == 5 && "year"@.len()
            == 4);
        assert("week"@[0] != "year"@[0]);
    }
}

impl TaxMode {
    /// The tag that stands for the tax mode on the wire.
    pub open spec fn wire_tag(self) -> Seq<char> {
        match self {
            TaxMode::AccountSetting => "account_setting"@,
            TaxMode::External => "external"@,
            TaxMode::Internal => "internal"@,
        }
    }

    /// The tax mode that a wire tag stands for, if it stands for one.
    pub open spec fn from_tag(tag: Seq<char>) -> Option<TaxMode> {
        if tag == "account_setting"@ {
            Some(TaxMode::AccountSetting)
        } else if tag == "external"@ {
            Some(TaxMode::External)
        } else if tag == "internal"@ {
            Some(TaxMode::Internal)
        } else {
            None
        }
    }

    /// The wire tag of the tax mode.
    pub fn as_str(&self) -> (r: &'static str)
        ensures
            r@ == self.wire_tag(),
    {
        match self {
            TaxMode::AccountSetting => "account_setting",
            TaxMode::External => "external",
            TaxMode::Internal => "internal",
        }
    }

    /// The wire tag of the tax mode, as an owned string.
    pub fn to_string(&self) -> (r: String)
        ensures
            r@ == self.wire_tag(),
    {
        String::from_str(self.as_str())
    }

    /// Reads a wire tag. Unknown tags are reported, never guessed.
    pub fn from_str(s: &str) -> (r: Result<TaxMode, String>)
        ensures
            match r {
                Ok(mode) => TaxMode::from_tag(s@) == Some(mode),
                Err(message) => TaxMode::from_tag(s@) is None && message@ == "Unknown tax mode"@,
            },
    {
        if str_eq(s, "account_setting") {
            Ok(TaxMode::AccountSetting)
        } else if str_eq(s, "external") {
            Ok(TaxMode::External)
        } else if str_eq(s, "internal") {
            Ok(TaxMode::Internal)
        } else {
            Err(String::from_str("Unknown tax mode"))
        }
    }

    /// Every tax mode is read back from its own wire tag, and a tag that is
    /// read as a tax mode is the wire tag of that mode.
    pub proof fn lemma_wire_tag_round_trip(mode: TaxMode, tag: Seq<char>)
        ensures
            TaxMode::from_tag(mode.wire_tag()) == Some(mode),
            TaxMode::from_tag(tag) matches Some(read) ==> read.wire_tag() == tag,
    {
        reveal_strlit("account_setting");
        reveal_strlit("external");
        reveal_strlit("internal");
        assert("account_setting"@.len() == 15 && "external"@.len() == 8 && "internal"@.len()
            == 8);
        assert("external"@[0] != "internal"@[0]);
    }
}

impl Default for TaxMode {
    fn default() -> (r: TaxMode)
        ensures
            r == TaxMode::AccountSetting,
    {
        TaxMode::AccountSetting
    }
}

/// How often a price is charged: every `frequency` intervals.
#[derive(Clone, Debug, PartialEq, Eq)]
pub struct BillingCycle {
    frequency: i32,
    interval: String,
}

/// What a [`BillingCycle`] holds.
pub ghost struct BillingCycleView {
    pub frequency: i32,
    pub interval: Seq<char>,
}

impl View for BillingCycle {
    type V = BillingCycleView;

    closed spec fn view(&self) -> BillingCycleView {
        BillingCycleView { frequency: self.frequency, interval: self.interval@ }
    }
}

impl DeepView for BillingCycle {
    type V = BillingCycleView;

    open spec fn deep_view(&self) -> BillingCycleView {
        self@
    }
}

impl BillingCycle {
    /// A cycle of `frequency` intervals, with the interval given by its name.
    pub fn new(frequency: i32, interval: &str) -> (r: BillingCycle)
        ensures
            r@ == (BillingCycleView { frequency, interval: interval@ }),
    {
        BillingCycle { frequency, interval: String::from_str(interval) }
    }

    pub fn frequency(&self) -> (r: i32)
        ensures
            r == self@.frequency,
    {
        self.frequency
    }

    pub fn interval(&self) -> (r: &str)
        ensures
            r@ == self@.interval,
    {
        self.interval.as_str()
    }

    pub fn set_frequency(self, frequency: i32) -> (r: BillingCycle)
        ensures
            r@ == (BillingCycleView { frequency, ..self@ }),
    {
        let mut cycle = self;
        cycle.frequency = frequency;
        cycle
    }

    pub fn set_interval(self, interval: &str) -> (r: BillingCycle)
        ensures
            r@ == (BillingCycleView { interval: interval@, ..self@ }),
    {
        let mut cycle = self;
        cycle.interval = String::from_str(interval);
        cycle
    }
}

/// A free period before the first charge: `frequency` intervals long.
#[derive(Clone, Debug, PartialEq, Eq)]
pub struct TrialPeriod {
    frequency: i32,
    interval: PriceInterval,
}

/// What a [`TrialPeriod`] holds.
pub ghost struct TrialPeriodView {
    pub frequency: i32,
    pub interval: PriceInterval,
}

impl View for TrialPeriod {
    type V = TrialPeriodView;

    closed spec fn view(&self) -> TrialPeriodView {
        TrialPeriodView { frequency: self.frequency, interval: self.interval }
    }
}

impl DeepView for TrialPeriod {
    type V = TrialPeriodView;

    open spec fn deep_view(&self) -> TrialPeriodView {
        self@
    }
}

impl TrialPeriod {
    /// A trial of `frequency` intervals.
    pub fn new(frequency: i32, interval: PriceInterval) -> (r: TrialPeriod)
        ensures
            r@ == (TrialPeriodView { frequency, interval }),
    {
        TrialPeriod { frequency, interval }
    }

    pub fn frequency(&self) -> (r: i32)
        ensures
            r == self@.frequency,
    {
        self.frequency
    }

    pub fn interval(&self) -> (r: &PriceInterval)
        ensures
            *r == self@.interval,
    {
        &self.interval
    }

    pub fn set_frequency(self, frequency: i32) -> (r: TrialPeriod)
        ensures
            r@ == (TrialPeriodView { frequency, ..self@ }),
    {
        let mut period = self;
        period.frequency = frequency;
        period
    }

    pub fn set_interval(self, interval: PriceInterval) -> (r: TrialPeriod)
        ensures
            r@ == (TrialPeriodView { interval, ..self@ }),
    {
        let mut period = self;
        period.interval = interval;
        period
    }
}

/// An amount of money: the amount in the lowest denomination of the
/// currency, as a numeral, and the three-letter currency code.
#[derive(Clone, Debug, PartialEq, Eq)]
pub struct UnitPrice {
    amount: String,
    currency_code: String,
}

/// What a [`UnitPrice`] holds.
pub ghost struct UnitPriceView {
    pub amount: Seq<char>,
    pub currency_code: Seq<char>,
}

impl View for UnitPrice {
    type V = UnitPriceView;

    closed spec fn view(&self) -> UnitPriceView {
        UnitPriceView { amount: self.amount@, currency_code: self.currency_code@ }
    }
}

impl DeepView for UnitPrice {
    type V = UnitPriceView;

    open spec fn deep_view(&self) -> UnitPriceView {
        self@
    }
}

impl UnitPrice {
    /// An amount in the lowest denomination of the currency, and the code of
    /// the currency.
    pub fn new(amount: &str, currency_code: &str) -> (r: UnitPrice)
        ensures
            r@ == (UnitPriceView { amount: amount@, currency_code: currency_code@ }),
    {
        UnitPrice {
            amount: String::from_str(amount),
            currency_code: String::from_str(currency_code),
        }
    }

    pub fn amount(&self) -> (r: &str)
        ensures
            r@ == self@.amount,
    {
        self.amount.as_str()
    }

    pub fn currency_code(&self) -> (r: &str)
        ensures
            r@ == self@.currency_code,
    {
        self.currency_code.as_str()
    }

    pub fn set_amount(self, amount: &str) -> (r: UnitPrice)
        ensures
            r@ == (UnitPriceView { amount: amount@, ..self@ }),
    {
        let mut price = self;
        price.amount = String::from_str(amount);
        price
    }

    pub fn set_currency_code(self, currency_code: &str) -> (r: UnitPrice)
        ensures
            r@ == (UnitPriceView { currency_code: currency_code@, ..self@ }),
    {
        let mut price = self;
        price.currency_code = String::from_str(currency_code);
        price
    }
}

/// A unit price that replaces the base price in a set of countries.
#[derive(Clone, Debug, PartialEq, Eq)]
pub struct UnitPriceOverride {
    country_codes: Vec<String>,
    unit_price: UnitPrice,
}

/// What a [`UnitPriceOverride`] holds.
pub ghost struct UnitPriceOverrideView {
    pub country_codes: Seq<Seq<char>>,
    pub unit_price: UnitPriceView,
}

impl View for UnitPriceOverride {
    type V = UnitPriceOverrideView;

    closed spec fn view(&self) -> UnitPriceOverrideView {
        UnitPriceOverrideView {
            country_codes: self.country_codes.deep_view(),
            unit_price: self.unit_price@,
        }
    }
}

impl DeepView for UnitPriceOverride {
    type V = UnitPriceOverrideView;

    open spec fn deep_view(&self) -> UnitPriceOverrideView {
        self@
    }
}

impl UnitPriceOverride {
    /// A unit price for the countries with the given two-letter codes.
    pub fn new(country_codes: Vec<String>, unit_price: UnitPrice) -> (r: UnitPriceOverride)
        ensures
            r@ == (UnitPriceOverrideView {
                country_codes: country_codes.deep_view(),
                unit_price: unit_price@,
            }),
    {
        UnitPriceOverride { country_codes, unit_price }
    }

    pub fn country_codes(&self) -> (r: &[String])
        ensures
            r.deep_view() == self@.country_codes,
    {
        let r = self.country_codes.as_slice();
        assert(r.deep_view() =~= self.country_codes.deep_view());
        r
    }

    pub fn unit_price(&self) -> (r: &UnitPrice)
        ensures
            r@ == self@.unit_price,
    {
        &self.unit_price
    }
}

/// How many units of a price one checkout may hold.
#[derive(Clone, Copy, Debug, PartialEq, Eq)]
pub struct Quantity {
    minimum: i32,
    maximum: i32,
}

/// What a [`Quantity`] holds.
pub ghost struct QuantityView {
    pub minimum: i32,
    pub maximum: i32,
}

impl View for Quantity {
    type V = QuantityView;

    closed spec fn view(&self) -> QuantityView {
        QuantityView { minimum: self.minimum, maximum: self.maximum }
    }
}

impl DeepView for Quantity {
    type V = QuantityView;

    open spec fn deep_view(&self) -> QuantityView {
        self@
    }
}

impl Quantity {
    /// Between `minimum` and `maximum` units.
    pub fn new(minimum: i32, maximum: i32) -> (r: Quantity)
        ensures
            r@ == (QuantityView { minimum, maximum }),
    {
        Quantity { minimum, maximum }
    }

    pub fn minimum(&self) -> (r: i32)
        ensures
            r == self@.minimum,
    {
        self.minimum
    }

    pub fn maximum(&self) -> (r: i32)
        ensures
            r == self@.maximum,
    {
        self.maximum
    }
}

impl Default for Quantity {
    /// Between 1 and 100 units.
    fn default() -> (r: Quantity)
        ensures
            r@ == (QuantityView { minimum: 1, maximum: 100 }),
    {
        Quantity { minimum: 1, maximum: 100 }
    }
}

impl PriceInterval {
    /// Reads an interval that must be there.
    pub fn read_required(doc: &serde_json::Value, name: &str) -> (r: Result<
        PriceInterval,
        DecodeError,
    >)
        ensures
            match r {
                Ok(interval) => required_tag(
                    json_model(*doc),
                    name@,
                    |tag: Seq<char>| PriceInterval::from_tag(tag),
                ) == Ok::<PriceInterval, Seq<char>>(interval),
                Err(e) => required_tag(
                    json_model(*doc),
                    name@,
                    |tag: Seq<char>| PriceInterval::from_tag(tag),
                ) is Err && e.is_shape(name@),
            },
    {
        let tag = read_required_text(doc, name)?;
        match PriceInterval::from_str(tag.as_str()) {
            Ok(interval) => Ok(interval),
            Err(_) => Err(shape(name)),
        }
    }
}

impl TaxMode {
    /// Reads a tax mode that may be absent.
    pub fn read_optional(doc: &serde_json::Value, name: &str) -> (r: Result<
        Option<TaxMode>,
        DecodeError,
    >)
        ensures
            match r {
                Ok(mode) => optional_tag(
                    json_model(*doc),
                    name@,
                    |tag: Seq<char>| TaxMode::from_tag(tag),
                ) == Ok::<Option<TaxMode>, Seq<char>>(mode),
                Err(e) => optional_tag(
                    json_model(*doc),
                    name@,
                    |tag: Seq<char>| TaxMode::from_tag(tag),
                ) is Err && e.is_shape(name@),
            },
    {
        match read_optional_text(doc, name)? {
            Some(tag) => match TaxMode::from_str(tag.as_str()) {
                Ok(mode) => Ok(Some(mode)),
                Err(_) => Err(shape(name)),
            },
            None => Ok(None),
        }
    }
}

impl BillingCycleView {
    /// The JSON object of a billing cycle.
    pub open spec fn to_json(self) -> Json {
        Json::Object(
            Map::empty().insert("frequency"@, number_json(self.frequency as int)).insert(
                "interval"@,
                Json::String(self.interval),
            ),
        )
    }

    /// What a billing cycle object holds. Both members are required.
    pub open spec fn decode(doc: Json) -> Result<BillingCycleView, Seq<char>> {
        let frequency = required_i32(doc, "frequency"@);
        let interval = required_text(doc, "interval"@);
        if frequency is Err {
            Err(frequency->Err_0)
        } else if interval is Err {
            Err(interval->Err_0)
        } else {
            Ok(BillingCycleView { frequency: frequency->Ok_0, interval: interval->Ok_0 })
        }
    }
}

impl BillingCycle {
    /// Writes the billing cycle as a JSON object.
    pub fn to_json(&self) -> (r: serde_json::Value)
        ensures
            json_model(r) == self@.to_json(),
    {
        let mut object = crate::json::object();
        crate::json::insert(&mut object, "frequency", crate::json::integer(self.frequency as i64));
        crate::json::insert(&mut object, "interval", crate::json::string(self.interval.as_str()));
        object
    }

    /// Reads a billing cycle object.
    pub fn from_json(doc: &serde_json::Value) -> (r: Result<BillingCycle, DecodeError>)
        ensures
            match r {
                Ok(cycle) => BillingCycleView::decode(json_model(*doc)) == Ok::<
                    BillingCycleView,
                    Seq<char>,
                >(cycle@),
                Err(e) => BillingCycleView::decode(json_model(*doc)) matches Err(name)
                    && e.is_shape(name),
            },
    {
        let frequency = read_required_i32(doc, "frequency")?;
        let interval = read_required_text(doc, "interval")?;
        Ok(BillingCycle { frequency, interval })
    }
}

impl TrialPeriodView {
    /// The JSON object of a trial period.
    pub open spec fn to_json(self) -> Json {
        Json::Object(
            Map::empty().insert("frequency"@, number_json(self.frequency as int)).insert(
                "interval"@,
                Json::String(self.interval.wire_tag()),
            ),
        )
    }

    /// What a trial period object holds. Both members are required.
    pub open spec fn decode(doc: Json) -> Result<TrialPeriodView, Seq<char>> {
        let frequency = required_i32(doc, "frequency"@);
        let interval = required_tag(
            doc,
            "interval"@,
            |tag: Seq<char>| PriceInterval::from_tag(tag),
        );
        if frequency is Err {
            Err(frequency->Err_0)
        } else if interval is Err {
            Err(interval->Err_0)
        } else {
            Ok(TrialPeriodView { frequency: frequency->Ok_0, interval: interval->Ok_0 })
        }
    }
}

impl TrialPeriod {
    /// Writes the trial period as a JSON object.
    pub fn to_json(&self) -> (r: serde_json::Value)
        ensures
            json_model(r) == self@.to_json(),
    {
        let mut object = crate::json::object();
        crate::json::insert(&mut object, "frequency", crate::json::integer(self.frequency as i64));
        crate::json::insert(&mut object, "interval", crate::json::string(self.interval.as_str()));
        object
    }

    /// Reads a trial period object.
    pub fn from_json(doc: &serde_json::Value) -> (r: Result<TrialPeriod, DecodeError>)
        ensures
            match r {
                Ok(period) => TrialPeriodView::decode(json_model(*doc)) == Ok::<
                    TrialPeriodView,
                    Seq<char>,
                >(period@),
                Err(e) => TrialPeriodView::decode(json_model(*doc)) matches Err(name)
                    && e.is_shape(name),
            },
    {
        let frequency = read_required_i32(doc, "frequency")?;
        let interval = PriceInterval::read_required(doc, "interval")?;
        Ok(TrialPeriod { frequency, interval })
    }
}

impl UnitPriceView {
    /// The JSON object of a unit price.
    pub open spec fn to_json(self) -> Json {
        Json::Object(
            Map::empty().insert("amount"@, Json::String(self.amount)).insert(
                "currency_code"@,
                Json::String(self.currency_code),
            ),
        )
    }

    /// What a unit price object holds. Both members are required.
    pub open spec fn decode(doc: Json) -> Result<UnitPriceView, Seq<char>> {
        let amount = required_text(doc, "amount"@);
        let currency_code = required_text(doc, "currency_code"@);
        if amount is Err {
            Err(amount->Err_0)
        } else if currency_code is Err {
            Err(currency_code->Err_0)
        } else {
            Ok(UnitPriceView { amount: amount->Ok_0, currency_code: currency_code->Ok_0 })
        }
    }
}

impl UnitPrice {
    /// Writes the unit price as a JSON object.
    pub fn to_json(&self) -> (r: serde_json::Value)
        ensures
            json_model(r) == self@.to_json(),
    {
        let mut object = crate::json::object();
        crate::json::insert(&mut object, "amount", crate::json::string(self.amount.as_str()));
        crate::json::insert(
            &mut object,
            "currency_code",
            crate::json::string(self.currency_code.as_str()),
        );
        object
    }

    /// Reads a unit price object.
    pub fn from_json(doc: &serde_json::Value) -> (r: Result<UnitPrice, DecodeError>)
        ensures
            match r {
                Ok(price) => UnitPriceView::decode(json_model(*doc)) == Ok::<
                    UnitPriceView,
                    Seq<char>,
                >(price@),
                Err(e) => UnitPriceView::decode(json_model(*doc)) matches Err(name) && e.is_shape(
                    name,
                ),
            },
    {
        let amount = read_required_text(doc, "amount")?;
        let currency_code = read_required_text(doc, "currency_code")?;
        Ok(UnitPrice { amount, currency_code })
    }
}

impl QuantityView {
    /// The JSON object of a quantity range.
    pub open spec fn to_json(self) -> Json {
        Json::Object(
            Map::empty().insert("minimum"@, number_json(self.minimum as int)).insert(
                "maximum"@,
                number_json(self.maximum as int),
            ),
        )
    }

    /// What a quantity object holds. Both members are required.
    pub open spec fn decode(doc: Json) -> Result<QuantityView, Seq<char>> {
        let minimum = required_i32(doc, "minimum"@);
        let maximum = required_i32(doc, "maximum"@);
        if minimum is Err {
            Err(minimum->Err_0)
        } else if maximum is Err {
            Err(maximum->Err_0)
        } else {
            Ok(QuantityView { minimum: minimum->Ok_0, maximum: maximum->Ok_0 })
        }
    }
}

impl Quantity {
    /// Writes the quantity range as a JSON object.
    pub fn to_json(&self) -> (r: serde_json::Value)
        ensures
            json_model(r) == self@.to_json(),
    {
        let mut object = crate::json::object();
        crate::json::insert(&mut object, "minimum", crate::json::integer(self.minimum as i64));
        crate::json::insert(&mut object, "maximum", crate::json::integer(self.maximum as i64));
        object
    }

    /// Reads a quantity object.
    pub fn from_json(doc: &serde_json::Value) -> (r: Result<Quantity, DecodeError>)
        ensures
            match r {
                Ok(quantity) => QuantityView::decode(json_model(*doc)) == Ok::<
                    QuantityView,
                    Seq<char>,
                >(quantity@),
                Err(e) => QuantityView::decode(json_model(*doc)) matches Err(name) && e.is_shape(
                    name,
                ),
            },
    {
        let minimum = read_required_i32(doc, "minimum")?;
        let maximum = read_required_i32(doc, "maximum")?;
        Ok(Quantity { minimum, maximum })
    }
}

impl UnitPriceOverrideView {
    /// The JSON object of an override.
    pub open spec fn to_json(self) -> Json {
        Json::Object(
            Map::empty().insert("country_codes"@, texts_json(self.country_codes)).insert(
                "unit_price"@,
                self.unit_price.to_json(),
            ),
        )
    }

    /// What an override object holds. Both members are required.
    pub open spec fn decode(doc: Json) -> Result<UnitPriceOverrideView, Seq<char>> {
        let country_codes = required_texts(doc, "country_codes"@);
        let unit_price = required_object(doc, "unit_price"@);
        if country_codes is Err {
            Err(country_codes->Err_0)
        } else if unit_price is Err {
            Err(unit_price->Err_0)
        } else {
            match UnitPriceView::decode(unit_price->Ok_0) {
                Ok(price) => Ok(
                    UnitPriceOverrideView {
                        country_codes: country_codes->Ok_0,
                        unit_price: price,
                    },
                ),
                Err(name) => Err(name),
            }
        }
    }

    /// The JSON objects of a sequence of overrides, in the same order.
    pub open spec fn list_to_json(overrides: Seq<UnitPriceOverrideView>) -> Json {
        Json::Array(Seq::new(overrides.len(), |i: int| overrides[i].to_json()))
    }

    /// What an array of override objects holds.
    pub open spec fn decode_list(items: Seq<Json>) -> Result<
        Seq<UnitPriceOverrideView>,
        Seq<char>,
    > {
        decode_each(items, |item: Json| UnitPriceOverrideView::decode(item))
    }
}

impl UnitPriceOverride {
    /// Writes the override as a JSON object.
    pub fn to_json(&self) -> (r: serde_json::Value)
        ensures
            json_model(r) == self@.to_json(),
    {
        let mut object = crate::json::object();
        crate::json::insert(&mut object, "country_codes", crate::encode::texts(&self.country_codes));
        crate::json::insert(&mut object, "unit_price", self.unit_price.to_json());
        object
    }

    /// Reads an override object.
    pub fn from_json(doc: &serde_json::Value) -> (r: Result<UnitPriceOverride, DecodeError>)
        ensures
            match r {
                Ok(item) => UnitPriceOverrideView::decode(json_model(*doc)) == Ok::<
                    UnitPriceOverrideView,
                    Seq<char>,
                >(item@),
                Err(e) => UnitPriceOverrideView::decode(json_model(*doc)) matches Err(name)
                    && e.is_shape(name),
            },
    {
        let country_codes = read_required_texts(doc, "country_codes")?;
        let unit_price = read_required_object(doc, "unit_price")?;
        let unit_price = UnitPrice::from_json(unit_price)?;
        Ok(UnitPriceOverride { country_codes, unit_price })
    }

    /// Writes overrides as a JSON array.
    pub fn list_to_json(overrides: &Vec<UnitPriceOverride>) -> (r: serde_json::Value)
        ensures
            json_model(r) == UnitPriceOverrideView::list_to_json(overrides.deep_view()),
    {
        let mut documents: Vec<serde_json::Value> = Vec::new();
        let mut i: usize = 0;
        while i < overrides.len()
            invariant
                i <= overrides.len(),
                documents.len() == i,
                forall|k: int|
                    0 <= k < i ==> json_model(#[trigger] documents[k]) == overrides[k]@.to_json(),
            decreases overrides.len() - i,
        {
            documents.push(overrides[i].to_json());
            i += 1;
        }
        let r = crate::json::array(documents);
        assert(json_models(documents@) =~= Seq::new(
            overrides.deep_view().len(),
            |i: int| overrides.deep_view()[i].to_json(),
        ));
        r
    }

    /// Reads an array of override objects.
    pub fn list_from_json(items: &Vec<serde_json::Value>) -> (r: Result<
        Vec<UnitPriceOverride>,
        DecodeError,
    >)
        ensures
            match r {
                Ok(overrides) => UnitPriceOverrideView::decode_list(json_models(items@)) == Ok::<
                    Seq<UnitPriceOverrideView>,
                    Seq<char>,
                >(overrides.deep_view()),
                Err(e) => UnitPriceOverrideView::decode_list(json_models(items@)) matches Err(
                    name,
                ) && e.is_shape(name),
            },
    {
        let ghost docs = json_models(items@);
        let ghost decode = |item: Json| UnitPriceOverrideView::decode(item);
        let mut overrides: Vec<UnitPriceOverride> = Vec::new();
        let mut i: usize = 0;
        assert(docs.take(0) =~= Seq::<Json>::empty());
        assert(overrides.deep_view() =~= Seq::<UnitPriceOverrideView>::empty());
        while i < items.len()
            invariant
                i <= items.len(),
                docs == json_models(items@),
                decode == (|item: Json| UnitPriceOverrideView::decode(item)),
                decode_each(docs.take(i as int), decode) == Ok::<
                    Seq<UnitPriceOverrideView>,
                    Seq<char>,
                >(overrides.deep_view()),
            decreases items.len() - i,
        {
            proof {
                lemma_decode_each_step(docs, decode, i as int);
            }
            match UnitPriceOverride::from_json(&items[i]) {
                Ok(item) => {
                    let ghost before = overrides.deep_view();
                    overrides.push(item);
                    assert(overrides.deep_view() =~= before.push(item@));
                },
                Err(e) => {
                    proof {
                        lemma_decode_each_failure(docs, decode, i + 1);
                    }
                    return Err(e);
                },
            }
            i += 1;
        }
        assert(docs.take(i as int) =~= docs);
        Ok(overrides)
    }
}

/// Where an entity was imported from, for entities that were created by
/// an import. The service reports it in the import block of the entity.
#[derive(Clone, Debug, PartialEq, Eq)]
pub struct ImportMeta {
    imported_from: String,
    external_id: Option<String>,
}

/// What an [`ImportMeta`] holds.
pub ghost struct ImportMetaView {
    /// Name of the platform that the entity came from.
    pub imported_from: Seq<char>,
    /// Identifier of the entity on that platform.
    pub external_id: Option<Seq<char>>,
}

impl View for ImportMeta {
    type V = ImportMetaView;

    closed spec fn view(&self) -> ImportMetaView {
        ImportMetaView {
            imported_from: self.imported_from@,
            external_id: self.external_id.deep_view(),
        }
    }
}

impl ImportMetaView {
    /// What an import block holds: the platform is required, the
    /// identifier may be absent.
    pub open spec fn decode(doc: Json) -> Result<ImportMetaView, Seq<char>> {
        let imported_from = required_text(doc, "imported_from"@);
        let external_id = optional_text(doc, "external_id"@);
        if imported_from is Err {
            Err(imported_from->Err_0)
        } else if external_id is Err {
            Err(external_id->Err_0)
        } else {
            Ok(
                ImportMetaView {
                    imported_from: imported_from->Ok_0,
                    external_id: external_id->Ok_0,
                },
            )
        }
    }
}

impl ImportMeta {
    /// Name of the platform that the entity came from.
    pub fn imported_from(&self) -> (r: &str)
        ensures
            r@ == self@.imported_from,
    {
        self.imported_from.as_str()
    }

    /// Identifier of the entity on that platform.
    pub fn external_id(&self) -> (r: Option<&str>)
        ensures
            r.deep_view() == self@.external_id,
    {
        opt_str(&self.external_id)
    }

    /// Reads the import block of an entity.
    pub fn from_json(doc: &serde_json::Value) -> (r: Result<ImportMeta, DecodeError>)
        ensures
            match r {
                Ok(meta) => ImportMetaView::decode(json_model(*doc)) == Ok::<
                    ImportMetaView,
                    Seq<char>,
                >(meta@),
                Err(e) => ImportMetaView::decode(json_model(*doc)) matches Err(name)
                    && e.is_shape(name),
            },
    {
        let imported_from = read_required_text(doc, "imported_from")?;
        let external_id = read_optional_text(doc, "external_id")?;
        Ok(ImportMeta { imported_from, external_id })
    }
}

/// A price: how much and how often a product is charged.
#[derive(Debug)]
pub struct Price {
    base: EntityBase,
    product_id: Option<String>,
    unit_price: Option<UnitPrice>,
    billing_cycle: Option<BillingCycle>,
    trial_period: Option<TrialPeriod>,
    tax_mode: Option<TaxMode>,
    unit_price_overrides: Option<Vec<UnitPriceOverride>>,
    quantity: Option<Quantity>,
    product: Option<Product>,
}

/// What a [`Price`] holds.
pub ghost struct PriceView {
    pub base: EntityBaseView,
    pub product_id: Option<Seq<char>>,
    pub unit_price: Option<UnitPriceView>,
    pub billing_cycle: Option<BillingCycleView>,
    pub trial_period: Option<TrialPeriodView>,
    pub tax_mode: Option<TaxMode>,
    pub unit_price_overrides: Option<Seq<UnitPriceOverrideView>>,
    pub quantity: Option<QuantityView>,
    /// The product of the price, where the service was asked to embed it.
    pub product: Option<ProductView>,
}

impl View for Price {
    type V = PriceView;

    closed spec fn view(&self) -> PriceView
        decreases self,
    {
        PriceView {
            base: self.base@,
            product_id: self.product_id.deep_view(),
            unit_price: self.unit_price.deep_view(),
            billing_cycle: self.billing_cycle.deep_view(),
            trial_period: self.trial_period.deep_view(),
            tax_mode: self.tax_mode,
            unit_price_overrides: self.unit_price_overrides.deep_view(),
            quantity: self.quantity.deep_view(),
            product: match self.product {
                Some(product) => Some(product.view()),
                None => None,
            },
        }
    }
}

impl DeepView for Price {
    type V = PriceView;

    open spec fn deep_view(&self) -> PriceView {
        self@
    }
}

impl PriceView {
    /// A price on which nothing has been set.
    pub open spec fn empty() -> PriceView {
        PriceView {
            base: EntityBaseView::empty(),
            product_id: None,
            unit_price: None,
            billing_cycle: None,
            trial_period: None,
            tax_mode: None,
            unit_price_overrides: None,
            quantity: None,
            product: None,
        }
    }

    /// The JSON object of the price: one member for each attribute that is
    /// set, none for the others.
    pub open spec fn to_json(self) -> Json
        decreases self, 0nat,
    {
        let m = self.base.members(Map::empty());
        let m = with_member(m, "product_id"@, text_json(self.product_id));
        let m = with_member(
            m,
            "unit_price"@,
            match self.unit_price {
                Some(price) => Some(price.to_json()),
                None => None,
            },
        );
        let m = with_member(
            m,
            "billing_cycle"@,
            match self.billing_cycle {
                Some(cycle) => Some(cycle.to_json()),
                None => None,
            },
        );
        let m = with_member(
            m,
            "trial_period"@,
            match self.trial_period {
                Some(period) => Some(period.to_json()),
                None => None,
            },
        );
        let m = with_member(
            m,
            "tax_mode"@,
            match self.tax_mode {
                Some(mode) => Some(Json::String(mode.wire_tag())),
                None => None,
            },
        );
        let m = with_member(
            m,
            "unit_price_overrides"@,
            match self.unit_price_overrides {
                Some(overrides) => Some(UnitPriceOverrideView::list_to_json(overrides)),
                None => None,
            },
        );
        let m = with_member(
            m,
            "quantity"@,
            match self.quantity {
                Some(quantity) => Some(quantity.to_json()),
                None => None,
            },
        );
        Json::Object(
            with_member(
                m,
                "product"@,
                match self.product {
                    Some(product) => Some(product.to_json()),
                    None => None,
                },
            ),
        )
    }

    /// The JSON objects of a sequence of prices, in the same order.
    pub open spec fn list_to_json(prices: Seq<PriceView>) -> Json
        decreases prices, 1nat,
    {
        Json::Array(
            Seq::new(
                prices.len(),
                |i: int|
                    if 0 <= i < prices.len() {
                        prices[i].to_json()
                    } else {
                        arbitrary()
                    },
            ),
        )
    }

    /// What a price object holds. Every member may be absent; one that is
    /// present must be of the right kind.
    pub open spec fn decode(doc: Json) -> Result<PriceView, Seq<char>>
        decreases doc, 0nat,
    {
        let base = EntityBaseView::decode(doc);
        let product_id = optional_text(doc, "product_id"@);
        let unit_price = optional_object(doc, "unit_price"@);
        let billing_cycle = optional_object(doc, "billing_cycle"@);
        let trial_period = optional_object(doc, "trial_period"@);
        let tax_mode = optional_tag(doc, "tax_mode"@, |tag: Seq<char>| TaxMode::from_tag(tag));
        let unit_price_overrides = optional_array(doc, "unit_price_overrides"@);
        let quantity = optional_object(doc, "quantity"@);
        let product = optional_object(doc, "product"@);
        if base is Err {
            Err(base->Err_0)
        } else if product_id is Err {
            Err(product_id->Err_0)
        } else if unit_price is Err {
            Err(unit_price->Err_0)
        } else if (unit_price->Ok_0 matches Some(inner) && UnitPriceView::decode(inner) is Err) {
            Err(UnitPriceView::decode(unit_price->Ok_0->Some_0)->Err_0)
        } else if billing_cycle is Err {
            Err(billing_cycle->Err_0)
        } else if (billing_cycle->Ok_0 matches Some(inner) && BillingCycleView::decode(inner)
            is Err) {
            Err(BillingCycleView::decode(billing_cycle->Ok_0->Some_0)->Err_0)
        } else if trial_period is Err {
            Err(trial_period->Err_0)
        } else if (trial_period->Ok_0 matches Some(inner) && TrialPeriodView::decode(inner)
            is Err) {
            Err(TrialPeriodView::decode(trial_period->Ok_0->Some_0)->Err_0)
        } else if tax_mode is Err {
            Err(tax_mode->Err_0)
        } else if unit_price_overrides is Err {
            Err(unit_price_overrides->Err_0)
        } else if (unit_price_overrides->Ok_0 matches Some(items)
            && UnitPriceOverrideView::decode_list(items) is Err) {
            Err(UnitPriceOverrideView::decode_list(unit_price_overrides->Ok_0->Some_0)->Err_0)
        } else if quantity is Err {
            Err(quantity->Err_0)
        } else if (quantity->Ok_0 matches Some(inner) && QuantityView::decode(inner) is Err) {
            Err(QuantityView::decode(quantity->Ok_0->Some_0)->Err_0)
        } else if product is Err {
            Err(product->Err_0)
        } else {
            let known = PriceView {
                base: base->Ok_0,
                product_id: product_id->Ok_0,
                unit_price: match unit_price->Ok_0 {
                    Some(inner) => Some(UnitPriceView::decode(inner)->Ok_0),
                    None => None,
                },
                billing_cycle: match billing_cycle->Ok_0 {
                    Some(inner) => Some(BillingCycleView::decode(inner)->Ok_0),
                    None => None,
                },
                trial_period: match trial_period->Ok_0 {
                    Some(inner) => Some(TrialPeriodView::decode(inner)->Ok_0),
                    None => None,
                },
                tax_mode: tax_mode->Ok_0,
                unit_price_overrides: match unit_price_overrides->Ok_0 {
                    Some(items) => Some(UnitPriceOverrideView::decode_list(items)->Ok_0),
                    None => None,
                },
                quantity: match quantity->Ok_0 {
                    Some(inner) => Some(QuantityView::decode(inner)->Ok_0),
                    None => None,
                },
                product: None,
            };
            match product->Ok_0 {
                None => Ok(known),
                Some(inner) => match ProductView::decode(inner) {
                    Ok(embedded) => Ok(PriceView { product: Some(embedded), ..known }),
                    Err(name) => Err(name),
                },
            }
        }
    }

    /// What an item of an array of prices holds: the item must be an
    /// object, or the array is reported by its name.
    pub open spec fn decode_item(item: Json, name: Seq<char>) -> Result<PriceView, Seq<char>>
        decreases item, 1nat,
    {
        if item is Object {
            PriceView::decode(item)
        } else {
            Err(name)
        }
    }

    /// What an array of price objects holds. The first item that cannot be
    /// read decides the error.
    pub open spec fn decode_list(items: Seq<Json>, name: Seq<char>) -> Result<
        Seq<PriceView>,
        Seq<char>,
    >
        decreases items, 0nat,
    {
        if items.len() == 0 {
            Ok(Seq::empty())
        } else {
            match PriceView::decode_list(items.drop_last(), name) {
                Err(at) => Err(at),
                Ok(done) => match PriceView::decode_item(items.last(), name) {
                    Ok(item) => Ok(done.push(item)),
                    Err(at) => Err(at),
                },
            }
        }
    }

    /// Reading one more price after a prefix: the prefix decides if it
    /// fails, otherwise the item is read and added.
    pub proof fn lemma_decode_list_step(items: Seq<Json>, name: Seq<char>, k: int)
        requires
            0 <= k < items.len(),
        ensures
            PriceView::decode_list(items.take(k + 1), name) == match PriceView::decode_list(
                items.take(k),
                name,
            ) {
                Err(at) => Err::<Seq<PriceView>, Seq<char>>(at),
                Ok(done) => match PriceView::decode_item(items[k], name) {
                    Ok(item) => Ok(done.push(item)),
                    Err(at) => Err(at),
                },
            },
    {
        assert(items.take(k + 1).drop_last() =~= items.take(k));
        assert(items.take(k + 1).last() == items[k]);
    }

    /// A prefix that cannot be read decides the outcome for the whole array.
    pub proof fn lemma_decode_list_failure(items: Seq<Json>, name: Seq<char>, k: int)
        requires
            0 <= k <= items.len(),
            PriceView::decode_list(items.take(k), name) is Err,
        ensures
            PriceView::decode_list(items, name) == PriceView::decode_list(items.take(k), name),
        decreases items.len() - k,
    {
        if k == items.len() {
            assert(items.take(k) =~= items);
        } else {
            PriceView::lemma_decode_list_step(items, name, k);
            PriceView::lemma_decode_list_failure(items, name, k + 1);
        }
    }
}

impl PriceView {
    /// Whether `name` is the member name of an attribute that is set.
    pub open spec fn is_set(self, name: Seq<char>) -> bool {
        ||| self.base.is_set(name)
        ||| name == "product_id"@ && self.product_id is Some
        ||| name == "unit_price"@ && self.unit_price is Some
        ||| name == "billing_cycle"@ && self.billing_cycle is Some
        ||| name == "trial_period"@ && self.trial_period is Some
        ||| name == "tax_mode"@ && self.tax_mode is Some
        ||| name == "unit_price_overrides"@ && self.unit_price_overrides is Some
        ||| name == "quantity"@ && self.quantity is Some
        ||| name == "product"@ && self.product is Some
    }

    /// The body that is sent for a price has a member for each attribute
    /// that is set and for no other: what is not set is left out, not sent
    /// as `null`. A member is `null` only where the caller has set the
    /// attribute to `null` itself.
    pub proof fn lemma_unset_attributes_left_out(self)
        ensures
            self.to_json() is Object,
            forall|name: Seq<char>| #[trigger]
                self.to_json()->Object_0.dom().contains(name) <==> self.is_set(name),
            forall|name: Seq<char>|
                self.is_set(name) ==> ((#[trigger] self.to_json()->Object_0[name]) is Null
                    <==> self.base.is_null(name)),
    {
        EntityBaseView::lemma_member_names();
        PriceView::lemma_member_names();
        self.base.lemma_members(Map::empty());
    }

    /// A price on which only the status is set is sent as a body with
    /// exactly one member, the status.
    pub proof fn lemma_only_status_set(status: EntityStatus)
        ensures
            (PriceView {
                base: EntityBaseView { status: Some(status), ..EntityBaseView::empty() },
                ..PriceView::empty()
            }).to_json() == Json::Object(
                Map::empty().insert("status"@, Json::String(status.wire_tag())),
            ),
    {
    }
}

impl BillingCycleView {
    /// What is written for a billing cycle is read back as the same cycle.
    pub proof fn lemma_read_back(self)
        ensures
            BillingCycleView::decode(self.to_json()) == Ok::<BillingCycleView, Seq<char>>(self),
    {
        reveal_strlit("frequency");
        reveal_strlit("interval");
        assert("frequency"@.len() != "interval"@.len());
    }
}

impl TrialPeriodView {
    /// What is written for a trial period is read back as the same period.
    pub proof fn lemma_read_back(self)
        ensures
            TrialPeriodView::decode(self.to_json()) == Ok::<TrialPeriodView, Seq<char>>(self),
    {
        reveal_strlit("frequency");
        reveal_strlit("interval");
        assert("frequency"@.len() != "interval"@.len());
        PriceInterval::lemma_wire_tag_round_trip(self.interval, Seq::empty());
    }
}

impl UnitPriceView {
    /// What is written for a unit price is read back as the same price.
    pub proof fn lemma_read_back(self)
        ensures
            UnitPriceView::decode(self.to_json()) == Ok::<UnitPriceView, Seq<char>>(self),
    {
        reveal_strlit("amount");
        reveal_strlit("currency_code");
        assert("amount"@.len() != "currency_code"@.len());
    }
}

impl QuantityView {
    /// What is written for a quantity range is read back as the same range.
    pub proof fn lemma_read_back(self)
        ensures
            QuantityView::decode(self.to_json()) == Ok::<QuantityView, Seq<char>>(self),
    {
        reveal_strlit("minimum");
        reveal_strlit("maximum");
        assert("minimum"@[1] != "maximum"@[1]);
    }
}

impl UnitPriceOverrideView {
    /// What is written for an override is read back as the same override.
    pub proof fn lemma_read_back(self)
        ensures
            UnitPriceOverrideView::decode(self.to_json()) == Ok::<
                UnitPriceOverrideView,
                Seq<char>,
            >(self),
    {
        reveal_strlit("country_codes");
        reveal_strlit("unit_price");
        assert("country_codes"@.len() != "unit_price"@.len());
        self.unit_price.lemma_read_back();
        let items = texts_json(self.country_codes)->Array_0;
        assert(Seq::new(items.len(), |i: int| items[i]->String_0) =~= self.country_codes);
    }

    /// What is written for a list of overrides is read back as the same
    /// list.
    pub proof fn lemma_list_read_back(overrides: Seq<UnitPriceOverrideView>)
        ensures
            UnitPriceOverrideView::list_to_json(overrides) is Array,
            UnitPriceOverrideView::decode_list(
                UnitPriceOverrideView::list_to_json(overrides)->Array_0,
            ) == Ok::<Seq<UnitPriceOverrideView>, Seq<char>>(overrides),
        decreases overrides.len(),
    {
        let items = UnitPriceOverrideView::list_to_json(overrides)->Array_0;
        if overrides.len() == 0 {
            assert(overrides =~= Seq::empty());
        } else {
            let shorter = overrides.drop_last();
            UnitPriceOverrideView::lemma_list_read_back(shorter);
            assert(items.drop_last() =~= UnitPriceOverrideView::list_to_json(shorter)->Array_0);
            overrides.last().lemma_read_back();
            assert(shorter.push(overrides.last()) =~= overrides);
        }
    }
}

impl PriceView {
    /// Whether no attribute that holds a JSON value of the caller's is set
    /// to `null`, here or in an embedded product.
    pub open spec fn plain(self) -> bool
        decreases self, 0nat,
    {
        &&& self.base.plain()
        &&& match self.product {
            Some(product) => product.plain(),
            None => true,
        }
    }

    /// Whether every price of a list is plain.
    pub open spec fn all_plain(prices: Seq<PriceView>) -> bool
        decreases prices, 1nat,
    {
        forall|i: int| 0 <= i < prices.len() ==> (#[trigger] prices[i]).plain()
    }

    /// The lengths of the eight member names of a price, and a letter of
    /// each where the length is not enough. No two names of a price agree
    /// in both, and none agrees with a name of the shared attributes.
    pub proof fn lemma_member_names()
        ensures
            "product_id"@.len() == 10 && "product_id"@[0] == 'p',
            "unit_price"@.len() == 10 && "unit_price"@[0] == 'u' && "unit_price"@[1] == 'n',
            "updated_at"@.len() == 10 && "updated_at"@[1] == 'p',
            "billing_cycle"@.len() == 13,
            "trial_period"@.len() == 12,
            "tax_mode"@.len() == 8 && "tax_mode"@[0] == 't',
            "unit_price_overrides"@.len() == 20,
            "quantity"@.len() == 8 && "quantity"@[0] == 'q',
            "product"@.len() == 7,
    {
        reveal_strlit("product_id");
        reveal_strlit("unit_price");
        reveal_strlit("updated_at");
        reveal_strlit("billing_cycle");
        reveal_strlit("trial_period");
        reveal_strlit("tax_mode");
        reveal_strlit("unit_price_overrides");
        reveal_strlit("quantity");
        reveal_strlit("product");
    }

    /// What the written price holds under the nine names of the shared
    /// attributes: what the attributes alone would be written as.
    proof fn lemma_shared_members(self)
        ensures
            ({
                let doc = self.to_json();
                let shared = Json::Object(self.base.members(Map::empty()));
                &&& doc is Object
                &&& doc.member("id"@) == shared.member("id"@)
                &&& doc.member("name"@) == shared.member("name"@)
                &&& doc.member("description"@) == shared.member("description"@)
                &&& doc.member("type"@) == shared.member("type"@)
                &&& doc.member("status"@) == shared.member("status"@)
                &&& doc.member("custom_data"@) == shared.member("custom_data"@)
                &&& doc.member("import_meta"@) == shared.member("import_meta"@)
                &&& doc.member("created_at"@) == shared.member("created_at"@)
                &&& doc.member("updated_at"@) == shared.member("updated_at"@)
            }),
    {
        EntityBaseView::lemma_member_names();
        PriceView::lemma_member_names();
    }

    /// What the written price holds under its own eight names: the
    /// attribute where it is set, and nothing where it is not.
    proof fn lemma_own_members(self)
        ensures
            ({
                let doc = self.to_json();
                &&& doc.member("product_id"@) == text_json(self.product_id)
                &&& doc.member("unit_price"@) == match self.unit_price {
                    Some(price) => Some(price.to_json()),
                    None => None,
                }
                &&& doc.member("billing_cycle"@) == match self.billing_cycle {
                    Some(cycle) => Some(cycle.to_json()),
                    None => None,
                }
                &&& doc.member("trial_period"@) == match self.trial_period {
                    Some(period) => Some(period.to_json()),
                    None => None,
                }
                &&& doc.member("tax_mode"@) == match self.tax_mode {
                    Some(mode) => Some(Json::String(mode.wire_tag())),
                    None => None,
                }
                &&& doc.member("unit_price_overrides"@) == match self.unit_price_overrides {
                    Some(overrides) => Some(UnitPriceOverrideView::list_to_json(overrides)),
                    None => None,
                }
                &&& doc.member("quantity"@) == match self.quantity {
                    Some(quantity) => Some(quantity.to_json()),
                    None => None,
                }
                &&& doc.member("product"@) == match self.product {
                    Some(product) => Some(product.to_json()),
                    None => None,
                }
            }),
    {
        EntityBaseView::lemma_member_names();
        PriceView::lemma_member_names();
        self.base.lemma_members(Map::empty());
    }

    /// A document that holds the attributes of a price under their names
    /// is read as that price.
    proof fn lemma_read_from_members(self, doc: Json)
        requires
            self.plain(),
            EntityBaseView::decode(doc) == Ok::<EntityBaseView, Seq<char>>(self.base),
            doc.member("product_id"@) == text_json(self.product_id),
            doc.member("unit_price"@) == match self.unit_price {
                Some(price) => Some(price.to_json()),
                None => None,
            },
            doc.member("billing_cycle"@) == match self.billing_cycle {
                Some(cycle) => Some(cycle.to_json()),
                None => None,
            },
            doc.member("trial_period"@) == match self.trial_period {
                Some(period) => Some(period.to_json()),
                None => None,
            },
            doc.member("tax_mode"@) == match self.tax_mode {
                Some(mode) => Some(Json::String(mode.wire_tag())),
                None => None,
            },
            doc.member("unit_price_overrides"@) == match self.unit_price_overrides {
                Some(overrides) => Some(UnitPriceOverrideView::list_to_json(overrides)),
                None => None,
            },
            doc.member("quantity"@) == match self.quantity {
                Some(quantity) => Some(quantity.to_json()),
                None => None,
            },
            doc.member("product"@) == match self.product {
                Some(product) => Some(product.to_json()),
                None => None,
            },
        ensures
            PriceView::decode(doc) == Ok::<PriceView, Seq<char>>(self),
        decreases self, 0nat,
    {
        if self.unit_price is Some {
            self.unit_price->Some_0.lemma_read_back();
        }
        if self.billing_cycle is Some {
            self.billing_cycle->Some_0.lemma_read_back();
        }
        if self.trial_period is Some {
            self.trial_period->Some_0.lemma_read_back();
        }
        if self.tax_mode is Some {
            TaxMode::lemma_wire_tag_round_trip(self.tax_mode->Some_0, Seq::empty());
        }
        if self.unit_price_overrides is Some {
            UnitPriceOverrideView::lemma_list_read_back(self.unit_price_overrides->Some_0);
        }
        if self.quantity is Some {
            self.quantity->Some_0.lemma_read_back();
        }
        if self.product is Some {
            self.product->Some_0.lemma_read_back();
        }
    }

    /// What is written for a price is read back as the same price.
    pub proof fn lemma_read_back(self)
        requires
            self.plain(),
        ensures
            self.to_json() is Object,
            PriceView::decode(self.to_json()) == Ok::<PriceView, Seq<char>>(self),
        decreases self, 1nat,
    {
        let doc = self.to_json();
        self.lemma_shared_members();
        self.lemma_own_members();
        self.base.lemma_read_back();
        EntityBaseView::lemma_decode_looks_at_own_members(
            doc,
            Json::Object(self.base.members(Map::empty())),
        );
        self.lemma_read_from_members(doc);
    }

    /// What is written for a list of prices is read back as the same list.
    pub proof fn lemma_list_read_back(prices: Seq<PriceView>, name: Seq<char>)
        requires
            PriceView::all_plain(prices),
        ensures
            PriceView::list_to_json(prices) is Array,
            PriceView::decode_list(PriceView::list_to_json(prices)->Array_0, name) == Ok::<
                Seq<PriceView>,
                Seq<char>,
            >(prices),
        decreases prices, prices.len(),
    {
        let items = PriceView::list_to_json(prices)->Array_0;
        if prices.len() == 0 {
            assert(prices =~= Seq::empty());
        } else {
            let shorter = prices.drop_last();
            let last = prices.last();
            assert(last == prices[prices.len() - 1]);
            assert(PriceView::all_plain(shorter)) by {
                assert forall|i: int| 0 <= i < shorter.len() implies (#[trigger] shorter[i]).plain() by {
                    assert(shorter[i] == prices[i]);
                }
            }
            PriceView::lemma_list_read_back(shorter, name);
            assert(items.drop_last() =~= PriceView::list_to_json(shorter)->Array_0);
            last.lemma_read_back();
            assert(items.last() == last.to_json());
            assert(PriceView::decode_item(items.last(), name) == Ok::<PriceView, Seq<char>>(last));
            assert(shorter.push(last) =~= prices);
        }
    }
}

impl Default for Price {
    /// Nothing is set.
    fn default() -> (r: Price)
        ensures
            r@ == PriceView::empty(),
    {
        Price {
            base: EntityBase::default(),
            product_id: None,
            unit_price: None,
            billing_cycle: None,
            trial_period: None,
            tax_mode: None,
            unit_price_overrides: None,
            quantity: None,
            product: None,
        }
    }
}

impl EntityBaseGettersSetters for Price {
    open spec fn base(&self) -> EntityBaseView {
        self@.base
    }

    fn id(&self) -> (r: Option<&str>) {
        self.base.id()
    }

    fn name(&self) -> (r: Option<&str>) {
        self.base.name()
    }

    fn set_name(self, name: &str) -> (r: Self)
        ensures
            r@ == (PriceView { base: r@.base, ..self@ }),
    {
        let mut price = self;
        price.base = price.base.set_name(name);
        price
    }

    fn description(&self) -> (r: Option<&str>) {
        self.base.description()
    }

    fn set_description(self, description: &str) -> (r: Self)
        ensures
            r@ == (PriceView { base: r@.base, ..self@ }),
    {
        let mut price = self;
        price.base = price.base.set_description(description);
        price
    }

    fn p_type(&self) -> (r: Option<&EntityType>) {
        self.base.p_type()
    }

    fn set_p_type(self, p_type: EntityType) -> (r: Self)
        ensures
            r@ == (PriceView { base: r@.base, ..self@ }),
    {
        let mut price = self;
        price.base = price.base.set_p_type(p_type);
        price
    }

    fn status(&self) -> (r: Option<&EntityStatus>) {
        self.base.status()
    }

    fn set_status(self, status: EntityStatus) -> (r: Self)
        ensures
            r@ == (PriceView { base: r@.base, ..self@ }),
    {
        let mut price = self;
        price.base = price.base.set_status(status);
        price
    }

    fn custom_data(&self) -> (r: Option<&serde_json::Value>) {
        self.base.custom_data()
    }

    fn set_custom_data(self, custom_data: serde_json::Value) -> (r: Self)
        ensures
            r@ == (PriceView { base: r@.base, ..self@ }),
    {
        let mut price = self;
        price.base = price.base.set_custom_data(custom_data);
        price
    }

    fn import_meta(&self) -> (r: Option<&serde_json::Value>) {
        self.base.import_meta()
    }

    fn created_at(&self) -> (r: Option<&str>) {
        self.base.created_at()
    }

    fn updated_at(&self) -> (r: Option<&str>) {
        self.base.updated_at()
    }
}

impl Price {
    /// Identifier of the product that the price belongs to.
    pub fn product_id(&self) -> (r: Option<&str>)
        ensures
            r.deep_view() == self@.product_id,
    {
        opt_str(&self.product_id)
    }

    /// Sets the product that the price belongs to.
    pub fn set_product_id(self, product_id: &str) -> (r: Price)
        ensures
            r@ == (PriceView { product_id: Some(product_id@), ..self@ }),
    {
        let mut price = self;
        price.product_id = Some(product_id.to_owned());
        price
    }

    /// How often the price is charged. A price without a cycle is charged
    /// once.
    pub fn billing_cycle(&self) -> (r: Option<&BillingCycle>)
        ensures
            r.deep_view() == self@.billing_cycle,
    {
        self.billing_cycle.as_ref()
    }

    /// Sets how often the price is charged.
    pub fn set_billing_cycle(self, billing_cycle: BillingCycle) -> (r: Price)
        ensures
            r@ == (PriceView { billing_cycle: Some(billing_cycle@), ..self@ }),
    {
        let mut price = self;
        price.billing_cycle = Some(billing_cycle);
        price
    }

    /// The free period before the first charge.
    pub fn trial_period(&self) -> (r: Option<&TrialPeriod>)
        ensures
            r.deep_view() == self@.trial_period,
    {
        self.trial_period.as_ref()
    }

    /// Sets the free period before the first charge.
    pub fn set_trial_period(self, trial_period: TrialPeriod) -> (r: Price)
        ensures
            r@ == (PriceView { trial_period: Some(trial_period@), ..self@ }),
    {
        let mut price = self;
        price.trial_period = Some(trial_period);
        price
    }

    /// How tax is calculated for the price.
    pub fn tax_mode(&self) -> (r: Option<&TaxMode>)
        ensures
            opt_deref(r) == self@.tax_mode,
    {
        self.tax_mode.as_ref()
    }

    /// Sets how tax is calculated for the price.
    pub fn set_tax_mode(self, tax_mode: TaxMode) -> (r: Price)
        ensures
            r@ == (PriceView { tax_mode: Some(tax_mode), ..self@ }),
    {
        let mut price = self;
        price.tax_mode = Some(tax_mode);
        price
    }

    /// The base price.
    pub fn unit_price(&self) -> (r: Option<&UnitPrice>)
        ensures
            r.deep_view() == self@.unit_price,
    {
        self.unit_price.as_ref()
    }

    /// Sets the base price.
    pub fn set_unit_price(self, unit_price: UnitPrice) -> (r: Price)
        ensures
            r@ == (PriceView { unit_price: Some(unit_price@), ..self@ }),
    {
        let mut price = self;
        price.unit_price = Some(unit_price);
        price
    }

    /// The prices that replace the base price in some countries.
    pub fn unit_price_overrides(&self) -> (r: Option<&Vec<UnitPriceOverride>>)
        ensures
            r.deep_view() == self@.unit_price_overrides,
    {
        self.unit_price_overrides.as_ref()
    }

    /// Sets the prices that replace the base price in some countries.
    pub fn set_unit_price_overrides(self, unit_price_overrides: Vec<UnitPriceOverride>) -> (r:
        Price)
        ensures
            r@ == (PriceView {
                unit_price_overrides: Some(unit_price_overrides.deep_view()),
                ..self@
            }),
    {
        let mut price = self;
        price.unit_price_overrides = Some(unit_price_overrides);
        price
    }

    /// How many units one checkout may hold.
    pub fn quantity(&self) -> (r: Option<&Quantity>)
        ensures
            r.deep_view() == self@.quantity,
    {
        self.quantity.as_ref()
    }

    /// Sets how many units one checkout may hold.
    pub fn set_quantity(self, quantity: Quantity) -> (r: Price)
        ensures
            r@ == (PriceView { quantity: Some(quantity@), ..self@ }),
    {
        let mut price = self;
        price.quantity = Some(quantity);
        price
    }

    /// The product of the price, where the service was asked to embed it.
    pub fn product(&self) -> (r: Option<&Product>)
        ensures
            r.deep_view() == self@.product,
    {
        self.product.as_ref()
    }

    /// Writes the price as a JSON object. Attributes that are not set are
    /// left out.
    pub fn to_json(&self) -> (r: serde_json::Value)
        ensures
            json_model(r) == self@.to_json(),
        decreases self,
    {
        let mut object = crate::json::object();
        self.base.write_members(&mut object);
        put_text(&mut object, "product_id", opt_str(&self.product_id));
        put(
            &mut object,
            "unit_price",
            match &self.unit_price {
                Some(price) => Some(price.to_json()),
                None => None,
            },
        );
        put(
            &mut object,
            "billing_cycle",
            match &self.billing_cycle {
                Some(cycle) => Some(cycle.to_json()),
                None => None,
            },
        );
        put(
            &mut object,
            "trial_period",
            match &self.trial_period {
                Some(period) => Some(period.to_json()),
                None => None,
            },
        );
        put_text(
            &mut object,
            "tax_mode",
            match &self.tax_mode {
                Some(mode) => Some(mode.as_str()),
                None => None,
            },
        );
        put(
            &mut object,
            "unit_price_overrides",
            match &self.unit_price_overrides {
                Some(overrides) => Some(UnitPriceOverride::list_to_json(overrides)),
                None => None,
            },
        );
        put(
            &mut object,
            "quantity",
            match &self.quantity {
                Some(quantity) => Some(quantity.to_json()),
                None => None,
            },
        );
        put(
            &mut object,
            "product",
            match &self.product {
                Some(product) => Some(product.to_json()),
                None => None,
            },
        );
        object
    }

    /// Writes prices as a JSON array.
    pub fn list_to_json(prices: &Vec<Price>) -> (r: serde_json::Value)
        ensures
            json_model(r) == PriceView::list_to_json(prices.deep_view()),
        decreases prices,
    {
        let mut documents: Vec<serde_json::Value> = Vec::new();
        let mut i: usize = 0;
        while i < prices.len()
            invariant
                i <= prices.len(),
                documents.len() == i,
                forall|k: int|
                    0 <= k < i ==> json_model(#[trigger] documents[k]) == prices[k]@.to_json(),
            decreases prices.len() - i,
        {
            documents.push(prices[i].to_json());
            i += 1;
        }
        let r = crate::json::array(documents);
        assert(json_models(documents@) =~= PriceView::list_to_json(prices.deep_view())->Array_0);
        r
    }

    /// Reads a price object.
    pub fn from_json(doc: &serde_json::Value) -> (r: Result<Price, DecodeError>)
        ensures
            match r {
                Ok(price) => PriceView::decode(json_model(*doc)) == Ok::<PriceView, Seq<char>>(
                    price@,
                ),
                Err(e) => PriceView::decode(json_model(*doc)) matches Err(name) && e.is_shape(
                    name,
                ),
            },
        decreases json_model(*doc), 0nat,
    {
        let base = EntityBase::from_json(doc)?;
        let product_id = read_optional_text(doc, "product_id")?;
        let unit_price = match read_optional_object(doc, "unit_price")? {
            Some(inner) => Some(UnitPrice::from_json(inner)?),
            None => None,
        };
        let billing_cycle = match read_optional_object(doc, "billing_cycle")? {
            Some(inner) => Some(BillingCycle::from_json(inner)?),
            None => None,
        };
        let trial_period = match read_optional_object(doc, "trial_period")? {
            Some(inner) => Some(TrialPeriod::from_json(inner)?),
            None => None,
        };
        let tax_mode = TaxMode::read_optional(doc, "tax_mode")?;
        let unit_price_overrides = match read_optional_array(doc, "unit_price_overrides")? {
            Some(items) => Some(UnitPriceOverride::list_from_json(items)?),
            None => None,
        };
        let quantity = match read_optional_object(doc, "quantity")? {
            Some(inner) => Some(Quantity::from_json(inner)?),
            None => None,
        };
        let product = match read_optional_object(doc, "product")? {
            Some(inner) => Some(Product::from_json(inner)?),
            None => None,
        };
        Ok(
            Price {
                base,
                product_id,
                unit_price,
                billing_cycle,
                trial_period,
                tax_mode,
                unit_price_overrides,
                quantity,
                product,
            },
        )
    }

    /// Reads an item of an array of prices.
    pub fn item_from_json(item: &serde_json::Value, name: &str) -> (r: Result<Price, DecodeError>)
        ensures
            match r {
                Ok(price) => PriceView::decode_item(json_model(*item), name@) == Ok::<
                    PriceView,
                    Seq<char>,
                >(price@),
                Err(e) => PriceView::decode_item(json_model(*item), name@) matches Err(at)
                    && e.is_shape(at),
            },
        decreases json_model(*item), 1nat,
    {
        if crate::json::is_object(item) {
            Price::from_json(item)
        } else {
            Err(shape(name))
        }
    }

    /// Reads an array of price objects.
    pub fn list_from_json(items: &Vec<serde_json::Value>, name: &str) -> (r: Result<
        Vec<Price>,
        DecodeError,
    >)
        ensures
            match r {
                Ok(prices) => PriceView::decode_list(json_models(items@), name@) == Ok::<
                    Seq<PriceView>,
                    Seq<char>,
                >(prices.deep_view()),
                Err(e) => PriceView::decode_list(json_models(items@), name@) matches Err(at)
                    && e.is_shape(at),
            },
        decreases json_models(items@), 0nat,
    {
        let ghost docs = json_models(items@);
        let mut prices: Vec<Price> = Vec::new();
        let mut i: usize = 0;
        assert(docs.take(0) =~= Seq::<Json>::empty());
        assert(prices.deep_view() =~= Seq::<PriceView>::empty());
        while i < items.len()
            invariant
                i <= items.len(),
                docs == json_models(items@),
                PriceView::decode_list(docs.take(i as int), name@) == Ok::<
                    Seq<PriceView>,
                    Seq<char>,
                >(prices.deep_view()),
            decreases items.len() - i,
        {
            proof {
                PriceView::lemma_decode_list_step(docs, name@, i as int);
            }
            match Price::item_from_json(&items[i], name) {
                Ok(item) => {
                    let ghost before = prices.deep_view();
                    prices.push(item);
                    assert(prices.deep_view() =~= before.push(item@));
                },
                Err(e) => {
                    proof {
                        PriceView::lemma_decode_list_failure(docs, name@, i + 1);
                    }
                    return Err(e);
                },
            }
            i += 1;
        }
        assert(docs.take(i as int) =~= docs);
        Ok(prices)
    }
}

/// The response to a request for one price: the price as the service
/// holds it, and what the service says about the request.
#[derive(Debug)]
pub struct PriceResponse {
    pub data: Price,
    pub meta: Meta,
}

/// What a [`PriceResponse`] holds.
pub ghost struct PriceResponseView {
    pub data: PriceView,
    pub meta: MetaView,
}

impl View for PriceResponse {
    type V = PriceResponseView;

    open spec fn view(&self) -> PriceResponseView {
        PriceResponseView { data: self.data@, meta: self.meta@ }
    }
}

impl PriceResponseView {
    /// What a price envelope holds: a `data` object with the price and a
    /// `meta` object.
    pub open spec fn decode(doc: Json) -> Result<PriceResponseView, Seq<char>> {
        let data = required_object(doc, "data"@);
        let meta = required_object(doc, "meta"@);
        if data is Err {
            Err(data->Err_0)
        } else if meta is Err {
            Err(meta->Err_0)
        } else {
            match PriceView::decode(data->Ok_0) {
                Err(name) => Err(name),
                Ok(price) => match MetaView::decode(meta->Ok_0) {
                    Err(name) => Err(name),
                    Ok(about) => Ok(PriceResponseView { data: price, meta: about }),
                },
            }
        }
    }
}

impl PriceResponse {
    /// The price.
    pub fn data(&self) -> (r: &Price)
        ensures
            r@ == self@.data,
    {
        &self.data
    }

    /// What the service says about the request.
    pub fn meta(&self) -> (r: &Meta)
        ensures
            r@ == self@.meta,
    {
        &self.meta
    }

    /// Reads a price envelope.
    pub fn from_json(doc: &serde_json::Value) -> (r: Result<PriceResponse, DecodeError>)
        ensures
            match r {
                Ok(response) => PriceResponseView::decode(json_model(*doc)) == Ok::<
                    PriceResponseView,
                    Seq<char>,
                >(response@),
                Err(e) => PriceResponseView::decode(json_model(*doc)) matches Err(name)
                    && e.is_shape(name),
            },
    {
        let data = read_required_object(doc, "data")?;
        let meta = read_required_object(doc, "meta")?;
        let data = Price::from_json(data)?;
        let meta = Meta::from_json(meta)?;
        Ok(PriceResponse { data, meta })
    }

    /// Reads the response to a request for one price, to the creation of a
    /// price or to a change of one.
    pub fn from_response(status: u16, body: String) -> (r: Result<PriceResponse, ClientError>)
        ensures
            PaddleError::reading(
                status,
                crate::json::json_parse(body@),
                |doc: Json| PriceResponseView::decode(doc),
                match r {
                    Ok(response) => Ok(response@),
                    Err(e) => Err(e),
                },
            ),
    {
        let doc = PaddleError::document(status, body)?;
        match PriceResponse::from_json(&doc) {
            Ok(response) => Ok(response),
            Err(e) => Err(ClientError::Decode(e)),
        }
    }
}

} // verus!
