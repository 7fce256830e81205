//! The reply of the chart endpoint: its records, their mathematical views, and how each is
//! read from a JSON document.
//!
//! A record is read from an object. Members that the record does not know are passed over.
//! A member that the record requires has to be there; every other member may be missing or
//! null, and is then `None`. A member that is there has to have the expected shape, and a
//! reply decodes as a whole or not at all.

use crate::decode::{
    agrees, at_field, bool_of, decode_bool, decode_float, decode_integer, decode_interval,
    decode_sample, decode_string, defaulted, defaulted_of, elements, elements_of, float_of,
    from_opt_timestamp, from_opt_vector_timestamp, from_timestamp, integer_of, interval_of,
    lemma_elements_pointwise, lookup, opt_timestamp_of, opt_vector_timestamp_of, optional,
    optional_of, required, required_of, sample_of, string_of, timestamp_of,
};
use crate::error::Error;
use crate::interval::Interval;
use crate::json::{json_from_text, json_text_value, Float, Json};
use crate::time::NaiveDateTime;
use vstd::prelude::*;

verus! {

/// One segment of a trading session.
#[derive(Clone, Debug, PartialEq)]
pub struct TradingPeriod {
    pub start: NaiveDateTime,
    pub end: NaiveDateTime,
    pub gmtoffset: i64,
    pub timezone: String,
}

/// The mathematical view of a [`TradingPeriod`].
pub struct TradingPeriodView {
    pub start: NaiveDateTime,
    pub end: NaiveDateTime,
    pub gmtoffset: i64,
    pub timezone: Seq<char>,
}

impl DeepView for TradingPeriod {
    type V = TradingPeriodView;

    open spec fn deep_view(&self) -> TradingPeriodView {
        TradingPeriodView {
            start: self.start.deep_view(),
            end: self.end.deep_view(),
            gmtoffset: self.gmtoffset.deep_view(),
            timezone: self.timezone.deep_view(),
        }
    }
}

impl TradingPeriod {
    /// What a JSON value holds, read as a [`TradingPeriod`]: the record, or the diagnostic of the
    /// first member, in the order of the fields, that does not decode.
    pub open spec fn of_json(json: Json) -> Result<TradingPeriodView, Seq<char>> {
        match json {
            Json::Object(entries) => {
                let start = required_of(entries@, "start"@, |value: Json| timestamp_of(value));
                let end = required_of(entries@, "end"@, |value: Json| timestamp_of(value));
                let gmtoffset = required_of(entries@, "gmtoffset"@, |value: Json| integer_of(value));
                let timezone = required_of(entries@, "timezone"@, |value: Json| string_of(value));
                if start is Err {
                    Err(start->Err_0)
                } else if end is Err {
                    Err(end->Err_0)
                } else if gmtoffset is Err {
                    Err(gmtoffset->Err_0)
                } else if timezone is Err {
                    Err(timezone->Err_0)
                } else {
                    Ok(
                        TradingPeriodView {
                            start: start->Ok_0,
                            end: end->Ok_0,
                            gmtoffset: gmtoffset->Ok_0,
                            timezone: timezone->Ok_0,
                        },
                    )
                }
            },
            _ => Err(": expected an object"@),
        }
    }

    /// Reads a [`TradingPeriod`] from a JSON value.
    pub fn from_json(json: &Json) -> (r: Result<TradingPeriod, String>)
        ensures
            agrees(r, Self::of_json(*json)),
    {
        match json {
            Json::Object(entries) => {
                let start = required(entries, "start", from_timestamp, Ghost(|value: Json| timestamp_of(value)))?;
                let end = required(entries, "end", from_timestamp, Ghost(|value: Json| timestamp_of(value)))?;
                let gmtoffset = required(entries, "gmtoffset", decode_integer, Ghost(|value: Json| integer_of(value)))?;
                let timezone = required(entries, "timezone", decode_string, Ghost(|value: Json| string_of(value)))?;
                Ok(TradingPeriod { start, end, gmtoffset, timezone })
            },
            _ => Err(String::from_str(": expected an object")),
        }
    }
}

/// The segments of the current trading session.
#[derive(Clone, Debug, PartialEq)]
pub struct CurrentTradingPeriod {
    pub pre: Option<TradingPeriod>,
    pub regular: Option<TradingPeriod>,
    pub post: Option<TradingPeriod>,
}

/// The mathematical view of a [`CurrentTradingPeriod`].
pub struct CurrentTradingPeriodView {
    pub pre: Option<TradingPeriodView>,
    pub regular: Option<TradingPeriodView>,
    pub post: Option<TradingPeriodView>,
}

impl DeepView for CurrentTradingPeriod {
    type V = CurrentTradingPeriodView;

    open spec fn deep_view(&self) -> CurrentTradingPeriodView {
        CurrentTradingPeriodView {
            pre: self.pre.deep_view(),
            regular: self.regular.deep_view(),
            post: self.post.deep_view(),
        }
    }
}

impl CurrentTradingPeriod {
    /// What a JSON value holds, read as a [`CurrentTradingPeriod`]: the record, or the diagnostic of the
    /// first member, in the order of the fields, that does not decode.
    pub open spec fn of_json(json: Json) -> Result<CurrentTradingPeriodView, Seq<char>> {
        match json {
            Json::Object(entries) => {
                let pre = optional_of(entries@, "pre"@, |value: Json| TradingPeriod::of_json(value));
                let regular = optional_of(entries@, "regular"@, |value: Json| TradingPeriod::of_json(value));
                let post = optional_of(entries@, "post"@, |value: Json| TradingPeriod::of_json(value));
                if pre is Err {
                    Err(pre->Err_0)
                } else if regular is Err {
                    Err(regular->Err_0)
                } else if post is Err {
                    Err(post->Err_0)
                } else {
                    Ok(
                        CurrentTradingPeriodView {
                            pre: pre->Ok_0,
                            regular: regular->Ok_0,
                            post: post->Ok_0,
                        },
                    )
                }
            },
            _ => Err(": expected an object"@),
        }
    }

    /// Reads a [`CurrentTradingPeriod`] from a JSON value.
    pub fn from_json(json: &Json) -> (r: Result<CurrentTradingPeriod, String>)
        ensures
            agrees(r, Self::of_json(*json)),
    {
        match json {
            Json::Object(entries) => {
                let pre = optional(entries, "pre", TradingPeriod::from_json, Ghost(|value: Json| TradingPeriod::of_json(value)))?;
                let regular = optional(entries, "regular", TradingPeriod::from_json, Ghost(|value: Json| TradingPeriod::of_json(value)))?;
                let post = optional(entries, "post", TradingPeriod::from_json, Ghost(|value: Json| TradingPeriod::of_json(value)))?;
                Ok(CurrentTradingPeriod { pre, regular, post })
            },
            _ => Err(String::from_str(": expected an object")),
        }
    }
}

/// The segments of one trading session.
pub open spec fn session_of(json: Json) -> Result<Seq<TradingPeriodView>, Seq<char>> {
    elements_of(json, |value: Json| TradingPeriod::of_json(value))
}

/// Decodes what [`session_of`] describes.
pub fn decode_session(json: &Json) -> (r: Result<Vec<TradingPeriod>, String>)
    ensures
        agrees(r, session_of(*json)),
{
    elements(json, TradingPeriod::from_json, Ghost(|value: Json| TradingPeriod::of_json(value)))
}

/// The segments of several trading sessions: an array of arrays.
pub open spec fn sessions_of(json: Json) -> Result<Seq<Seq<TradingPeriodView>>, Seq<char>> {
    elements_of(json, |value: Json| session_of(value))
}

/// Decodes what [`sessions_of`] describes.
pub fn decode_sessions(json: &Json) -> (r: Result<Vec<Vec<TradingPeriod>>, String>)
    ensures
        agrees(r, sessions_of(*json)),
{
    elements(json, decode_session, Ghost(|value: Json| session_of(value)))
}

/// An array of ranges.
pub open spec fn intervals_of(json: Json) -> Result<Seq<Interval>, Seq<char>> {
    elements_of(json, |value: Json| interval_of(value))
}

/// Decodes what [`intervals_of`] describes.
pub fn decode_intervals(json: &Json) -> (r: Result<Vec<Interval>, String>)
    ensures
        agrees(r, intervals_of(*json)),
{
    elements(json, decode_interval, Ghost(|value: Json| interval_of(value)))
}

/// What the endpoint says of the instrument. It leaves out what it does not know.
#[derive(Clone, Debug, PartialEq)]
pub struct YahooMeta {
    pub currency: Option<String>,
    pub symbol: Option<String>,
    pub exchange_name: Option<String>,
    pub full_exchange_name: Option<String>,
    pub instrument_type: Option<String>,
    pub first_trade_date: Option<NaiveDateTime>,
    pub regular_market_time: Option<NaiveDateTime>,
    pub has_pre_post_market_data: Option<bool>,
    pub gmtoffset: Option<i64>,
    pub timezone: Option<String>,
    pub exchange_timezone_name: Option<String>,
    pub regular_market_price: Option<Float>,
    pub fifty_two_week_high: Option<Float>,
    pub fifty_two_week_low: Option<Float>,
    pub regular_market_day_high: Option<Float>,
    pub regular_market_day_low: Option<Float>,
    pub regular_market_volume: Option<Float>,
    pub long_name: Option<String>,
    pub short_name: Option<String>,
    pub chart_previous_close: Option<Float>,
    pub previous_close: Option<Float>,
    pub scale: Option<Float>,
    pub price_hint: Option<Float>,
    pub current_trading_period: Option<CurrentTradingPeriod>,
    pub trading_periods: Option<Vec<Vec<TradingPeriod>>>,
    pub data_granularity: Option<String>,
    pub range: Option<Interval>,
    pub valid_ranges: Option<Vec<Interval>>,
}

/// The mathematical view of a [`YahooMeta`].
pub struct YahooMetaView {
    pub currency: Option<Seq<char>>,
    pub symbol: Option<Seq<char>>,
    pub exchange_name: Option<Seq<char>>,
    pub full_exchange_name: Option<Seq<char>>,
    pub instrument_type: Option<Seq<char>>,
    pub first_trade_date: Option<NaiveDateTime>,
    pub regular_market_time: Option<NaiveDateTime>,
    pub has_pre_post_market_data: Option<bool>,
    pub gmtoffset: Option<i64>,
    pub timezone: Option<Seq<char>>,
    pub exchange_timezone_name: Option<Seq<char>>,
    pub regular_market_price: Option<Float>,
    pub fifty_two_week_high: Option<Float>,
    pub fifty_two_week_low: Option<Float>,
    pub regular_market_day_high: Option<Float>,
    pub regular_market_day_low: Option<Float>,
    pub regular_market_volume: Option<Float>,
    pub long_name: Option<Seq<char>>,
    pub short_name: Option<Seq<char>>,
    pub chart_previous_close: Option<Float>,
    pub previous_close: Option<Float>,
    pub scale: Option<Float>,
    pub price_hint: Option<Float>,
    pub current_trading_period: Option<CurrentTradingPeriodView>,
    pub trading_periods: Option<Seq<Seq<TradingPeriodView>>>,
    pub data_granularity: Option<Seq<char>>,
    pub range: Option<Interval>,
    pub valid_ranges: Option<Seq<Interval>>,
}

impl DeepView for YahooMeta {
    type V = YahooMetaView;

    open spec fn deep_view(&self) -> YahooMetaView {
        YahooMetaView {
            currency: self.currency.deep_view(),
            symbol: self.symbol.deep_view(),
            exchange_name: self.exchange_name.deep_view(),
            full_exchange_name: self.full_exchange_name.deep_view(),
            instrument_type: self.instrument_type.deep_view(),
            first_trade_date: self.first_trade_date.deep_view(),
            regular_market_time: self.regular_market_time.deep_view(),
            has_pre_post_market_data: self.has_pre_post_market_data.deep_view(),
            gmtoffset: self.gmtoffset.deep_view(),
            timezone: self.timezone.deep_view(),
            exchange_timezone_name: self.exchange_timezone_name.deep_view(),
            regular_market_price: self.regular_market_price.deep_view(),
            fifty_two_week_high: self.fifty_two_week_high.deep_view(),
            fifty_two_week_low: self.fifty_two_week_low.deep_view(),
            regular_market_day_high: self.regular_market_day_high.deep_view(),
            regular_market_day_low: self.regular_market_day_low.deep_view(),
            regular_market_volume: self.regular_market_volume.deep_view(),
            long_name: self.long_name.deep_view(),
            short_name: self.short_name.deep_view(),
            chart_previous_close: self.chart_previous_close.deep_view(),
            previous_close: self.previous_close.deep_view(),
            scale: self.scale.deep_view(),
            price_hint: self.price_hint.deep_view(),
            current_trading_period: self.current_trading_period.deep_view(),
            trading_periods: self.trading_periods.deep_view(),
            data_granularity: self.data_granularity.deep_view(),
            range: self.range.deep_view(),
            valid_ranges: self.valid_ranges.deep_view(),
        }
    }
}

impl YahooMeta {
    /// The members that say what is traded and where.
    pub open spec fn listing_of(entries: Seq<(String, Json)>) -> Result<(
        Option<Seq<char>>,
        Option<Seq<char>>,
        Option<Seq<char>>,
        Option<Seq<char>>,
        Option<Seq<char>>,
        Option<NaiveDateTime>,
        Option<NaiveDateTime>,
    ), Seq<char>> {
        let currency = optional_of(entries, "currency"@, |value: Json| string_of(value));
        let symbol = optional_of(entries, "symbol"@, |value: Json| string_of(value));
        let exchange_name = optional_of(entries, "exchangeName"@, |value: Json| string_of(value));
        let full_exchange_name = optional_of(entries, "fullExchangeName"@, |value: Json| string_of(value));
        let instrument_type = optional_of(entries, "instrumentType"@, |value: Json| string_of(value));
        let first_trade_date = defaulted_of(entries, "firstTradeDate"@, |value: Json| opt_timestamp_of(value));
        let regular_market_time = defaulted_of(entries, "regularMarketTime"@, |value: Json| opt_timestamp_of(value));
        if currency is Err {
            Err(currency->Err_0)
        } else if symbol is Err {
            Err(symbol->Err_0)
        } else if exchange_name is Err {
            Err(exchange_name->Err_0)
        } else if full_exchange_name is Err {
            Err(full_exchange_name->Err_0)
        } else if instrument_type is Err {
            Err(instrument_type->Err_0)
        } else if first_trade_date is Err {
            Err(first_trade_date->Err_0)
        } else if regular_market_time is Err {
            Err(regular_market_time->Err_0)
        } else {
            Ok((currency->Ok_0, symbol->Ok_0, exchange_name->Ok_0, full_exchange_name->Ok_0, instrument_type->Ok_0, first_trade_date->Ok_0, regular_market_time->Ok_0))
        }
    }

    /// Reads what [`Self::listing_of`] describes.
    fn read_listing(entries: &Vec<(String, Json)>) -> (r: Result<(
        Option<String>,
        Option<String>,
        Option<String>,
        Option<String>,
        Option<String>,
        Option<NaiveDateTime>,
        Option<NaiveDateTime>,
    ), String>)
        ensures
            agrees(r, Self::listing_of(entries@)),
    {
        let currency = optional(entries, "currency", decode_string, Ghost(|value: Json| string_of(value)))?;
        let symbol = optional(entries, "symbol", decode_string, Ghost(|value: Json| string_of(value)))?;
        let exchange_name = optional(entries, "exchangeName", decode_string, Ghost(|value: Json| string_of(value)))?;
        let full_exchange_name = optional(entries, "fullExchangeName", decode_string, Ghost(|value: Json| string_of(value)))?;
        let instrument_type = optional(entries, "instrumentType", decode_string, Ghost(|value: Json| string_of(value)))?;
        let first_trade_date = defaulted(entries, "firstTradeDate", from_opt_timestamp, Ghost(|value: Json| opt_timestamp_of(value)))?;
        let regular_market_time = defaulted(entries, "regularMarketTime", from_opt_timestamp, Ghost(|value: Json| opt_timestamp_of(value)))?;
        Ok((currency, symbol, exchange_name, full_exchange_name, instrument_type, first_trade_date, regular_market_time))
    }

    /// The members on the clock of the market and the price bounds of the year.
    pub open spec fn market_of(entries: Seq<(String, Json)>) -> Result<(
        Option<bool>,
        Option<i64>,
        Option<Seq<char>>,
        Option<Seq<char>>,
        Option<Float>,
        Option<Float>,
        Option<Float>,
    ), Seq<char>> {
        let has_pre_post_market_data = optional_of(entries, "hasPrePostMarketData"@, |value: Json| bool_of(value));
        let gmtoffset = optional_of(entries, "gmtoffset"@, |value: Json| integer_of(value));
        let timezone = optional_of(entries, "timezone"@, |value: Json| string_of(value));
        let exchange_timezone_name = optional_of(entries, "exchangeTimezoneName"@, |value: Json| string_of(value));
        let regular_market_price = optional_of(entries, "regularMarketPrice"@, |value: Json| float_of(value));
        let fifty_two_week_high = optional_of(entries, "fiftyTwoWeekHigh"@, |value: Json| float_of(value));
        let fifty_two_week_low = optional_of(entries, "fiftyTwoWeekLow"@, |value: Json| float_of(value));
        if has_pre_post_market_data is Err {
            Err(has_pre_post_market_data->Err_0)
        } else if gmtoffset is Err {
            Err(gmtoffset->Err_0)
        } else if timezone is Err {
            Err(timezone->Err_0)
        } else if exchange_timezone_name is Err {
            Err(exchange_timezone_name->Err_0)
        } else if regular_market_price is Err {
            Err(regular_market_price->Err_0)
        } else if fifty_two_week_high is Err {
            Err(fifty_two_week_high->Err_0)
        } else if fifty_two_week_low is Err {
            Err(fifty_two_week_low->Err_0)
        } else {
            Ok((has_pre_post_market_data->Ok_0, gmtoffset->Ok_0, timezone->Ok_0, exchange_timezone_name->Ok_0, regular_market_price->Ok_0, fifty_two_week_high->Ok_0, fifty_two_week_low->Ok_0))
        }
    }

    /// Reads what [`Self::market_of`] describes.
    fn read_market(entries: &Vec<(String, Json)>) -> (r: Result<(
        Option<bool>,
        Option<i64>,
        Option<String>,
        Option<String>,
        Option<Float>,
        Option<Float>,
        Option<Float>,
    ), String>)
        ensures
            agrees(r, Self::market_of(entries@)),
    {
        let has_pre_post_market_data = optional(entries, "hasPrePostMarketData", decode_bool, Ghost(|value: Json| bool_of(value)))?;
        let gmtoffset = optional(entries, "gmtoffset", decode_integer, Ghost(|value: Json| integer_of(value)))?;
        let timezone = optional(entries, "timezone", decode_string, Ghost(|value: Json| string_of(value)))?;
        let exchange_timezone_name = optional(entries, "exchangeTimezoneName", decode_string, Ghost(|value: Json| string_of(value)))?;
        let regular_market_price = optional(entries, "regularMarketPrice", decode_float, Ghost(|value: Json| float_of(value)))?;
        let fifty_two_week_high = optional(entries, "fiftyTwoWeekHigh", decode_float, Ghost(|value: Json| float_of(value)))?;
        let fifty_two_week_low = optional(entries, "fiftyTwoWeekLow", decode_float, Ghost(|value: Json| float_of(value)))?;
        Ok((has_pre_post_market_data, gmtoffset, timezone, exchange_timezone_name, regular_market_price, fifty_two_week_high, fifty_two_week_low))
    }

    /// The members on the day, the names and the closes before it.
    pub open spec fn day_of(entries: Seq<(String, Json)>) -> Result<(
        Option<Float>,
        Option<Float>,
        Option<Float>,
        Option<Seq<char>>,
        Option<Seq<char>>,
        Option<Float>,
        Option<Float>,
    ), Seq<char>> {
        let regular_market_day_high = optional_of(entries, "regularMarketDayHigh"@, |value: Json| float_of(value));
        let regular_market_day_low = optional_of(entries, "regularMarketDayLow"@, |value: Json| float_of(value));
        let regular_market_volume = optional_of(entries, "regularMarketVolume"@, |value: Json| float_of(value));
        let long_name = optional_of(entries, "longName"@, |value: Json| string_of(value));
        let short_name = optional_of(entries, "shortName"@, |value: Json| string_of(value));
        let chart_previous_close = optional_of(entries, "chartPreviousClose"@, |value: Json| float_of(value));
        let previous_close = optional_of(entries, "previousClose"@, |value: Json| float_of(value));
        if regular_market_day_high is Err {
            Err(regular_market_day_high->Err_0)
        } else if regular_market_day_low is Err {
            Err(regular_market_day_low->Err_0)
        } else if regular_market_volume is Err {
            Err(regular_market_volume->Err_0)
        } else if long_name is Err {
            Err(long_name->Err_0)
        } else if short_name is Err {
            Err(short_name->Err_0)
        } else if chart_previous_close is Err {
            Err(chart_previous_close->Err_0)
        } else if previous_close is Err {
            Err(previous_close->Err_0)
        } else {
            Ok((regular_market_day_high->Ok_0, regular_market_day_low->Ok_0, regular_market_volume->Ok_0, long_name->Ok_0, short_name->Ok_0, chart_previous_close->Ok_0, previous_close->Ok_0))
        }
    }

    /// Reads what [`Self::day_of`] describes.
    fn read_day(entries: &Vec<(String, Json)>) -> (r: Result<(
        Option<Float>,
        Option<Float>,
        Option<Float>,
        Option<String>,
        Option<String>,
        Option<Float>,
        Option<Float>,
    ), String>)
        ensures
            agrees(r, Self::day_of(entries@)),
    {
        let regular_market_day_high = optional(entries, "regularMarketDayHigh", decode_float, Ghost(|value: Json| float_of(value)))?;
        let regular_market_day_low = optional(entries, "regularMarketDayLow", decode_float, Ghost(|value: Json| float_of(value)))?;
        let regular_market_volume = optional(entries, "regularMarketVolume", decode_float, Ghost(|value: Json| float_of(value)))?;
        let long_name = optional(entries, "longName", decode_string, Ghost(|value: Json| string_of(value)))?;
        let short_name = optional(entries, "shortName", decode_string, Ghost(|value: Json| string_of(value)))?;
        let chart_previous_close = optional(entries, "chartPreviousClose", decode_float, Ghost(|value: Json| float_of(value)))?;
        let previous_close = optional(entries, "previousClose", decode_float, Ghost(|value: Json| float_of(value)))?;
        Ok((regular_market_day_high, regular_market_day_low, regular_market_volume, long_name, short_name, chart_previous_close, previous_close))
    }

    /// The members on scale, trading periods and ranges.
    pub open spec fn periods_of(entries: Seq<(String, Json)>) -> Result<(
        Option<Float>,
        Option<Float>,
        Option<CurrentTradingPeriodView>,
        Option<Seq<Seq<TradingPeriodView>>>,
        Option<Seq<char>>,
        Option<Interval>,
        Option<Seq<Interval>>,
    ), Seq<char>> {
        let scale = optional_of(entries, "scale"@, |value: Json| float_of(value));
        let price_hint = optional_of(entries, "priceHint"@, |value: Json| float_of(value));
        let current_trading_period = optional_of(entries, "currentTradingPeriod"@, |value: Json| CurrentTradingPeriod::of_json(value));
        let trading_periods = optional_of(entries, "tradingPeriods"@, |value: Json| sessions_of(value));
        let data_granularity = optional_of(entries, "dataGranularity"@, |value: Json| string_of(value));
        let range = optional_of(entries, "range"@, |value: Json| interval_of(value));
        let valid_ranges = optional_of(entries, "validRanges"@, |value: Json| intervals_of(value));
        if scale is Err {
            Err(scale->Err_0)
        } else if price_hint is Err {
            Err(price_hint->Err_0)
        } else if current_trading_period is Err {
            Err(current_trading_period->Err_0)
        } else if trading_periods is Err {
            Err(trading_periods->Err_0)
        } else if data_granularity is Err {
            Err(data_granularity->Err_0)
        } else if range is Err {
            Err(range->Err_0)
        } else if valid_ranges is Err {
            Err(valid_ranges->Err_0)
        } else {
            Ok((scale->Ok_0, price_hint->Ok_0, current_trading_period->Ok_0, trading_periods->Ok_0, data_granularity->Ok_0, range->Ok_0, valid_ranges->Ok_0))
        }
    }

    /// Reads what [`Self::periods_of`] describes.
    fn read_periods(entries: &Vec<(String, Json)>) -> (r: Result<(
        Option<Float>,
        Option<Float>,
        Option<CurrentTradingPeriod>,
        Option<Vec<Vec<TradingPeriod>>>,
        Option<String>,
        Option<Interval>,
        Option<Vec<Interval>>,
    ), String>)
        ensures
            agrees(r, Self::periods_of(entries@)),
    {
        let scale = optional(entries, "scale", decode_float, Ghost(|value: Json| float_of(value)))?;
        let price_hint = optional(entries, "priceHint", decode_float, Ghost(|value: Json| float_of(value)))?;
        let current_trading_period = optional(entries, "currentTradingPeriod", CurrentTradingPeriod::from_json, Ghost(|value: Json| CurrentTradingPeriod::of_json(value)))?;
        let trading_periods = optional(entries, "tradingPeriods", decode_sessions, Ghost(|value: Json| sessions_of(value)))?;
        let data_granularity = optional(entries, "dataGranularity", decode_string, Ghost(|value: Json| string_of(value)))?;
        let range = optional(entries, "range", decode_interval, Ghost(|value: Json| interval_of(value)))?;
        let valid_ranges = optional(entries, "validRanges", decode_intervals, Ghost(|value: Json| intervals_of(value)))?;
        Ok((scale, price_hint, current_trading_period, trading_periods, data_granularity, range, valid_ranges))
    }

    /// What a JSON value holds, read as a [`YahooMeta`]: the record, or the diagnostic of the
    /// first member, in the order of the fields, that does not decode.
    pub open spec fn of_json(json: Json) -> Result<YahooMetaView, Seq<char>> {
        match json {
            Json::Object(entries) => {
                let listing = Self::listing_of(entries@);
                let market = Self::market_of(entries@);
                let day = Self::day_of(entries@);
                let periods = Self::periods_of(entries@);
                if listing is Err {
                    Err(listing->Err_0)
                } else if market is Err {
                    Err(market->Err_0)
                } else if day is Err {
                    Err(day->Err_0)
                } else if periods is Err {
                    Err(periods->Err_0)
                } else {
                    Ok(
                        YahooMetaView {
                            currency: listing->Ok_0.0,
                            symbol: listing->Ok_0.1,
                            exchange_name: listing->Ok_0.2,
                            full_exchange_name: listing->Ok_0.3,
                            instrument_type: listing->Ok_0.4,
                            first_trade_date: listing->Ok_0.5,
                            regular_market_time: listing->Ok_0.6,
                            has_pre_post_market_data: market->Ok_0.0,
                            gmtoffset: market->Ok_0.1,
                            timezone: market->Ok_0.2,
                            exchange_timezone_name: market->Ok_0.3,
                            regular_market_price: market->Ok_0.4,
                            fifty_two_week_high: market->Ok_0.5,
                            fifty_two_week_low: market->Ok_0.6,
                            regular_market_day_high: day->Ok_0.0,
                            regular_market_day_low: day->Ok_0.1,
                            regular_market_volume: day->Ok_0.2,
                            long_name: day->Ok_0.3,
                            short_name: day->Ok_0.4,
                            chart_previous_close: day->Ok_0.5,
                            previous_close: day->Ok_0.6,
                            scale: periods->Ok_0.0,
                            price_hint: periods->Ok_0.1,
                            current_trading_period: periods->Ok_0.2,
                            trading_periods: periods->Ok_0.3,
                            data_granularity: periods->Ok_0.4,
                            range: periods->Ok_0.5,
                            valid_ranges: periods->Ok_0.6,
                        },
                    )
                }
            },
            _ => Err(": expected an object"@),
        }
    }

    /// Reads a [`YahooMeta`] from a JSON value.
    pub fn from_json(json: &Json) -> (r: Result<YahooMeta, String>)
        ensures
            agrees(r, Self::of_json(*json)),
    {
        match json {
            Json::Object(entries) => {
                let (currency, symbol, exchange_name, full_exchange_name, instrument_type, first_trade_date, regular_market_time) = Self::read_listing(entries)?;
                let (has_pre_post_market_data, gmtoffset, timezone, exchange_timezone_name, regular_market_price, fifty_two_week_high, fifty_two_week_low) = Self::read_market(entries)?;
                let (regular_market_day_high, regular_market_day_low, regular_market_volume, long_name, short_name, chart_previous_close, previous_close) = Self::read_day(entries)?;
                let (scale, price_hint, current_trading_period, trading_periods, data_granularity, range, valid_ranges) = Self::read_periods(entries)?;
                Ok(
                    YahooMeta {
                        currency,
                        symbol,
                        exchange_name,
                        full_exchange_name,
                        instrument_type,
                        first_trade_date,
                        regular_market_time,
                        has_pre_post_market_data,
                        gmtoffset,
                        timezone,
                        exchange_timezone_name,
                        regular_market_price,
                        fifty_two_week_high,
                        fifty_two_week_low,
                        regular_market_day_high,
                        regular_market_day_low,
                        regular_market_volume,
                        long_name,
                        short_name,
                        chart_previous_close,
                        previous_close,
                        scale,
                        price_hint,
                        current_trading_period,
                        trading_periods,
                        data_granularity,
                        range,
                        valid_ranges,
                    },
                )
            },
            _ => Err(String::from_str(": expected an object")),
        }
    }
}

/// A series of samples.
pub open spec fn samples_of(json: Json) -> Result<Seq<Option<Float>>, Seq<char>> {
    elements_of(json, |value: Json| sample_of(value))
}

/// Decodes what [`samples_of`] describes.
pub fn decode_samples(json: &Json) -> (r: Result<Vec<Option<Float>>, String>)
    ensures
        agrees(r, samples_of(*json)),
{
    elements(json, decode_sample, Ghost(|value: Json| sample_of(value)))
}

/// The series of one quote. Each is aligned by index with the timestamps of the
/// result; a sample is `None` where there was no trade.
#[derive(Clone, Debug, PartialEq)]
pub struct YahooChartQuote {
    pub low: Option<Vec<Option<Float>>>,
    pub open: Option<Vec<Option<Float>>>,
    pub close: Option<Vec<Option<Float>>>,
    pub high: Option<Vec<Option<Float>>>,
    pub volume: Option<Vec<Option<Float>>>,
}

/// The mathematical view of a [`YahooChartQuote`].
pub struct YahooChartQuoteView {
    pub low: Option<Seq<Option<Float>>>,
    pub open: Option<Seq<Option<Float>>>,
    pub close: Option<Seq<Option<Float>>>,
    pub high: Option<Seq<Option<Float>>>,
    pub volume: Option<Seq<Option<Float>>>,
}

impl DeepView for YahooChartQuote {
    type V = YahooChartQuoteView;

    open spec fn deep_view(&self) -> YahooChartQuoteView {
        YahooChartQuoteView {
            low: self.low.deep_view(),
            open: self.open.deep_view(),
            close: self.close.deep_view(),
            high: self.high.deep_view(),
            volume: self.volume.deep_view(),
        }
    }
}

impl YahooChartQuote {
    /// What a JSON value holds, read as a [`YahooChartQuote`]: the record, or the diagnostic of the
    /// first member, in the order of the fields, that does not decode.
    pub open spec fn of_json(json: Json) -> Result<YahooChartQuoteView, Seq<char>> {
        match json {
            Json::Object(entries) => {
                let low = optional_of(entries@, "low"@, |value: Json| samples_of(value));
                let open = optional_of(entries@, "open"@, |value: Json| samples_of(value));
                let close = optional_of(entries@, "close"@, |value: Json| samples_of(value));
                let high = optional_of(entries@, "high"@, |value: Json| samples_of(value));
                let volume = optional_of(entries@, "volume"@, |value: Json| samples_of(value));
                if low is Err {
                    Err(low->Err_0)
                } else if open is Err {
                    Err(open->Err_0)
                } else if close is Err {
                    Err(close->Err_0)
                } else if high is Err {
                    Err(high->Err_0)
                } else if volume is Err {
                    Err(volume->Err_0)
                } else {
                    Ok(
                        YahooChartQuoteView {
                            low: low->Ok_0,
                            open: open->Ok_0,
                            close: close->Ok_0,
                            high: high->Ok_0,
                            volume: volume->Ok_0,
                        },
                    )
                }
            },
            _ => Err(": expected an object"@),
        }
    }

    /// Reads a [`YahooChartQuote`] from a JSON value.
    pub fn from_json(json: &Json) -> (r: Result<YahooChartQuote, String>)
        ensures
            agrees(r, Self::of_json(*json)),
    {
        match json {
            Json::Object(entries) => {
                let low = optional(entries, "low", decode_samples, Ghost(|value: Json| samples_of(value)))?;
                let open = optional(entries, "open", decode_samples, Ghost(|value: Json| samples_of(value)))?;
                let close = optional(entries, "close", decode_samples, Ghost(|value: Json| samples_of(value)))?;
                let high = optional(entries, "high", decode_samples, Ghost(|value: Json| samples_of(value)))?;
                let volume = optional(entries, "volume", decode_samples, Ghost(|value: Json| samples_of(value)))?;
                Ok(YahooChartQuote { low, open, close, high, volume })
            },
            _ => Err(String::from_str(": expected an object")),
        }
    }
}

/// An array of quotes.
pub open spec fn quotes_of(json: Json) -> Result<Seq<YahooChartQuoteView>, Seq<char>> {
    elements_of(json, |value: Json| YahooChartQuote::of_json(value))
}

/// Decodes what [`quotes_of`] describes.
pub fn decode_quotes(json: &Json) -> (r: Result<Vec<YahooChartQuote>, String>)
    ensures
        agrees(r, quotes_of(*json)),
{
    elements(json, YahooChartQuote::from_json, Ghost(|value: Json| YahooChartQuote::of_json(value)))
}

/// The quotes of one instrument.
#[derive(Clone, Debug, PartialEq)]
pub struct YahooChartIndicators {
    pub quote: Vec<YahooChartQuote>,
}

/// The mathematical view of a [`YahooChartIndicators`].
pub struct YahooChartIndicatorsView {
    pub quote: Seq<YahooChartQuoteView>,
}

impl DeepView for YahooChartIndicators {
    type V = YahooChartIndicatorsView;

    open spec fn deep_view(&self) -> YahooChartIndicatorsView {
        YahooChartIndicatorsView {
            quote: self.quote.deep_view(),
        }
    }
}

impl YahooChartIndicators {
    /// What a JSON value holds, read as a [`YahooChartIndicators`]: the record, or the diagnostic of the
    /// first member, in the order of the fields, that does not decode.
    pub open spec fn of_json(json: Json) -> Result<YahooChartIndicatorsView, Seq<char>> {
        match json {
            Json::Object(entries) => {
                let quote = required_of(entries@, "quote"@, |value: Json| quotes_of(value));
                if quote is Err {
                    Err(quote->Err_0)
                } else {
                    Ok(
                        YahooChartIndicatorsView {
                            quote: quote->Ok_0,
                        },
                    )
                }
            },
            _ => Err(": expected an object"@),
        }
    }

    /// Reads a [`YahooChartIndicators`] from a JSON value.
    pub fn from_json(json: &Json) -> (r: Result<YahooChartIndicators, String>)
        ensures
            agrees(r, Self::of_json(*json)),
    {
        match json {
            Json::Object(entries) => {
                let quote = required(entries, "quote", decode_quotes, Ghost(|value: Json| quotes_of(value)))?;
                Ok(YahooChartIndicators { quote })
            },
            _ => Err(String::from_str(": expected an object")),
        }
    }
}

/// The data of one instrument.
#[derive(Clone, Debug, PartialEq)]
pub struct YahooChartResult {
    pub meta: YahooMeta,
    pub timestamp: Option<Vec<NaiveDateTime>>,
    pub indicators: YahooChartIndicators,
}

/// The mathematical view of a [`YahooChartResult`].
pub struct YahooChartResultView {
    pub meta: YahooMetaView,
    pub timestamp: Option<Seq<NaiveDateTime>>,
    pub indicators: YahooChartIndicatorsView,
}

impl DeepView for YahooChartResult {
    type V = YahooChartResultView;

    open spec fn deep_view(&self) -> YahooChartResultView {
        YahooChartResultView {
            meta: self.meta.deep_view(),
            timestamp: self.timestamp.deep_view(),
            indicators: self.indicators.deep_view(),
        }
    }
}

impl YahooChartResult {
    /// What a JSON value holds, read as a [`YahooChartResult`]: the record, or the diagnostic of the
    /// first member, in the order of the fields, that does not decode.
    pub open spec fn of_json(json: Json) -> Result<YahooChartResultView, Seq<char>> {
        match json {
            Json::Object(entries) => {
                let meta = required_of(entries@, "meta"@, |value: Json| YahooMeta::of_json(value));
                let timestamp = defaulted_of(entries@, "timestamp"@, |value: Json| opt_vector_timestamp_of(value));
                let indicators = required_of(entries@, "indicators"@, |value: Json| YahooChartIndicators::of_json(value));
                if meta is Err {
                    Err(meta->Err_0)
                } else if timestamp is Err {
                    Err(timestamp->Err_0)
                } else if indicators is Err {
                    Err(indicators->Err_0)
                } else {
                    Ok(
                        YahooChartResultView {
                            meta: meta->Ok_0,
                            timestamp: timestamp->Ok_0,
                            indicators: indicators->Ok_0,
                        },
                    )
                }
            },
            _ => Err(": expected an object"@),
        }
    }

    /// Reads a [`YahooChartResult`] from a JSON value.
    pub fn from_json(json: &Json) -> (r: Result<YahooChartResult, String>)
        ensures
            agrees(r, Self::of_json(*json)),
    {
        match json {
            Json::Object(entries) => {
                let meta = required(entries, "meta", YahooMeta::from_json, Ghost(|value: Json| YahooMeta::of_json(value)))?;
                let timestamp = defaulted(entries, "timestamp", from_opt_vector_timestamp, Ghost(|value: Json| opt_vector_timestamp_of(value)))?;
                let indicators = required(entries, "indicators", YahooChartIndicators::from_json, Ghost(|value: Json| YahooChartIndicators::of_json(value)))?;
                Ok(YahooChartResult { meta, timestamp, indicators })
            },
            _ => Err(String::from_str(": expected an object")),
        }
    }
}

/// An array of results.
pub open spec fn results_of(json: Json) -> Result<Seq<YahooChartResultView>, Seq<char>> {
    elements_of(json, |value: Json| YahooChartResult::of_json(value))
}

/// Decodes what [`results_of`] describes.
pub fn decode_results(json: &Json) -> (r: Result<Vec<YahooChartResult>, String>)
    ensures
        agrees(r, results_of(*json)),
{
    elements(json, YahooChartResult::from_json, Ghost(|value: Json| YahooChartResult::of_json(value)))
}

/// The chart of a reply.
#[derive(Clone, Debug, PartialEq)]
pub struct YahooChart {
    pub result: Vec<YahooChartResult>,
}

/// The mathematical view of a [`YahooChart`].
pub struct YahooChartView {
    pub result: Seq<YahooChartResultView>,
}

impl DeepView for YahooChart {
    type V = YahooChartView;

    open spec fn deep_view(&self) -> YahooChartView {
        YahooChartView {
            result: self.result.deep_view(),
        }
    }
}

impl YahooChart {
    /// What a JSON value holds, read as a [`YahooChart`]: the record, or the diagnostic of the
    /// first member, in the order of the fields, that does not decode.
    pub open spec fn of_json(json: Json) -> Result<YahooChartView, Seq<char>> {
        match json {
            Json::Object(entries) => {
                let result = required_of(entries@, "result"@, |value: Json| results_of(value));
                if result is Err {
                    Err(result->Err_0)
                } else {
                    Ok(
                        YahooChartView {
                            result: result->Ok_0,
                        },
                    )
                }
            },
            _ => Err(": expected an object"@),
        }
    }

    /// Reads a [`YahooChart`] from a JSON value.
    pub fn from_json(json: &Json) -> (r: Result<YahooChart, String>)
        ensures
            agrees(r, Self::of_json(*json)),
    {
        match json {
            Json::Object(entries) => {
                let result = required(entries, "result", decode_results, Ghost(|value: Json| results_of(value)))?;
                Ok(YahooChart { result })
            },
            _ => Err(String::from_str(": expected an object")),
        }
    }
}

/// A reply of the chart endpoint.
#[derive(Clone, Debug, PartialEq)]
pub struct YahooResult {
    pub chart: YahooChart,
}

/// The mathematical view of a [`YahooResult`].
pub struct YahooResultView {
    pub chart: YahooChartView,
}

impl DeepView for YahooResult {
    type V = YahooResultView;

    open spec fn deep_view(&self) -> YahooResultView {
        YahooResultView {
            chart: self.chart.deep_view(),
        }
    }
}

impl YahooResult {
    /// What a JSON value holds, read as a [`YahooResult`]: the record, or the diagnostic of the
    /// first member, in the order of the fields, that does not decode.
    pub open spec fn of_json(json: Json) -> Result<YahooResultView, Seq<char>> {
        match json {
            Json::Object(entries) => {
                let chart = required_of(entries@, "chart"@, |value: Json| YahooChart::of_json(value));
                if chart is Err {
                    Err(chart->Err_0)
                } else {
                    Ok(
                        YahooResultView {
                            chart: chart->Ok_0,
                        },
                    )
                }
            },
            _ => Err(": expected an object"@),
        }
    }

    /// Reads a [`YahooResult`] from a JSON value.
    pub fn from_json(json: &Json) -> (r: Result<YahooResult, String>)
        ensures
            agrees(r, Self::of_json(*json)),
    {
        match json {
            Json::Object(entries) => {
                let chart = required(entries, "chart", YahooChart::from_json, Ghost(|value: Json| YahooChart::of_json(value)))?;
                Ok(YahooResult { chart })
            },
            _ => Err(String::from_str(": expected an object")),
        }
    }
}

/// What the text of a reply holds: the reply, or a diagnostic. The diagnostic is that of
/// the JSON reader where the text is no JSON document, and else the place, counted from the
/// root `$`, where the document is no chart reply.
pub open spec fn reply_of(body: Seq<char>) -> Result<YahooResultView, Seq<char>> {
    match json_text_value(body) {
        Err(message) => Err(message),
        Ok(json) => match YahooResult::of_json(json) {
            Ok(reply) => Ok(reply),
            Err(place) => Err("$"@ + place),
        },
    }
}

/// The message of the error for a reply that does not decode: the diagnostic, then the
/// whole text of the reply.
pub open spec fn decode_failure(diagnostic: Seq<char>, body: Seq<char>) -> Seq<char> {
    "failed to parse json because "@ + diagnostic + " : "@ + body + " "@
}

/// Whether `r` is the outcome of decoding the reply `body`.
pub open spec fn decodes(body: Seq<char>, r: Result<YahooResult, Error>) -> bool {
    match r {
        Ok(reply) => reply_of(body) == Ok::<YahooResultView, Seq<char>>(reply.deep_view()),
        Err(Error::Json(message)) => reply_of(body) is Err && message@ == decode_failure(
            reply_of(body)->Err_0,
            body,
        ),
        Err(_) => false,
    }
}

/// The error for a reply that does not decode.
fn json_error(diagnostic: &str, body: &str) -> (r: Error)
    ensures
        r matches Error::Json(message) && message@ == decode_failure(diagnostic@, body@),
{
    let mut message = String::from_str("failed to parse json because ");
    message.append(diagnostic);
    message.append(" : ");
    message.append(body);
    message.append(" ");
    Error::Json(message)
}

/// Decodes the text of a reply. The reply decodes as a whole or not at all, and every
/// failure is an [`Error::Json`].
pub fn decode(body: &str) -> (r: Result<YahooResult, Error>)
    ensures
        decodes(body@, r),
{
    match json_from_text(body) {
        Err(message) => Err(json_error(message.as_str(), body)),
        Ok(json) => match YahooResult::from_json(&json) {
            Ok(reply) => Ok(reply),
            Err(place) => {
                let mut diagnostic = String::from_str("$");
                diagnostic.append(place.as_str());
                Err(json_error(diagnostic.as_str(), body))
            },
        },
    }
}

/// A series decodes whenever each of its elements is a number or null. It keeps its length,
/// and a sample is missing exactly where the element is null.
pub proof fn lemma_samples_keep_their_places(items: Vec<Json>)
    requires
        forall|i: int| 0 <= i < items@.len() ==> (#[trigger] items@[i]) is Null || items@[i] is Number,
    ensures
        samples_of(Json::Array(items)) matches Ok(samples) && samples.len() == items@.len() && forall|
            i: int,
        |
            0 <= i < items@.len() ==> #[trigger] samples[i] == match items@[i] {
                Json::Number(number) => Some(number.float),
                _ => None::<Float>,
            },
{
    let model = |value: Json| sample_of(value);
    lemma_elements_pointwise(items@, model, items@.len());
    assert forall|i: int| 0 <= i < items@.len() implies (#[trigger] model(items@[i])) is Ok by {
        assert(items@[i] is Null || items@[i] is Number);
    }
}

/// A result whose `timestamp` is missing or null has no timestamps, and decodes exactly
/// when its `meta` and its `indicators` do.
pub proof fn lemma_timestamp_may_be_absent(entries: Vec<(String, Json)>)
    requires
        lookup(entries@, "timestamp"@) is None || lookup(entries@, "timestamp"@) == Some(Json::Null),
    ensures
        match YahooChartResult::of_json(Json::Object(entries)) {
            Ok(result) => result.timestamp is None,
            Err(_) => required_of(entries@, "meta"@, |value: Json| YahooMeta::of_json(value)) is Err
                || required_of(
                entries@,
                "indicators"@,
                |value: Json| YahooChartIndicators::of_json(value),
            ) is Err,
        },
{
}

/// A chart without the member `result` does not decode.
pub proof fn lemma_chart_needs_result(entries: Vec<(String, Json)>)
    requires
        lookup(entries@, "result"@) is None,
    ensures
        YahooChart::of_json(Json::Object(entries)) == Err::<YahooChartView, Seq<char>>(
            at_field("result"@, ": missing"@),
        ),
{
}

/// A reply whose chart has no member `result` does not decode, whatever else it holds.
pub proof fn lemma_reply_needs_result(body: Seq<char>, root: Vec<(String, Json)>, chart: Vec<(String, Json)>)
    requires
        json_text_value(body) == Ok::<Json, Seq<char>>(Json::Object(root)),
        lookup(root@, "chart"@) == Some(Json::Object(chart)),
        lookup(chart@, "result"@) is None,
    ensures
        reply_of(body) == Err::<YahooResultView, Seq<char>>(
            "$"@ + at_field("chart"@, at_field("result"@, ": missing"@)),
        ),
{
    lemma_chart_needs_result(chart);
}

} // verus!
