//! Typed client core for the Yahoo Finance chart endpoint.
//!
//! A [`YahooBuilder`] collects a ticker, a period and a range and renders them into a
//! [`ChartRequest`]. The text of the reply is read as JSON and decoded into a
//! [`YahooResult`], or refused with an [`Error`] that says where it departs from a chart.
//! Sending the request is left to the caller.

pub mod builder;
pub mod chart;
pub mod decode;
pub mod error;
pub mod interval;
pub mod json;
pub mod text;
pub mod time;

pub use builder::{ChartRequest, Stage, TransportFailure, YahooBuilder};
pub use chart::{
    CurrentTradingPeriod, TradingPeriod, YahooChart, YahooChartIndicators, YahooChartQuote,
    YahooChartResult, YahooMeta, YahooResult,
};
pub use error::Error;
pub use interval::{Interval, ParseError};
pub use json::{Float, Json, Number};
pub use time::{NaiveDate, NaiveDateTime};
