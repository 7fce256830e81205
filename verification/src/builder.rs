//! The chart request: what it is made of, how it is rendered, and what becomes of its
//! outcome.
//!
//! The library does not talk to the network. [`YahooBuilder::prepare`] gives the request to
//! send; whoever sends it hands the outcome to [`ChartRequest::complete`].

use crate::chart::{decode, decodes, YahooResult};
use crate::error::Error;
use crate::interval::Interval;
use crate::text::{decimal, decimal_string, percent_encoded, push_percent_encoded};
use crate::time::{utc_midnight_seconds, NaiveDate};
use vstd::prelude::*;

verus! {

/// Collects what a chart request is made of: the ticker, a period and a range.
#[derive(Debug)]
pub struct YahooBuilder {
    ticker: Option<String>,
    period_begin: Option<NaiveDate>,
    period_end: Option<NaiveDate>,
    interval: Option<Interval>,
}

/// The mathematical view of a [`YahooBuilder`]. A date is its year, month and day.
pub struct YahooBuilderView {
    pub ticker: Option<Seq<char>>,
    pub period_begin: Option<(int, int, int)>,
    pub period_end: Option<(int, int, int)>,
    pub interval: Option<Interval>,
}

impl View for YahooBuilder {
    type V = YahooBuilderView;

    closed spec fn view(&self) -> YahooBuilderView {
        YahooBuilderView {
            ticker: match self.ticker {
                Some(ticker) => Some(ticker@),
                None => None,
            },
            period_begin: match self.period_begin {
                Some(date) => Some(date@),
                None => None,
            },
            period_end: match self.period_end {
                Some(date) => Some(date@),
                None => None,
            },
            interval: self.interval,
        }
    }
}

/// What went wrong on the way to the reply.
#[derive(Clone, Copy, Debug, PartialEq, Eq, Structural)]
pub enum Stage {
    /// The transport could not be set up.
    Initialize,
    /// The request was not answered.
    Send,
    /// The body of the answer could not be read as text.
    Body,
}

/// A failure of the transport, with its cause in words.
#[derive(Debug)]
pub struct TransportFailure {
    pub stage: Stage,
    pub cause: String,
}

/// A chart request, ready to be sent with `GET`.
#[derive(Debug)]
pub struct ChartRequest {
    /// The address, with the ticker in its path.
    pub url: String,
    /// The query parameters, in their order.
    pub query: Vec<(&'static str, String)>,
}

/// The address of the chart endpoint, up to the ticker.
pub open spec fn chart_base() -> Seq<char> {
    "https://query1.finance.yahoo.com/v8/finance/chart/"@
}

/// The message of the error for a request without a ticker.
pub open spec fn missing_ticker() -> Seq<char> {
    "ticker argument is mandatoty"@
}

/// The query parameter of one end of the period, where that end is set.
pub open spec fn period_pair(name: Seq<char>, seconds: Option<int>) -> Seq<(Seq<char>, Seq<char>)> {
    match seconds {
        Some(s) => seq![(name, decimal(s))],
        None => Seq::empty(),
    }
}

/// The query parameter of the range, where it is set.
pub open spec fn interval_pair(interval: Option<Interval>) -> Seq<(Seq<char>, Seq<char>)> {
    match interval {
        Some(v) => seq![("interval"@, v.token())],
        None => Seq::empty(),
    }
}

/// The query parameters of a request: `period1`, `period2` and `interval`, each where it
/// is set, in this order. The periods are epoch seconds.
pub open spec fn query_of(period1: Option<int>, period2: Option<int>, interval: Option<Interval>) -> Seq<
    (Seq<char>, Seq<char>),
> {
    period_pair("period1"@, period1) + period_pair("period2"@, period2) + interval_pair(interval)
}

/// A count of seconds as an integer.
pub open spec fn widened(seconds: Option<i64>) -> Option<int> {
    match seconds {
        Some(s) => Some(s as int),
        None => None,
    }
}

/// The seconds of midnight UTC at the start of a date, where there is a date.
pub open spec fn midnight_of(date: Option<(int, int, int)>) -> Option<int> {
    match date {
        Some(ymd) => Some(utc_midnight_seconds(ymd.0, ymd.1, ymd.2)),
        None => None,
    }
}

/// Query parameters as they stand in a URL: `name=value`, joined by `&`.
pub open spec fn query_text(pairs: Seq<(Seq<char>, Seq<char>)>) -> Seq<char>
    decreases pairs.len(),
{
    if pairs.len() == 0 {
        Seq::empty()
    } else if pairs.len() == 1 {
        pairs[0].0 + seq!['='] + pairs[0].1
    } else {
        query_text(pairs.drop_last()) + seq!['&'] + pairs.last().0 + seq!['='] + pairs.last().1
    }
}

/// The message of the error for a failure of the transport.
pub open spec fn transport_failure(stage: Stage, url: Seq<char>, cause: Seq<char>) -> Seq<char> {
    match stage {
        Stage::Initialize => "failed to init reqwest : "@ + cause,
        Stage::Send => "failed to request '"@ + url + "' because:"@ + cause,
        Stage::Body => "failed to read body '"@ + url + "' because:"@ + cause,
    }
}

/// Whether `request` is the request that a builder with the view `builder` prepares.
pub open spec fn prepares(builder: YahooBuilderView, request: ChartRequest) -> bool {
    &&& builder.ticker is Some
    &&& request.url@ == chart_base() + percent_encoded(vstd::utf8::encode_utf8(builder.ticker->0))
    &&& request.query.deep_view() == query_of(
        midnight_of(builder.period_begin),
        midnight_of(builder.period_end),
        builder.interval,
    )
}

/// Whether `r` is what becomes of the outcome of the request to `url`: the failure of the
/// transport as an error of its stage, and the body of the answer decoded.
pub open spec fn completes(
    url: Seq<char>,
    outcome: Result<String, TransportFailure>,
    r: Result<YahooResult, Error>,
) -> bool {
    match outcome {
        Ok(body) => decodes(body@, r),
        Err(failure) => match failure.stage {
            Stage::Initialize => r matches Err(Error::Initialize(message)) && message@
                == transport_failure(failure.stage, url, failure.cause@),
            _ => r matches Err(Error::Request(message)) && message@ == transport_failure(
                failure.stage,
                url,
                failure.cause@,
            ),
        },
    }
}

/// The headers that every chart request carries.
pub fn default_headers() -> (r: Vec<(&'static str, &'static str)>)
    ensures
        r.deep_view() == seq![
            ("Connection"@, "keep-alive"@),
            ("Expires"@, "-1"@),
            ("Upgrade-Insecure-Requests"@, "1"@),
            (
                "User-Agent"@,
                "Mozilla/5.0 (Windows NT 10.0; WOW64) AppleWebKit/537.36 (KHTML, like Gecko) Chrome/54.0.2840.99 Safari/537.36"@,
            ),
        ],
{
    let mut headers: Vec<(&'static str, &'static str)> = Vec::new();
    headers.push(("Connection", "keep-alive"));
    headers.push(("Expires", "-1"));
    headers.push(("Upgrade-Insecure-Requests", "1"));
    headers.push(
        (
            "User-Agent",
            "Mozilla/5.0 (Windows NT 10.0; WOW64) AppleWebKit/537.36 (KHTML, like Gecko) Chrome/54.0.2840.99 Safari/537.36",
        ),
    );
    proof {
        assert(headers.deep_view() =~= seq![
            ("Connection"@, "keep-alive"@),
            ("Expires"@, "-1"@),
            ("Upgrade-Insecure-Requests"@, "1"@),
            (
                "User-Agent"@,
                "Mozilla/5.0 (Windows NT 10.0; WOW64) AppleWebKit/537.36 (KHTML, like Gecko) Chrome/54.0.2840.99 Safari/537.36"@,
            ),
        ]);
    }
    headers
}

/// Renders the query parameters of a request from the epoch seconds of its period.
pub fn chart_query(period1: Option<i64>, period2: Option<i64>, interval: Option<Interval>) -> (r:
    Vec<(&'static str, String)>)
    ensures
        r.deep_view() == query_of(widened(period1), widened(period2), interval),
{
    let mut query: Vec<(&'static str, String)> = Vec::new();
    assert(query.deep_view() =~= Seq::<(Seq<char>, Seq<char>)>::empty());
    if let Some(seconds) = period1 {
        let ghost before = query.deep_view();
        query.push(("period1", decimal_string(seconds)));
        assert(query.deep_view() =~= before + period_pair("period1"@, widened(period1)));
    }
    if let Some(seconds) = period2 {
        let ghost before = query.deep_view();
        query.push(("period2", decimal_string(seconds)));
        assert(query.deep_view() =~= before + period_pair("period2"@, widened(period2)));
    }
    if let Some(v) = interval {
        let ghost before = query.deep_view();
        query.push(("interval", v.to_string()));
        assert(query.deep_view() =~= before + interval_pair(interval));
    }
    assert(query.deep_view() =~= query_of(widened(period1), widened(period2), interval));
    query
}

/// Writes query parameters as they stand in a URL.
pub fn query_string(pairs: &Vec<(&'static str, String)>) -> (r: String)
    ensures
        r@ == query_text(pairs.deep_view()),
{
    let mut out = String::new();
    let mut i: usize = 0;
    let ghost all = pairs.deep_view();
    assert(all.take(0) =~= Seq::<(Seq<char>, Seq<char>)>::empty());
    while i < pairs.len()
        invariant
            i <= pairs@.len(),
            all == pairs.deep_view(),
            out@ == query_text(all.take(i as int)),
        decreases pairs@.len() - i,
    {
        let ghost before = out@;
        proof {
            assert(all.take(i + 1).drop_last() =~= all.take(i as int));
            assert(all.take(i + 1).last() == all[i as int]);
            assert(all[i as int] == (pairs@[i as int].0@, pairs@[i as int].1@));
        }
        if i > 0 {
            out.push('&');
        }
        out.append(pairs[i].0);
        out.push('=');
        out.append(pairs[i].1.as_str());
        proof {
            if i == 0 {
                assert(out@ =~= all[0].0 + seq!['='] + all[0].1);
            } else {
                assert(out@ =~= before + seq!['&'] + all[i as int].0 + seq!['='] + all[i as int].1);
            }
        }
        i += 1;
    }
    assert(all.take(pairs@.len() as int) =~= all);
    out
}

impl YahooBuilder {
    /// A builder with nothing set.
    pub fn new() -> (r: YahooBuilder)
        ensures
            r@ == (YahooBuilderView {
                ticker: None,
                period_begin: None,
                period_end: None,
                interval: None,
            }),
    {
        YahooBuilder { ticker: None, period_begin: None, period_end: None, interval: None }
    }

    /// Sets the ticker. Nothing is asked of it here.
    pub fn set_ticker(&mut self, ticker: &str) -> (r: &mut Self)
        ensures
            r@ == (YahooBuilderView { ticker: Some(ticker@), ..old(self)@ }),
            *final(self) == *final(r),
    {
        self.ticker = Some(String::from_str(ticker));
        self
    }

    /// Sets both ends of the period. Nothing is asked of their order.
    pub fn set_period(&mut self, begin: NaiveDate, end: NaiveDate) -> (r: &mut Self)
        ensures
            r@ == (YahooBuilderView {
                period_begin: Some(begin@),
                period_end: Some(end@),
                ..old(self)@
            }),
            *final(self) == *final(r),
    {
        self.period_begin = Some(begin);
        self.period_end = Some(end);
        self
    }

    /// Sets the range.
    pub fn set_interval(&mut self, interval: Interval) -> (r: &mut Self)
        ensures
            r@ == (YahooBuilderView { interval: Some(interval), ..old(self)@ }),
            *final(self) == *final(r),
    {
        self.interval = Some(interval);
        self
    }

    /// The query parameters of the request: each end of the period as the epoch seconds of
    /// its midnight in UTC, and the range as its token.
    pub fn make_chart_query(&self) -> (r: Vec<(&'static str, String)>)
        ensures
            r.deep_view() == query_of(
                midnight_of(self@.period_begin),
                midnight_of(self@.period_end),
                self@.interval,
            ),
    {
        let period1 = match &self.period_begin {
            Some(date) => Some(date.midnight_utc()),
            None => None,
        };
        let period2 = match &self.period_end {
            Some(date) => Some(date.midnight_utc()),
            None => None,
        };
        chart_query(period1, period2, self.interval)
    }

    /// The request to send. It fails, before anything is sent, exactly where no ticker is
    /// set. The ticker stands percent-encoded at the end of the path.
    pub fn prepare(&self) -> (r: Result<ChartRequest, Error>)
        ensures
            match r {
                Ok(request) => prepares(self@, request),
                Err(Error::Initialize(message)) => self@.ticker is None && message@
                    == missing_ticker(),
                Err(_) => false,
            },
    {
        match &self.ticker {
            None => Err(Error::Initialize(String::from_str("ticker argument is mandatoty"))),
            Some(ticker) => {
                let mut url = String::from_str(
                    "https://query1.finance.yahoo.com/v8/finance/chart/",
                );
                push_percent_encoded(&mut url, ticker.as_str());
                Ok(ChartRequest { url, query: self.make_chart_query() })
            },
        }
    }
}

impl YahooBuilder {
    /// Requests the chart: prepares the request, has `send` send it once, and completes
    /// it with the outcome. Without a ticker it fails before `send` is called.
    pub fn request_chart<F: FnOnce(&ChartRequest) -> Result<String, TransportFailure>>(
        &self,
        send: F,
    ) -> (r: Result<YahooResult, Error>)
        requires
            forall|request: &ChartRequest| #[trigger] call_requires(send, (request,)),
        ensures
            match self@.ticker {
                None => r matches Err(Error::Initialize(message)) && message@ == missing_ticker(),
                Some(_) => exists|request: ChartRequest, outcome: Result<String, TransportFailure>|
                    {
                        &&& prepares(self@, request)
                        &&& #[trigger] call_ensures(send, (&request,), outcome)
                        &&& completes(request.url@, outcome, r)
                    },
            },
    {
        match self.prepare() {
            Err(error) => Err(error),
            Ok(request) => {
                let outcome = send(&request);
                let ghost sent = outcome;
                let r = request.complete(outcome);
                proof {
                    assert(prepares(self@, request) && call_ensures(send, (&request,), sent)
                        && completes(request.url@, sent, r));
                }
                r
            },
        }
    }
}

impl Default for YahooBuilder {
    fn default() -> (r: YahooBuilder)
        ensures
            r@ == (YahooBuilderView {
                ticker: None,
                period_begin: None,
                period_end: None,
                interval: None,
            }),
    {
        YahooBuilder::new()
    }
}

impl ChartRequest {
    /// The address with the query behind it.
    pub fn target(&self) -> (r: String)
        ensures
            r@ == if self.query@.len() == 0 {
                self.url@
            } else {
                self.url@ + seq!['?'] + query_text(self.query.deep_view())
            },
    {
        let mut out = self.url.clone();
        if self.query.len() > 0 {
            out.push('?');
            out.append(query_string(&self.query).as_str());
        }
        out
    }

    /// The error for a failure of the transport on this request.
    pub fn transport_error(&self, failure: &TransportFailure) -> (r: Error)
        ensures
            match failure.stage {
                Stage::Initialize => r matches Error::Initialize(message) && message@
                    == transport_failure(failure.stage, self.url@, failure.cause@),
                _ => r matches Error::Request(message) && message@ == transport_failure(
                    failure.stage,
                    self.url@,
                    failure.cause@,
                ),
            },
    {
        match failure.stage {
            Stage::Initialize => {
                let mut message = String::from_str("failed to init reqwest : ");
                message.append(failure.cause.as_str());
                Error::Initialize(message)
            },
            Stage::Send => {
                let mut message = String::from_str("failed to request '");
                message.append(self.url.as_str());
                message.append("' because:");
                message.append(failure.cause.as_str());
                Error::Request(message)
            },
            Stage::Body => {
                let mut message = String::from_str("failed to read body '");
                message.append(self.url.as_str());
                message.append("' because:");
                message.append(failure.cause.as_str());
                Error::Request(message)
            },
        }
    }

    /// What becomes of the outcome of this request: the failure of the transport as it is,
    /// and the body of the answer decoded.
    pub fn complete(&self, outcome: Result<String, TransportFailure>) -> (r: Result<
        YahooResult,
        Error,
    >)
        ensures
            completes(self.url@, outcome, r),
    {
        match outcome {
            Ok(body) => decode(body.as_str()),
            Err(failure) => Err(self.transport_error(&failure)),
        }
    }
}

} // verus!
