use yahoo_finance_api::builder::{chart_query, default_headers, query_string};
use yahoo_finance_api::{Error, Interval, NaiveDate, Stage, TransportFailure, YahooBuilder};

fn date(year: i32, month: u32, day: u32) -> NaiveDate {
    NaiveDate::from_ymd_opt(year, month, day).unwrap()
}

#[test]
fn request_without_ticker_is_refused() {
    let builder = YahooBuilder::new();
    match builder.prepare() {
        Err(Error::Initialize(message)) => assert_eq!(message, "ticker argument is mandatoty"),
        other => panic!("expected a missing ticker, got {:?}", other),
    }
    let mut builder = YahooBuilder::default();
    builder.set_period(date(2023, 1, 1), date(2023, 1, 31)).set_interval(Interval::Day1);
    assert!(matches!(builder.prepare(), Err(Error::Initialize(_))));
}

#[test]
fn period_and_interval_render_as_query() {
    let mut builder = YahooBuilder::new();
    builder.set_ticker("AAPL");
    builder.set_period(date(2023, 1, 1), date(2023, 1, 31));
    builder.set_interval(Interval::parse("1d").unwrap());
    let query = builder.make_chart_query();
    assert_eq!(
        query,
        vec![
            ("period1", "1672531200".to_string()),
            ("period2", "1675123200".to_string()),
            ("interval", "1d".to_string()),
        ]
    );
    assert_eq!(query_string(&query), "period1=1672531200&period2=1675123200&interval=1d");
    let request = builder.prepare().unwrap();
    assert_eq!(request.url, "https://query1.finance.yahoo.com/v8/finance/chart/AAPL");
    assert_eq!(request.query, query);
    assert_eq!(
        request.target(),
        "https://query1.finance.yahoo.com/v8/finance/chart/AAPL?period1=1672531200&period2=1675123200&interval=1d"
    );
}

#[test]
fn what_is_not_set_is_not_rendered() {
    let mut builder = YahooBuilder::new();
    builder.set_ticker("MSFT");
    let request = builder.prepare().unwrap();
    assert!(request.query.is_empty());
    assert_eq!(request.target(), "https://query1.finance.yahoo.com/v8/finance/chart/MSFT");
    builder.set_interval(Interval::Max);
    let request = builder.prepare().unwrap();
    assert_eq!(request.query, vec![("interval", "max".to_string())]);
    assert_eq!(
        request.target(),
        "https://query1.finance.yahoo.com/v8/finance/chart/MSFT?interval=max"
    );
}

#[test]
fn setters_chain_and_the_last_call_counts() {
    let mut builder = YahooBuilder::new();
    builder
        .set_ticker("AAPL")
        .set_interval(Interval::Year1)
        .set_period(date(2020, 2, 29), date(2019, 1, 1))
        .set_ticker("BRK.B")
        .set_interval(Interval::YearToDate);
    let request = builder.prepare().unwrap();
    assert_eq!(
        request.target(),
        "https://query1.finance.yahoo.com/v8/finance/chart/BRK.B?period1=1582934400&period2=1546300800&interval=ytd"
    );
}

#[test]
fn ticker_is_percent_encoded_in_the_path() {
    let mut builder = YahooBuilder::new();
    builder.set_ticker("^GSPC");
    assert_eq!(
        builder.prepare().unwrap().url,
        "https://query1.finance.yahoo.com/v8/finance/chart/%5EGSPC"
    );
    builder.set_ticker("EURUSD=X");
    assert_eq!(
        builder.prepare().unwrap().url,
        "https://query1.finance.yahoo.com/v8/finance/chart/EURUSD%3DX"
    );
    builder.set_ticker("");
    assert_eq!(
        builder.prepare().unwrap().url,
        "https://query1.finance.yahoo.com/v8/finance/chart/"
    );
}

#[test]
fn query_from_epoch_seconds() {
    assert_eq!(chart_query(None, None, None), vec![]);
    assert_eq!(
        chart_query(Some(-86400), None, Some(Interval::Empty)),
        vec![("period1", "-86400".to_string()), ("interval", String::new())]
    );
    assert_eq!(
        query_string(&chart_query(None, Some(0), Some(Interval::Month3))),
        "period2=0&interval=3mo"
    );
    assert_eq!(query_string(&vec![]), "");
}

#[test]
fn headers_are_the_fixed_four() {
    assert_eq!(
        default_headers(),
        vec![
            ("Connection", "keep-alive"),
            ("Expires", "-1"),
            ("Upgrade-Insecure-Requests", "1"),
            (
                "User-Agent",
                "Mozilla/5.0 (Windows NT 10.0; WOW64) AppleWebKit/537.36 (KHTML, like Gecko) Chrome/54.0.2840.99 Safari/537.36"
            ),
        ]
    );
}

#[test]
fn transport_failures_become_errors() {
    let mut builder = YahooBuilder::new();
    builder.set_ticker("AAPL").set_interval(Interval::Day5);
    let request = builder.prepare().unwrap();
    let failed = |stage: Stage| request.complete(Err(TransportFailure { stage, cause: "boom".to_string() }));
    match failed(Stage::Initialize) {
        Err(Error::Initialize(message)) => assert_eq!(message, "failed to init reqwest : boom"),
        other => panic!("{:?}", other),
    }
    match failed(Stage::Send) {
        Err(Error::Request(message)) => assert_eq!(
            message,
            "failed to request 'https://query1.finance.yahoo.com/v8/finance/chart/AAPL' because:boom"
        ),
        other => panic!("{:?}", other),
    }
    match failed(Stage::Body) {
        Err(Error::Request(message)) => assert_eq!(
            message,
            "failed to read body 'https://query1.finance.yahoo.com/v8/finance/chart/AAPL' because:boom"
        ),
        other => panic!("{:?}", other),
    }
}

#[test]
fn the_body_of_the_answer_is_decoded() {
    let mut builder = YahooBuilder::new();
    builder.set_ticker("AAPL");
    let request = builder.prepare().unwrap();
    let reply = request
        .complete(Ok(r#"{"chart":{"result":[{"meta":{"symbol":"AAPL"},"indicators":{"quote":[]}}]}}"#.to_string()))
        .unwrap();
    assert_eq!(reply.chart.result[0].meta.symbol.as_deref(), Some("AAPL"));
    match request.complete(Ok("{}".to_string())) {
        Err(Error::Json(message)) => {
            assert_eq!(message, "failed to parse json because $.chart: missing : {} ")
        },
        other => panic!("{:?}", other),
    }
}

#[test]
fn nothing_is_sent_without_a_ticker() {
    let mut builder = YahooBuilder::new();
    builder.set_interval(Interval::Day1);
    let mut sent = false;
    let r = builder.request_chart(|_| {
        sent = true;
        Ok(String::new())
    });
    assert!(!sent);
    match r {
        Err(Error::Initialize(message)) => assert_eq!(message, "ticker argument is mandatoty"),
        other => panic!("{:?}", other),
    }
}

#[test]
fn the_request_is_sent_once_and_its_answer_decoded() {
    let mut builder = YahooBuilder::new();
    builder.set_ticker("AAPL").set_period(date(2023, 1, 1), date(2023, 1, 31)).set_interval(Interval::Day1);
    let mut seen = Vec::new();
    let reply = builder
        .request_chart(|request| {
            seen.push(request.target());
            Ok(r#"{"chart":{"result":[{"meta":{"range":"1d"},"indicators":{"quote":[]}}]}}"#.to_string())
        })
        .unwrap();
    assert_eq!(
        seen,
        vec!["https://query1.finance.yahoo.com/v8/finance/chart/AAPL?period1=1672531200&period2=1675123200&interval=1d"]
    );
    assert_eq!(reply.chart.result[0].meta.range, Some(Interval::Day1));
    let r = builder.request_chart(|_| Err(TransportFailure { stage: Stage::Send, cause: "no route".to_string() }));
    match r {
        Err(Error::Request(message)) => assert_eq!(
            message,
            "failed to request 'https://query1.finance.yahoo.com/v8/finance/chart/AAPL' because:no route"
        ),
        other => panic!("{:?}", other),
    }
}
