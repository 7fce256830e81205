use std::str::FromStr;
use yahoo_finance_api::Interval;

#[test]
fn parse_reads_the_token_of_every_interval() {
    for v in Interval::all() {
        assert_eq!(Interval::parse(v.as_str()).unwrap(), v);
        assert_eq!(Interval::parse(&v.to_string()).unwrap(), v);
    }
}

#[test]
fn tokens_are_the_documented_ones() {
    let tokens: Vec<String> = Interval::all().iter().map(|v| v.to_string()).collect();
    assert_eq!(
        tokens,
        vec!["1d", "5d", "1mo", "3mo", "6mo", "1y", "2y", "5y", "10y", "ytd", "max", ""]
    );
}

#[test]
fn parse_names_the_token_it_refuses() {
    let e = Interval::parse("7d").unwrap_err();
    assert_eq!(e.input, "7d");
    assert!(Interval::parse("1D").is_err());
    assert!(Interval::parse(" 1d").is_err());
    assert!(Interval::parse("1d ").is_err());
    assert!(Interval::parse("1m\u{00f6}").is_err());
}

#[test]
fn parse_reads_the_empty_token() {
    assert_eq!(Interval::parse("").unwrap(), Interval::Empty);
}

#[test]
fn from_str_is_parse() {
    assert_eq!(Interval::from_str("ytd").unwrap(), Interval::YearToDate);
    assert_eq!(Interval::from_str("week").unwrap_err().input, "week");
}
