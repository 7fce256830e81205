//! The sampling ranges that the chart endpoint understands, and their tokens.

use crate::text::same_text;
use vstd::prelude::*;

verus! {

/// A sampling range of the chart endpoint.
#[derive(Clone, Copy, Debug, PartialEq, Eq, Structural)]
pub enum Interval {
    Day1,
    Day5,
    Month1,
    Month3,
    Month6,
    Year1,
    Year2,
    Year5,
    Year10,
    YearToDate,
    Max,
    /// The range that the endpoint reports when a request gave explicit dates.
    Empty,
}

impl DeepView for Interval {
    type V = Interval;

    open spec fn deep_view(&self) -> Interval {
        *self
    }
}

/// A token that names no [`Interval`].
#[derive(Clone, Debug)]
pub struct ParseError {
    /// The token as it was given.
    pub input: String,
}

impl Interval {
    /// The token of this range.
    pub open spec fn token(self) -> Seq<char> {
        match self {
            Interval::Day1 => "1d"@,
            Interval::Day5 => "5d"@,
            Interval::Month1 => "1mo"@,
            Interval::Month3 => "3mo"@,
            Interval::Month6 => "6mo"@,
            Interval::Year1 => "1y"@,
            Interval::Year2 => "2y"@,
            Interval::Year5 => "5y"@,
            Interval::Year10 => "10y"@,
            Interval::YearToDate => "ytd"@,
            Interval::Max => "max"@,
            Interval::Empty => ""@,
        }
    }

    /// The range that a token names: the one whose token it is, if there is one.
    pub open spec fn parse_spec(token: Seq<char>) -> Option<Interval> {
        if exists|v: Interval| v.token() == token {
            Some(choose|v: Interval| v.token() == token)
        } else {
            None
        }
    }

    /// The token of this range.
    pub fn as_str(&self) -> (r: &'static str)
        ensures
            r@ == self.token(),
    {
        match self {
            Interval::Day1 => "1d",
            Interval::Day5 => "5d",
            Interval::Month1 => "1mo",
            Interval::Month3 => "3mo",
            Interval::Month6 => "6mo",
            Interval::Year1 => "1y",
            Interval::Year2 => "2y",
            Interval::Year5 => "5y",
            Interval::Year10 => "10y",
            Interval::YearToDate => "ytd",
            Interval::Max => "max",
            Interval::Empty => "",
        }
    }

    /// The token of this range, as an owned string.
    pub fn to_string(&self) -> (r: String)
        ensures
            r@ == self.token(),
    {
        String::from_str(self.as_str())
    }

    /// The place of this range in the order of declaration.
    pub open spec fn ordinal(self) -> int {
        match self {
            Interval::Day1 => 0,
            Interval::Day5 => 1,
            Interval::Month1 => 2,
            Interval::Month3 => 3,
            Interval::Month6 => 4,
            Interval::Year1 => 5,
            Interval::Year2 => 6,
            Interval::Year5 => 7,
            Interval::Year10 => 8,
            Interval::YearToDate => 9,
            Interval::Max => 10,
            Interval::Empty => 11,
        }
    }

    /// Every range, in the order of declaration.
    pub fn all() -> (r: [Interval; 12])
        ensures
            forall|v: Interval| 0 <= #[trigger] v.ordinal() < 12 && r@[v.ordinal()] == v,
    {
        [
            Interval::Day1,
            Interval::Day5,
            Interval::Month1,
            Interval::Month3,
            Interval::Month6,
            Interval::Year1,
            Interval::Year2,
            Interval::Year5,
            Interval::Year10,
            Interval::YearToDate,
            Interval::Max,
            Interval::Empty,
        ]
    }

    /// Reads a token. It succeeds on the twelve tokens and on nothing else; the error
    /// carries the token that was refused.
    pub fn parse(token: &str) -> (r: Result<Interval, ParseError>)
        ensures
            match r {
                Ok(v) => Self::parse_spec(token@) == Some(v),
                Err(e) => Self::parse_spec(token@) is None && e.input@ == token@,
            },
    {
        let all = Self::all();
        let mut i: usize = 0;
        while i < 12
            invariant
                i <= 12,
                forall|v: Interval| 0 <= #[trigger] v.ordinal() < 12 && all@[v.ordinal()] == v,
                forall|k: int| 0 <= k < i ==> (#[trigger] all@[k]).token() != token@,
            decreases 12 - i,
        {
            let v = all[i];
            if same_text(v.as_str(), token) {
                proof {
                    Self::lemma_token_injective();
                }
                return Ok(v);
            }
            i += 1;
        }
        assert forall|v: Interval| v.token() != token@ by {
            assert(all@[v.ordinal()] == v);
        }
        Err(ParseError { input: String::from_str(token) })
    }

    /// Two ranges with the same token are the same range.
    pub proof fn lemma_token_injective()
        ensures
            forall|a: Interval, b: Interval| a.token() == b.token() ==> a == b,
    {
        reveal_strlit("1d");
        reveal_strlit("5d");
        reveal_strlit("1mo");
        reveal_strlit("3mo");
        reveal_strlit("6mo");
        reveal_strlit("1y");
        reveal_strlit("2y");
        reveal_strlit("5y");
        reveal_strlit("10y");
        reveal_strlit("ytd");
        reveal_strlit("max");
        reveal_strlit("");
        assert forall|a: Interval, b: Interval| a.token() == b.token() implies a == b by {
            if a != b {
                assert(a.token().len() != b.token().len() || a.token()[0] != b.token()[0]
                    || a.token()[1] != b.token()[1]);
            }
        }
    }

    /// Reading the token of a range gives that range back.
    pub proof fn lemma_parse_token(v: Interval)
        ensures
            Self::parse_spec(v.token()) == Some(v),
    {
        Self::lemma_token_injective();
    }

    /// A token is refused exactly when it is the token of no range.
    pub proof fn lemma_parse_refuses(token: Seq<char>)
        ensures
            Self::parse_spec(token) is None <==> forall|v: Interval| v.token() != token,
    {
    }
}

impl std::str::FromStr for Interval {
    type Err = ParseError;

    /// Reads a token, as [`Interval::parse`] does.
    fn from_str(token: &str) -> (r: Result<Interval, ParseError>)
        ensures
            match r {
                Ok(v) => Interval::parse_spec(token@) == Some(v),
                Err(e) => Interval::parse_spec(token@) is None && e.input@ == token@,
            },
    {
        Interval::parse(token)
    }
}

} // verus!
