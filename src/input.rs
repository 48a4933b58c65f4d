//! Reading typed answers out of lines that a user typed.
use vstd::prelude::*;

verus! {

/// A simple yes or no answer to a prompt that parses
/// `y` to Self::YES and `n` to Self::NO
#[derive(Debug, Clone, Copy, PartialEq, Eq, Structural)]
#[allow(clippy::upper_case_acronyms)]
pub enum YesNo {
    /// true
    YES,
    /// false
    NO,
}

/// The message for an answer that is neither `y` nor `n`.
pub open spec fn yes_no_hint() -> Seq<char> {
    "Expected 'y' or 'n'"@
}

/// The answer that `s` gives, if it is one.
pub open spec fn yes_no_of(s: Seq<char>) -> Option<YesNo> {
    if s == "y"@ {
        Some(YesNo::YES)
    } else if s == "n"@ {
        Some(YesNo::NO)
    } else {
        None
    }
}

impl YesNo {
    /// Reads `y` or `n`
    pub fn parse(s: &str) -> (r: Result<YesNo, String>)
        ensures
            yes_no_of(s@) matches Some(a) ==> r == Ok::<YesNo, String>(a),
            yes_no_of(s@) is None ==> (r matches Err(e) && e@ == yes_no_hint()),
    {
        proof {
            reveal_strlit("y");
            reveal_strlit("n");
            assert("y"@ != "n"@) by {
                assert("y"@[0] != "n"@[0]);
            }
        }
        let given = s.to_owned();
        if given == "y".to_owned() {
            Ok(YesNo::YES)
        } else if given == "n".to_owned() {
            Ok(YesNo::NO)
        } else {
            Err("Expected 'y' or 'n'".to_owned())
        }
    }

    /// The answer as a boolean
    pub fn as_bool(self) -> (r: bool)
        ensures
            r == (self == YesNo::YES),
    {
        match self {
            YesNo::YES => true,
            YesNo::NO => false,
        }
    }
}

impl std::str::FromStr for YesNo {
    type Err = String;

    fn from_str(s: &str) -> Result<Self, Self::Err> {
        YesNo::parse(s)
    }
}

impl From<YesNo> for bool {
    fn from(v: YesNo) -> (r: bool) {
        v.as_bool()
    }
}

impl vstd::std_specs::convert::FromSpecImpl<YesNo> for bool {
    open spec fn obeys_from_spec() -> bool {
        true
    }

    open spec fn from_spec(v: YesNo) -> bool {
        v == YesNo::YES
    }
}

/// Whether every character of `d` is a decimal digit, and there is one at least.
pub open spec fn is_digits(d: Seq<char>) -> bool {
    d.len() > 0 && forall|i: int| 0 <= i < d.len() ==> '0' <= #[trigger] d[i] <= '9'
}

/// The value of a run of decimal digits.
pub open spec fn digits_value(d: Seq<char>) -> int
    decreases d.len(),
{
    if d.len() == 0 {
        0
    } else {
        10 * digits_value(d.drop_last()) + (d.last() as int - '0' as int)
    }
}

/// The integer that `s` writes as an optional `+` followed by digits.
pub open spec fn unsigned_text(s: Seq<char>) -> Option<int> {
    let d = if s.len() > 0 && s[0] == '+' {
        s.drop_first()
    } else {
        s
    };
    if is_digits(d) {
        Some(digits_value(d))
    } else {
        None
    }
}

/// The integer that `s` writes as an optional `+` or `-` followed by digits.
pub open spec fn signed_text(s: Seq<char>) -> Option<int> {
    if s.len() > 0 && s[0] == '-' {
        if is_digits(s.drop_first()) {
            Some(-digits_value(s.drop_first()))
        } else {
            None
        }
    } else {
        unsigned_text(s)
    }
}

/// Relies on `<u32 as FromStr>::from_str`: an optional `+` and decimal digits
/// whose value fits; the error is kept as its displayed text.
#[verifier::external_body]
pub(crate) fn parse_u32(s: &str) -> (r: Result<u32, String>)
    ensures
        r is Ok <==> (unsigned_text(s@) matches Some(v) && v <= u32::MAX),
        r matches Ok(n) ==> unsigned_text(s@) == Some(n as int),
{
    match s.parse::<u32>() {
        Ok(n) => Ok(n),
        Err(e) => Err(e.to_string()),
    }
}

/// Relies on `<u64 as FromStr>::from_str`: an optional `+` and decimal digits
/// whose value fits; the error is kept as its displayed text.
#[verifier::external_body]
pub(crate) fn parse_u64(s: &str) -> (r: Result<u64, String>)
    ensures
        r is Ok <==> (unsigned_text(s@) matches Some(v) && v <= u64::MAX),
        r matches Ok(n) ==> unsigned_text(s@) == Some(n as int),
{
    match s.parse::<u64>() {
        Ok(n) => Ok(n),
        Err(e) => Err(e.to_string()),
    }
}

/// Relies on `<i64 as FromStr>::from_str`: an optional sign and decimal
/// digits whose value fits; the error is kept as its displayed text.
#[verifier::external_body]
pub(crate) fn parse_i64(s: &str) -> (r: Result<i64, String>)
    ensures
        r is Ok <==> (signed_text(s@) matches Some(v) && i64::MIN <= v <= i64::MAX),
        r matches Ok(n) ==> signed_text(s@) == Some(n as int),
{
    match s.parse::<i64>() {
        Ok(n) => Ok(n),
        Err(e) => Err(e.to_string()),
    }
}

} // verus!
