//! The error that decoding reports: a chain of layers, the outermost first.
use vstd::prelude::*;
use vstd::string::StringExecFns;
use crate::parse;
use crate::parse::Needed;

verus! {

/// One layer of an error.
#[derive(Debug, Clone, Copy, PartialEq, Eq)]
pub enum ErrorKind {
    /// A part of the demo could not be decoded, or its content was rejected.
    ParseError(parse::Error),
    /// The input ended before a read was complete. The count is the size
    /// that the read asked for, where it is known.
    NeedMoreBytes(Option<usize>),
}

/// What went wrong, and inside `cause`, why.
#[derive(Debug, PartialEq, Eq)]
pub struct Error {
    pub kind: ErrorKind,
    pub cause: Option<Box<Error>>,
}

impl Error {
    /// An error of one layer.
    pub open spec fn spec_from_kind(kind: ErrorKind) -> Error {
        Error { kind, cause: None }
    }

    /// The error `inner` wrapped in one more layer.
    pub open spec fn spec_with_chain(inner: Error, kind: ErrorKind) -> Error {
        Error { kind, cause: Some(Box::new(inner)) }
    }

    /// The layers of the error, the outermost first.
    pub open spec fn spec_chain(self) -> Seq<ErrorKind>
        decreases self,
    {
        match self.cause {
            None => seq![self.kind],
            Some(inner) => seq![self.kind] + inner.spec_chain(),
        }
    }

    #[verifier::when_used_as_spec(spec_from_kind)]
    pub fn from_kind(kind: ErrorKind) -> (e: Error)
        ensures
            e == Error::spec_from_kind(kind),
    {
        Error { kind, cause: None }
    }

    #[verifier::when_used_as_spec(spec_with_chain)]
    pub fn with_chain(inner: Error, kind: ErrorKind) -> (e: Error)
        ensures
            e == Error::spec_with_chain(inner, kind),
    {
        Error { kind, cause: Some(Box::new(inner)) }
    }

    /// The error of content that was rejected for the reason `code`.
    pub open spec fn spec_from(code: parse::Error) -> Error {
        Error::spec_from_kind(ErrorKind::ParseError(code))
    }

    #[verifier::when_used_as_spec(spec_from)]
    pub fn from(code: parse::Error) -> (e: Error)
        ensures
            e == Error::spec_from(code),
    {
        Error::from_kind(ErrorKind::ParseError(code))
    }

    /// The error of a read that fell short by `needed`.
    pub open spec fn spec_from_needed(needed: Needed) -> Error {
        match needed {
            Needed::Size(count) => Error::spec_from_kind(ErrorKind::NeedMoreBytes(Some(count))),
            Needed::Unknown => Error::spec_from_kind(ErrorKind::NeedMoreBytes(None)),
        }
    }

    #[verifier::when_used_as_spec(spec_from_needed)]
    pub fn from_needed(needed: Needed) -> (e: Error)
        ensures
            e == Error::spec_from_needed(needed),
    {
        match needed {
            Needed::Size(count) => Error::from_kind(ErrorKind::NeedMoreBytes(Some(count))),
            Needed::Unknown => Error::from_kind(ErrorKind::NeedMoreBytes(None)),
        }
    }

    /// What the outermost layer says.
    pub fn to_string(&self) -> (text: String)
        ensures
            text@ == self.kind.spec_to_string(),
    {
        self.kind.to_string()
    }

    /// The layers of the error, the outermost first.
    pub fn chain(&self) -> (layers: Vec<ErrorKind>)
        ensures
            layers@ == self.spec_chain(),
    {
        let mut layers: Vec<ErrorKind> = Vec::new();
        let mut current: &Error = self;
        loop
            invariant_except_break
                layers@ + current.spec_chain() == self.spec_chain(),
            ensures
                layers@ == self.spec_chain(),
            decreases current,
        {
            let ghost before = layers@;
            layers.push(current.kind);
            match &current.cause {
                None => {
                    assert(layers@ == before + current.spec_chain());
                    break;
                },
                Some(inner) => {
                    assert(layers@ + inner.spec_chain() == before + current.spec_chain());
                    current = &**inner;
                },
            }
        }
        layers
    }
}

impl ErrorKind {
    /// What this layer says, in words.
    pub open spec fn spec_to_string(self) -> Seq<char> {
        match self {
            ErrorKind::ParseError(code) => code.spec_to_string(),
            ErrorKind::NeedMoreBytes(Some(count)) => "need "@ + spec_decimal(count as nat)
                + " more bytes"@,
            ErrorKind::NeedMoreBytes(None) => "need (unknown) more bytes"@,
        }
    }

    /// What this layer says, in words.
    pub fn to_string(&self) -> (text: String)
        ensures
            text@ == self.spec_to_string(),
    {
        match self {
            ErrorKind::ParseError(code) => code.to_string(),
            ErrorKind::NeedMoreBytes(Some(count)) => {
                let mut text = String::from_str("need ");
                text.append(decimal(*count as u64).as_str());
                text.append(" more bytes");
                text
            },
            ErrorKind::NeedMoreBytes(None) => String::from_str("need (unknown) more bytes"),
        }
    }
}

/// The decimal digit `digit`, a number below ten, as text.
pub open spec fn spec_digit(digit: nat) -> Seq<char> {
    if digit == 0 {
        seq!['0']
    } else if digit == 1 {
        seq!['1']
    } else if digit == 2 {
        seq!['2']
    } else if digit == 3 {
        seq!['3']
    } else if digit == 4 {
        seq!['4']
    } else if digit == 5 {
        seq!['5']
    } else if digit == 6 {
        seq!['6']
    } else if digit == 7 {
        seq!['7']
    } else if digit == 8 {
        seq!['8']
    } else {
        seq!['9']
    }
}

/// The number `value` in decimal digits, the highest first, without leading
/// zeros.
pub open spec fn spec_decimal(value: nat) -> Seq<char>
    decreases value,
{
    if value < 10 {
        spec_digit(value)
    } else {
        spec_decimal(value / 10) + spec_digit(value % 10)
    }
}

/// The number `value` in decimal digits, with a minus sign before them
/// where it is negative.
pub open spec fn spec_signed_decimal(value: int) -> Seq<char> {
    if value < 0 {
        seq!['-'] + spec_decimal((-value) as nat)
    } else {
        spec_decimal(value as nat)
    }
}

fn digit(value: u64) -> (text: &'static str)
    requires
        value < 10,
    ensures
        text@ == spec_digit(value as nat),
{
    proof {
        reveal_strlit("0");
        reveal_strlit("1");
        reveal_strlit("2");
        reveal_strlit("3");
        reveal_strlit("4");
        reveal_strlit("5");
        reveal_strlit("6");
        reveal_strlit("7");
        reveal_strlit("8");
        reveal_strlit("9");
    }
    let text = match value {
        0 => "0",
        1 => "1",
        2 => "2",
        3 => "3",
        4 => "4",
        5 => "5",
        6 => "6",
        7 => "7",
        8 => "8",
        _ => "9",
    };
    assert(text@ =~= spec_digit(value as nat));
    text
}

/// Writes a number in decimal digits.
pub fn decimal(value: u64) -> (text: String)
    ensures
        text@ == spec_decimal(value as nat),
    decreases value,
{
    if value < 10 {
        String::from_str(digit(value))
    } else {
        let mut text = decimal(value / 10);
        text.append(digit(value % 10));
        text
    }
}

/// Writes a number in decimal digits, with its sign where it is negative.
pub fn signed_decimal(value: i32) -> (text: String)
    ensures
        text@ == spec_signed_decimal(value as int),
{
    if value < 0 {
        proof {
            reveal_strlit("-");
        }
        let mut text = String::from_str("-");
        assert(text@ =~= seq!['-']);
        text.append(decimal((-(value as i64)) as u64).as_str());
        text
    } else {
        decimal(value as u64)
    }
}

} // verus!
