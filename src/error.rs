use vstd::prelude::*;
use vstd::string::*;

verus! {

/// Failures surfaced by the dispatch core and the broker connection.
#[derive(Debug, Clone)]
pub enum CeleryError {
    /// A dispatch named a task that was never registered.
    TaskNotFound(String),
    /// A payload or a registration did not have the expected shape.
    InvalidParam(String),
    /// An unclassified failure.
    Unknown,
    /// The broker stayed unreachable.
    ConnectionError(String),
}

/// The text that an error reads as: a fixed prefix per kind, then its detail.
pub open spec fn error_text(e: CeleryError) -> Seq<char> {
    match e {
        CeleryError::TaskNotFound(s) => "task not found: "@ + s@,
        CeleryError::InvalidParam(s) => "invalid parameter: "@ + s@,
        CeleryError::Unknown => "unknown error"@,
        CeleryError::ConnectionError(s) => "connection error: "@ + s@,
    }
}

/// The detail of an error: the text an invalid parameter carries, and the
/// display text of any other error.
pub open spec fn error_detail(e: CeleryError) -> Seq<char> {
    match e {
        CeleryError::InvalidParam(s) => s@,
        _ => error_text(e),
    }
}

/// The text of an error tagged with the name of the type it concerns.
pub open spec fn tagged(name: Seq<char>, e: CeleryError) -> Seq<char> {
    name + ": "@ + error_detail(e)
}

/// An invalid parameter whose text is `e` tagged with `name`.
pub fn tag(name: &str, e: CeleryError) -> (r: CeleryError)
    ensures
        r is InvalidParam,
        r->InvalidParam_0@ == tagged(name@, e),
{
    let detail = match e {
        CeleryError::InvalidParam(m) => m,
        other => other.message(),
    };
    let mut text = String::from_str(name);
    text.append(": ");
    text.append(detail.as_str());
    CeleryError::InvalidParam(text)
}

impl CeleryError {
    /// The error's display text.
    pub fn message(&self) -> (r: String)
        ensures
            r@ == error_text(*self),
    {
        match self {
            CeleryError::TaskNotFound(s) => String::from_str("task not found: ").concat(s.as_str()),
            CeleryError::InvalidParam(s) => String::from_str("invalid parameter: ").concat(s.as_str()),
            CeleryError::Unknown => String::from_str("unknown error"),
            CeleryError::ConnectionError(s) => String::from_str("connection error: ").concat(s.as_str()),
        }
    }
}

/// The character of a decimal digit.
pub open spec fn digit_char(d: nat) -> char {
    if d == 0 {
        '0'
    } else if d == 1 {
        '1'
    } else if d == 2 {
        '2'
    } else if d == 3 {
        '3'
    } else if d == 4 {
        '4'
    } else if d == 5 {
        '5'
    } else if d == 6 {
        '6'
    } else if d == 7 {
        '7'
    } else if d == 8 {
        '8'
    } else {
        '9'
    }
}

/// The decimal digits of `n`, without sign or leading zeros.
pub open spec fn decimal_text(n: nat) -> Seq<char>
    decreases n,
{
    if n < 10 {
        seq![digit_char(n)]
    } else {
        decimal_text(n / 10) + seq![digit_char(n % 10)]
    }
}

fn digit(d: u32) -> (r: &'static str)
    requires
        d < 10,
    ensures
        r@ == seq![digit_char(d as nat)],
{
    match d {
        0 => {
            proof {
                reveal_strlit("0");
            }
            "0"
        },
        1 => {
            proof {
                reveal_strlit("1");
            }
            "1"
        },
        2 => {
            proof {
                reveal_strlit("2");
            }
            "2"
        },
        3 => {
            proof {
                reveal_strlit("3");
            }
            "3"
        },
        4 => {
            proof {
                reveal_strlit("4");
            }
            "4"
        },
        5 => {
            proof {
                reveal_strlit("5");
            }
            "5"
        },
        6 => {
            proof {
                reveal_strlit("6");
            }
            "6"
        },
        7 => {
            proof {
                reveal_strlit("7");
            }
            "7"
        },
        8 => {
            proof {
                reveal_strlit("8");
            }
            "8"
        },
        _ => {
            proof {
                reveal_strlit("9");
            }
            "9"
        },
    }
}

/// The decimal digits of `n`.
pub fn decimal(n: u32) -> (r: String)
    ensures
        r@ == decimal_text(n as nat),
{
    let mut out = String::from_str(digit(n % 10));
    let mut m: u32 = n / 10;
    while m > 0
        invariant
            m > 0 ==> decimal_text(n as nat) == decimal_text(m as nat) + out@,
            m == 0 ==> decimal_text(n as nat) == out@,
        decreases m,
    {
        let d = String::from_str(digit(m % 10));
        let ghost before = out@;
        out = d.concat(out.as_str());
        if m < 10 {
            assert(decimal_text(m as nat) + before =~= out@);
        } else {
            assert(decimal_text(m as nat) + before =~= decimal_text((m / 10) as nat) + out@);
        }
        m = m / 10;
    }
    out
}

} // verus!
