//! Diagnostic rendering of field values, including verified decimal
//! formatting of the integer payloads.

use crate::shooby_field::{FieldValue, ValueModel};
use vstd::prelude::*;
use vstd::string::StringExecFns;

verus! {

/// The decimal digit character for one digit value.
pub open spec fn spec_digit_char(d: nat) -> char {
    if d == 0 {
        '0'
    } else if d == 1 {
        '1'
    } else if d == 2 {
        '2'
    } else if d == 3 {
        '3'
    } else if d == 4 {
        '4'
    } else if d == 5 {
        '5'
    } else if d == 6 {
        '6'
    } else if d == 7 {
        '7'
    } else if d == 8 {
        '8'
    } else {
        '9'
    }
}

/// The decimal rendering of a natural number, most significant digit first.
pub open spec fn spec_udec(n: nat) -> Seq<char>
    decreases n,
{
    if n < 10 {
        seq![spec_digit_char(n)]
    } else {
        spec_udec(n / 10) + seq![spec_digit_char(n % 10)]
    }
}

/// The decimal rendering of an integer: a leading minus sign when negative.
pub open spec fn spec_idec(x: int) -> Seq<char> {
    if x < 0 {
        seq!['-'] + spec_udec((-x) as nat)
    } else {
        spec_udec(x as nat)
    }
}

/// The diagnostic description of a field value.
pub open spec fn spec_describe(v: ValueModel) -> Seq<char> {
    match v {
        ValueModel::Bool(b) => if b {
            "Bool(true)"@
        } else {
            "Bool(false)"@
        },
        ValueModel::Int(x) => "Int("@ + spec_idec(x as int) + ")"@,
        ValueModel::Str(s) => "String("@ + s + ")"@,
        ValueModel::Blob(b) => "Blob of size: "@ + spec_udec(b.len()),
    }
}

/// One decimal digit as a string slice.
fn digit_str(d: u64) -> (r: &'static str)
    requires
        d < 10,
    ensures
        r@ == seq![spec_digit_char(d as nat)],
{
    proof {
        reveal_strlit("0");
        reveal_strlit("1");
        reveal_strlit("2");
        reveal_strlit("3");
        reveal_strlit("4");
        reveal_strlit("5");
        reveal_strlit("6");
        reveal_strlit("7");
        reveal_strlit("8");
        reveal_strlit("9");
    }
    match d {
        0 => "0",
        1 => "1",
        2 => "2",
        3 => "3",
        4 => "4",
        5 => "5",
        6 => "6",
        7 => "7",
        8 => "8",
        _ => "9",
    }
}

/// Renders a natural number in decimal.
fn udec_string(n: u64) -> (r: String)
    ensures
        r@ == spec_udec(n as nat),
    decreases n,
{
    if n < 10 {
        digit_str(n).to_owned()
    } else {
        let mut s = udec_string(n / 10);
        s.append(digit_str(n % 10));
        s
    }
}

/// Renders an integer in decimal, with a leading minus sign when negative.
fn idec_string(x: i32) -> (r: String)
    ensures
        r@ == spec_idec(x as int),
{
    if x < 0 {
        let mag: u64 = (-(x as i64)) as u64;
        let mut s = "-".to_owned();
        proof {
            reveal_strlit("-");
            assert("-"@ =~= seq!['-']);
        }
        let rest = udec_string(mag);
        s.append(rest.as_str());
        proof {
            assert(s@ =~= spec_idec(x as int));
        }
        s
    } else {
        udec_string(x as u64)
    }
}

impl FieldValue {
    /// A diagnostic description of the value, in the shape `Bool(true)`,
    /// `Int(-5)`, `String(abc)` or `Blob of size: 8`.
    pub fn describe(&self) -> (r: String)
        ensures
            r@ == spec_describe(self@),
    {
        match self {
            FieldValue::Bool(b) => {
                if *b {
                    "Bool(true)".to_owned()
                } else {
                    "Bool(false)".to_owned()
                }
            },
            FieldValue::Int(x) => {
                let mut s = "Int(".to_owned();
                let digits = idec_string(*x);
                s.append(digits.as_str());
                s.append(")");
                s
            },
            FieldValue::Str(v) => {
                let mut s = "String(".to_owned();
                s.append(v.as_str());
                s.append(")");
                s
            },
            FieldValue::Blob(v) => {
                let mut s = "Blob of size: ".to_owned();
                let digits = udec_string(v.len() as u64);
                s.append(digits.as_str());
                s
            },
        }
    }
}

} // verus!
