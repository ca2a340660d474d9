//! The leaf value representation and its canonical string encoding and
//! decoding.

use vstd::prelude::*;

use crate::decimal::{dec_repr, format_i64};
use crate::text::push_char;
use crate::timestamp::{
    encode_rfc3339, lemma_parse_rfc3339_wf, lemma_rfc3339_round_trip, parse_rfc3339,
    parse_rfc3339_str, ts_repr, Timestamp,
};

verus! {

/// The abstract form of a scalar value; contracts speak of this form.
pub enum ScalarShape {
    Text(Seq<char>),
    Boolean(bool),
    Integer(int),
    Character(char),
    Timestamp(Timestamp),
}

/// A leaf value with no further structure; exactly one variant is populated
/// at a time.
#[derive(Debug)]
pub enum ScalarValue {
    /// Free-form text, encoded verbatim.
    Text(String),
    /// A boolean, encoded as `true` or `false`.
    Boolean(bool),
    /// A 64-bit signed integer, encoded as decimal ASCII.
    Integer(i64),
    /// A single Unicode scalar, encoded as a one-character string.
    Character(char),
    /// A date-time with explicit UTC offset, encoded offset-preservingly.
    Timestamp(Timestamp),
}

impl View for ScalarValue {
    type V = ScalarShape;

    open spec fn view(&self) -> ScalarShape {
        match self {
            ScalarValue::Text(t) => ScalarShape::Text(t@),
            ScalarValue::Boolean(b) => ScalarShape::Boolean(*b),
            ScalarValue::Integer(i) => ScalarShape::Integer(*i as int),
            ScalarValue::Character(c) => ScalarShape::Character(*c),
            ScalarValue::Timestamp(t) => ScalarShape::Timestamp(*t),
        }
    }
}

impl ScalarValue {
    /// A representable scalar; only the timestamp variant is constrained.
    pub open spec fn wf(self) -> bool {
        match self {
            ScalarValue::Timestamp(t) => t.wf(),
            _ => true,
        }
    }

    /// Encodes the value as its canonical, locale-independent string form.
    pub fn encode(&self) -> (r: String)
        requires
            self.wf(),
        ensures
            r@ == encode_spec(self@),
    {
        proof {
            reveal(encode_spec);
        }
        match self {
            ScalarValue::Text(t) => t.clone(),
            ScalarValue::Boolean(b) => {
                if *b {
                    String::from_str("true")
                } else {
                    String::from_str("false")
                }
            },
            ScalarValue::Integer(i) => format_i64(*i),
            ScalarValue::Character(c) => {
                let mut s = String::new();
                push_char(&mut s, *c);
                proof {
                    assert(s@ =~= seq![*c]);
                }
                s
            },
            ScalarValue::Timestamp(t) => encode_rfc3339(t),
        }
    }

    /// Decodes a simple typed value from its string form: a string in the
    /// offset date-time grammar — numeric `+HH:MM` / `-HH:MM` offsets or
    /// `Z`/`z`, and `T`, `t`, or a space between date and time — becomes a
    /// timestamp, anything else stays text. A date-time with fractional
    /// seconds or a leap second is beyond the timestamp model's second
    /// resolution and stays text.
    pub fn decode(s: &str) -> (r: ScalarValue)
        ensures
            r@ == decode_spec(s@),
            r.wf(),
    {
        match parse_rfc3339_str(s) {
            Option::Some(t) => {
                proof {
                    lemma_parse_rfc3339_wf(s@);
                }
                ScalarValue::Timestamp(t)
            },
            Option::None => ScalarValue::Text(s.to_owned()),
        }
    }
}

/// The canonical string encoding of a scalar.
#[verifier::opaque]
pub open spec fn encode_spec(v: ScalarShape) -> Seq<char> {
    match v {
        ScalarShape::Text(t) => t,
        ScalarShape::Boolean(b) => if b {
            "true"@
        } else {
            "false"@
        },
        ScalarShape::Integer(i) => dec_repr(i),
        ScalarShape::Character(c) => seq![c],
        ScalarShape::Timestamp(t) => ts_repr(t),
    }
}

/// The decoding of a simple typed value: an offset date-time when the string
/// parses as one, text otherwise.
pub open spec fn decode_spec(s: Seq<char>) -> ScalarShape {
    match parse_rfc3339(s) {
        Option::Some(t) => ScalarShape::Timestamp(t),
        Option::None => ScalarShape::Text(s),
    }
}

/// Scalar round trip: decoding the encoding of any representable timestamp
/// recovers a timestamp with the identical instant and the identical UTC
/// offset.
pub proof fn lemma_scalar_timestamp_round_trip(t: Timestamp)
    requires
        t.wf(),
    ensures
        decode_spec(encode_spec(ScalarShape::Timestamp(t))) == ScalarShape::Timestamp(t),
{
    reveal(encode_spec);
    lemma_rfc3339_round_trip(t);
}

} // verus!
