//! The fatal-condition taxonomy shared by the flattening engine.
//!
//! Every kind is fatal to the single flatten call that raised it and is
//! never silently recovered from.

use vstd::prelude::*;

verus! {

/// The abstract form of a serialization failure, with payloads as character
/// sequences; contracts speak of this form.
pub enum ErrShape {
    /// A value or root has a shape with no flat representation.
    UnsupportedShape { kind: Seq<char> },
    /// More than one level of record/map nesting beneath the root.
    NestingTooDeep,
    /// A map key does not resolve to a plain string.
    KeyNotString,
    /// Two sibling members normalize to the same output key.
    DuplicateKey { key: Seq<char> },
    /// A value was supplied before its key was set.
    MissingKey,
    /// A key was set twice without being consumed.
    DoubleKey,
}

/// A failure of one flatten call.
#[derive(Debug)]
pub enum SerializeToEnvError {
    /// A value or root has a shape with no flat representation; the payload
    /// names the offending shape.
    UnsupportedShape(String),
    /// More than one level of record/map nesting beneath the root.
    NestingTooDeep,
    /// A map key does not resolve to a plain string.
    KeyNotString,
    /// Two sibling members normalize to the same output key; the payload is
    /// the composed key.
    DuplicateKey(String),
    /// A value was supplied before its key was set.
    MissingKey,
    /// A key was set twice without being consumed.
    DoubleKey,
}

impl View for SerializeToEnvError {
    type V = ErrShape;

    open spec fn view(&self) -> ErrShape {
        match self {
            SerializeToEnvError::UnsupportedShape(k) => ErrShape::UnsupportedShape { kind: k@ },
            SerializeToEnvError::NestingTooDeep => ErrShape::NestingTooDeep,
            SerializeToEnvError::KeyNotString => ErrShape::KeyNotString,
            SerializeToEnvError::DuplicateKey(k) => ErrShape::DuplicateKey { key: k@ },
            SerializeToEnvError::MissingKey => ErrShape::MissingKey,
            SerializeToEnvError::DoubleKey => ErrShape::DoubleKey,
        }
    }
}

/// The diagnostic text for a failure.
pub open spec fn message_spec(e: ErrShape) -> Seq<char> {
    match e {
        ErrShape::UnsupportedShape { kind } => "Cannot serialize "@ + kind
            + " to environment variable"@,
        ErrShape::NestingTooDeep => "Complex Types in Complex Types are not supported"@,
        ErrShape::KeyNotString => "Key must be able to serialize to string"@,
        ErrShape::DuplicateKey { key } => "Duplicate key "@ + key,
        ErrShape::MissingKey => "Missing Key"@,
        ErrShape::DoubleKey => "Double Key"@,
    }
}

impl SerializeToEnvError {
    /// A short description of the failure, for diagnostics.
    pub fn message(&self) -> (r: String)
        ensures
            r@ == message_spec(self@),
    {
        match self {
            SerializeToEnvError::UnsupportedShape(k) => {
                let mut s = String::from_str("Cannot serialize ");
                s.append(k.as_str());
                s.append(" to environment variable");
                s
            },
            SerializeToEnvError::NestingTooDeep => String::from_str(
                "Complex Types in Complex Types are not supported",
            ),
            SerializeToEnvError::KeyNotString => String::from_str(
                "Key must be able to serialize to string",
            ),
            SerializeToEnvError::DuplicateKey(k) => {
                let mut s = String::from_str("Duplicate key ");
                s.append(k.as_str());
                s
            },
            SerializeToEnvError::MissingKey => String::from_str("Missing Key"),
            SerializeToEnvError::DoubleKey => String::from_str("Double Key"),
        }
    }
}

} // verus!
