//! The flattening engine: converts a bounded-depth structured value into a
//! flat mapping from composed, case-normalized keys to string-encoded
//! values.
//!
//! The root must be record- or map-shaped. Each member one level beneath the
//! root may be a scalar, a present-or-absent scalar, or one further record
//! or map whose members bottom out in scalars; anything deeper fails with
//! `NestingTooDeep`, and shapes with no flat representation fail with
//! `UnsupportedShape`. Two sibling members whose keys normalize to the same
//! output key fail with `DuplicateKey` — never a silent overwrite.

use vstd::prelude::*;

use crate::errors::{ErrShape, SerializeToEnvError};
use crate::flat_map::{has_key, FlatMap};
use crate::keys::{compose, compose_spec, normalize_spec};
use crate::scalar::{encode_spec, ScalarValue};

verus! {

/// A producer-supplied structured value, as a closed set of shapes.
pub enum StructuredValue {
    /// A leaf value.
    Scalar(ScalarValue),
    /// A present-or-absent leaf; an absent value is omitted entirely.
    OptionalScalar(Option<ScalarValue>),
    /// An ordered set of named fields.
    Record(Vec<(String, StructuredValue)>),
    /// An unordered set of keyed entries; every key must itself reduce to
    /// plain text.
    Mapping(Vec<(StructuredValue, StructuredValue)>),
    /// A sequence; it has no flat representation.
    Sequence(Vec<StructuredValue>),
    /// A tuple; it has no flat representation.
    Tuple(Vec<StructuredValue>),
    /// Raw bytes; they have no flat representation.
    Bytes(Vec<u8>),
    /// The unit value; it has no flat representation.
    Unit,
}

/// The name of a value's shape, used in `UnsupportedShape` reports.
pub open spec fn shape_kind(v: StructuredValue) -> Seq<char> {
    match v {
        StructuredValue::Scalar(_) => "Scalar"@,
        StructuredValue::OptionalScalar(_) => "Option"@,
        StructuredValue::Record(_) => "Struct"@,
        StructuredValue::Mapping(_) => "Map"@,
        StructuredValue::Sequence(_) => "Sequence"@,
        StructuredValue::Tuple(_) => "Tuple"@,
        StructuredValue::Bytes(_) => "Bytes"@,
        StructuredValue::Unit => "Unit"@,
    }
}

/// The plain text of a map key, when the key reduces to plain text.
pub open spec fn map_key_text(v: StructuredValue) -> Option<Seq<char>> {
    match v {
        StructuredValue::Scalar(ScalarValue::Text(k)) => Option::Some(k@),
        _ => Option::None,
    }
}

impl StructuredValue {
    /// Every scalar leaf of a bottom-level member is representable.
    pub open spec fn leaf_encodable(self) -> bool {
        match self {
            StructuredValue::Scalar(s) => s.wf(),
            StructuredValue::OptionalScalar(o) => match o {
                Option::Some(s) => s.wf(),
                Option::None => true,
            },
            _ => true,
        }
    }

    /// Every scalar leaf reachable from a member one level beneath the root
    /// is representable.
    pub open spec fn field_encodable(self) -> bool {
        match self {
            StructuredValue::Record(fields) => forall|i: int|
                0 <= i < fields@.len() ==> (#[trigger] fields@[i]).1.leaf_encodable(),
            StructuredValue::Mapping(entries) => forall|i: int|
                0 <= i < entries@.len() ==> (#[trigger] entries@[i]).1.leaf_encodable(),
            _ => self.leaf_encodable(),
        }
    }

    /// Every scalar leaf the flattener can reach is representable.
    pub open spec fn encodable(self) -> bool {
        match self {
            StructuredValue::Record(fields) => forall|i: int|
                0 <= i < fields@.len() ==> (#[trigger] fields@[i]).1.field_encodable(),
            StructuredValue::Mapping(entries) => forall|i: int|
                0 <= i < entries@.len() ==> (#[trigger] entries@[i]).1.field_encodable(),
            _ => true,
        }
    }
}

/// The name of a value's shape, used in `UnsupportedShape` reports.
pub fn shape_kind_string(v: &StructuredValue) -> (r: String)
    ensures
        r@ == shape_kind(*v),
{
    match v {
        StructuredValue::Scalar(_) => String::from_str("Scalar"),
        StructuredValue::OptionalScalar(_) => String::from_str("Option"),
        StructuredValue::Record(_) => String::from_str("Struct"),
        StructuredValue::Mapping(_) => String::from_str("Map"),
        StructuredValue::Sequence(_) => String::from_str("Sequence"),
        StructuredValue::Tuple(_) => String::from_str("Tuple"),
        StructuredValue::Bytes(_) => String::from_str("Bytes"),
        StructuredValue::Unit => String::from_str("Unit"),
    }
}

/// Adds an entry, failing with `DuplicateKey` when the key is taken.
pub open spec fn insert_entry(
    acc: Seq<(Seq<char>, Seq<char>)>,
    k: Seq<char>,
    v: Seq<char>,
) -> Result<Seq<(Seq<char>, Seq<char>)>, ErrShape> {
    if has_key(acc, k) {
        Result::Err(ErrShape::DuplicateKey { key: k })
    } else {
        Result::Ok(acc.push((k, v)))
    }
}

/// Flattens one bottom-level member: a scalar is encoded under the key, an
/// absent optional is omitted, a further record or map is one level too
/// deep.
pub open spec fn flat_leaf(
    key: Seq<char>,
    v: StructuredValue,
    acc: Seq<(Seq<char>, Seq<char>)>,
) -> Result<Seq<(Seq<char>, Seq<char>)>, ErrShape> {
    match v {
        StructuredValue::Scalar(s) => insert_entry(acc, key, encode_spec(s@)),
        StructuredValue::OptionalScalar(o) => match o {
            Option::None => Result::Ok(acc),
            Option::Some(s) => insert_entry(acc, key, encode_spec(s@)),
        },
        StructuredValue::Record(_) => Result::Err(ErrShape::NestingTooDeep),
        StructuredValue::Mapping(_) => Result::Err(ErrShape::NestingTooDeep),
        _ => Result::Err(ErrShape::UnsupportedShape { kind: shape_kind(v) }),
    }
}

/// Flattens the fields of a second-level record, in declaration order, from
/// position `i`.
pub open spec fn flat_inner_record(
    prefix: Seq<char>,
    fields: Seq<(String, StructuredValue)>,
    i: int,
    acc: Seq<(Seq<char>, Seq<char>)>,
) -> Result<Seq<(Seq<char>, Seq<char>)>, ErrShape>
    decreases fields.len() - i,
{
    if i < 0 || i >= fields.len() {
        Result::Ok(acc)
    } else {
        match flat_leaf(compose_spec(prefix, fields[i].0@), fields[i].1, acc) {
            Result::Ok(acc2) => flat_inner_record(prefix, fields, i + 1, acc2),
            Result::Err(e) => Result::Err(e),
        }
    }
}

/// Flattens the entries of a second-level map, in entry order, from
/// position `i`.
pub open spec fn flat_inner_map(
    prefix: Seq<char>,
    entries: Seq<(StructuredValue, StructuredValue)>,
    i: int,
    acc: Seq<(Seq<char>, Seq<char>)>,
) -> Result<Seq<(Seq<char>, Seq<char>)>, ErrShape>
    decreases entries.len() - i,
{
    if i < 0 || i >= entries.len() {
        Result::Ok(acc)
    } else {
        match map_key_text(entries[i].0) {
            Option::None => Result::Err(ErrShape::KeyNotString),
            Option::Some(k) => match flat_leaf(compose_spec(prefix, k), entries[i].1, acc) {
                Result::Ok(acc2) => flat_inner_map(prefix, entries, i + 1, acc2),
                Result::Err(e) => Result::Err(e),
            },
        }
    }
}

/// Flattens one member one level beneath the root: scalars as leaves, one
/// further record or map by recursing with the member's key as prefix.
pub open spec fn flat_field(
    key: Seq<char>,
    v: StructuredValue,
    acc: Seq<(Seq<char>, Seq<char>)>,
) -> Result<Seq<(Seq<char>, Seq<char>)>, ErrShape> {
    match v {
        StructuredValue::Scalar(_) => flat_leaf(key, v, acc),
        StructuredValue::OptionalScalar(_) => flat_leaf(key, v, acc),
        StructuredValue::Record(fields) => flat_inner_record(key, fields@, 0, acc),
        StructuredValue::Mapping(entries) => flat_inner_map(key, entries@, 0, acc),
        _ => Result::Err(ErrShape::UnsupportedShape { kind: shape_kind(v) }),
    }
}

/// Flattens one member at either depth: bottom-level members must be
/// leaves.
pub open spec fn flat_member(
    key: Seq<char>,
    v: StructuredValue,
    nested: bool,
    acc: Seq<(Seq<char>, Seq<char>)>,
) -> Result<Seq<(Seq<char>, Seq<char>)>, ErrShape> {
    if nested {
        flat_leaf(key, v, acc)
    } else {
        flat_field(key, v, acc)
    }
}

/// Flattens the fields of a root record, in declaration order, from
/// position `i`.
pub open spec fn flat_root_record(
    prefix: Seq<char>,
    fields: Seq<(String, StructuredValue)>,
    i: int,
    acc: Seq<(Seq<char>, Seq<char>)>,
) -> Result<Seq<(Seq<char>, Seq<char>)>, ErrShape>
    decreases fields.len() - i,
{
    if i < 0 || i >= fields.len() {
        Result::Ok(acc)
    } else {
        match flat_field(compose_spec(prefix, fields[i].0@), fields[i].1, acc) {
            Result::Ok(acc2) => flat_root_record(prefix, fields, i + 1, acc2),
            Result::Err(e) => Result::Err(e),
        }
    }
}

/// Flattens the entries of a root map, in entry order, from position `i`.
pub open spec fn flat_root_map(
    prefix: Seq<char>,
    entries: Seq<(StructuredValue, StructuredValue)>,
    i: int,
    acc: Seq<(Seq<char>, Seq<char>)>,
) -> Result<Seq<(Seq<char>, Seq<char>)>, ErrShape>
    decreases entries.len() - i,
{
    if i < 0 || i >= entries.len() {
        Result::Ok(acc)
    } else {
        match map_key_text(entries[i].0) {
            Option::None => Result::Err(ErrShape::KeyNotString),
            Option::Some(k) => match flat_field(compose_spec(prefix, k), entries[i].1, acc) {
                Result::Ok(acc2) => flat_root_map(prefix, entries, i + 1, acc2),
                Result::Err(e) => Result::Err(e),
            },
        }
    }
}

/// What one flatten call yields: the full output mapping in insertion
/// order, or the first violation found. The outcome is a function of the
/// prefix and the value alone, so flattening is deterministic.
pub open spec fn flatten_spec(prefix: Seq<char>, v: StructuredValue) -> Result<
    Seq<(Seq<char>, Seq<char>)>,
    ErrShape,
> {
    match v {
        StructuredValue::Record(fields) => flat_root_record(
            prefix,
            fields@,
            0,
            Seq::<(Seq<char>, Seq<char>)>::empty(),
        ),
        StructuredValue::Mapping(entries) => flat_root_map(
            prefix,
            entries@,
            0,
            Seq::<(Seq<char>, Seq<char>)>::empty(),
        ),
        _ => Result::Err(ErrShape::UnsupportedShape { kind: shape_kind(v) }),
    }
}

/// Resolves map-entry keys to composed output keys.
pub struct KeyToStringSerializer {
    /// The already-composed key path the entry key is appended to.
    pub prefix: String,
}

impl KeyToStringSerializer {
    /// Composes the output key for a plain-text key segment.
    pub fn serialize_str(&self, v: &str) -> (r: String)
        ensures
            r@ == compose_spec(self.prefix@, v@),
    {
        compose(self.prefix.as_str(), v)
    }

    /// Resolves a structured map key: plain text composes into an output
    /// key, any other shape fails with `KeyNotString`.
    pub fn resolve(&self, key: &StructuredValue) -> (r: Result<String, SerializeToEnvError>)
        ensures
            match map_key_text(*key) {
                Option::Some(k) => r matches Result::Ok(s) && s@ == compose_spec(self.prefix@, k),
                Option::None => r matches Result::Err(e) && e@ == ErrShape::KeyNotString,
            },
    {
        match key {
            StructuredValue::Scalar(s) => match s {
                ScalarValue::Text(k) => Result::Ok(self.serialize_str(k.as_str())),
                _ => Result::Err(SerializeToEnvError::KeyNotString),
            },
            _ => Result::Err(SerializeToEnvError::KeyNotString),
        }
    }
}

/// Flattens one member under an already-composed key.
#[verifier::rlimit(60)]
#[verifier::loop_isolation(false)]
fn flatten_member(
    key: String,
    value: &StructuredValue,
    nested: bool,
    out: &mut FlatMap,
) -> (r: Result<(), SerializeToEnvError>)
    requires
        old(out).wf(),
        if nested {
            value.leaf_encodable()
        } else {
            value.field_encodable()
        },
    ensures
        match r {
            Result::Ok(()) => final(out).wf() && flat_member(key@, *value, nested, old(out)@)
                == Result::<_, ErrShape>::Ok(final(out)@),
            Result::Err(e) => flat_member(key@, *value, nested, old(out)@) == Result::<
                Seq<(Seq<char>, Seq<char>)>,
                ErrShape,
            >::Err(e@),
        },
    decreases (if nested { 0int } else { 1int }), 0int,
{
    match value {
        StructuredValue::Scalar(s) => {
            let encoded = s.encode();
            match out.insert_new(key, encoded) {
                Result::Ok(()) => Result::Ok(()),
                Result::Err(e) => Result::Err(e),
            }
        },
        StructuredValue::OptionalScalar(o) => match o {
            Option::None => Result::Ok(()),
            Option::Some(s) => {
                let encoded = s.encode();
                match out.insert_new(key, encoded) {
                    Result::Ok(()) => Result::Ok(()),
                    Result::Err(e) => Result::Err(e),
                }
            },
        },
        StructuredValue::Record(fields) => {
            if nested {
                return Result::Err(SerializeToEnvError::NestingTooDeep);
            }
            let ghost key_view = key@;
            let mut sub = SerializeToEnvStruct::new(key, true);
            let n = fields.len();
            let mut i: usize = 0;
            while i < n
                invariant
                    i <= n,
                    n == fields@.len(),
                    nested == false,
                    sub.nested == true,
                    sub.key is None,
                    sub.prefix@ == key_view,
                    out.wf(),
                    forall|j: int| 0 <= j < n ==> (#[trigger] fields@[j]).1.leaf_encodable(),
                    flat_inner_record(key_view, fields@, 0, old(out)@) == flat_inner_record(
                        key_view,
                        fields@,
                        i as int,
                        out@,
                    ),
                decreases n - i,
            {
                let ghost out_before = out@;
                let pair = &fields[i];
                match sub.serialize_field(pair.0.as_str(), &pair.1, out) {
                    Result::Ok(()) => {
                        proof {
                            assert(flat_inner_record(key_view, fields@, i as int, out_before)
                                == flat_inner_record(key_view, fields@, i + 1, out@));
                        }
                    },
                    Result::Err(e) => {
                        proof {
                            assert(flat_inner_record(key_view, fields@, i as int, out_before)
                                == Result::<Seq<(Seq<char>, Seq<char>)>, ErrShape>::Err(e@));
                            assert(flat_member(key_view, *value, nested, old(out)@)
                                == Result::<Seq<(Seq<char>, Seq<char>)>, ErrShape>::Err(e@));
                        }
                        return Result::Err(e);
                    },
                }
                i = i + 1;
            }
            Result::Ok(())
        },
        StructuredValue::Mapping(entries) => {
            if nested {
                return Result::Err(SerializeToEnvError::NestingTooDeep);
            }
            let ghost key_view = key@;
            let mut sub = SerializeToEnvMap::new(key, true);
            let n = entries.len();
            let mut i: usize = 0;
            while i < n
                invariant
                    i <= n,
                    n == entries@.len(),
                    nested == false,
                    sub.nested == true,
                    sub.key is None,
                    sub.prefix@ == key_view,
                    out.wf(),
                    forall|j: int| 0 <= j < n ==> (#[trigger] entries@[j]).1.leaf_encodable(),
                    flat_inner_map(key_view, entries@, 0, old(out)@) == flat_inner_map(
                        key_view,
                        entries@,
                        i as int,
                        out@,
                    ),
                decreases n - i,
            {
                let ghost out_before = out@;
                let pair = &entries[i];
                match sub.serialize_key(&pair.0) {
                    Result::Ok(()) => {},
                    Result::Err(e) => {
                        proof {
                            assert(flat_inner_map(key_view, entries@, i as int, out_before)
                                == Result::<Seq<(Seq<char>, Seq<char>)>, ErrShape>::Err(e@));
                            assert(flat_member(key_view, *value, nested, old(out)@)
                                == Result::<Seq<(Seq<char>, Seq<char>)>, ErrShape>::Err(e@));
                        }
                        return Result::Err(e);
                    },
                }
                match sub.serialize_value(&pair.1, out) {
                    Result::Ok(()) => {
                        proof {
                            assert(flat_inner_map(key_view, entries@, i as int, out_before)
                                == flat_inner_map(key_view, entries@, i + 1, out@));
                        }
                    },
                    Result::Err(e) => {
                        proof {
                            assert(flat_inner_map(key_view, entries@, i as int, out_before)
                                == Result::<Seq<(Seq<char>, Seq<char>)>, ErrShape>::Err(e@));
                            assert(flat_member(key_view, *value, nested, old(out)@)
                                == Result::<Seq<(Seq<char>, Seq<char>)>, ErrShape>::Err(e@));
                        }
                        return Result::Err(e);
                    },
                }
                i = i + 1;
            }
            Result::Ok(())
        },
        _ => Result::Err(SerializeToEnvError::UnsupportedShape(shape_kind_string(value))),
    }
}

/// Flattens the named fields of one record, holding the key-discipline
/// state between a field's key and its value.
pub struct SerializeToEnvStruct {
    /// The composed key path of the record itself.
    pub prefix: String,
    /// The pending composed key, set by a field name and consumed by its
    /// value.
    pub key: Option<String>,
    /// Whether this record already sits one level beneath the root.
    pub nested: bool,
}

impl SerializeToEnvStruct {
    /// The pending key, as a character sequence.
    pub open spec fn key_view(self) -> Option<Seq<char>> {
        match self.key {
            Option::Some(k) => Option::Some(k@),
            Option::None => Option::None,
        }
    }

    /// A serializer for one record's fields.
    pub fn new(prefix: String, nested: bool) -> (r: SerializeToEnvStruct)
        ensures
            r.prefix == prefix,
            r.key is None,
            r.nested == nested,
    {
        SerializeToEnvStruct { prefix, key: Option::None, nested }
    }

    /// Sets the composed key for the next field value; setting a key twice
    /// without consuming it is a driver defect, reported as `DoubleKey`.
    pub fn serialize_key_name(&mut self, name: &str) -> (r: Result<(), SerializeToEnvError>)
        ensures
            final(self).prefix == old(self).prefix,
            final(self).nested == old(self).nested,
            match r {
                Result::Ok(()) => old(self).key is None && final(self).key_view()
                    == Option::Some(compose_spec(old(self).prefix@, name@)),
                Result::Err(e) => old(self).key is Some && e@ == ErrShape::DoubleKey && *final(self) == *old(self),
            },
    {
        if self.key.is_some() {
            return Result::Err(SerializeToEnvError::DoubleKey);
        }
        let composed = compose(self.prefix.as_str(), name);
        self.key = Option::Some(composed);
        Result::Ok(())
    }

    /// Writes the pending field's value; a value without a pending key is a
    /// driver defect, reported as `MissingKey`.
    pub fn serialize_value(&mut self, value: &StructuredValue, out: &mut FlatMap) -> (r: Result<
        (),
        SerializeToEnvError,
    >)
        requires
            old(out).wf(),
            if old(self).nested {
                value.leaf_encodable()
            } else {
                value.field_encodable()
            },
        ensures
            final(self).prefix == old(self).prefix,
            final(self).nested == old(self).nested,
            match r {
                Result::Ok(()) => match old(self).key_view() {
                    Option::Some(k) => final(self).key is None && final(out).wf() && flat_member(
                        k,
                        *value,
                        old(self).nested,
                        old(out)@,
                    ) == Result::<_, ErrShape>::Ok(final(out)@),
                    Option::None => false,
                },
                Result::Err(e) => match old(self).key_view() {
                    Option::None => e@ == ErrShape::MissingKey && final(out)@ == old(out)@ && *final(self) == *old(self),
                    Option::Some(k) => flat_member(k, *value, old(self).nested, old(out)@)
                        == Result::<Seq<(Seq<char>, Seq<char>)>, ErrShape>::Err(e@),
                },
            },
        decreases (if old(self).nested { 0int } else { 1int }), 1int,
    {
        let key = self.key.take();
        match key {
            Option::None => Result::Err(SerializeToEnvError::MissingKey),
            Option::Some(k) => flatten_member(k, value, self.nested, out),
        }
    }

    /// Composes the field's key and writes its value in one step.
    pub fn serialize_field(&mut self, name: &str, value: &StructuredValue, out: &mut FlatMap) -> (r:
        Result<(), SerializeToEnvError>)
        requires
            old(out).wf(),
            if old(self).nested {
                value.leaf_encodable()
            } else {
                value.field_encodable()
            },
        ensures
            final(self).prefix == old(self).prefix,
            final(self).nested == old(self).nested,
            match r {
                Result::Ok(()) => old(self).key is None && final(self).key is None && final(out).wf() && flat_member(
                    compose_spec(old(self).prefix@, name@),
                    *value,
                    old(self).nested,
                    old(out)@,
                ) == Result::<_, ErrShape>::Ok(final(out)@),
                Result::Err(e) => (old(self).key is Some && e@ == ErrShape::DoubleKey && final(out)@ == old(out)@) || (old(self).key is None && flat_member(
                    compose_spec(old(self).prefix@, name@),
                    *value,
                    old(self).nested,
                    old(out)@,
                ) == Result::<Seq<(Seq<char>, Seq<char>)>, ErrShape>::Err(e@)),
            },
        decreases (if old(self).nested { 0int } else { 1int }), 2int,
    {
        match self.serialize_key_name(name) {
            Result::Ok(()) => {},
            Result::Err(e) => {
                return Result::Err(e);
            },
        }
        self.serialize_value(value, out)
    }

    /// Finishes the record; nothing is owed.
    pub fn end(self) -> (r: Result<(), SerializeToEnvError>)
        ensures
            r is Ok,
    {
        Result::Ok(())
    }
}

/// Flattens the keyed entries of one map, holding the key-discipline state
/// between an entry's key and its value.
pub struct SerializeToEnvMap {
    /// The composed key path of the map itself.
    pub prefix: String,
    /// The pending composed key, set by an entry key and consumed by its
    /// value.
    pub key: Option<String>,
    /// Whether this map already sits one level beneath the root.
    pub nested: bool,
}

impl SerializeToEnvMap {
    /// The pending key, as a character sequence.
    pub open spec fn key_view(self) -> Option<Seq<char>> {
        match self.key {
            Option::Some(k) => Option::Some(k@),
            Option::None => Option::None,
        }
    }

    /// A serializer for one map's entries.
    pub fn new(prefix: String, nested: bool) -> (r: SerializeToEnvMap)
        ensures
            r.prefix == prefix,
            r.key is None,
            r.nested == nested,
    {
        SerializeToEnvMap { prefix, key: Option::None, nested }
    }

    /// Resolves and composes the key for the next entry value. A key that
    /// is not plain text fails with `KeyNotString`; setting a key twice
    /// without consuming it is a driver defect, reported as `DoubleKey`.
    pub fn serialize_key(&mut self, key: &StructuredValue) -> (r: Result<(), SerializeToEnvError>)
        ensures
            final(self).prefix == old(self).prefix,
            final(self).nested == old(self).nested,
            match r {
                Result::Ok(()) => old(self).key is None && map_key_text(*key) is Some && final(self).key_view() == Option::Some(
                    compose_spec(old(self).prefix@, map_key_text(*key)->0),
                ),
                Result::Err(e) => *final(self) == *old(self) && ((map_key_text(*key) is None && e@
                    == ErrShape::KeyNotString) || (map_key_text(*key) is Some && old(self).key
                    is Some && e@ == ErrShape::DoubleKey)),
            },
    {
        let resolver = KeyToStringSerializer { prefix: self.prefix.clone() };
        match resolver.resolve(key) {
            Result::Ok(composed) => {
                if self.key.is_some() {
                    return Result::Err(SerializeToEnvError::DoubleKey);
                }
                self.key = Option::Some(composed);
                Result::Ok(())
            },
            Result::Err(e) => Result::Err(e),
        }
    }

    /// Writes the pending entry's value; a value without a pending key is a
    /// driver defect, reported as `MissingKey`.
    pub fn serialize_value(&mut self, value: &StructuredValue, out: &mut FlatMap) -> (r: Result<
        (),
        SerializeToEnvError,
    >)
        requires
            old(out).wf(),
            if old(self).nested {
                value.leaf_encodable()
            } else {
                value.field_encodable()
            },
        ensures
            final(self).prefix == old(self).prefix,
            final(self).nested == old(self).nested,
            match r {
                Result::Ok(()) => match old(self).key_view() {
                    Option::Some(k) => final(self).key is None && final(out).wf() && flat_member(
                        k,
                        *value,
                        old(self).nested,
                        old(out)@,
                    ) == Result::<_, ErrShape>::Ok(final(out)@),
                    Option::None => false,
                },
                Result::Err(e) => match old(self).key_view() {
                    Option::None => e@ == ErrShape::MissingKey && final(out)@ == old(out)@ && *final(self) == *old(self),
                    Option::Some(k) => flat_member(k, *value, old(self).nested, old(out)@)
                        == Result::<Seq<(Seq<char>, Seq<char>)>, ErrShape>::Err(e@),
                },
            },
        decreases (if old(self).nested { 0int } else { 1int }), 1int,
    {
        let key = self.key.take();
        match key {
            Option::None => Result::Err(SerializeToEnvError::MissingKey),
            Option::Some(k) => flatten_member(k, value, self.nested, out),
        }
    }

    /// Finishes the map; nothing is owed.
    pub fn end(self) -> (r: Result<(), SerializeToEnvError>)
        ensures
            r is Ok,
    {
        Result::Ok(())
    }
}

/// The entry point of the flattening engine: validates the root shape and
/// drives the member serializers.
pub struct SerializeToEnv {
    /// The name prefix every composed key starts with.
    pub prefix: String,
}

impl SerializeToEnv {
    /// An engine writing keys under the given prefix.
    pub fn new(prefix: String) -> (r: SerializeToEnv)
        ensures
            r.prefix == prefix,
    {
        SerializeToEnv { prefix }
    }

    /// Flattens one structured value into a fresh mapping.
    ///
    /// The outcome equals [`flatten_spec`] of the prefix and the value, a
    /// pure function of the two: equal inputs yield identical mappings.
    /// On failure no partial mapping is returned.
    #[verifier::rlimit(60)]
    #[verifier::loop_isolation(false)]
    pub fn flatten(&self, value: &StructuredValue) -> (r: Result<FlatMap, SerializeToEnvError>)
        requires
            value.encodable(),
        ensures
            match r {
                Result::Ok(m) => m.wf() && flatten_spec(self.prefix@, *value) == Result::<
                    _,
                    ErrShape,
                >::Ok(m@),
                Result::Err(e) => flatten_spec(self.prefix@, *value) == Result::<
                    Seq<(Seq<char>, Seq<char>)>,
                    ErrShape,
                >::Err(e@),
            },
    {
        let mut out = FlatMap::new();
        match value {
            StructuredValue::Record(fields) => {
                let mut st = SerializeToEnvStruct::new(self.prefix.clone(), false);
                let n = fields.len();
                let mut i: usize = 0;
                while i < n
                    invariant
                        i <= n,
                        n == fields@.len(),
                        st.nested == false,
                        st.key is None,
                        st.prefix@ == self.prefix@,
                        out.wf(),
                        forall|j: int| 0 <= j < n ==> (#[trigger] fields@[j]).1.field_encodable(),
                        flat_root_record(
                            self.prefix@,
                            fields@,
                            0,
                            Seq::<(Seq<char>, Seq<char>)>::empty(),
                        ) == flat_root_record(self.prefix@, fields@, i as int, out@),
                    decreases n - i,
                {
                    let ghost out_before = out@;
                    let pair = &fields[i];
                    match st.serialize_field(pair.0.as_str(), &pair.1, &mut out) {
                        Result::Ok(()) => {
                            proof {
                                assert(flat_root_record(self.prefix@, fields@, i as int, out_before)
                                    == flat_root_record(self.prefix@, fields@, i + 1, out@));
                            }
                        },
                        Result::Err(e) => {
                            proof {
                                assert(flat_root_record(self.prefix@, fields@, i as int, out_before)
                                    == Result::<Seq<(Seq<char>, Seq<char>)>, ErrShape>::Err(e@));
                            }
                            return Result::Err(e);
                        },
                    }
                    i = i + 1;
                }
                Result::Ok(out)
            },
            StructuredValue::Mapping(entries) => {
                let mut sm = SerializeToEnvMap::new(self.prefix.clone(), false);
                let n = entries.len();
                let mut i: usize = 0;
                while i < n
                    invariant
                        i <= n,
                        n == entries@.len(),
                        sm.nested == false,
                        sm.key is None,
                        sm.prefix@ == self.prefix@,
                        out.wf(),
                        forall|j: int| 0 <= j < n ==> (#[trigger] entries@[j]).1.field_encodable(),
                        flat_root_map(
                            self.prefix@,
                            entries@,
                            0,
                            Seq::<(Seq<char>, Seq<char>)>::empty(),
                        ) == flat_root_map(self.prefix@, entries@, i as int, out@),
                    decreases n - i,
                {
                    let ghost out_before = out@;
                    let pair = &entries[i];
                    match sm.serialize_key(&pair.0) {
                        Result::Ok(()) => {},
                        Result::Err(e) => {
                            proof {
                                assert(flat_root_map(self.prefix@, entries@, i as int, out_before)
                                    == Result::<Seq<(Seq<char>, Seq<char>)>, ErrShape>::Err(e@));
                            }
                            return Result::Err(e);
                        },
                    }
                    match sm.serialize_value(&pair.1, &mut out) {
                        Result::Ok(()) => {
                            proof {
                                assert(flat_root_map(self.prefix@, entries@, i as int, out_before)
                                    == flat_root_map(self.prefix@, entries@, i + 1, out@));
                            }
                        },
                        Result::Err(e) => {
                            proof {
                                assert(flat_root_map(self.prefix@, entries@, i as int, out_before)
                                    == Result::<Seq<(Seq<char>, Seq<char>)>, ErrShape>::Err(e@));
                            }
                            return Result::Err(e);
                        },
                    }
                    i = i + 1;
                }
                Result::Ok(out)
            },
            _ => Result::Err(SerializeToEnvError::UnsupportedShape(shape_kind_string(value))),
        }
    }
}

/// Flattens one structured value under a prefix into a fresh mapping.
pub fn serialize_to_map(prefix: &str, value: &StructuredValue) -> (r: Result<
    FlatMap,
    SerializeToEnvError,
>)
    requires
        value.encodable(),
    ensures
        match r {
            Result::Ok(m) => m.wf() && flatten_spec(prefix@, *value) == Result::<_, ErrShape>::Ok(
                m@,
            ),
            Result::Err(e) => flatten_spec(prefix@, *value) == Result::<
                Seq<(Seq<char>, Seq<char>)>,
                ErrShape,
            >::Err(e@),
        },
{
    let ser = SerializeToEnv::new(prefix.to_owned());
    ser.flatten(value)
}

/// Root-shape rejection: any root that is not a record or a map — a bare
/// scalar, an optional, a sequence, a tuple, raw bytes or unit — fails with
/// `UnsupportedShape`, whatever the prefix; no mapping is produced.
pub proof fn lemma_root_shape_rejected(prefix: Seq<char>, v: StructuredValue)
    requires
        !(v is Record),
        !(v is Mapping),
    ensures
        flatten_spec(prefix, v) == Result::<Seq<(Seq<char>, Seq<char>)>, ErrShape>::Err(
            ErrShape::UnsupportedShape { kind: shape_kind(v) },
        ),
{
}

/// Depth rejection: a root record holding a field whose value is a record
/// with one further record- or map-valued field fails with
/// `NestingTooDeep`; no partial output is returned.
pub proof fn lemma_nesting_rejected(
    prefix: Seq<char>,
    outer: Vec<(String, StructuredValue)>,
    mid: Vec<(String, StructuredValue)>,
)
    requires
        outer@.len() == 1,
        outer@[0].1 == StructuredValue::Record(mid),
        mid@.len() == 1,
        mid@[0].1 is Record || mid@[0].1 is Mapping,
    ensures
        flatten_spec(prefix, StructuredValue::Record(outer)) == Result::<
            Seq<(Seq<char>, Seq<char>)>,
            ErrShape,
        >::Err(ErrShape::NestingTooDeep),
{
    let empty = Seq::<(Seq<char>, Seq<char>)>::empty();
    let k1 = compose_spec(prefix, outer@[0].0@);
    let k2 = compose_spec(k1, mid@[0].0@);
    assert(flat_leaf(k2, mid@[0].1, empty) == Result::<Seq<(Seq<char>, Seq<char>)>, ErrShape>::Err(
        ErrShape::NestingTooDeep,
    ));
    assert(flat_inner_record(k1, mid@, 0, empty) == Result::<
        Seq<(Seq<char>, Seq<char>)>,
        ErrShape,
    >::Err(ErrShape::NestingTooDeep));
    assert(flat_field(k1, outer@[0].1, empty) == Result::<Seq<(Seq<char>, Seq<char>)>, ErrShape>::Err(
        ErrShape::NestingTooDeep,
    ));
    assert(flat_root_record(prefix, outer@, 0, empty) == Result::<
        Seq<(Seq<char>, Seq<char>)>,
        ErrShape,
    >::Err(ErrShape::NestingTooDeep));
}

/// Duplicate detection: a map with two scalar entries whose text keys
/// normalize to the same output key fails with `DuplicateKey` — the second
/// entry never overwrites the first.
pub proof fn lemma_duplicate_key_rejected(
    prefix: Seq<char>,
    entries: Vec<(StructuredValue, StructuredValue)>,
    k1: String,
    k2: String,
    v1: ScalarValue,
    v2: ScalarValue,
)
    requires
        entries@.len() == 2,
        entries@[0].0 == StructuredValue::Scalar(ScalarValue::Text(k1)),
        entries@[0].1 == StructuredValue::Scalar(v1),
        entries@[1].0 == StructuredValue::Scalar(ScalarValue::Text(k2)),
        entries@[1].1 == StructuredValue::Scalar(v2),
        normalize_spec(k1@) == normalize_spec(k2@),
    ensures
        flatten_spec(prefix, StructuredValue::Mapping(entries)) == Result::<
            Seq<(Seq<char>, Seq<char>)>,
            ErrShape,
        >::Err(ErrShape::DuplicateKey { key: compose_spec(prefix, k2@) }),
{
    let empty = Seq::<(Seq<char>, Seq<char>)>::empty();
    let c1 = compose_spec(prefix, k1@);
    let c2 = compose_spec(prefix, k2@);
    assert(c1 == c2);
    assert(!has_key(empty, c1));
    let acc1 = empty.push((c1, encode_spec(v1@)));
    assert(flat_field(c1, entries@[0].1, empty) == Result::<Seq<(Seq<char>, Seq<char>)>, ErrShape>::Ok(
        acc1,
    ));
    assert(has_key(acc1, c2)) by {
        assert(acc1[0].0 == c2);
    }
    assert(flat_field(c2, entries@[1].1, acc1) == Result::<Seq<(Seq<char>, Seq<char>)>, ErrShape>::Err(
        ErrShape::DuplicateKey { key: c2 },
    ));
    assert(flat_root_map(prefix, entries@, 1, acc1) == Result::<
        Seq<(Seq<char>, Seq<char>)>,
        ErrShape,
    >::Err(ErrShape::DuplicateKey { key: c2 }));
    assert(flat_root_map(prefix, entries@, 0, empty) == Result::<
        Seq<(Seq<char>, Seq<char>)>,
        ErrShape,
    >::Err(ErrShape::DuplicateKey { key: c2 }));
}

} // verus!
