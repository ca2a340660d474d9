//! The items one producer contributes, and their export into one flat
//! mapping.
//!
//! A producer hands over "simple" items — named scalars exported directly —
//! and "complex" items — named structured values that are flattened. One
//! call builds the whole mapping under a base name, with every segment
//! normalized and with collisions reported rather than overwritten.

use vstd::prelude::*;

use crate::errors::{ErrShape, SerializeToEnvError};
use crate::flat_map::FlatMap;
use crate::keys::{compose, compose_spec};
use crate::scalar::{encode_spec, ScalarShape, ScalarValue};
use crate::serialize_to_env::{flatten_spec, insert_entry, SerializeToEnv, StructuredValue};

verus! {

/// The items one producer contributed: simple scalars exported directly and
/// complex values that are flattened.
pub struct SmolVergenPluginItems {
    /// Simple items: exported as one key and one encoded value each.
    pub items: Vec<(String, ScalarValue)>,
    /// Complex items: each flattened under its composed name.
    pub complex_items: Vec<(String, StructuredValue)>,
}

impl SmolVergenPluginItems {
    /// The simple items, as name and scalar shapes.
    pub open spec fn items_view(self) -> Seq<(Seq<char>, ScalarShape)> {
        Seq::new(self.items@.len(), |i: int| (self.items@[i].0@, self.items@[i].1@))
    }

    /// Every stored value can be encoded.
    pub open spec fn wf(self) -> bool {
        &&& forall|i: int| 0 <= i < self.items@.len() ==> (#[trigger] self.items@[i]).1.wf()
        &&& forall|i: int|
            0 <= i < self.complex_items@.len() ==> (
            #[trigger] self.complex_items@[i]).1.encodable()
    }

    /// An empty item set.
    pub fn new() -> (r: SmolVergenPluginItems)
        ensures
            r.items_view() == Seq::<(Seq<char>, ScalarShape)>::empty(),
            r.complex_items@ == Seq::<(String, StructuredValue)>::empty(),
            r.wf(),
    {
        let r = SmolVergenPluginItems { items: Vec::new(), complex_items: Vec::new() };
        proof {
            assert(r.items_view() =~= Seq::<(Seq<char>, ScalarShape)>::empty());
        }
        r
    }

    /// Adds a new simple item.
    pub fn add_item(&mut self, name: String, item: ScalarValue)
        requires
            old(self).wf(),
            item.wf(),
        ensures
            final(self).wf(),
            final(self).items_view() == old(self).items_view().push((name@, item@)),
            final(self).complex_items@ == old(self).complex_items@,
    {
        let ghost item_shape = item@;
        self.items.push((name, item));
        proof {
            assert(self.items_view() =~= old(self).items_view().push((name@, item_shape)));
        }
    }

    /// Adds a simple item when one is present.
    pub fn add_optional_item(&mut self, name: String, item: Option<ScalarValue>)
        requires
            old(self).wf(),
            item matches Option::Some(v) ==> v.wf(),
        ensures
            final(self).wf(),
            final(self).complex_items@ == old(self).complex_items@,
            match item {
                Option::Some(v) => final(self).items_view() == old(self).items_view().push(
                    (name@, v@),
                ),
                Option::None => final(self).items_view() == old(self).items_view(),
            },
    {
        match item {
            Option::Some(v) => self.add_item(name, v),
            Option::None => {},
        }
    }

    /// Adds a new complex item.
    pub fn add_complex_item(&mut self, name: String, item: StructuredValue)
        requires
            old(self).wf(),
            item.encodable(),
        ensures
            final(self).wf(),
            final(self).items_view() == old(self).items_view(),
            final(self).complex_items@ == old(self).complex_items@.push((name, item)),
    {
        self.complex_items.push((name, item));
        proof {
            assert(self.items_view() =~= old(self).items_view());
        }
    }

    /// Adds a complex item when one is present.
    pub fn add_optional_complex_item(&mut self, name: String, item: Option<StructuredValue>)
        requires
            old(self).wf(),
            item matches Option::Some(v) ==> v.encodable(),
        ensures
            final(self).wf(),
            final(self).items_view() == old(self).items_view(),
            match item {
                Option::Some(v) => final(self).complex_items@ == old(self).complex_items@.push(
                    (name, v),
                ),
                Option::None => final(self).complex_items@ == old(self).complex_items@,
            },
    {
        match item {
            Option::Some(v) => self.add_complex_item(name, v),
            Option::None => {},
        }
    }
}

/// Exports the simple items in order, from position `i`: one entry per
/// item, under the composed key.
pub open spec fn save_simple(
    base: Seq<char>,
    items: Seq<(String, ScalarValue)>,
    i: int,
    acc: Seq<(Seq<char>, Seq<char>)>,
) -> Result<Seq<(Seq<char>, Seq<char>)>, ErrShape>
    decreases items.len() - i,
{
    if i < 0 || i >= items.len() {
        Result::Ok(acc)
    } else {
        match insert_entry(acc, compose_spec(base, items[i].0@), encode_spec(items[i].1@)) {
            Result::Ok(acc2) => save_simple(base, items, i + 1, acc2),
            Result::Err(e) => Result::Err(e),
        }
    }
}

/// Merges already-flattened entries into the accumulated mapping, from
/// position `i`, reporting a collision rather than overwriting.
pub open spec fn merge_entries(
    acc: Seq<(Seq<char>, Seq<char>)>,
    add: Seq<(Seq<char>, Seq<char>)>,
    i: int,
) -> Result<Seq<(Seq<char>, Seq<char>)>, ErrShape>
    decreases add.len() - i,
{
    if i < 0 || i >= add.len() {
        Result::Ok(acc)
    } else {
        match insert_entry(acc, add[i].0, add[i].1) {
            Result::Ok(acc2) => merge_entries(acc2, add, i + 1),
            Result::Err(e) => Result::Err(e),
        }
    }
}

/// Flattens the complex items in order, from position `i`, merging each
/// item's mapping into the accumulated one.
pub open spec fn save_complex(
    base: Seq<char>,
    complex: Seq<(String, StructuredValue)>,
    i: int,
    acc: Seq<(Seq<char>, Seq<char>)>,
) -> Result<Seq<(Seq<char>, Seq<char>)>, ErrShape>
    decreases complex.len() - i,
{
    if i < 0 || i >= complex.len() {
        Result::Ok(acc)
    } else {
        match flatten_spec(compose_spec(base, complex[i].0@), complex[i].1) {
            Result::Ok(m) => match merge_entries(acc, m, 0) {
                Result::Ok(acc2) => save_complex(base, complex, i + 1, acc2),
                Result::Err(e) => Result::Err(e),
            },
            Result::Err(e) => Result::Err(e),
        }
    }
}

/// What exporting one producer's items yields: simple items first, then
/// each complex item flattened, or the first violation found.
pub open spec fn save_spec(base: Seq<char>, p: SmolVergenPluginItems) -> Result<
    Seq<(Seq<char>, Seq<char>)>,
    ErrShape,
> {
    match save_simple(base, p.items@, 0, Seq::<(Seq<char>, Seq<char>)>::empty()) {
        Result::Ok(acc) => save_complex(base, p.complex_items@, 0, acc),
        Result::Err(e) => Result::Err(e),
    }
}

/// Builds the flat mapping for one producer's items under a base name:
/// every simple item under its composed key, then every complex item
/// flattened under its composed name.
#[verifier::rlimit(60)]
#[verifier::loop_isolation(false)]
pub fn save_to_map(base_name: &str, plugin_items: &SmolVergenPluginItems) -> (r: Result<
    FlatMap,
    SerializeToEnvError,
>)
    requires
        plugin_items.wf(),
    ensures
        match r {
            Result::Ok(m) => m.wf() && save_spec(base_name@, *plugin_items) == Result::<
                _,
                ErrShape,
            >::Ok(m@),
            Result::Err(e) => save_spec(base_name@, *plugin_items) == Result::<
                Seq<(Seq<char>, Seq<char>)>,
                ErrShape,
            >::Err(e@),
        },
{
    let mut map = FlatMap::new();
    let n = plugin_items.items.len();
    let mut i: usize = 0;
    while i < n
        invariant
            i <= n,
            map.wf(),
            save_simple(
                base_name@,
                plugin_items.items@,
                0,
                Seq::<(Seq<char>, Seq<char>)>::empty(),
            ) == save_simple(base_name@, plugin_items.items@, i as int, map@),
        decreases n - i,
    {
        let ghost map_before = map@;
        let pair = &plugin_items.items[i];
        let key = compose(base_name, pair.0.as_str());
        let encoded = pair.1.encode();
        match map.insert_new(key, encoded) {
            Result::Ok(()) => {
                proof {
                    assert(save_simple(base_name@, plugin_items.items@, i as int, map_before)
                        == save_simple(base_name@, plugin_items.items@, i + 1, map@));
                }
            },
            Result::Err(e) => {
                proof {
                    assert(save_simple(base_name@, plugin_items.items@, i as int, map_before)
                        == Result::<Seq<(Seq<char>, Seq<char>)>, ErrShape>::Err(e@));
                }
                return Result::Err(e);
            },
        }
        i = i + 1;
    }
    let m = plugin_items.complex_items.len();
    let mut j: usize = 0;
    let ghost simple_done = map@;
    while j < m
        invariant
            j <= m,
            map.wf(),
            save_complex(base_name@, plugin_items.complex_items@, 0, simple_done) == save_complex(
                base_name@,
                plugin_items.complex_items@,
                j as int,
                map@,
            ),
        decreases m - j,
    {
        let ghost map_before = map@;
        let pair = &plugin_items.complex_items[j];
        let prefix = compose(base_name, pair.0.as_str());
        let ser = SerializeToEnv::new(prefix);
        let sub = match ser.flatten(&pair.1) {
            Result::Ok(sub) => sub,
            Result::Err(e) => {
                proof {
                    assert(save_complex(base_name@, plugin_items.complex_items@, j as int, map_before)
                        == Result::<Seq<(Seq<char>, Seq<char>)>, ErrShape>::Err(e@));
                }
                return Result::Err(e);
            },
        };
        let pairs = sub.pairs();
        let p = pairs.len();
        let mut k: usize = 0;
        while k < p
            invariant
                k <= p,
                map.wf(),
                merge_entries(map_before, sub@, 0) == merge_entries(map@, sub@, k as int),
            decreases p - k,
        {
            let ghost merge_before = map@;
            let entry = &pairs[k];
            match map.insert_new(entry.0.clone(), entry.1.clone()) {
                Result::Ok(()) => {
                    proof {
                        assert(merge_entries(merge_before, sub@, k as int) == merge_entries(
                            map@,
                            sub@,
                            k + 1,
                        ));
                    }
                },
                Result::Err(e) => {
                    proof {
                        assert(merge_entries(merge_before, sub@, k as int) == Result::<
                            Seq<(Seq<char>, Seq<char>)>,
                            ErrShape,
                        >::Err(e@));
                    }
                    return Result::Err(e);
                },
            }
            k = k + 1;
        }
        proof {
            assert(save_complex(base_name@, plugin_items.complex_items@, j as int, map_before)
                == save_complex(base_name@, plugin_items.complex_items@, j + 1, map@));
        }
        j = j + 1;
    }
    Result::Ok(map)
}

} // verus!
