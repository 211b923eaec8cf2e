//! CBOR data items, encoded and decoded by `serde_cbor_2`.

use vstd::prelude::*;

verus! {

broadcast use vstd::std_specs::vec::axiom_vec_index_decreases;

/// The `serde_cbor_2` value type, held opaquely while converting.
#[verifier::external_type_specification]
#[verifier::external_body]
pub struct ExCborValue(serde_cbor_2::Value);

/// A CBOR data item, as far as caBLE reads and writes them.
#[derive(Debug)]
pub enum CborValue {
    /// An integer.
    Integer(i128),
    /// A byte string.
    Bytes(Vec<u8>),
    /// A text string.
    Text(String),
    /// A boolean.
    Bool(bool),
    /// An array.
    Array(Vec<CborValue>),
    /// A map, as its entries in key order.
    Entries(Vec<(CborValue, CborValue)>),
    /// Any other item (null, floating-point, tagged).
    Other,
}

/// The mathematical form of a CBOR data item.
pub enum CborItem {
    Integer(int),
    Bytes(Seq<u8>),
    Text(Seq<char>),
    Bool(bool),
    Array(Seq<CborItem>),
    Entries(Seq<(CborItem, CborItem)>),
    Other,
}

impl CborValue {
    /// The mathematical form of this data item.
    pub open spec fn item(&self) -> CborItem
        decreases self,
    {
        match self {
            CborValue::Integer(i) => CborItem::Integer(*i as int),
            CborValue::Bytes(b) => CborItem::Bytes(b@),
            CborValue::Text(t) => CborItem::Text(t@),
            CborValue::Bool(b) => CborItem::Bool(*b),
            CborValue::Array(a) => CborItem::Array(
                Seq::new(
                    a@.len(),
                    |i: int|
                        if 0 <= i < a.len() {
                            a[i].item()
                        } else {
                            CborItem::Other
                        },
                ),
            ),
            CborValue::Entries(m) => CborItem::Entries(
                Seq::new(
                    m@.len(),
                    |i: int|
                        if 0 <= i < m.len() {
                            (m[i].0.item(), m[i].1.item())
                        } else {
                            (CborItem::Other, CborItem::Other)
                        },
                ),
            ),
            CborValue::Other => CborItem::Other,
        }
    }
}

/// A scalar item that CBOR encodes and decodes unchanged: an integer in CBOR's range, a
/// byte string, a text string or a boolean.
pub open spec fn cbor_scalar(i: CborItem) -> bool {
    match i {
        CborItem::Integer(v) => -0x1_0000_0000_0000_0000 <= v < 0x1_0000_0000_0000_0000,
        CborItem::Bytes(_) => true,
        CborItem::Text(_) => true,
        CborItem::Bool(_) => true,
        _ => false,
    }
}

/// A map entry value that CBOR encodes and decodes unchanged: a scalar, or an array of
/// scalars.
pub open spec fn cbor_flat(i: CborItem) -> bool {
    match i {
        CborItem::Array(items) => forall|k: int| 0 <= k < items.len() ==> cbor_scalar(#[trigger] items[k]),
        _ => cbor_scalar(i),
    }
}

/// The key of a map entry, when it is a small non-negative integer (below 24, encoded in
/// one byte).
pub open spec fn small_key(e: (CborItem, CborItem)) -> Option<int> {
    match e.0 {
        CborItem::Integer(k) => if 0 <= k < 24 {
            Some(k)
        } else {
            None
        },
        _ => None,
    }
}

/// A map that CBOR encodes and decodes unchanged: small integer keys in strictly
/// increasing order (the order in which `serde_cbor_2` keeps and decodes them), and flat
/// values.
pub open spec fn cbor_canonical_map(i: CborItem) -> bool {
    match i {
        CborItem::Entries(es) => {
            &&& forall|k: int| 0 <= k < es.len() ==> (#[trigger] small_key(es[k])) is Some && cbor_flat(es[k].1)
            &&& forall|k: int, l: int| 0 <= k < l < es.len() ==> small_key(#[trigger] es[k])->Some_0 < small_key(#[trigger] es[l])->Some_0
        },
        _ => false,
    }
}

/// The data item that `serde_cbor_2` decodes from `bytes`, or `None` when they are not a
/// single well-formed item.
pub uninterp spec fn cbor_decoded(bytes: Seq<u8>) -> Option<CborItem>;

/// The packed encoding that `serde_cbor_2` gives a data item, or `None` when it reports an
/// error.
pub uninterp spec fn cbor_encoded(v: CborItem) -> Option<Seq<u8>>;

/// Converts a `serde_cbor_2` value into a [`CborValue`], variant by variant.
#[verifier::external_body]
fn cbor_from_value(v: serde_cbor_2::Value) -> CborValue {
    match v {
        serde_cbor_2::Value::Integer(i) => CborValue::Integer(i),
        serde_cbor_2::Value::Bytes(b) => CborValue::Bytes(b),
        serde_cbor_2::Value::Text(t) => CborValue::Text(t),
        serde_cbor_2::Value::Bool(b) => CborValue::Bool(b),
        serde_cbor_2::Value::Array(a) => CborValue::Array(a.into_iter().map(cbor_from_value).collect()),
        serde_cbor_2::Value::Map(m) => CborValue::Entries(
            m.into_iter().map(|(k, v)| (cbor_from_value(k), cbor_from_value(v))).collect(),
        ),
        _ => CborValue::Other,
    }
}

/// Converts a [`CborValue`] into a `serde_cbor_2` value, variant by variant.
///
/// Building a `serde_cbor_2` map compares its keys, and comparing two arrays or maps
/// serializes them and panics when that fails; a canonical map has small integer keys
/// only, whose comparison cannot fail, and no map inside it.
#[verifier::external_body]
fn cbor_to_value(v: &CborValue) -> serde_cbor_2::Value
    requires
        cbor_canonical_map(v.item()),
{
    match v {
        CborValue::Integer(i) => serde_cbor_2::Value::Integer(*i),
        CborValue::Bytes(b) => serde_cbor_2::Value::Bytes(b.clone()),
        CborValue::Text(t) => serde_cbor_2::Value::Text(t.clone()),
        CborValue::Bool(b) => serde_cbor_2::Value::Bool(*b),
        CborValue::Array(a) => serde_cbor_2::Value::Array(a.iter().map(cbor_to_value).collect()),
        CborValue::Entries(m) => serde_cbor_2::Value::Map(
            m.iter().map(|(k, v)| (cbor_to_value(k), cbor_to_value(v))).collect(),
        ),
        CborValue::Other => serde_cbor_2::Value::Null,
    }
}

/// Decodes one CBOR data item with `serde_cbor_2::from_slice`.
///
/// The contract claims only that the result is a function of `bytes`, named
/// [`cbor_decoded`].
#[verifier::external_body]
pub fn cbor_decode(bytes: &[u8]) -> (r: Option<CborValue>)
    ensures
        match r {
            Some(v) => cbor_decoded(bytes@) == Some(v.item()),
            None => cbor_decoded(bytes@) is None,
        },
{
    serde_cbor_2::from_slice::<serde_cbor_2::Value>(bytes).ok().map(cbor_from_value)
}

/// Encodes a canonical CBOR map (see [`cbor_canonical_map`]) with
/// `serde_cbor_2::ser::to_vec_packed`.
///
/// Only canonical maps are accepted: building the `serde_cbor_2` map of other items can
/// panic (see `cbor_to_value`). The contract claims that the result is a function of `v`,
/// named [`cbor_encoded`], and that decoding it with `serde_cbor_2` gives the map back: its
/// integers, byte and text strings, booleans and arrays decode to the same values, and its
/// keys come back in the same (increasing) order. An encoding is never empty: every item
/// starts with a header byte.
#[verifier::external_body]
pub fn cbor_encode_packed(v: &CborValue) -> (r: Option<Vec<u8>>)
    requires
        cbor_canonical_map(v.item()),
    ensures
        match r {
            Some(b) => cbor_encoded(v.item()) == Some(b@) && b@.len() > 0 && cbor_decoded(b@)
                == Some(v.item()),
            None => cbor_encoded(v.item()) is None,
        },
{
    serde_cbor_2::ser::to_vec_packed(&cbor_to_value(v)).ok()
}

/// The mathematical form of map entries.
pub open spec fn entries_items(m: Vec<(CborValue, CborValue)>) -> Seq<(CborItem, CborItem)> {
    Seq::new(
        m@.len(),
        |i: int|
            if 0 <= i < m.len() {
                (m[i].0.item(), m[i].1.item())
            } else {
                (CborItem::Other, CborItem::Other)
            },
    )
}

/// The value of the first entry whose key is the integer `key`.
pub open spec fn lookup(es: Seq<(CborItem, CborItem)>, key: int) -> Option<CborItem>
    decreases es.len(),
{
    if es.len() == 0 {
        None
    } else if es[0].0 == CborItem::Integer(key) {
        Some(es[0].1)
    } else {
        lookup(es.drop_first(), key)
    }
}

/// The map entries of a decoded item, when it is a map.
pub fn as_entries(v: &CborValue) -> (r: Option<&Vec<(CborValue, CborValue)>>)
    ensures
        match r {
            Some(m) => v.item() == CborItem::Entries(entries_items(*m)),
            None => !(v.item() is Entries),
        },
{
    match v {
        CborValue::Entries(m) => {
            assert(v.item()->Entries_0 =~= entries_items(*m));
            Some(m)
        },
        _ => None,
    }
}

/// The value of the first entry of `m` whose key is the integer `key`.
pub fn get_int_key(m: &Vec<(CborValue, CborValue)>, key: i128) -> (r: Option<&CborValue>)
    ensures
        match r {
            Some(v) => lookup(entries_items(*m), key as int) == Some(v.item()),
            None => lookup(entries_items(*m), key as int) is None,
        },
{
    let mut i: usize = 0;
    assert(entries_items(*m).skip(0) =~= entries_items(*m));
    while i < m.len()
        invariant
            i <= m@.len(),
            lookup(entries_items(*m), key as int) == lookup(entries_items(*m).skip(i as int), key as int),
        decreases m@.len() - i,
    {
        let ghost es = entries_items(*m).skip(i as int);
        assert(es.drop_first() =~= entries_items(*m).skip(i + 1));
        match &m[i].0 {
            CborValue::Integer(k) => {
                if *k == key {
                    assert(es[0] == (m[i as int].0.item(), m[i as int].1.item()));
                    return Some(&m[i].1);
                }
            },
            _ => {},
        }
        i += 1;
    }
    None
}

/// The mathematical form of array elements.
pub open spec fn array_items(a: Vec<CborValue>) -> Seq<CborItem> {
    Seq::new(
        a@.len(),
        |i: int|
            if 0 <= i < a.len() {
                a[i].item()
            } else {
                CborItem::Other
            },
    )
}

/// The elements of a decoded item, when it is an array.
pub fn as_array(v: &CborValue) -> (r: Option<&Vec<CborValue>>)
    ensures
        match r {
            Some(a) => v.item() == CborItem::Array(array_items(*a)),
            None => !(v.item() is Array),
        },
{
    match v {
        CborValue::Array(a) => {
            assert(v.item()->Array_0 =~= array_items(*a));
            Some(a)
        },
        _ => None,
    }
}

} // verus!
