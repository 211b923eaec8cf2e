//! caBLE advertisement suffix.
//!
//! <https://fidoalliance.org/specs/fido-v2.3-ps-20260226/fido-client-to-authenticator-protocol-v2.3-ps-20260226.html#advertisement-suffix>

use crate::discovery::cbor::{
    as_entries, cbor_decode, cbor_decoded, cbor_encode_packed, cbor_encoded, entries_items,
    cbor_canonical_map, get_int_key, lookup, CborItem, CborValue,
};
use crate::error::{Error, Result};
use vstd::prelude::*;

verus! {

/// caBLE advertisement suffix.
#[derive(Debug, Default, PartialEq, Eq, Structural)]
pub struct Suffix {
    /// The transport that the authenticator will use for further communication.
    pub transport_channel_identifier: Option<u32>,
}

/// The map key of the transport channel identifier.
pub const KEY_TRANSPORT_CHANNEL_IDENTIFIER: i128 = 0;

/// The CBOR map of a suffix with transport channel identifier `t`: `{0: t}`.
pub open spec fn suffix_item(t: u32) -> CborItem {
    CborItem::Entries(seq![(CborItem::Integer(0), CborItem::Integer(t as int))])
}

/// The transport channel identifier that a map entry value gives: an integer that fits in
/// 32 bits, and nothing otherwise.
pub open spec fn transport_from(v: Option<CborItem>) -> Option<u32> {
    match v {
        Some(CborItem::Integer(i)) => if 0 <= i <= u32::MAX {
            Some(i as u32)
        } else {
            None
        },
        _ => None,
    }
}

/// What parsing `cbor` as a suffix gives: a map is required, and its integer key 0 gives
/// the transport channel identifier.
pub open spec fn suffix_from_cbor_spec(cbor: Seq<u8>) -> Option<Option<u32>> {
    match cbor_decoded(cbor) {
        Some(CborItem::Entries(es)) => Some(transport_from(lookup(es, 0))),
        _ => None,
    }
}

impl Suffix {
    /// Serialize [`Suffix`][] as CBOR.
    ///
    /// Returns `None` when no parameters are set.
    pub fn as_cbor(&self) -> (r: Result<Option<Vec<u8>>>)
        ensures
            match self.transport_channel_identifier {
                None => r == Ok::<Option<Vec<u8>>, Error>(None),
                Some(t) => match cbor_encoded(suffix_item(t)) {
                    Some(b) => r is Ok && r->Ok_0 is Some && r->Ok_0->Some_0@ == b,
                    None => r == Err::<Option<Vec<u8>>, Error>(Error::Internal),
                },
            },
            r matches Ok(Some(b)) ==> suffix_from_cbor_spec(b@) == Some(
                self.transport_channel_identifier,
            ),
    {
        match self.transport_channel_identifier {
            None => Ok(None),
            Some(t) => {
                let mut entries: Vec<(CborValue, CborValue)> = Vec::new();
                entries.push(
                    (
                        CborValue::Integer(KEY_TRANSPORT_CHANNEL_IDENTIFIER),
                        CborValue::Integer(t as i128),
                    ),
                );
                let ghost entries_copy = entries;
                let m = CborValue::Entries(entries);
                assert(m.item() == suffix_item(t)) by {
                    assert(m.item()->Entries_0 =~= entries_items(entries_copy));
                    assert(entries_items(entries_copy) =~= seq![
                        (CborItem::Integer(0), CborItem::Integer(t as int)),
                    ]);
                }
                assert(cbor_canonical_map(suffix_item(t)));
                assert(lookup(suffix_item(t)->Entries_0, 0) == Some(CborItem::Integer(t as int)));
                match cbor_encode_packed(&m) {
                    Some(b) => Ok(Some(b)),
                    None => Err(Error::Internal),
                }
            },
        }
    }

    /// Parse a [`Suffix`][] from CBOR.
    ///
    /// Fails with [`Error::InvalidArgument`] when `cbor` does not decode to a map.
    pub fn from_cbor(cbor: &[u8]) -> (r: Result<Self>)
        ensures
            match suffix_from_cbor_spec(cbor@) {
                Some(t) => r == Ok::<Suffix, Error>(Suffix { transport_channel_identifier: t }),
                None => r == Err::<Suffix, Error>(Error::InvalidArgument),
            },
    {
        let v = match cbor_decode(cbor) {
            Some(v) => v,
            None => return Err(Error::InvalidArgument),
        };
        let map = match as_entries(&v) {
            Some(m) => m,
            None => return Err(Error::InvalidArgument),
        };
        let mut suffix = Suffix { transport_channel_identifier: None };
        match get_int_key(map, KEY_TRANSPORT_CHANNEL_IDENTIFIER) {
            Some(CborValue::Integer(t)) => {
                if 0 <= *t && *t <= 0xffff_ffff {
                    suffix.transport_channel_identifier = Some(*t as u32);
                }
            },
            _ => {},
        }
        Ok(suffix)
    }
}

} // verus!
