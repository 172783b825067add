//! Resolution of a numeric code page identifier to an encoding descriptor.
//!
//! Identifier 850 is overridden to the IBM866 descriptor; every other
//! identifier goes through the general code page table.  A failed lookup is a
//! configuration error for the caller to treat as fatal before any byte moves.

use vstd::prelude::*;

verus! {

/// Descriptor of a text encoding, opaque to this crate; the decoder and
/// encoder stages are created from it.
#[verifier::external_type_specification]
#[verifier::external_body]
pub struct ExEncoding(encoding_rs::Encoding);

/// The entry of the general code page table for an identifier: what
/// `codepage::to_encoding` returns, a pure lookup in a fixed table.
pub uninterp spec fn codepage_encoding(cp: u16) -> Option<&'static encoding_rs::Encoding>;

/// Relies on codepage::to_encoding: a lookup in a fixed identifier-to-encoding
/// table, a function of the identifier alone.
#[verifier::external_body]
fn codepage_lookup(cp: u16) -> (r: Option<&'static encoding_rs::Encoding>)
    ensures
        r == codepage_encoding(cp),
{
    codepage::to_encoding(cp)
}

/// Relies on the static encoding_rs::IBM866, the same descriptor that the
/// general table names for identifier 866.
#[verifier::external_body]
fn ibm866() -> (r: &'static encoding_rs::Encoding)
    ensures
        Some(r) == codepage_encoding(866),
{
    encoding_rs::IBM866
}

/// What an identifier resolves to: 850 is pinned to the IBM866 descriptor (the
/// general table's entry for 866), every other identifier to its own entry in
/// the general table.
pub open spec fn spec_resolve(cp: u32) -> Option<&'static encoding_rs::Encoding> {
    if cp as u16 == 850 {
        codepage_encoding(866)
    } else {
        codepage_encoding(cp as u16)
    }
}

/// Resolves a numeric code page identifier to its encoding descriptor; `None`
/// is a configuration error, fatal before any byte is read or written.
pub fn get_encoding(cp: u32) -> (r: Option<&'static encoding_rs::Encoding>)
    ensures
        r == spec_resolve(cp),
        cp as u16 == 850 ==> r is Some,
{
    let low: u16 = cp as u16;
    if low == 850 {
        Some(ibm866())
    } else {
        codepage_lookup(low)
    }
}

/// The override: identifier 850 always resolves to the IBM866 descriptor,
/// whatever the general table holds for 850, and no other identifier is
/// diverted from its own entry in the general table.
pub proof fn lemma_resolve_override()
    ensures
        spec_resolve(850) == codepage_encoding(866),
        forall|cp: u32| cp as u16 != 850 ==> spec_resolve(cp) == codepage_encoding(cp as u16),
{
}

} // verus!
