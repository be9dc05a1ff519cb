//! The address deriver: a storage address is computed from an identity key and
//! the program's namespace by scanning adjustment bytes downward from 255 and
//! keeping the first candidate that falls outside the reserved subspace. The
//! scan order is a cross-component contract: the host environment verifies
//! addresses with the same scan, so exactly one canonical pair exists per
//! identity and namespace.

use crate::error::StudentIntroError;
use vstd::prelude::*;

verus! {

/// What the outside derivation primitive answers for one adjustment byte: the
/// 32 address bytes, or nothing where the candidate lands in the reserved
/// subspace. The answer depends on the three arguments alone.
pub uninterp spec fn address_candidate(identity: Seq<u8>, adjustment: u8, namespace: Seq<u8>) -> Option<
    Seq<u8>,
>;

/// Relies on solana_program::pubkey::Pubkey::create_program_address: a pure
/// SHA-256 derivation over the seed bytes, the adjustment byte and the
/// namespace key, returning the same 32-byte address on every call with the
/// same arguments, and failing exactly where the hash is an ed25519 curve
/// point. With one 32-byte seed and one adjustment byte, its seed-count and
/// seed-length limits cannot be hit.
#[verifier::external_body]
fn try_candidate(identity: &Vec<u8>, adjustment: u8, namespace: &Vec<u8>) -> (r: Option<Vec<u8>>)
    requires
        identity@.len() == 32,
        namespace@.len() == 32,
    ensures
        (r matches Some(a) ==> address_candidate(identity@, adjustment, namespace@) == Some(a@)
            && a@.len() == 32),
        r is None ==> address_candidate(identity@, adjustment, namespace@) is None,
{
    let mut namespace_bytes = [0u8; 32];
    namespace_bytes.copy_from_slice(namespace.as_slice());
    let program_id = solana_program::pubkey::Pubkey::new_from_array(namespace_bytes);
    let seeds: &[&[u8]] = &[identity.as_slice(), &[adjustment]];
    match solana_program::pubkey::Pubkey::create_program_address(seeds, &program_id) {
        Ok(address) => Some(address.to_bytes().to_vec()),
        Err(_) => None,
    }
}

/// The first accepted candidate at or below `adjustment`, scanning downward
/// and stopping above zero, as the host's own search does.
pub open spec fn spec_derive_from(identity: Seq<u8>, namespace: Seq<u8>, adjustment: int) -> Option<
    (Seq<u8>, u8),
>
    recommends
        adjustment <= 255,
    decreases adjustment,
{
    if adjustment < 1 {
        None
    } else {
        match address_candidate(identity, adjustment as u8, namespace) {
            Some(a) => Some((a, adjustment as u8)),
            None => spec_derive_from(identity, namespace, adjustment - 1),
        }
    }
}

/// The canonical derived address and adjustment for an identity and a
/// namespace: the first accepted candidate scanning from 255 downward.
pub open spec fn spec_derive(identity: Seq<u8>, namespace: Seq<u8>) -> Option<(Seq<u8>, u8)> {
    spec_derive_from(identity, namespace, 255)
}

/// Derives the canonical storage address for an identity under a namespace,
/// with the adjustment byte that produced it. Fails with
/// `DerivationExhausted` only where every adjustment byte lands in the
/// reserved subspace.
pub fn derive(identity: &Vec<u8>, namespace: &Vec<u8>) -> (r: Result<
    (Vec<u8>, u8),
    StudentIntroError,
>)
    requires
        identity@.len() == 32,
        namespace@.len() == 32,
    ensures
        (r matches Ok(p) ==> spec_derive(identity@, namespace@) == Some((p.0@, p.1)) && p.0@.len()
            == 32),
        (r matches Err(e) ==> spec_derive(identity@, namespace@) is None && e
            == StudentIntroError::DerivationExhausted),
{
    let mut adjustment: u8 = 255;
    loop
        invariant
            identity@.len() == 32,
            namespace@.len() == 32,
            1 <= adjustment <= 255,
            spec_derive(identity@, namespace@) == spec_derive_from(
                identity@,
                namespace@,
                adjustment as int,
            ),
        decreases adjustment,
    {
        match try_candidate(identity, adjustment, namespace) {
            Some(address) => {
                return Ok((address, adjustment));
            },
            None => {},
        }
        if adjustment == 1 {
            return Err(StudentIntroError::DerivationExhausted);
        }
        adjustment = adjustment - 1;
    }
}

} // verus!
