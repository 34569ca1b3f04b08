//! Identities, custody addresses and their deterministic derivation.

use vstd::prelude::*;

verus! {

/// A 32-byte ledger identity: a depositor, a program, a token class or a custody address.
#[derive(Clone, Copy, Debug, PartialEq, Eq)]
pub struct Address {
    pub bytes: [u8; 32],
}

/// Which custody path a lock follows.
#[derive(Clone, Copy, Debug, PartialEq, Eq, Structural)]
pub enum AssetKind {
    Sol,
    Spl,
}

/// What the ledger derives for a list of seeds under a program id: the canonical
/// address and its bump, or nothing when no bump yields an address off the curve.
pub uninterp spec fn program_address(seeds: Seq<Seq<u8>>, program_id: Seq<u8>) -> Option<(Seq<u8>, u8)>;

/// The bytes of a derivation result, as the specification functions see them.
pub open spec fn found_view(r: Option<([u8; 32], u8)>) -> Option<(Seq<u8>, u8)> {
    match r {
        Some((a, b)) => Some((a@, b)),
        None => None,
    }
}

/// The same, over the library's own address type.
pub open spec fn derived_view(r: Option<(Address, u8)>) -> Option<(Seq<u8>, u8)> {
    match r {
        Some((a, b)) => Some((a.bytes@, b)),
        None => None,
    }
}

/// The domain tag of each asset kind: "time-lock-sol" and "time-lock-spl".
pub open spec fn tag_of(kind: AssetKind) -> Seq<u8> {
    match kind {
        AssetKind::Sol => seq![116u8, 105, 109, 101, 45, 108, 111, 99, 107, 45, 115, 111, 108],
        AssetKind::Spl => seq![116u8, 105, 109, 101, 45, 108, 111, 99, 107, 45, 115, 112, 108],
    }
}

/// The custody address (and bump) of a depositor's lock of the given kind.
pub open spec fn custody_address_of(kind: AssetKind, depositor: Address, program_id: Address) -> Option<(Seq<u8>, u8)> {
    program_address(seq![tag_of(kind), depositor.bytes@], program_id.bytes@)
}

/// Relies on `Pubkey::try_find_program_address` of solana-program (re-exported by
/// anchor-lang): the canonical program address and bump for the seeds
/// `[tag, depositor]`, which depend on the seeds and the program id alone.
#[verifier::external_body]
fn try_find_program_address(tag: &[u8], depositor: &[u8; 32], program_id: &[u8; 32]) -> (r: Option<([u8; 32], u8)>)
    ensures
        found_view(r) == program_address(seq![tag@, depositor@], program_id@),
{
    let program = anchor_lang::prelude::Pubkey::new_from_array(*program_id);
    anchor_lang::prelude::Pubkey::try_find_program_address(&[tag, depositor.as_slice()], &program)
        .map(|(key, bump)| (key.to_bytes(), bump))
}

/// The domain tag of `kind`, as bytes.
pub fn seed_tag(kind: AssetKind) -> (r: Vec<u8>)
    ensures
        r@ == tag_of(kind),
{
    let r = match kind {
        AssetKind::Sol => vec![116u8, 105, 109, 101, 45, 108, 111, 99, 107, 45, 115, 111, 108],
        AssetKind::Spl => vec![116u8, 105, 109, 101, 45, 108, 111, 99, 107, 45, 115, 112, 108],
    };
    assert(r@ =~= tag_of(kind));
    r
}

/// Derives the custody address and bump of `depositor`'s lock of `kind`.
pub fn derive_custody_address(kind: AssetKind, depositor: &Address, program_id: &Address) -> (r: Option<(Address, u8)>)
    ensures
        derived_view(r) == custody_address_of(kind, *depositor, *program_id),
{
    let tag = seed_tag(kind);
    match try_find_program_address(tag.as_slice(), &depositor.bytes, &program_id.bytes) {
        Some((bytes, bump)) => Some((Address { bytes }, bump)),
        None => None,
    }
}

/// Whether two addresses hold the same bytes.
pub fn same_address(a: &Address, b: &Address) -> (r: bool)
    ensures
        r == (a.bytes@ == b.bytes@),
{
    let mut i: usize = 0;
    while i < 32
        invariant
            i <= 32,
            forall|j: int| 0 <= j < i ==> a.bytes@[j] == b.bytes@[j],
        decreases 32 - i,
    {
        if a.bytes[i] != b.bytes[i] {
            return false;
        }
        i += 1;
    }
    assert(a.bytes@ =~= b.bytes@);
    true
}

} // verus!
