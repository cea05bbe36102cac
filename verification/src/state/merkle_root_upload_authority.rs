use vstd::prelude::*;

use crate::state::{DNE_AUTHORITY, JITO_LABS_AUTHORITY, TIP_ROUTER_AUTHORITY};

verus! {

/// Who may upload the merkle root of a validator's tip distribution account.
#[derive(Copy, Clone, Debug, PartialEq, Eq, Structural)]
pub enum MerkleRootUploadAuthority {
    Unset,
    Other,
    OldJitoLabs,
    TipRouter,
    DNE,
}

impl Default for MerkleRootUploadAuthority {
    fn default() -> (a: Self)
        ensures
            a == MerkleRootUploadAuthority::Unset,
    {
        MerkleRootUploadAuthority::Unset
    }
}

impl MerkleRootUploadAuthority {
    /// The authority that an upload authority address stands for.
    pub open spec fn spec_from_pubkey(tda_authority: Seq<u8>) -> Self {
        if tda_authority == JITO_LABS_AUTHORITY@ {
            MerkleRootUploadAuthority::OldJitoLabs
        } else if tda_authority == TIP_ROUTER_AUTHORITY@ {
            MerkleRootUploadAuthority::TipRouter
        } else if tda_authority == DNE_AUTHORITY@ {
            MerkleRootUploadAuthority::DNE
        } else {
            MerkleRootUploadAuthority::Other
        }
    }

    pub fn from_pubkey(tda_authority: &[u8; 32]) -> (r: Self)
        ensures
            r == Self::spec_from_pubkey(tda_authority@),
    {
        if bytes_eq(tda_authority, &JITO_LABS_AUTHORITY) {
            Self::OldJitoLabs
        } else if bytes_eq(tda_authority, &TIP_ROUTER_AUTHORITY) {
            Self::TipRouter
        } else if bytes_eq(tda_authority, &DNE_AUTHORITY) {
            Self::DNE
        } else {
            Self::Other
        }
    }

    /// The byte that stands for the authority in account data.
    pub fn to_byte(&self) -> (b: u8)
        ensures
            b == match self {
                MerkleRootUploadAuthority::Unset => 255u8,
                MerkleRootUploadAuthority::Other => 1u8,
                MerkleRootUploadAuthority::OldJitoLabs => 2u8,
                MerkleRootUploadAuthority::TipRouter => 3u8,
                MerkleRootUploadAuthority::DNE => 4u8,
            },
    {
        match self {
            MerkleRootUploadAuthority::Unset => 255,
            MerkleRootUploadAuthority::Other => 1,
            MerkleRootUploadAuthority::OldJitoLabs => 2,
            MerkleRootUploadAuthority::TipRouter => 3,
            MerkleRootUploadAuthority::DNE => 4,
        }
    }
}

/// Every address maps to some authority other than `Unset`; the three known addresses map
/// to their own authorities.
pub proof fn lemma_from_pubkey_is_set(tda_authority: Seq<u8>)
    ensures
        MerkleRootUploadAuthority::spec_from_pubkey(tda_authority)
            != MerkleRootUploadAuthority::Unset,
        MerkleRootUploadAuthority::spec_from_pubkey(JITO_LABS_AUTHORITY@)
            == MerkleRootUploadAuthority::OldJitoLabs,
        MerkleRootUploadAuthority::spec_from_pubkey(TIP_ROUTER_AUTHORITY@)
            == MerkleRootUploadAuthority::TipRouter,
        MerkleRootUploadAuthority::spec_from_pubkey(DNE_AUTHORITY@)
            == MerkleRootUploadAuthority::DNE,
{
    broadcast use vstd::array::group_array_axioms;

    assert(JITO_LABS_AUTHORITY@[0] != TIP_ROUTER_AUTHORITY@[0]);
    assert(TIP_ROUTER_AUTHORITY@[0] != DNE_AUTHORITY@[0]);
    assert(JITO_LABS_AUTHORITY@ != TIP_ROUTER_AUTHORITY@);
    assert(TIP_ROUTER_AUTHORITY@ != DNE_AUTHORITY@);
}

/// Whether two 32-byte addresses are the same.
pub fn bytes_eq(a: &[u8; 32], b: &[u8; 32]) -> (r: bool)
    ensures
        r == (a@ == b@),
{
    let mut i: usize = 0;
    while i < 32
        invariant
            i <= 32,
            a@.len() == 32,
            b@.len() == 32,
            forall|k: int| 0 <= k < i ==> a@[k] == b@[k],
        decreases 32 - i,
    {
        if a[i] != b[i] {
            return false;
        }
        i += 1;
    }
    assert(a@ =~= b@);
    true
}

} // verus!
