use vstd::prelude::*;
use vstd::string::StringSliceAdditionalSpecFns;

use crate::address::{create_program_address, is_canonical, program_address_of, Address};

verus! {

/// Derivation tag of the address at which an owner's balance record lives.
pub const RECORD_TAG: &'static str = "pool_account";

/// Derivation tag of the address that holds an owner's custodied value.
pub const CUSTODY_TAG: &'static str = "pool_sol_account";

/// Whether the ledger, shown the seeds `(tag, owner, discriminant)` of
/// `program_id`, lets that program move value out of `from`: the seeds must
/// derive `from`.
pub open spec fn accepts(
    tag: Seq<u8>,
    owner: Seq<u8>,
    discriminant: u8,
    program_id: Seq<u8>,
    from: Seq<u8>,
) -> bool {
    program_address_of(tag, owner, discriminant, program_id) == Some(from)
}

/// The credential with which the program moves value out of a custody address
/// it controls, in place of a signature: the custody tag, the owner and the
/// discriminant. Only this crate constructs one, and always with the custody
/// tag.
#[derive(Clone, Copy, Debug, PartialEq, Eq)]
pub struct AuthorityProof {
    owner: Address,
    discriminant: u8,
}

impl AuthorityProof {
    /// The tag that the proof's seeds start with.
    pub closed spec fn spec_tag(&self) -> Seq<u8> {
        CUSTODY_TAG.spec_bytes()
    }

    /// The owner whose custody address the proof is for.
    pub closed spec fn spec_owner(&self) -> Seq<u8> {
        self.owner@
    }

    /// The discriminant that ends the proof's seeds.
    pub closed spec fn spec_discriminant(&self) -> u8 {
        self.discriminant
    }

    pub(crate) fn for_custody(owner: Address, discriminant: u8) -> (r: Self)
        ensures
            r.spec_owner() == owner@,
            r.spec_discriminant() == discriminant,
    {
        AuthorityProof { owner, discriminant }
    }

    pub fn tag(&self) -> (r: &'static [u8])
        ensures
            r@ == self.spec_tag(),
    {
        CUSTODY_TAG.as_bytes()
    }

    pub fn owner(&self) -> (r: Address)
        ensures
            r@ == self.spec_owner(),
    {
        self.owner
    }

    pub fn discriminant(&self) -> (r: u8)
        ensures
            r == self.spec_discriminant(),
    {
        self.discriminant
    }

    /// Whether the ledger accepts this proof for a movement by `program_id` out
    /// of `from`. The check needs one derivation, at the known discriminant.
    pub fn authorizes(&self, program_id: &Address, from: &Address) -> (r: bool)
        ensures
            r == accepts(self.spec_tag(), self.spec_owner(), self.spec_discriminant(), program_id@, from@),
    {
        match create_program_address(self.tag(), &self.owner, self.discriminant, program_id) {
            Some(a) => crate::address::same_address(&a, from),
            None => false,
        }
    }
}

/// Seeds that reproduce a derivation are accepted for its address and for no
/// other, and the same tag and owner with a larger discriminant are accepted for
/// no address at all.
pub proof fn lemma_only_the_derivation_authorizes(
    tag: Seq<u8>,
    owner: Seq<u8>,
    program_id: Seq<u8>,
    discriminant: u8,
    address: Seq<u8>,
)
    requires
        is_canonical(tag, owner, program_id, discriminant, address),
    ensures
        accepts(tag, owner, discriminant, program_id, address),
        forall|c: Seq<u8>| c != address ==> !accepts(tag, owner, discriminant, program_id, c),
        forall|d: u8, c: Seq<u8>|
            discriminant < d ==> !(#[trigger] accepts(tag, owner, d, program_id, c)),
{
    assert forall|d: u8, c: Seq<u8>|
        discriminant < d implies !(#[trigger] accepts(tag, owner, d, program_id, c)) by {
        assert(program_address_of(tag, owner, d, program_id) is None);
    }
}

} // verus!
