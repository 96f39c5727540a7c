use vstd::prelude::*;

verus! {

/// A ledger address or identity: 32 raw bytes.
pub type Address = [u8; 32];

/// What `Pubkey::create_program_address` yields for the seeds
/// `[tag, owner, [discriminant]]` under `program_id`: the derived address, or
/// nothing where the hash lies on the curve or a seed is too long.
pub uninterp spec fn program_address_of(
    tag: Seq<u8>,
    owner: Seq<u8>,
    discriminant: u8,
    program_id: Seq<u8>,
) -> Option<Seq<u8>>;

/// Relies on `Pubkey::create_program_address`: the address it derives from the
/// seeds `[tag, owner, [discriminant]]` and the program id, `None` where it
/// refuses them. Its result depends on these arguments alone.
#[verifier::external_body]
pub(crate) fn create_program_address(
    tag: &[u8],
    owner: &Address,
    discriminant: u8,
    program_id: &Address,
) -> (r: Option<Address>)
    ensures
        match r {
            Some(a) => program_address_of(tag@, owner@, discriminant, program_id@) == Some(a@),
            None => program_address_of(tag@, owner@, discriminant, program_id@) is None,
        },
{
    let bump: [u8; 1] = [discriminant];
    let seeds: [&[u8]; 3] = [tag, owner, &bump];
    let program = anchor_lang::prelude::Pubkey::new_from_array(*program_id);
    anchor_lang::prelude::Pubkey::create_program_address(&seeds, &program).ok().map(|p| p.to_bytes())
}

/// `address` is the custody address of `(tag, owner)` under `program_id`, found
/// at `discriminant`: derivation succeeds there and at no larger discriminant.
/// The search runs from 255 downward.
pub open spec fn is_canonical(
    tag: Seq<u8>,
    owner: Seq<u8>,
    program_id: Seq<u8>,
    discriminant: u8,
    address: Seq<u8>,
) -> bool {
    &&& program_address_of(tag, owner, discriminant, program_id) == Some(address)
    &&& forall|d: u8|
        discriminant < d ==> (#[trigger] program_address_of(tag, owner, d, program_id)) is None
}

/// No discriminant at all gives `(tag, owner)` an address under `program_id`.
pub open spec fn is_exhausted(tag: Seq<u8>, owner: Seq<u8>, program_id: Seq<u8>) -> bool {
    forall|d: u8| (#[trigger] program_address_of(tag, owner, d, program_id)) is None
}

/// `candidate` is the custody address of `(tag, owner)` under `program_id`.
pub open spec fn is_custody_address(
    tag: Seq<u8>,
    owner: Seq<u8>,
    program_id: Seq<u8>,
    candidate: Seq<u8>,
) -> bool {
    exists|d: u8| is_canonical(tag, owner, program_id, d, candidate)
}

/// A custody address together with the discriminant that produced it.
#[derive(Clone, Copy, Debug, PartialEq, Eq)]
pub struct Derivation {
    pub address: Address,
    pub discriminant: u8,
}

/// Why a derivation failed.
#[derive(Clone, Copy, Debug, PartialEq, Eq, Structural)]
pub enum DeriveError {
    /// Every discriminant gave an address with a private key.
    Exhausted,
}

/// Whether two addresses are the same bytes.
pub fn same_address(a: &Address, b: &Address) -> (r: bool)
    ensures
        r == (a@ == b@),
{
    let mut i: usize = 0;
    while i < 32
        invariant
            0 <= i <= 32,
            a@.len() == 32,
            b@.len() == 32,
            forall|j: int| 0 <= j < i ==> a@[j] == b@[j],
        decreases 32 - i,
    {
        if a[i] != b[i] {
            return false;
        }
        i = i + 1;
    }
    assert(a@ =~= b@);
    true
}

/// Derives the custody address of `(tag, owner)` under `program_id`, trying
/// discriminants from 255 downward and keeping the first that succeeds.
pub fn derive_address(tag: &[u8], owner: &Address, program_id: &Address) -> (r: Result<
    Derivation,
    DeriveError,
>)
    ensures
        match r {
            Ok(d) => is_canonical(tag@, owner@, program_id@, d.discriminant, d.address@),
            Err(_) => is_exhausted(tag@, owner@, program_id@),
        },
{
    let mut d: u8 = 255;
    loop
        invariant
            forall|e: u8| d < e ==> (#[trigger] program_address_of(tag@, owner@, e, program_id@)) is None,
        decreases d,
    {
        match create_program_address(tag, owner, d, program_id) {
            Some(a) => {
                return Ok(Derivation { address: a, discriminant: d });
            },
            None => {},
        }
        if d == 0 {
            return Err(DeriveError::Exhausted);
        }
        d = d - 1;
    }
}

/// Whether `candidate` is the custody address of `(tag, owner)` under
/// `program_id`.
pub fn verify(tag: &[u8], owner: &Address, program_id: &Address, candidate: &Address) -> (r: bool)
    ensures
        r == is_custody_address(tag@, owner@, program_id@, candidate@),
{
    match derive_address(tag, owner, program_id) {
        Ok(d) => {
            proof {
                lemma_custody_address_is_derived(tag@, owner@, program_id@, d.discriminant, d.address@);
            }
            same_address(&d.address, candidate)
        },
        Err(_) => false,
    }
}

/// A derivation is determined by its inputs: two canonical results for the same
/// `(tag, owner, program_id)` have the same discriminant and the same address.
pub proof fn lemma_derivation_is_unique(
    tag: Seq<u8>,
    owner: Seq<u8>,
    program_id: Seq<u8>,
    d1: u8,
    a1: Seq<u8>,
    d2: u8,
    a2: Seq<u8>,
)
    requires
        is_canonical(tag, owner, program_id, d1, a1),
        is_canonical(tag, owner, program_id, d2, a2),
    ensures
        d1 == d2,
        a1 == a2,
{
    if d1 < d2 {
        assert(program_address_of(tag, owner, d2, program_id) is None);
    } else if d2 < d1 {
        assert(program_address_of(tag, owner, d1, program_id) is None);
    }
}

/// Verification accepts the derived custody address and every other address is
/// refused, whichever bits it differs in.
pub proof fn lemma_custody_address_is_derived(
    tag: Seq<u8>,
    owner: Seq<u8>,
    program_id: Seq<u8>,
    discriminant: u8,
    address: Seq<u8>,
)
    requires
        is_canonical(tag, owner, program_id, discriminant, address),
    ensures
        is_custody_address(tag, owner, program_id, address),
        forall|c: Seq<u8>| c != address ==> !is_custody_address(tag, owner, program_id, c),
{
    assert forall|c: Seq<u8>| c != address implies !is_custody_address(tag, owner, program_id, c) by {
        if is_custody_address(tag, owner, program_id, c) {
            let d = choose|d: u8| is_canonical(tag, owner, program_id, d, c);
            lemma_derivation_is_unique(tag, owner, program_id, discriminant, address, d, c);
        }
    }
}

/// Where derivation is exhausted, no address verifies.
pub proof fn lemma_exhausted_verifies_nothing(tag: Seq<u8>, owner: Seq<u8>, program_id: Seq<u8>)
    requires
        is_exhausted(tag, owner, program_id),
    ensures
        forall|c: Seq<u8>| !is_custody_address(tag, owner, program_id, c),
{
    assert forall|c: Seq<u8>| !is_custody_address(tag, owner, program_id, c) by {
        if is_custody_address(tag, owner, program_id, c) {
            let d = choose|d: u8| is_canonical(tag, owner, program_id, d, c);
            assert(program_address_of(tag, owner, d, program_id) is None);
        }
    }
}

} // verus!
