use vstd::prelude::*;
use anchor_lang::prelude::Pubkey;
use crate::accounts::TokenAccountData;
use crate::errors::ProgramError;
use crate::key::Key;

verus! {

/// The program address and bump seed that the runtime's search finds for
/// `seeds` under `program_id`, or `None` where it finds none.
pub uninterp spec fn program_address(seeds: Seq<Seq<u8>>, program_id: Seq<u8>) -> Option<(Seq<u8>, u8)>;

/// Calls `Pubkey::try_find_program_address`: tries the bump seeds from 255
/// down, appended to `seeds`, hashing them with `program_id`, and returns the
/// first hash that is not a point of the curve, with its bump seed. Its
/// result is a function of the seeds and the program alone, named
/// `program_address`; nothing more of it is stated.
#[verifier::external_body]
fn find_program_address(seeds: &Vec<Vec<u8>>, program_id: &Key) -> (r: Option<(Key, u8)>)
    ensures
        match r {
            Some((address, bump)) => program_address(seeds.deep_view(), program_id@) == Some((address@, bump)),
            None => program_address(seeds.deep_view(), program_id@) is None,
        },
{
    let slices: Vec<&[u8]> = seeds.iter().map(|seed| seed.as_slice()).collect();
    match Pubkey::try_find_program_address(&slices, &Pubkey::new_from_array(program_id.0)) {
        Some((address, bump)) => Some((Key(address.to_bytes()), bump)),
        None => None,
    }
}

/// The deep view of a byte vector is its view.
proof fn lemma_bytes_deep_view(v: Vec<u8>)
    ensures
        v.deep_view() == v@,
{
    assert(v.deep_view() =~= v@);
}

/// The address of the token program, whose accounts hold the pool's tokens.
pub open spec fn token_program_id() -> Seq<u8> {
    seq![
        6u8, 221, 246, 225, 215, 101, 161, 147, 217, 203, 225, 70, 206, 235, 121, 172,
        28, 180, 133, 237, 95, 91, 55, 145, 58, 140, 245, 133, 126, 255, 0, 169,
    ]
}

/// The address of the associated-token-account program, which gives each
/// wallet one token account per mint at a program address of its own.
pub open spec fn associated_token_program_id() -> Seq<u8> {
    seq![
        140u8, 151, 37, 143, 78, 36, 137, 241, 187, 61, 16, 41, 20, 142, 13, 131,
        11, 90, 19, 153, 218, 255, 16, 132, 4, 142, 123, 216, 219, 233, 248, 89,
    ]
}

/// The seeds of the associated token account of `wallet` for `mint`.
pub open spec fn associated_token_seeds(wallet: Seq<u8>, mint: Seq<u8>) -> Seq<Seq<u8>> {
    seq![wallet, token_program_id(), mint]
}

/// The address of the associated token account of `wallet` for `mint`: the
/// program address of its seeds under the associated-token-account program,
/// or `None` where no bump seed gives one.
pub open spec fn associated_token_address_of(wallet: Seq<u8>, mint: Seq<u8>) -> Option<Seq<u8>> {
    match program_address(associated_token_seeds(wallet, mint), associated_token_program_id()) {
        Some((address, _)) => Some(address),
        None => None,
    }
}

/// The outcome of checking that `account` is the associated token account of
/// `wallet` for `mint`: it must belong to the wallet, and sit at the
/// associated address.
pub open spec fn associated_account_check(account: TokenAccountData, wallet: Seq<u8>, mint: Seq<u8>) -> Option<ProgramError> {
    if account.owner@ != wallet {
        Some(ProgramError::ConstraintTokenOwner)
    } else {
        match associated_token_address_of(wallet, mint) {
            None => Some(ProgramError::NoViableBumpSeed),
            Some(address) => if account.key@ != address {
                Some(ProgramError::ConstraintAssociated)
            } else {
                None
            },
        }
    }
}

/// The address of the token program.
pub fn token_program_key() -> (k: Key)
    ensures
        k@ == token_program_id(),
{
    let k = Key([
        6u8, 221, 246, 225, 215, 101, 161, 147, 217, 203, 225, 70, 206, 235, 121, 172,
        28, 180, 133, 237, 95, 91, 55, 145, 58, 140, 245, 133, 126, 255, 0, 169,
    ]);
    assert(k@ =~= token_program_id());
    k
}

/// The address of the associated-token-account program.
pub fn associated_token_program_key() -> (k: Key)
    ensures
        k@ == associated_token_program_id(),
{
    let k = Key([
        140u8, 151, 37, 143, 78, 36, 137, 241, 187, 61, 16, 41, 20, 142, 13, 131,
        11, 90, 19, 153, 218, 255, 16, 132, 4, 142, 123, 216, 219, 233, 248, 89,
    ]);
    assert(k@ =~= associated_token_program_id());
    k
}

/// The seeds of the associated token account of `wallet` for `mint`.
pub fn associated_token_seed_vec(wallet: &Key, mint: &Key) -> (s: Vec<Vec<u8>>)
    ensures
        s.deep_view() == associated_token_seeds(wallet@, mint@),
{
    let mut s: Vec<Vec<u8>> = Vec::new();
    s.push(wallet.to_vec());
    s.push(token_program_key().to_vec());
    s.push(mint.to_vec());
    proof {
        lemma_bytes_deep_view(s@[0]);
        lemma_bytes_deep_view(s@[1]);
        lemma_bytes_deep_view(s@[2]);
    }
    assert(s.deep_view() =~= associated_token_seeds(wallet@, mint@));
    s
}

/// The address of the associated token account of `wallet` for `mint`, or
/// `None` where no bump seed gives one.
pub fn associated_token_account_address(wallet: &Key, mint: &Key) -> (r: Option<Key>)
    ensures
        match r {
            Some(address) => associated_token_address_of(wallet@, mint@) == Some(address@),
            None => associated_token_address_of(wallet@, mint@) is None,
        },
{
    match find_program_address(&associated_token_seed_vec(wallet, mint), &associated_token_program_key()) {
        Some((address, _)) => Some(address),
        None => None,
    }
}

/// Checks that `account` is the associated token account of `wallet` for
/// `mint`, first its owner, then its address.
pub fn check_associated_account(account: &TokenAccountData, wallet: &Key, mint: &Key) -> (r: Option<ProgramError>)
    ensures
        r == associated_account_check(*account, wallet@, mint@),
{
    if !account.owner.same_as(wallet) {
        return Some(ProgramError::ConstraintTokenOwner);
    }
    match associated_token_account_address(wallet, mint) {
        None => Some(ProgramError::NoViableBumpSeed),
        Some(address) => if !account.key.same_as(&address) {
            Some(ProgramError::ConstraintAssociated)
        } else {
            None
        },
    }
}

/// The bytes of the seed tag `pool`.
pub open spec fn pool_tag() -> Seq<u8> {
    seq![112u8, 111, 111, 108]
}

/// The bytes of the seed tag `lp_mint`.
pub open spec fn lp_mint_tag() -> Seq<u8> {
    seq![108u8, 112, 95, 109, 105, 110, 116]
}

/// The bytes of the seed tag `reserve_a`.
pub open spec fn reserve_a_tag() -> Seq<u8> {
    seq![114u8, 101, 115, 101, 114, 118, 101, 95, 97]
}

/// The bytes of the seed tag `reserve_b`.
pub open spec fn reserve_b_tag() -> Seq<u8> {
    seq![114u8, 101, 115, 101, 114, 118, 101, 95, 98]
}

/// The bytes of the seed tag `authority`.
pub open spec fn authority_tag() -> Seq<u8> {
    seq![97u8, 117, 116, 104, 111, 114, 105, 116, 121]
}

/// The seeds of a pool's account: its tag and the two mints.
pub open spec fn pool_seeds_of(mint_a: Seq<u8>, mint_b: Seq<u8>) -> Seq<Seq<u8>> {
    seq![pool_tag(), mint_a, mint_b]
}

/// The seeds of an account that belongs to a pool: its tag and the pool.
pub open spec fn pool_child_seeds(tag: Seq<u8>, pool: Seq<u8>) -> Seq<Seq<u8>> {
    seq![tag, pool]
}

/// The seeds with which the pool's authority signs: its seeds and its bump.
pub open spec fn authority_signer_seeds_of(pool: Seq<u8>, bump: u8) -> Seq<Seq<u8>> {
    seq![authority_tag(), pool, seq![bump]]
}

/// The outcome of checking that `account` is the program address that
/// `seeds` derive under `program_id`: its bump seed, or the failure.
pub open spec fn seeds_check(account: Seq<u8>, seeds: Seq<Seq<u8>>, program_id: Seq<u8>) -> Result<u8, ProgramError> {
    match program_address(seeds, program_id) {
        None => Err(ProgramError::NoViableBumpSeed),
        Some((address, bump)) => if address == account {
            Ok(bump)
        } else {
            Err(ProgramError::ConstraintSeeds)
        },
    }
}

/// The seed tag `pool`.
pub fn pool_tag_bytes() -> (v: Vec<u8>)
    ensures
        v@ == pool_tag(),
{
    let v: Vec<u8> = vec![112u8, 111, 111, 108];
    assert(v@ =~= pool_tag());
    v
}

/// The seed tag `lp_mint`.
pub fn lp_mint_tag_bytes() -> (v: Vec<u8>)
    ensures
        v@ == lp_mint_tag(),
{
    let v: Vec<u8> = vec![108u8, 112, 95, 109, 105, 110, 116];
    assert(v@ =~= lp_mint_tag());
    v
}

/// The seed tag `reserve_a`.
pub fn reserve_a_tag_bytes() -> (v: Vec<u8>)
    ensures
        v@ == reserve_a_tag(),
{
    let v: Vec<u8> = vec![114u8, 101, 115, 101, 114, 118, 101, 95, 97];
    assert(v@ =~= reserve_a_tag());
    v
}

/// The seed tag `reserve_b`.
pub fn reserve_b_tag_bytes() -> (v: Vec<u8>)
    ensures
        v@ == reserve_b_tag(),
{
    let v: Vec<u8> = vec![114u8, 101, 115, 101, 114, 118, 101, 95, 98];
    assert(v@ =~= reserve_b_tag());
    v
}

/// The seed tag `authority`.
pub fn authority_tag_bytes() -> (v: Vec<u8>)
    ensures
        v@ == authority_tag(),
{
    let v: Vec<u8> = vec![97u8, 117, 116, 104, 111, 114, 105, 116, 121];
    assert(v@ =~= authority_tag());
    v
}

/// The seeds of the pool for the mints `mint_a` and `mint_b`.
pub fn pool_seeds(mint_a: &Key, mint_b: &Key) -> (s: Vec<Vec<u8>>)
    ensures
        s.deep_view() == pool_seeds_of(mint_a@, mint_b@),
{
    let mut s: Vec<Vec<u8>> = Vec::new();
    s.push(pool_tag_bytes());
    s.push(mint_a.to_vec());
    s.push(mint_b.to_vec());
    proof {
        lemma_bytes_deep_view(s@[0]);
        lemma_bytes_deep_view(s@[1]);
        lemma_bytes_deep_view(s@[2]);
    }
    assert(s.deep_view() =~= pool_seeds_of(mint_a@, mint_b@));
    s
}

/// The seeds of the account tagged `tag` that belongs to `pool`.
pub fn pool_child_seed_vec(tag: Vec<u8>, pool: &Key) -> (s: Vec<Vec<u8>>)
    ensures
        s.deep_view() == pool_child_seeds(tag@, pool@),
{
    let mut s: Vec<Vec<u8>> = Vec::new();
    s.push(tag);
    s.push(pool.to_vec());
    proof {
        lemma_bytes_deep_view(s@[0]);
        lemma_bytes_deep_view(s@[1]);
    }
    assert(s.deep_view() =~= pool_child_seeds(tag@, pool@));
    s
}

/// The seeds with which the authority of `pool` signs, its bump included.
pub fn authority_signer_seeds(pool: &Key, bump: u8) -> (s: Vec<Vec<u8>>)
    ensures
        s.deep_view() == authority_signer_seeds_of(pool@, bump),
{
    let mut s: Vec<Vec<u8>> = Vec::new();
    s.push(authority_tag_bytes());
    s.push(pool.to_vec());
    let mut b: Vec<u8> = Vec::new();
    b.push(bump);
    s.push(b);
    proof {
        lemma_bytes_deep_view(s@[0]);
        lemma_bytes_deep_view(s@[1]);
        lemma_bytes_deep_view(s@[2]);
        assert(s@[2]@ =~= seq![bump]);
    }
    assert(s.deep_view() =~= authority_signer_seeds_of(pool@, bump));
    s
}

/// The program address that `seeds` derive under `program_id`, with its
/// bump seed, or `None` where no bump seed gives one.
pub fn derive_address(seeds: &Vec<Vec<u8>>, program_id: &Key) -> (r: Option<(Key, u8)>)
    ensures
        match r {
            Some((address, bump)) => program_address(seeds.deep_view(), program_id@) == Some((address@, bump)),
            None => program_address(seeds.deep_view(), program_id@) is None,
        },
{
    find_program_address(seeds, program_id)
}

/// Checks that `account` is the program address that `seeds` derive under
/// `program_id`, and gives its bump seed.
pub fn check_seeds(account: &Key, seeds: &Vec<Vec<u8>>, program_id: &Key) -> (r: Result<u8, ProgramError>)
    ensures
        r == seeds_check(account@, seeds.deep_view(), program_id@),
{
    match find_program_address(seeds, program_id) {
        None => Err(ProgramError::NoViableBumpSeed),
        Some((address, bump)) => {
            if address.same_as(account) {
                Ok(bump)
            } else {
                Err(ProgramError::ConstraintSeeds)
            }
        },
    }
}

} // verus!
