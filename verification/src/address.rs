//! On-chain addresses and deterministic program-derived-address (PDA)
//! derivation.
//!
//! An [`Address`] is the 32-byte identifier of an on-chain account or
//! program.  The seed-based derivations this handler needs are stated over
//! the uninterpreted function [`pda_of`], so that every caller sees a PDA as
//! a deterministic function of its seeds and the owning program alone.

use vstd::prelude::*;
use std::str::FromStr;

verus! {

/// A 32-byte on-chain address.
#[derive(Clone, Copy, PartialEq, Eq, Debug, Hash)]
pub struct Address {
    pub bytes: [u8; 32],
}

impl View for Address {
    type V = Seq<u8>;

    open spec fn view(&self) -> Seq<u8> {
        self.bytes@
    }
}

impl Address {
    /// Builds an address from its 32 raw bytes.
    pub fn from_bytes(bytes: [u8; 32]) -> (r: Address)
        ensures
            r@ == bytes@,
    {
        Address { bytes }
    }
}

/// Copies a fixed-size byte array into a growable vector; seeds for PDA
/// derivation are handed around as `Vec<u8>`.
pub fn bytes_to_vec<const N: usize>(a: &[u8; N]) -> (v: Vec<u8>)
    ensures
        v@ == a@,
{
    let mut v: Vec<u8> = Vec::new();
    let mut i: usize = 0;
    while i < N
        invariant
            i <= N,
            v@ == a@.subrange(0, i as int),
        decreases N - i,
    {
        v.push(a[i]);
        i = i + 1;
    }
    proof {
        assert(v@ =~= a@);
    }
    v
}

impl Address {
    /// The address's bytes as a seed.
    pub fn to_seed(&self) -> (v: Vec<u8>)
        ensures
            v@ == self@,
    {
        bytes_to_vec(&self.bytes)
    }
}

/// Bytes of the deployed vault program's address,
/// base58 `24Uqj9JCLxUeoC3hGfh5W3s9FM9uCHDS2SG3LYwBpyTi`.
pub open spec fn vault_program_id_bytes() -> Seq<u8> {
    seq![
        15u8, 191, 232, 132, 109, 104, 92, 189, 198, 44, 202, 126, 4, 199, 232, 246, 141, 204, 49,
        58, 179, 18, 119, 226, 224, 17, 42, 46, 192, 224, 82, 229,
    ]
}

/// Bytes of the deployed lending-strategy program's address,
/// base58 `Port7uDYB3wk6GJAw4KT1WpTeMtSu9bTcChBHkX2LfR`.
pub open spec fn lending_program_id_bytes() -> Seq<u8> {
    seq![
        5u8, 215, 195, 57, 144, 122, 80, 228, 67, 218, 144, 223, 161, 64, 158, 247, 235, 202, 59,
        12, 166, 149, 163, 31, 29, 219, 60, 92, 38, 94, 213, 72,
    ]
}

/// Bytes of the deployed affiliate program's address, which owns the partner
/// and user referral records,
/// base58 `GacY9YuN16HNRTy7ZWwULPccwvfFSBeNLuAQP7y38Du3`.
pub open spec fn affiliate_program_id_bytes() -> Seq<u8> {
    seq![
        231u8, 123, 167, 6, 17, 110, 24, 154, 26, 107, 134, 201, 116, 104, 160, 124, 85, 189, 154,
        109, 168, 251, 91, 12, 140, 91, 24, 195, 221, 15, 155, 50,
    ]
}

/// Bytes of the token program's address,
/// base58 `TokenkegQfeZyiNwAJbNbGKPFXCWuBvf9Ss623VQ5DA`.
pub open spec fn token_program_id_bytes() -> Seq<u8> {
    seq![
        6u8, 221, 246, 225, 215, 101, 161, 147, 217, 203, 225, 70, 206, 235, 121, 172, 28, 180,
        133, 237, 95, 91, 55, 145, 58, 140, 245, 133, 126, 255, 0, 169,
    ]
}

/// Bytes of the clock sysvar's address,
/// base58 `SysvarC1ock11111111111111111111111111111111`.
pub open spec fn clock_sysvar_id_bytes() -> Seq<u8> {
    seq![
        6u8, 167, 213, 23, 24, 199, 116, 201, 40, 86, 99, 152, 105, 29, 94, 182, 139, 94, 184,
        163, 155, 75, 109, 92, 115, 85, 91, 33, 0, 0, 0, 0,
    ]
}

/// The vault program's address as a value.
pub fn vault_program_id() -> (r: Address)
    ensures
        r@ == vault_program_id_bytes(),
{
    let bytes: [u8; 32] = [
        15u8, 191, 232, 132, 109, 104, 92, 189, 198, 44, 202, 126, 4, 199, 232, 246, 141, 204, 49,
        58, 179, 18, 119, 226, 224, 17, 42, 46, 192, 224, 82, 229,
    ];
    let r = Address { bytes };
    proof {
        assert(r@ =~= vault_program_id_bytes());
    }
    r
}

/// The lending-strategy program's address as a value.
pub fn lending_program_id() -> (r: Address)
    ensures
        r@ == lending_program_id_bytes(),
{
    let bytes: [u8; 32] = [
        5u8, 215, 195, 57, 144, 122, 80, 228, 67, 218, 144, 223, 161, 64, 158, 247, 235, 202, 59,
        12, 166, 149, 163, 31, 29, 219, 60, 92, 38, 94, 213, 72,
    ];
    let r = Address { bytes };
    proof {
        assert(r@ =~= lending_program_id_bytes());
    }
    r
}

/// The affiliate program's address as a value.
pub fn affiliate_program_id() -> (r: Address)
    ensures
        r@ == affiliate_program_id_bytes(),
{
    let bytes: [u8; 32] = [
        231u8, 123, 167, 6, 17, 110, 24, 154, 26, 107, 134, 201, 116, 104, 160, 124, 85, 189, 154,
        109, 168, 251, 91, 12, 140, 91, 24, 195, 221, 15, 155, 50,
    ];
    let r = Address { bytes };
    proof {
        assert(r@ =~= affiliate_program_id_bytes());
    }
    r
}

/// The token program's address as a value.
pub fn token_program_id() -> (r: Address)
    ensures
        r@ == token_program_id_bytes(),
{
    let bytes: [u8; 32] = [
        6u8, 221, 246, 225, 215, 101, 161, 147, 217, 203, 225, 70, 206, 235, 121, 172, 28, 180,
        133, 237, 95, 91, 55, 145, 58, 140, 245, 133, 126, 255, 0, 169,
    ];
    let r = Address { bytes };
    proof {
        assert(r@ =~= token_program_id_bytes());
    }
    r
}

/// The clock sysvar's address as a value.
pub fn clock_sysvar_id() -> (r: Address)
    ensures
        r@ == clock_sysvar_id_bytes(),
{
    let bytes: [u8; 32] = [
        6u8, 167, 213, 23, 24, 199, 116, 201, 40, 86, 99, 152, 105, 29, 94, 182, 139, 94, 184,
        163, 155, 75, 109, 92, 115, 85, 91, 33, 0, 0, 0, 0,
    ];
    let r = Address { bytes };
    proof {
        assert(r@ =~= clock_sysvar_id_bytes());
    }
    r
}

/// Seed prefix of a vault account: the bytes of `"vault"`.
pub open spec fn vault_seed_prefix() -> Seq<u8> {
    seq![118u8, 97, 117, 108, 116]
}

/// Seed prefix of a collateral-vault account: the bytes of
/// `"collateral_vault"`.
pub open spec fn collateral_vault_seed_prefix() -> Seq<u8> {
    seq![99u8, 111, 108, 108, 97, 116, 101, 114, 97, 108, 95, 118, 97, 117, 108, 116]
}

fn vault_seed_prefix_vec() -> (v: Vec<u8>)
    ensures
        v@ == vault_seed_prefix(),
{
    let a: [u8; 5] = [118u8, 97, 117, 108, 116];
    let v = bytes_to_vec(&a);
    proof {
        assert(v@ =~= vault_seed_prefix());
    }
    v
}

fn collateral_vault_seed_prefix_vec() -> (v: Vec<u8>)
    ensures
        v@ == collateral_vault_seed_prefix(),
{
    let a: [u8; 16] = [99u8, 111, 108, 108, 97, 116, 101, 114, 97, 108, 95, 118, 97, 117, 108,
        116];
    let v = bytes_to_vec(&a);
    proof {
        assert(v@ =~= collateral_vault_seed_prefix());
    }
    v
}

/// What `Pubkey::try_find_program_address` returns for the given seeds under
/// the given owning program: the derived address and its bump seed, or
/// nothing in the (statistically improbable) case that no bump seed yields a
/// valid address.  The result is a function of the seeds and the program
/// alone, which is what makes every derivation deterministic.
pub uninterp spec fn pda_of(seeds: Seq<Seq<u8>>, program: Seq<u8>) -> Option<(Seq<u8>, u8)>;

/// Relies on `solana_program::pubkey::Pubkey::try_find_program_address`: a
/// pure function of `(seeds, program)` that returns the derived address and
/// bump seed, or `None` if no bump seed yields a valid address.
#[verifier::external_body]
fn find_program_address(seeds: &Vec<Vec<u8>>, program: &Address) -> (r: Option<(Address, u8)>)
    ensures
        match r {
            Some(p) => pda_of(seeds.deep_view(), program@) == Some((p.0@, p.1)),
            None => pda_of(seeds.deep_view(), program@) is None,
        },
{
    let seed_slices: Vec<&[u8]> = seeds.iter().map(|s| s.as_slice()).collect();
    let program_key = solana_program::pubkey::Pubkey::new_from_array(program.bytes);
    solana_program::pubkey::Pubkey::try_find_program_address(&seed_slices, &program_key)
        .map(|(key, bump)| (Address { bytes: key.to_bytes() }, bump))
}

/// What `Pubkey::from_str` returns for the given string: the 32 decoded
/// base58 bytes, or nothing if the string is not a well-formed base58
/// encoding of exactly 32 bytes.
pub uninterp spec fn parsed_address_of(s: Seq<char>) -> Option<Seq<u8>>;

/// Relies on `solana_program::pubkey::Pubkey::from_str`: base58 decoding,
/// a pure function of the string.
#[verifier::external_body]
pub(crate) fn parse_address(s: &str) -> (r: Option<Address>)
    ensures
        match r {
            Some(a) => parsed_address_of(s@) == Some(a@),
            None => parsed_address_of(s@) is None,
        },
{
    match solana_program::pubkey::Pubkey::from_str(s) {
        Ok(key) => Some(Address { bytes: key.to_bytes() }),
        Err(_) => None,
    }
}

/// The vault account derived from a token mint and a base key under the
/// vault program.
pub open spec fn vault_address_of(token_mint: Seq<u8>, base: Seq<u8>) -> Option<Seq<u8>> {
    match pda_of(seq![vault_seed_prefix(), token_mint, base], vault_program_id_bytes()) {
        Some(p) => Some(p.0),
        None => None,
    }
}

/// The collateral-vault account derived from a strategy under the vault
/// program.
pub open spec fn collateral_vault_address_of(strategy: Seq<u8>) -> Option<Seq<u8>> {
    match pda_of(
        seq![collateral_vault_seed_prefix(), strategy],
        vault_program_id_bytes(),
    ) {
        Some(p) => Some(p.0),
        None => None,
    }
}

/// The lending market's authority derived from the market itself under the
/// lending-strategy program.
pub open spec fn lending_market_authority_of(lending_market: Seq<u8>) -> Option<Seq<u8>> {
    match pda_of(seq![lending_market], lending_program_id_bytes()) {
        Some(p) => Some(p.0),
        None => None,
    }
}

/// The partner record derived from a vault and the partner's token account
/// under the affiliate program.
pub open spec fn partner_address_of(vault: Seq<u8>, partner_token: Seq<u8>) -> Option<Seq<u8>> {
    match pda_of(seq![vault, partner_token], affiliate_program_id_bytes()) {
        Some(p) => Some(p.0),
        None => None,
    }
}

/// The user record derived from a partner record and the paying owner under
/// the affiliate program.
pub open spec fn user_address_of(partner: Seq<u8>, payer: Seq<u8>) -> Option<Seq<u8>> {
    match pda_of(seq![partner, payer], affiliate_program_id_bytes()) {
        Some(p) => Some(p.0),
        None => None,
    }
}

/// Derives the vault account for `(token_mint, base)`.
pub fn derive_vault_address(token_mint: &Address, base: &Address) -> (r: Option<Address>)
    ensures
        match r {
            Some(a) => vault_address_of(token_mint@, base@) == Some(a@),
            None => vault_address_of(token_mint@, base@) is None,
        },
{
    let mut seeds: Vec<Vec<u8>> = Vec::new();
    seeds.push(vault_seed_prefix_vec());
    seeds.push(token_mint.to_seed());
    seeds.push(base.to_seed());
    proof {
        assert(seeds.deep_view() =~~= seq![vault_seed_prefix(), token_mint@, base@]);
    }
    match find_program_address(&seeds, &vault_program_id()) {
        Some(p) => Some(p.0),
        None => None,
    }
}

/// Derives the collateral-vault account for a strategy.
pub fn derive_collateral_vault_address(strategy: &Address) -> (r: Option<Address>)
    ensures
        match r {
            Some(a) => collateral_vault_address_of(strategy@) == Some(a@),
            None => collateral_vault_address_of(strategy@) is None,
        },
{
    let mut seeds: Vec<Vec<u8>> = Vec::new();
    seeds.push(collateral_vault_seed_prefix_vec());
    seeds.push(strategy.to_seed());
    proof {
        assert(seeds.deep_view() =~~= seq![collateral_vault_seed_prefix(), strategy@]);
    }
    match find_program_address(&seeds, &vault_program_id()) {
        Some(p) => Some(p.0),
        None => None,
    }
}

/// Derives the lending market's authority account.
pub fn derive_lending_market_authority(lending_market: &Address) -> (r: Option<Address>)
    ensures
        match r {
            Some(a) => lending_market_authority_of(lending_market@) == Some(a@),
            None => lending_market_authority_of(lending_market@) is None,
        },
{
    let mut seeds: Vec<Vec<u8>> = Vec::new();
    seeds.push(lending_market.to_seed());
    proof {
        assert(seeds.deep_view() =~~= seq![lending_market@]);
    }
    match find_program_address(&seeds, &lending_program_id()) {
        Some(p) => Some(p.0),
        None => None,
    }
}

/// Derives the partner record for `(vault, partner_token)`.
pub fn derive_partner_address(vault: &Address, partner_token: &Address) -> (r: Option<Address>)
    ensures
        match r {
            Some(a) => partner_address_of(vault@, partner_token@) == Some(a@),
            None => partner_address_of(vault@, partner_token@) is None,
        },
{
    let mut seeds: Vec<Vec<u8>> = Vec::new();
    seeds.push(vault.to_seed());
    seeds.push(partner_token.to_seed());
    proof {
        assert(seeds.deep_view() =~~= seq![vault@, partner_token@]);
    }
    match find_program_address(&seeds, &affiliate_program_id()) {
        Some(p) => Some(p.0),
        None => None,
    }
}

/// Derives the user record for `(partner, payer)`.
pub fn derive_user_address(partner: &Address, payer: &Address) -> (r: Option<Address>)
    ensures
        match r {
            Some(a) => user_address_of(partner@, payer@) == Some(a@),
            None => user_address_of(partner@, payer@) is None,
        },
{
    let mut seeds: Vec<Vec<u8>> = Vec::new();
    seeds.push(partner.to_seed());
    seeds.push(payer.to_seed());
    proof {
        assert(seeds.deep_view() =~~= seq![partner@, payer@]);
    }
    match find_program_address(&seeds, &affiliate_program_id()) {
        Some(p) => Some(p.0),
        None => None,
    }
}

} // verus!
