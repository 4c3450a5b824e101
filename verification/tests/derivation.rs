//! Address derivation: determinism, sensitivity to the seeds, and agreement
//! with the underlying derivation primitive.

use affiliate_withdraw::address::Address;
use affiliate_withdraw::address::derive_partner_address;
use affiliate_withdraw::address::derive_vault_address;
use affiliate_withdraw::address::lending_program_id;
use affiliate_withdraw::address::token_program_id;
use affiliate_withdraw::address::vault_program_id;
use affiliate_withdraw::address::clock_sysvar_id;

fn addr(fill: u8) -> Address {
    Address { bytes: [fill; 32] }
}

#[test]
fn vault_derivation_is_deterministic() {
    let a = derive_vault_address(&addr(1), &addr(2)).unwrap();
    let b = derive_vault_address(&addr(1), &addr(2)).unwrap();
    assert_eq!(a, b);
}

#[test]
fn vault_derivation_transforms_its_seeds() {
    let a = derive_vault_address(&addr(1), &addr(2)).unwrap();
    assert_ne!(a, addr(1));
    assert_ne!(a, addr(2));
}

#[test]
fn vault_derivation_depends_on_the_token_mint() {
    let a = derive_vault_address(&addr(1), &addr(2)).unwrap();
    let b = derive_vault_address(&addr(3), &addr(2)).unwrap();
    assert_ne!(a, b);
}

#[test]
fn vault_derivation_matches_the_primitive() {
    let mint = addr(1);
    let base = addr(2);
    let derived = derive_vault_address(&mint, &base).unwrap();
    let (expected, _bump) = solana_program::pubkey::Pubkey::find_program_address(
        &[b"vault", &mint.bytes, &base.bytes],
        &mercurial_vault::id(),
    );
    assert_eq!(derived.bytes, expected.to_bytes());
}

#[test]
fn partner_derivation_depends_on_the_token_account() {
    let vault = addr(4);
    let a = derive_partner_address(&vault, &addr(5)).unwrap();
    let b = derive_partner_address(&vault, &addr(6)).unwrap();
    assert_ne!(a, b);
    let again = derive_partner_address(&vault, &addr(5)).unwrap();
    assert_eq!(a, again);
}

#[test]
fn program_id_constants_match_the_deployed_programs() {
    assert_eq!(vault_program_id().bytes, mercurial_vault::id().to_bytes());
    assert_eq!(
        lending_program_id().bytes,
        mercurial_vault::strategy::base::get_port_finance_program_id().to_bytes()
    );
    assert_eq!(token_program_id().bytes, spl_token::id().to_bytes());
    assert_eq!(
        clock_sysvar_id().bytes,
        solana_program::sysvar::clock::id().to_bytes()
    );
}

#[test]
fn partner_identity_is_decoded_from_base58() {
    let handler = affiliate_withdraw::handler::PortFinanceWithoutLMHandler {};
    let request = affiliate_withdraw::handler::WithdrawRequest {
        strategy: addr(20),
        token_mint: addr(21),
        base: addr(22),
        partner_identity: "US517G5965aydkZ46HS38QLi7UQiSojurfbQfKCELFx".to_string(),
        payer: addr(23),
        amount: 1,
        min_out_amount: 0,
    };
    let (state, _) = handler.withdraw_directly_from_strategy(&request);
    match state {
        affiliate_withdraw::handler::WithdrawState::AwaitingVaultState { params } => {
            assert_eq!(params.partner_identity.bytes, [7u8; 32]);
        }
        other => panic!("expected the run to begin, got {:?}", other),
    }
}
