//! Full runs of the withdrawal step machine: the end-to-end scenario, the
//! fail-fast paths, and the error taxonomy.

use affiliate_withdraw::address::Address;
use affiliate_withdraw::address::affiliate_program_id;
use affiliate_withdraw::address::clock_sysvar_id;
use affiliate_withdraw::address::derive_collateral_vault_address;
use affiliate_withdraw::address::derive_lending_market_authority;
use affiliate_withdraw::address::derive_partner_address;
use affiliate_withdraw::address::derive_user_address;
use affiliate_withdraw::address::derive_vault_address;
use affiliate_withdraw::address::lending_program_id;
use affiliate_withdraw::handler::Action;
use affiliate_withdraw::handler::Event;
use affiliate_withdraw::handler::FetchFailure;
use affiliate_withdraw::handler::FetchTarget;
use affiliate_withdraw::handler::PortFinanceWithoutLMHandler;
use affiliate_withdraw::handler::WithdrawError;
use affiliate_withdraw::handler::WithdrawRequest;
use affiliate_withdraw::handler::WithdrawState;
use affiliate_withdraw::state::ReserveState;
use affiliate_withdraw::state::StrategyState;
use affiliate_withdraw::state::VaultState;

fn addr(fill: u8) -> Address {
    Address { bytes: [fill; 32] }
}

/// A valid base58 rendering of the 32 bytes `[7; 32]`.
const PARTNER_IDENTITY: &str = "US517G5965aydkZ46HS38QLi7UQiSojurfbQfKCELFx";

fn fixture_request() -> WithdrawRequest {
    WithdrawRequest {
        strategy: addr(20),
        token_mint: addr(21),
        base: addr(22),
        partner_identity: PARTNER_IDENTITY.to_string(),
        payer: addr(23),
        amount: 500,
        min_out_amount: 0,
    }
}

fn fixture_vault_state() -> VaultState {
    VaultState { lp_mint: addr(30), token_vault: addr(31), fee_vault: addr(32) }
}

fn fixture_reserve_state() -> ReserveState {
    ReserveState {
        collateral_mint: addr(40),
        liquidity_supply: addr(41),
        liquidity_oracle: addr(42),
        lending_market: addr(43),
    }
}

#[test]
fn end_to_end_scenario_composes_the_exact_transaction() {
    let handler = PortFinanceWithoutLMHandler {};
    let req = fixture_request();

    let (s, a) = handler.withdraw_directly_from_strategy(&req);
    let vault = derive_vault_address(&addr(21), &addr(22)).unwrap();
    assert!(matches!(a, Action::FetchVaultState { address } if address == vault));

    let (s, a) = handler.on_event(s, Event::VaultStateFetched(fixture_vault_state()));
    assert!(matches!(a, Action::FetchStrategyState { address } if address == addr(20)));

    let (s, a) = handler.on_event(s, Event::StrategyStateFetched(StrategyState { reserve: addr(50) }));
    assert!(matches!(a, Action::FetchReserveState { address } if address == addr(50)));

    let (s, a) = handler.on_event(s, Event::ReserveStateFetched(fixture_reserve_state()));
    assert!(
        matches!(a, Action::ResolveTokenAccount { mint, owner } if mint == addr(21) && owner == addr(23))
    );

    // The payer's token account.
    let (s, a) = handler.on_event(s, Event::TokenAccountResolved(addr(60)));
    assert!(
        matches!(a, Action::ResolveTokenAccount { mint, owner } if mint == addr(21) && owner == addr(7))
    );

    // The partner's token account; the partner record is derived from it.
    let (s, a) = handler.on_event(s, Event::TokenAccountResolved(addr(61)));
    let partner = derive_partner_address(&vault, &addr(61)).unwrap();
    assert!(matches!(a, Action::CheckPartnerRegistration { address } if address == partner));

    let (s, a) = handler.on_event(s, Event::RegistrationConfirmed);
    let user = derive_user_address(&partner, &addr(23)).unwrap();
    assert!(matches!(a, Action::CheckUserRegistration { address } if address == user));

    let (s, a) = handler.on_event(s, Event::RegistrationConfirmed);
    assert!(
        matches!(a, Action::ResolveTokenAccount { mint, owner } if mint == addr(30) && owner == user)
    );

    // The user record's lp account; the transaction comes out.
    let (s, a) = handler.on_event(s, Event::TokenAccountResolved(addr(62)));
    assert!(matches!(s, WithdrawState::Submitted));
    let instructions = match a {
        Action::Submit { instructions } => instructions,
        other => panic!("expected a submission, got {:?}", other),
    };
    assert_eq!(instructions.len(), 2);

    // First the reserve refresh, exactly as the lending program's own
    // instruction builder emits it.
    let refresh = &instructions[0];
    assert_eq!(refresh.program_id, lending_program_id());
    assert_eq!(refresh.data, vec![3u8]);
    assert_eq!(refresh.accounts.len(), 3);
    assert_eq!(refresh.accounts[0].pubkey, addr(50));
    assert!(refresh.accounts[0].is_writable && !refresh.accounts[0].is_signer);
    assert_eq!(refresh.accounts[1].pubkey, clock_sysvar_id());
    assert!(!refresh.accounts[1].is_writable && !refresh.accounts[1].is_signer);
    assert_eq!(refresh.accounts[2].pubkey, addr(42));
    assert!(!refresh.accounts[2].is_writable && !refresh.accounts[2].is_signer);

    // Then the withdrawal, with the resolved accounts in the fixed order.
    let withdraw = &instructions[1];
    assert_eq!(withdraw.program_id, affiliate_program_id());
    assert_eq!(withdraw.accounts.len(), 20);
    let collateral_vault = derive_collateral_vault_address(&addr(20)).unwrap();
    let authority = derive_lending_market_authority(&addr(43)).unwrap();
    let expected: Vec<Address> = vec![
        partner,
        user,
        vault,
        affiliate_withdraw::address::vault_program_id(),
        addr(20),
        addr(50),
        lending_program_id(),
        collateral_vault,
        addr(31),
        addr(32),
        addr(30),
        addr(60),
        addr(62),
        addr(23),
        affiliate_withdraw::address::token_program_id(),
        addr(41),
        addr(43),
        authority,
        addr(40),
        clock_sysvar_id(),
    ];
    for (i, want) in expected.iter().enumerate() {
        assert_eq!(withdraw.accounts[i].pubkey, *want, "account {} out of place", i);
    }
    assert!(withdraw.accounts[13].is_signer, "the owner signs");
    assert_eq!(withdraw.data[8..16], 500u64.to_le_bytes());
    assert_eq!(withdraw.data[16..24], 0u64.to_le_bytes());
}

#[test]
fn malformed_partner_identity_is_rejected_before_any_fetch() {
    let handler = PortFinanceWithoutLMHandler {};
    let mut req = fixture_request();
    req.partner_identity = "definitely not an address".to_string();
    let (s, a) = handler.withdraw_directly_from_strategy(&req);
    assert!(matches!(s, WithdrawState::Failed { error: WithdrawError::InvalidPartnerAddress }));
    assert!(matches!(a, Action::Abort { error: WithdrawError::InvalidPartnerAddress }));

    req.partner_identity = String::new();
    let (s, _) = handler.withdraw_directly_from_strategy(&req);
    assert!(matches!(s, WithdrawState::Failed { error: WithdrawError::InvalidPartnerAddress }));

    // Well-formed base58, but of fewer than 32 bytes.
    req.partner_identity = "abc".to_string();
    let (s, _) = handler.withdraw_directly_from_strategy(&req);
    assert!(matches!(s, WithdrawState::Failed { error: WithdrawError::InvalidPartnerAddress }));
}

#[test]
fn missing_partner_registration_aborts_the_run() {
    let handler = PortFinanceWithoutLMHandler {};
    let (s, _) = handler.withdraw_directly_from_strategy(&fixture_request());
    let (s, _) = handler.on_event(s, Event::VaultStateFetched(fixture_vault_state()));
    let (s, _) = handler.on_event(s, Event::StrategyStateFetched(StrategyState { reserve: addr(50) }));
    let (s, _) = handler.on_event(s, Event::ReserveStateFetched(fixture_reserve_state()));
    let (s, _) = handler.on_event(s, Event::TokenAccountResolved(addr(60)));
    let (s, _) = handler.on_event(s, Event::TokenAccountResolved(addr(61)));
    // The partner record does not exist: the referral was never registered.
    let (s, a) = handler.on_event(s, Event::FetchFailed(FetchFailure::NotFound));
    assert!(matches!(
        s,
        WithdrawState::Failed {
            error: WithdrawError::AccountNotFound { target: FetchTarget::PartnerRecord },
        }
    ));
    assert!(matches!(a, Action::Abort { .. }));
    // No later event resurrects the run.
    let (s, a) = handler.on_event(s, Event::RegistrationConfirmed);
    assert!(matches!(s, WithdrawState::Failed { .. }));
    assert!(matches!(a, Action::Abort { .. }));
}

#[test]
fn failed_vault_fetch_aborts_the_run() {
    let handler = PortFinanceWithoutLMHandler {};
    let (s, _) = handler.withdraw_directly_from_strategy(&fixture_request());
    let (s, a) = handler.on_event(s, Event::FetchFailed(FetchFailure::Decode));
    assert!(matches!(
        s,
        WithdrawState::Failed { error: WithdrawError::DecodeFailed { target: FetchTarget::Vault } }
    ));
    assert!(matches!(a, Action::Abort { .. }));
}

#[test]
fn mismatched_event_fails_the_run() {
    let handler = PortFinanceWithoutLMHandler {};
    let (s, _) = handler.withdraw_directly_from_strategy(&fixture_request());
    let (s, a) = handler.on_event(s, Event::RegistrationConfirmed);
    assert!(matches!(s, WithdrawState::Failed { error: WithdrawError::UnexpectedEvent }));
    assert!(matches!(a, Action::Abort { error: WithdrawError::UnexpectedEvent }));
}

#[test]
fn steps_are_deterministic() {
    let handler = PortFinanceWithoutLMHandler {};
    let (s1, a1) = handler.withdraw_directly_from_strategy(&fixture_request());
    let (s2, a2) = handler.withdraw_directly_from_strategy(&fixture_request());
    assert_eq!(s1, s2);
    assert_eq!(a1, a2);
    let (n1, b1) = handler.on_event(s1, Event::VaultStateFetched(fixture_vault_state()));
    let (n2, b2) = handler.on_event(s2, Event::VaultStateFetched(fixture_vault_state()));
    assert_eq!(n1, n2);
    assert_eq!(b1, b2);
}
