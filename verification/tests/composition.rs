//! Account-list exactness and instruction-argument encoding.

use affiliate_withdraw::address::Address;
use affiliate_withdraw::address::affiliate_program_id;
use affiliate_withdraw::address::clock_sysvar_id;
use affiliate_withdraw::address::lending_program_id;
use affiliate_withdraw::address::token_program_id;
use affiliate_withdraw::address::vault_program_id;
use affiliate_withdraw::instruction::WithdrawAccounts;
use affiliate_withdraw::instruction::compose_withdraw_instruction;
use affiliate_withdraw::instruction::encode_withdraw_data;
use affiliate_withdraw::instruction::resolve_withdraw_accounts;

fn addr(fill: u8) -> Address {
    Address { bytes: [fill; 32] }
}

fn fixture_accounts() -> WithdrawAccounts {
    WithdrawAccounts {
        partner: addr(1),
        user: addr(2),
        vault: addr(3),
        strategy: addr(4),
        reserve: addr(5),
        collateral_vault: addr(6),
        token_vault: addr(7),
        fee_vault: addr(8),
        vault_lp_mint: addr(9),
        user_token: addr(10),
        user_lp: addr(11),
        owner: addr(12),
        liquidity_supply: addr(13),
        lending_market: addr(14),
        lending_market_authority: addr(15),
        collateral_mint: addr(16),
    }
}

#[test]
fn account_list_is_exact() {
    let metas = resolve_withdraw_accounts(&fixture_accounts());
    // (address, is_signer, is_writable), in the exact order the affiliate
    // and lending programs expect.
    let expected: Vec<(Address, bool, bool)> = vec![
        (addr(1), false, true),
        (addr(2), false, true),
        (addr(3), false, true),
        (vault_program_id(), false, false),
        (addr(4), false, true),
        (addr(5), false, true),
        (lending_program_id(), false, false),
        (addr(6), false, true),
        (addr(7), false, true),
        (addr(8), false, true),
        (addr(9), false, true),
        (addr(10), false, true),
        (addr(11), false, true),
        (addr(12), true, false),
        (token_program_id(), false, false),
        (addr(13), false, true),
        (addr(14), false, false),
        (addr(15), false, false),
        (addr(16), false, true),
        (clock_sysvar_id(), false, false),
    ];
    assert_eq!(metas.len(), expected.len());
    for (meta, (pubkey, is_signer, is_writable)) in metas.iter().zip(expected.iter()) {
        assert_eq!(meta.pubkey, *pubkey);
        assert_eq!(meta.is_signer, *is_signer);
        assert_eq!(meta.is_writable, *is_writable);
    }
}

#[test]
fn withdraw_data_is_selector_then_amounts() {
    let data = encode_withdraw_data(1_000_000, 0);
    assert_eq!(data.len(), 24);
    // The selector is the first eight bytes of the hash the affiliate
    // program derives its entry-point tag from.
    let tag = solana_program::hash::hash(b"global:withdraw_directly_from_strategy");
    assert_eq!(&data[0..8], &tag.to_bytes()[0..8]);
    assert_eq!(&data[8..16], &1_000_000u64.to_le_bytes());
    assert_eq!(&data[16..24], &0u64.to_le_bytes());
}

#[test]
fn withdraw_data_encodes_the_slippage_floor() {
    let data = encode_withdraw_data(500, 77);
    assert_eq!(&data[8..16], &500u64.to_le_bytes());
    assert_eq!(&data[16..24], &77u64.to_le_bytes());
}

#[test]
fn withdraw_instruction_targets_the_affiliate_program() {
    let ix = compose_withdraw_instruction(&fixture_accounts(), 500, 0);
    assert_eq!(ix.program_id, affiliate_program_id());
    assert_eq!(ix.accounts.len(), 20);
    assert_eq!(ix.data, encode_withdraw_data(500, 0));
}
