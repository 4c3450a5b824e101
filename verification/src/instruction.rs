//! Account-list resolution and instruction composition.
//!
//! The withdrawal is one atomic transaction of two instructions: a refresh
//! of the lending reserve, then the affiliate program's direct withdrawal.
//! The account-metadata list of the withdrawal is a fixed contract with the
//! receiving programs: both its order and its flags are pinned, entry by
//! entry, by [`withdraw_account_list`].

use vstd::prelude::*;
use solana_program::pubkey::Pubkey;
use vstd::bytes::spec_u64_to_le_bytes;
use vstd::bytes::u64_to_le_bytes;
use crate::address::Address;
use crate::address::affiliate_program_id;
use crate::address::affiliate_program_id_bytes;
use crate::address::bytes_to_vec;
use crate::address::clock_sysvar_id_bytes;
use crate::address::lending_program_id_bytes;
use crate::address::token_program_id;
use crate::address::token_program_id_bytes;
use crate::address::vault_program_id;
use crate::address::vault_program_id_bytes;

verus! {

/// One entry of an instruction's account list: which account takes part,
/// whether it must sign, and whether it may be written.
#[derive(Clone, Copy, PartialEq, Eq, Debug)]
pub struct AccountMeta {
    pub pubkey: Address,
    pub is_signer: bool,
    pub is_writable: bool,
}

/// Mathematical model of [`AccountMeta`].
#[verifier::ext_equal]
pub struct AccountMetaV {
    pub pubkey: Seq<u8>,
    pub is_signer: bool,
    pub is_writable: bool,
}

impl View for AccountMeta {
    type V = AccountMetaV;

    open spec fn view(&self) -> AccountMetaV {
        AccountMetaV { pubkey: self.pubkey@, is_signer: self.is_signer, is_writable: self.is_writable }
    }
}

impl AccountMeta {
    /// A writable, non-signing entry.
    pub fn writable(pubkey: Address) -> (r: AccountMeta)
        ensures
            r@ == (AccountMetaV { pubkey: pubkey@, is_signer: false, is_writable: true }),
    {
        AccountMeta { pubkey, is_signer: false, is_writable: true }
    }

    /// A read-only, non-signing entry.
    pub fn readonly(pubkey: Address) -> (r: AccountMeta)
        ensures
            r@ == (AccountMetaV { pubkey: pubkey@, is_signer: false, is_writable: false }),
    {
        AccountMeta { pubkey, is_signer: false, is_writable: false }
    }

    /// A read-only entry that must sign.
    pub fn signer(pubkey: Address) -> (r: AccountMeta)
        ensures
            r@ == (AccountMetaV { pubkey: pubkey@, is_signer: true, is_writable: false }),
    {
        AccountMeta { pubkey, is_signer: true, is_writable: false }
    }
}

/// The model of a sequence of account-list entries.
pub open spec fn metas_view(v: Seq<AccountMeta>) -> Seq<AccountMetaV> {
    v.map_values(|m: AccountMeta| m@)
}

/// One instruction of the atomic transaction.
#[derive(Clone, PartialEq, Eq, Debug)]
pub struct Instruction {
    pub program_id: Address,
    pub accounts: Vec<AccountMeta>,
    pub data: Vec<u8>,
}

/// Mathematical model of [`Instruction`].
#[verifier::ext_equal]
pub struct InstructionV {
    pub program_id: Seq<u8>,
    pub accounts: Seq<AccountMetaV>,
    pub data: Seq<u8>,
}

impl View for Instruction {
    type V = InstructionV;

    open spec fn view(&self) -> InstructionV {
        InstructionV {
            program_id: self.program_id@,
            accounts: metas_view(self.accounts@),
            data: self.data@,
        }
    }
}

/// The model of a sequence of instructions.
pub open spec fn instructions_view(v: Seq<Instruction>) -> Seq<InstructionV> {
    v.map_values(|i: Instruction| i@)
}

/// Every account the withdrawal instruction touches, after all derivations
/// and fetches have resolved.  The owning program ids and the clock sysvar
/// are protocol constants and are filled in by the composer.
#[derive(Clone, Copy, PartialEq, Eq, Debug)]
pub struct WithdrawAccounts {
    pub partner: Address,
    pub user: Address,
    pub vault: Address,
    pub strategy: Address,
    pub reserve: Address,
    pub collateral_vault: Address,
    pub token_vault: Address,
    pub fee_vault: Address,
    pub vault_lp_mint: Address,
    pub user_token: Address,
    pub user_lp: Address,
    pub owner: Address,
    pub liquidity_supply: Address,
    pub lending_market: Address,
    pub lending_market_authority: Address,
    pub collateral_mint: Address,
}

/// Mathematical model of [`WithdrawAccounts`].
#[verifier::ext_equal]
pub struct WithdrawAccountsV {
    pub partner: Seq<u8>,
    pub user: Seq<u8>,
    pub vault: Seq<u8>,
    pub strategy: Seq<u8>,
    pub reserve: Seq<u8>,
    pub collateral_vault: Seq<u8>,
    pub token_vault: Seq<u8>,
    pub fee_vault: Seq<u8>,
    pub vault_lp_mint: Seq<u8>,
    pub user_token: Seq<u8>,
    pub user_lp: Seq<u8>,
    pub owner: Seq<u8>,
    pub liquidity_supply: Seq<u8>,
    pub lending_market: Seq<u8>,
    pub lending_market_authority: Seq<u8>,
    pub collateral_mint: Seq<u8>,
}

impl View for WithdrawAccounts {
    type V = WithdrawAccountsV;

    open spec fn view(&self) -> WithdrawAccountsV {
        WithdrawAccountsV {
            partner: self.partner@,
            user: self.user@,
            vault: self.vault@,
            strategy: self.strategy@,
            reserve: self.reserve@,
            collateral_vault: self.collateral_vault@,
            token_vault: self.token_vault@,
            fee_vault: self.fee_vault@,
            vault_lp_mint: self.vault_lp_mint@,
            user_token: self.user_token@,
            user_lp: self.user_lp@,
            owner: self.owner@,
            liquidity_supply: self.liquidity_supply@,
            lending_market: self.lending_market@,
            lending_market_authority: self.lending_market_authority@,
            collateral_mint: self.collateral_mint@,
        }
    }
}

/// A writable, non-signing entry.
pub open spec fn writable_meta(pubkey: Seq<u8>) -> AccountMetaV {
    AccountMetaV { pubkey, is_signer: false, is_writable: true }
}

/// A read-only, non-signing entry.
pub open spec fn readonly_meta(pubkey: Seq<u8>) -> AccountMetaV {
    AccountMetaV { pubkey, is_signer: false, is_writable: false }
}

/// A read-only entry that must sign.
pub open spec fn signer_meta(pubkey: Seq<u8>) -> AccountMetaV {
    AccountMetaV { pubkey, is_signer: true, is_writable: false }
}

/// The exact ordered account list of the withdrawal instruction: the
/// affiliate program's fifteen-entry schema followed by the five remaining
/// accounts the lending program reads.  Any reordering or omission is
/// rejected by the receiving programs at execution time, so the order here
/// is part of the contract.
pub open spec fn withdraw_account_list(a: WithdrawAccountsV) -> Seq<AccountMetaV> {
    seq![
        writable_meta(a.partner),
        writable_meta(a.user),
        writable_meta(a.vault),
        readonly_meta(vault_program_id_bytes()),
        writable_meta(a.strategy),
        writable_meta(a.reserve),
        readonly_meta(lending_program_id_bytes()),
        writable_meta(a.collateral_vault),
        writable_meta(a.token_vault),
        writable_meta(a.fee_vault),
        writable_meta(a.vault_lp_mint),
        writable_meta(a.user_token),
        writable_meta(a.user_lp),
        signer_meta(a.owner),
        readonly_meta(token_program_id_bytes()),
        writable_meta(a.liquidity_supply),
        readonly_meta(a.lending_market),
        readonly_meta(a.lending_market_authority),
        writable_meta(a.collateral_mint),
        readonly_meta(clock_sysvar_id_bytes()),
    ]
}

/// Resolves the full, ordered account-metadata list of the withdrawal
/// instruction.
pub fn resolve_withdraw_accounts(a: &WithdrawAccounts) -> (v: Vec<AccountMeta>)
    ensures
        metas_view(v@) == withdraw_account_list(a@),
{
    let mut v: Vec<AccountMeta> = Vec::new();
    v.push(AccountMeta::writable(a.partner));
    v.push(AccountMeta::writable(a.user));
    v.push(AccountMeta::writable(a.vault));
    v.push(AccountMeta::readonly(vault_program_id()));
    v.push(AccountMeta::writable(a.strategy));
    v.push(AccountMeta::writable(a.reserve));
    v.push(AccountMeta::readonly(crate::address::lending_program_id()));
    v.push(AccountMeta::writable(a.collateral_vault));
    v.push(AccountMeta::writable(a.token_vault));
    v.push(AccountMeta::writable(a.fee_vault));
    v.push(AccountMeta::writable(a.vault_lp_mint));
    v.push(AccountMeta::writable(a.user_token));
    v.push(AccountMeta::writable(a.user_lp));
    v.push(AccountMeta::signer(a.owner));
    v.push(AccountMeta::readonly(token_program_id()));
    v.push(AccountMeta::writable(a.liquidity_supply));
    v.push(AccountMeta::readonly(a.lending_market));
    v.push(AccountMeta::readonly(a.lending_market_authority));
    v.push(AccountMeta::writable(a.collateral_mint));
    v.push(AccountMeta::readonly(crate::address::clock_sysvar_id()));
    proof {
        assert(metas_view(v@) =~= withdraw_account_list(a@));
    }
    v
}

/// The eight bytes that select the affiliate program's direct-withdrawal
/// entry point.
pub open spec fn withdraw_discriminator() -> Seq<u8> {
    seq![201u8, 141, 146, 46, 173, 116, 198, 22]
}

/// The withdrawal instruction's argument bytes: the entry-point selector,
/// then the amount of lp tokens to unmint and the slippage floor, each in
/// eight-byte little-endian form.
pub open spec fn withdraw_data_of(unmint_amount: u64, min_out_amount: u64) -> Seq<u8> {
    withdraw_discriminator() + spec_u64_to_le_bytes(unmint_amount) + spec_u64_to_le_bytes(
        min_out_amount,
    )
}

/// Serializes the withdrawal instruction's arguments.
pub fn encode_withdraw_data(unmint_amount: u64, min_out_amount: u64) -> (v: Vec<u8>)
    ensures
        v@ == withdraw_data_of(unmint_amount, min_out_amount),
{
    let disc: [u8; 8] = [201u8, 141, 146, 46, 173, 116, 198, 22];
    let mut v = bytes_to_vec(&disc);
    proof {
        assert(v@ =~= withdraw_discriminator());
    }
    let mut unmint = u64_to_le_bytes(unmint_amount);
    v.append(&mut unmint);
    let mut min_out = u64_to_le_bytes(min_out_amount);
    v.append(&mut min_out);
    v
}

/// The refresh instruction the lending program expects before the reserve
/// is read: the reserve is written, the clock sysvar and the liquidity
/// oracle are read, and the data is the single tag byte `3`.
pub open spec fn refresh_reserve_instruction_of(
    program: Seq<u8>,
    reserve: Seq<u8>,
    oracle: Seq<u8>,
) -> InstructionV {
    InstructionV {
        program_id: program,
        accounts: seq![
            writable_meta(reserve),
            readonly_meta(clock_sysvar_id_bytes()),
            readonly_meta(oracle),
        ],
        data: seq![3u8],
    }
}

/// Relies on
/// `port_variable_rate_lending_instructions::instruction::refresh_reserve`:
/// it returns an instruction against `program` whose accounts are the
/// reserve (writable), the clock sysvar (read-only) and the given oracle
/// (read-only), with the tag byte `3` as data.
#[verifier::external_body]
fn refresh_reserve_instruction(program: &Address, reserve: &Address, oracle: &Address) -> (r:
    Instruction)
    ensures
        r@ == refresh_reserve_instruction_of(program@, reserve@, oracle@),
{
    let ix = port_variable_rate_lending_instructions::instruction::refresh_reserve(
        Pubkey::new_from_array(program.bytes),
        Pubkey::new_from_array(reserve.bytes),
        solana_program::program_option::COption::Some(Pubkey::new_from_array(oracle.bytes)),
    );
    let accounts = ix.accounts.into_iter().map(|m| AccountMeta {
        pubkey: Address { bytes: m.pubkey.to_bytes() },
        is_signer: m.is_signer,
        is_writable: m.is_writable,
    }).collect();
    Instruction { program_id: Address { bytes: ix.program_id.to_bytes() }, accounts, data: ix.data }
}

/// The full withdrawal instruction against the affiliate program.
pub open spec fn withdraw_instruction_of(
    a: WithdrawAccountsV,
    unmint_amount: u64,
    min_out_amount: u64,
) -> InstructionV {
    InstructionV {
        program_id: affiliate_program_id_bytes(),
        accounts: withdraw_account_list(a),
        data: withdraw_data_of(unmint_amount, min_out_amount),
    }
}

/// Composes the withdrawal instruction.
pub fn compose_withdraw_instruction(
    a: &WithdrawAccounts,
    unmint_amount: u64,
    min_out_amount: u64,
) -> (r: Instruction)
    ensures
        r@ == withdraw_instruction_of(a@, unmint_amount, min_out_amount),
{
    let r = Instruction {
        program_id: affiliate_program_id(),
        accounts: resolve_withdraw_accounts(a),
        data: encode_withdraw_data(unmint_amount, min_out_amount),
    };
    proof {
        assert(r@ =~= withdraw_instruction_of(a@, unmint_amount, min_out_amount));
    }
    r
}

/// The ordered instruction sequence of the atomic transaction: the refresh
/// of the reserve named in the account list always precedes the withdrawal.
pub open spec fn withdraw_transaction_of(
    a: WithdrawAccountsV,
    oracle: Seq<u8>,
    unmint_amount: u64,
    min_out_amount: u64,
) -> Seq<InstructionV> {
    seq![
        refresh_reserve_instruction_of(lending_program_id_bytes(), a.reserve, oracle),
        withdraw_instruction_of(a, unmint_amount, min_out_amount),
    ]
}

/// Composes the ordered instruction sequence of the withdrawal transaction.
pub fn compose_withdraw_transaction(
    a: &WithdrawAccounts,
    oracle: &Address,
    unmint_amount: u64,
    min_out_amount: u64,
) -> (v: Vec<Instruction>)
    ensures
        instructions_view(v@) == withdraw_transaction_of(a@, oracle@, unmint_amount, min_out_amount),
{
    let mut v: Vec<Instruction> = Vec::new();
    v.push(refresh_reserve_instruction(&crate::address::lending_program_id(), &a.reserve, oracle));
    v.push(compose_withdraw_instruction(a, unmint_amount, min_out_amount));
    proof {
        assert(instructions_view(v@) =~= withdraw_transaction_of(
            a@,
            oracle@,
            unmint_amount,
            min_out_amount,
        ));
    }
    v
}

} // verus!
