//! The per-protocol strategy handler, written as a step machine.
//!
//! One withdrawal is one run of the machine.  The caller owns all I/O: it
//! calls [`PortFinanceWithoutLMHandler::withdraw_directly_from_strategy`]
//! once, performs the returned [`Action`], feeds the outcome back through
//! [`PortFinanceWithoutLMHandler::on_event`], and repeats until the action
//! is [`Action::Submit`] or [`Action::Abort`].  Every derivation, every
//! fetch address and the final instruction sequence are fixed by the spec
//! transition functions [`start_of`] and [`next_of`], so the whole
//! derivation DAG is explicit data, not implicit call order.  The machine
//! holds no state between runs: every call derives everything anew.

use vstd::prelude::*;
use crate::address::Address;
use crate::address::collateral_vault_address_of;
use crate::address::derive_collateral_vault_address;
use crate::address::derive_lending_market_authority;
use crate::address::derive_partner_address;
use crate::address::derive_user_address;
use crate::address::derive_vault_address;
use crate::address::lending_market_authority_of;
use crate::address::parse_address;
use crate::address::parsed_address_of;
use crate::address::partner_address_of;
use crate::address::user_address_of;
use crate::address::vault_address_of;
use crate::instruction::Instruction;
use crate::instruction::InstructionV;
use crate::instruction::WithdrawAccounts;
use crate::instruction::WithdrawAccountsV;
use crate::instruction::compose_withdraw_transaction;
use crate::instruction::instructions_view;
use crate::instruction::withdraw_transaction_of;
use crate::state::ReserveState;
use crate::state::ReserveStateV;
use crate::state::StrategyState;
use crate::state::StrategyStateV;
use crate::state::VaultState;
use crate::state::VaultStateV;

verus! {

/// Which fetch or resolution a failure event refers to.
#[derive(Clone, Copy, PartialEq, Eq, Debug)]
pub enum FetchTarget {
    Vault,
    Strategy,
    Reserve,
    UserTokenAccount,
    PartnerTokenAccount,
    PartnerRecord,
    UserRecord,
    UserLpAccount,
}

/// Why a withdrawal run stopped before submission.
#[derive(Clone, Copy, PartialEq, Eq, Debug)]
pub enum WithdrawError {
    /// The partner identity string is not a well-formed address; rejected
    /// before any network call.
    InvalidPartnerAddress,
    /// A seed-based derivation found no viable address.
    DerivationFailed,
    /// An account the run depends on does not exist; for the partner and
    /// user records this means the referral relationship was never
    /// registered.
    AccountNotFound { target: FetchTarget },
    /// An account exists but its state did not decode as the expected
    /// record.
    DecodeFailed { target: FetchTarget },
    /// The caller answered with an event the current stage cannot accept.
    UnexpectedEvent,
}

/// How a fetch or resolution failed.
#[derive(Clone, Copy, PartialEq, Eq, Debug)]
pub enum FetchFailure {
    NotFound,
    Decode,
}

/// The failure a fetch outcome maps to at a given stage.
pub open spec fn fetch_error_of(target: FetchTarget, f: FetchFailure) -> WithdrawError {
    match f {
        FetchFailure::NotFound => WithdrawError::AccountNotFound { target },
        FetchFailure::Decode => WithdrawError::DecodeFailed { target },
    }
}

fn make_fetch_error(target: FetchTarget, f: FetchFailure) -> (r: WithdrawError)
    ensures
        r == fetch_error_of(target, f),
{
    match f {
        FetchFailure::NotFound => WithdrawError::AccountNotFound { target },
        FetchFailure::Decode => WithdrawError::DecodeFailed { target },
    }
}

/// What the caller asks for: one direct withdrawal from the strategy.
#[derive(Clone, PartialEq, Eq, Debug)]
pub struct WithdrawRequest {
    /// The strategy account binding the vault to a lending reserve.
    pub strategy: Address,
    /// The vault's token mint; first seed of the vault derivation.
    pub token_mint: Address,
    /// The vault's base key; second seed of the vault derivation.
    pub base: Address,
    /// The partner's wallet address, as the caller supplied it.
    pub partner_identity: String,
    /// The paying owner on whose behalf the withdrawal runs.
    pub payer: Address,
    /// How many lp tokens to unmint.
    pub amount: u64,
    /// The slippage floor handed to the withdrawal instruction.
    pub min_out_amount: u64,
}

/// Mathematical model of [`WithdrawRequest`].
#[verifier::ext_equal]
pub struct WithdrawRequestV {
    pub strategy: Seq<u8>,
    pub token_mint: Seq<u8>,
    pub base: Seq<u8>,
    pub partner_identity: Seq<char>,
    pub payer: Seq<u8>,
    pub amount: u64,
    pub min_out_amount: u64,
}

impl View for WithdrawRequest {
    type V = WithdrawRequestV;

    open spec fn view(&self) -> WithdrawRequestV {
        WithdrawRequestV {
            strategy: self.strategy@,
            token_mint: self.token_mint@,
            base: self.base@,
            partner_identity: self.partner_identity@,
            payer: self.payer@,
            amount: self.amount,
            min_out_amount: self.min_out_amount,
        }
    }
}

/// The request after its precondition checks: the partner identity parsed
/// and the vault derived.  Immutable for the rest of the run.
#[derive(Clone, Copy, PartialEq, Eq, Debug)]
pub struct WithdrawParams {
    pub strategy: Address,
    pub token_mint: Address,
    pub base: Address,
    pub partner_identity: Address,
    pub payer: Address,
    pub amount: u64,
    pub min_out_amount: u64,
    pub vault: Address,
}

/// Mathematical model of [`WithdrawParams`].
#[verifier::ext_equal]
pub struct WithdrawParamsV {
    pub strategy: Seq<u8>,
    pub token_mint: Seq<u8>,
    pub base: Seq<u8>,
    pub partner_identity: Seq<u8>,
    pub payer: Seq<u8>,
    pub amount: u64,
    pub min_out_amount: u64,
    pub vault: Seq<u8>,
}

impl View for WithdrawParams {
    type V = WithdrawParamsV;

    open spec fn view(&self) -> WithdrawParamsV {
        WithdrawParamsV {
            strategy: self.strategy@,
            token_mint: self.token_mint@,
            base: self.base@,
            partner_identity: self.partner_identity@,
            payer: self.payer@,
            amount: self.amount,
            min_out_amount: self.min_out_amount,
            vault: self.vault@,
        }
    }
}

/// The outcome of the action the machine last asked for.
#[derive(Clone, Copy, PartialEq, Eq, Debug)]
pub enum Event {
    VaultStateFetched(VaultState),
    StrategyStateFetched(StrategyState),
    ReserveStateFetched(ReserveState),
    TokenAccountResolved(Address),
    /// The fetched record exists; its contents are not needed.
    RegistrationConfirmed,
    FetchFailed(FetchFailure),
}

/// Mathematical model of [`Event`].
#[verifier::ext_equal]
pub enum EventV {
    VaultStateFetched(VaultStateV),
    StrategyStateFetched(StrategyStateV),
    ReserveStateFetched(ReserveStateV),
    TokenAccountResolved(Seq<u8>),
    RegistrationConfirmed,
    FetchFailed(FetchFailure),
}

impl View for Event {
    type V = EventV;

    open spec fn view(&self) -> EventV {
        match self {
            Event::VaultStateFetched(v) => EventV::VaultStateFetched(v@),
            Event::StrategyStateFetched(s) => EventV::StrategyStateFetched(s@),
            Event::ReserveStateFetched(r) => EventV::ReserveStateFetched(r@),
            Event::TokenAccountResolved(a) => EventV::TokenAccountResolved(a@),
            Event::RegistrationConfirmed => EventV::RegistrationConfirmed,
            Event::FetchFailed(f) => EventV::FetchFailed(*f),
        }
    }
}

/// What the caller must do next.  Exactly one action comes out of every
/// step; the run ends with `Submit` or `Abort`.
#[derive(Clone, PartialEq, Eq, Debug)]
pub enum Action {
    /// Fetch and decode the vault record at `address`.
    FetchVaultState { address: Address },
    /// Fetch and decode the strategy record at `address`.
    FetchStrategyState { address: Address },
    /// Fetch and decode the lending reserve record at `address`.
    FetchReserveState { address: Address },
    /// Resolve (or idempotently create) the token account of `owner` for
    /// `mint`.
    ResolveTokenAccount { mint: Address, owner: Address },
    /// Confirm that the partner record at `address` exists.
    CheckPartnerRegistration { address: Address },
    /// Confirm that the user record at `address` exists.
    CheckUserRegistration { address: Address },
    /// Send the instructions as one atomic transaction.
    Submit { instructions: Vec<Instruction> },
    /// Stop; nothing was or may be submitted.
    Abort { error: WithdrawError },
}

/// Mathematical model of [`Action`].
#[verifier::ext_equal]
pub enum ActionV {
    FetchVaultState { address: Seq<u8> },
    FetchStrategyState { address: Seq<u8> },
    FetchReserveState { address: Seq<u8> },
    ResolveTokenAccount { mint: Seq<u8>, owner: Seq<u8> },
    CheckPartnerRegistration { address: Seq<u8> },
    CheckUserRegistration { address: Seq<u8> },
    Submit { instructions: Seq<InstructionV> },
    Abort { error: WithdrawError },
}

impl View for Action {
    type V = ActionV;

    open spec fn view(&self) -> ActionV {
        match self {
            Action::FetchVaultState { address } => ActionV::FetchVaultState { address: address@ },
            Action::FetchStrategyState { address } => ActionV::FetchStrategyState {
                address: address@,
            },
            Action::FetchReserveState { address } => ActionV::FetchReserveState {
                address: address@,
            },
            Action::ResolveTokenAccount { mint, owner } => ActionV::ResolveTokenAccount {
                mint: mint@,
                owner: owner@,
            },
            Action::CheckPartnerRegistration { address } => ActionV::CheckPartnerRegistration {
                address: address@,
            },
            Action::CheckUserRegistration { address } => ActionV::CheckUserRegistration {
                address: address@,
            },
            Action::Submit { instructions } => ActionV::Submit {
                instructions: instructions_view(instructions@),
            },
            Action::Abort { error } => ActionV::Abort { error: *error },
        }
    }
}

/// Where a withdrawal run stands: which answer it waits for and everything
/// it has derived or fetched so far.
#[derive(Clone, Copy, PartialEq, Eq, Debug)]
pub enum WithdrawState {
    AwaitingVaultState {
        params: WithdrawParams,
    },
    AwaitingStrategyState {
        params: WithdrawParams,
        vault_state: VaultState,
    },
    AwaitingReserveState {
        params: WithdrawParams,
        vault_state: VaultState,
        reserve: Address,
    },
    AwaitingUserToken {
        params: WithdrawParams,
        vault_state: VaultState,
        reserve: Address,
        reserve_state: ReserveState,
        collateral_vault: Address,
        lending_market_authority: Address,
    },
    AwaitingPartnerToken {
        params: WithdrawParams,
        vault_state: VaultState,
        reserve: Address,
        reserve_state: ReserveState,
        collateral_vault: Address,
        lending_market_authority: Address,
        user_token: Address,
    },
    AwaitingPartnerCheck {
        params: WithdrawParams,
        vault_state: VaultState,
        reserve: Address,
        reserve_state: ReserveState,
        collateral_vault: Address,
        lending_market_authority: Address,
        user_token: Address,
        partner_token: Address,
        partner: Address,
    },
    AwaitingUserCheck {
        params: WithdrawParams,
        vault_state: VaultState,
        reserve: Address,
        reserve_state: ReserveState,
        collateral_vault: Address,
        lending_market_authority: Address,
        user_token: Address,
        partner_token: Address,
        partner: Address,
        user: Address,
    },
    AwaitingUserLp {
        params: WithdrawParams,
        vault_state: VaultState,
        reserve: Address,
        reserve_state: ReserveState,
        collateral_vault: Address,
        lending_market_authority: Address,
        user_token: Address,
        partner_token: Address,
        partner: Address,
        user: Address,
    },
    /// The instruction sequence went out with [`Action::Submit`].
    Submitted,
    /// The run stopped; nothing was submitted.
    Failed { error: WithdrawError },
}

/// Mathematical model of [`WithdrawState`].
#[verifier::ext_equal]
pub enum WithdrawStateV {
    AwaitingVaultState {
        params: WithdrawParamsV,
    },
    AwaitingStrategyState {
        params: WithdrawParamsV,
        vault_state: VaultStateV,
    },
    AwaitingReserveState {
        params: WithdrawParamsV,
        vault_state: VaultStateV,
        reserve: Seq<u8>,
    },
    AwaitingUserToken {
        params: WithdrawParamsV,
        vault_state: VaultStateV,
        reserve: Seq<u8>,
        reserve_state: ReserveStateV,
        collateral_vault: Seq<u8>,
        lending_market_authority: Seq<u8>,
    },
    AwaitingPartnerToken {
        params: WithdrawParamsV,
        vault_state: VaultStateV,
        reserve: Seq<u8>,
        reserve_state: ReserveStateV,
        collateral_vault: Seq<u8>,
        lending_market_authority: Seq<u8>,
        user_token: Seq<u8>,
    },
    AwaitingPartnerCheck {
        params: WithdrawParamsV,
        vault_state: VaultStateV,
        reserve: Seq<u8>,
        reserve_state: ReserveStateV,
        collateral_vault: Seq<u8>,
        lending_market_authority: Seq<u8>,
        user_token: Seq<u8>,
        partner_token: Seq<u8>,
        partner: Seq<u8>,
    },
    AwaitingUserCheck {
        params: WithdrawParamsV,
        vault_state: VaultStateV,
        reserve: Seq<u8>,
        reserve_state: ReserveStateV,
        collateral_vault: Seq<u8>,
        lending_market_authority: Seq<u8>,
        user_token: Seq<u8>,
        partner_token: Seq<u8>,
        partner: Seq<u8>,
        user: Seq<u8>,
    },
    AwaitingUserLp {
        params: WithdrawParamsV,
        vault_state: VaultStateV,
        reserve: Seq<u8>,
        reserve_state: ReserveStateV,
        collateral_vault: Seq<u8>,
        lending_market_authority: Seq<u8>,
        user_token: Seq<u8>,
        partner_token: Seq<u8>,
        partner: Seq<u8>,
        user: Seq<u8>,
    },
    Submitted,
    Failed { error: WithdrawError },
}

impl View for WithdrawState {
    type V = WithdrawStateV;

    open spec fn view(&self) -> WithdrawStateV {
        match self {
            WithdrawState::AwaitingVaultState { params } => WithdrawStateV::AwaitingVaultState {
                params: params@,
            },
            WithdrawState::AwaitingStrategyState { params, vault_state } =>
                WithdrawStateV::AwaitingStrategyState { params: params@, vault_state: vault_state@ },
            WithdrawState::AwaitingReserveState { params, vault_state, reserve } =>
                WithdrawStateV::AwaitingReserveState {
                    params: params@,
                    vault_state: vault_state@,
                    reserve: reserve@,
                },
            WithdrawState::AwaitingUserToken {
                params,
                vault_state,
                reserve,
                reserve_state,
                collateral_vault,
                lending_market_authority,
            } => WithdrawStateV::AwaitingUserToken {
                params: params@,
                vault_state: vault_state@,
                reserve: reserve@,
                reserve_state: reserve_state@,
                collateral_vault: collateral_vault@,
                lending_market_authority: lending_market_authority@,
            },
            WithdrawState::AwaitingPartnerToken {
                params,
                vault_state,
                reserve,
                reserve_state,
                collateral_vault,
                lending_market_authority,
                user_token,
            } => WithdrawStateV::AwaitingPartnerToken {
                params: params@,
                vault_state: vault_state@,
                reserve: reserve@,
                reserve_state: reserve_state@,
                collateral_vault: collateral_vault@,
                lending_market_authority: lending_market_authority@,
                user_token: user_token@,
            },
            WithdrawState::AwaitingPartnerCheck {
                params,
                vault_state,
                reserve,
                reserve_state,
                collateral_vault,
                lending_market_authority,
                user_token,
                partner_token,
                partner,
            } => WithdrawStateV::AwaitingPartnerCheck {
                params: params@,
                vault_state: vault_state@,
                reserve: reserve@,
                reserve_state: reserve_state@,
                collateral_vault: collateral_vault@,
                lending_market_authority: lending_market_authority@,
                user_token: user_token@,
                partner_token: partner_token@,
                partner: partner@,
            },
            WithdrawState::AwaitingUserCheck {
                params,
                vault_state,
                reserve,
                reserve_state,
                collateral_vault,
                lending_market_authority,
                user_token,
                partner_token,
                partner,
                user,
            } => WithdrawStateV::AwaitingUserCheck {
                params: params@,
                vault_state: vault_state@,
                reserve: reserve@,
                reserve_state: reserve_state@,
                collateral_vault: collateral_vault@,
                lending_market_authority: lending_market_authority@,
                user_token: user_token@,
                partner_token: partner_token@,
                partner: partner@,
                user: user@,
            },
            WithdrawState::AwaitingUserLp {
                params,
                vault_state,
                reserve,
                reserve_state,
                collateral_vault,
                lending_market_authority,
                user_token,
                partner_token,
                partner,
                user,
            } => WithdrawStateV::AwaitingUserLp {
                params: params@,
                vault_state: vault_state@,
                reserve: reserve@,
                reserve_state: reserve_state@,
                collateral_vault: collateral_vault@,
                lending_market_authority: lending_market_authority@,
                user_token: user_token@,
                partner_token: partner_token@,
                partner: partner@,
                user: user@,
            },
            WithdrawState::Submitted => WithdrawStateV::Submitted,
            WithdrawState::Failed { error } => WithdrawStateV::Failed { error: *error },
        }
    }
}

/// A run that stops with `error`: the terminal failed state and the abort
/// action.
pub open spec fn failed_of(error: WithdrawError) -> (WithdrawStateV, ActionV) {
    (WithdrawStateV::Failed { error }, ActionV::Abort { error })
}

fn fail(error: WithdrawError) -> (r: (WithdrawState, Action))
    ensures
        (r.0@, r.1@) == failed_of(error),
{
    (WithdrawState::Failed { error }, Action::Abort { error })
}

/// How a run begins: the partner identity is parsed before any network
/// call, the vault is derived from the token mint and the base key, and the
/// first fetch is the vault record at the derived address.
pub open spec fn start_of(req: WithdrawRequestV) -> (WithdrawStateV, ActionV) {
    match parsed_address_of(req.partner_identity) {
        Option::None => failed_of(WithdrawError::InvalidPartnerAddress),
        Option::Some(partner_identity) => match vault_address_of(req.token_mint, req.base) {
            Option::None => failed_of(WithdrawError::DerivationFailed),
            Option::Some(vault) => {
                let params = WithdrawParamsV {
                    strategy: req.strategy,
                    token_mint: req.token_mint,
                    base: req.base,
                    partner_identity,
                    payer: req.payer,
                    amount: req.amount,
                    min_out_amount: req.min_out_amount,
                    vault,
                };
                (
                    WithdrawStateV::AwaitingVaultState { params },
                    ActionV::FetchVaultState { address: vault },
                )
            },
        },
    }
}

/// The transition function of the machine: given where the run stands and
/// the outcome of the last action, where it stands next and what the caller
/// must do.  A failed fetch always moves to the failed state; the only
/// transition that submits is the last resolution answered on the
/// lp-account stage.
pub open spec fn next_of(s: WithdrawStateV, e: EventV) -> (WithdrawStateV, ActionV) {
    match s {
        WithdrawStateV::AwaitingVaultState { params } => match e {
            EventV::VaultStateFetched(vault_state) => (
                WithdrawStateV::AwaitingStrategyState { params, vault_state },
                ActionV::FetchStrategyState { address: params.strategy },
            ),
            EventV::FetchFailed(f) => failed_of(fetch_error_of(FetchTarget::Vault, f)),
            _ => failed_of(WithdrawError::UnexpectedEvent),
        },
        WithdrawStateV::AwaitingStrategyState { params, vault_state } => match e {
            EventV::StrategyStateFetched(strategy_state) => (
                WithdrawStateV::AwaitingReserveState {
                    params,
                    vault_state,
                    reserve: strategy_state.reserve,
                },
                ActionV::FetchReserveState { address: strategy_state.reserve },
            ),
            EventV::FetchFailed(f) => failed_of(fetch_error_of(FetchTarget::Strategy, f)),
            _ => failed_of(WithdrawError::UnexpectedEvent),
        },
        WithdrawStateV::AwaitingReserveState { params, vault_state, reserve } => match e {
            EventV::ReserveStateFetched(reserve_state) => match (
                collateral_vault_address_of(params.strategy),
                lending_market_authority_of(reserve_state.lending_market),
            ) {
                (Option::Some(collateral_vault), Option::Some(lending_market_authority)) => (
                    WithdrawStateV::AwaitingUserToken {
                        params,
                        vault_state,
                        reserve,
                        reserve_state,
                        collateral_vault,
                        lending_market_authority,
                    },
                    ActionV::ResolveTokenAccount {
                        mint: params.token_mint,
                        owner: params.payer,
                    },
                ),
                _ => failed_of(WithdrawError::DerivationFailed),
            },
            EventV::FetchFailed(f) => failed_of(fetch_error_of(FetchTarget::Reserve, f)),
            _ => failed_of(WithdrawError::UnexpectedEvent),
        },
        WithdrawStateV::AwaitingUserToken {
            params,
            vault_state,
            reserve,
            reserve_state,
            collateral_vault,
            lending_market_authority,
        } => match e {
            EventV::TokenAccountResolved(user_token) => (
                WithdrawStateV::AwaitingPartnerToken {
                    params,
                    vault_state,
                    reserve,
                    reserve_state,
                    collateral_vault,
                    lending_market_authority,
                    user_token,
                },
                ActionV::ResolveTokenAccount {
                    mint: params.token_mint,
                    owner: params.partner_identity,
                },
            ),
            EventV::FetchFailed(f) => failed_of(fetch_error_of(FetchTarget::UserTokenAccount, f)),
            _ => failed_of(WithdrawError::UnexpectedEvent),
        },
        WithdrawStateV::AwaitingPartnerToken {
            params,
            vault_state,
            reserve,
            reserve_state,
            collateral_vault,
            lending_market_authority,
            user_token,
        } => match e {
            EventV::TokenAccountResolved(partner_token) => match partner_address_of(
                params.vault,
                partner_token,
            ) {
                Option::Some(partner) => (
                    WithdrawStateV::AwaitingPartnerCheck {
                        params,
                        vault_state,
                        reserve,
                        reserve_state,
                        collateral_vault,
                        lending_market_authority,
                        user_token,
                        partner_token,
                        partner,
                    },
                    ActionV::CheckPartnerRegistration { address: partner },
                ),
                Option::None => failed_of(WithdrawError::DerivationFailed),
            },
            EventV::FetchFailed(f) => failed_of(
                fetch_error_of(FetchTarget::PartnerTokenAccount, f),
            ),
            _ => failed_of(WithdrawError::UnexpectedEvent),
        },
        WithdrawStateV::AwaitingPartnerCheck {
            params,
            vault_state,
            reserve,
            reserve_state,
            collateral_vault,
            lending_market_authority,
            user_token,
            partner_token,
            partner,
        } => match e {
            EventV::RegistrationConfirmed => match user_address_of(partner, params.payer) {
                Option::Some(user) => (
                    WithdrawStateV::AwaitingUserCheck {
                        params,
                        vault_state,
                        reserve,
                        reserve_state,
                        collateral_vault,
                        lending_market_authority,
                        user_token,
                        partner_token,
                        partner,
                        user,
                    },
                    ActionV::CheckUserRegistration { address: user },
                ),
                Option::None => failed_of(WithdrawError::DerivationFailed),
            },
            EventV::FetchFailed(f) => failed_of(fetch_error_of(FetchTarget::PartnerRecord, f)),
            _ => failed_of(WithdrawError::UnexpectedEvent),
        },
        WithdrawStateV::AwaitingUserCheck {
            params,
            vault_state,
            reserve,
            reserve_state,
            collateral_vault,
            lending_market_authority,
            user_token,
            partner_token,
            partner,
            user,
        } => match e {
            EventV::RegistrationConfirmed => (
                WithdrawStateV::AwaitingUserLp {
                    params,
                    vault_state,
                    reserve,
                    reserve_state,
                    collateral_vault,
                    lending_market_authority,
                    user_token,
                    partner_token,
                    partner,
                    user,
                },
                ActionV::ResolveTokenAccount { mint: vault_state.lp_mint, owner: user },
            ),
            EventV::FetchFailed(f) => failed_of(fetch_error_of(FetchTarget::UserRecord, f)),
            _ => failed_of(WithdrawError::UnexpectedEvent),
        },
        WithdrawStateV::AwaitingUserLp {
            params,
            vault_state,
            reserve,
            reserve_state,
            collateral_vault,
            lending_market_authority,
            user_token,
            partner_token,
            partner,
            user,
        } => match e {
            EventV::TokenAccountResolved(user_lp) => (
                WithdrawStateV::Submitted,
                ActionV::Submit {
                    instructions: withdraw_transaction_of(
                        WithdrawAccountsV {
                            partner,
                            user,
                            vault: params.vault,
                            strategy: params.strategy,
                            reserve,
                            collateral_vault,
                            token_vault: vault_state.token_vault,
                            fee_vault: vault_state.fee_vault,
                            vault_lp_mint: vault_state.lp_mint,
                            user_token,
                            user_lp,
                            owner: params.payer,
                            liquidity_supply: reserve_state.liquidity_supply,
                            lending_market: reserve_state.lending_market,
                            lending_market_authority,
                            collateral_mint: reserve_state.collateral_mint,
                        },
                        reserve_state.liquidity_oracle,
                        params.amount,
                        params.min_out_amount,
                    ),
                },
            ),
            EventV::FetchFailed(f) => failed_of(fetch_error_of(FetchTarget::UserLpAccount, f)),
            _ => failed_of(WithdrawError::UnexpectedEvent),
        },
        WithdrawStateV::Submitted => failed_of(WithdrawError::UnexpectedEvent),
        WithdrawStateV::Failed { error } => (
            WithdrawStateV::Failed { error },
            ActionV::Abort { error },
        ),
    }
}

/// The handler for the lending-protocol variant without liquidity-mining
/// rewards.  It holds no state: every run derives everything anew from the
/// request and the events.
pub struct PortFinanceWithoutLMHandler {}

impl PortFinanceWithoutLMHandler {
    /// Begins one direct withdrawal from the strategy: checks the request's
    /// preconditions, derives the vault, and returns the run's state
    /// together with the first action for the caller to perform.
    pub fn withdraw_directly_from_strategy(&self, req: &WithdrawRequest) -> (r: (
        WithdrawState,
        Action,
    ))
        ensures
            (r.0@, r.1@) == start_of(req@),
    {
        match parse_address(req.partner_identity.as_str()) {
            Option::None => fail(WithdrawError::InvalidPartnerAddress),
            Option::Some(partner_identity) => match derive_vault_address(
                &req.token_mint,
                &req.base,
            ) {
                Option::None => fail(WithdrawError::DerivationFailed),
                Option::Some(vault) => {
                    let params = WithdrawParams {
                        strategy: req.strategy,
                        token_mint: req.token_mint,
                        base: req.base,
                        partner_identity,
                        payer: req.payer,
                        amount: req.amount,
                        min_out_amount: req.min_out_amount,
                        vault,
                    };
                    (
                        WithdrawState::AwaitingVaultState { params },
                        Action::FetchVaultState { address: vault },
                    )
                },
            },
        }
    }

    /// Advances the run by one step: consumes the outcome of the last
    /// action and returns the next state and action.
    pub fn on_event(&self, s: WithdrawState, e: Event) -> (r: (WithdrawState, Action))
        ensures
            (r.0@, r.1@) == next_of(s@, e@),
    {
        match s {
            WithdrawState::AwaitingVaultState { params } => match e {
                Event::VaultStateFetched(vault_state) => (
                    WithdrawState::AwaitingStrategyState { params, vault_state },
                    Action::FetchStrategyState { address: params.strategy },
                ),
                Event::FetchFailed(f) => fail(make_fetch_error(FetchTarget::Vault, f)),
                _ => fail(WithdrawError::UnexpectedEvent),
            },
            WithdrawState::AwaitingStrategyState { params, vault_state } => match e {
                Event::StrategyStateFetched(strategy_state) => (
                    WithdrawState::AwaitingReserveState {
                        params,
                        vault_state,
                        reserve: strategy_state.reserve,
                    },
                    Action::FetchReserveState { address: strategy_state.reserve },
                ),
                Event::FetchFailed(f) => fail(make_fetch_error(FetchTarget::Strategy, f)),
                _ => fail(WithdrawError::UnexpectedEvent),
            },
            WithdrawState::AwaitingReserveState { params, vault_state, reserve } => match e {
                Event::ReserveStateFetched(reserve_state) => {
                    let collateral_vault_opt = derive_collateral_vault_address(&params.strategy);
                    let authority_opt = derive_lending_market_authority(
                        &reserve_state.lending_market,
                    );
                    match (collateral_vault_opt, authority_opt) {
                        (
                            Option::Some(collateral_vault),
                            Option::Some(lending_market_authority),
                        ) => (
                            WithdrawState::AwaitingUserToken {
                                params,
                                vault_state,
                                reserve,
                                reserve_state,
                                collateral_vault,
                                lending_market_authority,
                            },
                            Action::ResolveTokenAccount {
                                mint: params.token_mint,
                                owner: params.payer,
                            },
                        ),
                        _ => fail(WithdrawError::DerivationFailed),
                    }
                },
                Event::FetchFailed(f) => fail(make_fetch_error(FetchTarget::Reserve, f)),
                _ => fail(WithdrawError::UnexpectedEvent),
            },
            WithdrawState::AwaitingUserToken {
                params,
                vault_state,
                reserve,
                reserve_state,
                collateral_vault,
                lending_market_authority,
            } => match e {
                Event::TokenAccountResolved(user_token) => (
                    WithdrawState::AwaitingPartnerToken {
                        params,
                        vault_state,
                        reserve,
                        reserve_state,
                        collateral_vault,
                        lending_market_authority,
                        user_token,
                    },
                    Action::ResolveTokenAccount {
                        mint: params.token_mint,
                        owner: params.partner_identity,
                    },
                ),
                Event::FetchFailed(f) => fail(make_fetch_error(FetchTarget::UserTokenAccount, f)),
                _ => fail(WithdrawError::UnexpectedEvent),
            },
            WithdrawState::AwaitingPartnerToken {
                params,
                vault_state,
                reserve,
                reserve_state,
                collateral_vault,
                lending_market_authority,
                user_token,
            } => match e {
                Event::TokenAccountResolved(partner_token) => match derive_partner_address(
                    &params.vault,
                    &partner_token,
                ) {
                    Option::Some(partner) => (
                        WithdrawState::AwaitingPartnerCheck {
                            params,
                            vault_state,
                            reserve,
                            reserve_state,
                            collateral_vault,
                            lending_market_authority,
                            user_token,
                            partner_token,
                            partner,
                        },
                        Action::CheckPartnerRegistration { address: partner },
                    ),
                    Option::None => fail(WithdrawError::DerivationFailed),
                },
                Event::FetchFailed(f) => fail(
                    make_fetch_error(FetchTarget::PartnerTokenAccount, f),
                ),
                _ => fail(WithdrawError::UnexpectedEvent),
            },
            WithdrawState::AwaitingPartnerCheck {
                params,
                vault_state,
                reserve,
                reserve_state,
                collateral_vault,
                lending_market_authority,
                user_token,
                partner_token,
                partner,
            } => match e {
                Event::RegistrationConfirmed => match derive_user_address(
                    &partner,
                    &params.payer,
                ) {
                    Option::Some(user) => (
                        WithdrawState::AwaitingUserCheck {
                            params,
                            vault_state,
                            reserve,
                            reserve_state,
                            collateral_vault,
                            lending_market_authority,
                            user_token,
                            partner_token,
                            partner,
                            user,
                        },
                        Action::CheckUserRegistration { address: user },
                    ),
                    Option::None => fail(WithdrawError::DerivationFailed),
                },
                Event::FetchFailed(f) => fail(make_fetch_error(FetchTarget::PartnerRecord, f)),
                _ => fail(WithdrawError::UnexpectedEvent),
            },
            WithdrawState::AwaitingUserCheck {
                params,
                vault_state,
                reserve,
                reserve_state,
                collateral_vault,
                lending_market_authority,
                user_token,
                partner_token,
                partner,
                user,
            } => match e {
                Event::RegistrationConfirmed => (
                    WithdrawState::AwaitingUserLp {
                        params,
                        vault_state,
                        reserve,
                        reserve_state,
                        collateral_vault,
                        lending_market_authority,
                        user_token,
                        partner_token,
                        partner,
                        user,
                    },
                    Action::ResolveTokenAccount { mint: vault_state.lp_mint, owner: user },
                ),
                Event::FetchFailed(f) => fail(make_fetch_error(FetchTarget::UserRecord, f)),
                _ => fail(WithdrawError::UnexpectedEvent),
            },
            WithdrawState::AwaitingUserLp {
                params,
                vault_state,
                reserve,
                reserve_state,
                collateral_vault,
                lending_market_authority,
                user_token,
                partner_token,
                partner,
                user,
            } => match e {
                Event::TokenAccountResolved(user_lp) => {
                    let accounts = WithdrawAccounts {
                        partner,
                        user,
                        vault: params.vault,
                        strategy: params.strategy,
                        reserve,
                        collateral_vault,
                        token_vault: vault_state.token_vault,
                        fee_vault: vault_state.fee_vault,
                        vault_lp_mint: vault_state.lp_mint,
                        user_token,
                        user_lp,
                        owner: params.payer,
                        liquidity_supply: reserve_state.liquidity_supply,
                        lending_market: reserve_state.lending_market,
                        lending_market_authority,
                        collateral_mint: reserve_state.collateral_mint,
                    };
                    let instructions = compose_withdraw_transaction(
                        &accounts,
                        &reserve_state.liquidity_oracle,
                        params.amount,
                        params.min_out_amount,
                    );
                    (WithdrawState::Submitted, Action::Submit { instructions })
                },
                Event::FetchFailed(f) => fail(make_fetch_error(FetchTarget::UserLpAccount, f)),
                _ => fail(WithdrawError::UnexpectedEvent),
            },
            WithdrawState::Submitted => fail(WithdrawError::UnexpectedEvent),
            WithdrawState::Failed { error } => (
                WithdrawState::Failed { error },
                Action::Abort { error },
            ),
        }
    }
}

} // verus!
