//! The on-chain state this handler reads, reduced to the fields its
//! derivations and account lists consume.
//!
//! The caller fetches and decodes the full on-chain records and hands these
//! projections to the step machine; the machine never mutates chain state.

use vstd::prelude::*;
use crate::address::Address;

verus! {

/// The vault record: the liquidity pool the withdrawal goes through.
#[derive(Clone, Copy, PartialEq, Eq, Debug)]
pub struct VaultState {
    pub lp_mint: Address,
    pub token_vault: Address,
    pub fee_vault: Address,
}

/// Mathematical model of [`VaultState`].
#[verifier::ext_equal]
pub struct VaultStateV {
    pub lp_mint: Seq<u8>,
    pub token_vault: Seq<u8>,
    pub fee_vault: Seq<u8>,
}

impl View for VaultState {
    type V = VaultStateV;

    open spec fn view(&self) -> VaultStateV {
        VaultStateV { lp_mint: self.lp_mint@, token_vault: self.token_vault@, fee_vault: self.fee_vault@ }
    }
}

/// The strategy record: binds a vault to one lending-protocol reserve.
#[derive(Clone, Copy, PartialEq, Eq, Debug)]
pub struct StrategyState {
    pub reserve: Address,
}

/// Mathematical model of [`StrategyState`].
#[verifier::ext_equal]
pub struct StrategyStateV {
    pub reserve: Seq<u8>,
}

impl View for StrategyState {
    type V = StrategyStateV;

    open spec fn view(&self) -> StrategyStateV {
        StrategyStateV { reserve: self.reserve@ }
    }
}

/// The lending-protocol reserve record.
#[derive(Clone, Copy, PartialEq, Eq, Debug)]
pub struct ReserveState {
    pub collateral_mint: Address,
    pub liquidity_supply: Address,
    pub liquidity_oracle: Address,
    pub lending_market: Address,
}

/// Mathematical model of [`ReserveState`].
#[verifier::ext_equal]
pub struct ReserveStateV {
    pub collateral_mint: Seq<u8>,
    pub liquidity_supply: Seq<u8>,
    pub liquidity_oracle: Seq<u8>,
    pub lending_market: Seq<u8>,
}

impl View for ReserveState {
    type V = ReserveStateV;

    open spec fn view(&self) -> ReserveStateV {
        ReserveStateV {
            collateral_mint: self.collateral_mint@,
            liquidity_supply: self.liquidity_supply@,
            liquidity_oracle: self.liquidity_oracle@,
            lending_market: self.lending_market@,
        }
    }
}

} // verus!
