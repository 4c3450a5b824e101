//! The laws the handler obeys, stated over the spec transition functions
//! and proved once for every state, event and input.

use vstd::prelude::*;
use vstd::bytes::lemma_auto_spec_u64_to_from_le_bytes;
use crate::address::affiliate_program_id_bytes;
use crate::address::lending_program_id_bytes;
use crate::address::partner_address_of;
use crate::address::vault_address_of;
use crate::handler::ActionV;
use crate::handler::EventV;
use crate::handler::FetchFailure;
use crate::handler::WithdrawError;
use crate::handler::WithdrawRequestV;
use crate::handler::WithdrawStateV;
use crate::handler::next_of;
use crate::handler::start_of;
use crate::instruction::withdraw_discriminator;

verus! {

/// Law: the vault address is a function of the token mint and the base key
/// alone, so repeated runs over the same pair derive the same vault.
pub proof fn lemma_vault_address_deterministic(
    token_mint_a: Seq<u8>,
    base_a: Seq<u8>,
    token_mint_b: Seq<u8>,
    base_b: Seq<u8>,
)
    requires
        token_mint_a == token_mint_b,
        base_a == base_b,
    ensures
        vault_address_of(token_mint_a, base_a) == vault_address_of(token_mint_b, base_b),
{
}

/// Law: the partner record is derived from the token account answered in
/// the current step — never a cached one — under the vault of the current
/// run; and if that derivation fails, the run fails.
pub proof fn lemma_partner_derivation_uses_current_token_account(s: WithdrawStateV, t: Seq<u8>)
    requires
        s is AwaitingPartnerToken,
    ensures
        ({
            let (s2, a) = next_of(s, EventV::TokenAccountResolved(t));
            &&& (s2 matches WithdrawStateV::AwaitingPartnerCheck { partner_token, partner, .. }
                ==> partner_token == t && partner_address_of(
                    s->AwaitingPartnerToken_params.vault,
                    t,
                ) == Some(partner))
            &&& (partner_address_of(s->AwaitingPartnerToken_params.vault, t) is None ==> s2
                == (WithdrawStateV::Failed { error: WithdrawError::DerivationFailed }))
        }),
{
}

/// Law: whatever the machine submits is exactly two instructions, the
/// reserve refresh first and the withdrawal second, and both speak of the
/// same reserve.
pub proof fn lemma_refresh_precedes_withdraw(s: WithdrawStateV, e: EventV)
    ensures
        ({
            let (s2, a) = next_of(s, e);
            a matches ActionV::Submit { instructions } ==> {
                &&& instructions.len() == 2
                &&& instructions[0].program_id == lending_program_id_bytes()
                &&& instructions[0].data == seq![3u8]
                &&& instructions[1].program_id == affiliate_program_id_bytes()
                &&& instructions[1].data.len() == 24
                &&& instructions[1].data.subrange(0, 8) == withdraw_discriminator()
                &&& instructions[0].accounts[0].pubkey == instructions[1].accounts[5].pubkey
            }
        }),
{
    let (s2, a) = next_of(s, e);
    match a {
        ActionV::Submit { instructions } => {
            lemma_auto_spec_u64_to_from_le_bytes();
            assert(instructions[1].data.subrange(0, 8) =~= withdraw_discriminator());
        },
        _ => {},
    }
}

/// Law: the machine submits only when the last token-account resolution of
/// the run is answered; in particular the first step never submits.
pub proof fn lemma_submit_only_after_all_checks(s: WithdrawStateV, e: EventV)
    ensures
        ({
            let (s2, a) = next_of(s, e);
            a matches ActionV::Submit { .. } ==> s is AwaitingUserLp && e
                is TokenAccountResolved && s2 is Submitted
        }),
{
}

/// Law: a run begins with a fetch or an abort, never a submission.
pub proof fn lemma_start_never_submits(req: WithdrawRequestV)
    ensures
        !(start_of(req).1 matches ActionV::Submit { .. }),
{
}

/// Law: a failed fetch — the partner or user record missing among the rest
/// — fails the run at once: the machine reaches its failed state, tells the
/// caller to abort, and composes no instruction.
pub proof fn lemma_fail_fast(s: WithdrawStateV, f: FetchFailure)
    ensures
        ({
            let (s2, a) = next_of(s, EventV::FetchFailed(f));
            &&& s2 is Failed
            &&& a matches ActionV::Abort { .. }
            &&& !(a matches ActionV::Submit { .. })
        }),
{
}

/// Law: a failed run stays failed: no later event resurrects it, so
/// nothing is ever submitted after a failure.
pub proof fn lemma_failed_is_terminal(error: WithdrawError, e: EventV)
    ensures
        next_of(WithdrawStateV::Failed { error }, e) == (
            WithdrawStateV::Failed { error },
            ActionV::Abort { error },
        ),
{
}

/// Where a state stands in the fixed order of a run's stages.
pub open spec fn stage_index(s: WithdrawStateV) -> int {
    match s {
        WithdrawStateV::AwaitingVaultState { .. } => 0,
        WithdrawStateV::AwaitingStrategyState { .. } => 1,
        WithdrawStateV::AwaitingReserveState { .. } => 2,
        WithdrawStateV::AwaitingUserToken { .. } => 3,
        WithdrawStateV::AwaitingPartnerToken { .. } => 4,
        WithdrawStateV::AwaitingPartnerCheck { .. } => 5,
        WithdrawStateV::AwaitingUserCheck { .. } => 6,
        WithdrawStateV::AwaitingUserLp { .. } => 7,
        WithdrawStateV::Submitted => 8,
        WithdrawStateV::Failed { .. } => 9,
    }
}

/// Law: every step strictly advances the run (or leaves a terminal failure
/// where it is), so no stage is visited twice within one run and each piece
/// of on-chain state is requested at most once.
pub proof fn lemma_run_never_revisits_a_stage(s: WithdrawStateV, e: EventV)
    ensures
        stage_index(next_of(s, e).0) > stage_index(s) || next_of(s, e).0 == s,
{
}

} // verus!
