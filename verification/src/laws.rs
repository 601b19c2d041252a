//! What holds of the operations on the records of one transaction, whatever
//! the records.

use vstd::prelude::*;
use crate::context::constants::dispute_window_end;
use crate::context::event::{change_refusal, CancelEvent, CompleteEvent};
use crate::context::participation::{
    AppealResult, ClaimEventReward, ClaimReceipt, Recharge, Vote,
};
use crate::error::ProgramError;
use crate::pubkey::Pubkey;
use crate::state::event::Event;

verus! {

/// A vote is settled once: after an accepted settlement, every further one
/// is refused as already claimed and leaves the records as they are.
pub proof fn lemma_claim_is_settled_once(ctx: ClaimEventReward, now: i64, later: i64)
    requires
        ctx.claim_result(now) is Ok,
    ensures
        ctx.after_claim(now).claim_result(later) == Err::<ClaimReceipt, ProgramError>(
            ProgramError::AlreadyClaimed,
        ),
        ctx.after_claim(now).after_claim(later) == ctx.after_claim(now),
{
}

/// The first accepted settlement of an event releases the creator's stake;
/// every later one pays neither the creator nor the platform.
pub proof fn lemma_creator_is_paid_once(ctx: ClaimEventReward, now: i64)
    requires
        ctx.claim_result(now) is Ok,
    ensures
        ctx.after_claim(now).event.stake == 0,
        ctx.after_claim(now).creator_payout() == 0,
        ctx.after_claim(now).platform_payout() == 0,
{
}

/// A vote is refunded once: after an accepted refund of the full deposit,
/// every further one is refused as already claimed and leaves the records as
/// they are.
pub proof fn lemma_refund_is_paid_once(ctx: Recharge)
    requires
        ctx.recharge_result() is Ok,
    ensures
        ctx.recharge_result() == Ok::<u64, ProgramError>(ctx.participant.deposited_amount),
        ctx.after_recharge().user.stake == ctx.user.stake + ctx.participant.deposited_amount,
        ctx.after_recharge().recharge_result() == Err::<u64, ProgramError>(ProgramError::AlreadyClaimed),
        ctx.after_recharge().after_recharge() == ctx.after_recharge(),
{
}

/// The end date belongs to the voting window: where no participation
/// deadline is set, a vote that is accepted at any time is accepted at the
/// end date too.
pub proof fn lemma_vote_accepted_at_end_date(ctx: Vote, amount: u64, now: i64)
    requires
        ctx.event.participation_deadline is None,
        ctx.refusal(amount, now) is None,
    ensures
        ctx.refusal(amount, ctx.event.end_date) is None,
{
}

/// One tick after the end date the voting window is closed: the vote of the
/// owner of the user record is refused as untimely.
pub proof fn lemma_vote_refused_after_end_date(ctx: Vote, amount: u64, now: i64)
    requires
        ctx.user.payer == ctx.sender,
        now > ctx.event.end_date,
    ensures
        ctx.refusal(amount, now) == Some(ProgramError::InactiveEvent),
{
}

/// The last moment of the dispute window belongs to it: a dispute that is
/// accepted at any time is accepted at that moment too.
pub proof fn lemma_appeal_accepted_at_window_end(ctx: AppealResult, now: i64, last: i64)
    requires
        ctx.refusal(now) is None,
        last == dispute_window_end(ctx.event.end_date),
    ensures
        ctx.refusal(last) is None,
        ctx.appeal_result(last) == ctx.appeal_result(now),
{
}

/// One tick after the dispute window a dispute is refused as late, where it
/// would have been accepted within the window.
pub proof fn lemma_appeal_refused_after_window(ctx: AppealResult, now: i64, later: i64)
    requires
        ctx.refusal(now) is None,
        later > dispute_window_end(ctx.event.end_date),
    ensures
        ctx.refusal(later) == Some(ProgramError::AppellationDeadlinePassed),
{
}

/// Settlement and dispute exclude each other in time: at no moment are both
/// accepted for the same event.
pub proof fn lemma_claim_follows_dispute_window(
    claim: ClaimEventReward,
    appeal: AppealResult,
    now: i64,
)
    requires
        claim.event.end_date == appeal.event.end_date,
    ensures
        !(claim.refusal(now) is None && appeal.refusal(now) is None),
{
}

/// A forfeited stake is gone for good: after a dispute that made the creator
/// forfeit, the event holds no stake, so that no later dispute forfeits and
/// no settlement releases anything.
pub proof fn lemma_forfeiture_is_final(ctx: AppealResult, event_id: u128, now: i64)
    requires
        ctx.refusal(now) is None,
        ctx.credible(),
    ensures
        ctx.after_appeal(event_id, now).event.stake == 0,
        ctx.after_appeal(event_id, now).forfeited() == 0,
{
}

/// An event is either canceled or completed, never both: once it is
/// canceled no outcome is declared, and once an outcome is declared it is not
/// canceled, whoever asks and whenever.
pub proof fn lemma_canceled_or_completed(
    event: Event,
    first: Pubkey,
    second: Pubkey,
    result: u8,
    now: i64,
    later: i64,
)
    ensures
        (CancelEvent { sender: first, event }).refusal(now) is None ==> (CompleteEvent {
            authority: second,
            event: Event { canceled: true, ..event },
        }).refusal(result, later) is Some,
        (CompleteEvent { authority: first, event }).refusal(result, now) is None ==> (CancelEvent {
            sender: second,
            event: Event { result: Some(result), ..event },
        }).refusal(later) is Some,
{
}

/// An event that was canceled or completed is changed no more: both happen
/// after the end date, and from the start date on every change is refused.
pub proof fn lemma_closed_event_is_final(
    event: Event,
    sender: Pubkey,
    authority: Pubkey,
    result: u8,
    now: i64,
    later: i64,
)
    requires
        event.wf(),
        now <= later,
        (CancelEvent { sender, event }).refusal(now) is None || (CompleteEvent {
            authority: sender,
            event,
        }).refusal(result, now) is None,
    ensures
        change_refusal(authority, Event { canceled: true, ..event }, later) is Some,
        change_refusal(authority, Event { result: Some(result), ..event }, later) is Some,
{
}

} // verus!
