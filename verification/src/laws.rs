use vstd::prelude::*;
use crate::context::{Breed, Claim};
use crate::mint::{mint_data_valid, mint_is_fresh, mint_state_of};
use crate::program::{
    breed_effect, breed_refusal, claim_effect, claim_refusal, counted, counter_full,
};
use crate::pubkey::Pubkey;
use crate::publish::{publish_advance, publish_refusal, publish_run, PublishState, PublishStep};
use crate::state::{
    lock_elapsed, BreedData, LedgerError, Metadata, Pool, PoolError, WalletData,
    BREED_BABY_PHEONIX, BREED_MYTHIC, BREED_MYTHIC_PHEONIX, BREED_NONE,
};
use crate::utils::InvokeOutcome;

verus! {

/// No session is started for a mint that has decimals or has issued
/// anything: the start is refused as an invalid mint account.
pub proof fn law_breed_needs_fresh_mint(ctx: Breed, b_type: u8, data: Metadata)
    requires
        mint_data_valid(ctx.mint_data@),
        mint_state_of(ctx.mint_data@).decimals != 0 || mint_state_of(ctx.mint_data@).supply != 0,
    ensures
        breed_refusal(ctx, b_type, data) == Some(
            LedgerError::Pool(PoolError::InvalidMintAccount),
        ),
{
}

/// Once the wait of a session is over, it is not claimed into a mint that
/// has decimals or has issued anything: the claim is refused as an invalid
/// mint account.
pub proof fn law_claim_needs_fresh_mint(ctx: Claim, data: Metadata)
    requires
        mint_data_valid(ctx.mint_data@),
        mint_state_of(ctx.mint_data@).decimals != 0 || mint_state_of(ctx.mint_data@).supply != 0,
        lock_elapsed(ctx.pool, ctx.breed_data, ctx.clock),
    ensures
        claim_refusal(ctx, data) == Some(LedgerError::Pool(PoolError::InvalidMintAccount)),
{
}

/// A session of a category with a wait, presented with its own mint, is
/// refused as too early at every time before its start plus the pool's
/// period for the category, and at every later time is admitted where the
/// new mint is fresh and the publication can be prepared.
pub proof fn law_time_lock(ctx: Claim, data: Metadata)
    requires
        ctx.breed_data.mint@ == ctx.breed_mint@,
        ctx.breed_data.b_type == BREED_MYTHIC || ctx.breed_data.b_type == BREED_BABY_PHEONIX
            || ctx.breed_data.b_type == BREED_MYTHIC_PHEONIX,
    ensures
        ({
            let period = if ctx.breed_data.b_type == BREED_MYTHIC {
                ctx.pool.mythic_period
            } else if ctx.breed_data.b_type == BREED_BABY_PHEONIX {
                ctx.pool.baby_pheonix_period
            } else {
                ctx.pool.mythic_pheonix_period
            };
            &&& ctx.clock < ctx.breed_data.b_time + period ==> claim_refusal(ctx, data) == Some(
                LedgerError::Pool(PoolError::InvalidTime),
            )
            &&& ctx.clock >= ctx.breed_data.b_time + period && mint_data_valid(ctx.mint_data@)
                && mint_is_fresh(mint_state_of(ctx.mint_data@)) && publish_refusal(
                ctx.spec_publish_accounts(),
                data,
            ).is_none() ==> claim_refusal(ctx, data).is_none()
        }),
{
}

/// A consumed session has neither category nor start time, and no later
/// claim of it is admitted, whatever mint, time or metadata it comes with.
pub proof fn law_single_consumption(ctx: Claim, later: Claim, data: Metadata)
    requires
        later.breed_data == claim_effect(ctx).breed_data,
    ensures
        claim_effect(ctx).breed_data.is_consumed(),
        claim_effect(ctx).breed_data.mint == ctx.breed_data.mint,
        claim_refusal(later, data) == Some(LedgerError::Pool(PoolError::InvalidMintAccount)),
{
}

/// Starting a session of category 1 adds exactly one to the count of
/// evolutions, and of category 3 exactly one to the count of exalted
/// breedings; no other category changes a counter, and neither category
/// changes the other's.
pub proof fn law_counters(ctx: Breed, b_type: u8, data: Metadata)
    requires
        breed_refusal(ctx, b_type, data).is_none(),
    ensures
        breed_effect(ctx, b_type).wallet_data.wallet == ctx.wallet_data.wallet,
        breed_effect(ctx, b_type).wallet_data.evolving_amount == ctx.wallet_data.evolving_amount
            + (if b_type == 1 {
            1int
        } else {
            0int
        }),
        breed_effect(ctx, b_type).wallet_data.exalated_breeding_amount
            == ctx.wallet_data.exalated_breeding_amount + (if b_type == 3 {
            1int
        } else {
            0int
        }),
{
    assert(!counter_full(ctx.wallet_data, b_type));
}

/// Neither starting nor consuming a session changes the pool.
pub proof fn law_pool_unchanged(breed: Breed, b_type: u8, claim: Claim)
    ensures
        breed_effect(breed, b_type).pool == breed.pool,
        breed_effect(breed, b_type).pool_key == breed.pool_key,
        claim_effect(claim).pool == claim.pool,
        claim_effect(claim).pool_key == claim.pool_key,
{
}

/// A claim that presents another mint than the one bound to the session is
/// refused as an invalid mint account, at any time.
pub proof fn law_binding(ctx: Claim, data: Metadata)
    requires
        ctx.breed_data.mint@ != ctx.breed_mint@,
    ensures
        claim_refusal(ctx, data) == Some(LedgerError::Pool(PoolError::InvalidMintAccount)),
{
}

/// A publication that has ended takes no notice of further outcomes.
pub proof fn law_publish_ended_stays(state: PublishState, outcomes: Seq<InvokeOutcome>)
    requires
        !(state is Pending),
    ensures
        publish_run(state, outcomes) == state,
    decreases outcomes.len(),
{
    if outcomes.len() > 0 {
        law_publish_ended_stays(state, outcomes.drop_first());
    }
}

/// A publication goes through when its four requests do.
pub proof fn law_publish_completes(outcomes: Seq<InvokeOutcome>)
    requires
        outcomes.len() >= 4,
        forall|i: int| 0 <= i < 4 ==> outcomes[i] == InvokeOutcome::Done,
    ensures
        publish_run(PublishState::Pending(PublishStep::MintTo), outcomes) == PublishState::Published,
{
    let s0 = PublishState::Pending(PublishStep::MintTo);
    let o1 = outcomes.drop_first();
    let o2 = o1.drop_first();
    let o3 = o2.drop_first();
    let o4 = o3.drop_first();
    assert(o1[0] == outcomes[1] && o2[0] == outcomes[2] && o3[0] == outcomes[3]);
    let s1 = publish_advance(s0, outcomes[0]);
    let s2 = publish_advance(s1, o1[0]);
    let s3 = publish_advance(s2, o2[0]);
    let s4 = publish_advance(s3, o3[0]);
    assert(publish_run(s0, outcomes) == publish_run(s1, o1));
    assert(publish_run(s1, o1) == publish_run(s2, o2));
    assert(publish_run(s2, o2) == publish_run(s3, o3));
    assert(publish_run(s3, o3) == publish_run(s4, o4));
    law_publish_ended_stays(s4, o4);
}

/// The first request that fails ends the publication: the issuing request
/// as a failed issue, a request to the registry as a failure there.
pub proof fn law_publish_stops_at_failure(outcomes: Seq<InvokeOutcome>, k: int)
    requires
        0 <= k < 4,
        k < outcomes.len(),
        outcomes[k] == InvokeOutcome::Failed,
        forall|i: int| 0 <= i < k ==> outcomes[i] == InvokeOutcome::Done,
    ensures
        publish_run(PublishState::Pending(PublishStep::MintTo), outcomes) == PublishState::Failed(
            if k == 0 {
                LedgerError::Pool(PoolError::TokenMintToFailed)
            } else {
                LedgerError::InvokeFailed
            },
        ),
{
    let s0 = PublishState::Pending(PublishStep::MintTo);
    let o1 = outcomes.drop_first();
    let s1 = publish_advance(s0, outcomes[0]);
    assert(publish_run(s0, outcomes) == publish_run(s1, o1));
    if k == 0 {
        law_publish_ended_stays(s1, o1);
    } else {
        let o2 = o1.drop_first();
        let s2 = publish_advance(s1, o1[0]);
        assert(o1[0] == outcomes[1]);
        assert(publish_run(s1, o1) == publish_run(s2, o2));
        if k == 1 {
            law_publish_ended_stays(s2, o2);
        } else {
            let o3 = o2.drop_first();
            let s3 = publish_advance(s2, o2[0]);
            assert(o2[0] == outcomes[2]);
            assert(publish_run(s2, o2) == publish_run(s3, o3));
            if k == 2 {
                law_publish_ended_stays(s3, o3);
            } else {
                let o4 = o3.drop_first();
                let s4 = publish_advance(s3, o3[0]);
                assert(o3[0] == outcomes[3]);
                assert(publish_run(s3, o3) == publish_run(s4, o4));
                law_publish_ended_stays(s4, o4);
            }
        }
    }
}

/// The records that the operations on one session of one wallet touch.
pub ghost struct Records {
    pub pool: Pool,
    pub wallet_data: WalletData,
    pub breed_data: BreedData,
}

/// One operation that went through, or was refused.
pub ghost enum RecordChange {
    /// A session of category `b_type` is started for `mint` at time `clock`.
    Started { b_type: u8, mint: Pubkey, clock: i64 },
    /// The session is consumed by a claim.
    Consumed,
}

/// The records after one operation: a start that the wallet's counter
/// refuses leaves them as they are.
pub open spec fn changed(records: Records, change: RecordChange) -> Records {
    match change {
        RecordChange::Started { b_type, mint, clock } => if counter_full(
            records.wallet_data,
            b_type,
        ) {
            records
        } else {
            Records {
                wallet_data: counted(records.wallet_data, b_type),
                breed_data: BreedData { b_time: clock, b_type, mint },
                ..records
            }
        },
        RecordChange::Consumed => Records {
            breed_data: BreedData { b_time: 0, b_type: BREED_NONE, ..records.breed_data },
            ..records
        },
    }
}

/// The records after a sequence of operations, in order.
pub open spec fn changed_by_all(records: Records, changes: Seq<RecordChange>) -> Records
    decreases changes.len(),
{
    if changes.len() == 0 {
        records
    } else {
        changed(changed_by_all(records, changes.drop_last()), changes.last())
    }
}

/// The records of a start.
pub open spec fn breed_records(ctx: Breed) -> Records {
    Records { pool: ctx.pool, wallet_data: ctx.wallet_data, breed_data: ctx.breed_data }
}

/// The records of a claim, beside the ledger of a wallet, which no claim
/// touches.
pub open spec fn claim_records(ctx: Claim, wallet_data: WalletData) -> Records {
    Records { pool: ctx.pool, wallet_data, breed_data: ctx.breed_data }
}

/// A start that goes through changes the records as [`changed`] says.
pub proof fn law_start_is_a_change(ctx: Breed, b_type: u8, data: Metadata)
    requires
        breed_refusal(ctx, b_type, data).is_none(),
    ensures
        breed_records(breed_effect(ctx, b_type)) == changed(
            breed_records(ctx),
            RecordChange::Started { b_type, mint: ctx.mint, clock: ctx.clock },
        ),
{
}

/// Consuming a session changes the records as [`changed`] says.
pub proof fn law_consume_is_a_change(ctx: Claim, wallet_data: WalletData)
    ensures
        claim_records(claim_effect(ctx), wallet_data) == changed(
            claim_records(ctx, wallet_data),
            RecordChange::Consumed,
        ),
{
}

/// No sequence of starts and claims changes any field of the pool.
pub proof fn law_pool_never_changes(records: Records, changes: Seq<RecordChange>)
    ensures
        changed_by_all(records, changes).pool == records.pool,
    decreases changes.len(),
{
    if changes.len() > 0 {
        law_pool_never_changes(records, changes.drop_last());
    }
}

/// Over any sequence of starts and claims neither counter of the wallet
/// falls, and the wallet stays the same wallet.
pub proof fn law_counters_never_fall(records: Records, changes: Seq<RecordChange>)
    ensures
        changed_by_all(records, changes).wallet_data.wallet == records.wallet_data.wallet,
        changed_by_all(records, changes).wallet_data.evolving_amount
            >= records.wallet_data.evolving_amount,
        changed_by_all(records, changes).wallet_data.exalated_breeding_amount
            >= records.wallet_data.exalated_breeding_amount,
    decreases changes.len(),
{
    if changes.len() > 0 {
        law_counters_never_fall(records, changes.drop_last());
    }
}

/// Whether a change is the start of a session that carries a category, or
/// is no start.
pub open spec fn starts_with_category(change: RecordChange) -> bool {
    match change {
        RecordChange::Started { b_type, .. } => b_type != BREED_NONE,
        RecordChange::Consumed => true,
    }
}

/// Over any sequence of claims and of starts that carry a category, a
/// session record stays either active or consumed.
pub proof fn law_session_stays_well_formed(records: Records, changes: Seq<RecordChange>)
    requires
        records.breed_data.is_well_formed(),
        forall|i: int| 0 <= i < changes.len() ==> starts_with_category(#[trigger] changes[i]),
    ensures
        changed_by_all(records, changes).breed_data.is_well_formed(),
    decreases changes.len(),
{
    if changes.len() > 0 {
        let earlier = changes.drop_last();
        assert forall|i: int| 0 <= i < earlier.len() implies starts_with_category(
            #[trigger] earlier[i],
        ) by {
            assert(earlier[i] == changes[i]);
        }
        law_session_stays_well_formed(records, earlier);
        assert(starts_with_category(changes[changes.len() - 1]));
    }
}

/// A session that was started with a category is active, bound to the
/// mint and stamped with the time.
pub proof fn law_started_session_is_active(ctx: Breed, b_type: u8, data: Metadata)
    requires
        breed_refusal(ctx, b_type, data).is_none(),
        b_type != BREED_NONE,
    ensures
        breed_effect(ctx, b_type).breed_data.is_active(),
        breed_effect(ctx, b_type).breed_data.mint == ctx.mint,
        breed_effect(ctx, b_type).breed_data.b_time == ctx.clock,
{
}

/// A session that was started without a category is never claimed.
pub proof fn law_session_without_category_is_unclaimable(ctx: Breed, later: Claim, data: Metadata)
    requires
        later.breed_data == breed_effect(ctx, BREED_NONE).breed_data,
    ensures
        claim_refusal(later, data) == Some(LedgerError::Pool(PoolError::InvalidMintAccount)),
{
}

/// Once a session is bound to a mint, the record is never bound to
/// another: a claim keeps the binding, and only a new start replaces it.
pub proof fn law_consuming_keeps_binding(records: Records)
    ensures
        changed(records, RecordChange::Consumed).breed_data.mint == records.breed_data.mint,
        changed(records, RecordChange::Consumed).breed_data.is_consumed(),
        changed(records, RecordChange::Consumed).wallet_data == records.wallet_data,
{
}

} // verus!
