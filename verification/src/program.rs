use vstd::prelude::*;
use crate::context::{Breed, Claim, InitPool, InitWallet};
use crate::mint::{check_fresh, mint_data_valid, mint_is_fresh, mint_state_of, read_mint};
use crate::publish::{
    mint_and_publish, publication_view, publish_refusal, Publication, PublishState,
};
use crate::state::{
    lock_elapsed, BreedData, LedgerError, Metadata, Pool, PoolError, WalletData, BREED_MYTHIC,
    BREED_MYTHIC_PHEONIX, BREED_NONE,
};

verus! {

/// Fills the pool's record with the creating authority, the seed and the
/// given parameters, whatever their values.
pub fn init_pool(
    ctx: &mut InitPool,
    _bump: u8,
    _mythic_period: i64,
    _baby_pheonix_period: i64,
    _mythic_pheonix_period: i64,
    _mythic_amount: u64,
    _baby_pheonix_amount: u64,
    _mythic_pheonix_amount: u64,
) -> (done: Result<(), LedgerError>)
    ensures
        done.is_ok(),
        *final(ctx) == (InitPool {
            pool: Pool {
                owner: old(ctx).owner,
                rand: old(ctx).rand,
                mythic_period: _mythic_period,
                baby_pheonix_period: _baby_pheonix_period,
                mythic_pheonix_period: _mythic_pheonix_period,
                mythic_amount: _mythic_amount,
                baby_pheonix_amount: _baby_pheonix_amount,
                mythic_pheonix_amount: _mythic_pheonix_amount,
                bump: _bump,
            },
            ..*old(ctx)
        }),
{
    ctx.pool.owner = ctx.owner;
    ctx.pool.mythic_period = _mythic_period;
    ctx.pool.baby_pheonix_period = _baby_pheonix_period;
    ctx.pool.mythic_pheonix_period = _mythic_pheonix_period;
    ctx.pool.mythic_amount = _mythic_amount;
    ctx.pool.baby_pheonix_amount = _baby_pheonix_amount;
    ctx.pool.mythic_pheonix_amount = _mythic_pheonix_amount;
    ctx.pool.bump = _bump;
    ctx.pool.rand = ctx.rand;
    Ok(())
}

/// Fills the wallet's ledger with its owner and the given counts, whatever
/// their values.
pub fn init_wallet(
    ctx: &mut InitWallet,
    _evolving_amount: u16,
    _exalated_breeding_amount: u8,
) -> (done: Result<(), LedgerError>)
    ensures
        done.is_ok(),
        *final(ctx) == (InitWallet {
            pool: WalletData {
                wallet: old(ctx).owner,
                evolving_amount: _evolving_amount,
                exalated_breeding_amount: _exalated_breeding_amount,
            },
            ..*old(ctx)
        }),
{
    ctx.pool.wallet = ctx.owner;
    ctx.pool.evolving_amount = _evolving_amount;
    ctx.pool.exalated_breeding_amount = _exalated_breeding_amount;
    Ok(())
}

/// The wallet's ledger after a session of category `b_type` was started.
pub open spec fn counted(wallet: WalletData, b_type: u8) -> WalletData {
    if b_type == BREED_MYTHIC {
        WalletData { evolving_amount: (wallet.evolving_amount + 1) as u16, ..wallet }
    } else if b_type == BREED_MYTHIC_PHEONIX {
        WalletData {
            exalated_breeding_amount: (wallet.exalated_breeding_amount + 1) as u8,
            ..wallet
        }
    } else {
        wallet
    }
}

/// Whether the counter that `b_type` is counted by is at the top of its
/// range.
pub open spec fn counter_full(wallet: WalletData, b_type: u8) -> bool {
    ||| b_type == BREED_MYTHIC && wallet.evolving_amount == u16::MAX
    ||| b_type == BREED_MYTHIC_PHEONIX && wallet.exalated_breeding_amount == u8::MAX
}

/// Why a session cannot be started, if it cannot: the first of these that
/// holds. The mint's stored form is malformed; the mint is not fresh; the
/// wallet's counter for the category is full; the publication cannot be
/// prepared.
///
/// No category is refused. A category that the pool does not know, 0 or 4
/// and above, is counted by no counter. A session started with category 0
/// carries no category from the start, so no claim of it is admitted; the
/// claim of a session of category 4 or above waits for nothing.
pub open spec fn breed_refusal(ctx: Breed, b_type: u8, data: Metadata) -> Option<LedgerError> {
    if !mint_data_valid(ctx.mint_data@) {
        Some(LedgerError::InvalidAccountData)
    } else if !mint_is_fresh(mint_state_of(ctx.mint_data@)) {
        Some(LedgerError::Pool(PoolError::InvalidMintAccount))
    } else if counter_full(ctx.wallet_data, b_type) {
        Some(LedgerError::Pool(PoolError::ExceedAmount))
    } else {
        publish_refusal(ctx.spec_publish_accounts(), data)
    }
}

/// The records after a session of category `b_type` was started: the
/// session is bound to the mint and stamped with the time, and the wallet
/// has counted it.
pub open spec fn breed_effect(ctx: Breed, b_type: u8) -> Breed {
    Breed {
        breed_data: BreedData { b_time: ctx.clock, b_type, mint: ctx.mint },
        wallet_data: counted(ctx.wallet_data, b_type),
        ..ctx
    }
}

/// Starts a session of category `_b_type` for the mint of `ctx`, and
/// prepares the publication of the token that stands for it. Where the
/// session is refused, no record changes. Every category is admitted,
/// known to the pool or not; only categories 1 and 3 are counted.
pub fn breed(ctx: &mut Breed, _b_type: u8, _data: &Metadata) -> (started: Result<
    Publication,
    LedgerError,
>)
    ensures
        match breed_refusal(*old(ctx), _b_type, *_data) {
            Some(refusal) => started == Err::<Publication, LedgerError>(refusal) && *final(ctx)
                == *old(ctx),
            None => started.is_ok() && started.unwrap()@ == publication_view(
                old(ctx).spec_publish_accounts(),
                *_data,
            ) && *final(ctx) == breed_effect(*old(ctx), _b_type),
        },
{
    let mint = match read_mint(ctx.mint_data.as_slice()) {
        Some(mint) => mint,
        None => {
            return Err(LedgerError::InvalidAccountData);
        },
    };
    if let Err(refusal) = check_fresh(&mint) {
        return Err(LedgerError::Pool(refusal));
    }
    let mut wallet_data = ctx.wallet_data;
    if _b_type == BREED_MYTHIC {
        if let Err(refusal) = wallet_data.increment_evolving() {
            return Err(LedgerError::Pool(refusal));
        }
    }
    if _b_type == BREED_MYTHIC_PHEONIX {
        if let Err(refusal) = wallet_data.increment_exalated() {
            return Err(LedgerError::Pool(refusal));
        }
    }
    let accounts = ctx.publish_accounts();
    let publication = mint_and_publish(&accounts, _data)?;
    ctx.breed_data = BreedData { b_time: ctx.clock, b_type: _b_type, mint: ctx.mint };
    ctx.wallet_data = wallet_data;
    Ok(publication)
}

/// Why a session cannot be claimed, if it cannot: the first of these that
/// holds. The mint presented is not the one bound to the session; the
/// session has been claimed already; its wait is not over; the new mint's
/// stored form is malformed; the new mint is not fresh; the publication
/// cannot be prepared. A session of category 0 counts as claimed already,
/// however it came to be; one of category 4 or above has no wait.
pub open spec fn claim_refusal(ctx: Claim, data: Metadata) -> Option<LedgerError> {
    if ctx.breed_data.mint@ != ctx.breed_mint@ {
        Some(LedgerError::Pool(PoolError::InvalidMintAccount))
    } else if ctx.breed_data.b_type == BREED_NONE {
        Some(LedgerError::Pool(PoolError::InvalidMintAccount))
    } else if !lock_elapsed(ctx.pool, ctx.breed_data, ctx.clock) {
        Some(LedgerError::Pool(PoolError::InvalidTime))
    } else if !mint_data_valid(ctx.mint_data@) {
        Some(LedgerError::InvalidAccountData)
    } else if !mint_is_fresh(mint_state_of(ctx.mint_data@)) {
        Some(LedgerError::Pool(PoolError::InvalidMintAccount))
    } else {
        publish_refusal(ctx.spec_publish_accounts(), data)
    }
}

/// Admits the claim of the session of `ctx` and prepares the publication
/// of the matured asset. No record changes here: the session is consumed
/// by [`claim_settle`] once the publication has gone through. A session of
/// a category that the pool does not know, 4 and above, is admitted at
/// any time.
pub fn claim(ctx: &Claim, _data: &Metadata) -> (admitted: Result<Publication, LedgerError>)
    ensures
        match claim_refusal(*ctx, *_data) {
            Some(refusal) => admitted == Err::<Publication, LedgerError>(refusal),
            None => admitted.is_ok() && admitted.unwrap()@ == publication_view(
                ctx.spec_publish_accounts(),
                *_data,
            ),
        },
{
    if !ctx.breed_data.mint.same(&ctx.breed_mint) {
        return Err(LedgerError::Pool(PoolError::InvalidMintAccount));
    }
    if ctx.breed_data.b_type == BREED_NONE {
        return Err(LedgerError::Pool(PoolError::InvalidMintAccount));
    }
    if !ctx.pool.lock_elapsed(&ctx.breed_data, ctx.clock) {
        return Err(LedgerError::Pool(PoolError::InvalidTime));
    }
    let mint = match read_mint(ctx.mint_data.as_slice()) {
        Some(mint) => mint,
        None => {
            return Err(LedgerError::InvalidAccountData);
        },
    };
    if let Err(refusal) = check_fresh(&mint) {
        return Err(LedgerError::Pool(refusal));
    }
    let accounts = ctx.publish_accounts();
    mint_and_publish(&accounts, _data)
}

/// The records after the claimed session was consumed.
pub open spec fn claim_effect(ctx: Claim) -> Claim {
    Claim { breed_data: BreedData { b_time: 0, b_type: BREED_NONE, ..ctx.breed_data }, ..ctx }
}

/// How a claim ends whose publication is in `state`: as it was refused,
/// where it was; else as the publication ended; `None` while a request of
/// the publication is pending.
pub open spec fn claim_ending(ctx: Claim, data: Metadata, state: PublishState) -> Option<
    Result<(), LedgerError>,
> {
    match claim_refusal(ctx, data) {
        Some(refusal) => Some(Err(refusal)),
        None => match state {
            PublishState::Pending(_) => None,
            PublishState::Published => Some(Ok(())),
            PublishState::Failed(failure) => Some(Err(failure)),
        },
    }
}

/// Ends the claim of the session of `ctx` whose publication is in `state`.
/// The session is consumed if and only if the claim is one that [`claim`]
/// admits and its publication has gone through; in every other case no
/// record changes.
pub fn claim_settle(ctx: &mut Claim, _data: &Metadata, state: PublishState) -> (ended: Option<
    Result<(), LedgerError>,
>)
    ensures
        ended == claim_ending(*old(ctx), *_data, state),
        ended == Some(Ok::<(), LedgerError>(())) ==> *final(ctx) == claim_effect(*old(ctx)),
        ended != Some(Ok::<(), LedgerError>(())) ==> *final(ctx) == *old(ctx),
{
    if let Err(refusal) = claim(ctx, _data) {
        return Some(Err(refusal));
    }
    if let PublishState::Published = state {
        ctx.breed_data.consume();
    }
    state.result()
}

} // verus!
