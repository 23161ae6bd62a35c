use vstd::prelude::*;
use crate::instruction::{
    build_mint_to, key_views, mint_to_view, token_program_id, Instruction,
};
use crate::pubkey::Pubkey;
use crate::state::{LedgerError, PoolError};

verus! {

/// What a request to issue tokens names.
#[derive(Clone, Copy, Debug, PartialEq, Eq)]
pub struct TokenMintToParams {
    pub mint: Pubkey,
    pub account: Pubkey,
    pub owner: Pubkey,
    pub token_program: Pubkey,
    pub amount: u64,
}

/// How a request to another program ended.
#[derive(Clone, Copy, Debug, PartialEq, Eq, Structural)]
pub enum InvokeOutcome {
    Done,
    Failed,
}

/// The request that issues `params.amount` units of the mint to the
/// account, signed by the owner and by no one else. Where the program named is not the token
/// program no request can be built, and the issue has failed before
/// anything was asked of anyone.
pub fn spl_token_mint_to(params: TokenMintToParams) -> (request: Result<Instruction, LedgerError>)
    ensures
        params.token_program@ == token_program_id() ==> request.is_ok() && request.unwrap()@
            == mint_to_view(
            params.token_program@,
            params.mint@,
            params.account@,
            params.owner@,
            Seq::empty(),
            params.amount,
        ),
        params.token_program@ != token_program_id() ==> request == Err::<Instruction, LedgerError>(
            LedgerError::Pool(PoolError::TokenMintToFailed),
        ),
{
    let signers: Vec<Pubkey> = Vec::new();
    let built = build_mint_to(
        params.token_program,
        params.mint,
        params.account,
        params.owner,
        &signers,
        params.amount,
    );
    assert(key_views(signers@) =~= Seq::<Seq<u8>>::empty());
    match built {
        Some(parts) => Ok(Instruction::from_parts(parts)),
        None => Err(LedgerError::Pool(PoolError::TokenMintToFailed)),
    }
}

/// What the ledger makes of the end of an issuing request: a failure,
/// whatever its cause, is reported as the ledger's own.
pub fn mint_to_result(outcome: InvokeOutcome) -> (result: Result<(), LedgerError>)
    ensures
        outcome == InvokeOutcome::Done ==> result.is_ok(),
        outcome == InvokeOutcome::Failed ==> result == Err::<(), LedgerError>(
            LedgerError::Pool(PoolError::TokenMintToFailed),
        ),
{
    match outcome {
        InvokeOutcome::Done => Ok(()),
        InvokeOutcome::Failed => Err(LedgerError::Pool(PoolError::TokenMintToFailed)),
    }
}

} // verus!
