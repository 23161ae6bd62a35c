use vstd::prelude::*;
use crate::pubkey::Pubkey;
use crate::publish::PublishAccounts;
use crate::state::{BreedData, Pool, WalletData};

verus! {

/// What creating a pool works on: the authority that creates it, the
/// record to fill, and the seed that makes the pool unique.
#[derive(Clone, Copy, Debug, PartialEq, Eq)]
pub struct InitPool {
    pub owner: Pubkey,
    pub pool: Pool,
    pub rand: Pubkey,
}

/// What creating a wallet's ledger works on: the wallet and the record to
/// fill.
#[derive(Clone, Copy, Debug, PartialEq, Eq)]
pub struct InitWallet {
    pub owner: Pubkey,
    pub pool: WalletData,
}

/// What starting a session works on.
#[derive(Clone, Debug, PartialEq, Eq)]
pub struct Breed {
    /// The signer, who pays and holds every authority over the new asset.
    pub owner: Pubkey,
    /// The pool's parameters.
    pub pool: Pool,
    /// The address of the pool's record, named as first creator.
    pub pool_key: Pubkey,
    /// The session's record.
    pub breed_data: BreedData,
    /// The ledger of the signer's wallet.
    pub wallet_data: WalletData,
    /// The address of the metadata record to create.
    pub metadata: Pubkey,
    /// The mint to issue from.
    pub mint: Pubkey,
    /// The mint's stored form.
    pub mint_data: Vec<u8>,
    /// The account that receives the issued unit.
    pub token_account: Pubkey,
    /// The address of the master edition to create.
    pub master_edition: Pubkey,
    /// The registry.
    pub token_metadata_program: Pubkey,
    /// The token program.
    pub token_program: Pubkey,
    /// The time as the host's clock gives it, in seconds.
    pub clock: i64,
}

/// What claiming a session works on.
#[derive(Clone, Debug, PartialEq, Eq)]
pub struct Claim {
    /// The signer, who pays and holds every authority over the new asset.
    pub owner: Pubkey,
    /// The pool's parameters.
    pub pool: Pool,
    /// The address of the pool's record, named as first creator.
    pub pool_key: Pubkey,
    /// The session's record.
    pub breed_data: BreedData,
    /// The token program.
    pub token_program: Pubkey,
    /// The mint to issue the matured asset from.
    pub mint: Pubkey,
    /// That mint's stored form.
    pub mint_data: Vec<u8>,
    /// The mint that the caller presents as the one issued at the start.
    pub breed_mint: Pubkey,
    /// The account that receives the issued unit.
    pub token_account: Pubkey,
    /// The address of the metadata record to create.
    pub metadata: Pubkey,
    /// The address of the master edition to create.
    pub master_edition: Pubkey,
    /// The registry.
    pub token_metadata_program: Pubkey,
    /// The time as the host's clock gives it, in seconds.
    pub clock: i64,
}

impl Breed {
    /// The accounts that the publication of the new asset names.
    pub open spec fn spec_publish_accounts(&self) -> PublishAccounts {
        PublishAccounts {
            owner: self.owner,
            pool: self.pool_key,
            mint: self.mint,
            token_account: self.token_account,
            metadata: self.metadata,
            master_edition: self.master_edition,
            token_metadata_program: self.token_metadata_program,
            token_program: self.token_program,
        }
    }

    /// The accounts that the publication of the new asset names.
    #[verifier::when_used_as_spec(spec_publish_accounts)]
    pub fn publish_accounts(&self) -> (accounts: PublishAccounts)
        ensures
            accounts == self.spec_publish_accounts(),
    {
        PublishAccounts {
            owner: self.owner,
            pool: self.pool_key,
            mint: self.mint,
            token_account: self.token_account,
            metadata: self.metadata,
            master_edition: self.master_edition,
            token_metadata_program: self.token_metadata_program,
            token_program: self.token_program,
        }
    }
}

impl Claim {
    /// The accounts that the publication of the matured asset names.
    pub open spec fn spec_publish_accounts(&self) -> PublishAccounts {
        PublishAccounts {
            owner: self.owner,
            pool: self.pool_key,
            mint: self.mint,
            token_account: self.token_account,
            metadata: self.metadata,
            master_edition: self.master_edition,
            token_metadata_program: self.token_metadata_program,
            token_program: self.token_program,
        }
    }

    /// The accounts that the publication of the matured asset names.
    #[verifier::when_used_as_spec(spec_publish_accounts)]
    pub fn publish_accounts(&self) -> (accounts: PublishAccounts)
        ensures
            accounts == self.spec_publish_accounts(),
    {
        PublishAccounts {
            owner: self.owner,
            pool: self.pool_key,
            mint: self.mint,
            token_account: self.token_account,
            metadata: self.metadata,
            master_edition: self.master_edition,
            token_metadata_program: self.token_metadata_program,
            token_program: self.token_program,
        }
    }
}

} // verus!
