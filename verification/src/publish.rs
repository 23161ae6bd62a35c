use vstd::prelude::*;
use vstd::utf8::encode_utf8;
use crate::instruction::{
    build_create_metadata, build_master_edition, build_update_metadata, create_metadata_accounts_view,
    create_metadata_data, creator_views, fits_length_prefix, master_edition_accounts_view,
    master_edition_data, mint_to_view, readonly, token_program_id, update_metadata_data, writable,
    CreatorView, Instruction, InstructionView,
};
use crate::pubkey::Pubkey;
use crate::state::{Creator, LedgerError, Metadata, PoolError};
use crate::utils::{mint_to_result, spl_token_mint_to, InvokeOutcome, TokenMintToParams};

verus! {

/// The quantity that every publication issues.
pub const ISSUED_AMOUNT: u64 = 1;

/// The accounts that one publication names.
#[derive(Clone, Copy, Debug, PartialEq, Eq)]
pub struct PublishAccounts {
    pub owner: Pubkey,
    pub pool: Pubkey,
    pub mint: Pubkey,
    pub token_account: Pubkey,
    pub metadata: Pubkey,
    pub master_edition: Pubkey,
    pub token_metadata_program: Pubkey,
    pub token_program: Pubkey,
}

/// The four requests of a publication, in the order in which they are made.
#[derive(Clone, Debug, PartialEq, Eq)]
pub struct Publication {
    pub mint_to: Instruction,
    pub create_metadata: Instruction,
    pub create_master_edition: Instruction,
    pub update_metadata: Instruction,
}

/// The four requests of a publication as plain values.
pub ghost struct PublicationView {
    pub mint_to: InstructionView,
    pub create_metadata: InstructionView,
    pub create_master_edition: InstructionView,
    pub update_metadata: InstructionView,
}

impl View for Publication {
    type V = PublicationView;

    open spec fn view(&self) -> PublicationView {
        PublicationView {
            mint_to: self.mint_to@,
            create_metadata: self.create_metadata@,
            create_master_edition: self.create_master_edition@,
            update_metadata: self.update_metadata@,
        }
    }
}

/// The creators that the registry is told of: first the pool, verified and
/// without a share, then the given creators in their order, each unverified
/// and with its own share.
pub open spec fn published_creators(pool: Seq<u8>, creators: Seq<Creator>) -> Seq<CreatorView> {
    seq![CreatorView { address: pool, verified: true, share: 0 }] + creators.map_values(
        |c: Creator| CreatorView { address: c.address@, verified: false, share: c.share },
    )
}

/// Builds the list of creators for the registry.
pub fn publish_creators(pool: Pubkey, creators: &Vec<Creator>) -> (listed: Vec<Creator>)
    ensures
        creator_views(listed@) == published_creators(pool@, creators@),
        listed@.len() == creators@.len() + 1,
{
    let mut listed: Vec<Creator> = Vec::new();
    listed.push(Creator { address: pool, verified: true, share: 0 });
    let mut i: usize = 0;
    while i < creators.len()
        invariant
            i <= creators.len(),
            listed@.len() == i + 1,
            listed@[0]@ == (CreatorView { address: pool@, verified: true, share: 0 }),
            forall|j: int|
                0 <= j < i ==> (#[trigger] listed@[j + 1])@ == (CreatorView {
                    address: creators@[j].address@,
                    verified: false,
                    share: creators@[j].share,
                }),
        decreases creators.len() - i,
    {
        let given = &creators[i];
        listed.push(Creator { address: given.address, verified: false, share: given.share });
        i += 1;
    }
    proof {
        let built = creator_views(listed@);
        let wanted = published_creators(pool@, creators@);
        assert(built.len() == wanted.len());
        assert forall|k: int| 0 <= k < built.len() implies built[k] == wanted[k] by {
            if k > 0 {
                assert(listed@[(k - 1) + 1]@ == wanted[k]);
            }
        }
        assert(built =~= wanted);
    }
    listed
}

/// Whether the registry's encoding can carry the descriptive fields and
/// the creators with the pool's entry before them.
pub open spec fn metadata_fits(data: Metadata) -> bool {
    &&& fits_length_prefix(encode_utf8(data.name@).len())
    &&& fits_length_prefix(encode_utf8(data.symbol@).len())
    &&& fits_length_prefix(encode_utf8(data.uri@).len())
    &&& fits_length_prefix(data.creators@.len() + 1)
}

/// Why no publication can be prepared, if none can: the issuing request
/// cannot be built, which is a failed issue, or the registry's encoding
/// cannot carry the metadata.
pub open spec fn publish_refusal(accounts: PublishAccounts, data: Metadata) -> Option<LedgerError> {
    if accounts.token_program@ != token_program_id() {
        Some(LedgerError::Pool(PoolError::TokenMintToFailed))
    } else if !metadata_fits(data) {
        Some(LedgerError::Pool(PoolError::InvalidMetadata))
    } else {
        None
    }
}

/// The four requests that publish `data` for the mint of `accounts`: one
/// unit is issued to the token account on the owner's signature alone;
/// the metadata record is created with the creators present and the owner
/// as mint authority, payer and signing update authority; the master
/// edition is created without a largest supply; and the record is
/// updated, with neither new fields nor a new authority, to say that the
/// primary sale has happened.
pub open spec fn publication_view(accounts: PublishAccounts, data: Metadata) -> PublicationView {
    PublicationView {
        mint_to: mint_to_view(
            accounts.token_program@,
            accounts.mint@,
            accounts.token_account@,
            accounts.owner@,
            Seq::empty(),
            ISSUED_AMOUNT,
        ),
        create_metadata: InstructionView {
            program_id: accounts.token_metadata_program@,
            accounts: create_metadata_accounts_view(
                accounts.metadata@,
                accounts.mint@,
                accounts.owner@,
                accounts.owner@,
                accounts.owner@,
                true,
            ),
            data: create_metadata_data(
                data.name@,
                data.symbol@,
                data.uri@,
                Some(published_creators(accounts.pool@, data.creators@)),
                data.seller_fee_basis_points,
                data.is_mutable,
            ),
        },
        create_master_edition: InstructionView {
            program_id: accounts.token_metadata_program@,
            accounts: master_edition_accounts_view(
                accounts.master_edition@,
                accounts.mint@,
                accounts.owner@,
                accounts.owner@,
                accounts.metadata@,
                accounts.owner@,
            ),
            data: master_edition_data(None),
        },
        update_metadata: InstructionView {
            program_id: accounts.token_metadata_program@,
            accounts: seq![writable(accounts.metadata@, false), readonly(accounts.owner@, true)],
            data: update_metadata_data(None, None, Some(true)),
        },
    }
}

/// Whether a text is short enough for the registry's encoding.
fn text_fits(text: &String) -> (fits: bool)
    ensures
        fits == fits_length_prefix(encode_utf8(text@).len()),
{
    text.as_str().as_bytes().len() <= u32::MAX as usize
}

/// Prepares the publication of `data` for the mint of `accounts`. Nothing
/// is requested yet: the requests are made one by one as
/// [`PublishState`] directs.
pub fn mint_and_publish(accounts: &PublishAccounts, data: &Metadata) -> (prepared: Result<
    Publication,
    LedgerError,
>)
    ensures
        match publish_refusal(*accounts, *data) {
            Some(refusal) => prepared == Err::<Publication, LedgerError>(refusal),
            None => prepared.is_ok() && prepared.unwrap()@ == publication_view(*accounts, *data),
        },
{
    let mint_to = spl_token_mint_to(
        TokenMintToParams {
            mint: accounts.mint,
            account: accounts.token_account,
            owner: accounts.owner,
            token_program: accounts.token_program,
            amount: ISSUED_AMOUNT,
        },
    )?;
    if !text_fits(&data.name) || !text_fits(&data.symbol) || !text_fits(&data.uri)
        || data.creators.len() >= u32::MAX as usize {
        return Err(LedgerError::Pool(PoolError::InvalidMetadata));
    }
    let creators = publish_creators(accounts.pool, &data.creators);
    let create_metadata = Instruction::from_parts(build_create_metadata(
        accounts.token_metadata_program,
        accounts.metadata,
        accounts.mint,
        accounts.owner,
        accounts.owner,
        accounts.owner,
        data.name.clone(),
        data.symbol.clone(),
        data.uri.clone(),
        Some(creators),
        data.seller_fee_basis_points,
        true,
        data.is_mutable,
    ));
    let create_master_edition = Instruction::from_parts(build_master_edition(
        accounts.token_metadata_program,
        accounts.master_edition,
        accounts.mint,
        accounts.owner,
        accounts.owner,
        accounts.metadata,
        accounts.owner,
        None,
    ));
    let update_metadata = Instruction::from_parts(build_update_metadata(
        accounts.token_metadata_program,
        accounts.metadata,
        accounts.owner,
        None,
        None,
        Some(true),
    ));
    Ok(Publication { mint_to, create_metadata, create_master_edition, update_metadata })
}

/// The request that a publication makes next.
#[derive(Clone, Copy, Debug, PartialEq, Eq, Structural)]
pub enum PublishStep {
    MintTo,
    CreateMetadata,
    CreateMasterEdition,
    UpdateMetadata,
}

/// How far a publication has come.
#[derive(Clone, Copy, Debug, PartialEq, Eq, Structural)]
pub enum PublishState {
    /// The request of this step is to be made next.
    Pending(PublishStep),
    /// All four requests were made and none failed.
    Published,
    /// A request failed; no later one was made.
    Failed(LedgerError),
}

/// The state after the pending request of `state` ended with `outcome`.
/// A failure ends the publication: of the issuing request as the ledger's
/// own refusal, of a request to the registry as a failure there. A
/// publication that has ended stays as it is.
pub open spec fn publish_advance(state: PublishState, outcome: InvokeOutcome) -> PublishState {
    match state {
        PublishState::Pending(step) => match outcome {
            InvokeOutcome::Done => match step {
                PublishStep::MintTo => PublishState::Pending(PublishStep::CreateMetadata),
                PublishStep::CreateMetadata => PublishState::Pending(
                    PublishStep::CreateMasterEdition,
                ),
                PublishStep::CreateMasterEdition => PublishState::Pending(
                    PublishStep::UpdateMetadata,
                ),
                PublishStep::UpdateMetadata => PublishState::Published,
            },
            InvokeOutcome::Failed => match step {
                PublishStep::MintTo => PublishState::Failed(
                    LedgerError::Pool(PoolError::TokenMintToFailed),
                ),
                _ => PublishState::Failed(LedgerError::InvokeFailed),
            },
        },
        _ => state,
    }
}

/// The state after the requests of `state` and its successors ended with
/// `outcomes`, in that order.
pub open spec fn publish_run(state: PublishState, outcomes: Seq<InvokeOutcome>) -> PublishState
    decreases outcomes.len(),
{
    if outcomes.len() == 0 {
        state
    } else {
        publish_run(publish_advance(state, outcomes[0]), outcomes.drop_first())
    }
}

impl PublishState {
    /// A publication of which nothing has been requested yet.
    pub fn start() -> (state: PublishState)
        ensures
            state == PublishState::Pending(PublishStep::MintTo),
    {
        PublishState::Pending(PublishStep::MintTo)
    }

    /// Takes note of how the pending request ended.
    pub fn advance(self, outcome: InvokeOutcome) -> (next: PublishState)
        ensures
            next == publish_advance(self, outcome),
    {
        match self {
            PublishState::Pending(step) => match outcome {
                InvokeOutcome::Done => match step {
                    PublishStep::MintTo => PublishState::Pending(PublishStep::CreateMetadata),
                    PublishStep::CreateMetadata => PublishState::Pending(
                        PublishStep::CreateMasterEdition,
                    ),
                    PublishStep::CreateMasterEdition => PublishState::Pending(
                        PublishStep::UpdateMetadata,
                    ),
                    PublishStep::UpdateMetadata => PublishState::Published,
                },
                InvokeOutcome::Failed => match step {
                    PublishStep::MintTo => match mint_to_result(outcome) {
                        Ok(()) => PublishState::Pending(PublishStep::CreateMetadata),
                        Err(refusal) => PublishState::Failed(refusal),
                    },
                    _ => PublishState::Failed(LedgerError::InvokeFailed),
                },
            },
            PublishState::Published => PublishState::Published,
            PublishState::Failed(failure) => PublishState::Failed(failure),
        }
    }

    /// How the publication ended: `None` while a request is pending.
    pub fn result(self) -> (ended: Option<Result<(), LedgerError>>)
        ensures
            ended == match self {
                PublishState::Pending(_) => None::<Result<(), LedgerError>>,
                PublishState::Published => Some(Ok::<(), LedgerError>(())),
                PublishState::Failed(failure) => Some(Err::<(), LedgerError>(failure)),
            },
    {
        match self {
            PublishState::Pending(_) => None,
            PublishState::Published => Some(Ok(())),
            PublishState::Failed(failure) => Some(Err(failure)),
        }
    }
}

impl Publication {
    /// The request of one step.
    pub open spec fn spec_instruction(&self, step: PublishStep) -> Instruction {
        match step {
            PublishStep::MintTo => self.mint_to,
            PublishStep::CreateMetadata => self.create_metadata,
            PublishStep::CreateMasterEdition => self.create_master_edition,
            PublishStep::UpdateMetadata => self.update_metadata,
        }
    }

    /// The request to make next in `state`, if one is pending.
    pub fn pending(&self, state: PublishState) -> (request: Option<&Instruction>)
        ensures
            match state {
                PublishState::Pending(step) => request == Some(&self.spec_instruction(step)),
                _ => request.is_none(),
            },
    {
        match state {
            PublishState::Pending(PublishStep::MintTo) => Some(&self.mint_to),
            PublishState::Pending(PublishStep::CreateMetadata) => Some(&self.create_metadata),
            PublishState::Pending(PublishStep::CreateMasterEdition) => Some(
                &self.create_master_edition,
            ),
            PublishState::Pending(PublishStep::UpdateMetadata) => Some(&self.update_metadata),
            _ => None,
        }
    }
}

} // verus!
