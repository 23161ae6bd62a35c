use vstd::prelude::*;
use vstd::bytes::spec_u64_from_le_bytes;
use spl_token::solana_program::program_pack::Pack;
use crate::state::PoolError;

verus! {

/// Length of the stored form of a mint.
pub const MINT_LEN: usize = 82;

/// What the ledger reads of a mint: its decimals and what it has issued.
#[derive(Clone, Copy, Debug, PartialEq, Eq, Structural)]
pub struct MintState {
    pub decimals: u8,
    pub supply: u64,
}

/// Whether four bytes are the tag of an optional field: zero or one,
/// little-endian.
pub open spec fn option_tag_valid(tag: Seq<u8>) -> bool {
    (tag[0] == 0 || tag[0] == 1) && tag[1] == 0 && tag[2] == 0 && tag[3] == 0
}

/// Whether the first eighty-two bytes of `data` are the stored form of a
/// mint: both authority tags and the initialisation flag are well formed.
pub open spec fn mint_data_valid(data: Seq<u8>) -> bool {
    &&& data.len() >= MINT_LEN
    &&& option_tag_valid(data.subrange(0, 4))
    &&& (data[45] == 0 || data[45] == 1)
    &&& option_tag_valid(data.subrange(46, 50))
}

/// The decimals and the supply that the stored form of a mint holds.
pub open spec fn mint_state_of(data: Seq<u8>) -> MintState {
    MintState { decimals: data[44], supply: spec_u64_from_le_bytes(data.subrange(36, 44)) }
}

/// A mint is fresh when it has no decimals and has issued nothing.
pub open spec fn mint_is_fresh(mint: MintState) -> bool {
    mint.decimals == 0 && mint.supply == 0
}

/// Calls `spl_token::state::Mint::unpack_from_slice`, which reads the first
/// eighty-two bytes of `data` (and panics on fewer). It fails exactly when an
/// authority tag or the initialisation flag is malformed; otherwise the
/// decimals are byte 44 and the supply is the little-endian number in bytes
/// 36 to 43.
#[verifier::external_body]
fn unpack_mint(data: &[u8]) -> (unpacked: Option<MintState>)
    requires
        data@.len() >= MINT_LEN,
    ensures
        unpacked.is_some() == mint_data_valid(data@),
        unpacked.is_some() ==> unpacked.unwrap() == mint_state_of(data@),
{
    match spl_token::state::Mint::unpack_from_slice(data) {
        Ok(mint) => Some(MintState { decimals: mint.decimals, supply: mint.supply }),
        Err(_) => None,
    }
}

/// Reads a mint from its stored form; `None` where the bytes are too few
/// or malformed.
pub fn read_mint(data: &[u8]) -> (mint: Option<MintState>)
    ensures
        mint.is_some() == mint_data_valid(data@),
        mint.is_some() ==> mint.unwrap() == mint_state_of(data@),
{
    if data.len() < MINT_LEN {
        None
    } else {
        unpack_mint(data)
    }
}

/// Accepts only a fresh mint.
pub fn check_fresh(mint: &MintState) -> (checked: Result<(), PoolError>)
    ensures
        checked.is_ok() == mint_is_fresh(*mint),
        checked.is_err() ==> checked == Err::<(), PoolError>(PoolError::InvalidMintAccount),
{
    if mint.decimals != 0 {
        return Err(PoolError::InvalidMintAccount);
    }
    if mint.supply != 0 {
        return Err(PoolError::InvalidMintAccount);
    }
    Ok(())
}

} // verus!
