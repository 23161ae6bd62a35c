use vstd::prelude::*;
use vstd::bytes::{spec_u16_to_le_bytes, spec_u32_to_le_bytes, spec_u64_to_le_bytes};
use vstd::utf8::encode_utf8;
use metaplex_token_metadata::instruction::{
    create_master_edition, create_metadata_accounts, update_metadata_accounts,
};
use metaplex_token_metadata::state::Creator as RegistryCreator;
use metaplex_token_metadata::state::Data as RegistryData;
use spl_token::solana_program::pubkey::Pubkey as ProgramKey;
use crate::pubkey::Pubkey;
use crate::state::Creator;

verus! {

/// One account that an instruction names, and how it is used.
#[derive(Clone, Copy, Debug, PartialEq, Eq)]
pub struct AccountMeta {
    pub pubkey: Pubkey,
    pub is_signer: bool,
    pub is_writable: bool,
}

/// A request to another program: the program, the accounts it is handed,
/// and the bytes it reads.
#[derive(Clone, Debug, PartialEq, Eq)]
pub struct Instruction {
    pub program_id: Pubkey,
    pub accounts: Vec<AccountMeta>,
    pub data: Vec<u8>,
}

/// An account of an instruction, with its address as bytes.
pub ghost struct AccountMetaView {
    pub pubkey: Seq<u8>,
    pub is_signer: bool,
    pub is_writable: bool,
}

/// An instruction as plain values.
pub ghost struct InstructionView {
    pub program_id: Seq<u8>,
    pub accounts: Seq<AccountMetaView>,
    pub data: Seq<u8>,
}

/// A creator, with its address as bytes.
pub ghost struct CreatorView {
    pub address: Seq<u8>,
    pub verified: bool,
    pub share: u8,
}

impl View for AccountMeta {
    type V = AccountMetaView;

    open spec fn view(&self) -> AccountMetaView {
        AccountMetaView {
            pubkey: self.pubkey@,
            is_signer: self.is_signer,
            is_writable: self.is_writable,
        }
    }
}

impl View for Instruction {
    type V = InstructionView;

    open spec fn view(&self) -> InstructionView {
        InstructionView {
            program_id: self.program_id@,
            accounts: self.accounts@.map_values(|a: AccountMeta| a@),
            data: self.data@,
        }
    }
}

impl View for Creator {
    type V = CreatorView;

    open spec fn view(&self) -> CreatorView {
        CreatorView { address: self.address@, verified: self.verified, share: self.share }
    }
}

/// The instruction that three bare parts make up: the program's address,
/// the accounts as address, signer flag and writable flag, and the bytes.
pub open spec fn parts_view(parts: ([u8; 32], Vec<([u8; 32], bool, bool)>, Vec<u8>)) -> InstructionView {
    InstructionView {
        program_id: parts.0@,
        accounts: parts.1@.map_values(
            |account: ([u8; 32], bool, bool)|
                AccountMetaView {
                    pubkey: account.0@,
                    is_signer: account.1,
                    is_writable: account.2,
                },
        ),
        data: parts.2@,
    }
}

impl Instruction {
    /// The instruction that three bare parts make up.
    pub fn from_parts(
        parts: ([u8; 32], Vec<([u8; 32], bool, bool)>, Vec<u8>),
    ) -> (instruction: Instruction)
        ensures
            instruction@ == parts_view(parts),
    {
        let (program_id, named, data) = parts;
        let mut accounts: Vec<AccountMeta> = Vec::new();
        let mut i: usize = 0;
        while i < named.len()
            invariant
                i <= named.len(),
                accounts@.len() == i,
                forall|j: int|
                    0 <= j < i ==> (#[trigger] accounts@[j])@ == (AccountMetaView {
                        pubkey: named@[j].0@,
                        is_signer: named@[j].1,
                        is_writable: named@[j].2,
                    }),
            decreases named.len() - i,
        {
            let (pubkey, is_signer, is_writable) = named[i];
            accounts.push(AccountMeta { pubkey: Pubkey { bytes: pubkey }, is_signer, is_writable });
            i += 1;
        }
        let instruction = Instruction { program_id: Pubkey { bytes: program_id }, accounts, data };
        assert(instruction@.accounts =~= parts_view((program_id, named, data)).accounts);
        instruction
    }
}

/// The views of a list of creators, in order.
pub open spec fn creator_views(creators: Seq<Creator>) -> Seq<CreatorView> {
    creators.map_values(|c: Creator| c@)
}

/// An account that the instruction may change.
pub open spec fn writable(pubkey: Seq<u8>, is_signer: bool) -> AccountMetaView {
    AccountMetaView { pubkey, is_signer, is_writable: true }
}

/// An account that the instruction only reads.
pub open spec fn readonly(pubkey: Seq<u8>, is_signer: bool) -> AccountMetaView {
    AccountMetaView { pubkey, is_signer, is_writable: false }
}

/// The address of the token program.
pub open spec fn token_program_id() -> Seq<u8> {
    seq![
        6u8, 221, 246, 225, 215, 101, 161, 147, 217, 203, 225, 70, 206, 235, 121, 172,
        28, 180, 133, 237, 95, 91, 55, 145, 58, 140, 245, 133, 126, 255, 0, 169,
    ]
}

/// The address of the system program: thirty-two zero bytes.
pub open spec fn system_program_id() -> Seq<u8> {
    Seq::new(32, |i: int| 0u8)
}

/// The address of the rent sysvar.
pub open spec fn rent_sysvar_id() -> Seq<u8> {
    seq![
        6u8, 167, 213, 23, 25, 44, 92, 81, 33, 140, 201, 76, 61, 74, 241, 127,
        88, 218, 238, 8, 155, 161, 253, 68, 227, 219, 217, 138, 0, 0, 0, 0,
    ]
}

/// The addresses of a list of keys, in order.
pub open spec fn key_views(keys: Seq<Pubkey>) -> Seq<Seq<u8>> {
    keys.map_values(|k: Pubkey| k@)
}

/// The instruction that issues `amount` units of `mint` to `account`. The
/// owner signs where no other signers are named; each signer named signs,
/// after the owner and in the order given.
pub open spec fn mint_to_view(
    token_program: Seq<u8>,
    mint: Seq<u8>,
    account: Seq<u8>,
    owner: Seq<u8>,
    signers: Seq<Seq<u8>>,
    amount: u64,
) -> InstructionView {
    InstructionView {
        program_id: token_program,
        accounts: seq![
            writable(mint, false),
            writable(account, false),
            readonly(owner, signers.len() == 0),
        ] + signers.map_values(|signer: Seq<u8>| readonly(signer, true)),
        data: seq![7u8] + spec_u64_to_le_bytes(amount),
    }
}

/// Calls `spl_token::instruction::mint_to`. It fails exactly when
/// `token_program` is not the token program's address; otherwise the
/// instruction names the mint and the account as writable, then the owner
/// and the signers, and carries the tag 7 and the amount, little-endian.
#[verifier::external_body]
pub(crate) fn build_mint_to(
    token_program: Pubkey,
    mint: Pubkey,
    account: Pubkey,
    owner: Pubkey,
    signers: &Vec<Pubkey>,
    amount: u64,
) -> (built: Option<([u8; 32], Vec<([u8; 32], bool, bool)>, Vec<u8>)>)
    ensures
        built.is_some() == (token_program@ == token_program_id()),
        built.is_some() ==> parts_view(built.unwrap()) == mint_to_view(
            token_program@,
            mint@,
            account@,
            owner@,
            key_views(signers@),
            amount,
        ),
{
    let key = |k: &Pubkey| ProgramKey::new_from_array(k.bytes);
    let signing: Vec<ProgramKey> = signers.iter().map(key).collect();
    let named: Vec<&ProgramKey> = signing.iter().collect();
    match spl_token::instruction::mint_to(&key(&token_program), &key(&mint), &key(&account), &key(&owner), &named, amount) {
        Ok(ix) => Some((ix.program_id.to_bytes(), ix.accounts.iter().map(|a| (a.pubkey.to_bytes(), a.is_signer, a.is_writable)).collect(), ix.data)),
        Err(_) => None,
    }
}

/// The longest text or list that the registry's encoding can carry.
pub open spec fn fits_length_prefix(len: nat) -> bool {
    len <= u32::MAX
}

/// A text as the registry reads it: the number of its bytes in four
/// bytes, little-endian, then the bytes.
pub open spec fn encoded_text(text: Seq<char>) -> Seq<u8> {
    spec_u32_to_le_bytes(encode_utf8(text).len() as u32) + encode_utf8(text)
}

/// A creator as the registry reads it: the address, whether it is
/// verified, and the share.
pub open spec fn encoded_creator(creator: CreatorView) -> Seq<u8> {
    creator.address + seq![if creator.verified { 1u8 } else { 0u8 }, creator.share]
}

/// Creators as the registry reads them, one after the other.
pub open spec fn encoded_creators(creators: Seq<CreatorView>) -> Seq<u8>
    decreases creators.len(),
{
    if creators.len() == 0 {
        Seq::empty()
    } else {
        encoded_creators(creators.drop_last()) + encoded_creator(creators.last())
    }
}

/// The views of an optional list of creators.
pub open spec fn creator_list_view(creators: Option<Vec<Creator>>) -> Option<Seq<CreatorView>> {
    match creators {
        Some(listed) => Some(creator_views(listed@)),
        None => None,
    }
}

/// Whether the registry's encoding can carry an optional list of creators.
pub open spec fn creator_list_fits(creators: Option<Seq<CreatorView>>) -> bool {
    match creators {
        Some(listed) => fits_length_prefix(listed.len()),
        None => true,
    }
}

/// An optional list of creators as the registry reads it: the mark 0 of a
/// list that is absent; or the mark 1, the number of creators in four
/// bytes, little-endian, and the creators.
pub open spec fn encoded_creator_list(creators: Option<Seq<CreatorView>>) -> Seq<u8> {
    match creators {
        Some(listed) => seq![1u8] + spec_u32_to_le_bytes(listed.len() as u32) + encoded_creators(
            listed,
        ),
        None => seq![0u8],
    }
}

/// The descriptive fields as the registry reads them: name, symbol and
/// uri; the fee in two bytes, little-endian; and the creators.
pub open spec fn encoded_fields(
    name: Seq<char>,
    symbol: Seq<char>,
    uri: Seq<char>,
    seller_fee_basis_points: u16,
    creators: Option<Seq<CreatorView>>,
) -> Seq<u8> {
    encoded_text(name) + encoded_text(symbol) + encoded_text(uri) + spec_u16_to_le_bytes(
        seller_fee_basis_points,
    ) + encoded_creator_list(creators)
}

/// The bytes of a request to create a metadata record: the tag 0, the
/// descriptive fields, and whether the record may change.
pub open spec fn create_metadata_data(
    name: Seq<char>,
    symbol: Seq<char>,
    uri: Seq<char>,
    creators: Option<Seq<CreatorView>>,
    seller_fee_basis_points: u16,
    is_mutable: bool,
) -> Seq<u8> {
    seq![0u8] + encoded_fields(name, symbol, uri, seller_fee_basis_points, creators) + seq![
        if is_mutable {
            1u8
        } else {
            0u8
        },
    ]
}

/// The accounts of a request to create a metadata record.
pub open spec fn create_metadata_accounts_view(
    metadata_account: Seq<u8>,
    mint: Seq<u8>,
    mint_authority: Seq<u8>,
    payer: Seq<u8>,
    update_authority: Seq<u8>,
    update_authority_is_signer: bool,
) -> Seq<AccountMetaView> {
    seq![
        writable(metadata_account, false),
        readonly(mint, false),
        readonly(mint_authority, true),
        writable(payer, true),
        readonly(update_authority, update_authority_is_signer),
        readonly(system_program_id(), false),
        readonly(rent_sysvar_id(), false),
    ]
}

/// Calls `metaplex_token_metadata::instruction::create_metadata_accounts`.
/// The instruction goes to `program_id`, names the seven accounts in the
/// registry's order, and carries the fields in the registry's encoding, as
/// [`create_metadata_data`] spells it out. The encoding panics on a text
/// or a list longer than its four-byte length prefix allows.
#[verifier::external_body]
pub(crate) fn build_create_metadata(
    program_id: Pubkey,
    metadata_account: Pubkey,
    mint: Pubkey,
    mint_authority: Pubkey,
    payer: Pubkey,
    update_authority: Pubkey,
    name: String,
    symbol: String,
    uri: String,
    creators: Option<Vec<Creator>>,
    seller_fee_basis_points: u16,
    update_authority_is_signer: bool,
    is_mutable: bool,
) -> (built: ([u8; 32], Vec<([u8; 32], bool, bool)>, Vec<u8>))
    requires
        fits_length_prefix(encode_utf8(name@).len()),
        fits_length_prefix(encode_utf8(symbol@).len()),
        fits_length_prefix(encode_utf8(uri@).len()),
        creator_list_fits(creator_list_view(creators)),
    ensures
        parts_view(built).program_id == program_id@,
        parts_view(built).accounts == create_metadata_accounts_view(
            metadata_account@,
            mint@,
            mint_authority@,
            payer@,
            update_authority@,
            update_authority_is_signer,
        ),
        parts_view(built).data == create_metadata_data(
            name@,
            symbol@,
            uri@,
            creator_list_view(creators),
            seller_fee_basis_points,
            is_mutable,
        ),
{
    let key = |k: Pubkey| ProgramKey::new_from_array(k.bytes);
    let listed = creators.map(|cs| cs.iter().map(|c| RegistryCreator { address: key(c.address), verified: c.verified, share: c.share }).collect());
    let ix = create_metadata_accounts(
        key(program_id), key(metadata_account), key(mint), key(mint_authority), key(payer), key(update_authority),
        name, symbol, uri, listed, seller_fee_basis_points, update_authority_is_signer, is_mutable,
    );
    (ix.program_id.to_bytes(), ix.accounts.iter().map(|a| (a.pubkey.to_bytes(), a.is_signer, a.is_writable)).collect(), ix.data)
}

/// The bytes of a request to mark a mint as a master edition: the tag 10,
/// then the largest supply, if there is one.
pub open spec fn master_edition_data(max_supply: Option<u64>) -> Seq<u8> {
    match max_supply {
        None => seq![10u8, 0u8],
        Some(supply) => seq![10u8, 1u8] + spec_u64_to_le_bytes(supply),
    }
}

/// The accounts of a request to mark a mint as a master edition.
pub open spec fn master_edition_accounts_view(
    edition: Seq<u8>,
    mint: Seq<u8>,
    update_authority: Seq<u8>,
    mint_authority: Seq<u8>,
    metadata: Seq<u8>,
    payer: Seq<u8>,
) -> Seq<AccountMetaView> {
    seq![
        writable(edition, false),
        writable(mint, false),
        readonly(update_authority, true),
        readonly(mint_authority, true),
        writable(payer, true),
        readonly(metadata, false),
        readonly(token_program_id(), false),
        readonly(system_program_id(), false),
        readonly(rent_sysvar_id(), false),
    ]
}

/// Calls `metaplex_token_metadata::instruction::create_master_edition`.
/// The instruction goes to `program_id`, names the nine accounts in the
/// registry's order, and carries the tag 10 and the optional largest supply.
#[verifier::external_body]
pub(crate) fn build_master_edition(
    program_id: Pubkey,
    edition: Pubkey,
    mint: Pubkey,
    update_authority: Pubkey,
    mint_authority: Pubkey,
    metadata: Pubkey,
    payer: Pubkey,
    max_supply: Option<u64>,
) -> (built: ([u8; 32], Vec<([u8; 32], bool, bool)>, Vec<u8>))
    ensures
        parts_view(built).program_id == program_id@,
        parts_view(built).accounts == master_edition_accounts_view(
            edition@,
            mint@,
            update_authority@,
            mint_authority@,
            metadata@,
            payer@,
        ),
        parts_view(built).data == master_edition_data(max_supply),
{
    let key = |k: Pubkey| ProgramKey::new_from_array(k.bytes);
    let ix = create_master_edition(
        key(program_id), key(edition), key(mint), key(update_authority), key(mint_authority), key(metadata), key(payer), max_supply,
    );
    (ix.program_id.to_bytes(), ix.accounts.iter().map(|a| (a.pubkey.to_bytes(), a.is_signer, a.is_writable)).collect(), ix.data)
}

/// The descriptive fields of a metadata record, as the registry holds
/// them.
#[derive(Clone, Debug, PartialEq, Eq)]
pub struct Data {
    pub name: String,
    pub symbol: String,
    pub uri: String,
    pub seller_fee_basis_points: u16,
    pub creators: Option<Vec<Creator>>,
}

/// Descriptive fields as plain values.
pub ghost struct DataView {
    pub name: Seq<char>,
    pub symbol: Seq<char>,
    pub uri: Seq<char>,
    pub seller_fee_basis_points: u16,
    pub creators: Option<Seq<CreatorView>>,
}

impl View for Data {
    type V = DataView;

    open spec fn view(&self) -> DataView {
        DataView {
            name: self.name@,
            symbol: self.symbol@,
            uri: self.uri@,
            seller_fee_basis_points: self.seller_fee_basis_points,
            creators: creator_list_view(self.creators),
        }
    }
}

/// The views of optional descriptive fields.
pub open spec fn optional_data_view(data: Option<Data>) -> Option<DataView> {
    match data {
        Some(fields) => Some(fields@),
        None => None,
    }
}

/// The view of an optional address.
pub open spec fn optional_key_view(key: Option<Pubkey>) -> Option<Seq<u8>> {
    match key {
        Some(address) => Some(address@),
        None => None,
    }
}

/// Whether the registry's encoding can carry optional descriptive fields.
pub open spec fn optional_data_fits(data: Option<DataView>) -> bool {
    match data {
        Some(fields) => {
            &&& fits_length_prefix(encode_utf8(fields.name).len())
            &&& fits_length_prefix(encode_utf8(fields.symbol).len())
            &&& fits_length_prefix(encode_utf8(fields.uri).len())
            &&& creator_list_fits(fields.creators)
        },
        None => true,
    }
}

/// The bytes of a request to update a metadata record: the tag 1; then,
/// each behind the mark 1 where it is given and as the mark 0 alone where
/// it is not, the new descriptive fields, the new update authority, and
/// whether the primary sale has happened.
pub open spec fn update_metadata_data(
    data: Option<DataView>,
    new_update_authority: Option<Seq<u8>>,
    primary_sale_happened: Option<bool>,
) -> Seq<u8> {
    seq![1u8] + (match data {
        Some(fields) => seq![1u8] + encoded_fields(
            fields.name,
            fields.symbol,
            fields.uri,
            fields.seller_fee_basis_points,
            fields.creators,
        ),
        None => seq![0u8],
    }) + (match new_update_authority {
        Some(address) => seq![1u8] + address,
        None => seq![0u8],
    }) + (match primary_sale_happened {
        Some(happened) => seq![1u8, if happened { 1u8 } else { 0u8 }],
        None => seq![0u8],
    })
}

/// Calls `metaplex_token_metadata::instruction::update_metadata_accounts`.
/// The instruction goes to `program_id`, names the metadata record as
/// writable and the authority as signer, and carries the three optional
/// fields in the registry's encoding, as [`update_metadata_data`] spells
/// it out. The encoding panics on a text or a list longer than its
/// four-byte length prefix allows.
#[verifier::external_body]
pub(crate) fn build_update_metadata(
    program_id: Pubkey,
    metadata_account: Pubkey,
    update_authority: Pubkey,
    new_update_authority: Option<Pubkey>,
    data: Option<Data>,
    primary_sale_happened: Option<bool>,
) -> (built: ([u8; 32], Vec<([u8; 32], bool, bool)>, Vec<u8>))
    requires
        optional_data_fits(optional_data_view(data)),
    ensures
        parts_view(built).program_id == program_id@,
        parts_view(built).accounts == seq![
            writable(metadata_account@, false),
            readonly(update_authority@, true),
        ],
        parts_view(built).data == update_metadata_data(
            optional_data_view(data),
            optional_key_view(new_update_authority),
            primary_sale_happened,
        ),
{
    let key = |k: Pubkey| ProgramKey::new_from_array(k.bytes);
    let listed = |cs: Vec<Creator>| cs.iter().map(|c| RegistryCreator { address: key(c.address), verified: c.verified, share: c.share }).collect();
    let fields = data.map(|Data { name, symbol, uri, seller_fee_basis_points, creators }| RegistryData { name, symbol, uri, seller_fee_basis_points, creators: creators.map(listed) });
    let ix = update_metadata_accounts(key(program_id), key(metadata_account), key(update_authority), new_update_authority.map(key), fields, primary_sale_happened);
    (ix.program_id.to_bytes(), ix.accounts.iter().map(|a| (a.pubkey.to_bytes(), a.is_signer, a.is_writable)).collect(), ix.data)
}

} // verus!
