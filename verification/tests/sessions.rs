use solana_anchor::context::{Breed, Claim, InitPool, InitWallet};
use solana_anchor::program::{breed, claim, claim_settle, init_pool, init_wallet};
use solana_anchor::pubkey::Pubkey;
use solana_anchor::publish::{PublishState, PublishStep};
use solana_anchor::state::{
    BreedData, Creator, LedgerError, Metadata, Pool, PoolError, WalletData, BABY_MYTHIC_PERIOD,
    BREED_DATA_SIZE, MYTHIC_PERIOD, MYTHIC_PHEONIX_PERIOD, POOL_SIZE, WALLET_DATA_SIZE,
};
use solana_anchor::utils::InvokeOutcome;

fn key(byte: u8) -> Pubkey {
    Pubkey::new_from_array([byte; 32])
}

fn token_program() -> Pubkey {
    Pubkey::new_from_array(spl_token::id().to_bytes())
}

fn pool() -> Pool {
    Pool {
        owner: key(20),
        rand: key(21),
        mythic_period: 1_382_400,
        baby_pheonix_period: 2_592_000,
        mythic_pheonix_period: 172_800,
        mythic_amount: 3,
        baby_pheonix_amount: 2,
        mythic_pheonix_amount: 1,
        bump: 254,
    }
}

fn mint_data(decimals: u8, supply: u64) -> Vec<u8> {
    let mut data = vec![0u8; 82];
    data[36..44].copy_from_slice(&supply.to_le_bytes());
    data[44] = decimals;
    data[45] = 1;
    data
}

fn metadata() -> Metadata {
    Metadata {
        name: String::from("Egg"),
        symbol: String::from("EGG"),
        uri: String::from("https://example.org/egg.json"),
        seller_fee_basis_points: 250,
        creators: vec![Creator { address: key(30), verified: false, share: 100 }],
        is_mutable: false,
    }
}

fn breed_ctx(evolving: u16, exalated: u8) -> Breed {
    Breed {
        owner: key(1),
        pool: pool(),
        pool_key: key(2),
        breed_data: BreedData { b_time: 0, b_type: 0, mint: key(0) },
        wallet_data: WalletData {
            wallet: key(1),
            evolving_amount: evolving,
            exalated_breeding_amount: exalated,
        },
        metadata: key(5),
        mint: key(3),
        mint_data: mint_data(0, 0),
        token_account: key(4),
        master_edition: key(6),
        token_metadata_program: Pubkey::new_from_array(metaplex_token_metadata::id().to_bytes()),
        token_program: token_program(),
        clock: 1_000_000,
    }
}

fn claim_ctx(b_type: u8, b_time: i64, now: i64) -> Claim {
    Claim {
        owner: key(1),
        pool: pool(),
        pool_key: key(2),
        breed_data: BreedData { b_time, b_type, mint: key(3) },
        token_program: token_program(),
        mint: key(7),
        mint_data: mint_data(0, 0),
        breed_mint: key(3),
        token_account: key(8),
        metadata: key(9),
        master_edition: key(10),
        token_metadata_program: Pubkey::new_from_array(metaplex_token_metadata::id().to_bytes()),
        clock: now,
    }
}

const INVALID_MINT: LedgerError = LedgerError::Pool(PoolError::InvalidMintAccount);
const INVALID_TIME: LedgerError = LedgerError::Pool(PoolError::InvalidTime);

#[test]
fn stored_sizes_and_periods_have_their_values() {
    assert_eq!(POOL_SIZE, 113);
    assert_eq!(BREED_DATA_SIZE, 41);
    assert_eq!(WALLET_DATA_SIZE, 35);
    assert_eq!(MYTHIC_PERIOD, 1_382_400);
    assert_eq!(BABY_MYTHIC_PERIOD, 2_592_000);
    assert_eq!(MYTHIC_PHEONIX_PERIOD, 172_800);
}

#[test]
fn init_pool_stores_every_parameter_as_given() {
    let empty = Pool {
        owner: key(0),
        rand: key(0),
        mythic_period: 0,
        baby_pheonix_period: 0,
        mythic_pheonix_period: 0,
        mythic_amount: 0,
        baby_pheonix_amount: 0,
        mythic_pheonix_amount: 0,
        bump: 0,
    };
    let mut ctx = InitPool { owner: key(20), pool: empty, rand: key(21) };
    assert_eq!(init_pool(&mut ctx, 254, 1_382_400, 2_592_000, 172_800, 3, 2, 1), Ok(()));
    assert_eq!(ctx, InitPool { owner: key(20), pool: pool(), rand: key(21) });
}

#[test]
fn init_pool_accepts_zero_and_negative_periods() {
    let mut ctx = InitPool { owner: key(20), pool: pool(), rand: key(21) };
    assert_eq!(init_pool(&mut ctx, 0, -5, 0, i64::MIN, 0, u64::MAX, 0), Ok(()));
    assert_eq!(ctx.pool.mythic_period, -5);
    assert_eq!(ctx.pool.baby_pheonix_period, 0);
    assert_eq!(ctx.pool.mythic_pheonix_period, i64::MIN);
    assert_eq!(ctx.pool.baby_pheonix_amount, u64::MAX);
}

#[test]
fn init_wallet_stores_owner_and_given_counts() {
    let mut ctx = InitWallet {
        owner: key(1),
        pool: WalletData { wallet: key(0), evolving_amount: 0, exalated_breeding_amount: 0 },
    };
    assert_eq!(init_wallet(&mut ctx, 7, 9), Ok(()));
    assert_eq!(
        ctx.pool,
        WalletData { wallet: key(1), evolving_amount: 7, exalated_breeding_amount: 9 }
    );
    assert_eq!(ctx.owner, key(1));
}

#[test]
fn wallet_counters_refuse_to_pass_their_range() {
    let mut wallet =
        WalletData { wallet: key(1), evolving_amount: 65_534, exalated_breeding_amount: 254 };
    assert_eq!(wallet.increment_evolving(), Ok(()));
    assert_eq!(wallet.evolving_amount, 65_535);
    assert_eq!(wallet.increment_evolving(), Err(PoolError::ExceedAmount));
    assert_eq!(wallet.evolving_amount, 65_535);
    assert_eq!(wallet.increment_exalated(), Ok(()));
    assert_eq!(wallet.exalated_breeding_amount, 255);
    assert_eq!(wallet.increment_exalated(), Err(PoolError::ExceedAmount));
    assert_eq!(wallet.exalated_breeding_amount, 255);
}

#[test]
fn breed_binds_session_and_stamps_time() {
    let mut ctx = breed_ctx(0, 0);
    let before = ctx.clone();
    let publication = breed(&mut ctx, 2, &metadata()).unwrap();
    assert_eq!(ctx.breed_data, BreedData { b_time: 1_000_000, b_type: 2, mint: key(3) });
    assert_eq!(ctx.wallet_data, before.wallet_data);
    assert_eq!(ctx.pool, before.pool);
    assert_eq!(publication.mint_to.data, vec![7, 1, 0, 0, 0, 0, 0, 0, 0]);
    assert_eq!(publication.mint_to.accounts[0].pubkey, key(3));
    assert_eq!(publication.mint_to.accounts[1].pubkey, key(4));
}

#[test]
fn breed_counts_only_the_counted_categories() {
    let mut ctx = breed_ctx(5, 6);
    breed(&mut ctx, 1, &metadata()).unwrap();
    assert_eq!((ctx.wallet_data.evolving_amount, ctx.wallet_data.exalated_breeding_amount), (6, 6));
    breed(&mut ctx, 2, &metadata()).unwrap();
    assert_eq!((ctx.wallet_data.evolving_amount, ctx.wallet_data.exalated_breeding_amount), (6, 6));
    breed(&mut ctx, 3, &metadata()).unwrap();
    assert_eq!((ctx.wallet_data.evolving_amount, ctx.wallet_data.exalated_breeding_amount), (6, 7));
    breed(&mut ctx, 0, &metadata()).unwrap();
    breed(&mut ctx, 4, &metadata()).unwrap();
    breed(&mut ctx, 255, &metadata()).unwrap();
    assert_eq!((ctx.wallet_data.evolving_amount, ctx.wallet_data.exalated_breeding_amount), (6, 7));
    assert_eq!(ctx.wallet_data.wallet, key(1));
}

#[test]
fn breed_refuses_a_mint_with_decimals_or_supply() {
    for (decimals, supply) in [(1u8, 0u64), (0, 1), (9, 1_000)] {
        let mut ctx = breed_ctx(5, 6);
        ctx.mint_data = mint_data(decimals, supply);
        let before = ctx.clone();
        assert_eq!(breed(&mut ctx, 1, &metadata()), Err(INVALID_MINT));
        assert_eq!(ctx, before);
    }
}

#[test]
fn breed_refuses_malformed_mint_data() {
    let mut ctx = breed_ctx(5, 6);
    ctx.mint_data = vec![0u8; 40];
    let before = ctx.clone();
    assert_eq!(breed(&mut ctx, 1, &metadata()), Err(LedgerError::InvalidAccountData));
    assert_eq!(ctx, before);
    ctx.mint_data = mint_data(0, 0);
    ctx.mint_data[45] = 7;
    assert_eq!(breed(&mut ctx, 1, &metadata()), Err(LedgerError::InvalidAccountData));
}

#[test]
fn breed_refuses_to_overflow_a_counter() {
    let mut ctx = breed_ctx(u16::MAX, u8::MAX);
    let before = ctx.clone();
    assert_eq!(breed(&mut ctx, 1, &metadata()), Err(LedgerError::Pool(PoolError::ExceedAmount)));
    assert_eq!(ctx, before);
    assert_eq!(breed(&mut ctx, 3, &metadata()), Err(LedgerError::Pool(PoolError::ExceedAmount)));
    assert_eq!(ctx, before);
    assert!(breed(&mut ctx, 2, &metadata()).is_ok());
    assert_eq!(ctx.wallet_data, before.wallet_data);
}

#[test]
fn breed_refuses_another_token_program() {
    let mut ctx = breed_ctx(0, 0);
    ctx.token_program = key(99);
    let before = ctx.clone();
    assert_eq!(breed(&mut ctx, 1, &metadata()), Err(LedgerError::Pool(PoolError::TokenMintToFailed)));
    assert_eq!(ctx, before);
}

#[test]
fn claim_of_mythic_waits_sixteen_days() {
    let early = claim_ctx(1, 1_000_000, 1_000_000 + 1_382_399);
    assert_eq!(claim(&early, &metadata()), Err(INVALID_TIME));
    let due = claim_ctx(1, 1_000_000, 1_000_000 + 1_382_400);
    assert!(claim(&due, &metadata()).is_ok());
    let late = claim_ctx(1, 1_000_000, 1_000_000 + 1_382_401);
    assert!(claim(&late, &metadata()).is_ok());
}

#[test]
fn claim_uses_the_period_of_the_category() {
    assert_eq!(claim(&claim_ctx(2, 10, 10 + 2_591_999), &metadata()), Err(INVALID_TIME));
    assert!(claim(&claim_ctx(2, 10, 10 + 2_592_000), &metadata()).is_ok());
    assert_eq!(claim(&claim_ctx(3, 10, 10 + 172_799), &metadata()), Err(INVALID_TIME));
    assert!(claim(&claim_ctx(3, 10, 10 + 172_800), &metadata()).is_ok());
}

#[test]
fn claim_of_unknown_category_has_no_wait() {
    assert!(claim(&claim_ctx(4, 1_000_000, 1_000_000), &metadata()).is_ok());
    assert!(claim(&claim_ctx(255, 1_000_000, 0), &metadata()).is_ok());
}

#[test]
fn claim_takes_elapsed_time_exactly_at_the_ends_of_the_range() {
    let mut ctx = claim_ctx(1, i64::MIN, i64::MAX);
    assert!(claim(&ctx, &metadata()).is_ok());
    ctx.breed_data.b_time = i64::MAX;
    ctx.clock = i64::MIN;
    assert_eq!(claim(&ctx, &metadata()), Err(INVALID_TIME));
}

#[test]
fn claim_with_degenerate_periods() {
    let mut ctx = claim_ctx(1, 1_000_000, 1_000_000);
    ctx.pool.mythic_period = 0;
    assert!(claim(&ctx, &metadata()).is_ok());
    ctx.pool.mythic_period = -10;
    ctx.clock = 999_990;
    assert!(claim(&ctx, &metadata()).is_ok());
    ctx.clock = 999_989;
    assert_eq!(claim(&ctx, &metadata()), Err(INVALID_TIME));
}

#[test]
fn claim_refuses_another_mint_at_any_time() {
    for now in [0, 1_000_000, 1_000_000 + 1_382_400, i64::MAX] {
        let mut ctx = claim_ctx(1, 1_000_000, now);
        ctx.breed_mint = key(77);
        assert_eq!(claim(&ctx, &metadata()), Err(INVALID_MINT));
    }
}

#[test]
fn claim_refuses_a_new_mint_with_decimals_or_supply() {
    for (decimals, supply) in [(2u8, 0u64), (0, 5)] {
        let mut ctx = claim_ctx(1, 1_000_000, 3_000_000);
        ctx.mint_data = mint_data(decimals, supply);
        assert_eq!(claim(&ctx, &metadata()), Err(INVALID_MINT));
    }
}

#[test]
fn claim_checks_the_wait_before_the_new_mint() {
    let mut ctx = claim_ctx(1, 1_000_000, 1_000_001);
    ctx.mint_data = mint_data(2, 0);
    assert_eq!(claim(&ctx, &metadata()), Err(INVALID_TIME));
    ctx.mint_data = vec![];
    assert_eq!(claim(&ctx, &metadata()), Err(INVALID_TIME));
    ctx.clock = 3_000_000;
    assert_eq!(claim(&ctx, &metadata()), Err(LedgerError::InvalidAccountData));
}

#[test]
fn claim_prepares_the_publication_of_the_new_mint() {
    let ctx = claim_ctx(1, 1_000_000, 3_000_000);
    let publication = claim(&ctx, &metadata()).unwrap();
    assert_eq!(publication.mint_to.accounts[0].pubkey, key(7));
    assert_eq!(publication.mint_to.accounts[1].pubkey, key(8));
    assert_eq!(publication.mint_to.accounts[2].pubkey, key(1));
    assert_eq!(publication.create_metadata.accounts[0].pubkey, key(9));
    assert_eq!(publication.create_master_edition.accounts[0].pubkey, key(10));
    assert_eq!(publication.update_metadata.accounts[0].pubkey, key(9));
}

#[test]
fn claimed_session_is_consumed_and_cannot_be_claimed_again() {
    let mut ctx = claim_ctx(1, 1_000_000, 3_000_000);
    let before = ctx.clone();
    let plan = claim(&ctx, &metadata()).unwrap();
    let mut state = PublishState::start();
    while plan.pending(state).is_some() {
        state = state.advance(InvokeOutcome::Done);
    }
    assert_eq!(claim_settle(&mut ctx, &metadata(), state), Some(Ok(())));
    assert_eq!(ctx.breed_data, BreedData { b_time: 0, b_type: 0, mint: key(3) });
    assert_eq!(ctx.pool, before.pool);
    assert_eq!(claim(&ctx, &metadata()), Err(INVALID_MINT));
    ctx.clock = i64::MAX;
    assert_eq!(claim(&ctx, &metadata()), Err(INVALID_MINT));
}

#[test]
fn failed_publication_leaves_the_session_active() {
    let mut ctx = claim_ctx(1, 1_000_000, 3_000_000);
    let before = ctx.clone();
    let failed = PublishState::start().advance(InvokeOutcome::Done).advance(InvokeOutcome::Failed);
    assert_eq!(claim_settle(&mut ctx, &metadata(), failed), Some(Err(LedgerError::InvokeFailed)));
    assert_eq!(ctx, before);
    let unissued = PublishState::start().advance(InvokeOutcome::Failed);
    assert_eq!(
        claim_settle(&mut ctx, &metadata(), unissued),
        Some(Err(LedgerError::Pool(PoolError::TokenMintToFailed)))
    );
    assert_eq!(ctx, before);
    assert_eq!(claim_settle(&mut ctx, &metadata(), PublishState::Pending(PublishStep::UpdateMetadata)), None);
    assert_eq!(ctx, before);
    assert!(claim(&ctx, &metadata()).is_ok());
}

#[test]
fn pool_is_unchanged_by_breeding_and_claiming() {
    let mut started = breed_ctx(0, 0);
    for b_type in [1u8, 2, 3, 1, 3] {
        breed(&mut started, b_type, &metadata()).unwrap();
        assert_eq!(started.pool, pool());
    }
    let mut claimed = claim_ctx(3, 0, 172_800);
    claim(&claimed, &metadata()).unwrap();
    assert_eq!(claim_settle(&mut claimed, &metadata(), PublishState::Published), Some(Ok(())));
    assert_eq!(claimed.pool, pool());
}

#[test]
fn default_metadata_is_empty() {
    let data = Metadata::default();
    assert_eq!(data.name, "");
    assert_eq!(data.symbol, "");
    assert_eq!(data.uri, "");
    assert_eq!(data.seller_fee_basis_points, 0);
    assert!(data.creators.is_empty());
    assert!(!data.is_mutable);
}

#[test]
fn counters_never_fall_over_a_run_of_operations() {
    let mut ctx = breed_ctx(65_534, 254);
    let mut last = (ctx.wallet_data.evolving_amount, ctx.wallet_data.exalated_breeding_amount);
    for b_type in [1u8, 1, 3, 3, 2, 0, 1, 3] {
        let _ = breed(&mut ctx, b_type, &metadata());
        let now = (ctx.wallet_data.evolving_amount, ctx.wallet_data.exalated_breeding_amount);
        assert!(now.0 >= last.0 && now.1 >= last.1);
        last = now;
    }
    assert_eq!(last, (65_535, 255));
}

#[test]
fn breed_without_a_category_is_admitted_and_never_claimable() {
    let mut ctx = breed_ctx(5, 6);
    let publication = breed(&mut ctx, 0, &metadata()).unwrap();
    assert_eq!(ctx.breed_data, BreedData { b_time: 1_000_000, b_type: 0, mint: key(3) });
    assert_eq!((ctx.wallet_data.evolving_amount, ctx.wallet_data.exalated_breeding_amount), (5, 6));
    assert_eq!(publication.mint_to.data, vec![7, 1, 0, 0, 0, 0, 0, 0, 0]);
    let mut later = claim_ctx(0, 1_000_000, i64::MAX);
    later.breed_data = ctx.breed_data;
    assert_eq!(claim(&later, &metadata()), Err(INVALID_MINT));
    ctx.mint_data = mint_data(0, 1);
    assert_eq!(breed(&mut ctx, 0, &metadata()), Err(INVALID_MINT));
}

#[test]
fn breed_of_a_category_unknown_to_the_pool_is_admitted() {
    let mut ctx = breed_ctx(5, 6);
    breed(&mut ctx, 4, &metadata()).unwrap();
    assert_eq!(ctx.breed_data, BreedData { b_time: 1_000_000, b_type: 4, mint: key(3) });
    assert_eq!((ctx.wallet_data.evolving_amount, ctx.wallet_data.exalated_breeding_amount), (5, 6));
}

#[test]
fn settling_consumes_only_a_claim_that_is_admitted() {
    let mut early = claim_ctx(1, 1_000_000, 1_000_001);
    let before = early.clone();
    assert_eq!(
        claim_settle(&mut early, &metadata(), PublishState::Published),
        Some(Err(INVALID_TIME))
    );
    assert_eq!(early, before);
    let mut unbound = claim_ctx(1, 1_000_000, 3_000_000);
    unbound.breed_mint = key(77);
    let before = unbound.clone();
    assert_eq!(
        claim_settle(&mut unbound, &metadata(), PublishState::Published),
        Some(Err(INVALID_MINT))
    );
    assert_eq!(unbound, before);
    let mut stale = claim_ctx(1, 1_000_000, 3_000_000);
    stale.mint_data = mint_data(0, 1);
    let before = stale.clone();
    assert_eq!(
        claim_settle(&mut stale, &metadata(), PublishState::Published),
        Some(Err(INVALID_MINT))
    );
    assert_eq!(stale, before);
}
