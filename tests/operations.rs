use solana_program::pubkey::Pubkey;
use vision_amm::accounts::{derived, AccountRef, Config, TokenMint};
use vision_amm::address::Address;
use vision_amm::error::VisionError;
use vision_amm::processor::{
    BuyAccounts, ChangeFeeAccounts, InitializeAccounts, LedgerOp, Processor, SellAccounts,
};
use vision_amm::state::{BuyAmt, PageTokenSwap, POOL_LEN};

const EXEMPTION: u64 = 890_880;

fn addr(p: &Pubkey) -> Address {
    Address::new_from_array(p.to_bytes())
}

fn key(n: u8) -> Pubkey {
    Pubkey::new_from_array([n; 32])
}

fn same(a: &Address, b: &Pubkey) -> bool {
    a.to_bytes() == b.to_bytes()
}

struct World {
    cfg: Config,
    program: Pubkey,
    mint: Pubkey,
    pool: Pubkey,
    bump: u8,
    vault: Pubkey,
    bump_sol: u8,
    user: Pubkey,
    user_token: Pubkey,
    fee_collector: Pubkey,
}

fn world() -> World {
    let program = key(7);
    let mint = key(8);
    let (pool, bump) = Pubkey::find_program_address(&[&mint.to_bytes()], &program);
    let (vault, bump_sol) = Pubkey::find_program_address(&[&pool.to_bytes()], &program);
    let user = key(9);
    let user_token = spl_associated_token_account::get_associated_token_address(&user, &mint);
    let cfg = Config {
        program_id: addr(&program),
        system_program: addr(&solana_program::system_program::id()),
        token_program: addr(&spl_token::id()),
        provider_fee_collector: addr(&key(11)),
    };
    World { cfg, program, mint, pool, bump, vault, bump_sol, user, user_token, fee_collector: key(10) }
}

fn account(k: &Pubkey, owner: &Address, lamports: u64, is_signer: bool) -> AccountRef {
    AccountRef { key: addr(k), owner: *owner, lamports, is_signer }
}

fn pool_data(w: &World, fee: u16) -> Vec<u8> {
    let record = PageTokenSwap {
        is_initialized: true,
        bump_seed: w.bump,
        bump_seed_sol: w.bump_sol,
        fee,
        fee_collector_pubkey: addr(&w.fee_collector),
    };
    let mut buf = vec![0u8; POOL_LEN];
    record.pack_into_slice(&mut buf);
    buf
}

fn mint_state(w: &World, supply: u64) -> TokenMint {
    TokenMint { supply, is_initialized: true, mint_authority: Some(addr(&w.pool)) }
}

fn buy_accounts(w: &World, usable: u64) -> BuyAccounts {
    let sys = w.cfg.system_program;
    let tok = w.cfg.token_program;
    BuyAccounts {
        payer: account(&w.user, &sys, 1_000_000_000, true),
        payer_token: account(&w.user_token, &tok, 2_039_280, false),
        pool: account(&w.pool, &w.cfg.program_id, 1_148_640, false),
        vault: account(&w.vault, &sys, EXEMPTION + usable, false),
        mint: account(&w.mint, &tok, 1_461_600, false),
        pool_fee_collector: account(&w.fee_collector, &sys, 5, false),
        provider_fee_collector: account(&key(11), &sys, 5, false),
        system_program: account(&solana_program::system_program::id(), &sys, 1, false),
        token_program: account(&spl_token::id(), &sys, 1, false),
    }
}

fn sell_accounts(w: &World, usable: u64) -> SellAccounts {
    let b = buy_accounts(w, usable);
    SellAccounts {
        seller: b.payer,
        seller_token: b.payer_token,
        pool: b.pool,
        vault: b.vault,
        mint: b.mint,
        provider_fee_collector: b.provider_fee_collector,
        system_program: b.system_program,
        token_program: b.token_program,
    }
}

fn curve_tokens(supply: u64, usable: u64, adjusted: u64) -> u64 {
    let s = (supply + 1_000_000_000) as f64;
    (s * ((1.0 + adjusted as f64 / usable as f64).powf(0.60976) - 1.0)) as u64
}

#[test]
fn derivation_matches_search() {
    let w = world();
    assert!(derived(&addr(&w.pool), &addr(&w.mint), w.bump, &w.cfg.program_id));
    assert!(!derived(&addr(&w.pool), &addr(&w.mint), w.bump.wrapping_sub(1), &w.cfg.program_id));
    assert!(!derived(&addr(&w.mint), &addr(&w.mint), w.bump, &w.cfg.program_id));
}

#[test]
fn initialize_scenario() {
    let w = world();
    let sys = w.cfg.system_program;
    let acc = InitializeAccounts {
        payer: account(&w.user, &sys, 10_000_000_000, true),
        mint: account(&w.mint, &sys, 0, true),
        pool: account(&w.pool, &sys, 0, false),
        vault: account(&w.vault, &sys, 0, false),
        fee_collector: account(&w.fee_collector, &sys, 0, false),
        system_program: account(&solana_program::system_program::id(), &sys, 1, false),
        token_program: account(&spl_token::id(), &sys, 1, false),
    };
    let (ops, record) = Processor::initialize_page_token(&w.cfg, &acc, EXEMPTION).unwrap();
    assert!(record.is_initialized);
    assert_eq!(record.fee, 2500);
    assert_eq!(record.bump_seed, w.bump);
    assert_eq!(record.bump_seed_sol, w.bump_sol);
    assert!(same(&record.fee_collector_pubkey, &w.fee_collector));
    assert_eq!(ops.len(), 5);
    match &ops[2] {
        LedgerOp::Transfer { from, to, lamports, derived_signer } => {
            assert!(same(from, &w.user) && same(to, &w.vault));
            assert_eq!(*lamports, 36 + EXEMPTION);
            assert!(derived_signer.is_none());
        }
        other => panic!("unexpected {:?}", other),
    }
    match &ops[4] {
        LedgerOp::InitializeMint { mint, authority, decimals, .. } => {
            assert!(same(mint, &w.mint) && same(authority, &w.pool));
            assert_eq!(*decimals, 9);
        }
        other => panic!("unexpected {:?}", other),
    }
    let mut used = acc;
    used.pool.lamports = 1;
    assert_eq!(Processor::initialize_page_token(&w.cfg, &used, EXEMPTION).unwrap_err(), VisionError::AlreadyInUse);
    let mut moved = acc;
    moved.vault.key = addr(&key(12));
    assert_eq!(
        Processor::initialize_page_token(&w.cfg, &moved, EXEMPTION).unwrap_err(),
        VisionError::InvalidAccountAddress
    );
    let mut unsigned = acc;
    unsigned.mint.is_signer = false;
    assert_eq!(
        Processor::initialize_page_token(&w.cfg, &unsigned, EXEMPTION).unwrap_err(),
        VisionError::SignatureRequired
    );
    assert_eq!(Processor::initialize_page_token(&w.cfg, &acc, u64::MAX).unwrap_err(), VisionError::Overflow);
}

#[test]
fn buy_scenario() {
    let w = world();
    let acc = buy_accounts(&w, 36);
    let tokens = curve_tokens(0, 36, 96);
    assert!(tokens > 0);
    let (ops, amt) =
        Processor::buy(&w.cfg, &acc, &mint_state(&w, 0), &pool_data(&w, 2500), EXEMPTION, 100, 0, tokens).unwrap();
    assert_eq!(amt, BuyAmt { adjusted_amount_in: 96, token_amt: tokens as u128, fee_page: 2, fee_provider: 1 });
    assert_eq!(ops.len(), 4);
    match &ops[0] {
        LedgerOp::MintTo { to, authority, amount, signer, .. } => {
            assert!(same(to, &w.user_token) && same(authority, &w.pool));
            assert_eq!(*amount, tokens);
            assert!(same(&signer.seed, &w.mint));
            assert_eq!(signer.bump, w.bump);
        }
        other => panic!("unexpected {:?}", other),
    }
    let lamports: Vec<u64> = ops[1..]
        .iter()
        .map(|op| match op {
            LedgerOp::Transfer { lamports, .. } => *lamports,
            other => panic!("unexpected {:?}", other),
        })
        .collect();
    assert_eq!(lamports, vec![96, 1, 2]);
}

#[test]
fn buy_slippage() {
    let w = world();
    let acc = buy_accounts(&w, 36);
    let data = pool_data(&w, 2500);
    let m = mint_state(&w, 0);
    assert!(Processor::buy(&w.cfg, &acc, &m, &data, EXEMPTION, 100, 500, 500).is_ok());
    assert_eq!(
        Processor::buy(&w.cfg, &acc, &m, &data, EXEMPTION, 100, 501, 500).unwrap_err(),
        VisionError::ExceededSlippage
    );
}

#[test]
fn buy_balance_and_overflow() {
    let w = world();
    let acc = buy_accounts(&w, 36);
    let data = pool_data(&w, 2500);
    assert_eq!(
        Processor::buy(&w.cfg, &acc, &mint_state(&w, 0), &data, EXEMPTION, 1_000_000_001, 0, 1).unwrap_err(),
        VisionError::BalanceTooSmall
    );
    assert_eq!(
        Processor::buy(&w.cfg, &acc, &mint_state(&w, u64::MAX), &data, EXEMPTION, 1, 0, 1).unwrap_err(),
        VisionError::Overflow
    );
    assert_eq!(
        Processor::buy(&w.cfg, &acc, &mint_state(&w, 0), &data, u64::MAX, 1, 0, 1).unwrap_err(),
        VisionError::Overflow
    );
}

#[test]
fn buy_rejects_tampered_references() {
    let w = world();
    let good = buy_accounts(&w, 36);
    let data = pool_data(&w, 2500);
    let m = mint_state(&w, 0);
    let run = |acc: &BuyAccounts| Processor::buy(&w.cfg, acc, &m, &data, EXEMPTION, 100, 0, 10).map(|_| ());
    assert_eq!(run(&good), Ok(()));
    let mut a = good;
    a.payer_token.key = addr(&key(20));
    assert_eq!(run(&a), Err(VisionError::InvalidAccountAddress));
    let mut a = good;
    a.pool.key = addr(&key(20));
    assert_eq!(run(&a), Err(VisionError::InvalidAccountAddress));
    let mut a = good;
    a.vault.key = addr(&key(20));
    assert_eq!(run(&a), Err(VisionError::InvalidAccountAddress));
    let mut a = good;
    a.pool_fee_collector.key = addr(&key(20));
    assert_eq!(run(&a), Err(VisionError::InvalidAccountAddress));
    let mut a = good;
    a.provider_fee_collector.key = addr(&key(20));
    assert_eq!(run(&a), Err(VisionError::InvalidAccountAddress));
    let mut a = good;
    a.token_program.key = addr(&key(20));
    assert_eq!(run(&a), Err(VisionError::InvalidProgramAddress));
    let mut a = good;
    a.vault.owner = w.cfg.token_program;
    assert_eq!(run(&a), Err(VisionError::InvalidAccountOwnerProgram));
    let mut a = good;
    a.payer.is_signer = false;
    assert_eq!(run(&a), Err(VisionError::SignatureRequired));
    let foreign = TokenMint { supply: 0, is_initialized: true, mint_authority: Some(addr(&key(20))) };
    assert_eq!(
        Processor::buy(&w.cfg, &good, &foreign, &data, EXEMPTION, 100, 0, 10).unwrap_err(),
        VisionError::InvalidMint
    );
}

#[test]
fn sell_reserve_guard_scenario() {
    let w = world();
    let acc = sell_accounts(&w, 40);
    let data = pool_data(&w, 2500);
    let m = mint_state(&w, 5_000);
    assert_eq!(
        Processor::sell(&w.cfg, &acc, &m, &data, EXEMPTION, 5_000, 100, 0, 10).unwrap_err(),
        VisionError::ReserveError
    );
    let ops = Processor::sell(&w.cfg, &acc, &m, &data, EXEMPTION, 5_000, 100, 0, 4).unwrap();
    assert_eq!(ops.len(), 3);
    match &ops[1] {
        LedgerOp::Transfer { from, to, lamports, derived_signer } => {
            assert!(same(from, &w.vault) && same(to, &w.user));
            assert_eq!(*lamports, 3);
            let s = derived_signer.unwrap();
            assert!(same(&s.seed, &w.pool));
            assert_eq!(s.bump, w.bump_sol);
        }
        other => panic!("unexpected {:?}", other),
    }
    match &ops[2] {
        LedgerOp::Burn { account, amount, .. } => {
            assert!(same(account, &w.user_token));
            assert_eq!(*amount, 100);
        }
        other => panic!("unexpected {:?}", other),
    }
}

#[test]
fn sell_balance_and_slippage() {
    let w = world();
    let acc = sell_accounts(&w, 10_000);
    let data = pool_data(&w, 2500);
    let m = mint_state(&w, 5_000);
    assert_eq!(
        Processor::sell(&w.cfg, &acc, &m, &data, EXEMPTION, 99, 100, 0, 10).unwrap_err(),
        VisionError::BalanceTooSmall
    );
    let ops = Processor::sell(&w.cfg, &acc, &m, &data, EXEMPTION, 100, 100, 198, 200).unwrap();
    match &ops[0] {
        LedgerOp::Transfer { lamports, .. } => assert_eq!(*lamports, 2),
        other => panic!("unexpected {:?}", other),
    }
    assert_eq!(
        Processor::sell(&w.cfg, &acc, &m, &data, EXEMPTION, 100, 100, 199, 200).unwrap_err(),
        VisionError::ExceededSlippage
    );
    let mut a = acc;
    a.seller_token.key = addr(&key(20));
    assert_eq!(
        Processor::sell(&w.cfg, &a, &m, &data, EXEMPTION, 100, 100, 0, 200).unwrap_err(),
        VisionError::InvalidAccountAddress
    );
}

fn change_fee_accounts(w: &World, new_collector: &Pubkey, new_lamports: u64) -> ChangeFeeAccounts {
    let sys = w.cfg.system_program;
    ChangeFeeAccounts {
        fee_collector: account(&w.fee_collector, &sys, 5_000_000, true),
        new_fee_collector: account(new_collector, &sys, new_lamports, false),
        pool: account(&w.pool, &w.cfg.program_id, 1_148_640, false),
        mint: account(&w.mint, &w.cfg.token_program, 1_461_600, false),
        system_program: account(&solana_program::system_program::id(), &sys, 1, false),
    }
}

#[test]
fn change_fee_bound() {
    let w = world();
    let acc = change_fee_accounts(&w, &w.fee_collector, 5_000_000);
    let data = pool_data(&w, 2500);
    let m = mint_state(&w, 0);
    let (ops, record) = Processor::change_page_fee(&w.cfg, &acc, &m, &data, EXEMPTION, 50000).unwrap();
    assert_eq!(record.fee, 50000);
    assert_eq!(ops.len(), 1);
    let (_, record) = Processor::change_page_fee(&w.cfg, &acc, &m, &data, EXEMPTION, 0).unwrap();
    assert_eq!(record.fee, 0);
    assert_eq!(
        Processor::change_page_fee(&w.cfg, &acc, &m, &data, EXEMPTION, 50001).unwrap_err(),
        VisionError::InvalidFee
    );
}

#[test]
fn change_fee_collector() {
    let w = world();
    let fresh = key(30);
    let acc = change_fee_accounts(&w, &fresh, 0);
    let data = pool_data(&w, 2500);
    let m = mint_state(&w, 0);
    let (ops, record) = Processor::change_page_fee(&w.cfg, &acc, &m, &data, EXEMPTION, 2500).unwrap();
    assert!(same(&record.fee_collector_pubkey, &fresh));
    assert_eq!(record.fee, 2500);
    assert_eq!(ops.len(), 2);
    match &ops[0] {
        LedgerOp::Transfer { from, to, lamports, .. } => {
            assert!(same(from, &w.fee_collector) && same(to, &fresh));
            assert_eq!(*lamports, EXEMPTION);
        }
        other => panic!("unexpected {:?}", other),
    }
    let mut unsigned = acc;
    unsigned.fee_collector.is_signer = false;
    assert_eq!(
        Processor::change_page_fee(&w.cfg, &unsigned, &m, &data, EXEMPTION, 2500).unwrap_err(),
        VisionError::InvalidFeeAccount
    );
    let mut stranger = acc;
    stranger.fee_collector.key = addr(&key(31));
    assert_eq!(
        Processor::change_page_fee(&w.cfg, &stranger, &m, &data, EXEMPTION, 2500).unwrap_err(),
        VisionError::InvalidAccountAddress
    );
    let mut empty = data.clone();
    empty[0] = 0;
    assert_eq!(
        Processor::change_page_fee(&w.cfg, &acc, &m, &empty, EXEMPTION, 2500).unwrap_err(),
        VisionError::UninitializedAccount
    );
}
