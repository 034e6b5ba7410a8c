//! The four operations: each validates every reference, prices the trade, and
//! returns the ordered ledger operations that settle it. The host applies them
//! as one atomic unit, or none of them where an error is returned.

use vstd::prelude::*;
use crate::accounts::{AccountRef, Config, TokenMint, owned_by, derives, mint_controlled_by, owned, derived, mint_controlled};
use crate::address::{Address, associated_address, found_program_address, get_associated_token_address, find_program_address};
use crate::error::VisionError;
use crate::pricing::{VIRTUAL_SUPPLY, BOOTSTRAP_COLLATERAL, spec_buy_amt, spec_provider_fee, spec_sell_net, quote_buy, quote_sell, check_reserve, effective_supply, usable_reserve};
use crate::state::{PageTokenSwap, PoolView, BuyAmt, MAX_FEE, spec_decode};

verus! {

/// The pool fee of a new pool, in units of 1/100000.
pub const DEFAULT_FEE: u16 = 2500;

/// Decimals of every token descriptor the engine creates.
pub const MINT_DECIMALS: u8 = 9;

/// The right to act for a derived address: the seed and bump that derive it
/// under this program. The host checks it; it is never stored.
#[derive(Clone, Copy, Debug)]
pub struct Authority {
    pub seed: Address,
    pub bump: u8,
}

/// One operation on the host ledger.
#[derive(Clone, Copy, Debug)]
pub enum LedgerOp {
    /// Create the pool's record account, owned by `owner`, signed for by the pool's authority.
    CreatePool { payer: Address, pool: Address, owner: Address, signer: Authority },
    /// Store the record that the operation returned in the pool's account.
    WritePool { pool: Address },
    /// Move base currency; `derived_signer` is present where a derived address pays.
    Transfer { from: Address, to: Address, lamports: u64, derived_signer: Option<Authority> },
    /// Create a token descriptor's account, owned by the token program.
    CreateMint { payer: Address, mint: Address, token_program: Address },
    /// Initialize a token descriptor with its issuance authority.
    InitializeMint { token_program: Address, mint: Address, authority: Address, decimals: u8 },
    /// Issue tokens, signed for by the pool's authority.
    MintTo { token_program: Address, mint: Address, to: Address, authority: Address, amount: u64, signer: Authority },
    /// Burn tokens from an account, signed by its owner.
    Burn { token_program: Address, account: Address, mint: Address, owner: Address, amount: u64 },
}

/// The accounts of a purchase.
#[derive(Clone, Copy, Debug)]
pub struct BuyAccounts {
    pub payer: AccountRef,
    pub payer_token: AccountRef,
    pub pool: AccountRef,
    pub vault: AccountRef,
    pub mint: AccountRef,
    pub pool_fee_collector: AccountRef,
    pub provider_fee_collector: AccountRef,
    pub system_program: AccountRef,
    pub token_program: AccountRef,
}

/// The first check that a purchase fails, in the order they are made, or `None`.
/// `tokens` is what the curve gives for the purchase.
pub open spec fn buy_error(
    cfg: Config,
    acc: BuyAccounts,
    mint: TokenMint,
    pool_data: Seq<u8>,
    exemption_minimum: u64,
    amount_in: u64,
    minimum_amount_out: u64,
    tokens: u64,
) -> Option<VisionError> {
    let p = spec_decode(pool_data).unwrap();
    if spec_decode(pool_data) is None {
        Some(VisionError::InvalidAccountData)
    } else if !p.is_initialized {
        Some(VisionError::UninitializedAccount)
    } else if mint.supply + VIRTUAL_SUPPLY > u64::MAX {
        Some(VisionError::Overflow)
    } else if acc.vault.lamports < exemption_minimum {
        Some(VisionError::Overflow)
    } else if amount_in > acc.payer.lamports {
        Some(VisionError::BalanceTooSmall)
    } else if tokens < minimum_amount_out {
        Some(VisionError::ExceededSlippage)
    } else if !acc.payer.is_signer {
        Some(VisionError::SignatureRequired)
    } else if !owned_by(acc.payer, cfg.system_program) {
        Some(VisionError::InvalidAccountOwnerProgram)
    } else if !owned_by(acc.payer_token, cfg.token_program) {
        Some(VisionError::InvalidAccountOwnerProgram)
    } else if acc.payer_token.key@ != associated_address(acc.payer.key@, acc.mint.key@) {
        Some(VisionError::InvalidAccountAddress)
    } else if !owned_by(acc.pool, cfg.program_id) {
        Some(VisionError::InvalidAccountOwnerProgram)
    } else if !derives(acc.pool.key, acc.mint.key, p.bump_seed, cfg.program_id) {
        Some(VisionError::InvalidAccountAddress)
    } else if !derives(acc.vault.key, acc.pool.key, p.bump_seed_sol, cfg.program_id) {
        Some(VisionError::InvalidAccountAddress)
    } else if !owned_by(acc.vault, cfg.system_program) {
        Some(VisionError::InvalidAccountOwnerProgram)
    } else if !owned_by(acc.mint, cfg.token_program) {
        Some(VisionError::InvalidAccountOwnerProgram)
    } else if !mint_controlled_by(mint, acc.pool.key) {
        Some(VisionError::InvalidMint)
    } else if !owned_by(acc.pool_fee_collector, cfg.system_program) {
        Some(VisionError::InvalidAccountOwnerProgram)
    } else if acc.pool_fee_collector.key@ != p.fee_collector {
        Some(VisionError::InvalidAccountAddress)
    } else if !owned_by(acc.provider_fee_collector, cfg.system_program) {
        Some(VisionError::InvalidAccountOwnerProgram)
    } else if acc.provider_fee_collector.key@ != cfg.provider_fee_collector@ {
        Some(VisionError::InvalidAccountAddress)
    } else if acc.system_program.key@ != cfg.system_program@ {
        Some(VisionError::InvalidProgramAddress)
    } else if acc.token_program.key@ != cfg.token_program@ {
        Some(VisionError::InvalidProgramAddress)
    } else {
        None
    }
}

/// The settlement of a valid purchase: issue the tokens to the buyer, then pay
/// the vault, the provider and the pool's fee collector from the buyer.
pub open spec fn buy_ops(acc: BuyAccounts, p: PoolView, amount_in: u64, tokens: u64) -> Seq<LedgerOp> {
    let amt = spec_buy_amt(amount_in, p.fee, tokens);
    seq![
        LedgerOp::MintTo {
            token_program: acc.token_program.key,
            mint: acc.mint.key,
            to: acc.payer_token.key,
            authority: acc.pool.key,
            amount: tokens,
            signer: Authority { seed: acc.mint.key, bump: p.bump_seed },
        },
        LedgerOp::Transfer { from: acc.payer.key, to: acc.vault.key, lamports: amt.adjusted_amount_in as u64, derived_signer: None },
        LedgerOp::Transfer { from: acc.payer.key, to: acc.provider_fee_collector.key, lamports: amt.fee_provider as u64, derived_signer: None },
        LedgerOp::Transfer { from: acc.payer.key, to: acc.pool_fee_collector.key, lamports: amt.fee_page as u64, derived_signer: None },
    ]
}

/// The accounts of a sale.
#[derive(Clone, Copy, Debug)]
pub struct SellAccounts {
    pub seller: AccountRef,
    pub seller_token: AccountRef,
    pub pool: AccountRef,
    pub vault: AccountRef,
    pub mint: AccountRef,
    pub provider_fee_collector: AccountRef,
    pub system_program: AccountRef,
    pub token_program: AccountRef,
}

/// The first check that a sale fails, in the order they are made, or `None`.
/// `gross_out` is what the curve pays for the tokens, before the provider fee.
pub open spec fn sell_error(
    cfg: Config,
    acc: SellAccounts,
    mint: TokenMint,
    pool_data: Seq<u8>,
    exemption_minimum: u64,
    seller_tokens: u64,
    amount_in: u64,
    minimum_amount_out: u64,
    gross_out: u64,
) -> Option<VisionError> {
    let p = spec_decode(pool_data).unwrap();
    let reserve = acc.vault.lamports - exemption_minimum;
    if spec_decode(pool_data) is None {
        Some(VisionError::InvalidAccountData)
    } else if !p.is_initialized {
        Some(VisionError::UninitializedAccount)
    } else if mint.supply + VIRTUAL_SUPPLY > u64::MAX {
        Some(VisionError::Overflow)
    } else if acc.vault.lamports < exemption_minimum {
        Some(VisionError::Overflow)
    } else if amount_in > seller_tokens {
        Some(VisionError::BalanceTooSmall)
    } else if reserve < BOOTSTRAP_COLLATERAL {
        Some(VisionError::Overflow)
    } else if gross_out > reserve - BOOTSTRAP_COLLATERAL {
        Some(VisionError::ReserveError)
    } else if spec_sell_net(gross_out) < minimum_amount_out {
        Some(VisionError::ExceededSlippage)
    } else if !acc.seller.is_signer {
        Some(VisionError::SignatureRequired)
    } else if !owned_by(acc.seller, cfg.system_program) {
        Some(VisionError::InvalidAccountOwnerProgram)
    } else if !owned_by(acc.seller_token, cfg.token_program) {
        Some(VisionError::InvalidAccountOwnerProgram)
    } else if acc.seller_token.key@ != associated_address(acc.seller.key@, acc.mint.key@) {
        Some(VisionError::InvalidAccountAddress)
    } else if !owned_by(acc.pool, cfg.program_id) {
        Some(VisionError::InvalidAccountOwnerProgram)
    } else if !derives(acc.pool.key, acc.mint.key, p.bump_seed, cfg.program_id) {
        Some(VisionError::InvalidAccountAddress)
    } else if !derives(acc.vault.key, acc.pool.key, p.bump_seed_sol, cfg.program_id) {
        Some(VisionError::InvalidAccountAddress)
    } else if !owned_by(acc.vault, cfg.system_program) {
        Some(VisionError::InvalidAccountOwnerProgram)
    } else if !owned_by(acc.mint, cfg.token_program) {
        Some(VisionError::InvalidAccountOwnerProgram)
    } else if !mint_controlled_by(mint, acc.pool.key) {
        Some(VisionError::InvalidMint)
    } else if !owned_by(acc.provider_fee_collector, cfg.system_program) {
        Some(VisionError::InvalidAccountOwnerProgram)
    } else if acc.provider_fee_collector.key@ != cfg.provider_fee_collector@ {
        Some(VisionError::InvalidAccountAddress)
    } else if acc.system_program.key@ != cfg.system_program@ {
        Some(VisionError::InvalidProgramAddress)
    } else if acc.token_program.key@ != cfg.token_program@ {
        Some(VisionError::InvalidProgramAddress)
    } else {
        None
    }
}

/// The settlement of a valid sale: the vault pays the provider fee and the
/// seller's share, then the seller's tokens are burnt.
pub open spec fn sell_ops(acc: SellAccounts, p: PoolView, amount_in: u64, gross_out: u64) -> Seq<LedgerOp> {
    let vault_signer = Some(Authority { seed: acc.pool.key, bump: p.bump_seed_sol });
    seq![
        LedgerOp::Transfer {
            from: acc.vault.key,
            to: acc.provider_fee_collector.key,
            lamports: spec_provider_fee(gross_out) as u64,
            derived_signer: vault_signer,
        },
        LedgerOp::Transfer {
            from: acc.vault.key,
            to: acc.seller.key,
            lamports: spec_sell_net(gross_out) as u64,
            derived_signer: vault_signer,
        },
        LedgerOp::Burn {
            token_program: acc.token_program.key,
            account: acc.seller_token.key,
            mint: acc.mint.key,
            owner: acc.seller.key,
            amount: amount_in,
        },
    ]
}

/// The accounts of pool creation.
#[derive(Clone, Copy, Debug)]
pub struct InitializeAccounts {
    pub payer: AccountRef,
    pub mint: AccountRef,
    pub pool: AccountRef,
    pub vault: AccountRef,
    pub fee_collector: AccountRef,
    pub system_program: AccountRef,
    pub token_program: AccountRef,
}

/// Whether a search for `seed` under `program` finds `key`.
pub open spec fn found_at(key: Address, seed: Address, program: Address) -> bool {
    match found_program_address(seed@, program@) {
        Some((a, _)) => a == key@,
        None => false,
    }
}

/// The bump that a search for `seed` under `program` finds.
pub open spec fn found_bump(seed: Address, program: Address) -> u8 {
    found_program_address(seed@, program@).unwrap().1
}

/// The first check that pool creation fails, in the order they are made, or `None`.
pub open spec fn initialize_error(cfg: Config, acc: InitializeAccounts, exemption_minimum: u64) -> Option<VisionError> {
    if BOOTSTRAP_COLLATERAL + exemption_minimum > u64::MAX {
        Some(VisionError::Overflow)
    } else if !acc.payer.is_signer {
        Some(VisionError::SignatureRequired)
    } else if !owned_by(acc.payer, cfg.system_program) {
        Some(VisionError::InvalidAccountOwnerProgram)
    } else if acc.mint.lamports > 0 {
        Some(VisionError::AlreadyInUse)
    } else if !acc.mint.is_signer {
        Some(VisionError::SignatureRequired)
    } else if acc.pool.lamports > 0 {
        Some(VisionError::AlreadyInUse)
    } else if !found_at(acc.pool.key, acc.mint.key, cfg.program_id) {
        Some(VisionError::InvalidAccountAddress)
    } else if acc.vault.lamports > 0 {
        Some(VisionError::AlreadyInUse)
    } else if !found_at(acc.vault.key, acc.pool.key, cfg.program_id) {
        Some(VisionError::InvalidAccountAddress)
    } else if acc.fee_collector.lamports > 0 && !owned_by(acc.fee_collector, cfg.system_program) {
        Some(VisionError::InvalidAccountOwnerProgram)
    } else if acc.system_program.key@ != cfg.system_program@ {
        Some(VisionError::InvalidProgramAddress)
    } else if acc.token_program.key@ != cfg.token_program@ {
        Some(VisionError::InvalidProgramAddress)
    } else {
        None
    }
}

/// The record of a new pool.
pub open spec fn initial_record(cfg: Config, acc: InitializeAccounts) -> PoolView {
    PoolView {
        is_initialized: true,
        bump_seed: found_bump(acc.mint.key, cfg.program_id),
        bump_seed_sol: found_bump(acc.pool.key, cfg.program_id),
        fee: DEFAULT_FEE,
        fee_collector: acc.fee_collector.key@,
    }
}

/// The settlement of pool creation: create and write the pool record, fund the
/// vault with the collateral and its exemption minimum, then create the token
/// descriptor with the pool as its issuance authority.
pub open spec fn initialize_ops(cfg: Config, acc: InitializeAccounts, exemption_minimum: u64) -> Seq<LedgerOp> {
    seq![
        LedgerOp::CreatePool {
            payer: acc.payer.key,
            pool: acc.pool.key,
            owner: cfg.program_id,
            signer: Authority { seed: acc.mint.key, bump: found_bump(acc.mint.key, cfg.program_id) },
        },
        LedgerOp::WritePool { pool: acc.pool.key },
        LedgerOp::Transfer {
            from: acc.payer.key,
            to: acc.vault.key,
            lamports: (BOOTSTRAP_COLLATERAL + exemption_minimum) as u64,
            derived_signer: None,
        },
        LedgerOp::CreateMint { payer: acc.payer.key, mint: acc.mint.key, token_program: acc.token_program.key },
        LedgerOp::InitializeMint {
            token_program: acc.token_program.key,
            mint: acc.mint.key,
            authority: acc.pool.key,
            decimals: MINT_DECIMALS,
        },
    ]
}

/// The accounts of a fee change.
#[derive(Clone, Copy, Debug)]
pub struct ChangeFeeAccounts {
    pub fee_collector: AccountRef,
    pub new_fee_collector: AccountRef,
    pub pool: AccountRef,
    pub mint: AccountRef,
    pub system_program: AccountRef,
}

/// The first check that a fee change fails, in the order they are made, or `None`.
pub open spec fn change_fee_error(
    cfg: Config,
    acc: ChangeFeeAccounts,
    mint: TokenMint,
    pool_data: Seq<u8>,
    fee: u16,
) -> Option<VisionError> {
    let p = spec_decode(pool_data).unwrap();
    if spec_decode(pool_data) is None {
        Some(VisionError::InvalidAccountData)
    } else if !p.is_initialized {
        Some(VisionError::UninitializedAccount)
    } else if !acc.fee_collector.is_signer {
        Some(VisionError::InvalidFeeAccount)
    } else if !owned_by(acc.fee_collector, cfg.system_program) {
        Some(VisionError::InvalidAccountOwnerProgram)
    } else if acc.fee_collector.key@ != p.fee_collector {
        Some(VisionError::InvalidAccountAddress)
    } else if acc.new_fee_collector.lamports > 0 && !owned_by(acc.new_fee_collector, cfg.system_program) {
        Some(VisionError::InvalidAccountOwnerProgram)
    } else if !owned_by(acc.pool, cfg.program_id) {
        Some(VisionError::InvalidAccountOwnerProgram)
    } else if !derives(acc.pool.key, acc.mint.key, p.bump_seed, cfg.program_id) {
        Some(VisionError::InvalidAccountAddress)
    } else if !owned_by(acc.mint, cfg.token_program) {
        Some(VisionError::InvalidAccountOwnerProgram)
    } else if !mint_controlled_by(mint, acc.pool.key) {
        Some(VisionError::InvalidMint)
    } else if acc.system_program.key@ != cfg.system_program@ {
        Some(VisionError::InvalidProgramAddress)
    } else if fee != p.fee && fee > MAX_FEE {
        Some(VisionError::InvalidFee)
    } else {
        None
    }
}

/// The record after a valid fee change: the new collector and the new fee.
pub open spec fn changed_record(acc: ChangeFeeAccounts, p: PoolView, fee: u16) -> PoolView {
    PoolView { fee_collector: acc.new_fee_collector.key@, fee: fee, ..p }
}

/// The settlement of a valid fee change: fund the new collector with the
/// exemption minimum where it holds nothing yet, then write the record.
pub open spec fn change_fee_ops(acc: ChangeFeeAccounts, exemption_minimum: u64) -> Seq<LedgerOp> {
    let write = seq![LedgerOp::WritePool { pool: acc.pool.key }];
    if acc.new_fee_collector.lamports == 0 {
        seq![
            LedgerOp::Transfer {
                from: acc.fee_collector.key,
                to: acc.new_fee_collector.key,
                lamports: exemption_minimum,
                derived_signer: None,
            },
        ] + write
    } else {
        write
    }
}

/// Decodes a pool record and requires it initialized.
fn load_pool(pool_data: &[u8]) -> (r: Result<PageTokenSwap, VisionError>)
    ensures
        spec_decode(pool_data@) is None ==> r == Err::<PageTokenSwap, VisionError>(VisionError::InvalidAccountData),
        spec_decode(pool_data@) is Some && !spec_decode(pool_data@).unwrap().is_initialized
            ==> r == Err::<PageTokenSwap, VisionError>(VisionError::UninitializedAccount),
        spec_decode(pool_data@) is Some && spec_decode(pool_data@).unwrap().is_initialized
            ==> (r matches Ok(p) && p@ == spec_decode(pool_data@).unwrap()),
{
    let pool = match PageTokenSwap::unpack_from_slice(pool_data) {
        Ok(p) => p,
        Err(e) => return Err(e),
    };
    if !pool.is_initialized() {
        return Err(VisionError::UninitializedAccount);
    }
    Ok(pool)
}

/// The operations of the engine.
pub struct Processor {}

impl Processor {
    /// Validates and prices a purchase of tokens for `amount_in` of base currency.
    /// `tokens` is what the bonding curve gives for the purchase: the effective
    /// supply times `(1 + adjusted_in / usable_reserve)^0.60976 - 1`, rounded down.
    #[verifier::rlimit(50)]
    pub fn buy(
        cfg: &Config,
        acc: &BuyAccounts,
        mint: &TokenMint,
        pool_data: &[u8],
        exemption_minimum: u64,
        amount_in: u64,
        minimum_amount_out: u64,
        tokens: u64,
    ) -> (r: Result<(Vec<LedgerOp>, BuyAmt), VisionError>)
        ensures
            r is Ok <==> buy_error(*cfg, *acc, *mint, pool_data@, exemption_minimum, amount_in, minimum_amount_out, tokens) is None,
            r matches Err(e) ==> buy_error(*cfg, *acc, *mint, pool_data@, exemption_minimum, amount_in, minimum_amount_out, tokens) == Some(e),
            r matches Ok((ops, amt)) ==> ops@ == buy_ops(*acc, spec_decode(pool_data@).unwrap(), amount_in, tokens)
                && amt == spec_buy_amt(amount_in, spec_decode(pool_data@).unwrap().fee, tokens),
    {
        let pool = match load_pool(pool_data) {
            Ok(p) => p,
            Err(e) => return Err(e),
        };
        if let Err(e) = effective_supply(mint.supply) {
            return Err(e);
        }
        if let Err(e) = usable_reserve(acc.vault.lamports, exemption_minimum) {
            return Err(e);
        }
        let amt = quote_buy(amount_in, pool.fee, tokens);
        if amount_in > acc.payer.lamports {
            return Err(VisionError::BalanceTooSmall);
        }
        if tokens < minimum_amount_out {
            return Err(VisionError::ExceededSlippage);
        }
        if !acc.payer.is_signer {
            return Err(VisionError::SignatureRequired);
        }
        if !owned(&acc.payer, &cfg.system_program) {
            return Err(VisionError::InvalidAccountOwnerProgram);
        }
        if !owned(&acc.payer_token, &cfg.token_program) {
            return Err(VisionError::InvalidAccountOwnerProgram);
        }
        let ata = get_associated_token_address(&acc.payer.key, &acc.mint.key);
        if !acc.payer_token.key.same(&ata) {
            return Err(VisionError::InvalidAccountAddress);
        }
        if !owned(&acc.pool, &cfg.program_id) {
            return Err(VisionError::InvalidAccountOwnerProgram);
        }
        if !derived(&acc.pool.key, &acc.mint.key, pool.bump_seed, &cfg.program_id) {
            return Err(VisionError::InvalidAccountAddress);
        }
        if !derived(&acc.vault.key, &acc.pool.key, pool.bump_seed_sol, &cfg.program_id) {
            return Err(VisionError::InvalidAccountAddress);
        }
        if !owned(&acc.vault, &cfg.system_program) {
            return Err(VisionError::InvalidAccountOwnerProgram);
        }
        if !owned(&acc.mint, &cfg.token_program) {
            return Err(VisionError::InvalidAccountOwnerProgram);
        }
        if !mint_controlled(mint, &acc.pool.key) {
            return Err(VisionError::InvalidMint);
        }
        if !owned(&acc.pool_fee_collector, &cfg.system_program) {
            return Err(VisionError::InvalidAccountOwnerProgram);
        }
        if !acc.pool_fee_collector.key.same(&pool.fee_collector_pubkey) {
            return Err(VisionError::InvalidAccountAddress);
        }
        if !owned(&acc.provider_fee_collector, &cfg.system_program) {
            return Err(VisionError::InvalidAccountOwnerProgram);
        }
        if !acc.provider_fee_collector.key.same(&cfg.provider_fee_collector) {
            return Err(VisionError::InvalidAccountAddress);
        }
        if !acc.system_program.key.same(&cfg.system_program) {
            return Err(VisionError::InvalidProgramAddress);
        }
        if !acc.token_program.key.same(&cfg.token_program) {
            return Err(VisionError::InvalidProgramAddress);
        }
        let ops = vec![
            LedgerOp::MintTo {
                token_program: acc.token_program.key,
                mint: acc.mint.key,
                to: acc.payer_token.key,
                authority: acc.pool.key,
                amount: tokens,
                signer: Authority { seed: acc.mint.key, bump: pool.bump_seed },
            },
            LedgerOp::Transfer { from: acc.payer.key, to: acc.vault.key, lamports: amt.adjusted_amount_in as u64, derived_signer: None },
            LedgerOp::Transfer { from: acc.payer.key, to: acc.provider_fee_collector.key, lamports: amt.fee_provider as u64, derived_signer: None },
            LedgerOp::Transfer { from: acc.payer.key, to: acc.pool_fee_collector.key, lamports: amt.fee_page as u64, derived_signer: None },
        ];
        assert(ops@ =~= buy_ops(*acc, pool@, amount_in, tokens));
        Ok((ops, amt))
    }

    /// Validates and prices a sale of `amount_in` tokens. `seller_tokens` is the
    /// seller's token balance; `gross_out` is what the bonding curve pays for
    /// the tokens: the usable reserve times
    /// `1 - (1 - amount_in / effective_supply)^(1/0.60976)`, rounded down.
    #[verifier::rlimit(50)]
    pub fn sell(
        cfg: &Config,
        acc: &SellAccounts,
        mint: &TokenMint,
        pool_data: &[u8],
        exemption_minimum: u64,
        seller_tokens: u64,
        amount_in: u64,
        minimum_amount_out: u64,
        gross_out: u64,
    ) -> (r: Result<Vec<LedgerOp>, VisionError>)
        ensures
            r is Ok <==> sell_error(*cfg, *acc, *mint, pool_data@, exemption_minimum, seller_tokens, amount_in, minimum_amount_out, gross_out) is None,
            r matches Err(e) ==> sell_error(*cfg, *acc, *mint, pool_data@, exemption_minimum, seller_tokens, amount_in, minimum_amount_out, gross_out) == Some(e),
            r matches Ok(ops) ==> ops@ == sell_ops(*acc, spec_decode(pool_data@).unwrap(), amount_in, gross_out),
    {
        let pool = match load_pool(pool_data) {
            Ok(p) => p,
            Err(e) => return Err(e),
        };
        if let Err(e) = effective_supply(mint.supply) {
            return Err(e);
        }
        let reserve = match usable_reserve(acc.vault.lamports, exemption_minimum) {
            Ok(v) => v,
            Err(e) => return Err(e),
        };
        let (provider_fee, net_out) = quote_sell(gross_out);
        if amount_in > seller_tokens {
            return Err(VisionError::BalanceTooSmall);
        }
        if let Some(e) = check_reserve(reserve, gross_out) {
            return Err(e);
        }
        if net_out < minimum_amount_out {
            return Err(VisionError::ExceededSlippage);
        }
        if !acc.seller.is_signer {
            return Err(VisionError::SignatureRequired);
        }
        if !owned(&acc.seller, &cfg.system_program) {
            return Err(VisionError::InvalidAccountOwnerProgram);
        }
        if !owned(&acc.seller_token, &cfg.token_program) {
            return Err(VisionError::InvalidAccountOwnerProgram);
        }
        let ata = get_associated_token_address(&acc.seller.key, &acc.mint.key);
        if !acc.seller_token.key.same(&ata) {
            return Err(VisionError::InvalidAccountAddress);
        }
        if !owned(&acc.pool, &cfg.program_id) {
            return Err(VisionError::InvalidAccountOwnerProgram);
        }
        if !derived(&acc.pool.key, &acc.mint.key, pool.bump_seed, &cfg.program_id) {
            return Err(VisionError::InvalidAccountAddress);
        }
        if !derived(&acc.vault.key, &acc.pool.key, pool.bump_seed_sol, &cfg.program_id) {
            return Err(VisionError::InvalidAccountAddress);
        }
        if !owned(&acc.vault, &cfg.system_program) {
            return Err(VisionError::InvalidAccountOwnerProgram);
        }
        if !owned(&acc.mint, &cfg.token_program) {
            return Err(VisionError::InvalidAccountOwnerProgram);
        }
        if !mint_controlled(mint, &acc.pool.key) {
            return Err(VisionError::InvalidMint);
        }
        if !owned(&acc.provider_fee_collector, &cfg.system_program) {
            return Err(VisionError::InvalidAccountOwnerProgram);
        }
        if !acc.provider_fee_collector.key.same(&cfg.provider_fee_collector) {
            return Err(VisionError::InvalidAccountAddress);
        }
        if !acc.system_program.key.same(&cfg.system_program) {
            return Err(VisionError::InvalidProgramAddress);
        }
        if !acc.token_program.key.same(&cfg.token_program) {
            return Err(VisionError::InvalidProgramAddress);
        }
        let vault_signer = Authority { seed: acc.pool.key, bump: pool.bump_seed_sol };
        let ops = vec![
            LedgerOp::Transfer {
                from: acc.vault.key,
                to: acc.provider_fee_collector.key,
                lamports: provider_fee,
                derived_signer: Some(vault_signer),
            },
            LedgerOp::Transfer {
                from: acc.vault.key,
                to: acc.seller.key,
                lamports: net_out,
                derived_signer: Some(vault_signer),
            },
            LedgerOp::Burn {
                token_program: acc.token_program.key,
                account: acc.seller_token.key,
                mint: acc.mint.key,
                owner: acc.seller.key,
                amount: amount_in,
            },
        ];
        assert(ops@ =~= sell_ops(*acc, pool@, amount_in, gross_out));
        Ok(ops)
    }

    /// Validates the creation of a pool and returns its settlement with the new
    /// pool record. The pool and vault addresses and their bumps are searched
    /// for afresh.
    #[verifier::rlimit(50)]
    pub fn initialize_page_token(
        cfg: &Config,
        acc: &InitializeAccounts,
        exemption_minimum: u64,
    ) -> (r: Result<(Vec<LedgerOp>, PageTokenSwap), VisionError>)
        ensures
            r is Ok <==> initialize_error(*cfg, *acc, exemption_minimum) is None,
            r matches Err(e) ==> initialize_error(*cfg, *acc, exemption_minimum) == Some(e),
            r matches Ok((ops, record)) ==> ops@ == initialize_ops(*cfg, *acc, exemption_minimum)
                && record@ == initial_record(*cfg, *acc),
            r matches Ok((ops, record)) ==> derives(acc.pool.key, acc.mint.key, record.bump_seed, cfg.program_id)
                && derives(acc.vault.key, acc.pool.key, record.bump_seed_sol, cfg.program_id),
    {
        let pda = find_program_address(&acc.mint.key, &cfg.program_id);
        let pda_sol = find_program_address(&acc.pool.key, &cfg.program_id);
        let collateral = match BOOTSTRAP_COLLATERAL.checked_add(exemption_minimum) {
            Some(v) => v,
            None => return Err(VisionError::Overflow),
        };
        if !acc.payer.is_signer {
            return Err(VisionError::SignatureRequired);
        }
        if !owned(&acc.payer, &cfg.system_program) {
            return Err(VisionError::InvalidAccountOwnerProgram);
        }
        if acc.mint.lamports > 0 {
            return Err(VisionError::AlreadyInUse);
        }
        if !acc.mint.is_signer {
            return Err(VisionError::SignatureRequired);
        }
        if acc.pool.lamports > 0 {
            return Err(VisionError::AlreadyInUse);
        }
        let bump_seed = match pda {
            Some((a, b)) => if a.same(&acc.pool.key) {
                b
            } else {
                return Err(VisionError::InvalidAccountAddress);
            },
            None => return Err(VisionError::InvalidAccountAddress),
        };
        if acc.vault.lamports > 0 {
            return Err(VisionError::AlreadyInUse);
        }
        let bump_seed_sol = match pda_sol {
            Some((a, b)) => if a.same(&acc.vault.key) {
                b
            } else {
                return Err(VisionError::InvalidAccountAddress);
            },
            None => return Err(VisionError::InvalidAccountAddress),
        };
        if acc.fee_collector.lamports > 0 && !owned(&acc.fee_collector, &cfg.system_program) {
            return Err(VisionError::InvalidAccountOwnerProgram);
        }
        if !acc.system_program.key.same(&cfg.system_program) {
            return Err(VisionError::InvalidProgramAddress);
        }
        if !acc.token_program.key.same(&cfg.token_program) {
            return Err(VisionError::InvalidProgramAddress);
        }
        let record = PageTokenSwap {
            is_initialized: true,
            bump_seed,
            bump_seed_sol,
            fee: DEFAULT_FEE,
            fee_collector_pubkey: acc.fee_collector.key,
        };
        let ops = vec![
            LedgerOp::CreatePool {
                payer: acc.payer.key,
                pool: acc.pool.key,
                owner: cfg.program_id,
                signer: Authority { seed: acc.mint.key, bump: bump_seed },
            },
            LedgerOp::WritePool { pool: acc.pool.key },
            LedgerOp::Transfer { from: acc.payer.key, to: acc.vault.key, lamports: collateral, derived_signer: None },
            LedgerOp::CreateMint { payer: acc.payer.key, mint: acc.mint.key, token_program: acc.token_program.key },
            LedgerOp::InitializeMint {
                token_program: acc.token_program.key,
                mint: acc.mint.key,
                authority: acc.pool.key,
                decimals: MINT_DECIMALS,
            },
        ];
        assert(ops@ =~= initialize_ops(*cfg, *acc, exemption_minimum));
        Ok((ops, record))
    }

    /// Validates a change of the pool fee to `fee` and of the fee collector to
    /// the new collector's account, and returns its settlement with the new
    /// record. Only the current fee collector may sign for it.
    #[verifier::rlimit(50)]
    pub fn change_page_fee(
        cfg: &Config,
        acc: &ChangeFeeAccounts,
        mint: &TokenMint,
        pool_data: &[u8],
        exemption_minimum: u64,
        fee: u16,
    ) -> (r: Result<(Vec<LedgerOp>, PageTokenSwap), VisionError>)
        ensures
            r is Ok <==> change_fee_error(*cfg, *acc, *mint, pool_data@, fee) is None,
            r matches Err(e) ==> change_fee_error(*cfg, *acc, *mint, pool_data@, fee) == Some(e),
            r matches Ok((ops, record)) ==> ops@ == change_fee_ops(*acc, exemption_minimum)
                && record@ == changed_record(*acc, spec_decode(pool_data@).unwrap(), fee),
    {
        let mut pool = match load_pool(pool_data) {
            Ok(p) => p,
            Err(e) => return Err(e),
        };
        if !acc.fee_collector.is_signer {
            return Err(VisionError::InvalidFeeAccount);
        }
        if !owned(&acc.fee_collector, &cfg.system_program) {
            return Err(VisionError::InvalidAccountOwnerProgram);
        }
        if !acc.fee_collector.key.same(&pool.fee_collector_pubkey) {
            return Err(VisionError::InvalidAccountAddress);
        }
        if acc.new_fee_collector.lamports > 0 && !owned(&acc.new_fee_collector, &cfg.system_program) {
            return Err(VisionError::InvalidAccountOwnerProgram);
        }
        if !owned(&acc.pool, &cfg.program_id) {
            return Err(VisionError::InvalidAccountOwnerProgram);
        }
        if !derived(&acc.pool.key, &acc.mint.key, pool.bump_seed, &cfg.program_id) {
            return Err(VisionError::InvalidAccountAddress);
        }
        if !owned(&acc.mint, &cfg.token_program) {
            return Err(VisionError::InvalidAccountOwnerProgram);
        }
        if !mint_controlled(mint, &acc.pool.key) {
            return Err(VisionError::InvalidMint);
        }
        if !acc.system_program.key.same(&cfg.system_program) {
            return Err(VisionError::InvalidProgramAddress);
        }
        let mut ops: Vec<LedgerOp> = Vec::new();
        if acc.new_fee_collector.lamports == 0 {
            ops.push(LedgerOp::Transfer {
                from: acc.fee_collector.key,
                to: acc.new_fee_collector.key,
                lamports: exemption_minimum,
                derived_signer: None,
            });
        }
        if !acc.fee_collector.key.same(&acc.new_fee_collector.key) {
            pool.fee_collector_pubkey = acc.new_fee_collector.key;
        }
        if fee != pool.fee {
            if fee > MAX_FEE {
                return Err(VisionError::InvalidFee);
            }
            pool.fee = fee;
        }
        ops.push(LedgerOp::WritePool { pool: acc.pool.key });
        assert(ops@ =~= change_fee_ops(*acc, exemption_minimum));
        assert(pool@ =~= changed_record(*acc, spec_decode(pool_data@).unwrap(), fee));
        Ok((ops, pool))
    }
}

} // verus!
