//! Properties that relate the operations' specifications across inputs.

use vstd::prelude::*;
use crate::accounts::{AccountRef, Config, TokenMint, owned_by, derives};
use crate::address::{Address, associated_address};
use crate::error::VisionError;
use crate::processor::{
    BuyAccounts, SellAccounts, ChangeFeeAccounts, InitializeAccounts, buy_error, sell_error, change_fee_error,
    changed_record, initialize_error, found_at,
};
use crate::pricing::spec_sell_net;
use crate::state::{MAX_FEE, spec_decode, spec_encode, lemma_decode_encode};

verus! {

/// Where every other check of a fee change passes, a fee within `0..=50000` is
/// accepted and stored, and survives encoding and decoding of the record; a
/// larger fee is refused with `InvalidFee`, so nothing is stored.
pub proof fn lemma_fee_bound(cfg: Config, acc: ChangeFeeAccounts, mint: TokenMint, pool_data: Seq<u8>, fee: u16)
    requires
        spec_decode(pool_data) is Some,
        spec_decode(pool_data).unwrap().fee <= MAX_FEE,
        change_fee_error(cfg, acc, mint, pool_data, spec_decode(pool_data).unwrap().fee) is None,
    ensures
        fee <= MAX_FEE ==> change_fee_error(cfg, acc, mint, pool_data, fee) is None,
        fee <= MAX_FEE ==> changed_record(acc, spec_decode(pool_data).unwrap(), fee).fee == fee,
        fee <= MAX_FEE ==> spec_decode(spec_encode(changed_record(acc, spec_decode(pool_data).unwrap(), fee)))
            == Some(changed_record(acc, spec_decode(pool_data).unwrap(), fee)),
        fee > MAX_FEE ==> change_fee_error(cfg, acc, mint, pool_data, fee) == Some(VisionError::InvalidFee),
{
    let r = changed_record(acc, spec_decode(pool_data).unwrap(), fee);
    assert(acc.new_fee_collector.key@.len() == 32);
    lemma_decode_encode(r);
}

/// Where every other check of a purchase passes, it is refused with
/// `ExceededSlippage` exactly when the tokens out fall short of the minimum.
pub proof fn lemma_buy_slippage(
    cfg: Config,
    acc: BuyAccounts,
    mint: TokenMint,
    pool_data: Seq<u8>,
    exemption_minimum: u64,
    amount_in: u64,
    minimum_amount_out: u64,
    tokens: u64,
)
    requires
        buy_error(cfg, acc, mint, pool_data, exemption_minimum, amount_in, 0, tokens) is None,
    ensures
        tokens < minimum_amount_out ==> buy_error(cfg, acc, mint, pool_data, exemption_minimum, amount_in, minimum_amount_out, tokens)
            == Some(VisionError::ExceededSlippage),
        tokens >= minimum_amount_out ==> buy_error(cfg, acc, mint, pool_data, exemption_minimum, amount_in, minimum_amount_out, tokens) is None,
{
}

/// Where every other check of a sale passes, it is refused with
/// `ExceededSlippage` exactly when the seller's share falls short of the minimum.
pub proof fn lemma_sell_slippage(
    cfg: Config,
    acc: SellAccounts,
    mint: TokenMint,
    pool_data: Seq<u8>,
    exemption_minimum: u64,
    seller_tokens: u64,
    amount_in: u64,
    minimum_amount_out: u64,
    gross_out: u64,
)
    requires
        sell_error(cfg, acc, mint, pool_data, exemption_minimum, seller_tokens, amount_in, 0, gross_out) is None,
    ensures
        spec_sell_net(gross_out) < minimum_amount_out ==> sell_error(
            cfg, acc, mint, pool_data, exemption_minimum, seller_tokens, amount_in, minimum_amount_out, gross_out,
        ) == Some(VisionError::ExceededSlippage),
        spec_sell_net(gross_out) >= minimum_amount_out ==> sell_error(
            cfg, acc, mint, pool_data, exemption_minimum, seller_tokens, amount_in, minimum_amount_out, gross_out,
        ) is None,
{
}

/// `a` with its key replaced by `k`.
pub open spec fn with_key(a: AccountRef, k: Address) -> AccountRef {
    AccountRef { key: k, ..a }
}

/// `a` with its owner replaced by `o`.
pub open spec fn with_owner(a: AccountRef, o: Address) -> AccountRef {
    AccountRef { owner: o, ..a }
}

/// From a valid purchase, replacing any one checked address by one that does
/// not match what it must be refuses the purchase with the matching error.
pub proof fn lemma_buy_rejects_wrong_address(
    cfg: Config,
    acc: BuyAccounts,
    mint: TokenMint,
    pool_data: Seq<u8>,
    exemption_minimum: u64,
    amount_in: u64,
    minimum_amount_out: u64,
    tokens: u64,
    k: Address,
)
    requires
        buy_error(cfg, acc, mint, pool_data, exemption_minimum, amount_in, minimum_amount_out, tokens) is None,
    ensures
        k@ != associated_address(acc.payer.key@, acc.mint.key@) ==> buy_error(
            cfg, BuyAccounts { payer_token: with_key(acc.payer_token, k), ..acc }, mint, pool_data, exemption_minimum,
            amount_in, minimum_amount_out, tokens,
        ) == Some(VisionError::InvalidAccountAddress),
        !derives(k, acc.mint.key, spec_decode(pool_data).unwrap().bump_seed, cfg.program_id) ==> buy_error(
            cfg, BuyAccounts { pool: with_key(acc.pool, k), ..acc }, mint, pool_data, exemption_minimum,
            amount_in, minimum_amount_out, tokens,
        ) == Some(VisionError::InvalidAccountAddress),
        !derives(k, acc.pool.key, spec_decode(pool_data).unwrap().bump_seed_sol, cfg.program_id) ==> buy_error(
            cfg, BuyAccounts { vault: with_key(acc.vault, k), ..acc }, mint, pool_data, exemption_minimum,
            amount_in, minimum_amount_out, tokens,
        ) == Some(VisionError::InvalidAccountAddress),
        k@ != spec_decode(pool_data).unwrap().fee_collector ==> buy_error(
            cfg, BuyAccounts { pool_fee_collector: with_key(acc.pool_fee_collector, k), ..acc }, mint, pool_data,
            exemption_minimum, amount_in, minimum_amount_out, tokens,
        ) == Some(VisionError::InvalidAccountAddress),
        k@ != cfg.provider_fee_collector@ ==> buy_error(
            cfg, BuyAccounts { provider_fee_collector: with_key(acc.provider_fee_collector, k), ..acc }, mint,
            pool_data, exemption_minimum, amount_in, minimum_amount_out, tokens,
        ) == Some(VisionError::InvalidAccountAddress),
        k@ != cfg.system_program@ ==> buy_error(
            cfg, BuyAccounts { system_program: with_key(acc.system_program, k), ..acc }, mint, pool_data,
            exemption_minimum, amount_in, minimum_amount_out, tokens,
        ) == Some(VisionError::InvalidProgramAddress),
        k@ != cfg.token_program@ ==> buy_error(
            cfg, BuyAccounts { token_program: with_key(acc.token_program, k), ..acc }, mint, pool_data,
            exemption_minimum, amount_in, minimum_amount_out, tokens,
        ) == Some(VisionError::InvalidProgramAddress),
{
}

/// From a valid purchase, giving any one checked account an owner other than
/// the one it must have refuses the purchase with `InvalidAccountOwnerProgram`.
pub proof fn lemma_buy_rejects_wrong_owner(
    cfg: Config,
    acc: BuyAccounts,
    mint: TokenMint,
    pool_data: Seq<u8>,
    exemption_minimum: u64,
    amount_in: u64,
    minimum_amount_out: u64,
    tokens: u64,
    o: Address,
)
    requires
        buy_error(cfg, acc, mint, pool_data, exemption_minimum, amount_in, minimum_amount_out, tokens) is None,
    ensures
        o@ != cfg.system_program@ ==> buy_error(
            cfg, BuyAccounts { payer: with_owner(acc.payer, o), ..acc }, mint, pool_data, exemption_minimum,
            amount_in, minimum_amount_out, tokens,
        ) == Some(VisionError::InvalidAccountOwnerProgram),
        o@ != cfg.token_program@ ==> buy_error(
            cfg, BuyAccounts { payer_token: with_owner(acc.payer_token, o), ..acc }, mint, pool_data,
            exemption_minimum, amount_in, minimum_amount_out, tokens,
        ) == Some(VisionError::InvalidAccountOwnerProgram),
        o@ != cfg.program_id@ ==> buy_error(
            cfg, BuyAccounts { pool: with_owner(acc.pool, o), ..acc }, mint, pool_data, exemption_minimum,
            amount_in, minimum_amount_out, tokens,
        ) == Some(VisionError::InvalidAccountOwnerProgram),
        o@ != cfg.system_program@ ==> buy_error(
            cfg, BuyAccounts { vault: with_owner(acc.vault, o), ..acc }, mint, pool_data, exemption_minimum,
            amount_in, minimum_amount_out, tokens,
        ) == Some(VisionError::InvalidAccountOwnerProgram),
        o@ != cfg.token_program@ ==> buy_error(
            cfg, BuyAccounts { mint: with_owner(acc.mint, o), ..acc }, mint, pool_data, exemption_minimum,
            amount_in, minimum_amount_out, tokens,
        ) == Some(VisionError::InvalidAccountOwnerProgram),
        o@ != cfg.system_program@ ==> buy_error(
            cfg, BuyAccounts { pool_fee_collector: with_owner(acc.pool_fee_collector, o), ..acc }, mint, pool_data,
            exemption_minimum, amount_in, minimum_amount_out, tokens,
        ) == Some(VisionError::InvalidAccountOwnerProgram),
        o@ != cfg.system_program@ ==> buy_error(
            cfg, BuyAccounts { provider_fee_collector: with_owner(acc.provider_fee_collector, o), ..acc }, mint,
            pool_data, exemption_minimum, amount_in, minimum_amount_out, tokens,
        ) == Some(VisionError::InvalidAccountOwnerProgram),
{
}

/// From a valid sale, replacing any one checked address by one that does not
/// match what it must be refuses the sale with the matching error.
pub proof fn lemma_sell_rejects_wrong_address(
    cfg: Config,
    acc: SellAccounts,
    mint: TokenMint,
    pool_data: Seq<u8>,
    exemption_minimum: u64,
    seller_tokens: u64,
    amount_in: u64,
    minimum_amount_out: u64,
    gross_out: u64,
    k: Address,
)
    requires
        sell_error(cfg, acc, mint, pool_data, exemption_minimum, seller_tokens, amount_in, minimum_amount_out, gross_out) is None,
    ensures
        k@ != associated_address(acc.seller.key@, acc.mint.key@) ==> sell_error(
            cfg, SellAccounts { seller_token: with_key(acc.seller_token, k), ..acc }, mint, pool_data, exemption_minimum,
            seller_tokens, amount_in, minimum_amount_out, gross_out,
        ) == Some(VisionError::InvalidAccountAddress),
        !derives(k, acc.mint.key, spec_decode(pool_data).unwrap().bump_seed, cfg.program_id) ==> sell_error(
            cfg, SellAccounts { pool: with_key(acc.pool, k), ..acc }, mint, pool_data, exemption_minimum,
            seller_tokens, amount_in, minimum_amount_out, gross_out,
        ) == Some(VisionError::InvalidAccountAddress),
        !derives(k, acc.pool.key, spec_decode(pool_data).unwrap().bump_seed_sol, cfg.program_id) ==> sell_error(
            cfg, SellAccounts { vault: with_key(acc.vault, k), ..acc }, mint, pool_data, exemption_minimum,
            seller_tokens, amount_in, minimum_amount_out, gross_out,
        ) == Some(VisionError::InvalidAccountAddress),
        k@ != cfg.provider_fee_collector@ ==> sell_error(
            cfg, SellAccounts { provider_fee_collector: with_key(acc.provider_fee_collector, k), ..acc }, mint, pool_data, exemption_minimum,
            seller_tokens, amount_in, minimum_amount_out, gross_out,
        ) == Some(VisionError::InvalidAccountAddress),
        k@ != cfg.system_program@ ==> sell_error(
            cfg, SellAccounts { system_program: with_key(acc.system_program, k), ..acc }, mint, pool_data, exemption_minimum,
            seller_tokens, amount_in, minimum_amount_out, gross_out,
        ) == Some(VisionError::InvalidProgramAddress),
        k@ != cfg.token_program@ ==> sell_error(
            cfg, SellAccounts { token_program: with_key(acc.token_program, k), ..acc }, mint, pool_data, exemption_minimum,
            seller_tokens, amount_in, minimum_amount_out, gross_out,
        ) == Some(VisionError::InvalidProgramAddress),
{
}

/// From a valid sale, giving any one checked account an owner other than the
/// one it must have refuses the sale with `InvalidAccountOwnerProgram`.
pub proof fn lemma_sell_rejects_wrong_owner(
    cfg: Config,
    acc: SellAccounts,
    mint: TokenMint,
    pool_data: Seq<u8>,
    exemption_minimum: u64,
    seller_tokens: u64,
    amount_in: u64,
    minimum_amount_out: u64,
    gross_out: u64,
    k: Address,
)
    requires
        sell_error(cfg, acc, mint, pool_data, exemption_minimum, seller_tokens, amount_in, minimum_amount_out, gross_out) is None,
    ensures
        k@ != cfg.system_program@ ==> sell_error(
            cfg, SellAccounts { seller: with_owner(acc.seller, k), ..acc }, mint, pool_data, exemption_minimum,
            seller_tokens, amount_in, minimum_amount_out, gross_out,
        ) == Some(VisionError::InvalidAccountOwnerProgram),
        k@ != cfg.token_program@ ==> sell_error(
            cfg, SellAccounts { seller_token: with_owner(acc.seller_token, k), ..acc }, mint, pool_data, exemption_minimum,
            seller_tokens, amount_in, minimum_amount_out, gross_out,
        ) == Some(VisionError::InvalidAccountOwnerProgram),
        k@ != cfg.program_id@ ==> sell_error(
            cfg, SellAccounts { pool: with_owner(acc.pool, k), ..acc }, mint, pool_data, exemption_minimum,
            seller_tokens, amount_in, minimum_amount_out, gross_out,
        ) == Some(VisionError::InvalidAccountOwnerProgram),
        k@ != cfg.system_program@ ==> sell_error(
            cfg, SellAccounts { vault: with_owner(acc.vault, k), ..acc }, mint, pool_data, exemption_minimum,
            seller_tokens, amount_in, minimum_amount_out, gross_out,
        ) == Some(VisionError::InvalidAccountOwnerProgram),
        k@ != cfg.token_program@ ==> sell_error(
            cfg, SellAccounts { mint: with_owner(acc.mint, k), ..acc }, mint, pool_data, exemption_minimum,
            seller_tokens, amount_in, minimum_amount_out, gross_out,
        ) == Some(VisionError::InvalidAccountOwnerProgram),
        k@ != cfg.system_program@ ==> sell_error(
            cfg, SellAccounts { provider_fee_collector: with_owner(acc.provider_fee_collector, k), ..acc }, mint, pool_data, exemption_minimum,
            seller_tokens, amount_in, minimum_amount_out, gross_out,
        ) == Some(VisionError::InvalidAccountOwnerProgram),
{
}

/// From a valid fee change, replacing any one checked address or owner by one
/// that does not match what it must be refuses the change with the matching error.
pub proof fn lemma_change_fee_rejects_tampering(
    cfg: Config,
    acc: ChangeFeeAccounts,
    mint: TokenMint,
    pool_data: Seq<u8>,
    fee: u16,
    k: Address,
)
    requires
        change_fee_error(cfg, acc, mint, pool_data, fee) is None,
    ensures
        k@ != spec_decode(pool_data).unwrap().fee_collector ==> change_fee_error(
            cfg, ChangeFeeAccounts { fee_collector: with_key(acc.fee_collector, k), ..acc }, mint, pool_data, fee,
        ) == Some(VisionError::InvalidAccountAddress),
        !derives(k, acc.mint.key, spec_decode(pool_data).unwrap().bump_seed, cfg.program_id) ==> change_fee_error(
            cfg, ChangeFeeAccounts { pool: with_key(acc.pool, k), ..acc }, mint, pool_data, fee,
        ) == Some(VisionError::InvalidAccountAddress),
        k@ != cfg.system_program@ ==> change_fee_error(
            cfg, ChangeFeeAccounts { system_program: with_key(acc.system_program, k), ..acc }, mint, pool_data, fee,
        ) == Some(VisionError::InvalidProgramAddress),
        k@ != cfg.system_program@ ==> change_fee_error(
            cfg, ChangeFeeAccounts { fee_collector: with_owner(acc.fee_collector, k), ..acc }, mint, pool_data, fee,
        ) == Some(VisionError::InvalidAccountOwnerProgram),
        acc.new_fee_collector.lamports > 0 && k@ != cfg.system_program@ ==> change_fee_error(
            cfg, ChangeFeeAccounts { new_fee_collector: with_owner(acc.new_fee_collector, k), ..acc }, mint, pool_data, fee,
        ) == Some(VisionError::InvalidAccountOwnerProgram),
        k@ != cfg.program_id@ ==> change_fee_error(
            cfg, ChangeFeeAccounts { pool: with_owner(acc.pool, k), ..acc }, mint, pool_data, fee,
        ) == Some(VisionError::InvalidAccountOwnerProgram),
        k@ != cfg.token_program@ ==> change_fee_error(
            cfg, ChangeFeeAccounts { mint: with_owner(acc.mint, k), ..acc }, mint, pool_data, fee,
        ) == Some(VisionError::InvalidAccountOwnerProgram),
{
}

/// From a valid pool creation, replacing any one checked address or owner by
/// one that does not match what it must be refuses the creation with the
/// matching error.
pub proof fn lemma_initialize_rejects_tampering(
    cfg: Config,
    acc: InitializeAccounts,
    exemption_minimum: u64,
    k: Address,
)
    requires
        initialize_error(cfg, acc, exemption_minimum) is None,
    ensures
        !found_at(k, acc.mint.key, cfg.program_id) ==> initialize_error(
            cfg, InitializeAccounts { pool: with_key(acc.pool, k), ..acc }, exemption_minimum,
        ) == Some(VisionError::InvalidAccountAddress),
        !found_at(k, acc.pool.key, cfg.program_id) ==> initialize_error(
            cfg, InitializeAccounts { vault: with_key(acc.vault, k), ..acc }, exemption_minimum,
        ) == Some(VisionError::InvalidAccountAddress),
        k@ != cfg.system_program@ ==> initialize_error(
            cfg, InitializeAccounts { system_program: with_key(acc.system_program, k), ..acc }, exemption_minimum,
        ) == Some(VisionError::InvalidProgramAddress),
        k@ != cfg.token_program@ ==> initialize_error(
            cfg, InitializeAccounts { token_program: with_key(acc.token_program, k), ..acc }, exemption_minimum,
        ) == Some(VisionError::InvalidProgramAddress),
        k@ != cfg.system_program@ ==> initialize_error(
            cfg, InitializeAccounts { payer: with_owner(acc.payer, k), ..acc }, exemption_minimum,
        ) == Some(VisionError::InvalidAccountOwnerProgram),
        acc.fee_collector.lamports > 0 && k@ != cfg.system_program@ ==> initialize_error(
            cfg, InitializeAccounts { fee_collector: with_owner(acc.fee_collector, k), ..acc }, exemption_minimum,
        ) == Some(VisionError::InvalidAccountOwnerProgram),
{
}

} // verus!
