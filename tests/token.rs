use solana_program::program_option::COption;
use solana_program::program_pack::Pack;
use solana_program::pubkey::Pubkey;
use spl_token::state::{Account, AccountState, Mint};
use vision_amm::accounts::TokenMint;
use vision_amm::error::VisionError;
use vision_amm::token::token_balance;

fn packed_mint(authority: COption<Pubkey>, supply: u64, is_initialized: bool) -> Vec<u8> {
    let mint = Mint { mint_authority: authority, supply, decimals: 9, is_initialized, freeze_authority: COption::None };
    let mut data = vec![0u8; Mint::LEN];
    Mint::pack(mint, &mut data).unwrap();
    data
}

#[test]
fn reads_token_descriptor() {
    let authority = Pubkey::new_from_array([5u8; 32]);
    let m = TokenMint::unpack(&packed_mint(COption::Some(authority), 123_456, true)).unwrap();
    assert_eq!(m.supply, 123_456);
    assert!(m.is_initialized);
    assert_eq!(m.mint_authority.unwrap().to_bytes(), [5u8; 32]);
    let m = TokenMint::unpack(&packed_mint(COption::None, 0, false)).unwrap();
    assert_eq!(m.supply, 0);
    assert!(!m.is_initialized);
    assert!(m.mint_authority.is_none());
}

#[test]
fn rejects_malformed_token_descriptor() {
    let mut data = packed_mint(COption::None, 1, true);
    data[0] = 2;
    assert_eq!(TokenMint::unpack(&data).unwrap_err(), VisionError::InvalidAccountData);
    let data = packed_mint(COption::None, 1, true);
    assert_eq!(TokenMint::unpack(&data[..81]).unwrap_err(), VisionError::InvalidAccountData);
}

#[test]
fn reads_token_balance() {
    let account = Account {
        mint: Pubkey::new_from_array([1u8; 32]),
        owner: Pubkey::new_from_array([2u8; 32]),
        amount: 777,
        delegate: COption::None,
        state: AccountState::Initialized,
        is_native: COption::None,
        delegated_amount: 0,
        close_authority: COption::None,
    };
    let mut data = vec![0u8; Account::LEN];
    Account::pack(account, &mut data).unwrap();
    assert_eq!(token_balance(&data), Ok(777));
    assert_eq!(token_balance(&data[..100]), Err(VisionError::InvalidAccountData));
    assert_eq!(token_balance(&vec![0u8; Account::LEN]), Err(VisionError::InvalidAccountData));
}
