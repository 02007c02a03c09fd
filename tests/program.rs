use liquidgen_faucet::address::Address;
use liquidgen_faucet::authority::{derive_authority, find_authority};
use liquidgen_faucet::error::ProgramError;
use liquidgen_faucet::instruction::Instruction;
use liquidgen_faucet::program::{
    faucet_mint, initialize, process_instruction, AccountInfo, Effect,
};
use liquidgen_faucet::state::{Config, WalletState};

fn addr(b: u8) -> Address {
    Address { bytes: [b; 32] }
}

fn account(key: Address, is_signer: bool, data: Vec<u8>) -> AccountInfo {
    AccountInfo { key, is_signer, data }
}

fn mint_data(decimals: u8) -> Vec<u8> {
    let mut d = vec![0u8; 82];
    d[44] = decimals;
    d[45] = 1;
    d
}

const PROGRAM: u8 = 7;
const ADMIN: u8 = 1;
const SERVER: u8 = 2;
const MINT: u8 = 3;
const TOKEN_PROGRAM: u8 = 4;
const RECIPIENT: u8 = 5;
const WALLET_STATE: u8 = 6;

/// Runs `Initialize` and returns the config account's data.
fn initialized_config(cooldown: u64) -> Vec<u8> {
    let mut accounts = vec![
        account(addr(ADMIN), true, vec![]),
        account(addr(9), false, vec![]),
        account(addr(MINT), false, mint_data(6)),
        account(addr(SERVER), false, vec![]),
    ];
    let data = Instruction::Initialize { cooldown_seconds: cooldown }.pack();
    let r = process_instruction(&addr(PROGRAM), &mut accounts, &data, 0, true);
    assert!(matches!(r, Ok(Effect::Initialized)));
    accounts[1].data.clone()
}

fn mint_accounts(signer: Address, config: Vec<u8>, wallet: Vec<u8>) -> Vec<AccountInfo> {
    let (authority, _bump) = find_authority(&addr(MINT), &addr(PROGRAM)).unwrap();
    vec![
        account(signer, true, vec![]),
        account(addr(9), false, config),
        account(addr(WALLET_STATE), false, wallet),
        account(addr(MINT), false, mint_data(6)),
        account(addr(TOKEN_PROGRAM), false, vec![]),
        account(addr(RECIPIENT), false, vec![]),
        account(authority, false, vec![]),
    ]
}

#[test]
fn unpack_initialize() {
    let mut data = vec![0u8];
    data.extend_from_slice(&3600u64.to_le_bytes());
    assert_eq!(
        Instruction::unpack(&data),
        Ok(Instruction::Initialize { cooldown_seconds: 3600 })
    );
}

#[test]
fn unpack_faucet_mint_ignores_trailing_bytes() {
    let mut data = vec![1u8];
    data.extend_from_slice(&1000u64.to_le_bytes());
    data.push(0xff);
    assert_eq!(Instruction::unpack(&data), Ok(Instruction::FaucetMint { amount: 1000 }));
}

#[test]
fn unpack_rejects_unknown_tag_and_truncation() {
    assert_eq!(Instruction::unpack(&[]), Err(ProgramError::InvalidInstructionData));
    assert_eq!(Instruction::unpack(&[2, 0, 0, 0, 0, 0, 0, 0, 0]), Err(ProgramError::InvalidInstructionData));
    assert_eq!(Instruction::unpack(&[1, 1, 2, 3]), Err(ProgramError::InvalidInstructionData));
    assert_eq!(Instruction::unpack(&[0]), Err(ProgramError::InvalidInstructionData));
}

#[test]
fn pack_encodes_tag_and_little_endian_argument() {
    assert_eq!(
        Instruction::FaucetMint { amount: 0x0102 }.pack(),
        vec![1, 0x02, 0x01, 0, 0, 0, 0, 0, 0]
    );
    let ix = Instruction::Initialize { cooldown_seconds: u64::MAX };
    assert_eq!(Instruction::unpack(&ix.pack()), Ok(ix));
}

#[test]
fn config_layout_round_trip() {
    let c = Config {
        admin: addr(1),
        authorized_server: addr(2),
        mint: addr(3),
        cooldown_seconds: 0x0a0b,
        bump: 254,
    };
    let bytes = c.pack();
    assert_eq!(bytes.len(), 105);
    assert_eq!(&bytes[0..32], &[1u8; 32]);
    assert_eq!(&bytes[32..64], &[2u8; 32]);
    assert_eq!(&bytes[96..104], &[0x0b, 0x0a, 0, 0, 0, 0, 0, 0]);
    assert_eq!(bytes[104], 254);
    let back = Config::unpack(&bytes).unwrap();
    assert_eq!(back.authorized_server.bytes, [2u8; 32]);
    assert_eq!(back.cooldown_seconds, 0x0a0b);
    assert!(Config::unpack(&bytes[..104]).is_none());
}

#[test]
fn wallet_state_load() {
    assert_eq!(WalletState::load(&[]), Some(WalletState { last_mint_timestamp: 0 }));
    assert_eq!(
        WalletState::load(&[0x10, 0, 0, 0, 0, 0, 0, 0]),
        Some(WalletState { last_mint_timestamp: 16 })
    );
    assert_eq!(WalletState::load(&[1, 2, 3]), None);
    assert_eq!(WalletState { last_mint_timestamp: 16 }.pack(), vec![0x10, 0, 0, 0, 0, 0, 0, 0]);
}

#[test]
fn initialize_writes_config_with_server_and_canonical_bump() {
    let config = initialized_config(3600);
    let c = Config::unpack(&config).unwrap();
    assert_eq!(c.admin.bytes, [ADMIN; 32]);
    assert_eq!(c.authorized_server.bytes, [SERVER; 32]);
    assert_eq!(c.mint.bytes, [MINT; 32]);
    assert_eq!(c.cooldown_seconds, 3600);
    let (authority, bump) = find_authority(&addr(MINT), &addr(PROGRAM)).unwrap();
    assert_eq!(c.bump, bump);
    assert_eq!(derive_authority(&addr(MINT), bump, &addr(PROGRAM)).unwrap().bytes, authority.bytes);
}

#[test]
fn initialize_requires_admin_signature_and_accounts() {
    let mut accounts = vec![
        account(addr(ADMIN), false, vec![]),
        account(addr(9), false, vec![]),
        account(addr(MINT), false, vec![]),
        account(addr(SERVER), false, vec![]),
    ];
    let r = initialize(&addr(PROGRAM), &mut accounts, 10);
    assert!(matches!(r, Err(ProgramError::MissingRequiredSignature)));
    assert!(accounts[1].data.is_empty());
    accounts.pop();
    accounts[0].is_signer = true;
    let r = initialize(&addr(PROGRAM), &mut accounts, 10);
    assert!(matches!(r, Err(ProgramError::NotEnoughAccountKeys)));
}

#[test]
fn end_to_end_initialize_then_mint_then_cooldown() {
    let config = initialized_config(3600);
    let now = 1_700_000_000u64;
    let mut accounts = mint_accounts(addr(SERVER), config, vec![]);
    let data = Instruction::FaucetMint { amount: 1000 }.pack();
    let r = process_instruction(&addr(PROGRAM), &mut accounts, &data, now, true);
    match r {
        Ok(Effect::Minted(m)) => {
            assert_eq!(m.amount, 1000);
            assert_eq!(m.decimals, 6);
            assert_eq!(m.recipient.bytes, [RECIPIENT; 32]);
            assert_eq!(m.mint.bytes, [MINT; 32]);
        }
        _ => panic!("first mint must succeed"),
    }
    assert_eq!(
        WalletState::load(&accounts[2].data),
        Some(WalletState { last_mint_timestamp: now })
    );
    let r = process_instruction(&addr(PROGRAM), &mut accounts, &data, now + 10, true);
    assert!(matches!(r, Err(ProgramError::CooldownActive)));
    assert_eq!(ProgramError::CooldownActive.code(), 0);
    assert_eq!(
        WalletState::load(&accounts[2].data),
        Some(WalletState { last_mint_timestamp: now })
    );
}

#[test]
fn cooldown_boundary_is_inclusive() {
    let config = initialized_config(3600);
    let wallet = WalletState { last_mint_timestamp: 1000 }.pack();
    let mut accounts = mint_accounts(addr(SERVER), config, wallet);
    let r = faucet_mint(&addr(PROGRAM), &mut accounts, 5, 1000 + 3599, true);
    assert!(matches!(r, Err(ProgramError::CooldownActive)));
    let r = faucet_mint(&addr(PROGRAM), &mut accounts, 5, 1000 + 3600, true);
    assert!(matches!(r, Ok(Effect::Minted(_))));
}

#[test]
fn clock_behind_last_mint_is_cooldown() {
    let config = initialized_config(0);
    let wallet = WalletState { last_mint_timestamp: 1000 }.pack();
    let mut accounts = mint_accounts(addr(SERVER), config, wallet);
    let r = faucet_mint(&addr(PROGRAM), &mut accounts, 5, 999, true);
    assert!(matches!(r, Err(ProgramError::CooldownActive)));
}

#[test]
fn failed_issuance_keeps_wallet_state() {
    let config = initialized_config(60);
    let wallet = WalletState { last_mint_timestamp: 5 }.pack();
    let mut accounts = mint_accounts(addr(SERVER), config, wallet.clone());
    let r = faucet_mint(&addr(PROGRAM), &mut accounts, 5, 10_000, false);
    assert!(matches!(r, Err(ProgramError::IssuanceFailed)));
    assert_eq!(accounts[2].data, wallet);
}

#[test]
fn unauthorized_signer_is_illegal_owner() {
    let config = initialized_config(0);
    let mut accounts = mint_accounts(addr(8), config, vec![]);
    let r = faucet_mint(&addr(PROGRAM), &mut accounts, 5, 10_000, true);
    assert!(matches!(r, Err(ProgramError::IllegalOwner)));
    assert!(accounts[2].data.is_empty());
}

#[test]
fn faucet_mint_rejections() {
    let config = initialized_config(0);
    let mut accounts = mint_accounts(addr(SERVER), config.clone(), vec![]);
    accounts[0].is_signer = false;
    assert!(matches!(
        faucet_mint(&addr(PROGRAM), &mut accounts, 1, 1, true),
        Err(ProgramError::MissingRequiredSignature)
    ));
    let mut accounts = mint_accounts(addr(SERVER), config.clone(), vec![]);
    accounts.pop();
    assert!(matches!(
        faucet_mint(&addr(PROGRAM), &mut accounts, 1, 1, true),
        Err(ProgramError::NotEnoughAccountKeys)
    ));
    let mut accounts = mint_accounts(addr(SERVER), config.clone(), vec![]);
    accounts[6].key = addr(42);
    assert!(matches!(
        faucet_mint(&addr(PROGRAM), &mut accounts, 1, 1, true),
        Err(ProgramError::InvalidSeeds)
    ));
    let mut accounts = mint_accounts(addr(SERVER), config.clone(), vec![1, 2]);
    assert!(matches!(
        faucet_mint(&addr(PROGRAM), &mut accounts, 1, 1, true),
        Err(ProgramError::InvalidAccountData)
    ));
    let mut accounts = mint_accounts(addr(SERVER), config, vec![]);
    accounts[3].data[45] = 0;
    assert!(matches!(
        faucet_mint(&addr(PROGRAM), &mut accounts, 1, 1, true),
        Err(ProgramError::InvalidAccountData)
    ));
}
