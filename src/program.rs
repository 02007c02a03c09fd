//! The authorization program: a state machine over account data. It checks
//! the signer and the wallet's cooldown, asks the ledger to issue tokens under
//! the derived signing authority, and records the issuance time. Any failure
//! leaves every account as it was.

use vstd::prelude::*;
use vstd::bytes::{spec_u64_from_le_bytes, lemma_auto_spec_u64_to_from_le_bytes};

use crate::address::Address;
use crate::authority::{authority_tag_spec, canonical_bump, derive_authority, find_authority, program_address};
use crate::error::ProgramError;
use crate::instruction::{decode, Instruction};
use crate::state::{config_bytes, stored_wallet_state, wallet_state_bytes, Config, WalletState, CONFIG_LEN};
use crate::token::{declared_decimals, unpack_mint_decimals};

verus! {

/// An account handed to the program: its address, whether it signed the
/// transaction, and its data.
#[derive(Debug)]
pub struct AccountInfo {
    pub key: Address,
    pub is_signer: bool,
    pub data: Vec<u8>,
}

/// The issuance the program asks the token program for, signed by the
/// derived authority.
#[derive(Clone, Copy, Debug)]
pub struct MintTo {
    pub token_program: Address,
    pub mint: Address,
    pub recipient: Address,
    pub authority: Address,
    pub amount: u64,
    pub decimals: u8,
    pub bump: u8,
}

/// What an accepted instruction did.
#[derive(Clone, Copy, Debug)]
pub enum Effect {
    Initialized,
    Minted(MintTo),
}

/// Accounts of `Initialize`, in order.
pub const INIT_ADMIN: usize = 0;
pub const INIT_CONFIG: usize = 1;
pub const INIT_MINT: usize = 2;
pub const INIT_SERVER: usize = 3;

/// Accounts of `FaucetMint`, in order.
pub const MINT_SERVER: usize = 0;
pub const MINT_CONFIG: usize = 1;
pub const MINT_WALLET_STATE: usize = 2;
pub const MINT_MINT: usize = 3;
pub const MINT_TOKEN_PROGRAM: usize = 4;
pub const MINT_RECIPIENT: usize = 5;
pub const MINT_AUTHORITY: usize = 6;

pub open spec fn config_server(d: Seq<u8>) -> Seq<u8> {
    d.subrange(32, 64)
}

pub open spec fn config_mint(d: Seq<u8>) -> Seq<u8> {
    d.subrange(64, 96)
}

pub open spec fn config_cooldown(d: Seq<u8>) -> u64 {
    spec_u64_from_le_bytes(d.subrange(96, 104))
}

pub open spec fn config_bump(d: Seq<u8>) -> u8 {
    d[104]
}

/// The cooldown has passed when at least `cooldown` seconds separate the
/// last issuance from `now` (a clock behind the last issuance has not).
pub open spec fn cooldown_passed(last: u64, now: u64, cooldown: u64) -> bool {
    now - last >= cooldown
}

/// The accounts with account `i`'s data replaced by `d`.
pub open spec fn data_replaced(a: Seq<AccountInfo>, f: Seq<AccountInfo>, i: int, d: Seq<u8>) -> bool {
    &&& f.len() == a.len()
    &&& 0 <= i < a.len()
    &&& forall|j: int| 0 <= j < a.len() && j != i ==> f[j] == a[j]
    &&& f[i].key == a[i].key
    &&& f[i].is_signer == a[i].is_signer
    &&& f[i].data@ == d
}

/// Why `Initialize` is rejected on these accounts, if it is.
pub open spec fn initialize_error(program_id: Seq<u8>, a: Seq<AccountInfo>) -> Option<ProgramError> {
    if a.len() < 4 {
        Some(ProgramError::NotEnoughAccountKeys)
    } else if !a[INIT_ADMIN as int].is_signer {
        Some(ProgramError::MissingRequiredSignature)
    } else if canonical_bump(a[INIT_MINT as int].key.bytes@, program_id).is_none() {
        Some(ProgramError::InvalidSeeds)
    } else {
        None
    }
}

/// The configuration that `Initialize` writes.
pub open spec fn initialized_config(program_id: Seq<u8>, a: Seq<AccountInfo>, cooldown_seconds: u64) -> Config {
    Config {
        admin: a[INIT_ADMIN as int].key,
        authorized_server: a[INIT_SERVER as int].key,
        mint: a[INIT_MINT as int].key,
        cooldown_seconds,
        bump: canonical_bump(a[INIT_MINT as int].key.bytes@, program_id).unwrap(),
    }
}

/// What `Initialize` returns and leaves in the accounts `f`.
pub open spec fn initialize_post(
    program_id: Seq<u8>,
    a: Seq<AccountInfo>,
    cooldown_seconds: u64,
    r: Result<Effect, ProgramError>,
    f: Seq<AccountInfo>,
) -> bool {
    match initialize_error(program_id, a) {
        Some(e) => r == Err::<Effect, ProgramError>(e) && f == a,
        None => r == Ok::<Effect, ProgramError>(Effect::Initialized) && data_replaced(
            a,
            f,
            INIT_CONFIG as int,
            config_bytes(initialized_config(program_id, a, cooldown_seconds)),
        ),
    }
}

/// Why `FaucetMint` is rejected on these accounts at time `now`, before the
/// issuance is attempted, if it is.
pub open spec fn faucet_mint_error(program_id: Seq<u8>, a: Seq<AccountInfo>, now: u64) -> Option<ProgramError> {
    if a.len() < 7 {
        Some(ProgramError::NotEnoughAccountKeys)
    } else if !a[MINT_SERVER as int].is_signer {
        Some(ProgramError::MissingRequiredSignature)
    } else if a[MINT_CONFIG as int].data@.len() != CONFIG_LEN {
        Some(ProgramError::InvalidAccountData)
    } else if a[MINT_SERVER as int].key.bytes@ != config_server(a[MINT_CONFIG as int].data@) {
        Some(ProgramError::IllegalOwner)
    } else if stored_wallet_state(a[MINT_WALLET_STATE as int].data@).is_none() {
        Some(ProgramError::InvalidAccountData)
    } else if !cooldown_passed(
        stored_wallet_state(a[MINT_WALLET_STATE as int].data@).unwrap().last_mint_timestamp,
        now,
        config_cooldown(a[MINT_CONFIG as int].data@),
    ) {
        Some(ProgramError::CooldownActive)
    } else if program_address(
        authority_tag_spec(),
        config_mint(a[MINT_CONFIG as int].data@),
        config_bump(a[MINT_CONFIG as int].data@),
        program_id,
    ) != Some(a[MINT_AUTHORITY as int].key.bytes@) {
        Some(ProgramError::InvalidSeeds)
    } else if declared_decimals(a[MINT_MINT as int].data@).is_none() {
        Some(ProgramError::InvalidAccountData)
    } else {
        None
    }
}

/// The issuance request that `FaucetMint` makes on accepted accounts.
pub open spec fn is_mint_request(a: Seq<AccountInfo>, amount: u64, m: MintTo) -> bool {
    &&& m.token_program == a[MINT_TOKEN_PROGRAM as int].key
    &&& m.mint.bytes@ == config_mint(a[MINT_CONFIG as int].data@)
    &&& m.recipient == a[MINT_RECIPIENT as int].key
    &&& m.authority == a[MINT_AUTHORITY as int].key
    &&& m.amount == amount
    &&& m.decimals == declared_decimals(a[MINT_MINT as int].data@).unwrap()
    &&& m.bump == config_bump(a[MINT_CONFIG as int].data@)
}

/// What `FaucetMint` returns and leaves in the accounts `f`, given whether
/// the ledger carried out the issuance.
pub open spec fn faucet_mint_post(
    program_id: Seq<u8>,
    a: Seq<AccountInfo>,
    amount: u64,
    now: u64,
    issued: bool,
    r: Result<Effect, ProgramError>,
    f: Seq<AccountInfo>,
) -> bool {
    match faucet_mint_error(program_id, a, now) {
        Some(e) => r == Err::<Effect, ProgramError>(e) && f == a,
        None => if !issued {
            r == Err::<Effect, ProgramError>(ProgramError::IssuanceFailed) && f == a
        } else {
            &&& r is Ok
            &&& r.unwrap() is Minted
            &&& is_mint_request(a, amount, r.unwrap()->Minted_0)
            &&& data_replaced(
                a,
                f,
                MINT_WALLET_STATE as int,
                wallet_state_bytes(WalletState { last_mint_timestamp: now }),
            )
        },
    }
}

/// Replaces the data of account `i`.
fn replace_data(accounts: &mut Vec<AccountInfo>, i: usize, data: Vec<u8>)
    requires
        i < old(accounts)@.len(),
    ensures
        data_replaced(old(accounts)@, final(accounts)@, i as int, data@),
{
    let updated = AccountInfo { key: accounts[i].key, is_signer: accounts[i].is_signer, data };
    accounts.set(i, updated);
}

/// `Initialize`: the admin signs; writes a fresh configuration naming the
/// admin, the authorized server, the mint, the cooldown and the canonical
/// bump of the derived authority. Accounts: admin, config, mint, authorized
/// server.
pub fn initialize(
    program_id: &Address,
    accounts: &mut Vec<AccountInfo>,
    cooldown_seconds: u64,
) -> (r: Result<Effect, ProgramError>)
    ensures
        initialize_post(program_id.bytes@, old(accounts)@, cooldown_seconds, r, final(accounts)@),
{
    if accounts.len() < 4 {
        return Err(ProgramError::NotEnoughAccountKeys);
    }
    if !accounts[INIT_ADMIN].is_signer {
        return Err(ProgramError::MissingRequiredSignature);
    }
    let mint = accounts[INIT_MINT].key;
    let found = find_authority(&mint, program_id);
    match found {
        None => Err(ProgramError::InvalidSeeds),
        Some((_authority, bump)) => {
            let config = Config {
                admin: accounts[INIT_ADMIN].key,
                authorized_server: accounts[INIT_SERVER].key,
                mint,
                cooldown_seconds,
                bump,
            };
            let data = config.pack();
            replace_data(accounts, INIT_CONFIG, data);
            Ok(Effect::Initialized)
        },
    }
}

/// The checks of `FaucetMint`, before the issuance: the authorized server
/// signed, the wallet's cooldown has passed at `now`, the authority account
/// is the derived one and the mint declares its precision. Returns the
/// issuance to make.
pub fn authorize_faucet_mint(
    program_id: &Address,
    accounts: &Vec<AccountInfo>,
    amount: u64,
    now: u64,
) -> (r: Result<MintTo, ProgramError>)
    ensures
        match faucet_mint_error(program_id.bytes@, accounts@, now) {
            Some(e) => r == Err::<MintTo, ProgramError>(e),
            None => r is Ok && is_mint_request(accounts@, amount, r.unwrap()),
        },
{
    if accounts.len() < 7 {
        return Err(ProgramError::NotEnoughAccountKeys);
    }
    if !accounts[MINT_SERVER].is_signer {
        return Err(ProgramError::MissingRequiredSignature);
    }
    let config = match Config::unpack(accounts[MINT_CONFIG].data.as_slice()) {
        Some(c) => c,
        None => return Err(ProgramError::InvalidAccountData),
    };
    if !accounts[MINT_SERVER].key.same(&config.authorized_server) {
        return Err(ProgramError::IllegalOwner);
    }
    let wallet = match WalletState::load(accounts[MINT_WALLET_STATE].data.as_slice()) {
        Some(w) => w,
        None => return Err(ProgramError::InvalidAccountData),
    };
    if now < wallet.last_mint_timestamp || now - wallet.last_mint_timestamp < config.cooldown_seconds {
        return Err(ProgramError::CooldownActive);
    }
    let authority = match derive_authority(&config.mint, config.bump, program_id) {
        Some(a) => a,
        None => return Err(ProgramError::InvalidSeeds),
    };
    if !authority.same(&accounts[MINT_AUTHORITY].key) {
        return Err(ProgramError::InvalidSeeds);
    }
    let decimals = match unpack_mint_decimals(accounts[MINT_MINT].data.as_slice()) {
        Some(d) => d,
        None => return Err(ProgramError::InvalidAccountData),
    };
    Ok(MintTo {
        token_program: accounts[MINT_TOKEN_PROGRAM].key,
        mint: config.mint,
        recipient: accounts[MINT_RECIPIENT].key,
        authority: accounts[MINT_AUTHORITY].key,
        amount,
        decimals,
        bump: config.bump,
    })
}

/// `FaucetMint`: authorizes the issuance, then, only if the ledger carried it
/// out (`issued`), records `now` as the wallet's last issuance. Accounts:
/// authorized server, config, wallet state, mint, token program, recipient,
/// derived authority.
pub fn faucet_mint(
    program_id: &Address,
    accounts: &mut Vec<AccountInfo>,
    amount: u64,
    now: u64,
    issued: bool,
) -> (r: Result<Effect, ProgramError>)
    ensures
        faucet_mint_post(program_id.bytes@, old(accounts)@, amount, now, issued, r, final(accounts)@),
{
    let request = authorize_faucet_mint(program_id, accounts, amount, now);
    match request {
        Err(e) => Err(e),
        Ok(m) => {
            if !issued {
                return Err(ProgramError::IssuanceFailed);
            }
            let data = WalletState { last_mint_timestamp: now }.pack();
            replace_data(accounts, MINT_WALLET_STATE, data);
            Ok(Effect::Minted(m))
        },
    }
}

/// Decodes and runs one instruction. `issued` is whether the ledger carries
/// out the issuance that an accepted `FaucetMint` asks for; `now` is the
/// ledger's clock in seconds.
pub fn process_instruction(
    program_id: &Address,
    accounts: &mut Vec<AccountInfo>,
    instruction_data: &[u8],
    now: u64,
    issued: bool,
) -> (r: Result<Effect, ProgramError>)
    ensures
        match decode(instruction_data@) {
            Err(e) => r == Err::<Effect, ProgramError>(e) && final(accounts)@ == old(accounts)@,
            Ok(Instruction::Initialize { cooldown_seconds }) => initialize_post(
                program_id.bytes@,
                old(accounts)@,
                cooldown_seconds,
                r,
                final(accounts)@,
            ),
            Ok(Instruction::FaucetMint { amount }) => faucet_mint_post(
                program_id.bytes@,
                old(accounts)@,
                amount,
                now,
                issued,
                r,
                final(accounts)@,
            ),
        },
{
    let instruction = Instruction::unpack(instruction_data);
    match instruction {
        Err(e) => Err(e),
        Ok(Instruction::Initialize { cooldown_seconds }) => initialize(program_id, accounts, cooldown_seconds),
        Ok(Instruction::FaucetMint { amount }) => faucet_mint(program_id, accounts, amount, now, issued),
    }
}

/// After a `FaucetMint` is accepted at `t1`, its wallet state holds `t1`.
/// Any later `FaucetMint` that sees that committed state and the same
/// configuration, at a time `t2` less than the cooldown after `t1`, is
/// rejected: at most one issuance per wallet per cooldown window.
pub proof fn lemma_one_issuance_per_window(
    program_id: Seq<u8>,
    a: Seq<AccountInfo>,
    amount: u64,
    t1: u64,
    r: Result<Effect, ProgramError>,
    f: Seq<AccountInfo>,
    b: Seq<AccountInfo>,
    t2: u64,
)
    requires
        faucet_mint_post(program_id, a, amount, t1, true, r, f),
        r is Ok,
        b.len() >= 7,
        b[MINT_CONFIG as int].data@ == f[MINT_CONFIG as int].data@,
        b[MINT_WALLET_STATE as int].data@ == f[MINT_WALLET_STATE as int].data@,
        t2 - t1 < config_cooldown(f[MINT_CONFIG as int].data@),
    ensures
        faucet_mint_error(program_id, b, t2).is_some(),
{
    lemma_auto_spec_u64_to_from_le_bytes();
    assert(faucet_mint_error(program_id, a, t1).is_none());
    assert(f[MINT_CONFIG as int] == a[MINT_CONFIG as int]);
    assert(stored_wallet_state(b[MINT_WALLET_STATE as int].data@) == Some(
        WalletState { last_mint_timestamp: t1 },
    ));
}

/// The cooldown bound is inclusive: on accounts where the other checks
/// pass, a wallet last served exactly `cooldown_seconds` ago is not held
/// back by the cooldown.
pub proof fn lemma_cooldown_boundary_inclusive(program_id: Seq<u8>, a: Seq<AccountInfo>, now: u64)
    requires
        a.len() >= 7,
        stored_wallet_state(a[MINT_WALLET_STATE as int].data@) is Some,
        now - stored_wallet_state(a[MINT_WALLET_STATE as int].data@).unwrap().last_mint_timestamp
            == config_cooldown(a[MINT_CONFIG as int].data@),
    ensures
        faucet_mint_error(program_id, a, now) != Some(ProgramError::CooldownActive),
{
}

/// A `FaucetMint` signed by any account other than the configured
/// authorized server fails with `IllegalOwner`, whatever the wallet's
/// cooldown state.
pub proof fn lemma_unauthorized_signer(program_id: Seq<u8>, a: Seq<AccountInfo>, now: u64)
    requires
        a.len() >= 7,
        a[MINT_SERVER as int].is_signer,
        a[MINT_CONFIG as int].data@.len() == CONFIG_LEN,
        a[MINT_SERVER as int].key.bytes@ != config_server(a[MINT_CONFIG as int].data@),
    ensures
        faucet_mint_error(program_id, a, now) == Some(ProgramError::IllegalOwner),
{
}

/// A rejected instruction, and a `FaucetMint` whose issuance the ledger did
/// not carry out, leave the wallet's last issuance time as it was.
pub proof fn lemma_failed_issuance_keeps_state(
    program_id: Seq<u8>,
    a: Seq<AccountInfo>,
    amount: u64,
    now: u64,
    issued: bool,
    r: Result<Effect, ProgramError>,
    f: Seq<AccountInfo>,
)
    requires
        faucet_mint_post(program_id, a, amount, now, issued, r, f),
        r is Err,
    ensures
        f == a,
{
}

} // verus!
