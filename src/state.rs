//! Account data of the authorization program and its byte layout
//! (fixed-width fields, integers little-endian, in declaration order).

use vstd::prelude::*;
use vstd::bytes::{
    spec_u64_from_le_bytes, spec_u64_to_le_bytes, u64_from_le_bytes, u64_to_le_bytes,
    lemma_auto_spec_u64_to_from_le_bytes,
};
use vstd::slice::slice_subrange;

use crate::address::Address;

verus! {

/// Length of encoded `Config` data.
pub const CONFIG_LEN: usize = 105;

/// Length of encoded `WalletState` data.
pub const WALLET_STATE_LEN: usize = 8;

/// The deployment's configuration, written once by `Initialize`.
#[derive(Clone, Copy, Debug)]
pub struct Config {
    pub admin: Address,
    pub authorized_server: Address,
    pub mint: Address,
    pub cooldown_seconds: u64,
    pub bump: u8,
}

/// Per-wallet cooldown state.
#[derive(Clone, Copy, Debug, PartialEq, Eq, Structural)]
pub struct WalletState {
    pub last_mint_timestamp: u64,
}

/// The bytes that hold a configuration.
pub open spec fn config_bytes(c: Config) -> Seq<u8> {
    c.admin.bytes@ + c.authorized_server.bytes@ + c.mint.bytes@ + spec_u64_to_le_bytes(
        c.cooldown_seconds,
    ) + seq![c.bump]
}

/// The bytes that hold a wallet's state.
pub open spec fn wallet_state_bytes(w: WalletState) -> Seq<u8> {
    spec_u64_to_le_bytes(w.last_mint_timestamp)
}

/// The wallet state that account data holds: an empty account is a wallet
/// never served; otherwise the data must be exactly one encoded state.
pub open spec fn stored_wallet_state(data: Seq<u8>) -> Option<WalletState> {
    if data.len() == 0 {
        Some(WalletState { last_mint_timestamp: 0 })
    } else if data.len() == WALLET_STATE_LEN {
        Some(WalletState { last_mint_timestamp: spec_u64_from_le_bytes(data) })
    } else {
        None
    }
}

/// Appends `bytes` to `out`.
fn append_bytes(out: &mut Vec<u8>, bytes: &[u8])
    ensures
        final(out)@ == old(out)@ + bytes@,
{
    let mut i: usize = 0;
    while i < bytes.len()
        invariant
            0 <= i <= bytes@.len(),
            out@ == old(out)@ + bytes@.subrange(0, i as int),
        decreases bytes@.len() - i,
    {
        out.push(bytes[i]);
        i = i + 1;
        assert(out@ =~= old(out)@ + bytes@.subrange(0, i as int));
    }
    assert(bytes@.subrange(0, i as int) =~= bytes@);
}

impl Config {
    /// Encodes the configuration as account data.
    pub fn pack(&self) -> (r: Vec<u8>)
        ensures
            r@ == config_bytes(*self),
            r@.len() == CONFIG_LEN,
    {
        proof {
            lemma_auto_spec_u64_to_from_le_bytes();
        }
        let mut out: Vec<u8> = Vec::new();
        append_bytes(&mut out, self.admin.bytes.as_slice());
        append_bytes(&mut out, self.authorized_server.bytes.as_slice());
        append_bytes(&mut out, self.mint.bytes.as_slice());
        let cooldown = u64_to_le_bytes(self.cooldown_seconds);
        append_bytes(&mut out, cooldown.as_slice());
        out.push(self.bump);
        assert(out@ =~= config_bytes(*self));
        out
    }

    /// Decodes account data: `Some` exactly when it is one encoded
    /// configuration and nothing more.
    pub fn unpack(data: &[u8]) -> (r: Option<Config>)
        ensures
            r.is_some() <==> data@.len() == CONFIG_LEN,
            r.is_some() ==> config_bytes(r.unwrap()) == data@,
            r.is_some() ==> r.unwrap().admin.bytes@ == data@.subrange(0, 32),
            r.is_some() ==> r.unwrap().authorized_server.bytes@ == data@.subrange(32, 64),
            r.is_some() ==> r.unwrap().mint.bytes@ == data@.subrange(64, 96),
            r.is_some() ==> r.unwrap().cooldown_seconds == spec_u64_from_le_bytes(
                data@.subrange(96, 104),
            ),
            r.is_some() ==> r.unwrap().bump == data@[104],
    {
        proof {
            lemma_auto_spec_u64_to_from_le_bytes();
        }
        if data.len() != CONFIG_LEN {
            return None;
        }
        let admin = Address::from_slice(slice_subrange(data, 0, 32));
        let authorized_server = Address::from_slice(slice_subrange(data, 32, 64));
        let mint = Address::from_slice(slice_subrange(data, 64, 96));
        let cooldown_seconds = u64_from_le_bytes(slice_subrange(data, 96, 104));
        let bump = data[104];
        let c = Config { admin, authorized_server, mint, cooldown_seconds, bump };
        assert(config_bytes(c) =~= data@);
        Some(c)
    }
}

impl WalletState {
    /// Encodes the state as account data.
    pub fn pack(&self) -> (r: Vec<u8>)
        ensures
            r@ == wallet_state_bytes(*self),
            r@.len() == WALLET_STATE_LEN,
            stored_wallet_state(r@) == Some(*self),
    {
        proof {
            lemma_auto_spec_u64_to_from_le_bytes();
        }
        u64_to_le_bytes(self.last_mint_timestamp)
    }

    /// Loads a wallet's state from its account data.
    pub fn load(data: &[u8]) -> (r: Option<WalletState>)
        ensures
            r == stored_wallet_state(data@),
    {
        if data.len() == 0 {
            Some(WalletState { last_mint_timestamp: 0 })
        } else if data.len() == WALLET_STATE_LEN {
            Some(WalletState { last_mint_timestamp: u64_from_le_bytes(data) })
        } else {
            None
        }
    }
}

} // verus!
