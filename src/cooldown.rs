//! Advisory, process-local memory of when each wallet was last served. It
//! only short-circuits requests that are obviously too soon; the program's
//! own wallet state stays the authority.

use vstd::prelude::*;
use dashmap::DashMap;

use crate::address::decoded_address;

verus! {

#[verifier::external_type_specification]
#[verifier::external_body]
#[verifier::reject_recursive_types(K)]
#[verifier::reject_recursive_types(V)]
#[verifier::reject_recursive_types(S)]
pub struct ExDashMap<K, V, S>(DashMap<K, V, S>);

/// What a wallet-to-instant map holds.
/// Wallet address text to the instant it was last served.
pub type ServedMap = DashMap<String, u64>;

pub uninterp spec fn served_map(m: ServedMap) -> Map<Seq<char>, u64>;

/// Relies on `DashMap::new`: a new map is empty.
#[verifier::external_body]
fn served_map_new() -> (r: ServedMap)
    ensures
        served_map(r).dom() == Set::<Seq<char>>::empty(),
{
    DashMap::new()
}

/// Relies on `DashMap::get`: the value stored under the key, if any.
#[verifier::external_body]
fn served_map_get(m: &ServedMap, key: &String) -> (r: Option<u64>)
    ensures
        r == (if served_map(*m).dom().contains(key@) {
            Some(served_map(*m)[key@])
        } else {
            None
        }),
{
    m.get(key).map(|entry| *entry.value())
}

/// Relies on `DashMap::insert`: stores the value under the key, replacing
/// any earlier one.
#[verifier::external_body]
fn served_map_insert(m: &mut ServedMap, key: String, value: u64)
    ensures
        served_map(*final(m)) == served_map(*old(m)).insert(key@, value),
{
    m.insert(key, value);
}

/// Whether a wallet last served at `last` may be served at `now`.
pub open spec fn cooldown_elapsed(last: u64, now: u64, cooldown: u64) -> bool {
    now - last >= cooldown
}

/// Per-wallet instants (milliseconds) of confirmed issuances.
#[derive(Debug)]
pub struct CooldownTracker {
    served: ServedMap,
}

impl CooldownTracker {
    /// The recorded instant of each wallet's last confirmed issuance.
    pub closed spec fn view(&self) -> Map<Seq<char>, u64> {
        served_map(self.served)
    }

    /// Only well-formed wallet addresses are ever recorded.
    pub open spec fn wf(&self) -> bool {
        forall|w: Seq<char>| #[trigger] self.view().dom().contains(w) ==> decoded_address(w).is_some()
    }

    /// A tracker with nothing recorded.
    pub fn new() -> (r: CooldownTracker)
        ensures
            r.wf(),
            r.view().dom() == Set::<Seq<char>>::empty(),
    {
        CooldownTracker { served: served_map_new() }
    }

    /// Denies only a wallet recorded less than `cooldown_ms` before `now`;
    /// a wallet with no record is allowed.
    pub fn precheck(&self, wallet: &String, now: u64, cooldown_ms: u64) -> (r: bool)
        ensures
            r == (!self.view().dom().contains(wallet@) || cooldown_elapsed(
                self.view()[wallet@],
                now,
                cooldown_ms,
            )),
    {
        match served_map_get(&self.served, wallet) {
            None => true,
            Some(last) => now >= last && now - last >= cooldown_ms,
        }
    }

    /// Records a confirmed issuance to a well-formed wallet address at `now`.
    pub fn record(&mut self, wallet: String, now: u64)
        requires
            old(self).wf(),
            decoded_address(wallet@).is_some(),
        ensures
            final(self).wf(),
            final(self).view() == old(self).view().insert(wallet@, now),
    {
        served_map_insert(&mut self.served, wallet, now);
    }
}

} // verus!
