//! The admission controller: the gates a faucet request passes, in order,
//! before and after the calls to the verification service and the ledger.
//! The calls themselves are made by the caller, which hands back their
//! results.

use vstd::prelude::*;

use crate::address::{decoded_address, parse_address, Address};
use crate::cooldown::{cooldown_elapsed, CooldownTracker};
use crate::rate_limiter::{live, RateLimiter};

verus! {

/// Why a faucet request was turned away.
#[derive(Clone, Copy, Debug, PartialEq, Eq, Structural)]
pub enum Rejection {
    /// Too many requests from the client, or the wallet was served recently.
    RateLimited,
    /// The API key is missing or wrong.
    Unauthorized,
    /// Malformed address or missing verification token.
    BadRequest,
    /// The verification service answered no.
    VerificationFailed,
    /// The verification service or the ledger could not be used.
    ServerError,
}

impl Rejection {
    /// The HTTP status that reports this rejection.
    pub fn status_code(&self) -> (r: u16)
        ensures
            r == match *self {
                Rejection::RateLimited => 429u16,
                Rejection::Unauthorized => 401u16,
                Rejection::BadRequest => 400u16,
                Rejection::VerificationFailed => 400u16,
                Rejection::ServerError => 500u16,
            },
    {
        match self {
            Rejection::RateLimited => 429,
            Rejection::Unauthorized => 401,
            Rejection::BadRequest => 400,
            Rejection::VerificationFailed => 400,
            Rejection::ServerError => 500,
        }
    }
}

/// What the verification service reported.
#[derive(Clone, Copy, Debug, PartialEq, Eq, Structural)]
pub enum VerificationOutcome {
    Passed,
    Failed,
    /// The call itself failed: network error or malformed response.
    Unavailable,
}

/// The deployment's gate settings.
#[derive(Debug)]
pub struct GatePolicy {
    /// The API key that requests must present, if one is configured.
    pub api_key: Option<String>,
    /// Whether human verification is configured.
    pub verification_required: bool,
    /// The local per-wallet cooldown, in milliseconds.
    pub cooldown_ms: u64,
}

/// Whether the presented credential satisfies the configured API key.
pub open spec fn key_accepted(expected: Option<String>, presented: Option<String>) -> bool {
    match expected {
        None => true,
        Some(k) => presented is Some && presented.unwrap()@ == k@,
    }
}

/// Compares two keys in time that depends on their lengths only.
pub fn keys_equal(expected: &String, presented: &String) -> (r: bool)
    ensures
        r == (expected@ == presented@),
{
    let a = expected.as_str();
    let b = presented.as_str();
    let n = a.unicode_len();
    if n != b.unicode_len() {
        return false;
    }
    let mut same = true;
    let mut i: usize = 0;
    while i < n
        invariant
            0 <= i <= n,
            n == a@.len(),
            n == b@.len(),
            a@ == expected@,
            b@ == presented@,
            same == (forall|j: int| 0 <= j < i ==> a@[j] == b@[j]),
        decreases n - i,
    {
        let x = a.get_char(i);
        let y = b.get_char(i);
        same = same && x == y;
        i = i + 1;
    }
    if same {
        assert(a@ =~= b@);
    }
    same
}

/// The gates before verification: the client's rate limit, then the API
/// key, then the presence of a verification token. `Ok(true)` when the
/// verification service must be asked next.
pub fn admit_request(
    limiter: &mut RateLimiter,
    policy: &GatePolicy,
    client_key: &str,
    presented_key: &Option<String>,
    has_token: bool,
    now_ms: u64,
) -> (r: Result<bool, Rejection>)
    requires
        old(limiter).wf(),
    ensures
        final(limiter).wf(),
        final(limiter).window() == old(limiter).window(),
        final(limiter).limit() == old(limiter).limit(),
        forall|k: Seq<char>| #[trigger]
            final(limiter).history(k) == if k == client_key@ && live(
                old(limiter).history(k),
                now_ms,
                old(limiter).window(),
            ).len() < old(limiter).limit() {
                live(old(limiter).history(k), now_ms, old(limiter).window()).push(now_ms)
            } else {
                live(old(limiter).history(k), now_ms, old(limiter).window())
            },
        r == if !(live(old(limiter).history(client_key@), now_ms, old(limiter).window()).len()
            < old(limiter).limit()) {
            Err::<bool, Rejection>(Rejection::RateLimited)
        } else if !key_accepted(policy.api_key, *presented_key) {
            Err(Rejection::Unauthorized)
        } else if policy.verification_required && !has_token {
            Err(Rejection::BadRequest)
        } else {
            Ok(policy.verification_required)
        },
{
    if !limiter.check_rate_limit(client_key, now_ms) {
        return Err(Rejection::RateLimited);
    }
    match &policy.api_key {
        None => {},
        Some(expected) => {
            match presented_key {
                None => return Err(Rejection::Unauthorized),
                Some(p) => {
                    if !keys_equal(expected, p) {
                        return Err(Rejection::Unauthorized);
                    }
                },
            }
        },
    }
    if policy.verification_required && !has_token {
        return Err(Rejection::BadRequest);
    }
    Ok(policy.verification_required)
}

/// Maps what the human-check service reported to the request's fate. An
/// unreachable service is reported as a server error, apart from a no.
pub fn check_verification(outcome: VerificationOutcome) -> (r: Result<(), Rejection>)
    ensures
        r == match outcome {
            VerificationOutcome::Passed => Ok::<(), Rejection>(()),
            VerificationOutcome::Failed => Err(Rejection::VerificationFailed),
            VerificationOutcome::Unavailable => Err(Rejection::ServerError),
        },
{
    match outcome {
        VerificationOutcome::Passed => Ok(()),
        VerificationOutcome::Failed => Err(Rejection::VerificationFailed),
        VerificationOutcome::Unavailable => Err(Rejection::ServerError),
    }
}

/// The destination gates' verdict on a wallet address: the bytes it
/// decodes to, or why it is turned away.
pub open spec fn destination_verdict(
    served: Map<Seq<char>, u64>,
    address: Seq<char>,
    now_ms: u64,
    cooldown_ms: u64,
) -> Result<Seq<u8>, Rejection> {
    if served.dom().contains(address) && !cooldown_elapsed(served[address], now_ms, cooldown_ms) {
        Err(Rejection::RateLimited)
    } else {
        match decoded_address(address) {
            None => Err(Rejection::BadRequest),
            Some(bytes) => Ok(bytes),
        }
    }
}

/// The verdict of the destination gates on a parsed result.
pub open spec fn address_result_view(r: Result<Address, Rejection>) -> Result<Seq<u8>, Rejection> {
    match r {
        Ok(a) => Ok(a.bytes@),
        Err(e) => Err(e),
    }
}

/// The gates on the destination: the local cooldown precheck, then the
/// address's syntax. Returns the parsed address to submit.
pub fn check_destination(
    tracker: &CooldownTracker,
    address: &String,
    now_ms: u64,
    cooldown_ms: u64,
) -> (r: Result<Address, Rejection>)
    ensures
        address_result_view(r) == destination_verdict(tracker.view(), address@, now_ms, cooldown_ms),
{
    if !tracker.precheck(address, now_ms, cooldown_ms) {
        return Err(Rejection::RateLimited);
    }
    match parse_address(address.as_str()) {
        None => Err(Rejection::BadRequest),
        Some(a) => Ok(a),
    }
}

/// The last step: relays the ledger's answer (a transaction signature, or
/// a failure) and records the wallet's cooldown only after a confirmed
/// issuance to a well-formed address.
pub fn finish_request(
    tracker: &mut CooldownTracker,
    address: String,
    now_ms: u64,
    submitted: Option<String>,
) -> (r: Result<String, Rejection>)
    requires
        old(tracker).wf(),
    ensures
        final(tracker).wf(),
        match submitted {
            None => r == Err::<String, Rejection>(Rejection::ServerError) && final(tracker).view()
                == old(tracker).view(),
            Some(sig) => r == Ok::<String, Rejection>(sig) && final(tracker).view() == if decoded_address(
                address@,
            ).is_some() {
                old(tracker).view().insert(address@, now_ms)
            } else {
                old(tracker).view()
            },
        },
{
    match submitted {
        None => Err(Rejection::ServerError),
        Some(sig) => {
            if parse_address(address.as_str()).is_some() {
                tracker.record(address, now_ms);
            }
            Ok(sig)
        },
    }
}

/// A malformed address is turned away as a bad request whatever the local
/// cooldown state and clock: only well-formed addresses are ever recorded,
/// so the cooldown gate never catches one first.
pub proof fn lemma_malformed_address_rejected(
    tracker: CooldownTracker,
    address: Seq<char>,
    now_ms: u64,
    cooldown_ms: u64,
)
    requires
        tracker.wf(),
        decoded_address(address) is None,
    ensures
        destination_verdict(tracker.view(), address, now_ms, cooldown_ms) == Err::<Seq<u8>, Rejection>(
            Rejection::BadRequest,
        ),
{
}

} // verus!
