use liquidgen_faucet::address::parse_address;
use liquidgen_faucet::admission::{
    admit_request, check_destination, check_verification, finish_request, keys_equal, GatePolicy,
    Rejection, VerificationOutcome,
};
use liquidgen_faucet::cooldown::CooldownTracker;
use liquidgen_faucet::rate_limiter::RateLimiter;

const WALLET: &str = "11111111111111111111111111111111";
const OTHER_WALLET: &str = "SysvarC1ock11111111111111111111111111111111";

fn policy(api_key: Option<&str>, verification_required: bool) -> GatePolicy {
    GatePolicy {
        api_key: api_key.map(|k| k.to_string()),
        verification_required,
        cooldown_ms: 3_600_000,
    }
}

#[test]
fn parse_address_decodes_base58() {
    assert_eq!(parse_address(WALLET).unwrap().bytes, [0u8; 32]);
    let clock = parse_address(OTHER_WALLET).unwrap();
    assert_ne!(clock.bytes, [0u8; 32]);
    assert!(parse_address("not-an-address").is_none());
    assert!(parse_address("").is_none());
    assert!(parse_address("1111").is_none());
}

#[test]
fn rate_limit_gate_comes_first() {
    let mut limiter = RateLimiter::new(60, 1);
    let p = policy(Some("secret"), true);
    assert_eq!(admit_request(&mut limiter, &p, "ip", &Some("secret".to_string()), true, 0), Ok(true));
    assert_eq!(
        admit_request(&mut limiter, &p, "ip", &Some("secret".to_string()), true, 1),
        Err(Rejection::RateLimited)
    );
}

#[test]
fn api_key_gate() {
    let mut limiter = RateLimiter::new(60, 100);
    let p = policy(Some("secret"), false);
    assert_eq!(admit_request(&mut limiter, &p, "ip", &None, false, 0), Err(Rejection::Unauthorized));
    assert_eq!(
        admit_request(&mut limiter, &p, "ip", &Some("secreT".to_string()), false, 0),
        Err(Rejection::Unauthorized)
    );
    assert_eq!(admit_request(&mut limiter, &p, "ip", &Some("secret".to_string()), false, 0), Ok(false));
    let open = policy(None, false);
    assert_eq!(admit_request(&mut limiter, &open, "ip", &None, false, 0), Ok(false));
}

#[test]
fn keys_equal_compares_whole_keys() {
    assert!(keys_equal(&"abc".to_string(), &"abc".to_string()));
    assert!(!keys_equal(&"abc".to_string(), &"abd".to_string()));
    assert!(!keys_equal(&"abc".to_string(), &"ab".to_string()));
    assert!(keys_equal(&String::new(), &String::new()));
}

#[test]
fn missing_verification_token_is_bad_request() {
    let mut limiter = RateLimiter::new(60, 100);
    let p = policy(None, true);
    assert_eq!(admit_request(&mut limiter, &p, "ip", &None, false, 0), Err(Rejection::BadRequest));
    assert_eq!(admit_request(&mut limiter, &p, "ip", &None, true, 0), Ok(true));
}

#[test]
fn verification_outcomes() {
    assert_eq!(check_verification(VerificationOutcome::Passed), Ok(()));
    assert_eq!(check_verification(VerificationOutcome::Failed), Err(Rejection::VerificationFailed));
    assert_eq!(check_verification(VerificationOutcome::Unavailable), Err(Rejection::ServerError));
}

#[test]
fn status_codes() {
    assert_eq!(Rejection::RateLimited.status_code(), 429);
    assert_eq!(Rejection::Unauthorized.status_code(), 401);
    assert_eq!(Rejection::BadRequest.status_code(), 400);
    assert_eq!(Rejection::VerificationFailed.status_code(), 400);
    assert_eq!(Rejection::ServerError.status_code(), 500);
}

#[test]
fn malformed_address_is_bad_request_in_any_state() {
    let mut tracker = CooldownTracker::new();
    assert_eq!(check_destination(&tracker, &"0OIl".to_string(), 0, 1000).err(), Some(Rejection::BadRequest));
    let r = finish_request(&mut tracker, WALLET.to_string(), 0, Some("sig".to_string()));
    assert_eq!(r, Ok("sig".to_string()));
    assert_eq!(check_destination(&tracker, &"0OIl".to_string(), 1, 1000).err(), Some(Rejection::BadRequest));
    assert_eq!(check_destination(&tracker, &"0OIl".to_string(), 1, 1000).err(), Some(Rejection::BadRequest));
}

#[test]
fn local_cooldown_after_confirmed_mint_only() {
    let mut tracker = CooldownTracker::new();
    let w = WALLET.to_string();
    assert!(check_destination(&tracker, &w, 0, 1000).is_ok());
    assert_eq!(finish_request(&mut tracker, w.clone(), 0, None), Err(Rejection::ServerError));
    assert!(check_destination(&tracker, &w, 1, 1000).is_ok());
    assert_eq!(finish_request(&mut tracker, w.clone(), 1, Some("s".to_string())), Ok("s".to_string()));
    assert_eq!(check_destination(&tracker, &w, 500, 1000).err(), Some(Rejection::RateLimited));
    assert!(check_destination(&tracker, &w, 1001, 1000).is_ok());
    assert!(check_destination(&tracker, &OTHER_WALLET.to_string(), 500, 1000).is_ok());
}
