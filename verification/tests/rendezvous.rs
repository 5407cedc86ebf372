//! The rendezvous server and its mailbox.
use rand::rngs::StdRng;
use rand::SeedableRng;
use worddrop::rendezvous::mailbox::{
    ClaimError, ClientIp, Mailbox, Nameplate, NameplateError, PairState, RateLimiter,
    MAX_TICKET_LENGTH, NAMEPLATE_MAX, NAMEPLATE_MIN, WINDOW,
};
use worddrop::rendezvous::{
    validate_ticket, ApiError, AppState, ACCESS_LIMIT_PER_MINUTE, CREATE_LIMIT_PER_MINUTE, NANOS,
    TTL,
};

const IP_A: ClientIp = ClientIp::V4(0x7f000001);
const IP_B: ClientIp = ClientIp::V4(0x7f000002);
const EPOCH: u64 = 1_700_000_000;

fn rng() -> StdRng {
    StdRng::seed_from_u64(1)
}

fn create(
    state: &mut AppState,
    ip: ClientIp,
    ticket: &str,
    now: u64,
) -> Result<u32, ApiError> {
    assert!(state.room());
    state.allocate(ip, ticket.to_string(), now, EPOCH, &mut rng()).map(|created| {
        assert!((1..=9999).contains(&created.nameplate));
        created.nameplate
    })
}

fn status_code<T>(answer: &Result<T, ApiError>) -> u16 {
    match answer {
        Ok(_) => 200,
        Err(error) => error.status,
    }
}

#[test]
fn nameplate_parse_accepts_canonical_numeric() {
    for raw in ["1", "7", "42", "999", "9999"] {
        let nameplate = Nameplate::parse(raw).unwrap_or_else(|e| panic!("{raw}: {e:?}"));
        assert_eq!(nameplate.value(), raw.parse::<u32>().unwrap());
    }
}

#[test]
fn nameplate_parse_rejects_words_and_non_numeric() {
    for raw in ["", "abc", "7-correct-horse-battery", "1a", "12b3", "+5", "-7", "1_000"] {
        assert!(Nameplate::parse(raw).is_err(), "expected rejection for {raw:?}");
    }
}

#[test]
fn nameplate_parse_rejects_out_of_range_and_leading_zeros() {
    assert_eq!(Nameplate::parse("0"), Err(NameplateError::OutOfRange));
    assert_eq!(Nameplate::parse("10000"), Err(NameplateError::OutOfRange));
    assert_eq!(Nameplate::parse("007"), Err(NameplateError::LeadingZero));
    assert_eq!(Nameplate::parse("99999"), Err(NameplateError::OutOfRange));
    assert_eq!(Nameplate::parse("0"), Err(NameplateError::OutOfRange));
}

#[test]
fn nameplates_are_written_as_they_are_read() {
    for raw in ["1", "42", "9999"] {
        assert_eq!(Nameplate::parse(raw).unwrap().to_string(), raw);
    }
    assert_eq!(Nameplate::parse("99999999999"), Err(NameplateError::NotNumeric));
    assert_eq!(Nameplate::parse(""), Err(NameplateError::Empty));
    for error in [
        NameplateError::Empty,
        NameplateError::NotNumeric,
        NameplateError::LeadingZero,
        NameplateError::OutOfRange,
    ] {
        assert!(!error.to_string().is_empty());
    }
}

#[test]
fn allocate_returns_unused_nameplate_in_range() {
    let mut mailbox = Mailbox::default();
    let mut source = rng();
    let mut seen = std::collections::HashSet::new();
    for _ in 0..100 {
        assert!(mailbox.room());
        let nameplate = mailbox.allocate("t".to_owned(), 0, 600 * NANOS, &mut source);
        assert!((NAMEPLATE_MIN..=NAMEPLATE_MAX).contains(&nameplate.value()));
        assert!(seen.insert(nameplate), "duplicate allocation");
    }
    assert_eq!(mailbox.len(), 100);
}

#[test]
fn every_nameplate_can_be_allocated() {
    let mut mailbox = Mailbox::default();
    let mut source = rng();
    for _ in 0..9999 {
        assert!(mailbox.room());
        mailbox.allocate("t".to_owned(), 0, NANOS, &mut source);
    }
    assert!(!mailbox.room());
    assert_eq!(mailbox.len(), 9999);
    assert_eq!(mailbox.purge_expired(NANOS), 9999);
    assert!(mailbox.room());
}

#[test]
fn a_ticket_is_stored_under_the_chosen_nameplate() {
    let mut mailbox = Mailbox::default();
    assert_eq!(mailbox.free().len(), 9999);
    assert_eq!(mailbox.store("a".to_owned(), 0, NANOS, 6).value(), 7);
    assert_eq!(mailbox.store("b".to_owned(), 0, NANOS, 6).value(), 8);
    assert_eq!(mailbox.free()[..8], [1, 2, 3, 4, 5, 6, 9, 10]);
    let stored = Nameplate::parse("8").unwrap();
    assert_eq!(mailbox.claim(stored, 0), Ok("b".to_owned()));
}

#[test]
fn a_stored_ticket_outlasts_what_happens_around_it() {
    let mut mailbox = Mailbox::default();
    let mine = mailbox.store("mine".to_owned(), 0, 10, 0);
    let other = mailbox.store("other".to_owned(), 0, 5, 0);
    assert_eq!(mailbox.claim(other, 1), Ok("other".to_owned()));
    assert_eq!(mailbox.purge_expired(9), 1);
    mailbox.store("third".to_owned(), 9, 10, 0);
    assert_eq!(mailbox.status(mine, 9), Some(PairState::Pending));
    assert_eq!(mailbox.claim(mine, 9), Ok("mine".to_owned()));
    assert_eq!(mailbox.purge_expired(9), 0);
    assert_eq!(mailbox.claim(mine, 9), Err(ClaimError::NotFound));
    assert_eq!(mailbox.claim(mine, 10), Err(ClaimError::Expired));
}

#[test]
fn claim_is_one_shot() {
    let mut mailbox = Mailbox::default();
    let nameplate = mailbox.allocate("ticket-1".to_owned(), 0, 600 * NANOS, &mut rng());
    assert_eq!(mailbox.claim(nameplate, 1), Ok("ticket-1".to_owned()));
    assert_eq!(mailbox.claim(nameplate, 1), Err(ClaimError::NotFound));
    assert_eq!(mailbox.status(nameplate, 1), Some(PairState::Claimed));
}

#[test]
fn expired_entry_is_not_claimable_and_reports_expired() {
    let mut mailbox = Mailbox::default();
    let nameplate = mailbox.allocate("t".to_owned(), 0, 0, &mut rng());
    let later = 1_000_000;
    assert_eq!(mailbox.claim(nameplate, later), Err(ClaimError::Expired));
    assert_eq!(mailbox.status(nameplate, later), Some(PairState::Expired));
}

#[test]
fn purge_expired_removes_only_stale_entries() {
    let mut mailbox = Mailbox::default();
    let mut source = rng();
    let expired = mailbox.allocate("old".to_owned(), 0, 0, &mut source);
    let fresh = mailbox.allocate("new".to_owned(), 0, 600 * NANOS, &mut source);
    let now = 5;
    assert_eq!(mailbox.purge_expired(now), 1);
    assert_eq!(mailbox.status(expired, now), None);
    assert_eq!(mailbox.status(fresh, now), Some(PairState::Pending));
}

#[test]
fn rate_limiter_enforces_limit_per_ip() {
    let mut limiter = RateLimiter::default();
    for _ in 0..10 {
        assert!(limiter.check(IP_A, 10, 0));
    }
    assert!(!limiter.check(IP_A, 10, 0));
    assert!(!limiter.check(IP_A, 10, 0));
    assert!(limiter.check(IP_B, 10, 0));
    assert!(limiter.check(ClientIp::V6(0x7f000001), 10, 0));
}

#[test]
fn the_rate_window_slides() {
    let mut limiter = RateLimiter::default();
    assert!(limiter.check(IP_A, 2, 0));
    assert!(limiter.check(IP_A, 2, 10));
    assert!(!limiter.check(IP_A, 2, WINDOW - 1));
    assert!(limiter.check(IP_A, 2, WINDOW));
    assert!(!limiter.check(IP_A, 2, WINDOW + 9));
    assert!(limiter.check(IP_A, 2, WINDOW + 10));
    assert!(!limiter.check(IP_A, 0, 99 * WINDOW));
}

#[test]
fn happy_allocate_status_claim() {
    let mut state = AppState::new();
    let created = state
        .allocate(IP_A, "ticket-payload".to_string(), 0, EPOCH, &mut rng())
        .expect("allocate response");
    assert!((1..=9999).contains(&created.nameplate));
    assert_eq!(created.expires_at, EPOCH + TTL);

    let nameplate = created.nameplate.to_string();
    assert_eq!(state.status(IP_A, &nameplate, 1), Ok("pending"));
    assert_eq!(state.claim(IP_A, &nameplate, 1), Ok("ticket-payload".to_string()));
}

#[test]
fn status_reports_claimed_after_claim() {
    let mut state = AppState::new();
    let nameplate = create(&mut state, IP_A, "t", 0).expect("allocate").to_string();
    assert!(state.claim(IP_A, &nameplate, 1).is_ok());
    assert_eq!(state.status(IP_A, &nameplate, 1), Ok("claimed"));
}

#[test]
fn double_claim_returns_404() {
    let mut state = AppState::new();
    let nameplate = create(&mut state, IP_A, "t", 0).expect("allocate").to_string();
    assert!(state.claim(IP_A, &nameplate, 1).is_ok());
    assert_eq!(status_code(&state.claim(IP_A, &nameplate, 1)), 404);
}

#[test]
fn expired_pair_returns_410_and_status_expired() {
    let mut state = AppState::with_ttl(0);
    let nameplate = create(&mut state, IP_A, "t", 0).expect("allocate").to_string();
    assert_eq!(status_code(&state.claim(IP_A, &nameplate, 1)), 410);
    assert_eq!(state.status(IP_A, &nameplate, 1), Ok("expired"));
}

#[test]
fn create_rate_limit_returns_429() {
    let mut state = AppState::new();
    for _ in 0..CREATE_LIMIT_PER_MINUTE {
        assert!(create(&mut state, IP_A, "t", 0).is_ok());
    }
    assert_eq!(status_code(&create(&mut state, IP_A, "t", 0)), 429);
    assert!(create(&mut state, IP_B, "t", 0).is_ok());
    assert!(create(&mut state, IP_A, "t", WINDOW).is_ok());
}

#[test]
fn access_rate_limit_returns_429() {
    let mut state = AppState::new();
    let nameplate = create(&mut state, IP_A, "t", 0).expect("allocate").to_string();
    for _ in 0..ACCESS_LIMIT_PER_MINUTE {
        assert!(state.status(IP_A, &nameplate, 1).is_ok());
    }
    assert_eq!(status_code(&state.status(IP_A, &nameplate, 1)), 429);
    assert_eq!(status_code(&state.claim(IP_A, &nameplate, 1)), 429);
}

#[test]
fn word_bearing_claim_path_rejected_with_400() {
    let mut state = AppState::new();
    assert_eq!(status_code(&state.claim(IP_A, "7-correct-horse-battery", 0)), 400);
    assert_eq!(status_code(&state.status(IP_A, "7-correct-horse-battery", 0)), 400);
}

#[test]
fn non_canonical_nameplate_paths_rejected() {
    let mut state = AppState::new();
    for bad in ["0", "10000", "007", "1_000", "+5", "1a"] {
        assert_eq!(status_code(&state.claim(IP_A, bad, 0)), 400, "expected 400 for {bad}");
    }
    for bad in ["0", "10000", "007", "abc"] {
        assert_eq!(status_code(&state.status(IP_A, bad, 0)), 400, "expected 400 for {bad}");
    }
}

#[test]
fn status_unknown_nameplate_returns_404() {
    let mut state = AppState::new();
    assert_eq!(status_code(&state.status(IP_A, "9999", 0)), 404);
    assert_eq!(status_code(&state.claim(IP_A, "9999", 0)), 404);
}

#[test]
fn allocate_rejects_empty_ticket() {
    let mut state = AppState::new();
    assert_eq!(status_code(&create(&mut state, IP_A, "", 0)), 400);
    assert_eq!(status_code(&create(&mut state, IP_A, " \n", 0)), 400);
    assert!(validate_ticket("t").is_ok());
    assert!(validate_ticket(&"é".repeat(MAX_TICKET_LENGTH / 2)).is_ok());
    let answer = validate_ticket(&"é".repeat(MAX_TICKET_LENGTH / 2 + 1));
    assert_ne!(status_code(&answer), 200, "the length counts bytes");
}

#[test]
fn a_full_mailbox_still_counts_and_refuses() {
    let mut state = AppState::new();
    let mut source = rng();
    for client in 0..9999 {
        let answer =
            state.allocate_if_room(ClientIp::V4(client), "t".to_string(), 0, EPOCH, &mut source);
        assert!(matches!(answer, Some(Ok(_))), "{client}: {answer:?}");
    }
    assert!(!state.room());
    let ip = ClientIp::V6(1);
    let mut ask = |state: &mut AppState, ticket: &str| {
        state.allocate_if_room(ip, ticket.to_string(), 0, EPOCH, &mut source)
    };
    assert_eq!(status_code(&ask(&mut state, "").expect("a refusal")), 400);
    for _ in 1..CREATE_LIMIT_PER_MINUTE {
        assert_eq!(ask(&mut state, "t"), None);
    }
    assert_eq!(status_code(&ask(&mut state, "t").expect("a refusal")), 429);
    let body = state.metrics(true);
    assert!(body.lines().any(|line| line == "worddrop_rendezvous_allocate_total 10010"), "{body}");
    assert!(body.lines().any(|line| line == "worddrop_rendezvous_rate_limited_total 1"), "{body}");
}

#[test]
fn health_returns_ok() {
    assert_eq!(AppState::new().health(true), (200, "ok"));
}

#[test]
fn health_returns_503_degraded_when_pairs_poisoned() {
    let mut state = AppState::new();
    assert_eq!(state.health(false), (503, "degraded"));
    assert!(state.metrics(false).contains("worddrop_rendezvous_pairs_active 0"));
    assert_eq!(ApiError::unavailable().status, 500);
}

#[test]
fn health_returns_ok_with_200_on_healthy_state() {
    let mut state = AppState::default();
    assert_eq!(state.health(true), (200, "ok"));
}

#[test]
fn metrics_count_what_was_asked() {
    let mut state = AppState::new();
    for _ in 0..CREATE_LIMIT_PER_MINUTE {
        create(&mut state, IP_A, "t", 0).expect("allocate");
    }
    let refused = create(&mut state, IP_A, "t", 0);
    assert_eq!(status_code(&refused), 429);
    let nameplate = create(&mut state, IP_B, "t", 0).expect("allocate").to_string();
    state.claim(IP_B, &nameplate, 1).expect("claim");
    let body = state.metrics(true);
    for line in [
        "worddrop_rendezvous_pairs_active 11",
        "worddrop_rendezvous_claim_total 1",
        "worddrop_rendezvous_rate_limited_total 1",
        "worddrop_rendezvous_requests_total 14",
    ] {
        assert!(body.lines().any(|l| l == line), "{line} in {body}");
    }
    assert_eq!(state.cleanup(TTL * NANOS), 11);
    assert!(state.metrics(true).contains("worddrop_rendezvous_pairs_active 0"));
}
