//! The rendezvous server: a mailbox in which a sender leaves a ticket under a numeric nameplate,
//! and from which a receiver claims it once.
//!
//! [`AppState`] holds everything that the server knows and answers the requests; whoever serves
//! the network hands it what was asked and by whom.
pub mod mailbox;

use vstd::prelude::*;

use crate::rendezvous::mailbox::{
    counting, nameplate_error_text, nameplate_of, pair_state_name, unexpired, ClaimError, ClientIp,
    Entry, Mailbox, Nameplate, PairState, RateLimiter, MAX_TICKET_LENGTH,
};
use crate::text::{decimal, decimal_string, trim, trimmed};

verus! {

broadcast use vstd::string::group_string_axioms;

/// Nameplate allocations per minute and address.
pub const CREATE_LIMIT_PER_MINUTE: usize = 10;

/// Claims and status checks per minute and address.
pub const ACCESS_LIMIT_PER_MINUTE: usize = 60;

/// Code lifetime before the mailbox entry expires, in seconds.
pub const TTL: u64 = 600;

/// How often expired entries are swept, in seconds.
pub const CLEANUP_INTERVAL: u64 = 30;

/// How long requests may drain after the shutdown signal, in seconds.
pub const DRAIN_TIMEOUT: u64 = 30;

/// Nanoseconds in a second.
pub const NANOS: u64 = 1000000000;

/// A refused request: the HTTP status, and the words of the answer.
#[derive(Debug, Clone, PartialEq, Eq)]
pub struct ApiError {
    pub status: u16,
    pub message: String,
}

impl ApiError {
    /// Whether the error is the given one.
    pub open spec fn says(self, status: u16, message: Seq<char>) -> bool {
        self.status == status && self.message@ == message
    }

    /// A refusal.
    pub fn new(status: u16, message: &str) -> (error: Self)
        ensures
            error.says(status, message@),
    {
        ApiError { status, message: message.to_owned() }
    }

    /// The answer to every request that needs state that cannot be had.
    pub fn unavailable() -> (error: Self)
        ensures
            error.says(500, "server state is unavailable"@),
    {
        ApiError::new(500, "server state is unavailable")
    }
}

/// Whether a ticket may be stored: not blank, and not over [`MAX_TICKET_LENGTH`] bytes.
pub fn validate_ticket(ticket: &str) -> (outcome: Result<(), ApiError>)
    ensures
        match outcome {
            Ok(()) => ticket_fault(ticket@) is None,
            Err(error) => ticket_fault(ticket@) is Some && error.says(400, ticket_fault(ticket@)->0),
        },
{
    if trim(ticket).as_str().is_empty() {
        return Err(ApiError::new(400, "ticket must not be empty"));
    }
    if ticket.as_bytes().len() > MAX_TICKET_LENGTH {
        return Err(ApiError::new(400, "ticket is too large"));
    }
    Ok(())
}

/// What is wrong with a ticket, if anything is.
pub open spec fn ticket_fault(ticket: Seq<char>) -> Option<Seq<char>> {
    if trimmed(ticket).len() == 0 {
        Some("ticket must not be empty"@)
    } else if vstd::utf8::encode_utf8(ticket).len() > MAX_TICKET_LENGTH {
        Some("ticket is too large"@)
    } else {
        None
    }
}

/// The counters of the server. They wrap around.
#[derive(Debug, Clone, Copy, PartialEq, Eq, Structural)]
pub struct Counters {
    /// Nameplate allocation requests received.
    pub allocate_total: u64,
    /// Successful claims.
    pub claim_total: u64,
    /// Requests rejected by a rate limiter.
    pub rate_limited_total: u64,
    /// Requests served.
    pub requests_total: u64,
}

/// The counter after one more.
pub open spec fn bumped(n: u64) -> u64 {
    if n == u64::MAX {
        0
    } else {
        (n + 1) as u64
    }
}

fn bump(n: u64) -> (next: u64)
    ensures
        next == bumped(n),
{
    n.wrapping_add(1)
}

impl Counters {
    /// One more request.
    pub open spec fn request(self) -> Counters {
        Counters { requests_total: bumped(self.requests_total), ..self }
    }

    /// One more allocation request.
    pub open spec fn allocation(self) -> Counters {
        Counters { allocate_total: bumped(self.allocate_total), ..self }
    }

    /// One more claim.
    pub open spec fn claim(self) -> Counters {
        Counters { claim_total: bumped(self.claim_total), ..self }
    }

    /// One more request that was rejected by a rate limiter.
    pub open spec fn limited(self) -> Counters {
        Counters { rate_limited_total: bumped(self.rate_limited_total), ..self }
    }
}

/// One metric in the Prometheus text format.
pub open spec fn metric(name: Seq<char>, help: Seq<char>, kind: Seq<char>, value: nat) -> Seq<char> {
    "# HELP "@ + name + " "@ + help + "\n# TYPE "@ + name + " "@ + kind + "\n"@ + name + " "@
        + decimal(value) + "\n"@
}

/// All metrics.
pub open spec fn metrics_text(counters: Counters, pairs_active: nat) -> Seq<char> {
    metric(
        "worddrop_rendezvous_allocate_total"@,
        "Total nameplate allocation requests received."@,
        "counter"@,
        counters.allocate_total as nat,
    ) + metric(
        "worddrop_rendezvous_claim_total"@,
        "Total successful one-shot claims."@,
        "counter"@,
        counters.claim_total as nat,
    ) + metric(
        "worddrop_rendezvous_rate_limited_total"@,
        "Total requests rejected by rate limiting."@,
        "counter"@,
        counters.rate_limited_total as nat,
    ) + metric(
        "worddrop_rendezvous_requests_total"@,
        "Total HTTP requests served."@,
        "counter"@,
        counters.requests_total as nat,
    ) + metric(
        "worddrop_rendezvous_pairs_active"@,
        "Number of pairs currently tracked in the mailbox."@,
        "gauge"@,
        pairs_active,
    )
}

fn push_metric(text: &mut String, name: &str, help: &str, kind: &str, value: u64)
    ensures
        final(text)@ == old(text)@ + metric(name@, help@, kind@, value as nat),
{
    text.append("# HELP ");
    text.append(name);
    text.append(" ");
    text.append(help);
    text.append("\n# TYPE ");
    text.append(name);
    text.append(" ");
    text.append(kind);
    text.append("\n");
    text.append(name);
    text.append(" ");
    text.append(decimal_string(value).as_str());
    text.append("\n");
    assert(text@ =~= old(text)@ + metric(name@, help@, kind@, value as nat));
}

/// What an allocation is answered with.
#[derive(Debug, Clone, Copy, PartialEq, Eq)]
pub struct AllocateResponse {
    pub nameplate: u32,
    /// When the nameplate expires, in seconds since the epoch.
    pub expires_at: u64,
}

/// Shared server state. Times count nanoseconds on a clock that never goes back.
pub struct AppState {
    pairs: Mailbox,
    create_limiter: RateLimiter,
    access_limiter: RateLimiter,
    ttl: u64,
    counters: Counters,
}

impl AppState {
    /// What is stored under each nameplate.
    pub closed spec fn pairs(self) -> Mailbox {
        self.pairs
    }

    /// The allocations that count for each address.
    pub closed spec fn creates(self) -> RateLimiter {
        self.create_limiter
    }

    /// The claims and status checks that count for each address.
    pub closed spec fn accesses(self) -> RateLimiter {
        self.access_limiter
    }

    /// How long an entry lives, in seconds.
    pub closed spec fn lifetime(self) -> u64 {
        self.ttl
    }

    /// The counters.
    pub closed spec fn counts(self) -> Counters {
        self.counters
    }

    /// The mailbox is well-formed, and a lifetime fits the clock.
    pub open spec fn wf(self) -> bool {
        self.pairs().wf() && self.lifetime() * NANOS <= u64::MAX
    }

    /// Fresh state with the standard lifetime.
    pub fn new() -> (state: Self)
        ensures
            state.fresh(TTL),
    {
        Self::with_ttl(TTL)
    }

    /// What holds of a server that has just started.
    pub open spec fn fresh(self, ttl: u64) -> bool {
        &&& self.wf()
        &&& self.pairs().entries() == Map::<u32, Entry>::empty()
        &&& self.pairs().has_room()
        &&& forall|ip: ClientIp| (#[trigger] self.creates().window(ip)) == Seq::<u64>::empty()
        &&& forall|ip: ClientIp| (#[trigger] self.accesses().window(ip)) == Seq::<u64>::empty()
        &&& self.lifetime() == ttl
        &&& self.counts() == Counters {
            allocate_total: 0,
            claim_total: 0,
            rate_limited_total: 0,
            requests_total: 0,
        }
    }

    /// Fresh state with a lifetime in seconds.
    pub fn with_ttl(ttl: u64) -> (state: Self)
        requires
            ttl * NANOS <= u64::MAX,
        ensures
            state.fresh(ttl),
    {
        AppState {
            pairs: Mailbox::default(),
            create_limiter: RateLimiter::default(),
            access_limiter: RateLimiter::default(),
            ttl,
            counters: Counters {
                allocate_total: 0,
                claim_total: 0,
                rate_limited_total: 0,
                requests_total: 0,
            },
        }
    }

    /// Whether a nameplate is left to allocate.
    pub fn room(&self) -> (room: bool)
        ensures
            room == self.pairs().has_room(),
    {
        self.pairs.room()
    }

    /// Answers `GET /metrics`. A mailbox that cannot be read counts as empty.
    pub fn metrics(&mut self, readable: bool) -> (body: String)
        requires
            old(self).wf(),
        ensures
            final(self).wf(),
            final(self).counts() == old(self).counts().request(),
            final(self).same_but_counts(*old(self)),
            body@ == metrics_text(
                final(self).counts(),
                if readable {
                    old(self).pairs().entries().dom().len()
                } else {
                    0
                },
            ),
    {
        self.counters.requests_total = bump(self.counters.requests_total);
        let pairs_active: u64 = if readable {
            self.pairs.len() as u64
        } else {
            0
        };
        let counters: Counters = self.counters;
        let mut body = String::new();
        push_metric(
            &mut body,
            "worddrop_rendezvous_allocate_total",
            "Total nameplate allocation requests received.",
            "counter",
            counters.allocate_total,
        );
        push_metric(
            &mut body,
            "worddrop_rendezvous_claim_total",
            "Total successful one-shot claims.",
            "counter",
            counters.claim_total,
        );
        push_metric(
            &mut body,
            "worddrop_rendezvous_rate_limited_total",
            "Total requests rejected by rate limiting.",
            "counter",
            counters.rate_limited_total,
        );
        push_metric(
            &mut body,
            "worddrop_rendezvous_requests_total",
            "Total HTTP requests served.",
            "counter",
            counters.requests_total,
        );
        push_metric(
            &mut body,
            "worddrop_rendezvous_pairs_active",
            "Number of pairs currently tracked in the mailbox.",
            "gauge",
            pairs_active,
        );
        assert(body@ =~= metrics_text(counters, pairs_active as nat));
        body
    }

    /// Nothing but the counters differs.
    pub open spec fn same_but_counts(self, other: AppState) -> bool {
        &&& self.pairs() == other.pairs()
        &&& self.creates() == other.creates()
        &&& self.accesses() == other.accesses()
        &&& self.lifetime() == other.lifetime()
    }

    /// Answers `GET /health`: the status, and the body.
    pub fn health(&mut self, available: bool) -> (answer: (u16, &'static str))
        requires
            old(self).wf(),
        ensures
            final(self).wf(),
            final(self).counts() == old(self).counts().request(),
            final(self).same_but_counts(*old(self)),
            answer.0 == if available {
                200u16
            } else {
                503u16
            },
            answer.1@ == if available {
                "ok"@
            } else {
                "degraded"@
            },
    {
        self.counters.requests_total = bump(self.counters.requests_total);
        if available {
            (200, "ok")
        } else {
            (503, "degraded")
        }
    }

    /// Whether an allocation by `ip` is under the limit.
    pub open spec fn may_create(self, ip: ClientIp, now: u64) -> bool {
        counting(self.creates().window(ip), now).len() < CREATE_LIMIT_PER_MINUTE
    }

    /// Whether a claim or a status check by `ip` is under the limit.
    pub open spec fn may_access(self, ip: ClientIp, now: u64) -> bool {
        counting(self.accesses().window(ip), now).len() < ACCESS_LIMIT_PER_MINUTE
    }

    /// Whether an allocation is refused: by the rate limit, over its ticket, or because its expiry
    /// cannot be told.
    pub open spec fn refuses(self, ip: ClientIp, ticket: Seq<char>, now: u64, epoch: u64) -> bool {
        ||| !self.may_create(ip, now)
        ||| ticket_fault(ticket) is Some
        ||| epoch + self.lifetime() > u64::MAX
    }

    /// What an allocation does before it stores anything, seen from the state before it.
    pub open spec fn create_counted(self, before: AppState, ip: ClientIp, now: u64) -> bool {
        &&& self.accesses() == before.accesses()
        &&& self.lifetime() == before.lifetime()
        &&& self.creates().window(ip) == if before.may_create(ip, now) {
            counting(before.creates().window(ip), now).push(now)
        } else {
            counting(before.creates().window(ip), now)
        }
        &&& forall|other: ClientIp|
            other != ip ==> #[trigger] self.creates().window(other) == before.creates().window(
                other,
            )
        &&& self.counts() == if before.may_create(ip, now) {
            before.counts().request().allocation()
        } else {
            before.counts().request().allocation().limited()
        }
    }

    /// Whether an error is the one that an allocation is refused with.
    pub open spec fn is_refusal(
        self,
        ip: ClientIp,
        ticket: Seq<char>,
        now: u64,
        error: ApiError,
    ) -> bool {
        if !self.may_create(ip, now) {
            error.says(429, "rate limit exceeded"@)
        } else if ticket_fault(ticket) is Some {
            error.says(400, ticket_fault(ticket)->0)
        } else {
            error.says(500, "expiry overflow"@)
        }
    }

    /// What an allocation does before it stores anything: counts the request, applies the rate
    /// limit, and checks the ticket and the expiry, which it returns.
    fn let_create(&mut self, ip: ClientIp, ticket: &str, now: u64, epoch: u64) -> (expires_at: Result<
        u64,
        ApiError,
    >)
        requires
            old(self).wf(),
        ensures
            final(self).wf(),
            final(self).pairs() == old(self).pairs(),
            final(self).create_counted(*old(self), ip, now),
            match expires_at {
                Ok(at) => !old(self).refuses(ip, ticket@, now, epoch) && at == epoch + old(
                    self,
                ).lifetime(),
                Err(error) => old(self).refuses(ip, ticket@, now, epoch) && old(self).is_refusal(
                    ip,
                    ticket@,
                    now,
                    error,
                ),
            },
    {
        self.counters.requests_total = bump(self.counters.requests_total);
        self.counters.allocate_total = bump(self.counters.allocate_total);
        if !self.create_limiter.check(ip, CREATE_LIMIT_PER_MINUTE, now) {
            self.counters.rate_limited_total = bump(self.counters.rate_limited_total);
            return Err(ApiError::new(429, "rate limit exceeded"));
        }
        match validate_ticket(ticket) {
            Ok(()) => {},
            Err(error) => {
                return Err(error);
            },
        }
        match epoch.checked_add(self.ttl) {
            Some(at) => Ok(at),
            None => Err(ApiError::new(500, "expiry overflow")),
        }
    }

    /// Whether an answer to an allocation is right, seen from the state before it: a refusal, or an
    /// unused nameplate under which the ticket now stands.
    pub open spec fn allocated(
        self,
        before: AppState,
        ip: ClientIp,
        ticket: String,
        now: u64,
        epoch: u64,
        answer: Result<AllocateResponse, ApiError>,
    ) -> bool {
        match answer {
            Ok(response) => {
                &&& !before.refuses(ip, ticket@, now, epoch)
                &&& response.expires_at == epoch + before.lifetime()
                &&& before.pairs().free_list().contains(response.nameplate)
                &&& !before.pairs().entries().contains_key(response.nameplate)
                &&& 1 <= response.nameplate <= 9999
                &&& self.pairs().entries() == before.pairs().entries().insert(
                    response.nameplate,
                    Entry {
                        ticket,
                        expires_at: (now + before.lifetime() * NANOS) as u64,
                        claimed: false,
                    },
                )
            },
            Err(error) => {
                &&& before.refuses(ip, ticket@, now, epoch)
                &&& before.is_refusal(ip, ticket@, now, error)
                &&& self.pairs() == before.pairs()
            },
        }
    }

    /// Answers `POST /v1/pairs`: stores a ticket under a nameplate that the generator picks.
    ///
    /// `now` is the time on the server's clock and `epoch` that of the calendar, in seconds. A
    /// request that is not refused needs a nameplate that is left (see
    /// [`AppState::allocate_if_room`]).
    pub fn allocate(
        &mut self,
        ip: ClientIp,
        ticket: String,
        now: u64,
        epoch: u64,
        rng: &mut rand::rngs::StdRng,
    ) -> (answer: Result<AllocateResponse, ApiError>)
        requires
            old(self).wf(),
            old(self).pairs().has_room() || old(self).refuses(ip, ticket@, now, epoch),
            now + old(self).lifetime() * NANOS <= u64::MAX,
        ensures
            final(self).wf(),
            final(self).create_counted(*old(self), ip, now),
            final(self).allocated(*old(self), ip, ticket, now, epoch, answer),
            answer is Err ==> *final(rng) == *old(rng),
    {
        match self.let_create(ip, ticket.as_str(), now, epoch) {
            Ok(expires_at) => {
                let nameplate = self.pairs.allocate(ticket, now, self.ttl * NANOS, rng);
                Ok(AllocateResponse { nameplate: nameplate.value(), expires_at })
            },
            Err(error) => Err(error),
        }
    }

    /// [`AppState::allocate`], or nothing where the request is not refused and no nameplate is
    /// left; it has been counted then all the same.
    pub fn allocate_if_room(
        &mut self,
        ip: ClientIp,
        ticket: String,
        now: u64,
        epoch: u64,
        rng: &mut rand::rngs::StdRng,
    ) -> (answer: Option<Result<AllocateResponse, ApiError>>)
        requires
            old(self).wf(),
            now + old(self).lifetime() * NANOS <= u64::MAX,
        ensures
            final(self).wf(),
            final(self).create_counted(*old(self), ip, now),
            match answer {
                Some(answer) => final(self).allocated(*old(self), ip, ticket, now, epoch, answer),
                None => {
                    &&& !old(self).refuses(ip, ticket@, now, epoch)
                    &&& !old(self).pairs().has_room()
                    &&& final(self).pairs() == old(self).pairs()
                },
            },
            !(answer matches Some(Ok(_))) ==> *final(rng) == *old(rng),
    {
        match self.let_create(ip, ticket.as_str(), now, epoch) {
            Ok(expires_at) => {
                if !self.pairs.room() {
                    return None;
                }
                let nameplate = self.pairs.allocate(ticket, now, self.ttl * NANOS, rng);
                Some(Ok(AllocateResponse { nameplate: nameplate.value(), expires_at }))
            },
            Err(error) => Some(Err(error)),
        }
    }

    /// What a claim or a status check does before it looks anything up: counts the request,
    /// applies the rate limit and reads the nameplate.
    fn let_in(&mut self, ip: ClientIp, nameplate: &str, now: u64) -> (admitted: Result<
        Nameplate,
        ApiError,
    >)
        requires
            old(self).wf(),
        ensures
            final(self).wf(),
            final(self).pairs() == old(self).pairs(),
            final(self).accessed(*old(self), ip, now),
            final(self).counts() == if old(self).may_access(ip, now) {
                old(self).counts().request()
            } else {
                old(self).counts().request().limited()
            },
            match admitted {
                Ok(n) => old(self).may_access(ip, now) && nameplate_of(nameplate@) == Ok::<
                    _,
                    crate::rendezvous::mailbox::NameplateError,
                >(n.number() as nat),
                Err(error) => !old(self).may_access(ip, now) && error.says(
                    429,
                    "rate limit exceeded"@,
                ) || old(self).may_access(ip, now) && nameplate_of(nameplate@) is Err
                    && error.says(400, nameplate_error_text(nameplate_of(nameplate@)->Err_0)),
            },
    {
        self.counters.requests_total = bump(self.counters.requests_total);
        if !self.access_limiter.check(ip, ACCESS_LIMIT_PER_MINUTE, now) {
            self.counters.rate_limited_total = bump(self.counters.rate_limited_total);
            return Err(ApiError::new(429, "rate limit exceeded"));
        }
        match Nameplate::parse(nameplate) {
            Ok(n) => Ok(n),
            Err(error) => Err(ApiError { status: 400, message: error.to_string() }),
        }
    }

    /// The state after an access by `ip`, apart from the mailbox and the counters.
    pub open spec fn accessed(self, before: AppState, ip: ClientIp, now: u64) -> bool {
        &&& self.creates() == before.creates()
        &&& self.lifetime() == before.lifetime()
        &&& self.accesses().window(ip) == if before.may_access(ip, now) {
            counting(before.accesses().window(ip), now).push(now)
        } else {
            counting(before.accesses().window(ip), now)
        }
        &&& forall|other: ClientIp|
            other != ip ==> #[trigger] self.accesses().window(other) == before.accesses().window(
                other,
            )
    }

    /// Answers `POST /v1/pairs/{nameplate}/claim` with the ticket, once.
    pub fn claim(&mut self, ip: ClientIp, nameplate: &str, now: u64) -> (answer: Result<
        String,
        ApiError,
    >)
        requires
            old(self).wf(),
        ensures
            final(self).wf(),
            final(self).accessed(*old(self), ip, now),
            ({
                let counts = old(self).counts().request();
                let entries = old(self).pairs().entries();
                if !old(self).may_access(ip, now) {
                    &&& answer matches Err(error)
                    &&& error.says(429, "rate limit exceeded"@)
                    &&& final(self).counts() == counts.limited()
                    &&& final(self).pairs().entries() == entries
                } else {
                    match nameplate_of(nameplate@) {
                        Err(fault) => {
                            &&& answer matches Err(error)
                            &&& error.says(400, nameplate_error_text(fault))
                            &&& final(self).counts() == counts
                            &&& final(self).pairs().entries() == entries
                        },
                        Ok(n) => {
                            let n = n as u32;
                            if !entries.contains_key(n) || entries[n].state(now)
                                == PairState::Claimed {
                                &&& answer matches Err(error)
                                &&& error.says(404, "pair not found"@)
                                &&& final(self).counts() == counts
                                &&& final(self).pairs().entries() == entries
                            } else if entries[n].state(now) == PairState::Expired {
                                &&& answer matches Err(error)
                                &&& error.says(410, "pair has expired"@)
                                &&& final(self).counts() == counts
                                &&& final(self).pairs().entries() == entries
                            } else {
                                &&& answer matches Ok(ticket)
                                &&& ticket == entries[n].ticket
                                &&& final(self).counts() == counts.claim()
                                &&& final(self).pairs().entries() == entries.insert(
                                    n,
                                    Entry { claimed: true, ..entries[n] },
                                )
                            }
                        },
                    }
                }
            }),
    {
        let n = match self.let_in(ip, nameplate, now) {
            Ok(n) => n,
            Err(error) => {
                return Err(error);
            },
        };
        match self.pairs.claim(n, now) {
            Ok(ticket) => {
                self.counters.claim_total = bump(self.counters.claim_total);
                Ok(ticket)
            },
            Err(ClaimError::NotFound) => Err(ApiError::new(404, "pair not found")),
            Err(ClaimError::Expired) => Err(ApiError::new(410, "pair has expired")),
        }
    }

    /// Answers `GET /v1/pairs/{nameplate}/status` with the name of the state.
    pub fn status(&mut self, ip: ClientIp, nameplate: &str, now: u64) -> (answer: Result<
        &'static str,
        ApiError,
    >)
        requires
            old(self).wf(),
        ensures
            final(self).wf(),
            final(self).accessed(*old(self), ip, now),
            final(self).pairs() == old(self).pairs(),
            final(self).counts() == if old(self).may_access(ip, now) {
                old(self).counts().request()
            } else {
                old(self).counts().request().limited()
            },
            if !old(self).may_access(ip, now) {
                answer matches Err(error) && error.says(429, "rate limit exceeded"@)
            } else {
                match nameplate_of(nameplate@) {
                    Err(fault) => answer matches Err(error) && error.says(
                        400,
                        nameplate_error_text(fault),
                    ),
                    Ok(n) => if old(self).pairs().entries().contains_key(n as u32) {
                        answer matches Ok(name) && name@ == pair_state_name(
                            old(self).pairs().entries()[n as u32].state(now),
                        )
                    } else {
                        answer matches Err(error) && error.says(404, "pair not found"@)
                    },
                }
            },
    {
        let n = match self.let_in(ip, nameplate, now) {
            Ok(n) => n,
            Err(error) => {
                return Err(error);
            },
        };
        match self.pairs.status(n, now) {
            Some(state) => Ok(state.as_str()),
            None => Err(ApiError::new(404, "pair not found")),
        }
    }

    /// Removes expired entries and returns how many there were.
    pub fn cleanup(&mut self, now: u64) -> (removed: usize)
        requires
            old(self).wf(),
        ensures
            final(self).wf(),
            final(self).pairs().entries() == unexpired(old(self).pairs().entries(), now),
            removed == old(self).pairs().entries().dom().len()
                - final(self).pairs().entries().dom().len(),
            final(self).creates() == old(self).creates(),
            final(self).accesses() == old(self).accesses(),
            final(self).lifetime() == old(self).lifetime(),
            final(self).counts() == old(self).counts(),
    {
        self.pairs.purge_expired(now)
    }
}

impl Default for AppState {
    fn default() -> (state: Self)
        ensures
            state.fresh(TTL),
    {
        AppState::new()
    }
}

} // verus!
