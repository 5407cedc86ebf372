//! Laws of the rendezvous server: nameplates, tickets, claims and limits.
use vstd::prelude::*;

use crate::laws::text::trim_cuts;
use crate::rendezvous::mailbox::{
    counting, free_nameplates, parsed_nameplate_is_canonical, stale, written_nameplate_parses_back,
    ClientIp, Entry, Mailbox, Nameplate, NameplateError, RateLimiter,
};
use crate::rendezvous::{validate_ticket, AllocateResponse, ApiError, AppState};
use crate::text::{decimal, decimal_digits, decimal_string, is_digit, trimmed, white_space};

verus! {

broadcast use vstd::string::group_string_axioms;

/// A path names a nameplate exactly if it is the decimal notation of a number from 1 to 9999, and
/// it names that number.
pub proof fn a_nameplate_is_a_number_as_it_is_written(
    raw: &str,
    nameplate: Result<Nameplate, NameplateError>,
    number: u32,
    text: String,
)
    requires
        call_ensures(Nameplate::parse, (raw,), nameplate),
        call_ensures(decimal_string, (number as u64,), text),
    ensures
        raw@ == text@ && 1 <= number <= 9999 ==> (nameplate matches Ok(n) && n.number() == number),
        nameplate matches Ok(n) ==> (n.number() == number ==> raw@ == text@),
        raw@ == text@ && !(1 <= number <= 9999) ==> nameplate == Err::<Nameplate, _>(
            NameplateError::OutOfRange,
        ),
{
    decimal_digits(number as nat);
    if nameplate is Ok {
        parsed_nameplate_is_canonical(raw@);
    }
}

/// What is no number as it is written is refused by name: nothing, what holds anything but digits,
/// and digits with a zero before them.
pub proof fn what_is_no_nameplate_is_refused(
    raw: &str,
    nameplate: Result<Nameplate, NameplateError>,
    i: int,
)
    requires
        call_ensures(Nameplate::parse, (raw,), nameplate),
    ensures
        raw@.len() == 0 ==> nameplate == Err::<Nameplate, _>(NameplateError::Empty),
        0 <= i < raw@.len() && !('0' <= raw@[i] <= '9') ==> nameplate == Err::<Nameplate, _>(
            NameplateError::NotNumeric,
        ),
        raw@.len() > 1 && raw@[0] == '0' && (forall|k: int|
            0 <= k < raw@.len() ==> '0' <= #[trigger] raw@[k] <= '9') ==> nameplate == Err::<
            Nameplate,
            _,
        >(NameplateError::LeadingZero),
{
    if 0 <= i < raw@.len() && !('0' <= raw@[i] <= '9') {
        assert(!is_digit(raw@[i]));
    }
}

proof fn kept_part(accesses: Seq<u64>, now: u64) -> (dropped: int)
    requires
        forall|i: int, j: int| 0 <= i <= j < accesses.len() ==> accesses[i] <= accesses[j],
    ensures
        0 <= dropped <= accesses.len(),
        counting(accesses, now) == accesses.skip(dropped),
        forall|i: int| 0 <= i < dropped ==> now - #[trigger] accesses[i] >= 60_000_000_000,
        forall|i: int| dropped <= i < accesses.len() ==> now - #[trigger] accesses[i]
            < 60_000_000_000,
    decreases accesses.len(),
{
    if accesses.len() > 0 && stale(accesses[0], now) {
        let rest = accesses.drop_first();
        assert(forall|i: int| 0 <= i < rest.len() ==> rest[i] == accesses[i + 1]);
        let dropped = kept_part(rest, now);
        assert(rest.skip(dropped) =~= accesses.skip(dropped + 1));
        assert forall|i: int| 0 <= i < dropped + 1 implies now - #[trigger] accesses[i]
            >= 60_000_000_000 by {
            if i > 0 {
                assert(now - rest[i - 1] >= 60_000_000_000);
            }
        }
        assert forall|i: int| dropped + 1 <= i < accesses.len() implies now - #[trigger] accesses[i]
            < 60_000_000_000 by {
            assert(now - rest[i - 1] < 60_000_000_000);
        }
        dropped + 1
    } else {
        assert(accesses.skip(0) =~= accesses);
        0
    }
}

/// Whether the accesses that were let in are in the order of their times.
pub open spec fn in_time(accesses: Seq<u64>) -> bool {
    forall|i: int, j: int| 0 <= i <= j < accesses.len() ==> accesses[i] <= accesses[j]
}

/// Whether another access is too much: as many as the limit allows have been let in within the
/// last minute.
pub open spec fn too_many(accesses: Seq<u64>, limit: int, now: u64) -> bool {
    accesses.len() >= limit && (limit > 0 ==> now - accesses[accesses.len() - limit]
        < 60_000_000_000)
}

proof fn limits(accesses: Seq<u64>, limit: int, now: u64)
    requires
        in_time(accesses),
        limit > 0,
    ensures
        counting(accesses, now).len() < limit <==> !too_many(accesses, limit, now),
{
    let dropped = kept_part(accesses, now);
    if accesses.len() >= limit {
        let at = accesses.len() - limit;
        if at < dropped {
            assert(now - accesses[at] >= 60_000_000_000);
        } else {
            assert(now - accesses[at] < 60_000_000_000);
        }
    }
}

/// Whether a window is what a minute leaves of another: those of its accesses that are less than a
/// minute old, in their order, and behind them the access of now if it was let in.
pub open spec fn minute_later(after: Seq<u64>, before: Seq<u64>, now: u64, let_in: bool) -> bool {
    exists|gone: int| #[trigger]
        cut_to_a_minute(before, now, gone) && after == if let_in {
            before.skip(gone).push(now)
        } else {
            before.skip(gone)
        }
}

/// Whether just the first `gone` accesses are a minute old or more.
pub open spec fn cut_to_a_minute(accesses: Seq<u64>, now: u64, gone: int) -> bool {
    &&& 0 <= gone <= accesses.len()
    &&& forall|i: int| 0 <= i < gone ==> now - #[trigger] accesses[i] >= 60_000_000_000
    &&& forall|i: int| gone <= i < accesses.len() ==> now - #[trigger] accesses[i] < 60_000_000_000
}

/// An access is let in exactly if fewer than the limit were let in from the same address within
/// the last minute. One that is let in counts from then on, one that is not does not, and other
/// addresses are not concerned.
pub proof fn the_limit_holds_for_every_minute(
    limiter: &mut RateLimiter,
    ip: ClientIp,
    limit: usize,
    now: u64,
    admitted: bool,
    other: ClientIp,
)
    requires
        call_ensures(RateLimiter::check, (limiter, ip, limit, now), admitted),
        in_time(old(limiter).window(ip)),
        limit > 0,
        other != ip,
    ensures
        admitted <==> !too_many(old(limiter).window(ip), limit as int, now),
        final(limiter).window(other) == old(limiter).window(other),
        minute_later(final(limiter).window(ip), old(limiter).window(ip), now, admitted),
{
    let accesses = limiter.window(ip);
    limits(accesses, limit as int, now);
    let gone = kept_part(accesses, now);
    assert(cut_to_a_minute(accesses, now, gone));
}

/// Whether a ticket holds nothing but white space.
pub open spec fn blank(ticket: Seq<char>) -> bool {
    forall|i: int| 0 <= i < ticket.len() ==> white_space(#[trigger] ticket[i])
}

pub(crate) proof fn blanks(ticket: Seq<char>)
    ensures
        blank(ticket) <==> trimmed(ticket).len() == 0,
{
    let ends = trim_cuts(ticket);
    if blank(ticket) && ends.0 < ends.1 {
        assert(white_space(ticket[ends.0]));
    }
}

/// A ticket is taken exactly if it holds more than white space and at most 4096 bytes.
pub proof fn a_ticket_is_some_text_of_limited_length(
    ticket: &str,
    outcome: Result<(), ApiError>,
)
    requires
        call_ensures(validate_ticket, (ticket,), outcome),
    ensures
        outcome is Ok <==> !blank(ticket@) && vstd::utf8::encode_utf8(ticket@).len() <= 4096,
        outcome matches Err(error) ==> error.status == 400,
        blank(ticket@) ==> (outcome matches Err(error) && error.message@
            == "ticket must not be empty"@),
        !blank(ticket@) && outcome is Err ==> (outcome matches Err(error) && error.message@
            == "ticket is too large"@),
{
    blanks(ticket@);
}

/// A ticket is allocated a nameplate from 1 to 9999 that no ticket has, is stored there as it was
/// sent, unclaimed and for the lifetime of the server, and nothing else in the mailbox changes.
/// The expiry that is shown is the lifetime from now on.
pub proof fn a_ticket_gets_a_nameplate_of_its_own(
    server: &mut AppState,
    ip: ClientIp,
    ticket: String,
    now: u64,
    epoch: u64,
    rng: &mut rand::rngs::StdRng,
    response: AllocateResponse,
    other: u32,
)
    requires
        call_ensures(
            AppState::allocate,
            (server, ip, ticket, now, epoch, rng),
            Ok::<_, ApiError>(response),
        ),
        now + old(server).lifetime() * 1_000_000_000 <= u64::MAX,
    ensures
        1 <= response.nameplate <= 9999,
        !old(server).pairs().entries().contains_key(response.nameplate),
        final(server).pairs().entries().contains_key(response.nameplate),
        ({
            let entry = final(server).pairs().entries()[response.nameplate];
            &&& entry.ticket@ == ticket@
            &&& !entry.claimed
            &&& entry.expires_at == now + old(server).lifetime() * 1_000_000_000
        }),
        response.expires_at == epoch + old(server).lifetime(),
        !blank(ticket@),
        vstd::utf8::encode_utf8(ticket@).len() <= 4096,
        other != response.nameplate ==> final(server).pairs().entries().contains_key(other)
            == old(server).pairs().entries().contains_key(other),
        other != response.nameplate && old(server).pairs().entries().contains_key(other)
            ==> final(server).pairs().entries()[other] == old(server).pairs().entries()[other],
{
    blanks(ticket@);
}

/// An allocation is refused exactly where it must be: over the limit of ten a minute, over a
/// ticket that is blank or too long, or over an expiry that does not fit; and then nothing is
/// stored.
pub proof fn an_allocation_is_refused_for_a_reason(
    server: &mut AppState,
    ip: ClientIp,
    ticket: String,
    now: u64,
    epoch: u64,
    rng: &mut rand::rngs::StdRng,
    answer: Result<AllocateResponse, ApiError>,
)
    requires
        call_ensures(AppState::allocate, (server, ip, ticket, now, epoch, rng), answer),
        in_time(old(server).creates().window(ip)),
    ensures
        ({
            let busy = too_many(old(server).creates().window(ip), 10, now);
            let bad = blank(ticket@) || vstd::utf8::encode_utf8(ticket@).len() > 4096;
            let late = epoch + old(server).lifetime() > u64::MAX;
            &&& answer is Err <==> busy || bad || late
            &&& answer matches Err(error) ==> if busy {
                error.status == 429 && error.message@ == "rate limit exceeded"@
            } else if blank(ticket@) {
                error.status == 400 && error.message@ == "ticket must not be empty"@
            } else if bad {
                error.status == 400 && error.message@ == "ticket is too large"@
            } else {
                error.status == 500 && error.message@ == "expiry overflow"@
            }
        }),
        answer is Err ==> final(server).pairs() == old(server).pairs(),
{
    blanks(ticket@);
    limits(server.creates().window(ip), 10, now);
}

/// The answers that a claim can give to an address that may ask.
pub open spec fn claim_is(
    answer: Result<String, ApiError>,
    entries: Map<u32, Entry>,
    number: u32,
    now: u64,
) -> bool {
    if !entries.contains_key(number) {
        answer matches Err(error) && error.status == 404 && error.message@ == "pair not found"@
    } else if now >= entries[number].expires_at {
        answer matches Err(error) && error.status == 410 && error.message@ == "pair has expired"@
    } else if entries[number].claimed {
        answer matches Err(error) && error.status == 404 && error.message@ == "pair not found"@
    } else {
        answer matches Ok(ticket) && ticket@ == entries[number].ticket@
    }
}

/// A claim of a nameplate gets the ticket that is stored there, if it has not expired and was not
/// claimed before, and marks it as claimed; every other claim is refused and changes nothing. An
/// address that asks more than sixty times a minute is refused whatever it asks for.
pub proof fn a_claim_gets_the_stored_ticket_once(
    server: &mut AppState,
    ip: ClientIp,
    raw: &str,
    now: u64,
    answer: Result<String, ApiError>,
    number: u32,
    text: String,
    other: u32,
)
    requires
        call_ensures(AppState::claim, (server, ip, raw, now), answer),
        call_ensures(decimal_string, (number as u64,), text),
        in_time(old(server).accesses().window(ip)),
        raw@ == text@,
        1 <= number <= 9999,
    ensures
        ({
            let before = old(server).pairs().entries();
            let after = final(server).pairs().entries();
            let busy = too_many(old(server).accesses().window(ip), 60, now);
            &&& busy ==> (answer matches Err(error) && error.status == 429 && error.message@
                == "rate limit exceeded"@)
            &&& !busy ==> claim_is(answer, before, number, now)
            &&& answer is Err ==> after == before
            &&& answer is Ok ==> after.contains_key(number) && after[number].claimed
                && after[number].expires_at == before[number].expires_at && after[number].ticket@
                == before[number].ticket@
            &&& other != number ==> after.contains_key(other) == before.contains_key(other)
            &&& other != number && before.contains_key(other) ==> after[other] == before[other]
        }),
{
    written_nameplate_parses_back(number);
    limits(server.accesses().window(ip), 60, now);
}

/// What one peer leaves the other finds: a ticket that was allocated a nameplate is what the first
/// claim of it gets before it expires, and a second claim gets nothing.
pub proof fn a_ticket_is_claimed_once(
    server: &mut AppState,
    ip: ClientIp,
    ticket: String,
    now: u64,
    epoch: u64,
    rng: &mut rand::rngs::StdRng,
    response: AllocateResponse,
    claiming: &mut AppState,
    raw: &str,
    by: ClientIp,
    first: u64,
    answer: Result<String, ApiError>,
    again: &mut AppState,
    later: u64,
    second: Result<String, ApiError>,
    text: String,
)
    requires
        call_ensures(
            AppState::allocate,
            (server, ip, ticket, now, epoch, rng),
            Ok::<_, ApiError>(response),
        ),
        call_ensures(AppState::claim, (claiming, by, raw, first), answer),
        call_ensures(AppState::claim, (again, by, raw, later), second),
        call_ensures(decimal_string, (response.nameplate as u64,), text),
        raw@ == text@,
        old(claiming).pairs().entries() == final(server).pairs().entries(),
        old(again).pairs().entries() == final(claiming).pairs().entries(),
        now + old(server).lifetime() * 1_000_000_000 <= u64::MAX,
        first < now + old(server).lifetime() * 1_000_000_000,
        in_time(old(claiming).accesses().window(by)),
        !too_many(old(claiming).accesses().window(by), 60, first),
    ensures
        answer matches Ok(got) && got@ == ticket@,
        second is Err,
{
    written_nameplate_parses_back(response.nameplate);
    limits(claiming.accesses().window(by), 60, first);
}

/// Asking for the state of a nameplate tells pending, claimed or expired, and takes nothing away.
pub proof fn the_state_is_told_as_it_is(
    server: &mut AppState,
    ip: ClientIp,
    raw: &str,
    now: u64,
    answer: Result<&'static str, ApiError>,
    number: u32,
    text: String,
)
    requires
        call_ensures(AppState::status, (server, ip, raw, now), answer),
        call_ensures(decimal_string, (number as u64,), text),
        in_time(old(server).accesses().window(ip)),
        raw@ == text@,
        1 <= number <= 9999,
    ensures
        final(server).pairs() == old(server).pairs(),
        ({
            let entries = old(server).pairs().entries();
            if too_many(old(server).accesses().window(ip), 60, now) {
                answer matches Err(error) && error.status == 429 && error.message@
                    == "rate limit exceeded"@
            } else if !entries.contains_key(number) {
                answer matches Err(error) && error.status == 404 && error.message@
                    == "pair not found"@
            } else if now >= entries[number].expires_at {
                answer matches Ok(name) && name@ == "expired"@
            } else if entries[number].claimed {
                answer matches Ok(name) && name@ == "claimed"@
            } else {
                answer matches Ok(name) && name@ == "pending"@
            }
        }),
{
    written_nameplate_parses_back(number);
    limits(server.accesses().window(ip), 60, now);
}

/// A request that names anything but a nameplate is a bad request, for a claim and for a question
/// alike, and is told what is wrong with the name.
pub proof fn a_bad_nameplate_is_a_bad_request(
    claiming: &mut AppState,
    ip: ClientIp,
    raw: &str,
    now: u64,
    answer: Result<String, ApiError>,
    asking: &mut AppState,
    state: Result<&'static str, ApiError>,
    fault: NameplateError,
    why: String,
)
    requires
        call_ensures(AppState::claim, (claiming, ip, raw, now), answer),
        call_ensures(AppState::status, (asking, ip, raw, now), state),
        call_ensures(Nameplate::parse, (raw,), Err::<Nameplate, _>(fault)),
        call_ensures(NameplateError::to_string, (&fault,), why),
        in_time(old(claiming).accesses().window(ip)),
        in_time(old(asking).accesses().window(ip)),
        !too_many(old(claiming).accesses().window(ip), 60, now),
        !too_many(old(asking).accesses().window(ip), 60, now),
    ensures
        answer matches Err(error) && error.status == 400 && error.message@ == why@,
        state matches Err(error) && error.status == 400 && error.message@ == why@,
        final(claiming).pairs().entries() == old(claiming).pairs().entries(),
{
    limits(claiming.accesses().window(ip), 60, now);
    limits(asking.accesses().window(ip), 60, now);
}

/// Claims and questions count together for the address that they come from, allocations apart from
/// them; nothing counts for another address, and the lifetime of tickets stays.
pub proof fn each_access_counts_for_its_address(
    claiming: &mut AppState,
    ip: ClientIp,
    raw: &str,
    now: u64,
    answer: Result<String, ApiError>,
    asking: &mut AppState,
    state: Result<&'static str, ApiError>,
    allocating: &mut AppState,
    ticket: String,
    epoch: u64,
    rng: &mut rand::rngs::StdRng,
    response: Option<Result<AllocateResponse, ApiError>>,
    other: ClientIp,
)
    requires
        call_ensures(AppState::claim, (claiming, ip, raw, now), answer),
        call_ensures(AppState::status, (asking, ip, raw, now), state),
        call_ensures(AppState::allocate_if_room, (allocating, ip, ticket, now, epoch, rng), response),
        in_time(old(claiming).accesses().window(ip)),
        in_time(old(asking).accesses().window(ip)),
        in_time(old(allocating).creates().window(ip)),
        other != ip,
    ensures
        minute_later(
            final(claiming).accesses().window(ip),
            old(claiming).accesses().window(ip),
            now,
            !too_many(old(claiming).accesses().window(ip), 60, now),
        ),
        final(claiming).accesses().window(other) == old(claiming).accesses().window(other),
        final(claiming).creates() == old(claiming).creates(),
        final(claiming).lifetime() == old(claiming).lifetime(),
        minute_later(
            final(asking).accesses().window(ip),
            old(asking).accesses().window(ip),
            now,
            !too_many(old(asking).accesses().window(ip), 60, now),
        ),
        final(asking).accesses().window(other) == old(asking).accesses().window(other),
        final(asking).creates() == old(asking).creates(),
        final(asking).lifetime() == old(asking).lifetime(),
        minute_later(
            final(allocating).creates().window(ip),
            old(allocating).creates().window(ip),
            now,
            !too_many(old(allocating).creates().window(ip), 10, now),
        ),
        final(allocating).creates().window(other) == old(allocating).creates().window(other),
        final(allocating).accesses() == old(allocating).accesses(),
        final(allocating).lifetime() == old(allocating).lifetime(),
{
    limits(claiming.accesses().window(ip), 60, now);
    let a = kept_part(claiming.accesses().window(ip), now);
    assert(cut_to_a_minute(claiming.accesses().window(ip), now, a));
    limits(asking.accesses().window(ip), 60, now);
    let b = kept_part(asking.accesses().window(ip), now);
    assert(cut_to_a_minute(asking.accesses().window(ip), now, b));
    limits(allocating.creates().window(ip), 10, now);
    let c = kept_part(allocating.creates().window(ip), now);
    assert(cut_to_a_minute(allocating.creates().window(ip), now, c));
}

/// An allocation gets no answer at all exactly if it would not be refused and every nameplate is
/// taken, and then nothing is stored. Otherwise it is answered as one with room is.
pub proof fn a_full_mailbox_gives_no_answer(
    server: &mut AppState,
    ip: ClientIp,
    ticket: String,
    now: u64,
    epoch: u64,
    rng: &mut rand::rngs::StdRng,
    answer: Option<Result<AllocateResponse, ApiError>>,
    n: u32,
)
    requires
        call_ensures(AppState::allocate_if_room, (server, ip, ticket, now, epoch, rng), answer),
        in_time(old(server).creates().window(ip)),
        now + old(server).lifetime() * 1_000_000_000 <= u64::MAX,
    ensures
        ({
            let before = old(server).pairs().entries();
            let after = final(server).pairs().entries();
            let busy = too_many(old(server).creates().window(ip), 10, now);
            let bad = blank(ticket@) || vstd::utf8::encode_utf8(ticket@).len() > 4096;
            let late = epoch + old(server).lifetime() > u64::MAX;
            &&& (answer is Some && answer->0 is Err) <==> busy || bad || late
            &&& answer is None && 1 <= n <= 9999 ==> before.contains_key(n)
            &&& !(answer matches Some(Ok(_))) ==> after == before
            &&& answer matches Some(Ok(response)) ==> {
                &&& 1 <= response.nameplate <= 9999
                &&& !before.contains_key(response.nameplate)
                &&& after.contains_key(response.nameplate)
                &&& after[response.nameplate].ticket@ == ticket@
                &&& !after[response.nameplate].claimed
                &&& after[response.nameplate].expires_at == now + old(server).lifetime()
                    * 1_000_000_000
                &&& response.expires_at == epoch + old(server).lifetime()
                &&& n != response.nameplate ==> after.contains_key(n) == before.contains_key(n)
                &&& n != response.nameplate && before.contains_key(n) ==> after[n] == before[n]
            }
        }),
{
    blanks(ticket@);
    limits(server.creates().window(ip), 10, now);
    free_are(server.pairs().entries(), 9999, n);
}

/// Cleaning up takes away what has expired and nothing else, and tells how much.
pub proof fn cleaning_takes_the_expired_away(
    server: &mut AppState,
    now: u64,
    removed: usize,
    n: u32,
)
    requires
        call_ensures(AppState::cleanup, (server, now), removed),
    ensures
        final(server).pairs().entries().contains_key(n) <==> old(server).pairs().entries().contains_key(
            n,
        ) && now < old(server).pairs().entries()[n].expires_at,
        final(server).pairs().entries().contains_key(n) ==> final(server).pairs().entries()[n]
            == old(server).pairs().entries()[n],
        removed == old(server).pairs().entries().dom().len()
            - final(server).pairs().entries().dom().len(),
        final(server).counts() == old(server).counts(),
{
}

/// A number that starts again behind the largest.
pub open spec fn one_more(before: u64, after: u64) -> bool {
    after == before + 1 || (before == u64::MAX && after == 0)
}

/// Every request counts, every allocation that is asked for, every claim that succeeds and every
/// refusal over the limit; and nothing counts twice.
pub proof fn requests_are_counted(
    claiming: &mut AppState,
    ip: ClientIp,
    raw: &str,
    now: u64,
    answer: Result<String, ApiError>,
    allocating: &mut AppState,
    ticket: String,
    epoch: u64,
    rng: &mut rand::rngs::StdRng,
    response: Result<AllocateResponse, ApiError>,
    asking: &mut AppState,
    state: Result<&'static str, ApiError>,
    checking: &mut AppState,
    available: bool,
    health: (u16, &'static str),
)
    requires
        call_ensures(AppState::status, (asking, ip, raw, now), state),
        call_ensures(AppState::health, (checking, available), health),
        in_time(old(asking).accesses().window(ip)),
        in_time(old(claiming).accesses().window(ip)),
        call_ensures(AppState::claim, (claiming, ip, raw, now), answer),
        call_ensures(AppState::allocate, (allocating, ip, ticket, now, epoch, rng), response),
        in_time(old(allocating).creates().window(ip)),
    ensures
        ({
            let before = old(claiming).counts();
            let after = final(claiming).counts();
            &&& one_more(before.requests_total, after.requests_total)
            &&& after.allocate_total == before.allocate_total
            &&& answer is Ok ==> one_more(before.claim_total, after.claim_total)
            &&& answer is Err ==> after.claim_total == before.claim_total
            &&& if too_many(old(claiming).accesses().window(ip), 60, now) {
                one_more(before.rate_limited_total, after.rate_limited_total)
            } else {
                after.rate_limited_total == before.rate_limited_total
            }
        }),
        ({
            let before = old(asking).counts();
            let after = final(asking).counts();
            &&& one_more(before.requests_total, after.requests_total)
            &&& after.allocate_total == before.allocate_total
            &&& after.claim_total == before.claim_total
            &&& if too_many(old(asking).accesses().window(ip), 60, now) {
                one_more(before.rate_limited_total, after.rate_limited_total)
            } else {
                after.rate_limited_total == before.rate_limited_total
            }
        }),
        ({
            let before = old(checking).counts();
            let after = final(checking).counts();
            &&& one_more(before.requests_total, after.requests_total)
            &&& after.allocate_total == before.allocate_total
            &&& after.claim_total == before.claim_total
            &&& after.rate_limited_total == before.rate_limited_total
        }),
        ({
            let before = old(allocating).counts();
            let after = final(allocating).counts();
            &&& one_more(before.requests_total, after.requests_total)
            &&& one_more(before.allocate_total, after.allocate_total)
            &&& after.claim_total == before.claim_total
            &&& if too_many(old(allocating).creates().window(ip), 10, now) {
                one_more(before.rate_limited_total, after.rate_limited_total)
            } else {
                after.rate_limited_total == before.rate_limited_total
            }
        }),
{
    limits(allocating.creates().window(ip), 10, now);
    limits(claiming.accesses().window(ip), 60, now);
    limits(asking.accesses().window(ip), 60, now);
}

/// A server that is there says so; one that is not says that it is degraded.
pub proof fn health_is_told(server: &mut AppState, available: bool, answer: (u16, &'static str))
    requires
        call_ensures(AppState::health, (server, available), answer),
    ensures
        available ==> answer.0 == 200 && answer.1@ == "ok"@,
        !available ==> answer.0 == 503 && answer.1@ == "degraded"@,
        final(server).pairs() == old(server).pairs(),
{
}

/// Whether a text holds a line, between two line ends.
pub open spec fn has_line(text: Seq<char>, line: Seq<char>) -> bool {
    exists|i: int|
        0 < i && i + line.len() < text.len() && text[i - 1] == '\n' && #[trigger] text.subrange(
            i,
            i + line.len(),
        ) == line && text[i + line.len()] == '\n'
}

proof fn line_in(before: Seq<char>, line: Seq<char>, after: Seq<char>, text: Seq<char>)
    requires
        before.len() > 0,
        before.last() == '\n',
        after.len() > 0,
        after[0] == '\n',
        text == before + line + after,
    ensures
        has_line(text, line),
{
    let i = before.len() as int;
    assert(text.subrange(i, i + line.len()) =~= line);
    assert(text[i - 1] == '\n');
    assert(text[i + line.len()] == '\n');
}

proof fn metric_line(
    front: Seq<char>,
    name: Seq<char>,
    help: Seq<char>,
    kind: Seq<char>,
    value: nat,
    back: Seq<char>,
)
    ensures
        has_line(
            front + crate::rendezvous::metric(name, help, kind, value) + back,
            name + " "@ + decimal(value),
        ),
{
    reveal_strlit("\n");
    let text = front + crate::rendezvous::metric(name, help, kind, value) + back;
    let before = front + ("# HELP "@ + name + " "@ + help + "\n# TYPE "@ + name + " "@ + kind + "\n"@);
    let line = name + " "@ + decimal(value);
    let after = "\n"@ + back;
    assert(text =~= before + line + after);
    line_in(before, line, after, text);
}

/// The metrics show every counter by its name: the allocations, the claims, the refusals over the
/// limit, the requests with this one, and the tickets in the mailbox where it can be read.
pub proof fn the_metrics_show_every_counter(server: &mut AppState, readable: bool, body: String)
    requires
        call_ensures(AppState::metrics, (server, readable), body),
    ensures
        one_more(old(server).counts().requests_total, final(server).counts().requests_total),
        has_line(
            body@,
            "worddrop_rendezvous_allocate_total"@ + " "@ + decimal(
                old(server).counts().allocate_total as nat,
            ),
        ),
        has_line(
            body@,
            "worddrop_rendezvous_claim_total"@ + " "@ + decimal(
                old(server).counts().claim_total as nat,
            ),
        ),
        has_line(
            body@,
            "worddrop_rendezvous_rate_limited_total"@ + " "@ + decimal(
                old(server).counts().rate_limited_total as nat,
            ),
        ),
        has_line(
            body@,
            "worddrop_rendezvous_requests_total"@ + " "@ + decimal(
                final(server).counts().requests_total as nat,
            ),
        ),
        readable ==> has_line(
            body@,
            "worddrop_rendezvous_pairs_active"@ + " "@ + decimal(
                old(server).pairs().entries().dom().len(),
            ),
        ),
{
    let counts = final(server).counts();
    let pairs: nat = if readable {
        server.pairs().entries().dom().len()
    } else {
        0
    };
    let none = Seq::<char>::empty();
    let a = crate::rendezvous::metric(
        "worddrop_rendezvous_allocate_total"@,
        "Total nameplate allocation requests received."@,
        "counter"@,
        counts.allocate_total as nat,
    );
    let b = crate::rendezvous::metric(
        "worddrop_rendezvous_claim_total"@,
        "Total successful one-shot claims."@,
        "counter"@,
        counts.claim_total as nat,
    );
    let c = crate::rendezvous::metric(
        "worddrop_rendezvous_rate_limited_total"@,
        "Total requests rejected by rate limiting."@,
        "counter"@,
        counts.rate_limited_total as nat,
    );
    let d = crate::rendezvous::metric(
        "worddrop_rendezvous_requests_total"@,
        "Total HTTP requests served."@,
        "counter"@,
        counts.requests_total as nat,
    );
    let e = crate::rendezvous::metric(
        "worddrop_rendezvous_pairs_active"@,
        "Number of pairs currently tracked in the mailbox."@,
        "gauge"@,
        pairs,
    );
    assert(body@ == a + b + c + d + e);
    assert(body@ =~= none + a + (b + c + d + e));
    assert(body@ =~= a + b + (c + d + e));
    assert(body@ =~= (a + b) + c + (d + e));
    assert(body@ =~= (a + b + c) + d + e);
    assert(body@ =~= (a + b + c + d) + e + none);
    metric_line(
        none,
        "worddrop_rendezvous_allocate_total"@,
        "Total nameplate allocation requests received."@,
        "counter"@,
        counts.allocate_total as nat,
        b + c + d + e,
    );
    metric_line(
        a,
        "worddrop_rendezvous_claim_total"@,
        "Total successful one-shot claims."@,
        "counter"@,
        counts.claim_total as nat,
        c + d + e,
    );
    metric_line(
        a + b,
        "worddrop_rendezvous_rate_limited_total"@,
        "Total requests rejected by rate limiting."@,
        "counter"@,
        counts.rate_limited_total as nat,
        d + e,
    );
    metric_line(
        a + b + c,
        "worddrop_rendezvous_requests_total"@,
        "Total HTTP requests served."@,
        "counter"@,
        counts.requests_total as nat,
        e,
    );
    metric_line(
        a + b + c + d,
        "worddrop_rendezvous_pairs_active"@,
        "Number of pairs currently tracked in the mailbox."@,
        "gauge"@,
        pairs,
        none,
    );
}

/// A new server has an empty mailbox, nothing counted, and a lifetime of ten minutes for tickets.
pub proof fn a_new_server_is_empty(server: AppState, n: u32, ip: ClientIp)
    requires
        call_ensures(AppState::new, (), server),
    ensures
        !server.pairs().entries().contains_key(n),
        server.creates().window(ip).len() == 0,
        server.accesses().window(ip).len() == 0,
        server.lifetime() == 600,
        server.counts().requests_total == 0,
        server.counts().allocate_total == 0,
        server.counts().claim_total == 0,
        server.counts().rate_limited_total == 0,
{
}

/// The free nameplates are exactly those from 1 to 9999 that hold no ticket, and there is room as
/// long as there is one.
pub proof fn free_nameplates_are_those_without_a_ticket(
    mailbox: &Mailbox,
    free: Vec<u32>,
    room: bool,
    n: u32,
)
    requires
        call_ensures(Mailbox::free, (mailbox,), free),
        call_ensures(Mailbox::room, (mailbox,), room),
    ensures
        free@.contains(n) <==> 1 <= n <= 9999 && !mailbox.entries().contains_key(n),
        free@.contains(n) ==> room,
        room <==> free@.len() > 0,
{
    free_are(mailbox.entries(), 9999, n);
    if free@.contains(n) {
        let k = choose|k: int| 0 <= k < free@.len() && free@[k] == n;
        assert(free@.len() > 0);
    }
}

proof fn free_are(entries: Map<u32, Entry>, upto: int, n: u32)
    requires
        0 <= upto <= 9999,
    ensures
        free_nameplates(entries, upto).contains(n) <==> 1 <= n <= upto && !entries.contains_key(n),
    decreases upto,
{
    let list = free_nameplates(entries, upto);
    if upto >= 1 {
        free_are(entries, upto - 1, n);
        let shorter = free_nameplates(entries, upto - 1);
        if !entries.contains_key(upto as u32) {
            if n == upto {
                assert(list.last() == n);
            } else if shorter.contains(n) {
                let k = choose|k: int| 0 <= k < shorter.len() && shorter[k] == n;
                assert(list[k] == n);
            } else if list.contains(n) {
                let k = choose|k: int| 0 <= k < list.len() && list[k] == n;
                assert(k < shorter.len());
                assert(shorter[k] == n);
            }
        }
    }
}

} // verus!
