//! The mailbox of the rendezvous: numeric nameplates and the opaque tickets stored under them.
//!
//! The server stores and routes by nameplate alone. [`Nameplate::parse`] accepts nothing but the
//! canonical digits of a number in `1..=9999`, so a request that carries the words of a code is
//! refused before anything is looked up.
use std::collections::{HashMap, VecDeque};

use vstd::prelude::*;

use crate::pairing::wordcode::random_below;
use crate::text::{
    all_digits, chars_of, decimal, decimal_digits, decimal_string, digit_char, digits_value,
    is_digit, parse_digits,
};

verus! {

broadcast use {vstd::string::group_string_axioms, vstd::std_specs::hash::group_hash_axioms};

pub const NAMEPLATE_MIN: u32 = 1;

pub const NAMEPLATE_MAX: u32 = 9999;

/// Longest ticket that is stored, in bytes.
pub const MAX_TICKET_LENGTH: usize = 4096;

/// Why a nameplate path segment was rejected.
#[derive(Debug, Clone, Copy, PartialEq, Eq, Structural)]
pub enum NameplateError {
    Empty,
    NotNumeric,
    LeadingZero,
    OutOfRange,
}

/// A server-allocated numeric nameplate in `1..=9999`.
#[derive(Debug, Clone, Copy, PartialEq, Eq, Hash, PartialOrd, Ord)]
pub struct Nameplate(u32);

/// What a raw path segment denotes.
pub open spec fn nameplate_of(raw: Seq<char>) -> Result<nat, NameplateError> {
    if raw.len() == 0 {
        Err(NameplateError::Empty)
    } else if !all_digits(raw) {
        Err(NameplateError::NotNumeric)
    } else if raw.len() > 1 && raw[0] == '0' {
        Err(NameplateError::LeadingZero)
    } else if digits_value(raw) > u32::MAX {
        Err(NameplateError::NotNumeric)
    } else if !(NAMEPLATE_MIN <= digits_value(raw) <= NAMEPLATE_MAX) {
        Err(NameplateError::OutOfRange)
    } else {
        Ok(digits_value(raw))
    }
}

impl Nameplate {
    /// The number.
    pub closed spec fn number(self) -> u32 {
        self.0
    }

    #[verifier::type_invariant]
    closed spec fn inv(self) -> bool {
        NAMEPLATE_MIN <= self.0 <= NAMEPLATE_MAX
    }

    /// Parses a nameplate from a raw path segment: only the canonical decimal form of a number in
    /// `1..=9999` is accepted.
    pub fn parse(raw: &str) -> (nameplate: Result<Self, NameplateError>)
        ensures
            match nameplate {
                Ok(nameplate) => nameplate_of(raw@) == Ok::<_, NameplateError>(
                    nameplate.number() as nat,
                ),
                Err(error) => nameplate_of(raw@) == Err::<nat, _>(error),
            },
    {
        let chars = chars_of(raw);
        if chars.len() == 0 {
            return Err(NameplateError::Empty);
        }
        let mut i: usize = 0;
        while i < chars.len()
            invariant
                i <= chars@.len(),
                chars@ == raw@,
                forall|j: int| 0 <= j < i ==> is_digit(#[trigger] chars@[j]),
            decreases chars@.len() - i,
        {
            let c: char = chars[i];
            if !('0' <= c && c <= '9') {
                assert(!is_digit(raw@[i as int]));
                return Err(NameplateError::NotNumeric);
            }
            i += 1;
        }
        if chars.len() > 1 && chars[0] == '0' {
            return Err(NameplateError::LeadingZero);
        }
        match parse_digits(raw) {
            None => Err(NameplateError::NotNumeric),
            Some(value) => {
                if value < NAMEPLATE_MIN || value > NAMEPLATE_MAX {
                    return Err(NameplateError::OutOfRange);
                }
                Ok(Nameplate(value))
            },
        }
    }

    /// The number.
    pub fn value(self) -> (value: u32)
        ensures
            value == self.number(),
            NAMEPLATE_MIN <= value <= NAMEPLATE_MAX,
    {
        proof {
            use_type_invariant(&self);
        }
        self.0
    }

    /// The number in decimal notation.
    pub fn to_string(&self) -> (text: String)
        ensures
            text@ == decimal(self.number() as nat),
    {
        decimal_string(self.0 as u64)
    }
}

/// The sentence that reports a rejected nameplate.
pub open spec fn nameplate_error_text(error: NameplateError) -> Seq<char> {
    match error {
        NameplateError::Empty => "nameplate is empty"@,
        NameplateError::NotNumeric => "nameplate must be numeric digits only"@,
        NameplateError::LeadingZero => "nameplate must not have leading zeros"@,
        NameplateError::OutOfRange => "nameplate must be between 1 and 9999"@,
    }
}

impl NameplateError {
    /// The sentence that reports the error.
    pub fn to_string(&self) -> (text: String)
        ensures
            text@ == nameplate_error_text(*self),
    {
        match self {
            NameplateError::Empty => "nameplate is empty".to_owned(),
            NameplateError::NotNumeric => "nameplate must be numeric digits only".to_owned(),
            NameplateError::LeadingZero => "nameplate must not have leading zeros".to_owned(),
            NameplateError::OutOfRange => "nameplate must be between 1 and 9999".to_owned(),
        }
    }
}

/// The observable lifecycle of a nameplate.
#[derive(Debug, Clone, Copy, PartialEq, Eq, Structural)]
pub enum PairState {
    Pending,
    Claimed,
    Expired,
}

/// The name of a state on the wire.
pub open spec fn pair_state_name(state: PairState) -> Seq<char> {
    match state {
        PairState::Pending => "pending"@,
        PairState::Claimed => "claimed"@,
        PairState::Expired => "expired"@,
    }
}

impl PairState {
    /// The state's name on the wire.
    pub fn as_str(self) -> (name: &'static str)
        ensures
            name@ == pair_state_name(self),
    {
        match self {
            PairState::Pending => "pending",
            PairState::Claimed => "claimed",
            PairState::Expired => "expired",
        }
    }
}

/// Why a claim failed.
#[derive(Debug, Clone, Copy, PartialEq, Eq, Structural)]
pub enum ClaimError {
    NotFound,
    Expired,
}

/// A stored ticket. Times count nanoseconds on a clock that never goes back.
#[derive(Debug)]
pub struct Entry {
    pub ticket: String,
    pub expires_at: u64,
    pub claimed: bool,
}

impl Entry {
    /// The state of the entry at a time. Expiry outweighs a claim.
    pub open spec fn state(self, now: u64) -> PairState {
        if now >= self.expires_at {
            PairState::Expired
        } else if self.claimed {
            PairState::Claimed
        } else {
            PairState::Pending
        }
    }
}

/// In-memory mailbox from nameplates to tickets.
#[derive(Debug)]
pub struct Mailbox {
    entries: HashMap<u32, Entry>,
}

/// The entries that are left at a time.
pub open spec fn unexpired(entries: Map<u32, Entry>, now: u64) -> Map<u32, Entry> {
    entries.restrict(Set::new(|n: u32| entries.contains_key(n) && entries[n].expires_at > now))
}

/// The nameplates from the smallest to `n`.
spec fn nameplates_to(n: int) -> Set<u32> {
    Set::new(|m: u32| NAMEPLATE_MIN <= m <= n)
}

proof fn nameplates_are_counted(n: int)
    requires
        0 <= n <= NAMEPLATE_MAX,
    ensures
        nameplates_to(n).finite(),
        nameplates_to(n).len() == n,
    decreases n,
{
    if n == 0 {
        assert(nameplates_to(0) =~= Set::empty());
    } else {
        nameplates_are_counted(n - 1);
        assert(nameplates_to(n) =~= nameplates_to(n - 1).insert(n as u32));
    }
}

/// As long as fewer than 9999 nameplates are in use, one is left to allocate.
pub proof fn unused_nameplates_leave_room(mailbox: Mailbox)
    requires
        mailbox.wf(),
        mailbox.entries().dom().len() < NAMEPLATE_MAX,
    ensures
        mailbox.has_room(),
{
    let entries = mailbox.entries();
    if !mailbox.has_room() {
        free_members(entries, NAMEPLATE_MAX as int);
        nameplates_are_counted(NAMEPLATE_MAX as int);
        assert forall|m: u32|
            nameplates_to(NAMEPLATE_MAX as int).contains(m) implies entries.dom().contains(m) by {
            if !entries.contains_key(m) {
                assert(mailbox.free_list().contains(m));
            }
        }
        vstd::set_lib::lemma_len_subset(nameplates_to(NAMEPLATE_MAX as int), entries.dom());
    }
}

/// Something that happens to a mailbox.
pub enum MailboxEvent {
    /// A ticket is stored under a nameplate (see [`Mailbox::store`]).
    Stored(u32, Entry),
    /// A nameplate is claimed at a time (see [`Mailbox::claim`]).
    Claimed(u32, u64),
    /// The entries that are expired at a time are purged (see [`Mailbox::purge_expired`]).
    Purged(u64),
}

/// What is stored under each nameplate after an event.
pub open spec fn after_event(entries: Map<u32, Entry>, event: MailboxEvent) -> Map<u32, Entry> {
    match event {
        MailboxEvent::Stored(n, entry) => entries.insert(n, entry),
        MailboxEvent::Claimed(n, now) => if entries.contains_key(n) && entries[n].state(now)
            == PairState::Pending {
            entries.insert(n, Entry { claimed: true, ..entries[n] })
        } else {
            entries
        },
        MailboxEvent::Purged(now) => unexpired(entries, now),
    }
}

/// The nameplates up to `n` that are not in use, in order.
pub open spec fn free_nameplates(entries: Map<u32, Entry>, n: int) -> Seq<u32>
    decreases n,
{
    if n < NAMEPLATE_MIN {
        Seq::empty()
    } else if entries.contains_key(n as u32) {
        free_nameplates(entries, n - 1)
    } else {
        free_nameplates(entries, n - 1).push(n as u32)
    }
}

proof fn free_members(entries: Map<u32, Entry>, n: int)
    requires
        n <= NAMEPLATE_MAX,
    ensures
        forall|k: int|
            0 <= k < free_nameplates(entries, n).len() ==> NAMEPLATE_MIN <= #[trigger] free_nameplates(
                entries,
                n,
            )[k] <= n && !entries.contains_key(free_nameplates(entries, n)[k]),
        forall|m: u32|
            NAMEPLATE_MIN <= m <= n && !#[trigger] entries.contains_key(m) ==> free_nameplates(
                entries,
                n,
            ).contains(m),
    decreases n,
{
    if n >= NAMEPLATE_MIN {
        free_members(entries, n - 1);
        let shorter = free_nameplates(entries, n - 1);
        assert forall|m: u32|
            NAMEPLATE_MIN <= m <= n && !#[trigger] entries.contains_key(
                m,
            ) implies free_nameplates(entries, n).contains(m) by {
            if m == n {
                assert(free_nameplates(entries, n)[shorter.len() as int] == m);
            } else {
                let k = choose|k: int| 0 <= k < shorter.len() && shorter[k] == m;
                assert(free_nameplates(entries, n)[k] == m);
            }
        }
    }
}

impl Mailbox {
    /// What is stored under each nameplate.
    pub closed spec fn entries(self) -> Map<u32, Entry> {
        self.entries@
    }

    /// Only nameplates in range are in use.
    pub closed spec fn wf(self) -> bool {
        &&& self.entries@.dom().finite()
        &&& forall|n: u32| #[trigger]
            self.entries@.contains_key(n) ==> NAMEPLATE_MIN <= n <= NAMEPLATE_MAX
    }

    /// The nameplates that are not in use, in order.
    pub open spec fn free_list(self) -> Seq<u32> {
        free_nameplates(self.entries(), NAMEPLATE_MAX as int)
    }

    /// Whether a nameplate is left to allocate.
    pub open spec fn has_room(self) -> bool {
        self.free_list().len() > 0
    }

    /// The number of nameplates in use.
    pub fn len(&self) -> (len: usize)
        ensures
            len == self.entries().dom().len(),
    {
        self.entries.len()
    }

    /// The nameplates that are not in use, in order.
    pub fn free(&self) -> (free: Vec<u32>)
        ensures
            free@ == self.free_list(),
    {
        let mut free: Vec<u32> = Vec::new();
        let mut n: u32 = NAMEPLATE_MIN;
        while n <= NAMEPLATE_MAX
            invariant
                NAMEPLATE_MIN <= n <= NAMEPLATE_MAX + 1,
                free@ == free_nameplates(self.entries(), n - 1),
            decreases NAMEPLATE_MAX + 1 - n,
        {
            if !self.entries.contains_key(&n) {
                free.push(n);
            }
            n += 1;
        }
        free
    }

    /// Whether a nameplate is left to allocate.
    pub fn room(&self) -> (room: bool)
        ensures
            room == self.has_room(),
    {
        self.free().len() > 0
    }

    /// Stores a ticket, as it stands, under the unused nameplate at the position `choice`.
    pub fn store(&mut self, ticket: String, now: u64, ttl: u64, choice: usize) -> (nameplate:
        Nameplate)
        requires
            old(self).wf(),
            choice < old(self).free_list().len(),
            now + ttl <= u64::MAX,
        ensures
            final(self).wf(),
            nameplate.number() == old(self).free_list()[choice as int],
            !old(self).entries().contains_key(nameplate.number()),
            NAMEPLATE_MIN <= nameplate.number() <= NAMEPLATE_MAX,
            final(self).entries() == after_event(
                old(self).entries(),
                MailboxEvent::Stored(
                    nameplate.number(),
                    (Entry { ticket, expires_at: (now + ttl) as u64, claimed: false }),
                ),
            ),
    {
        let free = self.free();
        let n: u32 = free[choice];
        proof {
            free_members(self.entries(), NAMEPLATE_MAX as int);
        }
        self.entries.insert(n, Entry { ticket, expires_at: now + ttl, claimed: false });
        Nameplate(n)
    }

    /// Stores a ticket, as it stands, under an unused nameplate that the generator picks.
    pub fn allocate(&mut self, ticket: String, now: u64, ttl: u64, rng: &mut rand::rngs::StdRng)
        -> (nameplate: Nameplate)
        requires
            old(self).wf(),
            old(self).has_room(),
            now + ttl <= u64::MAX,
        ensures
            final(self).wf(),
            old(self).free_list().contains(nameplate.number()),
            !old(self).entries().contains_key(nameplate.number()),
            NAMEPLATE_MIN <= nameplate.number() <= NAMEPLATE_MAX,
            final(self).entries() == old(self).entries().insert(
                nameplate.number(),
                (Entry { ticket, expires_at: (now + ttl) as u64, claimed: false }),
            ),
    {
        let choice: usize = random_below(rng, self.free().len());
        self.store(ticket, now, ttl, choice)
    }

    /// One-shot claim: returns the ticket and marks the entry claimed. A second claim finds
    /// nothing.
    pub fn claim(&mut self, nameplate: Nameplate, now: u64) -> (ticket: Result<String, ClaimError>)
        requires
            old(self).wf(),
        ensures
            final(self).wf(),
            ({
                let n = nameplate.number();
                let entries = old(self).entries();
                if !entries.contains_key(n) || entries[n].state(now) == PairState::Claimed {
                    ticket == Err::<String, _>(ClaimError::NotFound)
                } else if entries[n].state(now) == PairState::Expired {
                    ticket == Err::<String, _>(ClaimError::Expired)
                } else {
                    ticket == Ok::<_, ClaimError>(entries[n].ticket)
                }
            }),
            final(self).entries() == after_event(
                old(self).entries(),
                MailboxEvent::Claimed(nameplate.number(), now),
            ),
    {
        let n: u32 = nameplate.0;
        match self.entries.get(&n) {
            None => {
                return Err(ClaimError::NotFound);
            },
            Some(entry) => {
                if now >= entry.expires_at {
                    return Err(ClaimError::Expired);
                }
                if entry.claimed {
                    return Err(ClaimError::NotFound);
                }
            },
        }
        match self.entries.remove(&n) {
            None => Err(ClaimError::NotFound),
            Some(entry) => {
                let ticket = entry.ticket.clone();
                self.entries.insert(
                    n,
                    Entry { ticket: entry.ticket, expires_at: entry.expires_at, claimed: true },
                );
                assert(self.entries@ =~= old(self).entries().insert(
                    n,
                    (Entry { claimed: true, ..old(self).entries()[n] }),
                ));
                Ok(ticket)
            },
        }
    }

    /// Current state of a nameplate, or `None` if it does not exist.
    pub fn status(&self, nameplate: Nameplate, now: u64) -> (state: Option<PairState>)
        ensures
            state == if self.entries().contains_key(nameplate.number()) {
                Some(self.entries()[nameplate.number()].state(now))
            } else {
                None
            },
    {
        match self.entries.get(&nameplate.0) {
            None => None,
            Some(entry) => {
                if now >= entry.expires_at {
                    Some(PairState::Expired)
                } else if entry.claimed {
                    Some(PairState::Claimed)
                } else {
                    Some(PairState::Pending)
                }
            },
        }
    }

    /// Removes all expired entries and returns how many there were.
    pub fn purge_expired(&mut self, now: u64) -> (removed: usize)
        requires
            old(self).wf(),
        ensures
            final(self).wf(),
            final(self).entries() == after_event(old(self).entries(), MailboxEvent::Purged(now)),
            removed == old(self).entries().dom().len() - final(self).entries().dom().len(),
    {
        let before: usize = self.entries.len();
        let ghost all = self.entries@;
        let mut n: u32 = NAMEPLATE_MIN;
        while n <= NAMEPLATE_MAX
            invariant
                NAMEPLATE_MIN <= n <= NAMEPLATE_MAX + 1,
                all == old(self).entries(),
                all.dom().finite(),
                forall|k: u32| #[trigger] all.contains_key(k) ==> NAMEPLATE_MIN <= k <= NAMEPLATE_MAX,
                self.entries@ == all.restrict(
                    Set::new(|k: u32| all.contains_key(k) && (k >= n || all[k].expires_at > now)),
                ),
                self.entries@.dom().finite(),
                before == all.dom().len(),
            decreases NAMEPLATE_MAX + 1 - n,
        {
            let stale: bool = match self.entries.get(&n) {
                Some(entry) => entry.expires_at <= now,
                None => false,
            };
            let ghost here = self.entries@;
            if stale {
                self.entries.remove(&n);
            }
            n += 1;
            assert(self.entries@ =~= all.restrict(
                Set::new(|k: u32| all.contains_key(k) && (k >= n || all[k].expires_at > now)),
            ));
        }
        assert(self.entries@ =~= unexpired(all, now));
        assert(self.entries@.dom().subset_of(all.dom()));
        proof {
            vstd::set_lib::lemma_len_subset(self.entries@.dom(), all.dom());
        }
        before - self.entries.len()
    }
}

impl Default for Mailbox {
    fn default() -> (mailbox: Self)
        ensures
            mailbox.wf(),
            mailbox.entries() == Map::<u32, Entry>::empty(),
            mailbox.has_room(),
    {
        let mailbox = Mailbox { entries: HashMap::new() };
        assert(!mailbox.entries@.contains_key(NAMEPLATE_MIN));
        mailbox
    }
}

/// What is stored under each nameplate after a run of events.
pub open spec fn after_events(entries: Map<u32, Entry>, events: Seq<MailboxEvent>) -> Map<u32, Entry>
    decreases events.len(),
{
    if events.len() == 0 {
        entries
    } else {
        after_event(after_events(entries, events.drop_last()), events.last())
    }
}

/// Whether a run of events can happen up to a time: only unused nameplates are stored under, and
/// nothing is purged that is not expired by then.
pub open spec fn can_happen(entries: Map<u32, Entry>, events: Seq<MailboxEvent>, now: u64) -> bool
    decreases events.len(),
{
    events.len() == 0 || {
        &&& can_happen(entries, events.drop_last(), now)
        &&& match events.last() {
            MailboxEvent::Stored(n, _) => !after_events(entries, events.drop_last()).contains_key(n),
            MailboxEvent::Claimed(_, _) => true,
            MailboxEvent::Purged(at) => at <= now,
        }
    }
}

/// Whether nobody claims a nameplate in a run of events.
pub open spec fn nobody_claims(events: Seq<MailboxEvent>, n: u32) -> bool {
    forall|i: int|
        0 <= i < events.len() ==> (#[trigger] events[i] matches MailboxEvent::Claimed(m, _) ==> m
            != n)
}

proof fn entry_stays(entries: Map<u32, Entry>, events: Seq<MailboxEvent>, n: u32, now: u64)
    requires
        entries.contains_key(n),
        now < entries[n].expires_at,
        can_happen(entries, events, now),
        entries[n].claimed || nobody_claims(events, n),
    ensures
        after_events(entries, events).contains_key(n),
        after_events(entries, events)[n] == entries[n],
    decreases events.len(),
{
    if events.len() > 0 {
        let front = events.drop_last();
        assert(forall|i: int| 0 <= i < front.len() ==> front[i] == events[i]);
        entry_stays(entries, front, n, now);
        assert(events.last() == events[events.len() - 1]);
    }
}

/// A stored ticket waits for its claim: until it expires, whatever else happens in the mailbox, it
/// stands under its nameplate as it was stored, and whoever claims the nameplate gets it.
pub proof fn stored_ticket_waits_for_its_claim(
    entries: Map<u32, Entry>,
    n: u32,
    entry: Entry,
    events: Seq<MailboxEvent>,
    now: u64,
)
    requires
        !entry.claimed,
        now < entry.expires_at,
        can_happen(entries.insert(n, entry), events, now),
        nobody_claims(events, n),
    ensures
        after_events(entries.insert(n, entry), events).contains_key(n),
        after_events(entries.insert(n, entry), events)[n].state(now) == PairState::Pending,
        after_events(entries.insert(n, entry), events)[n].ticket == entry.ticket,
{
    entry_stays(entries.insert(n, entry), events, n, now);
}

/// A claim is one-shot: once a nameplate is claimed it stays claimed until it expires, whatever
/// else happens in the mailbox, so no later claim gets the ticket.
pub proof fn claim_is_one_shot(
    entries: Map<u32, Entry>,
    n: u32,
    first: u64,
    events: Seq<MailboxEvent>,
    later: u64,
)
    requires
        entries.contains_key(n),
        entries[n].state(first) == PairState::Pending,
        later < entries[n].expires_at,
        can_happen(after_event(entries, MailboxEvent::Claimed(n, first)), events, later),
    ensures
        ({
            let after = after_events(
                after_event(entries, MailboxEvent::Claimed(n, first)),
                events,
            );
            after.contains_key(n) && after[n].state(later) == PairState::Claimed
        }),
{
    entry_stays(after_event(entries, MailboxEvent::Claimed(n, first)), events, n, later);
}

/// Purging removes exactly the entries that report themselves as expired.
pub proof fn purge_removes_exactly_the_expired(entries: Map<u32, Entry>, now: u64, n: u32)
    ensures
        unexpired(entries, now).contains_key(n) <==> entries.contains_key(n) && entries[n].state(now)
            != PairState::Expired,
        unexpired(entries, now).contains_key(n) ==> unexpired(entries, now)[n] == entries[n],
{
}

/// A run of digits without leading zeros is the decimal notation of its value.
proof fn canonical_digits_are_decimal(raw: Seq<char>)
    requires
        all_digits(raw),
        raw.len() == 1 || raw[0] != '0',
    ensures
        decimal(digits_value(raw)) == raw,
        raw[0] != '0' ==> digits_value(raw) > 0,
    decreases raw.len(),
{
    let last = (raw.last() as u32 - '0' as u32) as nat;
    let front = raw.drop_last();
    assert(is_digit(raw.last()));
    assert(digit_char(last) == raw.last());
    if raw.len() == 1 {
        assert(digits_value(front) == 0);
        assert(raw =~= seq![raw.last()]);
    } else {
        assert(forall|i: int| 0 <= i < front.len() ==> front[i] == raw[i]);
        canonical_digits_are_decimal(front);
        let value = digits_value(raw);
        assert(value / 10 == digits_value(front));
        assert(value % 10 == last);
        assert(front.push(raw.last()) =~= raw);
    }
}

/// A nameplate that parses is written back exactly as it was read: there is one spelling for each.
pub proof fn parsed_nameplate_is_canonical(raw: Seq<char>)
    requires
        nameplate_of(raw) is Ok,
    ensures
        decimal(nameplate_of(raw)->Ok_0) == raw,
{
    canonical_digits_are_decimal(raw);
}

/// A nameplate in range that is written out parses back to itself.
pub proof fn written_nameplate_parses_back(n: u32)
    requires
        NAMEPLATE_MIN <= n <= NAMEPLATE_MAX,
    ensures
        nameplate_of(decimal(n as nat)) == Ok::<_, NameplateError>(n as nat),
{
    decimal_digits(n as nat);
}

/// A full code, whose nameplate is followed by a hyphen and words, is no nameplate: the server
/// refuses to route by it.
pub proof fn word_bearing_path_is_refused(raw: Seq<char>)
    requires
        raw.contains('-'),
    ensures
        nameplate_of(raw) == Err::<nat, _>(NameplateError::NotNumeric),
{
    let i = choose|i: int| 0 <= i < raw.len() && raw[i] == '-';
    assert(!is_digit(raw[i]));
}

/// Length of the window in which accesses are counted, in nanoseconds (60 s).
pub const WINDOW: u64 = 60000000000;

/// The address of a client.
#[derive(Debug, Clone, Copy, PartialEq, Eq, Structural)]
pub enum ClientIp {
    V4(u32),
    V6(u128),
}

/// Whether an access no longer counts.
pub open spec fn stale(access: u64, now: u64) -> bool {
    now - access >= WINDOW
}

/// The accesses that still count: the oldest are dropped up to the first that does.
pub open spec fn counting(accesses: Seq<u64>, now: u64) -> Seq<u64>
    decreases accesses.len(),
{
    if accesses.len() > 0 && stale(accesses[0], now) {
        counting(accesses.drop_first(), now)
    } else {
        accesses
    }
}

/// Sliding-window rate limiter, one window for each client address.
#[derive(Debug)]
pub struct RateLimiter {
    v4: HashMap<u32, VecDeque<u64>>,
    v6: HashMap<u128, VecDeque<u64>>,
}

/// Drops the accesses that no longer count.
fn drop_stale(window: &mut VecDeque<u64>, now: u64)
    ensures
        final(window)@ == counting(old(window)@, now),
{
    while window.len() > 0
        invariant
            counting(window@, now) == counting(old(window)@, now),
        ensures
            window@ == counting(old(window)@, now),
        decreases window@.len(),
    {
        let oldest: u64 = window[0];
        if !(now >= oldest && now - oldest >= WINDOW) {
            break;
        }
        let ghost before = window@;
        window.pop_front();
        assert(window@ =~= before.drop_first());
    }
}

/// Counts an access against a window.
fn admit_access(window: &mut VecDeque<u64>, limit: usize, now: u64) -> (admitted: bool)
    ensures
        admitted == (counting(old(window)@, now).len() < limit),
        final(window)@ == if admitted {
            counting(old(window)@, now).push(now)
        } else {
            counting(old(window)@, now)
        },
{
    drop_stale(window, now);
    if window.len() >= limit {
        return false;
    }
    window.push_back(now);
    true
}

impl RateLimiter {
    /// The accesses recorded for an address.
    pub closed spec fn window(self, ip: ClientIp) -> Seq<u64> {
        match ip {
            ClientIp::V4(ip) => if self.v4@.contains_key(ip) {
                self.v4@[ip]@
            } else {
                Seq::empty()
            },
            ClientIp::V6(ip) => if self.v6@.contains_key(ip) {
                self.v6@[ip]@
            } else {
                Seq::empty()
            },
        }
    }

    /// Records one access for `ip` under a sliding window of 60 seconds. Returns whether it is
    /// under `limit`; a rejected access is not recorded.
    pub fn check(&mut self, ip: ClientIp, limit: usize, now: u64) -> (admitted: bool)
        ensures
            admitted == (counting(old(self).window(ip), now).len() < limit),
            final(self).window(ip) == if admitted {
                counting(old(self).window(ip), now).push(now)
            } else {
                counting(old(self).window(ip), now)
            },
            forall|other: ClientIp|
                other != ip ==> #[trigger] final(self).window(other) == old(self).window(other),
    {
        match ip {
            ClientIp::V4(ip) => {
                let mut window: VecDeque<u64> = match self.v4.remove(&ip) {
                    Some(window) => window,
                    None => VecDeque::new(),
                };
                let admitted: bool = admit_access(&mut window, limit, now);
                self.v4.insert(ip, window);
                admitted
            },
            ClientIp::V6(ip) => {
                let mut window: VecDeque<u64> = match self.v6.remove(&ip) {
                    Some(window) => window,
                    None => VecDeque::new(),
                };
                let admitted: bool = admit_access(&mut window, limit, now);
                self.v6.insert(ip, window);
                admitted
            },
        }
    }
}

impl Default for RateLimiter {
    fn default() -> (limiter: Self)
        ensures
            forall|ip: ClientIp| (#[trigger] limiter.window(ip)) == Seq::<u64>::empty(),
    {
        RateLimiter { v4: HashMap::new(), v6: HashMap::new() }
    }
}

/// The accesses that a limiter admits out of a run of accesses of one client, and the window that
/// it is left with.
pub open spec fn admitted(accesses: Seq<u64>, limit: int) -> (Seq<u64>, Seq<u64>)
    decreases accesses.len(),
{
    if accesses.len() == 0 {
        (Seq::empty(), Seq::empty())
    } else {
        let (log, window) = admitted(accesses.drop_last(), limit);
        let now = accesses.last();
        let kept = counting(window, now);
        if kept.len() < limit {
            (log.push(now), kept.push(now))
        } else {
            (log, kept)
        }
    }
}

/// What is left of a window is its end, and everything dropped from it is stale.
proof fn counting_is_suffix(accesses: Seq<u64>, now: u64) -> (dropped: int)
    ensures
        0 <= dropped <= accesses.len(),
        counting(accesses, now) == accesses.skip(dropped),
        forall|i: int| 0 <= i < dropped ==> stale(#[trigger] accesses[i], now),
    decreases accesses.len(),
{
    if accesses.len() > 0 && stale(accesses[0], now) {
        let rest = accesses.drop_first();
        let dropped = counting_is_suffix(rest, now);
        assert(rest.skip(dropped) =~= accesses.skip(dropped + 1));
        assert forall|i: int| 0 <= i < dropped + 1 implies stale(#[trigger] accesses[i], now) by {
            if i > 0 {
                assert(accesses[i] == rest[i - 1]);
            }
        }
        dropped + 1
    } else {
        assert(accesses.skip(0) =~= accesses);
        0
    }
}

proof fn admitted_window(accesses: Seq<u64>, limit: int, now: u64) -> (dropped: int)
    requires
        forall|i: int, j: int| 0 <= i <= j < accesses.len() ==> accesses[i] <= accesses[j],
        forall|i: int| 0 <= i < accesses.len() ==> accesses[i] <= now,
        limit >= 0,
    ensures
        ({
            let (log, window) = admitted(accesses, limit);
            &&& 0 <= dropped <= log.len()
            &&& window == log.skip(dropped)
            &&& forall|i: int| 0 <= i < dropped ==> stale(#[trigger] log[i], now)
            &&& forall|i: int| 0 <= i < log.len() - limit ==> log[i + limit] - #[trigger] log[i] >= WINDOW
        }),
    decreases accesses.len(),
{
    let (log, window) = admitted(accesses, limit);
    if accesses.len() == 0 {
        assert(window =~= log.skip(0));
        0
    } else {
        let front = accesses.drop_last();
        let last = accesses.last();
        assert(forall|i: int| 0 <= i < front.len() ==> front[i] == accesses[i]);
        let before = admitted_window(front, limit, last);
        let (log_before, window_before) = admitted(front, limit);
        let more = counting_is_suffix(window_before, last);
        let kept = counting(window_before, last);
        let dropped = before + more;
        assert(kept =~= log_before.skip(dropped));
        assert forall|i: int| 0 <= i < dropped implies stale(#[trigger] log_before[i], last) by {
            if i >= before {
                assert(log_before[i] == window_before[i - before]);
            }
        }
        if kept.len() < limit {
            assert(window =~= log.skip(dropped));
            assert(forall|i: int| 0 <= i < log_before.len() ==> log[i] == log_before[i]);
            assert forall|i: int| 0 <= i < log.len() - limit implies log[i + limit]
                - #[trigger] log[i] >= WINDOW by {
                if i + limit < log_before.len() {
                    assert(log_before[i + limit] - log_before[i] >= WINDOW);
                } else {
                    assert(i < dropped);
                    assert(stale(log_before[i], last));
                }
            }
        }
        assert forall|i: int| 0 <= i < dropped implies stale(#[trigger] log[i], now) by {
            assert(stale(log_before[i], last));
        }
        dropped
    }
}

/// However often a client comes, any `limit + 1` admitted accesses in a row span at least the
/// window: no window ever holds more than `limit` of them.
pub proof fn no_window_admits_more_than_the_limit(accesses: Seq<u64>, limit: int, i: int)
    requires
        forall|i: int, j: int| 0 <= i <= j < accesses.len() ==> accesses[i] <= accesses[j],
        0 <= limit,
        0 <= i < admitted(accesses, limit).0.len() - limit,
    ensures
        admitted(accesses, limit).0[i + limit] - admitted(accesses, limit).0[i] >= WINDOW,
{
    let now = if accesses.len() == 0 {
        0
    } else {
        accesses.last()
    };
    let _ = admitted_window(accesses, limit, now);
}

} // verus!
