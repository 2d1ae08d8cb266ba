//! The bounded, time-expiring credential cache that enables session-ticket
//! resumption.
//!
//! Entries are kept oldest first. A lookup that hits refreshes the entry and
//! moves it to the tail; a store replaces the entry of its domain and, at
//! capacity, evicts the head.

use std::collections::VecDeque;
use std::sync::Arc;
use vstd::prelude::*;

verus! {

/// Number of credentials the cache holds at most.
pub const CREDENTIAL_CACHE_SIZE: usize = 10;

/// Lifetime of a cached credential after it was stored or last handed out, in
/// seconds.
pub const CREDENTIAL_TTL: u64 = 600;

/// One cached credential as contracts see it.
pub struct Entry<C> {
    /// Peer domain the credential was used with.
    pub domain: Seq<char>,
    /// First instant, in seconds, at which the credential is no longer handed
    /// out.
    pub expiry: int,
    /// The credential.
    pub credential: C,
}

/// Whether `i` is the position of the first entry of `s` for `domain`.
pub open spec fn is_first_match<C>(s: Seq<Entry<C>>, domain: Seq<char>, i: int) -> bool {
    &&& 0 <= i < s.len()
    &&& s[i].domain == domain
    &&& forall|j: int| 0 <= j < i ==> (#[trigger] s[j]).domain != domain
}

/// Whether `s` has an entry for `domain`.
pub open spec fn holds<C>(s: Seq<Entry<C>>, domain: Seq<char>) -> bool {
    exists|i: int| is_first_match(s, domain, i)
}

/// Position of the first entry of `s` for `domain`, where there is one.
pub open spec fn slot<C>(s: Seq<Entry<C>>, domain: Seq<char>) -> int {
    choose|i: int| is_first_match(s, domain, i)
}

/// `s` with its first entry for `domain`, if any, taken out.
pub open spec fn without<C>(s: Seq<Entry<C>>, domain: Seq<char>) -> Seq<Entry<C>> {
    if holds(s, domain) {
        s.remove(slot(s, domain))
    } else {
        s
    }
}

/// The cache invariant: never more entries than the capacity, and never two
/// entries for one domain.
pub open spec fn well_formed<C>(s: Seq<Entry<C>>) -> bool {
    &&& s.len() <= CREDENTIAL_CACHE_SIZE
    &&& forall|i: int, j: int|
        0 <= i < j < s.len() ==> (#[trigger] s[i]).domain != (#[trigger] s[j]).domain
}

/// The cache after `credential` was stored for `domain` at time `now`.
///
/// An entry of the same domain is taken out first. If the cache is then still
/// full, its head leaves. The new entry goes to the tail and lives for
/// [`CREDENTIAL_TTL`] seconds.
pub open spec fn after_store<C>(s: Seq<Entry<C>>, domain: Seq<char>, credential: C, now: int) -> Seq<
    Entry<C>,
> {
    let rest = without(s, domain);
    let room = if rest.len() == CREDENTIAL_CACHE_SIZE {
        rest.drop_first()
    } else {
        rest
    };
    room.push(Entry { domain, expiry: now + CREDENTIAL_TTL, credential })
}

/// What a lookup of `domain` at time `now` hands out: the credential of the
/// domain's entry if its expiry still lies in the future.
pub open spec fn hit<C>(s: Seq<Entry<C>>, domain: Seq<char>, now: int) -> Option<C> {
    if holds(s, domain) && s[slot(s, domain)].expiry > now {
        Some(s[slot(s, domain)].credential)
    } else {
        None
    }
}

/// The cache after a lookup of `domain` at time `now`.
///
/// The domain's entry is taken out. If its expiry still lies in the future it
/// returns to the tail with a fresh lifetime; otherwise it is gone.
pub open spec fn after_lookup<C>(s: Seq<Entry<C>>, domain: Seq<char>, now: int) -> Seq<Entry<C>> {
    if holds(s, domain) {
        let entry = s[slot(s, domain)];
        let rest = s.remove(slot(s, domain));
        if entry.expiry > now {
            rest.push(
                Entry {
                    domain: entry.domain,
                    expiry: now + CREDENTIAL_TTL,
                    credential: entry.credential,
                },
            )
        } else {
            rest
        }
    } else {
        s
    }
}

/// A first match is the position that [`slot`] names.
pub proof fn lemma_first_match_is_slot<C>(s: Seq<Entry<C>>, domain: Seq<char>, i: int)
    requires
        is_first_match(s, domain, i),
    ensures
        holds(s, domain),
        slot(s, domain) == i,
{
    let k = slot(s, domain);
    assert(is_first_match(s, domain, k));
    if k < i {
        assert(s[k].domain != domain);
    } else if i < k {
        assert(s[i].domain != domain);
    }
}

spec fn shared_value<C>(handle: Arc<C>) -> C {
    *handle
}

struct CacheEntry<C> {
    domain: String,
    /// When the entry was stored or last handed out.
    stamped: u64,
    credential: Arc<C>,
}

impl<C> CacheEntry<C> {
    spec fn model(self) -> Entry<C> {
        Entry {
            domain: self.domain@,
            expiry: self.stamped + CREDENTIAL_TTL,
            credential: *self.credential,
        }
    }
}

/// The credential cache of a connector. `C` is the engine's credential.
pub struct CredentialCache<C> {
    entries: VecDeque<CacheEntry<C>>,
}

impl<C> View for CredentialCache<C> {
    type V = Seq<Entry<C>>;

    closed spec fn view(&self) -> Seq<Entry<C>> {
        self.entries@.map_values(|e: CacheEntry<C>| e.model())
    }
}

impl<C> CredentialCache<C> {
    #[verifier::type_invariant]
    spec fn inv(&self) -> bool {
        well_formed(self@)
    }

    /// Creates an empty cache.
    pub fn new() -> (cache: Self)
        ensures
            cache@ == Seq::<Entry<C>>::empty(),
    {
        let cache = CredentialCache { entries: VecDeque::with_capacity(CREDENTIAL_CACHE_SIZE) };
        assert(cache@ =~= Seq::<Entry<C>>::empty());
        cache
    }

    /// Returns the number of cached credentials.
    pub fn len(&self) -> (n: usize)
        ensures
            n == self@.len(),
            well_formed(self@),
    {
        proof {
            use_type_invariant(self);
        }
        self.entries.len()
    }

    /// Returns the cached domains, oldest entry first.
    pub fn domains(&self) -> (domains: Vec<String>)
        ensures
            domains@.len() == self@.len(),
            forall|i: int| 0 <= i < self@.len() ==> (#[trigger] domains@[i])@ == self@[i].domain,
    {
        let mut domains: Vec<String> = Vec::new();
        let n: usize = self.entries.len();
        for i in 0..n
            invariant
                n == self.entries@.len(),
                domains@.len() == i,
                forall|k: int| 0 <= k < i ==> (#[trigger] domains@[k])@ == self@[k].domain,
        {
            domains.push(self.entries[i].domain.clone());
        }
        domains
    }

    fn position(&self, domain: &String) -> (found: Option<usize>)
        ensures
            match found {
                Some(i) => is_first_match(self@, domain@, i as int),
                None => !holds(self@, domain@),
            },
    {
        let n: usize = self.entries.len();
        let mut i: usize = 0;
        while i < n
            invariant
                i <= n,
                n == self.entries@.len(),
                forall|j: int| 0 <= j < i ==> (#[trigger] self@[j]).domain != domain@,
            decreases n - i,
        {
            if self.entries[i].domain == *domain {
                return Some(i);
            }
            i += 1;
        }
        assert forall|k: int| !is_first_match(self@, domain@, k) by {
            if 0 <= k < self@.len() {
                assert(self@[k].domain != domain@);
            }
        }
        None
    }

    /// Looks up the credential cached for `domain` at time `now`, in seconds.
    ///
    /// A fresh entry is handed out, refreshed and moved to the tail. An
    /// expired entry is dropped and the lookup misses.
    pub fn lookup(&mut self, domain: &str, now: u64) -> (found: Option<Arc<C>>)
        ensures
            final(self)@ == after_lookup(old(self)@, domain@, now as int),
            match found {
                Some(credential) => hit(old(self)@, domain@, now as int) == Some(*credential),
                None => hit(old(self)@, domain@, now as int) is None,
            },
            well_formed(final(self)@),
    {
        proof {
            use_type_invariant(&*self);
        }
        let wanted: String = domain.to_owned();
        match self.position(&wanted) {
            None => None,
            Some(idx) => {
                proof {
                    lemma_first_match_is_slot(self@, domain@, idx as int);
                }
                let mut entries: VecDeque<CacheEntry<C>> = VecDeque::new();
                core::mem::swap(&mut self.entries, &mut entries);
                let entry = entries.remove(idx).unwrap();
                let fresh = now < entry.stamped || now - entry.stamped < CREDENTIAL_TTL;
                let found = if fresh {
                    let credential = entry.credential.clone();
                    entries.push_back(
                        CacheEntry { domain: entry.domain, stamped: now, credential: entry.credential },
                    );
                    Some(credential)
                } else {
                    None
                };
                assert(entries@.map_values(|e: CacheEntry<C>| e.model()) =~= after_lookup(
                    old(self)@,
                    domain@,
                    now as int,
                ));
                self.entries = entries;
                found
            },
        }
    }

    /// Caches `credential` for `domain` at time `now`, in seconds.
    ///
    /// The entry that `domain` already has is replaced. At capacity the oldest
    /// entry is evicted.
    pub fn store(&mut self, domain: &str, credential: Arc<C>, now: u64)
        ensures
            final(self)@ == after_store(old(self)@, domain@, *credential, now as int),
            well_formed(final(self)@),
    {
        proof {
            use_type_invariant(&*self);
        }
        let ghost stored = shared_value(credential);
        let wanted: String = domain.to_owned();
        let found = self.position(&wanted);
        let mut entries: VecDeque<CacheEntry<C>> = VecDeque::new();
        core::mem::swap(&mut self.entries, &mut entries);
        if let Some(idx) = found {
            proof {
                lemma_first_match_is_slot(old(self)@, domain@, idx as int);
            }
            entries.remove(idx);
        }
        assert(entries@.map_values(|e: CacheEntry<C>| e.model()) =~= without(old(self)@, domain@));
        if entries.len() == CREDENTIAL_CACHE_SIZE {
            entries.pop_front();
        }
        entries.push_back(CacheEntry { domain: wanted, stamped: now, credential });
        assert(entries@.map_values(|e: CacheEntry<C>| e.model()) =~= after_store(
            old(self)@,
            domain@,
            stored,
            now as int,
        ));
        proof {
            lemma_store_keeps_well_formed(old(self)@, domain@, stored, now as int);
        }
        self.entries = entries;
    }
}

/// Taking the entry of a domain out leaves no entry for that domain, and
/// keeps the invariant.
pub proof fn lemma_without<C>(s: Seq<Entry<C>>, domain: Seq<char>)
    requires
        well_formed(s),
    ensures
        well_formed(without(s, domain)),
        !holds(without(s, domain), domain),
        forall|k: int| 0 <= k < without(s, domain).len() ==> (#[trigger] without(s, domain)[k]).domain != domain,
        holds(s, domain) ==> without(s, domain).len() == s.len() - 1,
        !holds(s, domain) ==> without(s, domain) == s,
{
    let rest = without(s, domain);
    if holds(s, domain) {
        let i = slot(s, domain);
        assert(is_first_match(s, domain, i));
        assert forall|k: int| 0 <= k < rest.len() implies (#[trigger] rest[k]).domain != domain by {
            if k < i {
                assert(rest[k] == s[k]);
            } else {
                assert(rest[k] == s[k + 1]);
                assert(s[i].domain != s[k + 1].domain);
            }
        }
        assert forall|a: int, b: int| 0 <= a < b < rest.len() implies (#[trigger] rest[a]).domain != (
        #[trigger] rest[b]).domain by {
            let a0 = if a < i { a } else { a + 1 };
            let b0 = if b < i { b } else { b + 1 };
            assert(rest[a] == s[a0]);
            assert(rest[b] == s[b0]);
            assert(s[a0].domain != s[b0].domain);
        }
    } else {
        assert forall|k: int| 0 <= k < s.len() implies (#[trigger] s[k]).domain != domain by {
            if s[k].domain == domain {
                lemma_some_match_has_first(s, domain, k);
            }
        }
    }
    assert forall|k: int| !is_first_match(rest, domain, k) by {
        if 0 <= k < rest.len() {
            assert(rest[k].domain != domain);
        }
    }
}

/// Where some entry is for `domain`, a first such entry exists.
pub proof fn lemma_some_match_has_first<C>(s: Seq<Entry<C>>, domain: Seq<char>, k: int)
    requires
        0 <= k < s.len(),
        s[k].domain == domain,
    ensures
        holds(s, domain),
        slot(s, domain) <= k,
    decreases k,
{
    if exists|j: int| 0 <= j < k && (#[trigger] s[j]).domain == domain {
        let j = choose|j: int| 0 <= j < k && (#[trigger] s[j]).domain == domain;
        lemma_some_match_has_first(s, domain, j);
    } else {
        assert(is_first_match(s, domain, k));
        lemma_first_match_is_slot(s, domain, k);
    }
}

/// A store keeps the invariant.
pub proof fn lemma_store_keeps_well_formed<C>(
    s: Seq<Entry<C>>,
    domain: Seq<char>,
    credential: C,
    now: int,
)
    requires
        well_formed(s),
    ensures
        well_formed(after_store(s, domain, credential, now)),
{
    lemma_without(s, domain);
    let rest = without(s, domain);
    let room = if rest.len() == CREDENTIAL_CACHE_SIZE {
        rest.drop_first()
    } else {
        rest
    };
    let out = after_store(s, domain, credential, now);
    assert forall|a: int, b: int| 0 <= a < b < out.len() implies (#[trigger] out[a]).domain != (
    #[trigger] out[b]).domain by {
        let shift: int = if rest.len() == CREDENTIAL_CACHE_SIZE { 1 } else { 0 };
        assert(out[a] == rest[a + shift]);
        if b < room.len() {
            assert(out[b] == rest[b + shift]);
        } else {
            assert(out[b].domain == domain);
        }
    }
}

/// A lookup keeps the invariant.
pub proof fn lemma_lookup_keeps_well_formed<C>(s: Seq<Entry<C>>, domain: Seq<char>, now: int)
    requires
        well_formed(s),
    ensures
        well_formed(after_lookup(s, domain, now)),
{
    lemma_without(s, domain);
    if holds(s, domain) {
        let rest = without(s, domain);
        let out = after_lookup(s, domain, now);
        assert(is_first_match(s, domain, slot(s, domain)));
        if s[slot(s, domain)].expiry > now {
            assert forall|a: int, b: int| 0 <= a < b < out.len() implies (#[trigger] out[a]).domain
                != (#[trigger] out[b]).domain by {
                assert(out[a] == rest[a]);
                if b < rest.len() {
                    assert(out[b] == rest[b]);
                } else {
                    assert(out[b].domain == domain);
                }
            }
        }
    }
}

/// Storing into a full cache under a domain it does not hold evicts exactly
/// the head, the entry stored or handed out longest ago; every other entry
/// stays, in order, and the new one is the tail.
pub proof fn lemma_store_evicts_oldest<C>(
    s: Seq<Entry<C>>,
    domain: Seq<char>,
    credential: C,
    now: int,
)
    requires
        well_formed(s),
        s.len() == CREDENTIAL_CACHE_SIZE,
        !holds(s, domain),
    ensures
        after_store(s, domain, credential, now) == s.drop_first().push(
            Entry { domain, expiry: now + CREDENTIAL_TTL, credential },
        ),
        after_store(s, domain, credential, now).len() == CREDENTIAL_CACHE_SIZE,
{
}

/// Storing under a domain the cache already holds replaces that entry: the
/// cache does not grow, holds exactly one entry for the domain, and that one
/// is the tail with the new credential.
pub proof fn lemma_store_replaces<C>(s: Seq<Entry<C>>, domain: Seq<char>, credential: C, now: int)
    requires
        well_formed(s),
        holds(s, domain),
    ensures
        after_store(s, domain, credential, now) == s.remove(slot(s, domain)).push(
            Entry { domain, expiry: now + CREDENTIAL_TTL, credential },
        ),
        after_store(s, domain, credential, now).len() == s.len(),
        forall|k: int|
            0 <= k < s.len() - 1 ==> (#[trigger] after_store(s, domain, credential, now)[k]).domain
                != domain,
{
    lemma_without(s, domain);
    let rest = without(s, domain);
    let out = after_store(s, domain, credential, now);
    assert forall|k: int| 0 <= k < s.len() - 1 implies (#[trigger] out[k]).domain != domain by {
        assert(out[k] == rest[k]);
    }
}

/// After a store the cache holds the domain, at the tail, and a lookup before
/// the lifetime has run out hands the stored credential out again.
pub proof fn lemma_stored_is_found<C>(
    s: Seq<Entry<C>>,
    domain: Seq<char>,
    credential: C,
    stored_at: int,
    now: int,
)
    requires
        well_formed(s),
    ensures
        holds(after_store(s, domain, credential, stored_at), domain),
        slot(after_store(s, domain, credential, stored_at), domain) == after_store(
            s,
            domain,
            credential,
            stored_at,
        ).len() - 1,
        now < stored_at + CREDENTIAL_TTL ==> hit(
            after_store(s, domain, credential, stored_at),
            domain,
            now,
        ) == Some(credential),
        now >= stored_at + CREDENTIAL_TTL ==> hit(
            after_store(s, domain, credential, stored_at),
            domain,
            now,
        ) is None,
{
    lemma_without(s, domain);
    let rest = without(s, domain);
    let out = after_store(s, domain, credential, stored_at);
    let last = out.len() - 1;
    let shift: int = if rest.len() == CREDENTIAL_CACHE_SIZE { 1 } else { 0 };
    assert forall|j: int| 0 <= j < last implies (#[trigger] out[j]).domain != domain by {
        assert(out[j] == rest[j + shift]);
    }
    assert(is_first_match(out, domain, last));
    lemma_first_match_is_slot(out, domain, last);
}

/// An entry whose expiry has elapsed is never handed out, and the lookup that
/// misses it removes it: afterwards the cache holds no entry for the domain.
pub proof fn lemma_expired_is_dropped<C>(s: Seq<Entry<C>>, domain: Seq<char>, now: int)
    requires
        well_formed(s),
        holds(s, domain),
        s[slot(s, domain)].expiry <= now,
    ensures
        hit(s, domain, now) is None,
        after_lookup(s, domain, now) == without(s, domain),
        !holds(after_lookup(s, domain, now), domain),
        after_lookup(s, domain, now).len() == s.len() - 1,
{
    lemma_without(s, domain);
}

/// Whatever a lookup hands out belongs to an entry of the domain whose expiry
/// lies in the future; a lookup of a domain the cache does not hold changes
/// nothing.
pub proof fn lemma_hit_is_fresh<C>(s: Seq<Entry<C>>, domain: Seq<char>, now: int)
    ensures
        hit(s, domain, now) is Some ==> exists|i: int|
            0 <= i < s.len() && (#[trigger] s[i]).domain == domain && s[i].expiry > now && Some(
                s[i].credential,
            ) == hit(s, domain, now),
        !holds(s, domain) ==> hit(s, domain, now) is None && after_lookup(s, domain, now) == s,
{
    if hit(s, domain, now) is Some {
        let i = slot(s, domain);
        assert(is_first_match(s, domain, i));
        assert(s[i].domain == domain && s[i].expiry > now);
    }
}

/// A lookup that hits keeps every entry: the cache has the same length, the
/// entry of the domain is the tail with a fresh lifetime, and the others keep
/// their order.
pub proof fn lemma_hit_moves_to_tail<C>(s: Seq<Entry<C>>, domain: Seq<char>, now: int)
    requires
        well_formed(s),
        hit(s, domain, now) is Some,
    ensures
        after_lookup(s, domain, now).len() == s.len(),
        after_lookup(s, domain, now).last() == (Entry {
            domain,
            expiry: now + CREDENTIAL_TTL,
            credential: hit(s, domain, now)->0,
        }),
        after_lookup(s, domain, now).drop_last() == without(s, domain),
{
    let i = slot(s, domain);
    assert(is_first_match(s, domain, i));
    assert(after_lookup(s, domain, now).drop_last() =~= s.remove(i));
}

/// One request to store a credential.
pub struct Store<C> {
    pub domain: Seq<char>,
    pub credential: C,
    /// Time of the store, in seconds.
    pub now: int,
}

impl<C> Store<C> {
    /// The entry that the store leaves in the cache.
    pub open spec fn entry(self) -> Entry<C> {
        Entry { domain: self.domain, expiry: self.now + CREDENTIAL_TTL, credential: self.credential }
    }
}

/// The cache after a run of stores, applied first to last.
pub open spec fn after_stores<C>(s: Seq<Entry<C>>, stores: Seq<Store<C>>) -> Seq<Entry<C>>
    decreases stores.len(),
{
    if stores.len() == 0 {
        s
    } else {
        let last = stores.last();
        after_store(after_stores(s, stores.drop_last()), last.domain, last.credential, last.now)
    }
}

/// Whether no two of the stores name one domain.
pub open spec fn distinct_domains<C>(stores: Seq<Store<C>>) -> bool {
    forall|i: int, j: int|
        0 <= i < j < stores.len() ==> (#[trigger] stores[i]).domain != (#[trigger] stores[j]).domain
}

/// Any run of stores keeps the invariant: the cache never holds more than
/// [`CREDENTIAL_CACHE_SIZE`] entries, nor two for one domain.
pub proof fn lemma_stores_keep_well_formed<C>(s: Seq<Entry<C>>, stores: Seq<Store<C>>)
    requires
        well_formed(s),
    ensures
        well_formed(after_stores(s, stores)),
    decreases stores.len(),
{
    if stores.len() > 0 {
        let last = stores.last();
        lemma_stores_keep_well_formed(s, stores.drop_last());
        lemma_store_keeps_well_formed(
            after_stores(s, stores.drop_last()),
            last.domain,
            last.credential,
            last.now,
        );
    }
}

/// After stores under pairwise distinct domains into an empty cache, the cache
/// holds exactly the entries of the last [`CREDENTIAL_CACHE_SIZE`] stores, in
/// the order they were made: from the eleventh on, each store evicts the
/// entry stored longest ago and no other.
pub proof fn lemma_distinct_stores_keep_latest<C>(stores: Seq<Store<C>>)
    requires
        distinct_domains(stores),
    ensures
        after_stores(Seq::<Entry<C>>::empty(), stores).len() == if stores.len()
            <= CREDENTIAL_CACHE_SIZE {
            stores.len()
        } else {
            CREDENTIAL_CACHE_SIZE as nat
        },
        forall|k: int|
            0 <= k < after_stores(Seq::<Entry<C>>::empty(), stores).len() ==> #[trigger] after_stores(
                Seq::<Entry<C>>::empty(),
                stores,
            )[k] == stores[stores.len() - after_stores(Seq::<Entry<C>>::empty(), stores).len()
                + k].entry(),
    decreases stores.len(),
{
    let empty = Seq::<Entry<C>>::empty();
    if stores.len() > 0 {
        let init = stores.drop_last();
        let last = stores.last();
        let before = after_stores(empty, init);
        assert(distinct_domains(init)) by {
            assert forall|i: int, j: int| 0 <= i < j < init.len() implies (#[trigger] init[i]).domain
                != (#[trigger] init[j]).domain by {
                assert(init[i] == stores[i]);
                assert(init[j] == stores[j]);
            }
        }
        lemma_distinct_stores_keep_latest(init);
        lemma_stores_keep_well_formed(empty, init);
        let base = init.len() - before.len();
        assert forall|k: int| !is_first_match(before, last.domain, k) by {
            if 0 <= k < before.len() {
                assert(before[k] == init[base + k].entry());
                assert(init[base + k] == stores[base + k]);
                assert(stores[base + k].domain != stores[stores.len() - 1].domain);
            }
        }
        assert(!holds(before, last.domain));
        let after = after_stores(empty, stores);
        assert(after == after_store(before, last.domain, last.credential, last.now));
        let shift: int = if before.len() == CREDENTIAL_CACHE_SIZE { 1 } else { 0 };
        assert forall|k: int| 0 <= k < after.len() implies #[trigger] after[k] == stores[stores.len()
            - after.len() + k].entry() by {
            if k < after.len() - 1 {
                assert(after[k] == before[k + shift]);
                assert(before[k + shift] == init[base + k + shift].entry());
                assert(init[base + k + shift] == stores[base + k + shift]);
            } else {
                assert(after[k] == last.entry());
            }
        }
    }
}

} // verus!
