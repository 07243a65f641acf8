//! Session tokens: random generation, and the time-expiring cache of the
//! tokens that are currently logged in.

use vstd::prelude::*;
use crate::text::push_char;
use rand::Rng;

verus! {

/// One character of a token body: an ASCII letter or digit.
pub open spec fn is_alphanum_char(c: char) -> bool {
    ||| 48 <= c as u32 && c as u32 <= 57
    ||| 65 <= c as u32 && c as u32 <= 90
    ||| 97 <= c as u32 && c as u32 <= 122
}

/// What stands at position `i` of a well-formed token: a hyphen after every
/// group of four characters, an alphanumeric character everywhere else.
pub open spec fn token_char_ok(s: Seq<char>, i: int) -> bool {
    if i % 5 == 4 {
        s[i] == '-'
    } else {
        is_alphanum_char(s[i])
    }
}

/// A session token: five groups of four alphanumeric characters, the groups
/// joined by hyphens (24 characters in all).
pub open spec fn valid_token_format(s: Seq<char>) -> bool {
    &&& s.len() == 24
    &&& forall|i: int| 0 <= i < 24 ==> #[trigger] token_char_ok(s, i)
}

/// Relies on rand's `Alphanumeric` distribution: every sample is drawn from
/// the 62 characters a-z, A-Z, 0-9.
#[verifier::external_body]
fn random_alphanumeric_char() -> (c: char)
    ensures
        is_alphanum_char(c),
{
    char::from(rand::thread_rng().sample(rand::distributions::Alphanumeric))
}

/// Produces a fresh random session token: 20 random alphanumeric characters
/// in five 4-character groups separated by hyphens. Uniqueness is
/// probabilistic and not checked.
pub fn generate_token() -> (token: String)
    ensures
        valid_token_format(token@),
{
    let mut token = String::new();
    let mut i: usize = 0;
    while i < 24
        invariant
            i <= 24,
            token@.len() == i,
            forall|j: int| 0 <= j < i ==> #[trigger] token_char_ok(token@, j),
        decreases 24 - i,
    {
        let ghost prev = token@;
        if i % 5 == 4 {
            push_char(&mut token, '-');
        } else {
            let c = random_alphanumeric_char();
            push_char(&mut token, c);
        }
        proof {
            assert forall|j: int| 0 <= j < i + 1 implies #[trigger] token_char_ok(token@, j) by {
                if j < i {
                    assert(token@[j] == prev[j]);
                    assert(token_char_ok(prev, j));
                }
            }
        }
        i = i + 1;
    }
    token
}

/// The placeholder value stored against each cached token; only the key
/// carries information.
pub struct Nothing;

#[verifier::external_type_specification]
#[verifier::external_body]
#[verifier::reject_recursive_types(K)]
#[verifier::reject_recursive_types(V)]
#[verifier::reject_recursive_types(S)]
pub struct ExTtlCache<K: core::cmp::Eq + core::hash::Hash, V, S: core::hash::BuildHasher>(
    ttl_cache::TtlCache<K, V, S>,
);

/// The tokens an underlying time-expiring cache currently holds. An entry
/// whose time-to-live has run out may still be counted here until the cache
/// next touches it: lookups below promise a hit only for tokens in this set,
/// never a hit for every token in it.
pub uninterp spec fn cache_tokens(c: ttl_cache::TtlCache<String, Nothing>) -> Set<Seq<char>>;

/// The capacity an underlying cache was built with.
pub uninterp spec fn cache_capacity(c: ttl_cache::TtlCache<String, Nothing>) -> nat;

/// Relies on `TtlCache::new`: the new cache holds no entries and keeps the
/// given capacity as its maximum size.
#[verifier::external_body]
fn ttl_cache_new(capacity: usize) -> (c: ttl_cache::TtlCache<String, Nothing>)
    ensures
        cache_tokens(c) == Set::<Seq<char>>::empty(),
        cache_capacity(c) == capacity as nat,
{
    ttl_cache::TtlCache::new(capacity)
}

/// Relies on `TtlCache::insert`: the key is put into the cache at the
/// newest position, and when the cache then exceeds its capacity the oldest
/// entry is evicted -- which is never the key just inserted as long as the
/// capacity is at least one. No key appears other than the one inserted.
/// The expiry stamp is the current instant plus the time-to-live, an
/// addition that panics out of range: the bound on `ttl_secs` keeps it in
/// range.
#[verifier::external_body]
fn ttl_cache_insert(c: &mut ttl_cache::TtlCache<String, Nothing>, token: String, ttl_secs: u64)
    requires
        ttl_secs <= MAX_TOKEN_TTL_SECS,
    ensures
        cache_capacity(*final(c)) == cache_capacity(*old(c)),
        cache_tokens(*final(c)).subset_of(cache_tokens(*old(c)).insert(token@)),
        cache_capacity(*old(c)) >= 1 ==> cache_tokens(*final(c)).contains(token@),
{
    let _ = c.insert(token, Nothing, std::time::Duration::from_secs(ttl_secs));
}

/// Relies on `TtlCache::get`: a hit is possible only for a key that is in
/// the cache; an absent key, or one whose time-to-live has run out, misses.
#[verifier::external_body]
fn ttl_cache_contains(c: &ttl_cache::TtlCache<String, Nothing>, token: &String) -> (r: bool)
    ensures
        r ==> cache_tokens(*c).contains(token@),
{
    c.get(token).is_some()
}

/// Relies on `TtlCache::remove`: the key leaves the cache, and a value
/// comes back only if the key was present (and had not expired); for an
/// absent key nothing comes back.
#[verifier::external_body]
fn ttl_cache_remove(c: &mut ttl_cache::TtlCache<String, Nothing>, token: &String) -> (r: bool)
    ensures
        cache_capacity(*final(c)) == cache_capacity(*old(c)),
        cache_tokens(*final(c)) == cache_tokens(*old(c)).remove(token@),
        r ==> cache_tokens(*old(c)).contains(token@),
        !cache_tokens(*old(c)).contains(token@) ==> !r,
{
    c.remove(token).is_some()
}

/// Duration for which a login stays valid: three hours.
pub const TOKEN_TTL_SECS: u64 = 10800;

/// Upper bound on any time-to-live handed to the cache: a hundred years.
/// The cache stamps each entry with the current instant plus its
/// time-to-live, and that addition rejects durations reaching past the
/// end of the instant's range; a bounded time-to-live keeps it in range.
pub const MAX_TOKEN_TTL_SECS: u64 = 100 * 365 * 24 * 60 * 60;

/// The set of tokens that are currently logged in, backed by a
/// time-expiring, capacity-bounded cache. Entries leave the set on explicit
/// removal, on expiry of their time-to-live, or by eviction of the oldest
/// entry once the capacity is exceeded.
pub struct TokenCache {
    cache: ttl_cache::TtlCache<String, Nothing>,
}

impl View for TokenCache {
    type V = Set<Seq<char>>;

    closed spec fn view(&self) -> Set<Seq<char>> {
        cache_tokens(self.cache)
    }
}

impl TokenCache {
    /// A usable cache can hold at least one token, so that a token just
    /// inserted is never itself the entry evicted to make room.
    pub closed spec fn wf(&self) -> bool {
        cache_capacity(self.cache) >= 1
    }

    pub fn new(capacity: usize) -> (r: Self)
        requires
            capacity >= 1,
        ensures
            r.wf(),
            r@ == Set::<Seq<char>>::empty(),
    {
        TokenCache { cache: ttl_cache_new(capacity) }
    }

    /// Registers a token for `ttl_secs` seconds. The token is in the cache
    /// afterwards; at most one other entry (the oldest) may have been
    /// evicted to make room.
    pub fn insert(&mut self, token: String, ttl_secs: u64)
        requires
            old(self).wf(),
            ttl_secs <= MAX_TOKEN_TTL_SECS,
        ensures
            final(self).wf(),
            final(self)@.contains(token@),
            final(self)@.subset_of(old(self)@.insert(token@)),
    {
        ttl_cache_insert(&mut self.cache, token, ttl_secs);
    }

    /// True only for a token in the cache; a token whose time-to-live has
    /// run out, or that was never inserted, is reported absent.
    pub fn contains(&self, token: &String) -> (r: bool)
        ensures
            r ==> self@.contains(token@),
    {
        ttl_cache_contains(&self.cache, token)
    }

    /// Removes a token. Success is reported only if the token was present;
    /// removal of an absent token reports failure and changes nothing.
    pub fn remove(&mut self, token: &String) -> (r: bool)
        ensures
            final(self).wf() == old(self).wf(),
            final(self)@ == old(self)@.remove(token@),
            r ==> old(self)@.contains(token@),
            !old(self)@.contains(token@) ==> !r,
    {
        ttl_cache_remove(&mut self.cache, token)
    }
}

/// Membership check by token value. A `true` answer vouches for the token:
/// it is in the cache; expired or unknown tokens answer `false`.
pub fn is_token_valid(token: String, cache: &TokenCache) -> (r: bool)
    ensures
        r ==> cache@.contains(token@),
{
    cache.contains(&token)
}

/// Explicit invalidation (logout). Reports `Err` when the token was not in
/// the cache -- in particular, when it had already been invalidated or had
/// expired -- and in every case leaves the cache without the token.
pub fn invalidate_token(token: String, cache: &mut TokenCache) -> (r: Result<(), ()>)
    ensures
        final(cache).wf() == old(cache).wf(),
        final(cache)@ == old(cache)@.remove(token@),
        r is Ok ==> old(cache)@.contains(token@),
        !old(cache)@.contains(token@) ==> r is Err,
{
    if cache.remove(&token) {
        Ok(())
    } else {
        Err(())
    }
}

/// Invalidation is idempotent in its outcome: one invalidation leaves the
/// cache model without the token, so a repeated `invalidate_token` on the
/// same token finds it absent and, by that function's contract, reports
/// `Err` (not found) rather than succeeding twice.
pub proof fn lemma_invalidate_idempotent(tokens: Set<Seq<char>>, token: Seq<char>)
    ensures
        !tokens.remove(token).contains(token),
{
}

} // verus!
