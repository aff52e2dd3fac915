//! Balances that were asked for a short while ago.
use crate::decimal;
use crate::decimal::{parse_u64, u64_text};
use std::collections::HashMap;
use vstd::prelude::*;

verus! {

broadcast use vstd::std_specs::hash::group_hash_axioms;

/// How long a balance is good for, in seconds.
pub const BALANCE_CACHE_TTL_SECS: i64 = 300;

/// A balance and the time when it was asked for.
#[derive(Debug, Clone)]
pub struct CachedBalance<B> {
    /// The time, in seconds.
    pub cached_at: i64,
    /// The balance.
    pub data: B,
}

/// A balance that was asked for at the time `cached_at` is still good at the time `now`.
pub open spec fn is_fresh(cached_at: i64, now: i64) -> bool {
    now - cached_at < BALANCE_CACHE_TTL_SECS
}

/// Tells whether a balance that was asked for at the time `cached_at` is still good at the time
/// `now`.
pub fn still_fresh(cached_at: i64, now: i64) -> (r: bool)
    ensures
        r == is_fresh(cached_at, now),
{
    (now as i128) - (cached_at as i128) < BALANCE_CACHE_TTL_SECS as i128
}

/// The balances of credentials, by their ids.
#[derive(Debug)]
pub struct BalanceCache<B> {
    pub entries: HashMap<u64, CachedBalance<B>>,
}

impl<B> View for BalanceCache<B> {
    type V = Map<u64, CachedBalance<B>>;

    open spec fn view(&self) -> Map<u64, CachedBalance<B>> {
        self.entries@
    }
}

/// The balance of the credentials `id` in `cache` that is still good at the time `now`.
pub open spec fn good_balance<B>(
    cache: Map<u64, CachedBalance<B>>,
    id: u64,
    now: i64,
) -> Option<B> {
    if cache.contains_key(id) && is_fresh(cache[id].cached_at, now) {
        Some(cache[id].data)
    } else {
        None
    }
}

/// The contents of a list of keys and entries.
pub open spec fn keyed<B>(pairs: Seq<(String, CachedBalance<B>)>) -> Seq<
    (Seq<char>, CachedBalance<B>),
> {
    Seq::new(pairs.len(), |i: int| (pairs[i].0@, pairs[i].1))
}

/// The contents of a list of keys and borrowed entries.
pub open spec fn keyed_refs<B>(pairs: Seq<(String, &CachedBalance<B>)>) -> Seq<
    (Seq<char>, CachedBalance<B>),
> {
    Seq::new(pairs.len(), |i: int| (pairs[i].0@, *pairs[i].1))
}

/// The balances that are read from `pairs` at the time `now`: those whose key is the id of
/// credentials and that are still good. Where an id occurs more than once, the last one counts.
pub open spec fn loaded<B>(pairs: Seq<(Seq<char>, CachedBalance<B>)>, now: i64) -> Map<
    u64,
    CachedBalance<B>,
>
    decreases pairs.len(),
{
    if pairs.len() == 0 {
        Map::empty()
    } else {
        let before = loaded(pairs.drop_last(), now);
        let (key, entry) = pairs.last();
        match decimal::parsed_u64(key) {
            Some(id) => if is_fresh(entry.cached_at, now) {
                before.insert(id, entry)
            } else {
                before
            },
            None => before,
        }
    }
}

/// `pair` is an entry of `cache` and its id in decimal notation.
pub open spec fn is_entry<B>(
    pair: (Seq<char>, CachedBalance<B>),
    cache: Map<u64, CachedBalance<B>>,
) -> bool {
    exists|id: u64|
        #[trigger] cache.contains_key(id) && pair == (decimal::decimal(id as nat), cache[id])
}

/// `pairs` writes down `cache`: each entry once, under its id in decimal notation.
pub open spec fn writes_down<B>(
    pairs: Seq<(Seq<char>, CachedBalance<B>)>,
    cache: Map<u64, CachedBalance<B>>,
) -> bool {
    &&& pairs.len() == cache.dom().len()
    &&& forall|i: int|
        0 <= i < pairs.len() ==> is_entry(#[trigger] pairs[i], cache)
    &&& forall|id: u64| #[trigger]
        cache.contains_key(id) ==> pairs.contains((decimal::decimal(id as nat), cache[id]))
}

impl<B> BalanceCache<B> {
    /// No balances.
    pub fn new() -> (r: Self)
        ensures
            r@ == Map::<u64, CachedBalance<B>>::empty(),
    {
        BalanceCache { entries: HashMap::new() }
    }

    /// The balance of the credentials `id` that is still good at the time `now`.
    pub fn get(&self, id: u64, now: i64) -> (r: Option<&B>)
        ensures
            match r {
                Some(balance) => good_balance(self@, id, now) == Some(*balance),
                None => good_balance(self@, id, now) is None,
            },
    {
        match self.entries.get(&id) {
            Some(entry) => if still_fresh(entry.cached_at, now) {
                Some(&entry.data)
            } else {
                None
            },
            None => None,
        }
    }

    /// Keeps the balance of the credentials `id`, which was asked for at the time `now`.
    pub fn insert(&mut self, id: u64, now: i64, balance: B)
        ensures
            final(self)@ == old(self)@.insert(id, CachedBalance { cached_at: now, data: balance }),
    {
        self.entries.insert(id, CachedBalance { cached_at: now, data: balance });
    }

    /// Forgets the balance of the credentials `id`.
    pub fn remove(&mut self, id: u64)
        ensures
            final(self)@ == old(self)@.remove(id),
    {
        self.entries.remove(&id);
    }

    /// Reads the balances in `pairs` at the time `now`.
    pub fn load_balance_cache_from(pairs: Vec<(String, CachedBalance<B>)>, now: i64) -> (r: Self)
        ensures
            r@ == loaded(keyed(pairs@), now),
    {
        let ghost all = keyed(pairs@);
        let mut cache = BalanceCache { entries: HashMap::new() };
        assert(all.take(0) =~= seq![]);
        for pair in it: pairs
            invariant
                all == keyed(pairs@),
                it.seq() == pairs@,
                cache@ == loaded(all.take(it.index() as int), now),
        {
            let ghost done = it.index() as int;
            assert(all.take(done + 1).drop_last() =~= all.take(done));
            assert(all.take(done + 1).last() == (pair.0@, pair.1));
            let (key, entry) = pair;
            if let Some(id) = parse_u64(key.as_str()) {
                if still_fresh(entry.cached_at, now) {
                    cache.entries.insert(id, entry);
                }
            }
        }
        assert(all.take(all.len() as int) =~= all);
        cache
    }

    /// Writes the balances down as pairs of a key and an entry, in no particular order.
    pub fn save_balance_cache(&self) -> (r: Vec<(String, &CachedBalance<B>)>)
        ensures
            writes_down(keyed_refs(r@), self@),
    {
        let mut out: Vec<(String, &CachedBalance<B>)> = Vec::new();
        for pair in it: self.entries.iter()
            invariant
                out@.len() == it.index(),
                forall|i: int|
                    0 <= i < out@.len() ==> (#[trigger] out@[i]).0@ == decimal::decimal(
                        *it.seq()[i].0 as nat,
                    ) && *out@[i].1 == *it.seq()[i].1,
        {
            out.push((u64_text(*pair.0), pair.1));
        }
        proof {
            let walked = vstd::std_specs::iter::IteratorSpec::remaining(
                &vstd::std_specs::hash::spec_hash_map_iter(&self.entries),
            );
            assert(out@.len() == walked.len());
            let pairs = keyed_refs(out@);
            assert forall|i: int| 0 <= i < pairs.len() implies is_entry(
                #[trigger] pairs[i],
                self@,
            ) by {
                assert(self@.contains_key(*walked[i].0));
                assert(pairs[i] == (decimal::decimal(*walked[i].0 as nat), self@[*walked[i].0]));
            }
            assert forall|id: u64| #[trigger] self@.contains_key(id) implies pairs.contains(
                (decimal::decimal(id as nat), self@[id]),
            ) by {
                assert(walked.contains((&id, &self@[id])));
                let k = choose|k: int| 0 <= k < walked.len() && walked[k] == (&id, &self@[id]);
                assert(pairs[k] == (decimal::decimal(id as nat), self@[id]));
            }
        }
        out
    }
}

/// A balance is given out again for as long as it is good, and not after.
pub proof fn balance_lasts<B>(
    cache: Map<u64, CachedBalance<B>>,
    id: u64,
    asked: i64,
    now: i64,
    balance: B,
)
    ensures
        good_balance(
            cache.insert(id, CachedBalance { cached_at: asked, data: balance }),
            id,
            now,
        ) == (if now < asked + BALANCE_CACHE_TTL_SECS {
            Some(balance)
        } else {
            None
        }),
        forall|other: u64|
            other != id ==> #[trigger] good_balance(
                cache.insert(id, CachedBalance { cached_at: asked, data: balance }),
                other,
                now,
            ) == good_balance(cache, other, now),
{
}

/// A balance that was forgotten is not given out, and no other is forgotten with it.
pub proof fn forgotten_balance_is_gone<B>(cache: Map<u64, CachedBalance<B>>, id: u64, now: i64)
    ensures
        good_balance(cache.remove(id), id, now) is None,
        forall|other: u64|
            other != id ==> #[trigger] good_balance(cache.remove(id), other, now) == good_balance(
                cache,
                other,
                now,
            ),
{
}

/// What is read back of balances that were written down is those that are still good.
pub proof fn saved_balances_are_read_back<B>(
    cache: Map<u64, CachedBalance<B>>,
    pairs: Seq<(Seq<char>, CachedBalance<B>)>,
    now: i64,
)
    requires
        writes_down(pairs, cache),
    ensures
        forall|id: u64|
            #[trigger] loaded(pairs, now).contains_key(id) == (cache.contains_key(id) && is_fresh(
                cache[id].cached_at,
                now,
            )),
        forall|id: u64|
            loaded(pairs, now).contains_key(id) ==> #[trigger] loaded(pairs, now)[id] == cache[id],
        forall|id: u64, later: i64|
            later >= now ==> #[trigger] good_balance(loaded(pairs, now), id, later)
                == good_balance(cache, id, later),
{
    entries_are_read(cache, pairs, now);
    assert forall|id: u64| #[trigger] loaded(pairs, now).contains_key(id) == (
    cache.contains_key(id) && is_fresh(cache[id].cached_at, now)) by {
        if cache.contains_key(id) {
            assert(pairs.contains((decimal::decimal(id as nat), cache[id])));
        }
    }
}

/// What is read of entries of `cache`.
proof fn entries_are_read<B>(
    cache: Map<u64, CachedBalance<B>>,
    pairs: Seq<(Seq<char>, CachedBalance<B>)>,
    now: i64,
)
    requires
        forall|i: int| 0 <= i < pairs.len() ==> is_entry(#[trigger] pairs[i], cache),
    ensures
        forall|id: u64|
            #[trigger] loaded(pairs, now).contains_key(id) ==> {
                &&& cache.contains_key(id)
                &&& is_fresh(cache[id].cached_at, now)
                &&& loaded(pairs, now)[id] == cache[id]
            },
        forall|id: u64|
            cache.contains_key(id) && is_fresh(cache[id].cached_at, now) && pairs.contains(
                (decimal::decimal(id as nat), cache[id]),
            ) ==> #[trigger] loaded(pairs, now).contains_key(id),
    decreases pairs.len(),
{
    if pairs.len() > 0 {
        let rest = pairs.drop_last();
        assert forall|i: int| 0 <= i < rest.len() implies is_entry(#[trigger] rest[i], cache) by {
            assert(rest[i] == pairs[i]);
        }
        entries_are_read(cache, rest, now);
        let before = loaded(rest, now);
        assert(pairs.last() == pairs[pairs.len() - 1]);
        assert(is_entry(pairs.last(), cache));
        let last = choose|id: u64|
            #[trigger] cache.contains_key(id) && pairs.last() == (
                decimal::decimal(id as nat),
                cache[id],
            );
        decimal::parsed_decimal(last);
        assert(loaded(pairs, now) == (if is_fresh(cache[last].cached_at, now) {
            before.insert(last, cache[last])
        } else {
            before
        }));
        assert forall|id: u64|
            cache.contains_key(id) && is_fresh(cache[id].cached_at, now) && pairs.contains(
                (decimal::decimal(id as nat), cache[id]),
            ) implies #[trigger] loaded(pairs, now).contains_key(id) by {
            let pair = (decimal::decimal(id as nat), cache[id]);
            let k = choose|k: int| 0 <= k < pairs.len() && pairs[k] == pair;
            if k < rest.len() {
                assert(rest[k] == pair);
                assert(rest.contains(pair));
            } else {
                decimal::parsed_decimal(id);
            }
        }
    }
}

/// A balance is good for less than 300 seconds, and for as long as the clock is behind.
pub proof fn balances_are_good_for_five_minutes(asked: i64, now: i64)
    ensures
        now < asked + 300 ==> is_fresh(asked, now),
        now >= asked + 300 ==> !is_fresh(asked, now),
{
}

/// A remembered balance is the one under its id, and nothing else stands in for it.
pub proof fn good_balance_is_the_one_of_the_id<B>(
    cache: Map<u64, CachedBalance<B>>,
    id: u64,
    now: i64,
)
    ensures
        !cache.contains_key(id) ==> good_balance(cache, id, now) is None,
        cache.contains_key(id) && now - cache[id].cached_at < 300 ==> good_balance(cache, id, now)
            == Some(cache[id].data),
        cache.contains_key(id) && now - cache[id].cached_at >= 300 ==> good_balance(cache, id, now)
            is None,
{
}

/// Pairs are read one by one. A pair whose key is a number and whose balance is good takes the
/// place of what was read under that number before, and any other is passed over.
pub proof fn balances_are_read_one_by_one<B>(
    pairs: Seq<(Seq<char>, CachedBalance<B>)>,
    key: Seq<char>,
    entry: CachedBalance<B>,
    now: i64,
)
    ensures
        loaded(Seq::<(Seq<char>, CachedBalance<B>)>::empty(), now) == Map::<
            u64,
            CachedBalance<B>,
        >::empty(),
        ({
            let before = loaded(pairs, now);
            let after = loaded(pairs.push((key, entry)), now);
            &&& decimal::parsed_u64(key) is None ==> after == before
            &&& now - entry.cached_at >= 300 ==> after == before
            &&& decimal::parsed_u64(key) matches Some(id) ==> (now - entry.cached_at < 300
                ==> after == before.insert(id, entry))
        }),
{
    assert(pairs.push((key, entry)).drop_last() =~= pairs);
    assert(pairs.push((key, entry)).last() == (key, entry));
}

/// What writes balances down has as many pairs as there are balances, each pair is the number of
/// some balance and that balance, and each balance is there under its number.
pub proof fn written_balances_are_numbered<B>(
    pairs: Seq<(Seq<char>, CachedBalance<B>)>,
    cache: Map<u64, CachedBalance<B>>,
    at: int,
)
    requires
        writes_down(pairs, cache),
    ensures
        pairs.len() == cache.dom().len(),
        forall|id: u64| #[trigger]
            cache.contains_key(id) ==> exists|i: int|
                0 <= i < pairs.len() && (#[trigger] pairs[i]).0 == decimal::decimal(id as nat)
                    && pairs[i].1 == cache[id],
        0 <= at < pairs.len() ==> exists|id: u64| #[trigger]
            cache.contains_key(id) && pairs[at].0 == decimal::decimal(id as nat) && pairs[at].1
                == cache[id],
{
    assert forall|id: u64| #[trigger] cache.contains_key(id) implies exists|i: int|
        0 <= i < pairs.len() && (#[trigger] pairs[i]).0 == decimal::decimal(id as nat)
            && pairs[i].1 == cache[id] by {
        let pair = (decimal::decimal(id as nat), cache[id]);
        assert(pairs.contains(pair));
        let i = choose|i: int| 0 <= i < pairs.len() && pairs[i] == pair;
        assert(pairs[i].0 == decimal::decimal(id as nat));
    }
    if 0 <= at < pairs.len() {
        assert(is_entry(pairs[at], cache));
    }
}

/// Lists of pairs hold their keys and entries, one for one.
pub proof fn pairs_are_keys_and_entries<B>(
    pairs: Seq<(String, CachedBalance<B>)>,
    borrowed: Seq<(String, &CachedBalance<B>)>,
    i: int,
)
    ensures
        keyed(pairs).len() == pairs.len(),
        keyed_refs(borrowed).len() == borrowed.len(),
        0 <= i < pairs.len() ==> keyed(pairs)[i] == (pairs[i].0@, pairs[i].1),
        0 <= i < borrowed.len() ==> keyed_refs(borrowed)[i] == (borrowed[i].0@, *borrowed[i].1),
{
}

/// The balances that are remembered are those that are kept.
pub proof fn balances_are_the_entries<B>(cache: BalanceCache<B>)
    ensures
        cache@ == cache.entries@,
{
}

} // verus!
