use vstd::prelude::*;
use crate::model::CardList;
use crate::model::CardSetResponse;
use crate::model::CardSetView;
use crate::model::CardView;
use crate::model::cards_view;
use crate::model::clone_cards;
use crate::request::CardSetRequestError;
use crate::request::parse_url;
use crate::request::spec_card_set_request_url;
use crate::request::url_join;

verus! {

/// The identifier of the base card set.
pub fn base_set_id() -> (r: &'static str)
    ensures
        r@ == registry()[0],
{
    "00"
}

/// The identifier of the expansion card set.
pub fn call_to_arms_set_id() -> (r: &'static str)
    ensures
        r@ == registry()[1],
{
    "01"
}

/// The fixed, ordered registry of set identifiers the system loads.
pub open spec fn registry() -> Seq<Seq<char>> {
    seq!["00"@, "01"@]
}

/// The registry as owned strings, in its declared order.
pub fn set_ids() -> (r: Vec<String>)
    ensures
        r@.len() == registry().len(),
        forall|i: int| 0 <= i < r@.len() ==> r@[i]@ == registry()[i],
{
    let mut v: Vec<String> = Vec::new();
    v.push("00".to_owned());
    v.push("01".to_owned());
    v
}

/// The cache entries as a mapping from set identifier to response value;
/// a later entry for the same identifier shadows an earlier one.
spec fn map_of(entries: Seq<(String, CardSetResponse)>) -> Map<Seq<char>, CardSetView>
    decreases entries.len(),
{
    if entries.len() == 0 {
        Map::empty()
    } else {
        map_of(entries.drop_last()).insert(entries.last().0@, entries.last().1@)
    }
}

/// No two cache entries share a set identifier.
spec fn distinct_keys(entries: Seq<(String, CardSetResponse)>) -> bool {
    forall|i: int, j: int| 0 <= i < j < entries.len() ==> entries[i].0@ != entries[j].0@
}

proof fn lemma_map_of_contains(entries: Seq<(String, CardSetResponse)>, k: Seq<char>)
    ensures
        map_of(entries).contains_key(k) <==> exists|i: int|
            0 <= i < entries.len() && entries[i].0@ == k,
    decreases entries.len(),
{
    if entries.len() == 0 {
    } else {
        lemma_map_of_contains(entries.drop_last(), k);
        if map_of(entries).contains_key(k) {
            if entries.last().0@ == k {
                assert(entries[entries.len() - 1].0@ == k);
            } else {
                let i = choose|i: int|
                    0 <= i < entries.drop_last().len() && entries.drop_last()[i].0@ == k;
                assert(entries[i].0@ == k);
            }
        }
        if exists|i: int| 0 <= i < entries.len() && entries[i].0@ == k {
            let i = choose|i: int| 0 <= i < entries.len() && entries[i].0@ == k;
            if i < entries.len() - 1 {
                assert(entries.drop_last()[i].0@ == k);
            }
        }
    }
}

proof fn lemma_map_of_get(entries: Seq<(String, CardSetResponse)>, i: int)
    requires
        distinct_keys(entries),
        0 <= i < entries.len(),
    ensures
        map_of(entries).contains_key(entries[i].0@),
        map_of(entries)[entries[i].0@] == entries[i].1@,
    decreases entries.len(),
{
    if i < entries.len() - 1 {
        assert(distinct_keys(entries.drop_last()));
        lemma_map_of_get(entries.drop_last(), i);
        assert(entries.drop_last()[i] == entries[i]);
        assert(entries.last().0@ != entries[i].0@);
    }
}

/// What resolving one set identifier against a cache comes to: the cached
/// response is served, or the identifier's request URL must be fetched, or
/// the identifier cannot form a request URL at all.
pub ghost enum SetPlanSpec {
    Cached(CardSetView),
    Fetch(Seq<char>),
    Malformed,
}

/// The decision `get_set_plan` is bound to: a cache hit is served without any
/// fetch; a miss yields the request URL to fetch; an identifier that cannot
/// be joined onto the base endpoint is malformed.
pub open spec fn set_plan_spec(m: Map<Seq<char>, CardSetView>, id: Seq<char>) -> SetPlanSpec {
    if m.contains_key(id) {
        SetPlanSpec::Cached(m[id])
    } else {
        match url_join(spec_card_set_request_url(), id) {
            Some(u) => SetPlanSpec::Fetch(u),
            None => SetPlanSpec::Malformed,
        }
    }
}

/// How one set is obtained: from the cache, or by fetching the named URL.
#[derive(Debug)]
pub enum SetPlan {
    Cached(CardSetResponse),
    Fetch(String),
}

/// The index of the first registered set missing from the cache, scanning
/// from position `k` in registry order.
pub open spec fn first_missing_from(m: Map<Seq<char>, CardSetView>, k: int) -> Option<int>
    decreases registry().len() - k,
{
    if k < 0 || k >= registry().len() {
        None
    } else if !m.contains_key(registry()[k]) {
        Some(k)
    } else {
        first_missing_from(m, k + 1)
    }
}

/// The cards of the first `k` registered sets, concatenated in registry
/// order, each set's list in its internal order.
pub open spec fn cards_prefix(m: Map<Seq<char>, CardSetView>, k: int) -> Seq<CardView>
    decreases k,
{
    if k <= 0 {
        Seq::empty()
    } else {
        cards_prefix(m, k - 1) + m[registry()[k - 1]].card_list
    }
}

/// The cards of every registered set, concatenated in registry order.
pub open spec fn all_cards(m: Map<Seq<char>, CardSetView>) -> Seq<CardView> {
    cards_prefix(m, registry().len() as int)
}

/// What aggregating against a cache comes to: the full concatenation when
/// every registered set is cached, else the first missing identifier in
/// registry order.
pub ghost enum CardsPlanSpec {
    Ready(Seq<CardView>),
    Missing(Seq<char>),
}

/// The decision `get_cards_plan` is bound to.
pub open spec fn cards_plan_spec(m: Map<Seq<char>, CardSetView>) -> CardsPlanSpec {
    match first_missing_from(m, 0) {
        Some(k) => CardsPlanSpec::Missing(registry()[k]),
        None => CardsPlanSpec::Ready(all_cards(m)),
    }
}

/// How aggregation proceeds: the aggregated cards, or the first set
/// identifier that still has to be fetched.
#[derive(Debug)]
pub enum CardsPlan {
    Ready(CardList),
    Missing(String),
}

/// The response cache and the decision logic around it. Fetching itself is
/// the caller's: the planning methods say what to fetch, and
/// `complete_get_set` stores what was fetched.
#[derive(Debug)]
pub struct CardSetApi {
    cached_sets: Vec<(String, CardSetResponse)>,
}

impl CardSetApi {
    /// The cache's entries, in insertion order.
    closed spec fn entries(self) -> Seq<(String, CardSetResponse)> {
        self.cached_sets@
    }

    /// The cache as a mapping from set identifier to response value.
    pub closed spec fn cache(self) -> Map<Seq<char>, CardSetView> {
        map_of(self.entries())
    }

    /// The cache holds at most one entry per set identifier.
    pub closed spec fn wf(self) -> bool {
        distinct_keys(self.entries())
    }

    /// An empty cache.
    pub fn new() -> (r: Self)
        ensures
            r.wf(),
            r.cache() == Map::<Seq<char>, CardSetView>::empty(),
    {
        CardSetApi { cached_sets: Vec::new() }
    }

    fn find_entry(&self, set_id: &str) -> (r: Option<usize>)
        requires
            self.wf(),
        ensures
            match r {
                Some(i) => i < self.entries().len() && self.entries()[i as int].0@ == set_id@
                    && self.cache().contains_key(set_id@) && self.cache()[set_id@]
                    == self.entries()[i as int].1@,
                None => !self.cache().contains_key(set_id@),
            },
    {
        let key = set_id.to_owned();
        let n = self.cached_sets.len();
        let mut i: usize = 0;
        while i < n
            invariant
                self.wf(),
                key@ == set_id@,
                n == self.entries().len(),
                i <= n,
                forall|j: int| 0 <= j < i ==> self.entries()[j].0@ != set_id@,
            decreases n - i,
        {
            if self.cached_sets[i].0 == key {
                proof {
                    lemma_map_of_get(self.entries(), i as int);
                }
                return Some(i);
            }
            i += 1;
        }
        proof {
            lemma_map_of_contains(self.entries(), set_id@);
        }
        None
    }

    /// Whether a response for `set_id` is cached.
    pub fn is_cached(&self, set_id: &str) -> (r: bool)
        requires
            self.wf(),
        ensures
            r == self.cache().contains_key(set_id@),
    {
        self.find_entry(set_id).is_some()
    }

    /// Resolves one step of `get_set`: a cached response is returned as is,
    /// with no fetch asked for; otherwise the caller is told which URL to
    /// fetch the download descriptor from, or that the identifier is
    /// malformed.
    pub fn get_set_plan(&self, set_id: &str) -> (r: Result<SetPlan, CardSetRequestError>)
        requires
            self.wf(),
        ensures
            match r {
                Ok(SetPlan::Cached(resp)) => set_plan_spec(self.cache(), set_id@)
                    == SetPlanSpec::Cached(resp@),
                Ok(SetPlan::Fetch(u)) => set_plan_spec(self.cache(), set_id@)
                    == SetPlanSpec::Fetch(u@),
                Err(e) => set_plan_spec(self.cache(), set_id@) == SetPlanSpec::Malformed && e
                    == CardSetRequestError::MalformedIdentifier,
            },
    {
        match self.find_entry(set_id) {
            Some(i) => Ok(SetPlan::Cached(self.cached_sets[i].1.clone())),
            None => match parse_url(set_id) {
                Ok(u) => Ok(SetPlan::Fetch(u)),
                Err(e) => Err(e),
            },
        }
    }

    /// Stores the response fetched for `set_id` and hands it back. A failed
    /// fetch stores nothing: the identifier stays absent and a later call
    /// retries the full two-stage fetch.
    pub fn complete_get_set(&mut self, set_id: &str, response: CardSetResponse) -> (r:
        CardSetResponse)
        requires
            old(self).wf(),
            !old(self).cache().contains_key(set_id@),
        ensures
            final(self).wf(),
            final(self).cache() == old(self).cache().insert(set_id@, response@),
            r@ == response@,
    {
        let stored = response.clone();
        proof {
            lemma_map_of_contains(self.entries(), set_id@);
        }
        self.cached_sets.push((set_id.to_owned(), stored));
        proof {
            let old_e = old(self).entries();
            let new_e = self.entries();
            assert(new_e.drop_last() =~= old_e);
            assert forall|i: int, j: int| 0 <= i < j < new_e.len() implies new_e[i].0@
                != new_e[j].0@ by {
                if j == new_e.len() - 1 {
                    assert(old_e[i].0@ != set_id@);
                } else {
                    assert(old_e[i].0@ != old_e[j].0@);
                }
            }
        }
        response
    }

    /// Resolves one step of `get_all_cards`: with every registered set
    /// cached, the concatenation of their card lists in registry order;
    /// otherwise the first set identifier, in registry order, that still has
    /// to be fetched.
    pub fn get_cards_plan(&self) -> (r: CardsPlan)
        requires
            self.wf(),
        ensures
            match r {
                CardsPlan::Ready(cards) => cards_plan_spec(self.cache()) == CardsPlanSpec::Ready(
                    cards_view(cards@),
                ),
                CardsPlan::Missing(id) => cards_plan_spec(self.cache()) == CardsPlanSpec::Missing(
                    id@,
                ),
            },
    {
        let ids = set_ids();
        let mut out: CardList = Vec::new();
        let mut k: usize = 0;
        proof {
            assert(cards_view(out@) =~= cards_prefix(self.cache(), 0));
        }
        while k < ids.len()
            invariant
                self.wf(),
                ids@.len() == registry().len(),
                forall|i: int| 0 <= i < ids@.len() ==> ids@[i]@ == registry()[i],
                k <= ids@.len(),
                forall|j: int| 0 <= j < k ==> self.cache().contains_key(registry()[j]),
                cards_view(out@) == cards_prefix(self.cache(), k as int),
            decreases ids@.len() - k,
        {
            match self.find_entry(ids[k].as_str()) {
                Some(i) => {
                    let mut cards = clone_cards(&self.cached_sets[i].1.card_set.card_list);
                    let ghost out_before = out@;
                    let ghost cards_seq = cards@;
                    out.append(&mut cards);
                    proof {
                        assert(cards_view(out_before + cards_seq) =~= cards_view(out_before)
                            + cards_view(cards_seq));
                        assert(cards_view(cards_seq) == self.cache()[registry()[k as int]].card_list);
                    }
                },
                None => {
                    proof {
                        lemma_first_missing_from(self.cache(), 0, k as int);
                    }
                    return CardsPlan::Missing(ids[k].clone());
                },
            }
            k += 1;
        }
        proof {
            lemma_no_missing_from(self.cache(), 0);
        }
        CardsPlan::Ready(out)
    }
}

proof fn lemma_first_missing_from(m: Map<Seq<char>, CardSetView>, j: int, k: int)
    requires
        0 <= j <= k < registry().len(),
        forall|i: int| j <= i < k ==> m.contains_key(registry()[i]),
        !m.contains_key(registry()[k]),
    ensures
        first_missing_from(m, j) == Some(k),
    decreases k - j,
{
    if j < k {
        lemma_first_missing_from(m, j + 1, k);
    }
}

proof fn lemma_no_missing_from(m: Map<Seq<char>, CardSetView>, j: int)
    requires
        0 <= j <= registry().len(),
        forall|i: int| j <= i < registry().len() ==> m.contains_key(registry()[i]),
    ensures
        first_missing_from(m, j) is None,
    decreases registry().len() - j,
{
    if j < registry().len() {
        lemma_no_missing_from(m, j + 1);
    }
}

/// Law: a set identifier whose response was just stored is resolved from the
/// cache: planning the same identifier again serves that very response and
/// asks for no fetch, so resolving a set twice fetches it once.
pub proof fn lemma_second_lookup_uses_cache(
    m: Map<Seq<char>, CardSetView>,
    id: Seq<char>,
    v: CardSetView,
)
    ensures
        set_plan_spec(m.insert(id, v), id) == SetPlanSpec::Cached(v),
{
}

/// Law: with both registered sets cached, aggregation yields the first set's
/// cards followed by the second set's, in that order, whatever the two
/// cached responses hold.
pub proof fn lemma_aggregate_concatenates(m: Map<Seq<char>, CardSetView>)
    requires
        m.contains_key(registry()[0]),
        m.contains_key(registry()[1]),
    ensures
        cards_plan_spec(m) == CardsPlanSpec::Ready(
            m[registry()[0]].card_list + m[registry()[1]].card_list,
        ),
{
    reveal_with_fuel(first_missing_from, 4);
    reveal_with_fuel(cards_prefix, 4);
    assert(cards_prefix(m, 0) + m[registry()[0]].card_list =~= m[registry()[0]].card_list);
}

/// Law: when the first registered set is cached and the second is not — as
/// after the second set's fetch failed — aggregation asks to fetch exactly
/// the second set, the first set's entry is untouched by storing the second,
/// and storing any response for the second completes the aggregation with
/// both card lists in order.
pub proof fn lemma_failed_set_retried_alone(m: Map<Seq<char>, CardSetView>, v: CardSetView)
    requires
        m.contains_key(registry()[0]),
        !m.contains_key(registry()[1]),
    ensures
        cards_plan_spec(m) == CardsPlanSpec::Missing(registry()[1]),
        m.insert(registry()[1], v)[registry()[0]] == m[registry()[0]],
        cards_plan_spec(m.insert(registry()[1], v)) == CardsPlanSpec::Ready(
            m[registry()[0]].card_list + v.card_list,
        ),
{
    assert(registry()[0] != registry()[1]) by {
        reveal_strlit("00");
        reveal_strlit("01");
        assert(("00"@)[1] != ("01"@)[1]);
    }
    lemma_first_missing_from(m, 0, 1);
    lemma_aggregate_concatenates(m.insert(registry()[1], v));
}

} // verus!
