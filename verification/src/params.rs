//! The query-parameter set of a request builder: a mapping from a fixed,
//! known vocabulary of parameter names to string values, built
//! incrementally and consumed by the terminal fetch operation.

use vstd::prelude::*;

verus! {

/// The closed vocabulary of query-parameter names.
#[derive(Debug, Clone, Copy, PartialEq, Eq, Structural)]
pub enum ParamKey {
    Language,
    Page,
    Region,
    AppendToResponse,
    Query,
    IncludeAdult,
    IncludeVideo,
    PrimaryReleaseYear,
    Year,
    PrimaryReleaseDateGte,
    PrimaryReleaseDateLte,
    SortBy,
}

/// The parameter name as it is written in a request's query string.
pub open spec fn spec_param_name(k: ParamKey) -> Seq<char> {
    match k {
        ParamKey::Language => "language"@,
        ParamKey::Page => "page"@,
        ParamKey::Region => "region"@,
        ParamKey::AppendToResponse => "append_to_response"@,
        ParamKey::Query => "query"@,
        ParamKey::IncludeAdult => "include_adult"@,
        ParamKey::IncludeVideo => "include_video"@,
        ParamKey::PrimaryReleaseYear => "primary_release_year"@,
        ParamKey::Year => "year"@,
        ParamKey::PrimaryReleaseDateGte => "primary_release_date.gte"@,
        ParamKey::PrimaryReleaseDateLte => "primary_release_date.lte"@,
        ParamKey::SortBy => "sort_by"@,
    }
}

impl ParamKey {
    /// The parameter name as query-string text.
    pub fn as_str(&self) -> (r: &'static str)
        ensures
            r@ == spec_param_name(*self),
    {
        match self {
            ParamKey::Language => "language",
            ParamKey::Page => "page",
            ParamKey::Region => "region",
            ParamKey::AppendToResponse => "append_to_response",
            ParamKey::Query => "query",
            ParamKey::IncludeAdult => "include_adult",
            ParamKey::IncludeVideo => "include_video",
            ParamKey::PrimaryReleaseYear => "primary_release_year",
            ParamKey::Year => "year",
            ParamKey::PrimaryReleaseDateGte => "primary_release_date.gte",
            ParamKey::PrimaryReleaseDateLte => "primary_release_date.lte",
            ParamKey::SortBy => "sort_by",
        }
    }
}

/// The mapping a list of key/value entries stands for; a later entry for
/// the same key wins.
pub open spec fn pairs_map(s: Seq<(ParamKey, String)>) -> Map<ParamKey, Seq<char>>
    decreases s.len(),
{
    if s.len() == 0 {
        Map::empty()
    } else {
        pairs_map(s.drop_last()).insert(s.last().0, s.last().1@)
    }
}

/// Each key appears at most once in the entry list.
pub open spec fn distinct_keys(s: Seq<(ParamKey, String)>) -> bool {
    forall|i: int, j: int| 0 <= i < j < s.len() ==> (#[trigger] s[i]).0 != (#[trigger] s[j]).0
}

/// An entry's key is in the map, at the entry's value, when keys are
/// distinct.
proof fn lemma_pairs_map_item(s: Seq<(ParamKey, String)>, i: int)
    requires
        distinct_keys(s),
        0 <= i < s.len(),
    ensures
        pairs_map(s).contains_key(s[i].0),
        pairs_map(s)[s[i].0] == s[i].1@,
    decreases s.len(),
{
    if i < s.len() - 1 {
        assert(s.drop_last()[i] == s[i]);
        lemma_pairs_map_item(s.drop_last(), i);
        assert(s[i].0 != s.last().0);
    }
}

/// A key no entry carries is not in the map.
proof fn lemma_pairs_map_absent(s: Seq<(ParamKey, String)>, k: ParamKey)
    requires
        forall|i: int| 0 <= i < s.len() ==> (#[trigger] s[i]).0 != k,
    ensures
        !pairs_map(s).contains_key(k),
    decreases s.len(),
{
    if s.len() > 0 {
        assert(forall|i: int|
            0 <= i < s.drop_last().len() ==> (#[trigger] s.drop_last()[i]).0 != k);
        lemma_pairs_map_absent(s.drop_last(), k);
    }
}

/// Replacing the entry that carries `k` updates the map at `k` alone.
proof fn lemma_pairs_map_update(s: Seq<(ParamKey, String)>, j: int, p: (ParamKey, String))
    requires
        distinct_keys(s),
        0 <= j < s.len(),
        s[j].0 == p.0,
    ensures
        pairs_map(s.update(j, p)) =~= pairs_map(s).insert(p.0, p.1@),
    decreases s.len(),
{
    let t = s.update(j, p);
    if j == s.len() - 1 {
        assert(t.drop_last() =~= s.drop_last());
        assert(t.last() == p);
    } else {
        assert(t.drop_last() =~= s.drop_last().update(j, p));
        assert(s.drop_last()[j] == s[j]);
        lemma_pairs_map_update(s.drop_last(), j, p);
        assert(t.last() == s.last());
        assert(s.last().0 != p.0);
        assert(pairs_map(t) =~= pairs_map(s.drop_last()).insert(p.0, p.1@).insert(
            s.last().0,
            s.last().1@,
        ));
    }
}

/// A key the map carries is carried by some entry.
proof fn lemma_pairs_map_member(s: Seq<(ParamKey, String)>, k: ParamKey)
    requires
        pairs_map(s).contains_key(k),
    ensures
        exists|i: int| 0 <= i < s.len() && (#[trigger] s[i]).0 == k,
    decreases s.len(),
{
    if s.len() > 0 {
        if s.last().0 == k {
            assert(s[s.len() - 1].0 == k);
        } else {
            lemma_pairs_map_member(s.drop_last(), k);
            let i = choose|i: int| 0 <= i < s.drop_last().len() && (#[trigger] s.drop_last()[i]).0
                == k;
            assert(s[i].0 == k);
        }
    }
}

/// With distinct keys, the map holds exactly one entry per list entry.
proof fn lemma_pairs_map_len(s: Seq<(ParamKey, String)>)
    requires
        distinct_keys(s),
    ensures
        pairs_map(s).dom().finite(),
        pairs_map(s).dom().len() == s.len(),
    decreases s.len(),
{
    broadcast use vstd::set::axiom_set_insert_len;

    if s.len() > 0 {
        assert(forall|i: int, j: int|
            0 <= i < j < s.drop_last().len() ==> (#[trigger] s.drop_last()[i]).0 != (
            #[trigger] s.drop_last()[j]).0) by {
            assert(forall|i: int|
                0 <= i < s.drop_last().len() ==> s.drop_last()[i] == (#[trigger] s[i]));
        }
        lemma_pairs_map_len(s.drop_last());
        assert(forall|i: int|
            0 <= i < s.drop_last().len() ==> (#[trigger] s.drop_last()[i]).0 != s.last().0) by {
            assert(forall|i: int|
                0 <= i < s.drop_last().len() ==> s.drop_last()[i] == (#[trigger] s[i]));
        }
        lemma_pairs_map_absent(s.drop_last(), s.last().0);
        assert(pairs_map(s).dom() =~= pairs_map(s.drop_last()).dom().insert(s.last().0));
    } else {
        assert(pairs_map(s).dom() =~= Set::<ParamKey>::empty());
    }
}

/// A query-parameter set: unset keys are simply absent.
#[derive(Debug, PartialEq, Eq)]
pub struct QueryParams {
    items: Vec<(ParamKey, String)>,
}

impl View for QueryParams {
    type V = Map<ParamKey, Seq<char>>;

    closed spec fn view(&self) -> Map<ParamKey, Seq<char>> {
        pairs_map(self.items@)
    }
}

impl QueryParams {
    /// A rendered pair that comes from this mapping.
    pub open spec fn spec_pair_ok(&self, p: (String, String)) -> bool {
        exists|k: ParamKey|
            self@.contains_key(k) && p.0@ == spec_param_name(k) && p.1@ == self@[k]
    }

    /// The entry list carries each key at most once.
    #[verifier::type_invariant]
    pub closed spec fn wf(self) -> bool {
        distinct_keys(self.items@)
    }

    /// An empty parameter set.
    pub fn new() -> (r: QueryParams)
        ensures
            r@ == Map::<ParamKey, Seq<char>>::empty(),
    {
        let items: Vec<(ParamKey, String)> = Vec::new();
        QueryParams { items }
    }

    /// Sets `key` to `value`, replacing any earlier value for the key.
    pub fn insert(self, key: ParamKey, value: String) -> (r: QueryParams)
        ensures
            r@ == self@.insert(key, value@),
    {
        proof {
            use_type_invariant(&self);
        }
        let ghost orig = self.items@;
        let ghost pre = self@;
        proof {
            assert(pre == pairs_map(orig));
        }
        let mut items = self.items;
        let n = items.len();
        let mut i: usize = 0;
        while i < n
            invariant
                n == items@.len(),
                i <= n,
                items@ == orig,
                pre == pairs_map(orig),
                self@ == pre,
                distinct_keys(items@),
                forall|j: int| 0 <= j < i ==> (#[trigger] items@[j]).0 != key,
            decreases n - i,
        {
            if items[i].0 == key {
                let _ = items.remove(i);
                items.insert(i, (key, value));
                proof {
                    let ghost p = (key, value);
                    assert(items@ =~= orig.update(i as int, p));
                    lemma_pairs_map_update(orig, i as int, p);
                    assert(pairs_map(items@) =~= pre.insert(key, value@));
                    assert(distinct_keys(items@));
                }
                return QueryParams { items };
            }
            i += 1;
        }
        items.push((key, value));
        proof {
            assert(items@.drop_last() =~= orig);
            assert(forall|j: int, k: int|
                0 <= j < k < items@.len() ==> (#[trigger] items@[j]).0 != (#[trigger] items@[k]).0);
        }
        QueryParams { items }
    }

    /// The value set for `key`, if any.
    pub fn get(&self, key: ParamKey) -> (r: Option<&String>)
        ensures
            match r {
                Some(v) => self@.contains_key(key) && self@[key] == v@,
                None => !self@.contains_key(key),
            },
    {
        proof {
            use_type_invariant(self);
        }
        let n = self.items.len();
        let mut i: usize = 0;
        while i < n
            invariant
                n == self.items@.len(),
                i <= n,
                distinct_keys(self.items@),
                forall|j: int| 0 <= j < i ==> (#[trigger] self.items@[j]).0 != key,
            decreases n - i,
        {
            if self.items[i].0 == key {
                proof {
                    lemma_pairs_map_item(self.items@, i as int);
                }
                return Some(&self.items[i].1);
            }
            i += 1;
        }
        proof {
            lemma_pairs_map_absent(self.items@, key);
        }
        None
    }

    /// The parameters as rendered name/value pairs, for the transport
    /// layer to attach to the request URL: one pair per set key, each
    /// carrying its parameter name and value.
    pub fn render_pairs(&self) -> (r: Vec<(String, String)>)
        ensures
            r@.len() == self@.dom().len(),
            forall|i: int| 0 <= i < r@.len() ==> self.spec_pair_ok(#[trigger] r@[i]),
            forall|k: ParamKey| #[trigger]
                self@.contains_key(k) ==> exists|i: int|
                    0 <= i < r@.len() && (#[trigger] r@[i]).0@ == spec_param_name(k) && r@[i].1@
                        == self@[k],
    {
        proof {
            use_type_invariant(self);
            lemma_pairs_map_len(self.items@);
        }
        let mut out: Vec<(String, String)> = Vec::new();
        let n = self.items.len();
        let mut i: usize = 0;
        while i < n
            invariant
                n == self.items@.len(),
                i <= n,
                distinct_keys(self.items@),
                out@.len() == i,
                forall|j: int|
                    0 <= j < i ==> (#[trigger] out@[j]).0@ == spec_param_name(self.items@[j].0)
                        && out@[j].1@ == self.items@[j].1@,
            decreases n - i,
        {
            let (k, v) = (self.items[i].0, self.items[i].1.clone());
            out.push((k.as_str().to_owned(), v));
            i += 1;
        }
        proof {
            assert forall|j: int| 0 <= j < out@.len() implies self.spec_pair_ok(
                #[trigger] out@[j],
            ) by {
                lemma_pairs_map_item(self.items@, j);
            }
            assert forall|k: ParamKey| #[trigger] self@.contains_key(k) implies exists|j: int|
                0 <= j < out@.len() && (#[trigger] out@[j]).0@ == spec_param_name(k) && out@[j].1@
                    == self@[k] by {
                lemma_pairs_map_member(self.items@, k);
                let idx = choose|idx: int|
                    0 <= idx < self.items@.len() && (#[trigger] self.items@[idx]).0 == k;
                lemma_pairs_map_item(self.items@, idx);
                assert(0 <= idx < out@.len() && out@[idx].0@ == spec_param_name(k) && out@[idx].1@
                    == self@[k]);
            }
        }
        out
    }
}

} // verus!
