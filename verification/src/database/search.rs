//! Searching an index held in memory: every phrase of a search is looked
//! up, the entries found for all of them are kept, and identifiers are
//! grouped by the entry they point to.

use vstd::prelude::*;

use super::index::{Id, InflectionData, Key, Source};
use super::keys::KeyView;
use super::query::{
    common_ids, convert_id, group_results, groups_view, grouped, lookup_table, retain_common,
    spec_convert_source, table_lookup, table_view,
};
use super::search_parser::{parse_from, SearchParser};
use super::stored;

verus! {

/// The identifiers as found in the index at `index`, or `None` where an
/// inflection of one of them is missing from the table of inflections.
pub open spec fn converted(ids: Seq<stored::Id>, index: u32, inflections: Seq<InflectionData>) -> Option<
    Seq<Id>,
>
    decreases ids.len(),
{
    if ids.len() == 0 {
        Some(Seq::empty())
    } else {
        match converted(ids.drop_last(), index, inflections) {
            Some(prev) => match spec_convert_source(ids.last().source, inflections) {
                Some(source) => Some(prev.push(Id::spec_make(index, ids.last().offset, source))),
                None => None,
            },
            None => None,
        }
    }
}

/// An index held in memory: its table of keys, the offset of each phrase,
/// and its table of inflections.
pub struct IndexTable {
    pub lookup: Vec<(String, stored::Id)>,
    pub phrases: Vec<u32>,
    pub inflections: Vec<InflectionData>,
}

/// What the free text lookup of `q` finds in an index.
pub open spec fn phrase_ids(
    table: Seq<KeyView>,
    phrases: Seq<u32>,
    inflections: Seq<InflectionData>,
    q: Seq<char>,
) -> Option<Seq<Id>> {
    converted(table_lookup(table, phrases, q), 0, inflections)
}

/// What the phrases of a search find together: what the first finds which
/// each of the others finds too.
pub open spec fn search_ids(
    table: Seq<KeyView>,
    phrases: Seq<u32>,
    inflections: Seq<InflectionData>,
    queries: Seq<Seq<char>>,
) -> Option<Seq<Id>>
    decreases queries.len(),
{
    if queries.len() == 0 {
        Some(Seq::empty())
    } else if queries.len() == 1 {
        phrase_ids(table, phrases, inflections, queries[0])
    } else {
        match search_ids(table, phrases, inflections, queries.drop_last()) {
            Some(found) => match phrase_ids(table, phrases, inflections, queries.last()) {
                Some(more) => Some(common_ids(found, more)),
                None => None,
            },
            None => None,
        }
    }
}

/// The phrases of a search.
pub open spec fn search_phrases(s: Seq<char>) -> Seq<Seq<char>> {
    parse_from(s, 0, None, 0).0.map_values(|p: (int, int)| s.subrange(p.0, p.1))
}

impl IndexTable {
    /// Perform a free text lookup, or `None` where an inflection found is
    /// missing from the table of inflections.
    pub fn lookup(&self, query: &str) -> (r: Option<Vec<Id>>)
        ensures
            match phrase_ids(table_view(self.lookup@), self.phrases@, self.inflections@, query@) {
                Some(ids) => r matches Some(v) && v@ == ids,
                None => r is None,
            },
    {
        let found = lookup_table(&self.lookup, &self.phrases, query);
        let mut out: Vec<Id> = Vec::new();
        let mut i: usize = 0;
        while i < found.len()
            invariant
                i <= found@.len(),
                found@ == table_lookup(table_view(self.lookup@), self.phrases@, query@),
                converted(found@.take(i as int), 0, self.inflections@) == Some(out@),
            decreases found@.len() - i,
        {
            assert(found@.take(i + 1).drop_last() =~= found@.take(i as int));
            match convert_id(0, found[i], &self.inflections) {
                Some(id) => out.push(id),
                None => {
                    assert(found@.take(i + 1).last() == found@[i as int]);
                    assert(converted(found@.take(i + 1), 0, self.inflections@) is None);
                    proof {
                        lemma_converted_none(found@, i as int + 1, self.inflections@);
                    }
                    return None;
                },
            }
            i = i + 1;
        }
        assert(found@.take(found@.len() as int) =~= found@);
        Some(out)
    }

    /// Search for the phrases of `input`, grouping what they find together
    /// by the entry it points to; `None` where an inflection found is
    /// missing from the table of inflections.
    pub fn search(&self, input: &str) -> (r: Option<Vec<(Key, Vec<Source>)>>)
        requires
            !input@.contains('\0'),
        ensures
            match search_ids(
                table_view(self.lookup@),
                self.phrases@,
                self.inflections@,
                search_phrases(input@),
            ) {
                Some(ids) => r matches Some(g) && groups_view(g@) == grouped(ids),
                None => r is None,
            },
    {
        let mut parser = SearchParser::new(input);
        let query = parser.parse();
        let ghost queries = search_phrases(input@);
        assert(query.phrases@.len() == queries.len());
        assert forall|k: int| 0 <= k < queries.len() implies #[trigger] query.phrases@[k]@ == queries[k] by {
        }
        let ghost t = table_view(self.lookup@);
        let n = query.phrases.len();
        if n == 0 {
            let ids: Vec<Id> = Vec::new();
            assert(search_ids(t, self.phrases@, self.inflections@, queries) == Some(ids@));
            return Some(group_results(&ids));
        }
        assert(queries.take(1) =~= seq![queries[0]]);
        let mut ids = match self.lookup(query.phrases[0]) {
            Some(ids) => ids,
            None => {
                proof {
                    lemma_search_prefix_none(t, self.phrases@, self.inflections@, queries, 1);
                }
                return None;
            },
        };
        let mut i: usize = 1;
        while i < n
            invariant
                n == query.phrases@.len(),
                n == queries.len(),
                1 <= i <= n,
                t == table_view(self.lookup@),
                queries == search_phrases(input@),
                forall|k: int| 0 <= k < queries.len() ==> #[trigger] query.phrases@[k]@ == queries[k],
                search_ids(t, self.phrases@, self.inflections@, queries.take(i as int)) == Some(ids@),
            decreases n - i,
        {
            assert(queries.take(i + 1).drop_last() =~= queries.take(i as int));
            assert(queries.take(i + 1).last() == queries[i as int]);
            let more = match self.lookup(query.phrases[i]) {
                Some(more) => more,
                None => {
                    assert(search_ids(t, self.phrases@, self.inflections@, queries.take(i + 1)) is None);
                    proof {
                        lemma_search_prefix_none(t, self.phrases@, self.inflections@, queries, i as int + 1);
                    }
                    return None;
                },
            };
            ids = retain_common(ids, &more);
            i = i + 1;
        }
        assert(queries.take(n as int) =~= queries);
        Some(group_results(&ids))
    }
}

proof fn lemma_converted_none(ids: Seq<stored::Id>, n: int, inflections: Seq<InflectionData>)
    requires
        0 < n <= ids.len(),
        converted(ids.take(n), 0, inflections) is None,
    ensures
        converted(ids, 0, inflections) is None,
    decreases ids.len(),
{
    if n < ids.len() {
        assert(ids.drop_last().take(n) =~= ids.take(n));
        lemma_converted_none(ids.drop_last(), n, inflections);
    } else {
        assert(ids.take(n) =~= ids);
    }
}

proof fn lemma_search_prefix_none(
    table: Seq<KeyView>,
    phrases: Seq<u32>,
    inflections: Seq<InflectionData>,
    queries: Seq<Seq<char>>,
    n: int,
)
    requires
        1 <= n <= queries.len(),
        search_ids(table, phrases, inflections, queries.take(n)) is None,
    ensures
        search_ids(table, phrases, inflections, queries) is None,
    decreases queries.len(),
{
    if n < queries.len() {
        assert(queries.drop_last().take(n) =~= queries.take(n));
        lemma_search_prefix_none(table, phrases, inflections, queries.drop_last(), n);
    } else {
        assert(queries.take(n) =~= queries);
    }
}

} // verus!
