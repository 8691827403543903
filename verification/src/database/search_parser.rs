//! Parsing search queries into phrases and entity keywords.

use vstd::prelude::*;
use vstd::string::*;

use crate::entities::Entity;
use crate::text::{is_whitespace, skip_ws_forward, spec_is_whitespace, to_chars};

verus! {

/// The result of analyzing a search query.
pub struct SearchQuery<'a> {
    pub phrases: Vec<&'a str>,
    pub entities: Vec<Entity>,
}

/// A character which may be part of an entity keyword.
pub open spec fn is_ident(c: char) -> bool {
    ('a' <= c <= 'z') || ('A' <= c <= 'Z') || ('0' <= c <= '9') || c == '-'
}

/// A character which separates phrases.
pub open spec fn is_separator(c: char) -> bool {
    c == ',' || c == '、' || c == '.' || c == '。'
}

/// Test if a character may be part of an entity keyword.
pub fn is_ident_char(c: char) -> (r: bool)
    ensures
        r == is_ident(c),
{
    ('a' <= c && c <= 'z') || ('A' <= c && c <= 'Z') || ('0' <= c && c <= '9') || c == '-'
}

/// The end of the keyword starting at `p`.
pub open spec fn ident_end(s: Seq<char>, p: int) -> int
    decreases s.len() - p,
{
    if 0 <= p < s.len() && is_ident(s[p]) {
        ident_end(s, p + 1)
    } else {
        p
    }
}

/// The phrase which ends at `end`, if one has been started.
pub open spec fn pending(start: Option<int>, end: int) -> Seq<(int, int)> {
    match start {
        Some(st) => seq![(st, end)],
        None => Seq::empty(),
    }
}

/// Parse `s[pos..]`: the phrases, as character ranges, and the entities of
/// the query. `start` is the start of the current phrase, if any, and `end`
/// the end of its last non-whitespace character.
pub open spec fn parse_from(s: Seq<char>, pos: int, start: Option<int>, end: int) -> (Seq<(int, int)>, Seq<Entity>)
    decreases s.len() - pos,
{
    if pos < 0 || pos >= s.len() {
        (pending(start, end), Seq::empty())
    } else {
        let e = pos;
        let p1 = skip_ws_forward(s, pos);
        if p1 < pos || p1 >= s.len() {
            (pending(start, e), Seq::empty())
        } else if s[p1] == '#' {
            let p3 = ident_end(s, p1 + 1);
            let ent = Entity::spec_parse_keyword(s.subrange(p1 + 1, p3));
            let ents: Seq<Entity> = match ent {
                Some(x) => seq![x],
                None => Seq::empty(),
            };
            if pos < p3 <= s.len() {
                let rest = parse_from(s, p3, None, e);
                (pending(start, e) + rest.0, ents + rest.1)
            } else {
                (pending(start, e), ents)
            }
        } else if is_separator(s[p1]) {
            let rest = parse_from(s, p1 + 1, None, e);
            (pending(start, e) + rest.0, rest.1)
        } else {
            let st = match start {
                Some(x) => x,
                None => p1,
            };
            parse_from(s, p1 + 1, Some(st), p1 + 1)
        }
    }
}

/// A phrase of a query, as a character range: not empty, neither starting
/// nor ending with whitespace, and holding no separator and no `#`.
pub open spec fn good_phrase(s: Seq<char>, p: (int, int)) -> bool {
    &&& 0 <= p.0 < p.1 <= s.len()
    &&& !spec_is_whitespace(s[p.0])
    &&& !spec_is_whitespace(s[p.1 - 1])
    &&& forall|k: int| p.0 <= k < p.1 ==> !is_separator(#[trigger] s[k]) && s[k] != '#'
}

proof fn lemma_skip_ws_all(s: Seq<char>, i: int)
    requires
        0 <= i <= s.len(),
    ensures
        forall|k: int| i <= k < skip_ws_forward(s, i) ==> spec_is_whitespace(#[trigger] s[k]),
        i <= skip_ws_forward(s, i) <= s.len(),
        skip_ws_forward(s, i) < s.len() ==> !spec_is_whitespace(s[skip_ws_forward(s, i)]),
    decreases s.len() - i,
{
    if i < s.len() && spec_is_whitespace(s[i]) {
        lemma_skip_ws_all(s, i + 1);
    }
}

proof fn lemma_parse_from_phrases(s: Seq<char>, pos: int, start: Option<int>, end: int)
    requires
        0 <= pos <= s.len(),
        start matches Some(st) ==> end == pos && good_phrase(s, (st, pos)),
    ensures
        forall|i: int|
            0 <= i < parse_from(s, pos, start, end).0.len() ==> good_phrase(
                s,
                #[trigger] parse_from(s, pos, start, end).0[i],
            ),
    decreases s.len() - pos,
{
    assert forall|i: int| 0 <= i < pending(start, pos).len() implies good_phrase(
        s,
        #[trigger] pending(start, pos)[i],
    ) by {
        assert(pending(start, pos)[i] == (start->0, pos));
    }
    assert forall|i: int| 0 <= i < pending(start, end).len() implies good_phrase(
        s,
        #[trigger] pending(start, end)[i],
    ) by {
        assert(pending(start, end)[i] == (start->0, end));
    }
    if pos < s.len() {
        let e = pos;
        lemma_skip_ws_all(s, pos);
        let p1 = skip_ws_forward(s, pos);
        if p1 < s.len() {
            if s[p1] == '#' {
                lemma_ident_end(s, p1 + 1);
                let p3 = ident_end(s, p1 + 1);
                if pos < p3 <= s.len() {
                    lemma_parse_from_phrases(s, p3, None, e);
                    lemma_concat_good(s, pending(start, e), parse_from(s, p3, None, e).0);
                    assert(parse_from(s, pos, start, end).0 == pending(start, e) + parse_from(s, p3, None, e).0);
                } else {
                    assert(parse_from(s, pos, start, end).0 == pending(start, e));
                }
            } else if is_separator(s[p1]) {
                lemma_parse_from_phrases(s, p1 + 1, None, e);
                lemma_concat_good(s, pending(start, e), parse_from(s, p1 + 1, None, e).0);
                assert(parse_from(s, pos, start, end).0 == pending(start, e) + parse_from(s, p1 + 1, None, e).0);
            } else {
                let st = match start {
                    Some(x) => x,
                    None => p1,
                };
                assert forall|k: int| st <= k < p1 + 1 implies !is_separator(#[trigger] s[k]) && s[k]
                    != '#' by {
                    if k < pos {
                    } else if k < p1 {
                        assert(spec_is_whitespace(s[k]));
                    }
                }
                lemma_parse_from_phrases(s, p1 + 1, Some(st), p1 + 1);
                assert(parse_from(s, pos, start, end).0 == parse_from(s, p1 + 1, Some(st), p1 + 1).0);
            }
        } else {
            assert(parse_from(s, pos, start, end).0 == pending(start, e));
        }
    } else {
        assert(parse_from(s, pos, start, end).0 == pending(start, end));
    }
}

proof fn lemma_concat_good(s: Seq<char>, a: Seq<(int, int)>, b: Seq<(int, int)>)
    requires
        forall|i: int| 0 <= i < a.len() ==> good_phrase(s, #[trigger] a[i]),
        forall|i: int| 0 <= i < b.len() ==> good_phrase(s, #[trigger] b[i]),
    ensures
        forall|i: int| 0 <= i < (a + b).len() ==> good_phrase(s, #[trigger] (a + b)[i]),
{
    assert forall|i: int| 0 <= i < (a + b).len() implies good_phrase(s, #[trigger] (a + b)[i]) by {
        if i < a.len() {
            assert((a + b)[i] == a[i]);
        } else {
            assert((a + b)[i] == b[i - a.len()]);
        }
    }
}

/// The entity which the keyword after a `#` at `p` names, if any.
pub open spec fn keyword_at(s: Seq<char>, p: int) -> Option<Entity> {
    Entity::spec_parse_keyword(s.subrange(p + 1, ident_end(s, p + 1)))
}

/// A `#` at `p` is followed by the keyword of `e`.
pub open spec fn names_entity(s: Seq<char>, p: int, e: Entity) -> bool {
    &&& 0 <= p < s.len()
    &&& s[p] == '#'
    &&& keyword_at(s, p) == Some(e)
}

/// Some `#` at or after `pos` is followed by the keyword of `e`.
pub open spec fn entity_named(s: Seq<char>, pos: int, e: Entity) -> bool {
    exists|p: int| pos <= p && #[trigger] names_entity(s, p, e)
}

/// Phrases in order: each ends before the next starts.
pub open spec fn in_order(ps: Seq<(int, int)>) -> bool {
    forall|i: int, j: int| 0 <= i < j < ps.len() ==> #[trigger] ps[i].1 < #[trigger] ps[j].0
}

proof fn lemma_parse_from_order(s: Seq<char>, pos: int, start: Option<int>, end: int)
    requires
        0 <= pos <= s.len(),
        start matches Some(st) ==> end == pos && st < pos,
    ensures
        ({
            let r = parse_from(s, pos, start, end);
            let lo = match start {
                Some(st) => st,
                None => pos,
            };
            &&& in_order(r.0)
            &&& forall|i: int| 0 <= i < r.0.len() ==> lo <= #[trigger] r.0[i].0 && r.0[i].0 < r.0[i].1
        }),
        forall|j: int|
            0 <= j < parse_from(s, pos, start, end).1.len() ==> #[trigger] entity_named(
                s,
                pos,
                parse_from(s, pos, start, end).1[j],
            ),
    decreases s.len() - pos,
{
    let r = parse_from(s, pos, start, end);
    let lo = match start {
        Some(st) => st,
        None => pos,
    };
    if pos < s.len() {
        let e = pos;
        lemma_skip_ws_all(s, pos);
        let p1 = skip_ws_forward(s, pos);
        if p1 < s.len() {
            if s[p1] == '#' || is_separator(s[p1]) {
                let next = if s[p1] == '#' {
                    ident_end(s, p1 + 1)
                } else {
                    p1 + 1
                };
                lemma_ident_end(s, p1 + 1);
                if pos < next <= s.len() {
                    lemma_parse_from_order(s, next, None, e);
                    let rest = parse_from(s, next, None, e);
                    let pe = pending(start, e);
                    assert(r.0 == pe + rest.0);
                    assert forall|i: int, j: int| 0 <= i < j < r.0.len() implies #[trigger] r.0[i].1
                        < #[trigger] r.0[j].0 by {
                        if j < pe.len() {
                        } else if i < pe.len() {
                            assert(r.0[i] == (start->0, e));
                            assert(r.0[j] == rest.0[j - pe.len()]);
                        } else {
                            assert(r.0[i] == rest.0[i - pe.len()]);
                            assert(r.0[j] == rest.0[j - pe.len()]);
                        }
                    }
                    assert forall|i: int| 0 <= i < r.0.len() implies lo <= #[trigger] r.0[i].0
                        && r.0[i].0 < r.0[i].1 by {
                        if i >= pe.len() {
                            assert(r.0[i] == rest.0[i - pe.len()]);
                        } else {
                            assert(r.0[i] == (start->0, e));
                        }
                    }
                    if s[p1] == '#' {
                        let ents: Seq<Entity> = match keyword_at(s, p1) {
                            Some(x) => seq![x],
                            None => Seq::empty(),
                        };
                        assert(r.1 == ents + rest.1);
                        assert forall|j: int| 0 <= j < r.1.len() implies #[trigger] entity_named(s, pos, r.1[j]) by {
                            if j < ents.len() {
                                assert(r.1[j] == ents[j]);
                                assert(names_entity(s, p1, r.1[j]));
                            } else {
                                assert(r.1[j] == rest.1[j - ents.len()]);
                                assert(entity_named(s, next, rest.1[j - ents.len()]));
                                let p = choose|p: int|
                                    next <= p && #[trigger] names_entity(s, p, rest.1[j - ents.len()]);
                                assert(pos <= p && names_entity(s, p, r.1[j]));
                            }
                        }
                    } else {
                        assert(r.1 == rest.1);
                        assert forall|j: int| 0 <= j < r.1.len() implies #[trigger] entity_named(s, pos, r.1[j]) by {
                            assert(entity_named(s, next, rest.1[j]));
                            let p = choose|p: int| next <= p && #[trigger] names_entity(s, p, rest.1[j]);
                            assert(pos <= p && names_entity(s, p, r.1[j]));
                        }
                    }
                } else {
                    assert(r.0 == pending(start, e));
                    if s[p1] == '#' {
                        assert forall|j: int| 0 <= j < r.1.len() implies #[trigger] entity_named(s, pos, r.1[j]) by {
                            assert(names_entity(s, p1, r.1[j]));
                        }
                    }
                }
            } else {
                let st = match start {
                    Some(x) => x,
                    None => p1,
                };
                lemma_parse_from_order(s, p1 + 1, Some(st), p1 + 1);
                assert(r == parse_from(s, p1 + 1, Some(st), p1 + 1));
                let r2 = parse_from(s, p1 + 1, Some(st), p1 + 1);
                assert forall|j: int| 0 <= j < r.1.len() implies #[trigger] entity_named(s, pos, r.1[j]) by {
                    assert(entity_named(s, p1 + 1, r2.1[j]));
                    let p = choose|p: int| p1 + 1 <= p && #[trigger] names_entity(s, p, r2.1[j]);
                    assert(pos <= p && names_entity(s, p, r.1[j]));
                }
            }
        } else {
            assert(r.0 == pending(start, e));
        }
    }
}

/// The phrases of a query come in the order of the input, and each entity
/// of a query is the one which the keyword right after some `#` names.
pub proof fn lemma_query_order(s: Seq<char>)
    ensures
        in_order(parse_from(s, 0, None, 0).0),
        forall|j: int|
            0 <= j < parse_from(s, 0, None, 0).1.len() ==> #[trigger] entity_named(
                s,
                0,
                parse_from(s, 0, None, 0).1[j],
            ),
{
    lemma_parse_from_order(s, 0, None, 0);
}

/// The phrases of a query are not empty, neither start nor end with
/// whitespace, and hold no separator and no `#`.
pub proof fn lemma_phrases_well_formed(s: Seq<char>)
    ensures
        forall|i: int|
            0 <= i < parse_from(s, 0, None, 0).0.len() ==> good_phrase(
                s,
                #[trigger] parse_from(s, 0, None, 0).0[i],
            ),
{
    lemma_parse_from_phrases(s, 0, None, 0);
}

/// The text of each phrase of a query is not empty and holds none of the
/// separators `,`, `、`, `.` and `。`, and no `#`.
pub proof fn lemma_phrase_texts(s: Seq<char>)
    ensures
        forall|i: int|
            0 <= i < parse_from(s, 0, None, 0).0.len() ==> {
                let p = #[trigger] parse_from(s, 0, None, 0).0[i];
                let t = s.subrange(p.0, p.1);
                &&& 0 <= p.0 < p.1 <= s.len()
                &&& t.len() > 0
                &&& !t.contains(',')
                &&& !t.contains('、')
                &&& !t.contains('.')
                &&& !t.contains('。')
                &&& !t.contains('#')
            },
{
    lemma_phrases_well_formed(s);
    let ps = parse_from(s, 0, None, 0).0;
    assert forall|i: int| 0 <= i < ps.len() implies {
        let p = #[trigger] ps[i];
        let t = s.subrange(p.0, p.1);
        &&& 0 <= p.0 < p.1 <= s.len()
        &&& t.len() > 0
        &&& !t.contains(',')
        &&& !t.contains('、')
        &&& !t.contains('.')
        &&& !t.contains('。')
        &&& !t.contains('#')
    } by {
        let p = ps[i];
        assert(good_phrase(s, p));
        let t = s.subrange(p.0, p.1);
        assert forall|k: int| 0 <= k < t.len() implies t[k] != ',' && t[k] != '、' && t[k] != '.'
            && t[k] != '。' && t[k] != '#' by {
            assert(t[k] == s[p.0 + k]);
            assert(!is_separator(s[p.0 + k]) && s[p.0 + k] != '#');
        }
    }
}

/// A parser of search queries.
pub struct SearchParser<'a> {
    input: &'a str,
    chars: Vec<char>,
    pos: usize,
}

proof fn lemma_skip_ws(s: Seq<char>, i: int)
    requires
        0 <= i <= s.len(),
    ensures
        i <= skip_ws_forward(s, i) <= s.len(),
        skip_ws_forward(s, i) < s.len() ==> !spec_is_whitespace(s[skip_ws_forward(s, i)]),
    decreases s.len() - i,
{
    if i < s.len() && spec_is_whitespace(s[i]) {
        lemma_skip_ws(s, i + 1);
    }
}

proof fn lemma_ident_end(s: Seq<char>, p: int)
    requires
        0 <= p <= s.len(),
    ensures
        p <= ident_end(s, p) <= s.len(),
    decreases s.len() - p,
{
    if p < s.len() && is_ident(s[p]) {
        lemma_ident_end(s, p + 1);
    }
}

impl<'a> SearchParser<'a> {
    /// The query being parsed.
    pub closed spec fn input(&self) -> Seq<char> {
        self.input@
    }

    /// The position of the parser.
    pub closed spec fn pos(&self) -> int {
        self.pos as int
    }

    pub closed spec fn wf(&self) -> bool {
        self.chars@ == self.input@ && self.pos <= self.chars@.len()
    }

    /// Construct a new parser.
    pub fn new(input: &'a str) -> (r: Self)
        ensures
            r.wf(),
            r.input() == input@,
            r.pos() == 0,
    {
        Self { input, chars: to_chars(input), pos: 0 }
    }

    /// Parse the query.
    pub fn parse(&mut self) -> (r: SearchQuery<'a>)
        requires
            old(self).wf(),
            !old(self).input().contains('\0'),
        ensures
            ({
                let (phrases, entities) = parse_from(
                    old(self).input(),
                    old(self).pos(),
                    None,
                    old(self).pos(),
                );
                &&& r.phrases@.len() == phrases.len()
                &&& forall|i: int|
                    0 <= i < phrases.len() ==> #[trigger] r.phrases@[i]@ == old(self).input().subrange(
                        phrases[i].0,
                        phrases[i].1,
                    )
                &&& r.entities@ == entities
            }),
    {
        let ghost s = self.input@;
        let ghost goal = parse_from(s, self.pos as int, None, self.pos as int);
        let n = self.chars.len();
        let mut phrases: Vec<&'a str> = Vec::new();
        let mut entities: Vec<Entity> = Vec::new();
        let mut start: Option<usize> = None;
        let mut end: usize = self.pos;
        let ghost mut acc: Seq<(int, int)> = Seq::empty();
        while self.pos < n
            invariant
                self.wf(),
                self.input@ == s,
                s == old(self).input(),
                goal == parse_from(old(self).input(), old(self).pos(), None, old(self).pos()),
                n == s.len(),
                !s.contains('\0'),
                end <= self.pos,
                start matches Some(st) ==> st <= end,
                phrases@.len() == acc.len(),
                forall|i: int|
                    0 <= i < acc.len() ==> #[trigger] phrases@[i]@ == s.subrange(acc[i].0, acc[i].1),
                ({
                    let rest = parse_from(
                        s,
                        self.pos as int,
                        match start {
                            Some(x) => Some(x as int),
                            None => None,
                        },
                        end as int,
                    );
                    &&& goal.0 == acc + rest.0
                    &&& goal.1 == entities@ + rest.1
                }),
            decreases n - self.pos,
        {
            let ghost startv = match start {
                Some(x) => Some(x as int),
                None => None::<int>,
            };
            let ghost pos0 = self.pos as int;
            end = self.pos;
            proof {
                lemma_skip_ws(s, pos0);
            }
            while self.pos < n && is_whitespace(self.chars[self.pos])
                invariant
                    self.wf(),
                    self.input@ == s,
                    n == s.len(),
                    pos0 <= self.pos,
                    skip_ws_forward(s, pos0) == skip_ws_forward(s, self.pos as int),
                decreases n - self.pos,
            {
                self.pos = self.pos + 1;
            }
            assert(self.pos as int == skip_ws_forward(s, pos0));
            let ghost before = parse_from(s, pos0, startv, pos0);
            if self.pos == n {
                assert(before == (pending(startv, pos0), Seq::<Entity>::empty()));
                continue;
            }
            let c = self.chars[self.pos];
            if c == '#' || c == ',' || c == '、' || c == '.' || c == '。' {
                match start {
                    Some(st) => {
                        phrases.push(self.input.substring_char(st, end));
                    },
                    None => {},
                }
                proof {
                    assert forall|i: int| 0 <= i < acc.len() + pending(startv, pos0).len() implies #[trigger] phrases@[i]@ == s.subrange(
                        (acc + pending(startv, pos0))[i].0,
                        (acc + pending(startv, pos0))[i].1,
                    ) by {
                        if i < acc.len() {
                            assert((acc + pending(startv, pos0))[i] == acc[i]);
                        }
                    }
                    acc = acc + pending(startv, pos0);
                }
                start = None;
                self.pos = self.pos + 1;
                if c == '#' {
                    let ident_start = self.pos;
                    proof {
                        lemma_ident_end(s, ident_start as int);
                    }
                    while self.pos < n && is_ident_char(self.chars[self.pos])
                        invariant
                            self.wf(),
                            self.input@ == s,
                            n == s.len(),
                            ident_start <= self.pos,
                            ident_end(s, ident_start as int) == ident_end(s, self.pos as int),
                        decreases n - self.pos,
                    {
                        self.pos = self.pos + 1;
                    }
                    let ident = self.input.substring_char(ident_start, self.pos);
                    let ghost old_ents = entities@;
                    match Entity::parse_keyword(ident) {
                        Some(entity) => {
                            entities.push(entity);
                        },
                        None => {},
                    }
                    proof {
                        let rest = parse_from(s, self.pos as int, None, pos0);
                        assert(before.1 == (entities@.subrange(old_ents.len() as int, entities@.len() as int)) + rest.1);
                        assert(goal.1 =~= entities@ + rest.1);
                        assert(goal.0 =~= acc + rest.0);
                    }
                } else {
                    proof {
                        let rest = parse_from(s, self.pos as int, None, pos0);
                        assert(goal.0 =~= acc + rest.0);
                    }
                }
            } else {
                if start.is_none() {
                    start = Some(self.pos);
                }
                self.pos = self.pos + 1;
                end = self.pos;
            }
        }
        match start {
            Some(st) => {
                phrases.push(self.input.substring_char(st, end));
            },
            None => {},
        }
        proof {
            let startv = match start {
                Some(x) => Some(x as int),
                None => None::<int>,
            };
            assert forall|i: int| 0 <= i < acc.len() + pending(startv, end as int).len() implies #[trigger] phrases@[i]@ == s.subrange(
                (acc + pending(startv, end as int))[i].0,
                (acc + pending(startv, end as int))[i].1,
            ) by {
                if i < acc.len() {
                    assert((acc + pending(startv, end as int))[i] == acc[i]);
                }
            }
            assert(entities@ =~= entities@ + Seq::<Entity>::empty());
        }
        SearchQuery { phrases, entities }
    }
}

} // verus!
