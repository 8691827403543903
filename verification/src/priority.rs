//! Priorities of dictionary elements.

use vstd::prelude::*;
use vstd::string::*;

use crate::text::{str_eq, to_chars};

verus! {

#[derive(Debug, Clone, Copy, PartialEq, Eq, Structural)]
pub enum PriorityKind {
    /// Common words.
    Ichi,
    /// News.
    News,
    /// Common loan words.
    Gai,
    /// Especially marked common words.
    Spec,
    /// Word frequency category.
    WordFrequency,
}

#[derive(Debug, Clone, Copy, PartialEq, Eq, Structural)]
pub struct Priority {
    level: u8,
    kind: PriorityKind,
}

/// The decimal value of a sequence of digits.
pub open spec fn decimal_value(d: Seq<char>) -> int
    decreases d.len(),
{
    if d.len() == 0 {
        0
    } else {
        decimal_value(d.drop_last()) * 10 + (d.last() as u32 - '0' as u32)
    }
}

/// All characters are ASCII digits.
pub open spec fn all_digits(d: Seq<char>) -> bool {
    forall|i: int| 0 <= i < d.len() ==> '0' <= #[trigger] d[i] <= '9'
}

/// The kind named by a priority prefix.
pub open spec fn kind_of(prefix: Seq<char>) -> Option<PriorityKind> {
    if prefix == "ichi"@ {
        Some(PriorityKind::Ichi)
    } else if prefix == "news"@ {
        Some(PriorityKind::News)
    } else if prefix == "gai"@ {
        Some(PriorityKind::Gai)
    } else if prefix == "spec"@ {
        Some(PriorityKind::Spec)
    } else if prefix == "nf"@ {
        Some(PriorityKind::WordFrequency)
    } else {
        None
    }
}

/// The index of the first ASCII digit of `s`, or its length.
pub open spec fn first_digit(s: Seq<char>, i: int) -> int
    decreases s.len() - i,
{
    if 0 <= i < s.len() && !('0' <= s[i] <= '9') {
        first_digit(s, i + 1)
    } else {
        i
    }
}

/// The priority written as `s`: a kind such as `ichi` or `nf` followed by a
/// decimal level between 0 and 255.
pub open spec fn spec_parse_priority(s: Seq<char>) -> Option<(u8, PriorityKind)> {
    let n = first_digit(s, 0);
    let digits = s.skip(n);
    if n < s.len() && all_digits(digits) && decimal_value(digits) <= 255 && kind_of(s.take(n))
        is Some {
        Some((decimal_value(digits) as u8, kind_of(s.take(n))->0))
    } else {
        None
    }
}

proof fn lemma_first_digit(s: Seq<char>, i: int)
    requires
        0 <= i <= s.len(),
    ensures
        i <= first_digit(s, i) <= s.len(),
    decreases s.len() - i,
{
    if i < s.len() && !('0' <= s[i] <= '9') {
        lemma_first_digit(s, i + 1);
    }
}

impl Priority {
    /// The level of the priority.
    pub closed spec fn spec_level(&self) -> u8 {
        self.level
    }

    /// The kind of the priority.
    pub closed spec fn spec_kind(&self) -> PriorityKind {
        self.kind
    }

    /// Construct a priority.
    pub fn new(level: u8, kind: PriorityKind) -> (r: Priority)
        ensures
            r.spec_level() == level,
            r.spec_kind() == kind,
    {
        Priority { level, kind }
    }

    /// The priority which a string such as `ichi1` or `nf12` names.
    pub closed spec fn spec_parse(s: Seq<char>) -> Option<Priority> {
        match spec_parse_priority(s) {
            Some((level, kind)) => Some(Priority { level, kind }),
            None => None,
        }
    }

    /// The priority a string names has the level and kind which the string
    /// names, and a string names a priority exactly when it names a level
    /// and a kind.
    pub proof fn lemma_spec_parse(s: Seq<char>)
        ensures
            match Priority::spec_parse(s) {
                Some(p) => spec_parse_priority(s) == Some((p.spec_level(), p.spec_kind())),
                None => spec_parse_priority(s) is None,
            },
    {
    }

    /// A priority is its level and its kind.
    pub proof fn lemma_level_kind(a: Priority, b: Priority)
        ensures
            a == b <==> (a.spec_level() == b.spec_level() && a.spec_kind() == b.spec_kind()),
    {
    }

    /// Parse a priority, such as `ichi1` or `nf12`.
    pub fn parse(string: &str) -> (r: Option<Priority>)
        ensures
            r == Priority::spec_parse(string@),
            match r {
                Some(p) => spec_parse_priority(string@) == Some((p.spec_level(), p.spec_kind())),
                None => spec_parse_priority(string@) is None,
            },
    {
        let chars = to_chars(string);
        let len = chars.len();
        let mut n: usize = 0;
        proof {
            lemma_first_digit(string@, 0);
        }
        while n < len && !('0' <= chars[n] && chars[n] <= '9')
            invariant
                chars@ == string@,
                len == string@.len(),
                n <= len,
                first_digit(string@, 0) == first_digit(string@, n as int),
            decreases len - n,
        {
            n = n + 1;
        }
        if n == len {
            return None;
        }
        let mut level: u32 = 0;
        let mut i = n;
        while i < len
            invariant
                chars@ == string@,
                len == string@.len(),
                n < len,
                first_digit(string@, 0) == n,
                n <= i <= len,
                all_digits(string@.subrange(n as int, i as int)),
                level == decimal_value(string@.subrange(n as int, i as int)),
                level <= 255,
            decreases len - i,
        {
            let c = chars[i];
            if !('0' <= c && c <= '9') {
                assert(string@.skip(n as int)[i - n] == c);
                assert(!all_digits(string@.skip(n as int)));
                return None;
            }
            let next = level * 10 + (c as u32 - '0' as u32);
            assert(string@.subrange(n as int, i + 1).drop_last() =~= string@.subrange(n as int, i as int));
            if next > 255 {
                proof {
                    lemma_decimal_prefix(string@.skip(n as int), i + 1 - n);
                    assert(string@.skip(n as int).take(i + 1 - n) =~= string@.subrange(n as int, i + 1));
                }
                return None;
            }
            level = next;
            i = i + 1;
        }
        assert(string@.subrange(n as int, len as int) =~= string@.skip(n as int));
        let prefix = string.substring_char(0, n);
        assert(prefix@ =~= string@.take(n as int));
        let kind = if str_eq(prefix, "ichi") {
            PriorityKind::Ichi
        } else if str_eq(prefix, "news") {
            PriorityKind::News
        } else if str_eq(prefix, "gai") {
            PriorityKind::Gai
        } else if str_eq(prefix, "spec") {
            PriorityKind::Spec
        } else if str_eq(prefix, "nf") {
            PriorityKind::WordFrequency
        } else {
            return None;
        };
        Some(Priority { level: level as u8, kind })
    }

    /// Priority level.
    pub fn level(&self) -> (r: usize)
        ensures
            r == self.spec_level(),
    {
        self.level as usize
    }

    /// The kind of the priority.
    pub fn kind(&self) -> (r: PriorityKind)
        ensures
            r == self.spec_kind(),
    {
        self.kind
    }

    /// Get priority category.
    pub fn category(&self) -> (r: &'static str)
        ensures
            r@ == match self.spec_kind() {
                PriorityKind::Ichi => "ichi"@,
                PriorityKind::News => "news"@,
                PriorityKind::Gai => "gai"@,
                PriorityKind::Spec => "spec"@,
                PriorityKind::WordFrequency => "nf"@,
            },
    {
        match self.kind {
            PriorityKind::Ichi => "ichi",
            PriorityKind::News => "news",
            PriorityKind::Gai => "gai",
            PriorityKind::Spec => "spec",
            PriorityKind::WordFrequency => "nf",
        }
    }

    /// A description of the priority kind.
    pub fn title(&self) -> (r: &'static str)
        ensures
            r@ == match self.spec_kind() {
                PriorityKind::Ichi => "appears in \"Ichimango goi bunruishuu\", ichi2 are less frequently used online"@,
                PriorityKind::News => "frequently used in news"@,
                PriorityKind::Gai => "common loanwords"@,
                PriorityKind::Spec => "special words"@,
                PriorityKind::WordFrequency => "word frequency, lower means more frequent"@,
            },
    {
        match self.kind {
            PriorityKind::Ichi => {
                "appears in \"Ichimango goi bunruishuu\", ichi2 are less frequently used online"
            },
            PriorityKind::News => "frequently used in news",
            PriorityKind::Gai => "common loanwords",
            PriorityKind::Spec => "special words",
            PriorityKind::WordFrequency => "word frequency, lower means more frequent",
        }
    }

    /// The written form of the priority, such as `ichi1`.
    pub fn display(&self) -> (r: String)
        ensures
            spec_parse_priority(r@) == Some((self.spec_level(), self.spec_kind())),
    {
        let mut s = String::new();
        let cat = self.category();
        s.append(cat);
        let digits = decimal_digits(self.level);
        let ghost d = digits@;
        let mut i: usize = 0;
        let ghost base = s@;
        while i < digits.len()
            invariant
                s@ == base + d.take(i as int),
                digits@ == d,
                i <= d.len(),
            decreases d.len() - i,
        {
            crate::database::text::push_char(&mut s, digits[i]);
            assert(d.take(i + 1) =~= d.take(i as int).push(d[i as int]));
            i = i + 1;
        }
        assert(d.take(d.len() as int) =~= d);
        proof {
            lemma_parse_display(cat@, d, self.spec_level(), self.spec_kind());
        }
        s
    }
}

/// The decimal digits of a value are digits, and read back as the value.
pub proof fn lemma_decimal_prefix(d: Seq<char>, k: int)
    requires
        0 <= k <= d.len(),
    ensures
        all_digits(d) ==> decimal_value(d.take(k)) <= decimal_value(d),
    decreases d.len() - k,
{
    if !all_digits(d) {
    } else if k < d.len() {
        assert(all_digits(d.take(k + 1)));
        lemma_decimal_prefix(d, k + 1);
        assert(d.take(k + 1).drop_last() =~= d.take(k));
        assert(all_digits(d.take(k)));
        lemma_decimal_nonneg(d.take(k));
        assert(d.take(k + 1).last() == d[k]);
    } else {
        assert(d.take(k) =~= d);
    }
}

pub proof fn lemma_decimal_nonneg(d: Seq<char>)
    requires
        all_digits(d),
    ensures
        decimal_value(d) >= 0,
    decreases d.len(),
{
    if d.len() > 0 {
        assert(all_digits(d.drop_last()));
        lemma_decimal_nonneg(d.drop_last());
        assert(d[d.len() - 1] == d.last());
    }
}

proof fn lemma_parse_display(cat: Seq<char>, d: Seq<char>, level: u8, kind: PriorityKind)
    requires
        cat == match kind {
            PriorityKind::Ichi => "ichi"@,
            PriorityKind::News => "news"@,
            PriorityKind::Gai => "gai"@,
            PriorityKind::Spec => "spec"@,
            PriorityKind::WordFrequency => "nf"@,
        },
        d.len() > 0,
        all_digits(d),
        decimal_value(d) == level,
    ensures
        spec_parse_priority(cat + d) == Some((level, kind)),
{
    let s = cat + d;
    reveal_strlit("ichi");
    reveal_strlit("news");
    reveal_strlit("gai");
    reveal_strlit("spec");
    reveal_strlit("nf");
    assert(kind_of(cat) == Some(kind));
    assert(forall|i: int| 0 <= i < cat.len() ==> !('0' <= #[trigger] cat[i] <= '9'));
    lemma_first_digit_concat(cat, d, 0);
    assert(s.skip(cat.len() as int) =~= d);
    assert(s.take(cat.len() as int) =~= cat);
}

proof fn lemma_first_digit_concat(cat: Seq<char>, d: Seq<char>, i: int)
    requires
        0 <= i <= cat.len(),
        forall|j: int| 0 <= j < cat.len() ==> !('0' <= #[trigger] cat[j] <= '9'),
        d.len() > 0,
        all_digits(d),
    ensures
        first_digit(cat + d, i) == cat.len(),
    decreases cat.len() - i,
{
    if i < cat.len() {
        assert((cat + d)[i] == cat[i]);
        lemma_first_digit_concat(cat, d, i + 1);
    } else {
        assert((cat + d)[i] == d[0]);
    }
}

/// The decimal digits of a value.
pub fn decimal_digits(v: u8) -> (r: Vec<char>)
    ensures
        r@.len() > 0,
        all_digits(r@),
        decimal_value(r@) == v,
{
    let d2 = v / 100;
    let d1 = (v / 10) % 10;
    let d0 = v % 10;
    let mut out: Vec<char> = Vec::new();
    if v >= 100 {
        out.push(digit_char(d2));
    }
    if v >= 10 {
        out.push(digit_char(d1));
    }
    out.push(digit_char(d0));
    proof {
        let e = Seq::<char>::empty();
        assert(decimal_value(e) == 0);
        if v >= 100 {
            assert(out@.drop_last().drop_last().drop_last() =~= e);
            assert(decimal_value(out@.drop_last().drop_last()) == d2);
            assert(decimal_value(out@.drop_last()) == d2 * 10 + d1);
            assert(v == (d2 * 10 + d1) * 10 + d0) by (nonlinear_arith)
                requires d2 == v / 100, d1 == (v / 10) % 10, d0 == v % 10, v < 256;
        } else if v >= 10 {
            assert(out@.drop_last().drop_last() =~= e);
            assert(decimal_value(out@.drop_last()) == d1);
            assert(v == d1 * 10 + d0) by (nonlinear_arith)
                requires d1 == (v / 10) % 10, d0 == v % 10, v < 100;
        } else {
            assert(out@.drop_last() =~= e);
        }
    }
    out
}

fn digit_char(d: u8) -> (r: char)
    requires
        d < 10,
    ensures
        '0' <= r <= '9',
        r as u32 - '0' as u32 == d,
{
    (d + 48) as char
}

} // verus!
