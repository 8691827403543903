//! Sparse debug forms of the elements of an entry: the fields which hold
//! nothing are left out.

use vstd::prelude::*;
use vstd::string::*;

use super::elements::{
    debug_str, spec_debug_str, KanjiElement, ReadingElement, Sense, SourceLanguage,
};
use crate::database::text::push_char;
use crate::entities::{Dialect, Field, KanjiInfo, Miscellaneous, PartOfSpeech, ReadingInfo};
use crate::priority::{Priority, PriorityKind};
use super::declared::{
    declared_order, dialect_at_exec, dialect_declared, field_at_exec, field_declared, has_dialect, has_field,
    has_kanji_info, has_misc, has_pos, has_reading_info, kanji_info_at_exec, kanji_info_declared, misc_at_exec,
    misc_declared, pos_at_exec, pos_declared, reading_info_at_exec, reading_info_declared,
};

verus! {

/// Items separated by `, `.
pub open spec fn joined(items: Seq<Seq<char>>) -> Seq<char>
    decreases items.len(),
{
    if items.len() == 0 {
        Seq::empty()
    } else if items.len() == 1 {
        items[0]
    } else {
        joined(items.drop_last()) + ", "@ + items.last()
    }
}

/// The debug form of a list: its items in brackets.
pub open spec fn debug_list(items: Seq<Seq<char>>) -> Seq<char> {
    "["@ + joined(items) + "]"@
}

/// The debug form of a set: its items in braces.
pub open spec fn debug_set(items: Seq<Seq<char>>) -> Seq<char> {
    "{"@ + joined(items) + "}"@
}

/// The debug form of a list of strings.
pub open spec fn debug_strs(v: Seq<&str>) -> Seq<char> {
    debug_list(v.map_values(|s: &str| spec_debug_str(s@)))
}

/// The decimal digits of a number, with no leading zero.
pub open spec fn decimal(v: nat) -> Seq<char>
    decreases v,
{
    if v < 10 {
        seq![((v + 48) as u32) as char]
    } else {
        decimal(v / 10).push((((v % 10) + 48) as u32) as char)
    }
}

/// The name of a kind of priority.
pub open spec fn kind_name(k: PriorityKind) -> Seq<char> {
    match k {
        PriorityKind::Ichi => "Ichi"@,
        PriorityKind::News => "News"@,
        PriorityKind::Gai => "Gai"@,
        PriorityKind::Spec => "Spec"@,
        PriorityKind::WordFrequency => "WordFrequency"@,
    }
}

/// The debug form of a priority.
pub open spec fn debug_priority(p: Priority) -> Seq<char> {
    "Priority { level: "@ + decimal(p.spec_level() as nat) + ", kind: "@ + kind_name(p.spec_kind())
        + " }"@
}

/// A field of a debug form: `name: value, `.
pub open spec fn field(name: Seq<char>, value: Seq<char>) -> Seq<char> {
    name + ": "@ + value + ", "@
}

/// A field which is shown only where `shown` holds.
pub open spec fn field_if(shown: bool, name: Seq<char>, value: Seq<char>) -> Seq<char> {
    if shown {
        field(name, value)
    } else {
        Seq::empty()
    }
}

/// The sparse debug form of a kanji spelling.
pub open spec fn kanji_element_debug(k: KanjiElement) -> Seq<char> {
    "KanjiElement { "@ + field("text"@, spec_debug_str(k.text@)) + field_if(
        k.priority@.len() > 0,
        "priority"@,
        debug_list(k.priority@.map_values(|p: Priority| debug_priority(p))),
    ) + field_if(
        k.info@.len() > 0,
        "info"@,
        debug_set(declared_order(k.info@, kanji_info_declared()).map_values(|i: KanjiInfo| i.spec_variant())),
    ) + ".. }"@
}

/// The sparse debug form of a reading.
pub open spec fn reading_element_debug(r: ReadingElement) -> Seq<char> {
    "ReadingElement { "@ + field("text"@, spec_debug_str(r.text@)) + field_if(
        r.no_kanji,
        "no_kanji"@,
        "true"@,
    ) + field_if(r.reading_string@.len() > 0, "reading_string"@, debug_set(r.reading_string@.map_values(|t: &str| spec_debug_str(t@))))
        + field_if(
        r.priority@.len() > 0,
        "priority"@,
        debug_list(r.priority@.map_values(|p: Priority| debug_priority(p))),
    ) + field_if(
        r.info@.len() > 0,
        "info"@,
        debug_set(declared_order(r.info@, reading_info_declared()).map_values(|i: ReadingInfo| i.spec_variant())),
    ) + ".. }"@
}

/// The sparse debug form of a sense.
pub open spec fn sense_debug(s: Sense) -> Seq<char> {
    "Sense { "@ + field_if(
        s.pos@.len() > 0,
        "pos"@,
        debug_set(declared_order(s.pos@, pos_declared()).map_values(|p: PartOfSpeech| p.spec_variant())),
    ) + field_if(s.xref@.len() > 0, "xref"@, debug_strs(s.xref@)) + match s.info {
        Some(i) => field("info"@, spec_debug_str(i@)),
        None => Seq::empty(),
    } + field_if(
        s.misc@.len() > 0,
        "misc"@,
        debug_set(declared_order(s.misc@, misc_declared()).map_values(|m: Miscellaneous| m.spec_variant())),
    ) + field_if(
        s.dialect@.len() > 0,
        "dialect"@,
        debug_set(declared_order(s.dialect@, dialect_declared()).map_values(|d: Dialect| d.spec_variant())),
    ) + field_if(s.stagk@.len() > 0, "stagk"@, debug_strs(s.stagk@)) + field_if(
        s.stagr@.len() > 0,
        "stagr"@,
        debug_strs(s.stagr@),
    ) + field_if(
        s.field@.len() > 0,
        "fields"@,
        debug_set(declared_order(s.field@, field_declared()).map_values(|f: Field| f.spec_variant())),
    ) + field_if(
        s.source_language@.len() > 0,
        "source_language"@,
        debug_list(s.source_language@.map_values(|l: SourceLanguage| l.spec_debug_sparse())),
    ) + field_if(s.antonym@.len() > 0, "antonym"@, debug_strs(s.antonym@)) + ".. }"@
}

/// Append the items of a list, separated by `, `, in braces where they are
/// a set and in brackets otherwise.
fn append_list(s: &mut String, items: &Vec<String>, set: bool)
    ensures
        final(s)@ == old(s)@ + if set {
            debug_set(items@.map_values(|t: String| t@))
        } else {
            debug_list(items@.map_values(|t: String| t@))
        },
{
    let ghost open: Seq<char> = if set { "{"@ } else { "["@ };
    let ghost base = s@;
    let ghost all = items@.map_values(|t: String| t@);
    if set {
        s.append("{");
    } else {
        s.append("[");
    }
    let mut i: usize = 0;
    while i < items.len()
        invariant
            i <= items@.len(),
            all == items@.map_values(|t: String| t@),
            open == if set { "{"@ } else { "["@ },
            s@ == base + open + joined(all.take(i as int)),
        decreases items@.len() - i,
    {
        assert(all.take(i + 1).drop_last() =~= all.take(i as int));
        assert(all.take(i + 1).last() == items@[i as int]@);
        if i > 0 {
            s.append(", ");
        } else {
            assert(all.take(1) =~= seq![all[0]]);
        }
        s.append(items[i].as_str());
        i = i + 1;
    }
    assert(all.take(all.len() as int) =~= all);
    if set {
        s.append("}");
    } else {
        s.append("]");
    }
}

/// Append the decimal digits of a number.
fn append_decimal(s: &mut String, v: u8)
    ensures
        final(s)@ == old(s)@ + decimal(v as nat),
    decreases v,
{
    if v >= 10 {
        append_decimal(s, v / 10);
    }
    let d = v % 10;
    let c: char = if d == 0 {
        '0'
    } else if d == 1 {
        '1'
    } else if d == 2 {
        '2'
    } else if d == 3 {
        '3'
    } else if d == 4 {
        '4'
    } else if d == 5 {
        '5'
    } else if d == 6 {
        '6'
    } else if d == 7 {
        '7'
    } else if d == 8 {
        '8'
    } else {
        '9'
    };
    assert(c == (((v % 10) + 48) as u32) as char);
    push_char(s, c);
}

/// Append the debug form of a priority.
fn append_priority(s: &mut String, p: &Priority)
    ensures
        final(s)@ == old(s)@ + debug_priority(*p),
{
    s.append("Priority { level: ");
    let level = p.level();
    append_decimal(s, level as u8);
    s.append(", kind: ");
    match p.kind() {
        PriorityKind::Ichi => s.append("Ichi"),
        PriorityKind::News => s.append("News"),
        PriorityKind::Gai => s.append("Gai"),
        PriorityKind::Spec => s.append("Spec"),
        PriorityKind::WordFrequency => s.append("WordFrequency"),
    }
    s.append(" }");
}

/// The debug forms of priorities.
fn priority_items(v: &Vec<Priority>) -> (r: Vec<String>)
    ensures
        r@.map_values(|t: String| t@) == v@.map_values(|p: Priority| debug_priority(p)),
{
    let mut out: Vec<String> = Vec::new();
    let mut i: usize = 0;
    while i < v.len()
        invariant
            i <= v@.len(),
            out@.map_values(|t: String| t@) == v@.take(i as int).map_values(
                |p: Priority| debug_priority(p),
            ),
        decreases v@.len() - i,
    {
        let mut t = String::new();
        append_priority(&mut t, &v[i]);
        out.push(t);
        assert(v@.take(i + 1).map_values(|p: Priority| debug_priority(p)) =~= v@.take(
            i as int,
        ).map_values(|p: Priority| debug_priority(p)).push(debug_priority(v@[i as int])));
        assert(out@.map_values(|t: String| t@) =~= out@.drop_last().map_values(|t: String| t@).push(
            out@.last()@,
        ));
        i = i + 1;
    }
    assert(v@.take(v@.len() as int) =~= v@);
    out
}

/// The debug forms of strings.
fn str_items(v: &Vec<&str>) -> (r: Vec<String>)
    ensures
        r@.map_values(|t: String| t@) == v@.map_values(|s: &str| spec_debug_str(s@)),
{
    let mut out: Vec<String> = Vec::new();
    let mut i: usize = 0;
    while i < v.len()
        invariant
            i <= v@.len(),
            out@.map_values(|t: String| t@) == v@.take(i as int).map_values(
                |s: &str| spec_debug_str(s@),
            ),
        decreases v@.len() - i,
    {
        out.push(debug_str(v[i]));
        assert(v@.take(i + 1).map_values(|s: &str| spec_debug_str(s@)) =~= v@.take(
            i as int,
        ).map_values(|s: &str| spec_debug_str(s@)).push(spec_debug_str(v@[i as int]@)));
        assert(out@.map_values(|t: String| t@) =~= out@.drop_last().map_values(|t: String| t@).push(
            out@.last()@,
        ));
        i = i + 1;
    }
    assert(v@.take(v@.len() as int) =~= v@);
    out
}

/// The names of the kinds of kanji information which a set holds, in declaration order.
fn kanji_info_items(v: &Vec<KanjiInfo>) -> (r: Vec<String>)
    ensures
        r@.map_values(|t: String| t@) == declared_order(v@, kanji_info_declared()).map_values(
            |x: KanjiInfo| x.spec_variant(),
        ),
{
    let ghost all = kanji_info_declared();
    let mut out: Vec<String> = Vec::new();
    let mut k: usize = 0;
    while k < 7
        invariant
            k <= 7,
            all == kanji_info_declared(),
            out@.map_values(|t: String| t@) == declared_order(v@, all.take(k as int)).map_values(
                |x: KanjiInfo| x.spec_variant(),
            ),
        decreases 7 - k,
    {
        let x = kanji_info_at_exec(k);
        assert(all.take(k + 1).drop_last() =~= all.take(k as int));
        assert(all.take(k + 1).last() == x);
        if has_kanji_info(v, x) {
            out.push(String::from_str(x.variant()));
            assert(declared_order(v@, all.take(k + 1)).map_values(|x: KanjiInfo| x.spec_variant())
                =~= declared_order(v@, all.take(k as int)).map_values(|x: KanjiInfo| x.spec_variant()).push(
                x.spec_variant(),
            ));
            assert(out@.map_values(|t: String| t@) =~= out@.drop_last().map_values(|t: String| t@).push(
                out@.last()@,
            ));
        }
        k = k + 1;
    }
    assert(all.take(7) =~= all);
    out
}

/// The names of the kinds of reading information which a set holds, in declaration order.
fn reading_info_items(v: &Vec<ReadingInfo>) -> (r: Vec<String>)
    ensures
        r@.map_values(|t: String| t@) == declared_order(v@, reading_info_declared()).map_values(
            |x: ReadingInfo| x.spec_variant(),
        ),
{
    let ghost all = reading_info_declared();
    let mut out: Vec<String> = Vec::new();
    let mut k: usize = 0;
    while k < 5
        invariant
            k <= 5,
            all == reading_info_declared(),
            out@.map_values(|t: String| t@) == declared_order(v@, all.take(k as int)).map_values(
                |x: ReadingInfo| x.spec_variant(),
            ),
        decreases 5 - k,
    {
        let x = reading_info_at_exec(k);
        assert(all.take(k + 1).drop_last() =~= all.take(k as int));
        assert(all.take(k + 1).last() == x);
        if has_reading_info(v, x) {
            out.push(String::from_str(x.variant()));
            assert(declared_order(v@, all.take(k + 1)).map_values(|x: ReadingInfo| x.spec_variant())
                =~= declared_order(v@, all.take(k as int)).map_values(|x: ReadingInfo| x.spec_variant()).push(
                x.spec_variant(),
            ));
            assert(out@.map_values(|t: String| t@) =~= out@.drop_last().map_values(|t: String| t@).push(
                out@.last()@,
            ));
        }
        k = k + 1;
    }
    assert(all.take(5) =~= all);
    out
}

/// The names of the parts of speech which a set holds, in declaration order.
fn pos_items(v: &Vec<PartOfSpeech>) -> (r: Vec<String>)
    ensures
        r@.map_values(|t: String| t@) == declared_order(v@, pos_declared()).map_values(
            |x: PartOfSpeech| x.spec_variant(),
        ),
{
    let ghost all = pos_declared();
    let mut out: Vec<String> = Vec::new();
    let mut k: usize = 0;
    while k < 92
        invariant
            k <= 92,
            all == pos_declared(),
            out@.map_values(|t: String| t@) == declared_order(v@, all.take(k as int)).map_values(
                |x: PartOfSpeech| x.spec_variant(),
            ),
        decreases 92 - k,
    {
        let x = pos_at_exec(k);
        assert(all.take(k + 1).drop_last() =~= all.take(k as int));
        assert(all.take(k + 1).last() == x);
        if has_pos(v, x) {
            out.push(String::from_str(x.variant()));
            assert(declared_order(v@, all.take(k + 1)).map_values(|x: PartOfSpeech| x.spec_variant())
                =~= declared_order(v@, all.take(k as int)).map_values(|x: PartOfSpeech| x.spec_variant()).push(
                x.spec_variant(),
            ));
            assert(out@.map_values(|t: String| t@) =~= out@.drop_last().map_values(|t: String| t@).push(
                out@.last()@,
            ));
        }
        k = k + 1;
    }
    assert(all.take(92) =~= all);
    out
}

/// The names of the kinds of usage which a set holds, in declaration order.
fn misc_items(v: &Vec<Miscellaneous>) -> (r: Vec<String>)
    ensures
        r@.map_values(|t: String| t@) == declared_order(v@, misc_declared()).map_values(
            |x: Miscellaneous| x.spec_variant(),
        ),
{
    let ghost all = misc_declared();
    let mut out: Vec<String> = Vec::new();
    let mut k: usize = 0;
    while k < 55
        invariant
            k <= 55,
            all == misc_declared(),
            out@.map_values(|t: String| t@) == declared_order(v@, all.take(k as int)).map_values(
                |x: Miscellaneous| x.spec_variant(),
            ),
        decreases 55 - k,
    {
        let x = misc_at_exec(k);
        assert(all.take(k + 1).drop_last() =~= all.take(k as int));
        assert(all.take(k + 1).last() == x);
        if has_misc(v, x) {
            out.push(String::from_str(x.variant()));
            assert(declared_order(v@, all.take(k + 1)).map_values(|x: Miscellaneous| x.spec_variant())
                =~= declared_order(v@, all.take(k as int)).map_values(|x: Miscellaneous| x.spec_variant()).push(
                x.spec_variant(),
            ));
            assert(out@.map_values(|t: String| t@) =~= out@.drop_last().map_values(|t: String| t@).push(
                out@.last()@,
            ));
        }
        k = k + 1;
    }
    assert(all.take(55) =~= all);
    out
}

/// The names of the dialects which a set holds, in declaration order.
fn dialect_items(v: &Vec<Dialect>) -> (r: Vec<String>)
    ensures
        r@.map_values(|t: String| t@) == declared_order(v@, dialect_declared()).map_values(
            |x: Dialect| x.spec_variant(),
        ),
{
    let ghost all = dialect_declared();
    let mut out: Vec<String> = Vec::new();
    let mut k: usize = 0;
    while k < 12
        invariant
            k <= 12,
            all == dialect_declared(),
            out@.map_values(|t: String| t@) == declared_order(v@, all.take(k as int)).map_values(
                |x: Dialect| x.spec_variant(),
            ),
        decreases 12 - k,
    {
        let x = dialect_at_exec(k);
        assert(all.take(k + 1).drop_last() =~= all.take(k as int));
        assert(all.take(k + 1).last() == x);
        if has_dialect(v, x) {
            out.push(String::from_str(x.variant()));
            assert(declared_order(v@, all.take(k + 1)).map_values(|x: Dialect| x.spec_variant())
                =~= declared_order(v@, all.take(k as int)).map_values(|x: Dialect| x.spec_variant()).push(
                x.spec_variant(),
            ));
            assert(out@.map_values(|t: String| t@) =~= out@.drop_last().map_values(|t: String| t@).push(
                out@.last()@,
            ));
        }
        k = k + 1;
    }
    assert(all.take(12) =~= all);
    out
}

/// The names of the fields which a set holds, in declaration order.
fn field_items(v: &Vec<Field>) -> (r: Vec<String>)
    ensures
        r@.map_values(|t: String| t@) == declared_order(v@, field_declared()).map_values(
            |x: Field| x.spec_variant(),
        ),
{
    let ghost all = field_declared();
    let mut out: Vec<String> = Vec::new();
    let mut k: usize = 0;
    while k < 93
        invariant
            k <= 93,
            all == field_declared(),
            out@.map_values(|t: String| t@) == declared_order(v@, all.take(k as int)).map_values(
                |x: Field| x.spec_variant(),
            ),
        decreases 93 - k,
    {
        let x = field_at_exec(k);
        assert(all.take(k + 1).drop_last() =~= all.take(k as int));
        assert(all.take(k + 1).last() == x);
        if has_field(v, x) {
            out.push(String::from_str(x.variant()));
            assert(declared_order(v@, all.take(k + 1)).map_values(|x: Field| x.spec_variant())
                =~= declared_order(v@, all.take(k as int)).map_values(|x: Field| x.spec_variant()).push(
                x.spec_variant(),
            ));
            assert(out@.map_values(|t: String| t@) =~= out@.drop_last().map_values(|t: String| t@).push(
                out@.last()@,
            ));
        }
        k = k + 1;
    }
    assert(all.take(93) =~= all);
    out
}

/// Append a field of a debug form.
fn append_field(s: &mut String, name: &str, value: &str)
    ensures
        final(s)@ == old(s)@ + field(name@, value@),
{
    s.append(name);
    s.append(": ");
    s.append(value);
    s.append(", ");
}

/// The debug form of a list of items.
fn list_of(items: &Vec<String>) -> (r: String)
    ensures
        r@ == debug_list(items@.map_values(|t: String| t@)),
{
    let mut v = String::new();
    append_list(&mut v, items, false);
    v
}

/// The debug form of a set of items.
fn set_of(items: &Vec<String>) -> (r: String)
    ensures
        r@ == debug_set(items@.map_values(|t: String| t@)),
{
    let mut v = String::new();
    append_list(&mut v, items, true);
    v
}

impl<'a> KanjiElement<'a> {
    /// Debug the kanji element, while avoiding formatting elements which
    /// are not defined.
    pub fn debug_sparse(&self) -> (r: String)
        ensures
            r@ == kanji_element_debug(*self),
    {
        let mut s = String::new();
        s.append("KanjiElement { ");
        let text = debug_str(self.text);
        append_field(&mut s, "text", text.as_str());
        if self.priority.len() > 0 {
            let v = list_of(&priority_items(&self.priority));
            append_field(&mut s, "priority", v.as_str());
        }
        if self.info.len() > 0 {
            let v = set_of(&kanji_info_items(&self.info));
            append_field(&mut s, "info", v.as_str());
        }
        s.append(".. }");
        s
    }
}

impl<'a> ReadingElement<'a> {
    /// Debug the reading element, while avoiding formatting elements which
    /// are not defined.
    pub fn debug_sparse(&self) -> (r: String)
        ensures
            r@ == reading_element_debug(*self),
    {
        let mut s = String::new();
        s.append("ReadingElement { ");
        let text = debug_str(self.text);
        append_field(&mut s, "text", text.as_str());
        if self.no_kanji {
            append_field(&mut s, "no_kanji", "true");
        }
        if self.reading_string.len() > 0 {
            let v = set_of(&str_items(&self.reading_string));
            append_field(&mut s, "reading_string", v.as_str());
        }
        if self.priority.len() > 0 {
            let v = list_of(&priority_items(&self.priority));
            append_field(&mut s, "priority", v.as_str());
        }
        if self.info.len() > 0 {
            let v = set_of(&reading_info_items(&self.info));
            append_field(&mut s, "info", v.as_str());
        }
        s.append(".. }");
        s
    }
}

/// The sparse debug forms of source languages.
fn source_language_items(v: &Vec<SourceLanguage>) -> (r: Vec<String>)
    ensures
        r@.map_values(|t: String| t@) == v@.map_values(|l: SourceLanguage| l.spec_debug_sparse()),
{
    let mut out: Vec<String> = Vec::new();
    let mut i: usize = 0;
    while i < v.len()
        invariant
            i <= v@.len(),
            out@.map_values(|t: String| t@) == v@.take(i as int).map_values(
                |l: SourceLanguage| l.spec_debug_sparse(),
            ),
        decreases v@.len() - i,
    {
        out.push(v[i].debug_sparse());
        assert(v@.take(i + 1).map_values(|l: SourceLanguage| l.spec_debug_sparse()) =~= v@.take(
            i as int,
        ).map_values(|l: SourceLanguage| l.spec_debug_sparse()).push(v@[i as int].spec_debug_sparse()));
        assert(out@.map_values(|t: String| t@) =~= out@.drop_last().map_values(|t: String| t@).push(
            out@.last()@,
        ));
        i = i + 1;
    }
    assert(v@.take(v@.len() as int) =~= v@);
    out
}

impl<'a> Sense<'a> {
    /// Debug the sense element, while avoiding formatting elements which
    /// are not defined.
    pub fn debug_sparse(&self) -> (r: String)
        ensures
            r@ == sense_debug(*self),
    {
        let mut s = String::new();
        s.append("Sense { ");
        if self.pos.len() > 0 {
            let v = set_of(&pos_items(&self.pos));
            append_field(&mut s, "pos", v.as_str());
        }
        if self.xref.len() > 0 {
            let v = list_of(&str_items(&self.xref));
            append_field(&mut s, "xref", v.as_str());
        }
        match self.info {
            Some(i) => {
                let v = debug_str(i);
                append_field(&mut s, "info", v.as_str());
            },
            None => {},
        }
        if self.misc.len() > 0 {
            let v = set_of(&misc_items(&self.misc));
            append_field(&mut s, "misc", v.as_str());
        }
        if self.dialect.len() > 0 {
            let v = set_of(&dialect_items(&self.dialect));
            append_field(&mut s, "dialect", v.as_str());
        }
        if self.stagk.len() > 0 {
            let v = list_of(&str_items(&self.stagk));
            append_field(&mut s, "stagk", v.as_str());
        }
        if self.stagr.len() > 0 {
            let v = list_of(&str_items(&self.stagr));
            append_field(&mut s, "stagr", v.as_str());
        }
        if self.field.len() > 0 {
            let v = set_of(&field_items(&self.field));
            append_field(&mut s, "fields", v.as_str());
        }
        if self.source_language.len() > 0 {
            let v = list_of(&source_language_items(&self.source_language));
            append_field(&mut s, "source_language", v.as_str());
        }
        if self.antonym.len() > 0 {
            let v = list_of(&str_items(&self.antonym));
            append_field(&mut s, "antonym", v.as_str());
        }
        s.append(".. }");
        s
    }
}

} // verus!
