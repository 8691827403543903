//! A set of forms, stored as a bit set.

use vstd::prelude::*;

use super::form::{form_at, form_index, lemma_form_at, lemma_form_index, Form};

verus! {

/// The bit which stands for a form.
pub open spec fn form_bit(f: Form) -> u32 {
    1u32 << (form_index(f) as u32)
}

/// The bits standing for a sequence of forms.
pub open spec fn bits_of(forms: Seq<Form>) -> u32
    decreases forms.len(),
{
    if forms.len() == 0 {
        0
    } else {
        bits_of(forms.drop_last()) | form_bit(forms.last())
    }
}

/// The bit mask holding every form.
pub const ALL_FORMS: u32 = 0x7fff_ffff;

/// An inflection: the set of forms that it combines.
#[derive(Debug, Clone, Copy, PartialEq, Eq, Structural, Hash, PartialOrd, Ord)]
pub struct Inflection {
    form: u32,
}

/// The inflection combining exactly the given forms.
pub closed spec fn inflection_of(forms: Seq<Form>) -> Inflection {
    Inflection { form: bits_of(forms) }
}

proof fn lemma_bit_set(x: u32, i: u32, j: u32)
    requires
        i < 31,
        j < 31,
    ensures
        (x | (1u32 << i)) & (1u32 << j) != 0 <==> (x & (1u32 << j) != 0 || i == j),
        (x & !(1u32 << i)) & (1u32 << j) != 0 <==> (x & (1u32 << j) != 0 && i != j),
        x <= ALL_FORMS ==> (x | (1u32 << i)) <= ALL_FORMS,
        x <= ALL_FORMS ==> (x & !(1u32 << i)) <= ALL_FORMS,
{
    assert((x | (1u32 << i)) & (1u32 << j) != 0 <==> (x & (1u32 << j) != 0 || i == j))
        by (bit_vector)
        requires
            i < 31,
            j < 31,
    ;
    assert((x & !(1u32 << i)) & (1u32 << j) != 0 <==> (x & (1u32 << j) != 0 && i != j))
        by (bit_vector)
        requires
            i < 31,
            j < 31,
    ;
    assert(x <= 0x7fff_ffff ==> (x | (1u32 << i)) <= 0x7fff_ffff) by (bit_vector)
        requires
            i < 31,
    ;
    assert(x <= 0x7fff_ffff ==> (x & !(1u32 << i)) <= 0x7fff_ffff) by (bit_vector);
}

proof fn lemma_bit_ops(a: u32, b: u32, j: u32)
    requires
        j < 31,
    ensures
        (a | b) & (1u32 << j) != 0 <==> (a & (1u32 << j) != 0 || b & (1u32 << j) != 0),
        (a ^ b) & (1u32 << j) != 0 <==> (a & (1u32 << j) != 0) != (b & (1u32 << j) != 0),
        (a & b) & (1u32 << j) != 0 <==> (a & (1u32 << j) != 0 && b & (1u32 << j) != 0),
        a <= ALL_FORMS && b <= ALL_FORMS ==> (a | b) <= ALL_FORMS,
        a <= ALL_FORMS && b <= ALL_FORMS ==> (a ^ b) <= ALL_FORMS,
        a <= ALL_FORMS ==> (a & b) <= ALL_FORMS,
{
    assert((a | b) & (1u32 << j) != 0 <==> (a & (1u32 << j) != 0 || b & (1u32 << j) != 0))
        by (bit_vector);
    assert((a ^ b) & (1u32 << j) != 0 <==> (a & (1u32 << j) != 0) != (b & (1u32 << j) != 0))
        by (bit_vector);
    assert((a & b) & (1u32 << j) != 0 <==> (a & (1u32 << j) != 0 && b & (1u32 << j) != 0))
        by (bit_vector);
    assert(a <= 0x7fff_ffff && b <= 0x7fff_ffff ==> (a | b) <= 0x7fff_ffff) by (bit_vector);
    assert(a <= 0x7fff_ffff && b <= 0x7fff_ffff ==> (a ^ b) <= 0x7fff_ffff) by (bit_vector);
    assert(a <= 0x7fff_ffff ==> (a & b) <= 0x7fff_ffff) by (bit_vector);
}

/// A value with no bit below `j` set either has the bit `j` set or has no
/// bit below `j + 1` set.
proof fn lemma_low_bits_step(x: u32, j: u32)
    requires
        j < 31,
        x & (((1u32 << j) - 1) as u32) == 0,
        x & (1u32 << j) == 0,
    ensures
        x & (((1u32 << (j + 1) as u32) - 1) as u32) == 0,
{
    assert(x & (((1u32 << j) - 1) as u32) == 0 && x & (1u32 << j) == 0 ==> x & (((1u32 << (
    j + 1) as u32) - 1) as u32) == 0) by (bit_vector)
        requires
            j < 31,
    ;
}

/// A non-empty bit set below `ALL_FORMS` has some form's bit set at or
/// above `j`, when none is set below `j`.
proof fn lemma_some_bit(x: u32, j: u32) -> (k: u32)
    requires
        j <= 31,
        0 < x <= ALL_FORMS,
        x & (((1u32 << j) - 1) as u32) == 0,
    ensures
        j <= k < 31,
        x & (1u32 << k) != 0,
    decreases 31 - j,
{
    if j == 31 {
        assert(x <= 0x7fff_ffff && x & (((1u32 << 31u32) - 1) as u32) == 0 ==> x == 0)
            by (bit_vector);
        assert(false);
        j
    } else if x & (1u32 << j) != 0 {
        j
    } else {
        lemma_low_bits_step(x, j);
        lemma_some_bit(x, (j + 1) as u32)
    }
}

impl Inflection {
    #[verifier::type_invariant]
    spec fn only_forms(self) -> bool {
        self.form <= ALL_FORMS
    }

    /// The forms of the inflection.
    pub closed spec fn forms(self) -> Set<Form> {
        Set::new(|f: Form| self.form & form_bit(f) != 0)
    }

    /// The number by which inflections are ordered.
    pub closed spec fn raw(self) -> u32 {
        self.form
    }

    /// The union of two inflections.
    pub closed spec fn union(self, other: Inflection) -> Inflection {
        Inflection { form: self.form | other.form }
    }

    /// Construct an inflection from the given forms.
    pub fn new(forms: &[Form]) -> (r: Inflection)
        ensures
            r == inflection_of(forms@),
            r.forms() == forms@.to_set(),
    {
        let mut form: u32 = 0;
        let mut i: usize = 0;
        while i < forms.len()
            invariant
                i <= forms@.len(),
                form == bits_of(forms@.subrange(0, i as int)),
                form <= ALL_FORMS,
            decreases forms@.len() - i,
        {
            let f = forms[i];
            proof {
                lemma_bit_set(form, form_index(f) as u32, 0);
                assert(forms@.subrange(0, i + 1).drop_last() =~= forms@.subrange(0, i as int));
            }
            form = form | (1u32 << f.index());
            i = i + 1;
        }
        assert(forms@.subrange(0, forms@.len() as int) =~= forms@);
        proof {
            lemma_inflection_of(forms@);
        }
        Inflection { form }
    }

    /// Construct an inflection with all forms set.
    pub fn all() -> (r: Inflection)
        ensures
            r.forms() == Set::<Form>::full(),
    {
        let all = Form::all();
        let mut form: u32 = 0;
        let mut i: usize = 0;
        assert forall|f: Form| (0u32 & #[trigger] form_bit(f) != 0) <==> form_index(f) < 0 by {
            let b = form_bit(f);
            assert(0u32 & b == 0) by (bit_vector);
            lemma_form_index(f);
        }
        while i < 31
            invariant
                i <= 31,
                forall|k: int| 0 <= k < 31 ==> all@[k] == form_at(k),
                form <= ALL_FORMS,
                forall|f: Form| (form & #[trigger] form_bit(f) != 0) <==> form_index(f) < i,
            decreases 31 - i,
        {
            let f = all[i];
            proof {
                lemma_form_at(i as int);
                assert forall|g: Form| (((form | (1u32 << (i as u32))) & #[trigger] form_bit(g))
                    != 0) <==> form_index(g) < i + 1 by {
                    lemma_form_index(g);
                    lemma_bit_set(form, i as u32, form_index(g) as u32);
                }
                lemma_bit_set(form, i as u32, 0);
            }
            form = form | (1u32 << f.index());
            i = i + 1;
        }
        let r = Inflection { form };
        assert forall|f: Form| r.forms().contains(f) by {
            lemma_form_index(f);
        }
        assert(r.forms() =~= Set::<Form>::full());
        r
    }

    /// Toggle the given form.
    pub fn toggle(&mut self, form: Form)
        ensures
            final(self).forms() == toggled(old(self).forms(), form),
    {
        proof {
            use_type_invariant(&*self);
        }
        let bit = 1u32 << form.index();
        let before = self.form;
        let after = if self.contains(form) {
            before & !bit
        } else {
            before | bit
        };
        proof {
            lemma_bit_set(before, form_index(form) as u32, 0);
            assert forall|g: Form| #[trigger] form_bit(g) == form_bit(g) implies ((after & form_bit(
                g,
            )) != 0) == (if old(self).forms().contains(form) {
                old(self).forms().remove(form)
            } else {
                old(self).forms().insert(form)
            }).contains(g) by {
                lemma_form_index(g);
                lemma_form_index(form);
                lemma_bit_set(before, form_index(form) as u32, form_index(g) as u32);
            }
        }
        self.form = after;
        assert(self.forms() =~= (if old(self).forms().contains(form) {
            old(self).forms().remove(form)
        } else {
            old(self).forms().insert(form)
        }));
    }

    /// Test if the inflection has no forms.
    pub fn is_empty(&self) -> (r: bool)
        ensures
            r == (self.forms() == Set::<Form>::empty()),
    {
        proof {
            use_type_invariant(self);
        }
        let r = self.form == 0;
        proof {
            if r {
                assert forall|f: Form| !self.forms().contains(f) by {
                    let b = form_bit(f);
                    assert(0u32 & b == 0) by (bit_vector);
                }
                assert(self.forms() =~= Set::<Form>::empty());
            } else {
                let x = self.form;
                assert(x & (((1u32 << 0u32) - 1) as u32) == 0) by (bit_vector);
                let k = lemma_some_bit(x, 0);
                lemma_form_at(k as int);
                assert(self.forms().contains(form_at(k as int)));
            }
        }
        r
    }

    /// Test if the inflection contains the given form.
    pub fn contains(&self, f: Form) -> (r: bool)
        ensures
            r == self.forms().contains(f),
    {
        self.form & (1u32 << f.index()) != 0
    }

    /// The forms of the inflection, in declaration order.
    pub fn iter(&self) -> (r: Vec<Form>)
        ensures
            forall|f: Form| r@.contains(f) <==> self.forms().contains(f),
            forall|i: int, j: int|
                0 <= i < j < r@.len() ==> form_index(#[trigger] r@[i]) < form_index(
                    #[trigger] r@[j],
                ),
    {
        let all = Form::all();
        let mut out: Vec<Form> = Vec::new();
        let mut i: usize = 0;
        while i < 31
            invariant
                i <= 31,
                forall|k: int| 0 <= k < 31 ==> all@[k] == form_at(k),
                forall|f: Form|
                    out@.contains(f) <==> (self.forms().contains(f) && form_index(f) < i),
                forall|a: int, b: int|
                    0 <= a < b < out@.len() ==> form_index(#[trigger] out@[a]) < form_index(
                        #[trigger] out@[b],
                    ),
                forall|a: int| 0 <= a < out@.len() ==> form_index(#[trigger] out@[a]) < i,
            decreases 31 - i,
        {
            let f = all[i];
            proof {
                lemma_form_at(i as int);
            }
            let ghost before = out@;
            if self.contains(f) {
                out.push(f);
                proof {
                    assert forall|g: Form|
                        out@.contains(g) <==> (self.forms().contains(g) && form_index(g) < i
                            + 1) by {
                        lemma_form_index(g);
                        if before.contains(g) {
                            let k = choose|k: int| 0 <= k < before.len() && before[k] == g;
                            assert(out@[k] == g);
                        }
                        if g == f {
                            assert(out@[before.len() as int] == g);
                        }
                        if out@.contains(g) {
                            let k = choose|k: int| 0 <= k < out@.len() && out@[k] == g;
                            if k < before.len() {
                                assert(before[k] == g);
                            }
                        }
                    }
                }
            } else {
                proof {
                    assert forall|g: Form|
                        out@.contains(g) <==> (self.forms().contains(g) && form_index(g) < i
                            + 1) by {
                        lemma_form_index(g);
                    }
                }
            }
            i = i + 1;
        }
        proof {
            assert forall|f: Form| out@.contains(f) <==> self.forms().contains(f) by {
                lemma_form_index(f);
            }
        }
        out
    }

    /// The union of two inflections.
    pub fn bitor(self, rhs: Self) -> (r: Self)
        ensures
            r == self.union(rhs),
            r.forms() == self.forms().union(rhs.forms()),
    {
        proof {
            use_type_invariant(&self);
            use_type_invariant(&rhs);
            lemma_bit_ops(self.form, rhs.form, 0);
        }
        let r = Inflection { form: self.form | rhs.form };
        proof {
            assert forall|f: Form| #[trigger] r.forms().contains(f) == self.forms().union(
                rhs.forms(),
            ).contains(f) by {
                lemma_form_index(f);
                lemma_bit_ops(self.form, rhs.form, form_index(f) as u32);
            }
            assert(r.forms() =~= self.forms().union(rhs.forms()));
        }
        r
    }

    /// The forms in exactly one of two inflections.
    pub fn bitxor(self, rhs: Self) -> (r: Self)
        ensures
            r.forms() == self.forms().difference(rhs.forms()).union(
                rhs.forms().difference(self.forms()),
            ),
    {
        proof {
            use_type_invariant(&self);
            use_type_invariant(&rhs);
            lemma_bit_ops(self.form, rhs.form, 0);
        }
        let r = Inflection { form: self.form ^ rhs.form };
        proof {
            assert forall|f: Form| #[trigger] r.forms().contains(f) == self.forms().difference(
                rhs.forms(),
            ).union(rhs.forms().difference(self.forms())).contains(f) by {
                lemma_form_index(f);
                lemma_bit_ops(self.form, rhs.form, form_index(f) as u32);
            }
            assert(r.forms() =~= self.forms().difference(rhs.forms()).union(
                rhs.forms().difference(self.forms()),
            ));
        }
        r
    }

    /// Keep only the forms which are also in `rhs`.
    pub fn bitand_assign(&mut self, rhs: Self)
        ensures
            final(self).forms() == old(self).forms().intersect(rhs.forms()),
    {
        proof {
            use_type_invariant(&*self);
            use_type_invariant(&rhs);
            lemma_bit_ops(self.form, rhs.form, 0);
        }
        let before = self.form;
        proof {
            assert forall|f: Form| #[trigger] form_bit(f) == form_bit(f) implies ((before
                & rhs.form) & form_bit(f) != 0) == old(self).forms().intersect(
                rhs.forms(),
            ).contains(f) by {
                lemma_form_index(f);
                lemma_bit_ops(before, rhs.form, form_index(f) as u32);
            }
        }
        self.form = before & rhs.form;
        assert(self.forms() =~= old(self).forms().intersect(rhs.forms()));
    }

    /// The number by which inflections are ordered.
    pub fn raw_value(&self) -> (r: u32)
        ensures
            r == self.raw(),
    {
        self.form
    }
}

impl Default for Inflection {
    /// The inflection with no forms.
    fn default() -> (r: Inflection)
        ensures
            r.forms() == Set::<Form>::empty(),
    {
        let r = Inflection { form: 0 };
        assert forall|f: Form| !r.forms().contains(f) by {
            let b = form_bit(f);
            assert(0u32 & b == 0) by (bit_vector);
        }
        assert(r.forms() =~= Set::<Form>::empty());
        r
    }
}

/// A set of forms with one form toggled: removed if present, else added.
pub open spec fn toggled(forms: Set<Form>, f: Form) -> Set<Form> {
    if forms.contains(f) {
        forms.remove(f)
    } else {
        forms.insert(f)
    }
}

/// Toggling a form twice leaves the forms as they were.
pub proof fn lemma_toggle_twice(forms: Set<Form>, f: Form)
    ensures
        toggled(toggled(forms, f), f) == forms,
{
    assert(toggled(toggled(forms, f), f) =~= forms);
}

/// Inflections are equal when they are ordered alike.
pub proof fn lemma_raw_injective(a: Inflection, b: Inflection)
    requires
        a.raw() == b.raw(),
    ensures
        a == b,
{
}

/// Helper to construct a particular inflection from its forms.
pub fn inflect(forms: &[Form]) -> (r: Inflection)
    ensures
        r == inflection_of(forms@),
        r.forms() == forms@.to_set(),
{
    Inflection::new(forms)
}

/// The inflection made of a sequence of forms holds exactly those forms.
pub proof fn lemma_inflection_of(forms: Seq<Form>)
    ensures
        inflection_of(forms).forms() == forms.to_set(),
        bits_of(forms) <= ALL_FORMS,
    decreases forms.len(),
{
    if forms.len() == 0 {
        assert forall|f: Form| !inflection_of(forms).forms().contains(f) by {
            let b = form_bit(f);
            assert(0u32 & b == 0) by (bit_vector);
        }
        assert(inflection_of(forms).forms() =~= forms.to_set());
    } else {
        let init = forms.drop_last();
        lemma_inflection_of(init);
        lemma_form_index(forms.last());
        lemma_bit_set(bits_of(init), form_index(forms.last()) as u32, 0);
        assert(forms =~= init.push(forms.last()));
        assert forall|f: Form| #[trigger] inflection_of(forms).forms().contains(f)
            == forms.to_set().contains(f) by {
            let b = bits_of(init);
            let i = form_index(forms.last()) as u32;
            let j = form_index(f) as u32;
            lemma_form_index(f);
            lemma_bit_set(b, i, j);
            assert(bits_of(forms) == b | (1u32 << i));
            assert(inflection_of(init).forms().contains(f) == (b & (1u32 << j) != 0));
            assert((i == j) == (f == forms.last()));
            if init.contains(f) {
                let k = choose|k: int| 0 <= k < init.len() && init[k] == f;
                assert(forms[k] == f);
            }
            if f == forms.last() {
                assert(forms[forms.len() - 1] == f);
            }
            if forms.contains(f) && f != forms.last() {
                let k = choose|k: int| 0 <= k < forms.len() && forms[k] == f;
                assert(init[k] == f);
            }
        }
        assert(inflection_of(forms).forms() =~= forms.to_set());
    }
}

/// A union holds the forms of both inflections.
pub proof fn lemma_union_forms(a: Inflection, b: Inflection, f: Form)
    ensures
        a.union(b).forms().contains(f) <==> (a.forms().contains(f) || b.forms().contains(f)),
{
    lemma_form_index(f);
    lemma_bit_ops(a.form, b.form, form_index(f) as u32);
}

/// The inflection of a sequence of forms holds a form exactly when the
/// sequence does.
pub proof fn lemma_inflection_of_contains(forms: Seq<Form>, f: Form)
    ensures
        inflection_of(forms).forms().contains(f) <==> forms.contains(f),
{
    lemma_inflection_of(forms);
}

/// Inflections which differ in a form are different.
pub proof fn lemma_forms_differ(a: Inflection, b: Inflection, f: Form)
    requires
        a.forms().contains(f) != b.forms().contains(f),
    ensures
        a != b,
{
}

} // verus!
