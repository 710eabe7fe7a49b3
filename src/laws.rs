//! What holds of `IString` across its constructors, comparisons, `clone`
//! and `hash`.

use crate::string::IString;
use vstd::prelude::*;
use vstd::std_specs::cmp::PartialEqSpec;
use vstd::std_specs::convert::FromSpec;

verus! {

/// A value made from a literal compares equal to that literal.
pub proof fn lemma_literal_eq(s: &'static str)
    ensures
        <IString as PartialEqSpec<&str>>::eq_spec(
            &<IString as FromSpec<&'static str>>::from_spec(s),
            &s,
        ),
        <IString as PartialEqSpec<str>>::eq_spec(
            &<IString as FromSpec<&'static str>>::from_spec(s),
            s,
        ),
{
}

/// A value made from an owned string compares equal to that string, and to
/// a reference to it.
pub proof fn lemma_owned_eq(s: String, r: IString)
    requires
        call_ensures(<IString as From<String>>::from, (s,), r),
    ensures
        <IString as PartialEqSpec<String>>::eq_spec(&r, &s),
        <IString as PartialEqSpec<&String>>::eq_spec(&r, &&s),
{
}

/// Two values with the same text are equal, both ways round, whichever
/// variant holds each of them.
pub proof fn lemma_eq_ignores_variant(a: IString, b: IString)
    requires
        a@ == b@,
    ensures
        a.eq_spec(&b),
        b.eq_spec(&a),
{
}

/// A clone holds the same text as the value it was made from, and compares
/// equal to it.
pub proof fn lemma_clone_keeps_text(a: IString, c: IString)
    requires
        call_ensures(<IString as Clone>::clone, (&a,), c),
    ensures
        c@ == a@,
        c.eq_spec(&a),
        a.eq_spec(&c),
{
}

/// The default value compares equal to the empty literal.
pub proof fn lemma_default_is_empty(d: IString)
    requires
        call_ensures(<IString as Default>::default, (), d),
    ensures
        <IString as PartialEqSpec<&str>>::eq_spec(&d, &""),
{
    reveal_strlit("");
    assert(""@ == Seq::<char>::empty());
}

/// Equal values hash alike: `hash` feeds only the text of `as_str` to the
/// hasher, and equal values have the same text.
pub proof fn lemma_eq_hashes_same_text(a: IString, b: IString)
    requires
        a.eq_spec(&b),
    ensures
        a.hashed_text() == b.hashed_text(),
{
}

} // verus!
