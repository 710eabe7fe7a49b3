use std::rc::Rc;
use vstd::prelude::*;
use yew::virtual_dom::AttrValue;

verus! {

/// Immutable text, held either as a `'static` slice or as a shared buffer.
#[derive(Debug)]
pub enum IString {
    Static(&'static str),
    Rc(Rc<str>),
}

impl View for IString {
    type V = Seq<char>;

    open spec fn view(&self) -> Seq<char> {
        match self {
            IString::Static(s) => s@,
            IString::Rc(s) => (**s)@,
        }
    }
}

/// Relies on `<str as PartialEq>::eq`: two slices are equal exactly when
/// they hold the same characters.
#[verifier::external_body]
fn str_eq(a: &str, b: &str) -> (r: bool)
    ensures
        r == (a@ == b@),
{
    a == b
}

impl IString {
    /// The text, as a slice borrowed from this value.
    pub fn as_str(&self) -> (r: &str)
        ensures
            r@ == self@,
    {
        match self {
            IString::Static(s) => s,
            IString::Rc(s) => &**s,
        }
    }

    /// A new owned copy of the text.
    pub fn to_string(&self) -> (r: String)
        ensures
            r@ == self@,
    {
        self.as_str().to_owned()
    }
}

impl Default for IString {
    fn default() -> (r: IString)
        ensures
            r == IString::Static(""),
            r@ == Seq::<char>::empty(),
    {
        proof {
            reveal_strlit("");
        }
        IString::Static("")
    }
}

impl PartialEq for IString {
    fn eq(&self, other: &IString) -> (r: bool)
        ensures
            r == (self@ == other@),
    {
        str_eq(self.as_str(), other.as_str())
    }
}

impl vstd::std_specs::cmp::PartialEqSpecImpl for IString {
    open spec fn obeys_eq_spec() -> bool {
        true
    }

    open spec fn eq_spec(&self, other: &IString) -> bool {
        self@ == other@
    }
}

impl Eq for IString {}

impl PartialEq<str> for IString {
    fn eq(&self, other: &str) -> (r: bool)
        ensures
            r == (self@ == other@),
    {
        str_eq(self.as_str(), other)
    }
}

impl vstd::std_specs::cmp::PartialEqSpecImpl<str> for IString {
    open spec fn obeys_eq_spec() -> bool {
        true
    }

    open spec fn eq_spec(&self, other: &str) -> bool {
        self@ == other@
    }
}


impl PartialEq<&str> for IString {
    fn eq(&self, other: &&str) -> (r: bool)
        ensures
            r == (self@ == (*other)@),
    {
        str_eq(self.as_str(), *other)
    }
}

impl vstd::std_specs::cmp::PartialEqSpecImpl<&str> for IString {
    open spec fn obeys_eq_spec() -> bool {
        true
    }

    open spec fn eq_spec(&self, other: &&str) -> bool {
        self@ == (*other)@
    }
}

impl PartialEq<String> for IString {
    fn eq(&self, other: &String) -> (r: bool)
        ensures
            r == (self@ == other@),
    {
        str_eq(self.as_str(), other.as_str())
    }
}

impl vstd::std_specs::cmp::PartialEqSpecImpl<String> for IString {
    open spec fn obeys_eq_spec() -> bool {
        true
    }

    open spec fn eq_spec(&self, other: &String) -> bool {
        self@ == other@
    }
}

impl PartialEq<&String> for IString {
    fn eq(&self, other: &&String) -> (r: bool)
        ensures
            r == (self@ == (*other)@),
    {
        str_eq(self.as_str(), (*other).as_str())
    }
}

impl vstd::std_specs::cmp::PartialEqSpecImpl<&String> for IString {
    open spec fn obeys_eq_spec() -> bool {
        true
    }

    open spec fn eq_spec(&self, other: &&String) -> bool {
        self@ == (*other)@
    }
}

/// Relies on `<Rc<str> as From<String>>::from`: a new shared buffer that
/// holds a copy of the characters of `s`.
#[verifier::external_body]
fn rc_from_string(s: String) -> (r: Rc<str>)
    ensures
        (*r)@ == s@,
{
    Rc::from(s)
}

impl From<&'static str> for IString {
    fn from(s: &'static str) -> (r: IString)
        ensures
            r == IString::Static(s),
    {
        IString::Static(s)
    }
}

impl vstd::std_specs::convert::FromSpecImpl<&'static str> for IString {
    open spec fn obeys_from_spec() -> bool {
        true
    }

    open spec fn from_spec(s: &'static str) -> IString {
        IString::Static(s)
    }
}

impl From<String> for IString {
    fn from(s: String) -> (r: IString)
        ensures
            r is Rc,
            r@ == s@,
    {
        IString::Rc(rc_from_string(s))
    }
}

/// The buffer that `from` allocates is a new one, which no spec value names:
/// `from` states its content instead.
impl vstd::std_specs::convert::FromSpecImpl<String> for IString {
    open spec fn obeys_from_spec() -> bool {
        false
    }

    open spec fn from_spec(s: String) -> IString {
        arbitrary()
    }
}

impl From<Rc<str>> for IString {
    fn from(s: Rc<str>) -> (r: IString)
        ensures
            r == IString::Rc(s),
    {
        IString::Rc(s)
    }
}

impl vstd::std_specs::convert::FromSpecImpl<Rc<str>> for IString {
    open spec fn obeys_from_spec() -> bool {
        true
    }

    open spec fn from_spec(s: Rc<str>) -> IString {
        IString::Rc(s)
    }
}


/// Relies on `<Rc<str> as Clone>::clone`: a new handle on the same buffer.
#[verifier::external_body]
fn share(s: &Rc<str>) -> (r: Rc<str>)
    ensures
        r == *s,
{
    Rc::clone(s)
}

impl Clone for IString {
    /// A new handle on the same text: the slice is copied, or the shared
    /// buffer gains one more holder; the characters are never copied.
    fn clone(&self) -> (r: IString)
        ensures
            r == *self,
    {
        match self {
            IString::Static(s) => IString::Static(s),
            IString::Rc(s) => IString::Rc(share(s)),
        }
    }
}

/// The attribute value of yew, itself a `'static` slice or a shared buffer.
#[verifier::external_type_specification]
pub struct ExAttrValue(AttrValue);

impl From<AttrValue> for IString {
    /// Takes over the attribute value's slice or buffer as it is.
    fn from(v: AttrValue) -> (r: IString)
        ensures
            r == IString::from_attr_spec(v),
    {
        match v {
            AttrValue::Static(s) => IString::Static(s),
            AttrValue::Rc(s) => IString::Rc(s),
        }
    }
}

impl vstd::std_specs::convert::FromSpecImpl<AttrValue> for IString {
    open spec fn obeys_from_spec() -> bool {
        true
    }

    open spec fn from_spec(v: AttrValue) -> IString {
        IString::from_attr_spec(v)
    }
}

impl IString {
    /// The variant of `v` with the same slice or buffer.
    pub open spec fn from_attr_spec(v: AttrValue) -> IString {
        match v {
            AttrValue::Static(s) => IString::Static(s),
            AttrValue::Rc(s) => IString::Rc(s),
        }
    }

    /// The attribute value of the same variant, on the same slice or buffer.
    pub open spec fn to_attr_spec(self) -> AttrValue {
        match self {
            IString::Static(s) => AttrValue::Static(s),
            IString::Rc(s) => AttrValue::Rc(s),
        }
    }

    /// This text as a yew attribute value, without copying its characters.
    pub fn to_attr_value(&self) -> (r: AttrValue)
        ensures
            r == self.to_attr_spec(),
    {
        match self {
            IString::Static(s) => AttrValue::Static(s),
            IString::Rc(s) => AttrValue::Rc(share(s)),
        }
    }
}


/// Relies on `<str as Hash>::hash`: feeds the characters of `s`, and nothing
/// else, to `state`.
#[verifier::external_body]
fn hash_text<H: core::hash::Hasher>(s: &str, state: &mut H) {
    core::hash::Hash::hash(s, state)
}

impl IString {
    /// What `hash` hands to the hasher: the text of `as_str`, whatever the
    /// variant.
    pub open spec fn hashed_text(&self) -> Seq<char> {
        self@
    }
}

impl core::hash::Hash for IString {
    /// Hashes the text alone, so that both variants of one text hash alike.
    fn hash<H: core::hash::Hasher>(&self, state: &mut H) {
        hash_text(self.as_str(), state)
    }
}

} // verus!
