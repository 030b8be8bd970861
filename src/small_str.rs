//! The shared string type.
use crate::lex::{
    compare_bytes, lemma_lex_antisymmetric, lemma_lex_equal, lemma_lex_transitive, lex_cmp,
};
use std::cmp::Ordering;
use std::sync::Arc;
use vstd::prelude::*;
use vstd::std_specs::cmp::{PartialEqSpec, PartialOrdSpec};
use vstd::utf8::{encode_utf8, encode_utf8_decode_utf8};

verus! {

/// Relies on `<Arc<str> as From<&str>>::from`: a new buffer holding a copy of the text.
#[verifier::external_body]
fn arc_from_str(s: &str) -> (r: Arc<str>)
    ensures
        (*r)@ == s@,
{
    Arc::from(s)
}

/// Relies on `<Arc<str> as From<String>>::from`: a buffer holding the string's text.
#[verifier::external_body]
fn arc_from_string(s: String) -> (r: Arc<str>)
    ensures
        (*r)@ == s@,
{
    Arc::from(s)
}

/// Relies on `<Arc<str> as Clone>::clone`: one more owner of the same buffer.
#[verifier::external_body]
fn arc_clone(a: &Arc<str>) -> (r: Arc<str>)
    ensures
        (*r)@ == (**a)@,
{
    Arc::clone(a)
}

/// Relies on `Arc::ptr_eq`: true only when both point to one allocation,
/// which then holds one text.
#[verifier::external_body]
fn arc_ptr_eq(a: &Arc<str>, b: &Arc<str>) -> (r: bool)
    ensures
        r ==> (**a)@ == (**b)@,
{
    Arc::ptr_eq(a, b)
}

/// What `{:?}` renders for a text: the text quoted and escaped as a string
/// literal.
pub uninterp spec fn debug_text_of(s: Seq<char>) -> Seq<char>;

/// Relies on `<str as Debug>::fmt` through `format!`: the rendering depends on
/// the text alone.
#[verifier::external_body]
fn debug_text(s: &str) -> (r: String)
    ensures
        r@ == debug_text_of(s@),
{
    format!("{:?}", s)
}

/// The UTF-8 encoding of a text: the bytes that equality and order look at.
pub open spec fn content_bytes(s: Seq<char>) -> Seq<u8> {
    encode_utf8(s)
}

/// Texts with the same UTF-8 bytes are the same text.
proof fn lemma_bytes_injective(a: Seq<char>, b: Seq<char>)
    ensures
        (content_bytes(a) == content_bytes(b)) <==> (a == b),
{
    encode_utf8_decode_utf8(a);
    encode_utf8_decode_utf8(b);
}

/// String type with O(1) clone: an immutable UTF-8 buffer shared by
/// reference count.
#[derive(Hash, Ord)]
pub struct PlSmallStr(Arc<str>);

impl View for PlSmallStr {
    type V = Seq<char>;

    closed spec fn view(&self) -> Seq<char> {
        (*self.0)@
    }
}

impl PlSmallStr {
    /// The empty string "".
    pub fn const_default() -> (r: Self)
        ensures
            r@ == Seq::<char>::empty(),
    {
        let r = Self::from_static("");
        proof {
            reveal_strlit("");
        }
        assert(r@ =~= Seq::<char>::empty());
        r
    }

    /// Wraps text that lives for the whole process.
    pub fn from_static(s: &'static str) -> (r: Self)
        ensures
            r@ == s@,
    {
        PlSmallStr(arc_from_str(s))
    }

    /// Copies the text into a new shared buffer.
    pub fn from_str(s: &str) -> (r: Self)
        ensures
            r@ == s@,
    {
        PlSmallStr(arc_from_str(s))
    }

    /// Takes over an owned string as the shared buffer.
    pub fn from_string(s: String) -> (r: Self)
        ensures
            r@ == s@,
    {
        PlSmallStr(arc_from_string(s))
    }

    /// The text, borrowed for as long as this value lives.
    pub fn as_str(&self) -> (r: &str)
        ensures
            r@ == self@,
    {
        &*self.0
    }

    /// A fresh, independently owned copy of the text.
    pub fn into_string(self) -> (r: String)
        ensures
            r@ == self@,
    {
        self.as_str().to_owned()
    }

    /// True only when both values own one and the same buffer.
    pub fn shares_buffer_with(&self, other: &Self) -> (r: bool)
        ensures
            r ==> self@ == other@,
    {
        arc_ptr_eq(&self.0, &other.0)
    }

    /// The text as `Display` renders it: the content unchanged.
    pub fn to_display_string(&self) -> (r: String)
        ensures
            r@ == self@,
    {
        self.as_str().to_owned()
    }

    /// The text as `Debug` renders it: a quoted, escaped string literal.
    pub fn to_debug_string(&self) -> (r: String)
        ensures
            r@ == debug_text_of(self@),
    {
        debug_text(self.as_str())
    }

    /// Compares the text with another one, byte by byte.
    pub fn eq_str(&self, other: &str) -> (r: bool)
        ensures
            r == (self@ == other@),
    {
        let c = compare_bytes(self.as_str().as_bytes(), other.as_bytes());
        proof {
            lemma_lex_equal(content_bytes(self@), content_bytes(other@));
            lemma_bytes_injective(self@, other@);
        }
        match c {
            Ordering::Equal => true,
            _ => false,
        }
    }
}

impl Clone for PlSmallStr {
    /// Another owner of the same buffer; no byte is copied.
    fn clone(&self) -> (r: Self)
        ensures
            r@ == self@,
    {
        PlSmallStr(arc_clone(&self.0))
    }
}

impl PartialEq for PlSmallStr {
    fn eq(&self, other: &PlSmallStr) -> (r: bool) {
        self.eq_str(other.as_str())
    }
}

impl vstd::std_specs::cmp::PartialEqSpecImpl for PlSmallStr {
    open spec fn obeys_eq_spec() -> bool {
        true
    }

    open spec fn eq_spec(&self, other: &PlSmallStr) -> bool {
        self@ == other@
    }
}

impl Eq for PlSmallStr {

}

impl PartialEq<str> for PlSmallStr {
    fn eq(&self, other: &str) -> (r: bool) {
        self.eq_str(other)
    }
}

impl vstd::std_specs::cmp::PartialEqSpecImpl<str> for PlSmallStr {
    open spec fn obeys_eq_spec() -> bool {
        true
    }

    open spec fn eq_spec(&self, other: &str) -> bool {
        self@ == other@
    }
}

impl<'a> PartialEq<&'a str> for PlSmallStr {
    fn eq(&self, other: &&'a str) -> (r: bool) {
        self.eq_str(*other)
    }
}

impl<'a> vstd::std_specs::cmp::PartialEqSpecImpl<&'a str> for PlSmallStr {
    open spec fn obeys_eq_spec() -> bool {
        true
    }

    open spec fn eq_spec(&self, other: &&'a str) -> bool {
        self@ == (*other)@
    }
}

impl PartialEq<String> for PlSmallStr {
    fn eq(&self, other: &String) -> (r: bool) {
        self.eq_str(other.as_str())
    }
}

impl vstd::std_specs::cmp::PartialEqSpecImpl<String> for PlSmallStr {
    open spec fn obeys_eq_spec() -> bool {
        true
    }

    open spec fn eq_spec(&self, other: &String) -> bool {
        self@ == other@
    }
}

impl<'a> PartialEq<PlSmallStr> for &'a str {
    fn eq(&self, other: &PlSmallStr) -> (r: bool) {
        other.eq_str(*self)
    }
}

impl<'a> vstd::std_specs::cmp::PartialEqSpecImpl<PlSmallStr> for &'a str {
    open spec fn obeys_eq_spec() -> bool {
        true
    }

    open spec fn eq_spec(&self, other: &PlSmallStr) -> bool {
        (*self)@ == other@
    }
}

impl PartialEq<PlSmallStr> for String {
    fn eq(&self, other: &PlSmallStr) -> (r: bool) {
        other.eq_str(self.as_str())
    }
}

impl vstd::std_specs::cmp::PartialEqSpecImpl<PlSmallStr> for String {
    open spec fn obeys_eq_spec() -> bool {
        true
    }

    open spec fn eq_spec(&self, other: &PlSmallStr) -> bool {
        self@ == other@
    }
}

impl<'a> PartialEq<&'a String> for PlSmallStr {
    fn eq(&self, other: &&'a String) -> (r: bool) {
        self.eq_str((*other).as_str())
    }
}

impl<'a> vstd::std_specs::cmp::PartialEqSpecImpl<&'a String> for PlSmallStr {
    open spec fn obeys_eq_spec() -> bool {
        true
    }

    open spec fn eq_spec(&self, other: &&'a String) -> bool {
        self@ == (*other)@
    }
}

impl<'a, 'b> PartialEq<PlSmallStr> for &'a &'b str {
    fn eq(&self, other: &PlSmallStr) -> (r: bool) {
        other.eq_str(**self)
    }
}

impl<'a, 'b> vstd::std_specs::cmp::PartialEqSpecImpl<PlSmallStr> for &'a &'b str {
    open spec fn obeys_eq_spec() -> bool {
        true
    }

    open spec fn eq_spec(&self, other: &PlSmallStr) -> bool {
        (**self)@ == other@
    }
}

impl<'a> PartialEq<PlSmallStr> for &'a String {
    fn eq(&self, other: &PlSmallStr) -> (r: bool) {
        other.eq_str((*self).as_str())
    }
}

impl<'a> vstd::std_specs::cmp::PartialEqSpecImpl<PlSmallStr> for &'a String {
    open spec fn obeys_eq_spec() -> bool {
        true
    }

    open spec fn eq_spec(&self, other: &PlSmallStr) -> bool {
        (*self)@ == other@
    }
}

impl<'a> PartialEq<&'a PlSmallStr> for PlSmallStr {
    fn eq(&self, other: &&'a PlSmallStr) -> (r: bool) {
        self.eq_str((*other).as_str())
    }
}

impl<'a> vstd::std_specs::cmp::PartialEqSpecImpl<&'a PlSmallStr> for PlSmallStr {
    open spec fn obeys_eq_spec() -> bool {
        true
    }

    open spec fn eq_spec(&self, other: &&'a PlSmallStr) -> bool {
        self@ == (*other)@
    }
}

impl<'a, 'b> PartialEq<&'a &'b str> for PlSmallStr {
    fn eq(&self, other: &&'a &'b str) -> (r: bool) {
        self.eq_str(**other)
    }
}

impl<'a, 'b> vstd::std_specs::cmp::PartialEqSpecImpl<&'a &'b str> for PlSmallStr {
    open spec fn obeys_eq_spec() -> bool {
        true
    }

    open spec fn eq_spec(&self, other: &&'a &'b str) -> bool {
        self@ == (**other)@
    }
}

impl PartialOrd for PlSmallStr {
    fn partial_cmp(&self, other: &PlSmallStr) -> (r: Option<Ordering>) {
        Some(compare_bytes(self.as_str().as_bytes(), other.as_str().as_bytes()))
    }
}

impl vstd::std_specs::cmp::PartialOrdSpecImpl for PlSmallStr {
    open spec fn obeys_partial_cmp_spec() -> bool {
        true
    }

    open spec fn partial_cmp_spec(&self, other: &PlSmallStr) -> Option<Ordering> {
        Some(lex_cmp(content_bytes(self@), content_bytes(other@)))
    }
}

// Conversions state their result through the text it holds (`r@`), in each
// `from`'s own `ensures`: two strings with one text may still own different
// buffers, so no single value is named as the result.
impl<'a> From<&'a PlSmallStr> for PlSmallStr {
    fn from(v: &'a PlSmallStr) -> (r: Self)
        ensures
            r@ == v@,
    {
        v.clone()
    }
}

impl<'a> vstd::std_specs::convert::FromSpecImpl<&'a PlSmallStr> for PlSmallStr {
    open spec fn obeys_from_spec() -> bool {
        false
    }

    open spec fn from_spec(v: &'a PlSmallStr) -> PlSmallStr {
        arbitrary()
    }
}

impl<'a, 'b> From<&'a &'b PlSmallStr> for PlSmallStr {
    fn from(v: &'a &'b PlSmallStr) -> (r: Self)
        ensures
            r@ == (**v)@,
    {
        (*v).clone()
    }
}

impl<'a, 'b> vstd::std_specs::convert::FromSpecImpl<&'a &'b PlSmallStr> for PlSmallStr {
    open spec fn obeys_from_spec() -> bool {
        false
    }

    open spec fn from_spec(v: &'a &'b PlSmallStr) -> PlSmallStr {
        arbitrary()
    }
}

impl<'a> From<&'a str> for PlSmallStr {
    fn from(v: &'a str) -> (r: Self)
        ensures
            r@ == v@,
    {
        Self::from_str(v)
    }
}

impl<'a> vstd::std_specs::convert::FromSpecImpl<&'a str> for PlSmallStr {
    open spec fn obeys_from_spec() -> bool {
        false
    }

    open spec fn from_spec(v: &'a str) -> PlSmallStr {
        arbitrary()
    }
}

impl<'a, 'b> From<&'a &'b str> for PlSmallStr {
    fn from(v: &'a &'b str) -> (r: Self)
        ensures
            r@ == (*v)@,
    {
        Self::from_str(*v)
    }
}

impl<'a, 'b> vstd::std_specs::convert::FromSpecImpl<&'a &'b str> for PlSmallStr {
    open spec fn obeys_from_spec() -> bool {
        false
    }

    open spec fn from_spec(v: &'a &'b str) -> PlSmallStr {
        arbitrary()
    }
}

impl From<String> for PlSmallStr {
    fn from(v: String) -> (r: Self)
        ensures
            r@ == v@,
    {
        Self::from_string(v)
    }
}

impl vstd::std_specs::convert::FromSpecImpl<String> for PlSmallStr {
    open spec fn obeys_from_spec() -> bool {
        false
    }

    open spec fn from_spec(v: String) -> PlSmallStr {
        arbitrary()
    }
}

impl<'a> From<&'a String> for PlSmallStr {
    fn from(v: &'a String) -> (r: Self)
        ensures
            r@ == v@,
    {
        Self::from_str(v.as_str())
    }
}

impl<'a> vstd::std_specs::convert::FromSpecImpl<&'a String> for PlSmallStr {
    open spec fn obeys_from_spec() -> bool {
        false
    }

    open spec fn from_spec(v: &'a String) -> PlSmallStr {
        arbitrary()
    }
}

impl Default for PlSmallStr {
    /// The empty string "".
    fn default() -> (r: Self)
        ensures
            r@ == Seq::<char>::empty(),
    {
        Self::const_default()
    }
}

impl AsRef<str> for PlSmallStr {
    fn as_ref(&self) -> (r: &str)
        ensures
            r@ == self@,
    {
        self.as_str()
    }
}

impl std::borrow::Borrow<str> for PlSmallStr {
    fn borrow(&self) -> (r: &str)
        ensures
            <str as View>::view(r) == self@,
    {
        self.as_str()
    }
}

impl std::ops::Deref for PlSmallStr {
    type Target = str;

    fn deref(&self) -> (r: &str)
        ensures
            r@ == self@,
    {
        self.as_str()
    }
}

/// `a` sorts no later than `b`.
pub open spec fn sorts_before_or_with(a: PlSmallStr, b: PlSmallStr) -> bool {
    a.partial_cmp_spec(&b) != Some(Ordering::Greater)
}

/// Reading back a string made from a text gives that text.
pub proof fn law_from_str_as_str(s: &str, a: PlSmallStr, t: &str)
    requires
        call_ensures(PlSmallStr::from_str, (s,), a),
        call_ensures(PlSmallStr::as_str, (&a,), t),
    ensures
        t@ == s@,
{
}

/// A clone equals the value it was made from.
pub proof fn law_clone_equal(a: PlSmallStr, b: PlSmallStr)
    requires
        call_ensures(PlSmallStr::clone, (&a,), b),
    ensures
        b.eq_spec(&a),
        a.eq_spec(&b),
{
}

/// Two strings are equal exactly when their UTF-8 bytes are equal, however
/// each was made.
pub proof fn law_eq_is_content(a: PlSmallStr, b: PlSmallStr)
    ensures
        a.eq_spec(&b) <==> content_bytes(a@) == content_bytes(b@),
{
    lemma_bytes_injective(a@, b@);
}

/// The order is total, agrees with equality, and is the byte-wise
/// lexicographic order of the UTF-8 content, as for plain text.
pub proof fn law_order_total(a: PlSmallStr, b: PlSmallStr, c: PlSmallStr)
    ensures
        a.partial_cmp_spec(&b) == Some(lex_cmp(content_bytes(a@), content_bytes(b@))),
        sorts_before_or_with(a, b) || sorts_before_or_with(b, a),
        sorts_before_or_with(a, b) && sorts_before_or_with(b, a) ==> a.eq_spec(&b),
        sorts_before_or_with(a, b) && sorts_before_or_with(b, c) ==> sorts_before_or_with(a, c),
        a.partial_cmp_spec(&b) == Some(Ordering::Equal) <==> a.eq_spec(&b),
{
    law_eq_is_content(a, b);
    lemma_lex_equal(content_bytes(a@), content_bytes(b@));
    lemma_lex_antisymmetric(content_bytes(a@), content_bytes(b@));
    lemma_lex_transitive(content_bytes(a@), content_bytes(b@), content_bytes(c@));
}

/// An owned string taken in and handed back out keeps its text.
pub proof fn law_string_round_trip(s: String, a: PlSmallStr, t: String)
    requires
        call_ensures(PlSmallStr::from_string, (s,), a),
        call_ensures(PlSmallStr::into_string, (a,), t),
    ensures
        t@ == s@,
{
}

/// The default string is empty, and equal to one made from "".
pub proof fn law_default_empty(d: PlSmallStr, e: PlSmallStr)
    requires
        call_ensures(PlSmallStr::const_default, (), d),
        call_ensures(PlSmallStr::from_str, ("",), e),
    ensures
        d@ == Seq::<char>::empty(),
        d.eq_spec(&e),
{
    reveal_strlit("");
    assert(e@ =~= d@);
}

} // verus!
