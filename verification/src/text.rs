//! Text payloads: what a string type has to offer, the order of texts, and
//! [`SmallString`], a string that keeps short texts inline.
use vstd::prelude::*;
use vstd::std_specs::cmp::PartialEqSpecImpl;
use vstd::utf8::encode_utf8;
use vstd::utf8::encode_utf8_decode_utf8;
use core::cmp::Ordering;
use core::hash::Hash;
use core::hash::Hasher;
use crate::order::Comparable;
use crate::order::Order;
use crate::order::bytes_order;
use crate::order::lemma_bytes_order_equal;
use crate::order::lemma_bytes_order_mirror;
use crate::order::lemma_bytes_order_transitive;

verus! {

/// A string payload: it shows its text as a string slice and can be made from one.
pub trait Text: Sized {
    /// The text that the payload holds.
    spec fn text(&self) -> Seq<char>;

    /// The text as a string slice.
    fn as_str(&self) -> (r: &str)
        ensures
            r@ == self.text(),
    ;

    /// A payload that holds the text of `s`.
    fn from_str(s: &str) -> (r: Self)
        ensures
            r.text() == s@,
    ;
}

impl Text for String {
    open spec fn text(&self) -> Seq<char> {
        self@
    }

    fn as_str(&self) -> (r: &str) {
        String::as_str(self)
    }

    fn from_str(s: &str) -> (r: Self) {
        s.to_owned()
    }
}

/// The order of two texts: the lexicographic order of their UTF-8 bytes, which is
/// the order of `str`.
pub open spec fn text_order(a: Seq<char>, b: Seq<char>) -> Order {
    bytes_order(encode_utf8(a), encode_utf8(b))
}

/// Two texts compare `Equal` exactly when they are the same text.
pub proof fn lemma_text_order_equal(a: Seq<char>, b: Seq<char>)
    ensures
        text_order(a, b) == Order::Equal <==> a == b,
{
    lemma_bytes_order_equal(encode_utf8(a), encode_utf8(b));
    encode_utf8_decode_utf8(a);
    encode_utf8_decode_utf8(b);
}

/// Swapping the two texts mirrors the result.
pub proof fn lemma_text_order_mirror(a: Seq<char>, b: Seq<char>)
    ensures
        text_order(b, a) == text_order(a, b).mirror(),
{
    lemma_bytes_order_mirror(encode_utf8(a), encode_utf8(b));
}

/// The order of texts is transitive, and `Equal` may be replaced on either side.
pub proof fn lemma_text_order_transitive(a: Seq<char>, b: Seq<char>, c: Seq<char>)
    ensures
        text_order(a, b) == Order::Less && text_order(b, c) != Order::Greater ==> text_order(a, c)
            == Order::Less,
        text_order(a, b) != Order::Greater && text_order(b, c) == Order::Less ==> text_order(a, c)
            == Order::Less,
        text_order(a, b) == Order::Equal && text_order(b, c) == Order::Equal ==> text_order(a, c)
            == Order::Equal,
{
    lemma_bytes_order_transitive(encode_utf8(a), encode_utf8(b), encode_utf8(c));
}

/// `PartialEq::eq` of `str`: true exactly when the two slices hold the same text.
#[verifier::external_body]
pub(crate) fn str_eq(a: &str, b: &str) -> (r: bool)
    ensures
        r == (a@ == b@),
{
    a == b
}

/// The number of bytes that a [`SmallString`] keeps inline.
pub const SMALL_CAPACITY: usize = 16;

/// A string that stores up to [`SMALL_CAPACITY`] bytes inline and longer texts on
/// the heap.
///
/// It holds a `smallstr::SmallString`. Nothing inside it is visible to the proofs:
/// what is known of it is what the functions below state of its text.
#[verifier::external_body]
pub struct SmallString {
    inner: smallstr::SmallString<[u8; SMALL_CAPACITY]>,
}

/// The text that a [`SmallString`] holds.
pub uninterp spec fn small_text(s: SmallString) -> Seq<char>;

/// `smallstr::SmallString::from_str`: copies the bytes of `s`, so the new string
/// holds the text of `s`.
#[verifier::external_body]
fn small_from_str(s: &str) -> (r: SmallString)
    ensures
        small_text(r) == s@,
{
    SmallString { inner: smallstr::SmallString::from_str(s) }
}

/// `smallstr::SmallString::from_string`: takes over the bytes of `s`, so the new
/// string holds the text of `s`.
#[verifier::external_body]
fn small_from_string(s: String) -> (r: SmallString)
    ensures
        small_text(r) == s@,
{
    SmallString { inner: smallstr::SmallString::from_string(s) }
}

/// `smallstr::SmallString::as_str`: the whole text as a string slice.
#[verifier::external_body]
fn small_as_str(s: &SmallString) -> (r: &str)
    ensures
        r@ == small_text(*s),
{
    s.inner.as_str()
}

/// `Clone::clone` of `smallstr::SmallString`, which is derived: the copy holds the
/// same bytes.
#[verifier::external_body]
fn small_clone(s: &SmallString) -> (r: SmallString)
    ensures
        small_text(r) == small_text(*s),
{
    SmallString { inner: s.inner.clone() }
}

/// `PartialEq::eq` of `smallstr::SmallString`, which compares the two string
/// slices: true exactly when the texts are the same.
#[verifier::external_body]
fn small_eq(a: &SmallString, b: &SmallString) -> (r: bool)
    ensures
        r == (small_text(*a) == small_text(*b)),
{
    a.inner == b.inner
}

/// `PartialEq::<str>::eq` of `smallstr::SmallString`, which compares the two
/// string slices: true exactly when the texts are the same.
#[verifier::external_body]
fn small_eq_str(a: &SmallString, b: &str) -> (r: bool)
    ensures
        r == (small_text(*a) == b@),
{
    a.inner == *b
}

/// `Ord::cmp` of `smallstr::SmallString`, which compares the two string slices:
/// `str` is ordered lexicographically by its bytes.
#[verifier::external_body]
pub(crate) fn small_order(a: &SmallString, b: &SmallString) -> (r: Order)
    ensures
        r == text_order(small_text(*a), small_text(*b)),
{
    match a.inner.cmp(&b.inner) {
        Ordering::Less => Order::Less,
        Ordering::Equal => Order::Equal,
        Ordering::Greater => Order::Greater,
    }
}

/// `Hash::hash` of `smallstr::SmallString`, which feeds the string slice to the
/// hasher. Nothing is stated of the hasher's state.
#[verifier::external_body]
pub(crate) fn small_hash<H: Hasher>(s: &SmallString, state: &mut H) {
    s.inner.hash(state)
}

impl View for SmallString {
    type V = Seq<char>;

    open spec fn view(&self) -> Seq<char> {
        small_text(*self)
    }
}

impl SmallString {
    /// A string that holds the text of `s`.
    pub fn new(s: &str) -> (r: SmallString)
        ensures
            r@ == s@,
    {
        small_from_str(s)
    }

    /// The text as a string slice.
    pub fn as_str(&self) -> (r: &str)
        ensures
            r@ == self@,
    {
        small_as_str(self)
    }

    /// Whether the string holds the text of `s`.
    pub fn eq_str(&self, s: &str) -> (r: bool)
        ensures
            r == (self@ == s@),
    {
        small_eq_str(self, s)
    }
}

impl Text for SmallString {
    open spec fn text(&self) -> Seq<char> {
        self@
    }

    fn as_str(&self) -> (r: &str) {
        small_as_str(self)
    }

    fn from_str(s: &str) -> (r: Self) {
        small_from_str(s)
    }
}

impl Clone for SmallString {
    fn clone(&self) -> (r: Self)
        ensures
            r@ == self@,
    {
        small_clone(self)
    }
}

impl PartialEq for SmallString {
    fn eq(&self, other: &SmallString) -> (r: bool) {
        small_eq(self, other)
    }
}

impl Eq for SmallString {

}

impl PartialEqSpecImpl for SmallString {
    open spec fn obeys_eq_spec() -> bool {
        true
    }

    open spec fn eq_spec(&self, other: &SmallString) -> bool {
        self@ == other@
    }
}

impl Hash for SmallString {
    fn hash<H: Hasher>(&self, state: &mut H) {
        small_hash(self, state)
    }
}

impl Comparable<SmallString> for SmallString {
    open spec fn same(&self, other: &SmallString) -> bool {
        self@ == other@
    }

    open spec fn order(&self, other: &SmallString) -> Option<Order> {
        Some(text_order(self@, other@))
    }

    proof fn lemma_same_is_equal(&self, other: &SmallString) {
        lemma_text_order_equal(self@, other@);
    }

    fn is_same(&self, other: &SmallString) -> (r: bool) {
        small_eq(self, other)
    }

    fn compare(&self, other: &SmallString) -> (r: Option<Order>) {
        Some(small_order(self, other))
    }
}

/// A small string with the given text. Conversions say in their own `ensures`
/// which text the string holds: a small string is known by its text alone.
pub open spec fn small_string_of(text: Seq<char>) -> SmallString {
    choose|s: SmallString| s@ == text
}

impl<'a> From<&'a str> for SmallString {
    /// A string that holds the text of `s`.
    fn from(s: &'a str) -> (r: Self)
        ensures
            r@ == s@,
    {
        small_from_str(s)
    }
}

impl<'a> vstd::std_specs::convert::FromSpecImpl<&'a str> for SmallString {
    open spec fn obeys_from_spec() -> bool {
        false
    }

    open spec fn from_spec(s: &'a str) -> Self {
        small_string_of(s@)
    }
}

impl From<String> for SmallString {
    /// A string that holds the text of `s`.
    fn from(s: String) -> (r: Self)
        ensures
            r@ == s@,
    {
        small_from_string(s)
    }
}

impl vstd::std_specs::convert::FromSpecImpl<String> for SmallString {
    open spec fn obeys_from_spec() -> bool {
        false
    }

    open spec fn from_spec(s: String) -> Self {
        small_string_of(s@)
    }
}

} // verus!
