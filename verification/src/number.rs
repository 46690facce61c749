//! Number payloads: exact coercion to the integer types, the number `Zero`, and
//! `Literal`, a number kept as written in a buffer of `json_number`.
use vstd::prelude::*;
use vstd::string::StrSliceExecFns;
use vstd::string::StringSliceAdditionalSpecFns;
use core::cmp::Ordering;
use core::hash::Hash;
use core::hash::Hasher;
use json_number::NumberBuf;
use crate::order::Comparable;
use crate::order::Order;
use crate::order::bytes_order;
use crate::order::lemma_bytes_order_equal;

verus! {

/// The value as a `u32`, where it fits.
pub open spec fn narrow_u32(v: Option<u64>) -> Option<u32> {
    match v {
        Some(u) => if u <= u32::MAX {
            Some(u as u32)
        } else {
            None
        },
        None => None,
    }
}

/// The value as an `i32`, where it fits.
pub open spec fn narrow_i32(v: Option<i64>) -> Option<i32> {
    match v {
        Some(i) => if i32::MIN <= i <= i32::MAX {
            Some(i as i32)
        } else {
            None
        },
        None => None,
    }
}

/// A JSON number that can be coerced to the integer types without loss.
///
/// `exact_u64` and `exact_i64` say which unsigned and which signed integer the number
/// is exactly; a coercion is present exactly when the number has that form and the
/// integer fits the target type.
///
/// Which integer a number is exactly is for the number type to say, within the
/// law below. A type that keeps a value goes by the value: zero is `0` in both
/// forms. A type that keeps a literal may go by the literal as it is written: then
/// a literal with a fraction or an exponent, such as `1.0` or `1e2`, has no
/// integer form, and `-0` is the signed zero and no unsigned integer. The law
/// allows both readings; it forbids that the two forms name different integers.
pub trait Number: Sized {
    /// The number as an unsigned integer, where it is exactly one.
    spec fn exact_u64(&self) -> Option<u64>;

    /// The number as a signed integer, where it is exactly one.
    spec fn exact_i64(&self) -> Option<i64>;

    /// The two exact forms never contradict each other: an unsigned form that fits
    /// `i64` is the signed form too, a positive signed form is the unsigned form
    /// too, and a negative number has no unsigned form.
    proof fn lemma_exact_forms_agree(&self)
        ensures
            self.exact_u64() matches Some(u) ==> (u <= i64::MAX ==> self.exact_i64() == Some(
                u as i64,
            )),
            self.exact_i64() matches Some(i) ==> (i > 0 ==> self.exact_u64() == Some(i as u64)),
            self.exact_i64() matches Some(i) ==> (i < 0 ==> self.exact_u64() is None),
    ;

    /// Returns this number as a `u32` if it can be exactly represented as such.
    fn as_u32(&self) -> (r: Option<u32>)
        ensures
            r == narrow_u32(self.exact_u64()),
    ;

    /// Returns this number as a `u64` if it can be exactly represented as such.
    fn as_u64(&self) -> (r: Option<u64>)
        ensures
            r == self.exact_u64(),
    ;

    /// Returns this number as an `i32` if it can be exactly represented as such.
    fn as_i32(&self) -> (r: Option<i32>)
        ensures
            r == narrow_i32(self.exact_i64()),
    ;

    /// Returns this number as an `i64` if it can be exactly represented as such.
    fn as_i64(&self) -> (r: Option<i64>)
        ensures
            r == self.exact_i64(),
    ;
}

/// Zero number.
///
/// A number type that can only represent the value `0.0`. Zero is exactly
/// representable in every integer type, so each integer coercion gives `0`.
#[derive(PartialEq, Eq, Structural, Hash, PartialOrd, Ord, Debug)]
pub struct Zero;

impl Number for Zero {
    open spec fn exact_u64(&self) -> Option<u64> {
        Some(0)
    }

    open spec fn exact_i64(&self) -> Option<i64> {
        Some(0)
    }

    proof fn lemma_exact_forms_agree(&self) {
    }

    fn as_u32(&self) -> (r: Option<u32>) {
        Some(0)
    }

    fn as_u64(&self) -> (r: Option<u64>) {
        Some(0)
    }

    fn as_i32(&self) -> (r: Option<i32>) {
        Some(0)
    }

    fn as_i64(&self) -> (r: Option<i64>) {
        Some(0)
    }
}

impl Comparable<Zero> for Zero {
    open spec fn same(&self, other: &Zero) -> bool {
        true
    }

    open spec fn order(&self, other: &Zero) -> Option<Order> {
        Some(Order::Equal)
    }

    proof fn lemma_same_is_equal(&self, other: &Zero) {
    }

    fn is_same(&self, other: &Zero) -> (r: bool) {
        true
    }

    fn compare(&self, other: &Zero) -> (r: Option<Order>) {
        Some(Order::Equal)
    }
}

/// Whether the byte is an ASCII decimal digit.
pub open spec fn is_digit(b: u8) -> bool {
    0x30 <= b <= 0x39
}

/// Whether the bytes are one or more ASCII decimal digits.
pub open spec fn is_digits(s: Seq<u8>) -> bool {
    s.len() > 0 && forall|i: int| 0 <= i < s.len() ==> is_digit(#[trigger] s[i])
}

/// The number that a string of decimal digits denotes.
pub open spec fn decimal(s: Seq<u8>) -> nat
    decreases s.len(),
{
    if s.len() == 0 {
        0
    } else {
        decimal(s.drop_last()) * 10 + (s.last() - 0x30) as nat
    }
}

/// The integer that a literal denotes when it is read as an unsigned integer:
/// decimal digits, which a `+` may precede.
pub open spec fn unsigned_literal(s: Seq<u8>) -> Option<int> {
    let body = if s.len() > 0 && s[0] == 0x2b {
        s.drop_first()
    } else {
        s
    };
    if is_digits(body) {
        Some(decimal(body) as int)
    } else {
        None
    }
}

/// The integer that a literal denotes when it is read as a signed integer:
/// decimal digits, which a `+` or a `-` may precede.
pub open spec fn signed_literal(s: Seq<u8>) -> Option<int> {
    if s.len() > 0 && s[0] == 0x2d {
        if is_digits(s.drop_first()) {
            Some(-(decimal(s.drop_first()) as int))
        } else {
            None
        }
    } else {
        unsigned_literal(s)
    }
}

/// The integer as a `u64`, where it fits.
pub open spec fn fit_u64(v: Option<int>) -> Option<u64> {
    match v {
        Some(i) => if 0 <= i <= u64::MAX {
            Some(i as u64)
        } else {
            None
        },
        None => None,
    }
}

/// The integer as an `i64`, where it fits.
pub open spec fn fit_i64(v: Option<int>) -> Option<i64> {
    match v {
        Some(i) => if i64::MIN <= i <= i64::MAX {
            Some(i as i64)
        } else {
            None
        },
        None => None,
    }
}

/// `json_number::NumberBuf`, a buffer that holds the literal of a JSON number.
/// Nothing inside it is visible to the proofs.
#[verifier::external_type_specification]
#[verifier::external_body]
#[verifier::reject_recursive_types(B)]
pub struct ExNumberBuf<B>(NumberBuf<B>);

/// The literal that a number buffer holds, as bytes.
pub uninterp spec fn number_text(n: NumberBuf) -> Seq<u8>;

/// `json_number::Number::as_u32`, which parses the literal with `str::parse`: the
/// literal read as an unsigned integer, where that fits `u32`.
#[verifier::external_body]
fn number_as_u32(n: &NumberBuf) -> (r: Option<u32>)
    ensures
        r == narrow_u32(fit_u64(unsigned_literal(number_text(*n)))),
{
    n.as_number().as_u32()
}

/// `json_number::Number::as_u64`, which parses the literal with `str::parse`: the
/// literal read as an unsigned integer, where that fits `u64`.
#[verifier::external_body]
fn number_as_u64(n: &NumberBuf) -> (r: Option<u64>)
    ensures
        r == fit_u64(unsigned_literal(number_text(*n))),
{
    n.as_number().as_u64()
}

/// `json_number::Number::as_i32`, which parses the literal with `str::parse`: the
/// literal read as a signed integer, where that fits `i32`.
#[verifier::external_body]
fn number_as_i32(n: &NumberBuf) -> (r: Option<i32>)
    ensures
        r == narrow_i32(fit_i64(signed_literal(number_text(*n)))),
{
    n.as_number().as_i32()
}

/// `json_number::Number::as_i64`, which parses the literal with `str::parse`: the
/// literal read as a signed integer, where that fits `i64`.
#[verifier::external_body]
fn number_as_i64(n: &NumberBuf) -> (r: Option<i64>)
    ensures
        r == fit_i64(signed_literal(number_text(*n))),
{
    n.as_number().as_i64()
}

/// `Clone::clone` of `json_number::NumberBuf`, which is derived on the buffer: the
/// copy holds the same literal.
#[verifier::external_body]
fn number_clone(n: &NumberBuf) -> (r: NumberBuf)
    ensures
        number_text(r) == number_text(*n),
{
    n.clone()
}

/// `str::as_bytes` on the literal of a `json_number::NumberBuf`, which the buffer
/// hands out by dereferencing: the bytes of the literal.
#[verifier::external_body]
fn number_bytes(n: &NumberBuf) -> (r: &[u8])
    ensures
        r@ == number_text(*n),
{
    n.as_bytes()
}

/// `PartialEq::eq` of `json_number::NumberBuf`, which is derived on the buffer:
/// true exactly when the two literals are the same bytes.
#[verifier::external_body]
fn number_eq(a: &NumberBuf, b: &NumberBuf) -> (r: bool)
    ensures
        r == (number_text(*a) == number_text(*b)),
{
    a == b
}

/// `Ord::cmp` of `json_number::NumberBuf`, which is derived on the buffer: the
/// lexicographic order of the two literals' bytes.
#[verifier::external_body]
fn number_order(a: &NumberBuf, b: &NumberBuf) -> (r: Order)
    ensures
        r == bytes_order(number_text(*a), number_text(*b)),
{
    match a.cmp(b) {
        Ordering::Less => Order::Less,
        Ordering::Equal => Order::Equal,
        Ordering::Greater => Order::Greater,
    }
}

/// `NumberBuf::new` of `json_number`, which takes the bytes where they are a JSON
/// number and refuses them otherwise: a buffer that is made holds the bytes.
#[verifier::external_body]
fn number_new(bytes: Vec<u8>) -> (r: Option<NumberBuf>)
    ensures
        r is Some <==> number_syntax(bytes@),
        r matches Some(n) ==> number_text(n) == bytes@,
{
    match NumberBuf::new(bytes) {
        Ok(n) => Some(n),
        Err(_) => None,
    }
}

/// `From::<u64>::from` of `json_number::NumberBuf`, which writes the integer in
/// decimal digits.
#[verifier::external_body]
fn number_from_u64(n: u64) -> (r: NumberBuf)
    ensures
        number_text(r) == decimal_digits(n as nat),
{
    NumberBuf::from(n)
}

/// `From::<i64>::from` of `json_number::NumberBuf`, which writes the integer in
/// decimal digits, after a `-` where it is negative.
#[verifier::external_body]
fn number_from_i64(n: i64) -> (r: NumberBuf)
    ensures
        number_text(r) == signed_digits(n as int),
{
    NumberBuf::from(n)
}

/// `Hash::hash` of `json_number::NumberBuf`, which is derived on the buffer: it
/// feeds the literal to the hasher. Nothing is stated of the hasher's state.
#[verifier::external_body]
fn number_hash<H: Hasher>(n: &NumberBuf, state: &mut H) {
    n.hash(state)
}

/// Whether the bytes are a JSON number, as `json_number` reads it.
pub uninterp spec fn number_syntax(text: Seq<u8>) -> bool;

/// The decimal digits of a natural number, without leading zeros.
pub open spec fn decimal_digits(n: nat) -> Seq<u8>
    decreases n,
{
    if n < 10 {
        seq![(0x30 + n) as u8]
    } else {
        decimal_digits(n / 10).push((0x30 + n % 10) as u8)
    }
}

/// The decimal digits of an integer, after a `-` where it is negative.
pub open spec fn signed_digits(i: int) -> Seq<u8> {
    if i < 0 {
        seq![0x2du8] + decimal_digits((-i) as nat)
    } else {
        decimal_digits(i as nat)
    }
}

/// The decimal digits of a number are digits and denote the number.
pub proof fn lemma_decimal_digits(n: nat)
    ensures
        is_digits(decimal_digits(n)),
        decimal(decimal_digits(n)) == n,
    decreases n,
{
    if n < 10 {
        let s = decimal_digits(n);
        assert(s.len() == 1);
        assert(s.drop_last().len() == 0);
        assert(decimal(s.drop_last()) == 0);
    } else {
        lemma_decimal_digits(n / 10);
        let head = decimal_digits(n / 10);
        let s = decimal_digits(n);
        assert(s.drop_last() =~= head);
        assert(s.last() == (0x30 + n % 10) as u8);
        assert forall|i: int| 0 <= i < s.len() implies is_digit(#[trigger] s[i]) by {
            if i < head.len() {
                assert(s[i] == head[i]);
            }
        }
    }
}

/// The digits that an integer is written in are read back as that integer, as an
/// unsigned literal where it is not negative and as a signed literal always.
pub proof fn lemma_digits_read_back(i: int)
    ensures
        signed_literal(signed_digits(i)) == Some(i),
        i >= 0 ==> unsigned_literal(signed_digits(i)) == Some(i),
        i < 0 ==> unsigned_literal(signed_digits(i)) is None,
{
    if i < 0 {
        let d = decimal_digits((-i) as nat);
        lemma_decimal_digits((-i) as nat);
        let s = signed_digits(i);
        assert(s.drop_first() =~= d);
        assert(s[0] == 0x2d);
        assert(!is_digit(s[0]));
    } else {
        lemma_decimal_digits(i as nat);
        let s = decimal_digits(i as nat);
        assert(is_digit(s[0]));
    }
}

/// A JSON number kept as the literal that was written, in a buffer of
/// `json_number`. Two literals are compared byte by byte, so `1` and `1.0` differ.
pub struct Literal {
    buf: NumberBuf,
}

impl View for Literal {
    type V = Seq<u8>;

    closed spec fn view(&self) -> Seq<u8> {
        number_text(self.buf)
    }
}

impl Literal {
    /// The literal that the buffer holds.
    pub fn new(buf: NumberBuf) -> (r: Literal)
        ensures
            r@ == number_text(buf),
    {
        Literal { buf }
    }

    /// The literal with the text `text`, where that is a JSON number.
    pub fn parse(text: &str) -> (r: Option<Literal>)
        ensures
            r is Some <==> number_syntax(text.spec_bytes()),
            r matches Some(n) ==> n@ == text.spec_bytes(),
    {
        match number_new(text.as_bytes_vec()) {
            Some(buf) => Some(Literal { buf }),
            None => None,
        }
    }

    /// The literal that is the integer `n` in decimal digits.
    pub fn from_u64(n: u64) -> (r: Literal)
        ensures
            r@ == decimal_digits(n as nat),
            r.exact_u64() == Some(n),
    {
        proof {
            lemma_digits_read_back(n as int);
        }
        Literal { buf: number_from_u64(n) }
    }

    /// The literal that is the integer `n` in decimal digits, after a `-` where it
    /// is negative.
    pub fn from_i64(n: i64) -> (r: Literal)
        ensures
            r@ == signed_digits(n as int),
            r.exact_i64() == Some(n),
            n < 0 ==> r.exact_u64() is None,
    {
        proof {
            lemma_digits_read_back(n as int);
        }
        Literal { buf: number_from_i64(n) }
    }

    /// The buffer that holds the literal.
    pub fn buffer(&self) -> (r: &NumberBuf)
        ensures
            number_text(*r) == self@,
    {
        &self.buf
    }

    /// The bytes of the literal.
    pub fn as_bytes(&self) -> (r: &[u8])
        ensures
            r@ == self@,
    {
        number_bytes(&self.buf)
    }

    /// How this literal stands to the other, byte by byte.
    pub fn order_to(&self, other: &Literal) -> (r: Order)
        ensures
            r == bytes_order(self@, other@),
    {
        number_order(&self.buf, &other.buf)
    }
}

/// The coercions go by the literal as it is written: it is an integer where it is
/// decimal digits, after a `-` for the signed forms. A literal with a fraction or
/// an exponent has no integer form, and `-0` is the signed zero only.
impl Number for Literal {
    open spec fn exact_u64(&self) -> Option<u64> {
        fit_u64(unsigned_literal(self@))
    }

    open spec fn exact_i64(&self) -> Option<i64> {
        fit_i64(signed_literal(self@))
    }

    proof fn lemma_exact_forms_agree(&self) {
        let s = self@;
        if s.len() > 0 && s[0] == 0x2d {
            assert(!is_digit(s[0]));
        }
    }

    fn as_u32(&self) -> (r: Option<u32>) {
        number_as_u32(&self.buf)
    }

    fn as_u64(&self) -> (r: Option<u64>) {
        number_as_u64(&self.buf)
    }

    fn as_i32(&self) -> (r: Option<i32>) {
        number_as_i32(&self.buf)
    }

    fn as_i64(&self) -> (r: Option<i64>) {
        number_as_i64(&self.buf)
    }
}

impl Clone for Literal {
    /// A literal with the same bytes.
    fn clone(&self) -> (r: Self)
        ensures
            r@ == self@,
    {
        Literal { buf: number_clone(&self.buf) }
    }
}

impl Hash for Literal {
    /// Feeds the literal to the hasher.
    fn hash<H: Hasher>(&self, state: &mut H) {
        number_hash(&self.buf, state)
    }
}

impl PartialEq for Literal {
    fn eq(&self, other: &Literal) -> (r: bool) {
        number_eq(&self.buf, &other.buf)
    }
}

impl Eq for Literal {

}

impl vstd::std_specs::cmp::PartialEqSpecImpl for Literal {
    open spec fn obeys_eq_spec() -> bool {
        true
    }

    open spec fn eq_spec(&self, other: &Literal) -> bool {
        self@ == other@
    }
}

impl Comparable<Literal> for Literal {
    open spec fn same(&self, other: &Literal) -> bool {
        self@ == other@
    }

    open spec fn order(&self, other: &Literal) -> Option<Order> {
        Some(bytes_order(self@, other@))
    }

    proof fn lemma_same_is_equal(&self, other: &Literal) {
        lemma_bytes_order_equal(self@, other@);
    }

    fn is_same(&self, other: &Literal) -> (r: bool) {
        number_eq(&self.buf, &other.buf)
    }

    fn compare(&self, other: &Literal) -> (r: Option<Order>) {
        Some(number_order(&self.buf, &other.buf))
    }
}

/// A literal with the given bytes. Conversions say in their own `ensures` which
/// bytes the literal holds: a literal is known by its bytes alone.
pub open spec fn literal_of(text: Seq<u8>) -> Literal {
    choose|l: Literal| l@ == text
}

impl From<u8> for Literal {
    /// The literal that is the integer `n` in decimal digits.
    fn from(n: u8) -> (r: Self)
        ensures
            r@ == decimal_digits(n as nat),
            r.exact_u64() == Some(n as u64),
    {
        Literal::from_u64(n as u64)
    }
}

impl vstd::std_specs::convert::FromSpecImpl<u8> for Literal {
    open spec fn obeys_from_spec() -> bool {
        false
    }

    open spec fn from_spec(n: u8) -> Self {
        literal_of(decimal_digits(n as nat))
    }
}

impl From<u16> for Literal {
    /// The literal that is the integer `n` in decimal digits.
    fn from(n: u16) -> (r: Self)
        ensures
            r@ == decimal_digits(n as nat),
            r.exact_u64() == Some(n as u64),
    {
        Literal::from_u64(n as u64)
    }
}

impl vstd::std_specs::convert::FromSpecImpl<u16> for Literal {
    open spec fn obeys_from_spec() -> bool {
        false
    }

    open spec fn from_spec(n: u16) -> Self {
        literal_of(decimal_digits(n as nat))
    }
}

impl From<u32> for Literal {
    /// The literal that is the integer `n` in decimal digits.
    fn from(n: u32) -> (r: Self)
        ensures
            r@ == decimal_digits(n as nat),
            r.exact_u64() == Some(n as u64),
    {
        Literal::from_u64(n as u64)
    }
}

impl vstd::std_specs::convert::FromSpecImpl<u32> for Literal {
    open spec fn obeys_from_spec() -> bool {
        false
    }

    open spec fn from_spec(n: u32) -> Self {
        literal_of(decimal_digits(n as nat))
    }
}

impl From<u64> for Literal {
    /// The literal that is the integer `n` in decimal digits.
    fn from(n: u64) -> (r: Self)
        ensures
            r@ == decimal_digits(n as nat),
            r.exact_u64() == Some(n as u64),
    {
        Literal::from_u64(n as u64)
    }
}

impl vstd::std_specs::convert::FromSpecImpl<u64> for Literal {
    open spec fn obeys_from_spec() -> bool {
        false
    }

    open spec fn from_spec(n: u64) -> Self {
        literal_of(decimal_digits(n as nat))
    }
}

impl From<usize> for Literal {
    /// The literal that is the integer `n` in decimal digits.
    fn from(n: usize) -> (r: Self)
        ensures
            r@ == decimal_digits(n as nat),
            r.exact_u64() == Some(n as u64),
    {
        Literal::from_u64(n as u64)
    }
}

impl vstd::std_specs::convert::FromSpecImpl<usize> for Literal {
    open spec fn obeys_from_spec() -> bool {
        false
    }

    open spec fn from_spec(n: usize) -> Self {
        literal_of(decimal_digits(n as nat))
    }
}

impl From<i8> for Literal {
    /// The literal that is the integer `n` in decimal digits, after a `-` where it
    /// is negative.
    fn from(n: i8) -> (r: Self)
        ensures
            r@ == signed_digits(n as int),
            r.exact_i64() == Some(n as i64),
    {
        Literal::from_i64(n as i64)
    }
}

impl vstd::std_specs::convert::FromSpecImpl<i8> for Literal {
    open spec fn obeys_from_spec() -> bool {
        false
    }

    open spec fn from_spec(n: i8) -> Self {
        literal_of(signed_digits(n as int))
    }
}

impl From<i16> for Literal {
    /// The literal that is the integer `n` in decimal digits, after a `-` where it
    /// is negative.
    fn from(n: i16) -> (r: Self)
        ensures
            r@ == signed_digits(n as int),
            r.exact_i64() == Some(n as i64),
    {
        Literal::from_i64(n as i64)
    }
}

impl vstd::std_specs::convert::FromSpecImpl<i16> for Literal {
    open spec fn obeys_from_spec() -> bool {
        false
    }

    open spec fn from_spec(n: i16) -> Self {
        literal_of(signed_digits(n as int))
    }
}

impl From<i32> for Literal {
    /// The literal that is the integer `n` in decimal digits, after a `-` where it
    /// is negative.
    fn from(n: i32) -> (r: Self)
        ensures
            r@ == signed_digits(n as int),
            r.exact_i64() == Some(n as i64),
    {
        Literal::from_i64(n as i64)
    }
}

impl vstd::std_specs::convert::FromSpecImpl<i32> for Literal {
    open spec fn obeys_from_spec() -> bool {
        false
    }

    open spec fn from_spec(n: i32) -> Self {
        literal_of(signed_digits(n as int))
    }
}

impl From<i64> for Literal {
    /// The literal that is the integer `n` in decimal digits, after a `-` where it
    /// is negative.
    fn from(n: i64) -> (r: Self)
        ensures
            r@ == signed_digits(n as int),
            r.exact_i64() == Some(n as i64),
    {
        Literal::from_i64(n as i64)
    }
}

impl vstd::std_specs::convert::FromSpecImpl<i64> for Literal {
    open spec fn obeys_from_spec() -> bool {
        false
    }

    open spec fn from_spec(n: i64) -> Self {
        literal_of(signed_digits(n as int))
    }
}

impl From<isize> for Literal {
    /// The literal that is the integer `n` in decimal digits, after a `-` where it
    /// is negative.
    fn from(n: isize) -> (r: Self)
        ensures
            r@ == signed_digits(n as int),
            r.exact_i64() == Some(n as i64),
    {
        Literal::from_i64(n as i64)
    }
}

impl vstd::std_specs::convert::FromSpecImpl<isize> for Literal {
    open spec fn obeys_from_spec() -> bool {
        false
    }

    open spec fn from_spec(n: isize) -> Self {
        literal_of(signed_digits(n as int))
    }
}

} // verus!
