//! Three-way comparison results, the lexicographic order of byte strings, and the
//! capability of a payload to be compared with a payload of another backend.
use vstd::prelude::*;
use core::cmp::Ordering;

verus! {

/// How a left value stands to a right one.
#[derive(Clone, Copy, PartialEq, Eq, Structural, Debug)]
pub enum Order {
    Less,
    Equal,
    Greater,
}

impl Order {
    /// The same comparison seen from the other side.
    pub open spec fn mirror(self) -> Order {
        match self {
            Order::Less => Order::Greater,
            Order::Equal => Order::Equal,
            Order::Greater => Order::Less,
        }
    }

    /// This result when it decides, `next` when it is `Equal`.
    pub open spec fn or(self, next: Order) -> Order {
        if self == Order::Equal {
            next
        } else {
            self
        }
    }

    /// The corresponding value of the standard library.
    pub open spec fn ordering(self) -> Ordering {
        match self {
            Order::Less => Ordering::Less,
            Order::Equal => Ordering::Equal,
            Order::Greater => Ordering::Greater,
        }
    }

    /// The comparison seen from the other side.
    pub fn reverse(self) -> (r: Order)
        ensures
            r == self.mirror(),
    {
        match self {
            Order::Less => Order::Greater,
            Order::Equal => Order::Equal,
            Order::Greater => Order::Less,
        }
    }

    /// Converts to the standard library's type.
    pub fn to_ordering(self) -> (r: Ordering)
        ensures
            r == self.ordering(),
    {
        match self {
            Order::Less => Ordering::Less,
            Order::Equal => Ordering::Equal,
            Order::Greater => Ordering::Greater,
        }
    }

    /// Converts from the standard library's type.
    pub fn from_ordering(o: Ordering) -> (r: Order)
        ensures
            r.ordering() == o,
    {
        match o {
            Ordering::Less => Order::Less,
            Ordering::Equal => Order::Equal,
            Ordering::Greater => Order::Greater,
        }
    }
}

/// A possibly undefined comparison seen from the other side.
pub open spec fn mirror_option(o: Option<Order>) -> Option<Order> {
    match o {
        Some(x) => Some(x.mirror()),
        None => None,
    }
}

/// A possibly undefined comparison as the standard library writes it.
pub open spec fn ordering_option(o: Option<Order>) -> Option<Ordering> {
    match o {
        Some(x) => Some(x.ordering()),
        None => None,
    }
}

/// The order of two integers.
pub open spec fn int_order(a: int, b: int) -> Order {
    if a < b {
        Order::Less
    } else if a == b {
        Order::Equal
    } else {
        Order::Greater
    }
}

/// The order of two booleans: `false` comes before `true`.
pub open spec fn bool_order(a: bool, b: bool) -> Order {
    int_order(if a { 1 } else { 0 }, if b { 1 } else { 0 })
}

/// The lexicographic order of two byte strings: the first byte that differs decides,
/// and a proper prefix comes before the longer string.
pub open spec fn bytes_order(a: Seq<u8>, b: Seq<u8>) -> Order
    decreases a.len(),
{
    if a.len() == 0 {
        if b.len() == 0 {
            Order::Equal
        } else {
            Order::Less
        }
    } else if b.len() == 0 {
        Order::Greater
    } else if a[0] != b[0] {
        int_order(a[0] as int, b[0] as int)
    } else {
        bytes_order(a.drop_first(), b.drop_first())
    }
}

/// Two byte strings compare `Equal` exactly when they are the same string.
pub proof fn lemma_bytes_order_equal(a: Seq<u8>, b: Seq<u8>)
    ensures
        bytes_order(a, b) == Order::Equal <==> a == b,
    decreases a.len(),
{
    if a.len() == 0 || b.len() == 0 {
        if a.len() == 0 && b.len() == 0 {
            assert(a =~= b);
        }
    } else if a[0] != b[0] {
    } else {
        lemma_bytes_order_equal(a.drop_first(), b.drop_first());
        if a.drop_first() == b.drop_first() {
            assert(a =~= seq![a[0]] + a.drop_first());
            assert(b =~= seq![b[0]] + b.drop_first());
        }
    }
}

/// Swapping the two byte strings mirrors the result.
pub proof fn lemma_bytes_order_mirror(a: Seq<u8>, b: Seq<u8>)
    ensures
        bytes_order(b, a) == bytes_order(a, b).mirror(),
    decreases a.len(),
{
    if a.len() == 0 || b.len() == 0 {
    } else if a[0] != b[0] {
    } else {
        lemma_bytes_order_mirror(a.drop_first(), b.drop_first());
    }
}

/// The order of byte strings is transitive, and `Equal` may be replaced on either
/// side.
pub proof fn lemma_bytes_order_transitive(a: Seq<u8>, b: Seq<u8>, c: Seq<u8>)
    ensures
        bytes_order(a, b) == Order::Less && bytes_order(b, c) != Order::Greater
            ==> bytes_order(a, c) == Order::Less,
        bytes_order(a, b) != Order::Greater && bytes_order(b, c) == Order::Less
            ==> bytes_order(a, c) == Order::Less,
        bytes_order(a, b) == Order::Equal && bytes_order(b, c) == Order::Equal
            ==> bytes_order(a, c) == Order::Equal,
    decreases a.len(),
{
    if a.len() == 0 || b.len() == 0 || c.len() == 0 {
    } else if a[0] != b[0] || b[0] != c[0] {
    } else {
        lemma_bytes_order_transitive(a.drop_first(), b.drop_first(), c.drop_first());
    }
}

/// A payload that can be compared with a payload of another backend.
///
/// `same` is the equality and `order` the partial order that a backend gives to
/// the pair of types; the two agree on what is equal.
pub trait Comparable<Rhs> {
    /// Whether the two payloads are logically equal.
    spec fn same(&self, other: &Rhs) -> bool;

    /// How this payload stands to the other, where the two can be ordered.
    spec fn order(&self, other: &Rhs) -> Option<Order>;

    /// Equality and order agree: two payloads are equal exactly when they are
    /// ordered as `Equal`.
    proof fn lemma_same_is_equal(&self, other: &Rhs)
        ensures
            self.same(other) <==> self.order(other) == Some(Order::Equal),
    ;

    /// Tests the two payloads for logical equality.
    fn is_same(&self, other: &Rhs) -> (r: bool)
        ensures
            r == self.same(other),
    ;

    /// Orders the two payloads.
    fn compare(&self, other: &Rhs) -> (r: Option<Order>)
        ensures
            r == self.order(other),
    ;
}

impl Comparable<bool> for bool {
    open spec fn same(&self, other: &bool) -> bool {
        *self == *other
    }

    open spec fn order(&self, other: &bool) -> Option<Order> {
        Some(bool_order(*self, *other))
    }

    proof fn lemma_same_is_equal(&self, other: &bool) {
    }

    fn is_same(&self, other: &bool) -> (r: bool) {
        *self == *other
    }

    fn compare(&self, other: &bool) -> (r: Option<Order>) {
        if *self == *other {
            Some(Order::Equal)
        } else if *other {
            Some(Order::Less)
        } else {
            Some(Order::Greater)
        }
    }
}

} // verus!
