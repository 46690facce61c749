//! Comparison of values of two backends, which may differ: by variant first, by
//! payload second.
//!
//! The variants are ordered `Null < Boolean < Number < String < Array < Object`.
//! Two values of different variants are never equal and are ordered by their
//! variants alone. Two values of the same variant are compared as their payloads
//! are, by the comparison that the two backends give to the pair of payload types.
use vstd::prelude::*;
use vstd::std_specs::cmp::PartialEqSpec;
use vstd::std_specs::cmp::PartialOrdSpec;
use core::cmp::Ordering;
use crate::Json;
use crate::order::Comparable;
use crate::order::Order;
use crate::order::bool_order;
use crate::order::int_order;
use crate::order::mirror_option;
use crate::order::ordering_option;
use crate::text::Text;
use crate::text::str_eq;
use crate::value::Value;

verus! {

impl<T: Json> Value<T> {
    /// Whether this value and a value of another backend are logically equal: of
    /// the same variant, with equal payloads.
    pub open spec fn same_as<U: Json>(self, other: Value<U>) -> bool where
        T::Number: Comparable<U::Number>,
        T::String: Comparable<U::String>,
        T::Array: Comparable<U::Array>,
        T::Object: Comparable<U::Object>,
     {
        match (self, other) {
            (Value::Null, Value::Null) => true,
            (Value::Boolean(a), Value::Boolean(b)) => a == b,
            (Value::Number(a), Value::Number(b)) => a.same(&b),
            (Value::String(a), Value::String(b)) => a.same(&b),
            (Value::Array(a), Value::Array(b)) => a.same(&b),
            (Value::Object(a), Value::Object(b)) => a.same(&b),
            _ => false,
        }
    }

    /// How this value stands to a value of another backend: as the variants stand
    /// where they differ, else as the payloads stand.
    pub open spec fn order_to<U: Json>(self, other: Value<U>) -> Option<Order> where
        T::Number: Comparable<U::Number>,
        T::String: Comparable<U::String>,
        T::Array: Comparable<U::Array>,
        T::Object: Comparable<U::Object>,
     {
        match (self, other) {
            (Value::Null, Value::Null) => Some(Order::Equal),
            (Value::Boolean(a), Value::Boolean(b)) => Some(bool_order(a, b)),
            (Value::Number(a), Value::Number(b)) => a.order(&b),
            (Value::String(a), Value::String(b)) => a.order(&b),
            (Value::Array(a), Value::Array(b)) => a.order(&b),
            (Value::Object(a), Value::Object(b)) => a.order(&b),
            _ => Some(int_order(self.spec_tag().rank(), other.spec_tag().rank())),
        }
    }

    /// Whether the payloads of the two values are compared alike from both sides.
    /// It holds of two values of different variants.
    pub open spec fn payloads_mirrored<U: Json>(self, other: Value<U>) -> bool where
        T::Number: Comparable<U::Number>,
        T::String: Comparable<U::String>,
        T::Array: Comparable<U::Array>,
        T::Object: Comparable<U::Object>,
        U::Number: Comparable<T::Number>,
        U::String: Comparable<T::String>,
        U::Array: Comparable<T::Array>,
        U::Object: Comparable<T::Object>,
     {
        match (self, other) {
            (Value::Number(a), Value::Number(b)) => b.order(&a) == mirror_option(a.order(&b)),
            (Value::String(a), Value::String(b)) => b.order(&a) == mirror_option(a.order(&b)),
            (Value::Array(a), Value::Array(b)) => b.order(&a) == mirror_option(a.order(&b)),
            (Value::Object(a), Value::Object(b)) => b.order(&a) == mirror_option(a.order(&b)),
            _ => true,
        }
    }

    /// Two values of different variants are ordered, never equal, and stand as
    /// their variants stand in `Null < Boolean < Number < String < Array < Object`:
    /// exactly one of less and greater holds.
    pub proof fn lemma_different_tags_ordered<U: Json>(self, other: Value<U>) where
        T::Number: Comparable<U::Number>,
        T::String: Comparable<U::String>,
        T::Array: Comparable<U::Array>,
        T::Object: Comparable<U::Object>,

        requires
            self.spec_tag() != other.spec_tag(),
        ensures
            !self.same_as(other),
            self.order_to(other) == Some(Order::Less) <==> self.spec_tag().rank()
                < other.spec_tag().rank(),
            self.order_to(other) == Some(Order::Greater) <==> self.spec_tag().rank()
                > other.spec_tag().rank(),
            self.order_to(other) == Some(Order::Less) || self.order_to(other) == Some(
                Order::Greater,
            ),
            self.partial_cmp_spec(&other) == Some(Ordering::Less) || self.partial_cmp_spec(&other)
                == Some(Ordering::Greater),
    {
    }

    /// Equality and order agree: two values are logically equal exactly when they
    /// are ordered as `Equal`.
    pub proof fn lemma_same_as_is_equal<U: Json>(self, other: Value<U>) where
        T::Number: Comparable<U::Number>,
        T::String: Comparable<U::String>,
        T::Array: Comparable<U::Array>,
        T::Object: Comparable<U::Object>,

        ensures
            self.same_as(other) <==> self.order_to(other) == Some(Order::Equal),
    {
        match (self, other) {
            (Value::Number(a), Value::Number(b)) => a.lemma_same_is_equal(&b),
            (Value::String(a), Value::String(b)) => a.lemma_same_is_equal(&b),
            (Value::Array(a), Value::Array(b)) => a.lemma_same_is_equal(&b),
            (Value::Object(a), Value::Object(b)) => a.lemma_same_is_equal(&b),
            _ => {},
        }
    }

    /// Comparing from the other side mirrors the result, wherever the comparison of
    /// the payloads does: equal stays equal, less becomes greater, greater becomes
    /// less, and what cannot be ordered from one side cannot be from the other.
    pub proof fn lemma_order_mirrored<U: Json>(self, other: Value<U>) where
        T::Number: Comparable<U::Number>,
        T::String: Comparable<U::String>,
        T::Array: Comparable<U::Array>,
        T::Object: Comparable<U::Object>,
        U::Number: Comparable<T::Number>,
        U::String: Comparable<T::String>,
        U::Array: Comparable<T::Array>,
        U::Object: Comparable<T::Object>,

        requires
            self.payloads_mirrored(other),
        ensures
            other.order_to(self) == mirror_option(self.order_to(other)),
            other.same_as(self) == self.same_as(other),
    {
        self.lemma_same_as_is_equal(other);
        other.lemma_same_as_is_equal(self);
    }

    /// Tests this value and a value of another backend for logical equality.
    pub fn is_same_as<U: Json>(&self, other: &Value<U>) -> (r: bool) where
        T::Number: Comparable<U::Number>,
        T::String: Comparable<U::String>,
        T::Array: Comparable<U::Array>,
        T::Object: Comparable<U::Object>,

        ensures
            r == self.same_as(*other),
    {
        match (self, other) {
            (Value::Null, Value::Null) => true,
            (Value::Boolean(a), Value::Boolean(b)) => *a == *b,
            (Value::Number(a), Value::Number(b)) => a.is_same(b),
            (Value::String(a), Value::String(b)) => a.is_same(b),
            (Value::Array(a), Value::Array(b)) => a.is_same(b),
            (Value::Object(a), Value::Object(b)) => a.is_same(b),
            _ => false,
        }
    }

    /// Orders this value and a value of another backend.
    pub fn compare_to<U: Json>(&self, other: &Value<U>) -> (r: Option<Order>) where
        T::Number: Comparable<U::Number>,
        T::String: Comparable<U::String>,
        T::Array: Comparable<U::Array>,
        T::Object: Comparable<U::Object>,

        ensures
            r == self.order_to(*other),
    {
        match (self, other) {
            (Value::Null, Value::Null) => Some(Order::Equal),
            (Value::Boolean(a), Value::Boolean(b)) => a.compare(b),
            (Value::Number(a), Value::Number(b)) => a.compare(b),
            (Value::String(a), Value::String(b)) => a.compare(b),
            (Value::Array(a), Value::Array(b)) => a.compare(b),
            (Value::Object(a), Value::Object(b)) => a.compare(b),
            _ => {
                if self.tag().index() < other.tag().index() {
                    Some(Order::Less)
                } else {
                    Some(Order::Greater)
                }
            },
        }
    }
}

impl<T: Json, U: Json> Comparable<Value<U>> for Value<T> where
    T::Number: Comparable<U::Number>,
    T::String: Comparable<U::String>,
    T::Array: Comparable<U::Array>,
    T::Object: Comparable<U::Object>,
 {
    open spec fn same(&self, other: &Value<U>) -> bool {
        self.same_as(*other)
    }

    open spec fn order(&self, other: &Value<U>) -> Option<Order> {
        self.order_to(*other)
    }

    proof fn lemma_same_is_equal(&self, other: &Value<U>) {
        self.lemma_same_as_is_equal(*other);
    }

    fn is_same(&self, other: &Value<U>) -> (r: bool) {
        self.is_same_as(other)
    }

    fn compare(&self, other: &Value<U>) -> (r: Option<Order>) {
        self.compare_to(other)
    }
}

impl<T: Json, U: Json> PartialEq<Value<U>> for Value<T> where
    T::Number: Comparable<U::Number>,
    T::String: Comparable<U::String>,
    T::Array: Comparable<U::Array>,
    T::Object: Comparable<U::Object>,
 {
    fn eq(&self, other: &Value<U>) -> (r: bool) {
        self.is_same_as(other)
    }
}

impl<T: Json, U: Json> vstd::std_specs::cmp::PartialEqSpecImpl<Value<U>> for Value<T> where
    T::Number: Comparable<U::Number>,
    T::String: Comparable<U::String>,
    T::Array: Comparable<U::Array>,
    T::Object: Comparable<U::Object>,
 {
    open spec fn obeys_eq_spec() -> bool {
        true
    }

    open spec fn eq_spec(&self, other: &Value<U>) -> bool {
        self.same_as(*other)
    }
}

impl<T: Json, U: Json> PartialOrd<Value<U>> for Value<T> where
    T::Number: Comparable<U::Number>,
    T::String: Comparable<U::String>,
    T::Array: Comparable<U::Array>,
    T::Object: Comparable<U::Object>,
 {
    fn partial_cmp(&self, other: &Value<U>) -> (r: Option<Ordering>) {
        match self.compare_to(other) {
            Some(o) => Some(o.to_ordering()),
            None => None,
        }
    }
}

impl<T: Json, U: Json> vstd::std_specs::cmp::PartialOrdSpecImpl<Value<U>> for Value<T> where
    T::Number: Comparable<U::Number>,
    T::String: Comparable<U::String>,
    T::Array: Comparable<U::Array>,
    T::Object: Comparable<U::Object>,
 {
    open spec fn obeys_partial_cmp_spec() -> bool {
        true
    }

    open spec fn partial_cmp_spec(&self, other: &Value<U>) -> Option<Ordering> {
        ordering_option(self.order_to(*other))
    }
}

impl<'a, T: Json> PartialEq<&'a str> for Value<T> {
    fn eq(&self, other: &&'a str) -> (r: bool) {
        match self {
            Value::String(s) => str_eq(s.as_str(), *other),
            _ => false,
        }
    }
}

impl<'a, T: Json> vstd::std_specs::cmp::PartialEqSpecImpl<&'a str> for Value<T> {
    open spec fn obeys_eq_spec() -> bool {
        true
    }

    open spec fn eq_spec(&self, other: &&'a str) -> bool {
        self.text_payload() == Some(other@)
    }
}

impl<T: Json> PartialEq<String> for Value<T> {
    fn eq(&self, other: &String) -> (r: bool) {
        match self {
            Value::String(s) => str_eq(s.as_str(), other.as_str()),
            _ => false,
        }
    }
}

impl<T: Json> vstd::std_specs::cmp::PartialEqSpecImpl<String> for Value<T> {
    open spec fn obeys_eq_spec() -> bool {
        true
    }

    open spec fn eq_spec(&self, other: &String) -> bool {
        self.text_payload() == Some(other@)
    }
}

impl<T: Json> PartialEq<bool> for Value<T> {
    fn eq(&self, other: &bool) -> (r: bool) {
        match self {
            Value::Boolean(b) => *b == *other,
            _ => false,
        }
    }
}

impl<T: Json> vstd::std_specs::cmp::PartialEqSpecImpl<bool> for Value<T> {
    open spec fn obeys_eq_spec() -> bool {
        true
    }

    open spec fn eq_spec(&self, other: &bool) -> bool {
        self.bool_payload() == Some(*other)
    }
}

} // verus!
