//! Conversions of plain values into values of a backend, and equality of a value
//! with a plain number.
//!
//! A conversion wraps what the payload type of the backend makes of the plain
//! value; an equality holds where the value is a number and the number type finds
//! itself equal to the plain number.
use vstd::prelude::*;
use vstd::std_specs::cmp::PartialEqSpec;
use vstd::std_specs::convert::FromSpec;
use std::borrow::Cow;
use crate::Json;
use crate::value::Value;

verus! {

impl<T: Json> From<u8> for Value<T> where T::Number: From<u8> {
    /// The number that the number type of the backend makes of `v`.
    fn from(v: u8) -> (r: Self)
        ensures
            r matches Value::Number(x) && call_ensures(
                <T::Number as From<u8>>::from,
                (v,),
                x,
            ),
    {
        Value::Number(<T::Number as From<u8>>::from(v))
    }
}

impl<T: Json> vstd::std_specs::convert::FromSpecImpl<u8> for Value<T> where T::Number: From<u8> {
    open spec fn obeys_from_spec() -> bool {
        <T::Number as FromSpec<u8>>::obeys_from_spec()
    }

    open spec fn from_spec(v: u8) -> Self {
        Value::Number(<T::Number as FromSpec<u8>>::from_spec(v))
    }
}

impl<T: Json> PartialEq<u8> for Value<T> where T::Number: PartialEq<u8> {
    fn eq(&self, other: &u8) -> (r: bool) {
        match self {
            Value::Number(n) => n == other,
            _ => false,
        }
    }
}

impl<T: Json> vstd::std_specs::cmp::PartialEqSpecImpl<u8> for Value<T> where T::Number: PartialEq<u8> {
    open spec fn obeys_eq_spec() -> bool {
        <T::Number as PartialEqSpec<u8>>::obeys_eq_spec()
    }

    open spec fn eq_spec(&self, other: &u8) -> bool {
        match self {
            Value::Number(n) => n.eq_spec(other),
            _ => false,
        }
    }
}

impl<'a, T: Json> PartialEq<u8> for &'a Value<T> where T::Number: PartialEq<u8> {
    fn eq(&self, other: &u8) -> (r: bool) {
        match self {
            Value::Number(n) => n == other,
            _ => false,
        }
    }
}

impl<'a, T: Json> vstd::std_specs::cmp::PartialEqSpecImpl<u8> for &'a Value<T> where T::Number: PartialEq<u8> {
    open spec fn obeys_eq_spec() -> bool {
        <T::Number as PartialEqSpec<u8>>::obeys_eq_spec()
    }

    open spec fn eq_spec(&self, other: &u8) -> bool {
        match **self {
            Value::Number(n) => n.eq_spec(other),
            _ => false,
        }
    }
}

impl<'a, T: Json> PartialEq<u8> for &'a mut Value<T> where T::Number: PartialEq<u8> {
    fn eq(&self, other: &u8) -> (r: bool) {
        match self {
            Value::Number(n) => n == other,
            _ => false,
        }
    }
}

impl<'a, T: Json> vstd::std_specs::cmp::PartialEqSpecImpl<u8> for &'a mut Value<T> where T::Number: PartialEq<u8> {
    open spec fn obeys_eq_spec() -> bool {
        <T::Number as PartialEqSpec<u8>>::obeys_eq_spec()
    }

    open spec fn eq_spec(&self, other: &u8) -> bool {
        match **self {
            Value::Number(n) => n.eq_spec(other),
            _ => false,
        }
    }
}

impl<T: Json> PartialEq<Value<T>> for u8 where u8: PartialEq<T::Number> {
    fn eq(&self, other: &Value<T>) -> (r: bool) {
        match other {
            Value::Number(n) => self == n,
            _ => false,
        }
    }
}

impl<T: Json> vstd::std_specs::cmp::PartialEqSpecImpl<Value<T>> for u8 where u8: PartialEq<T::Number> {
    open spec fn obeys_eq_spec() -> bool {
        <u8 as PartialEqSpec<T::Number>>::obeys_eq_spec()
    }

    open spec fn eq_spec(&self, other: &Value<T>) -> bool {
        match other {
            Value::Number(n) => PartialEqSpec::eq_spec(self, n),
            _ => false,
        }
    }
}

impl<T: Json> From<u16> for Value<T> where T::Number: From<u16> {
    /// The number that the number type of the backend makes of `v`.
    fn from(v: u16) -> (r: Self)
        ensures
            r matches Value::Number(x) && call_ensures(
                <T::Number as From<u16>>::from,
                (v,),
                x,
            ),
    {
        Value::Number(<T::Number as From<u16>>::from(v))
    }
}

impl<T: Json> vstd::std_specs::convert::FromSpecImpl<u16> for Value<T> where T::Number: From<u16> {
    open spec fn obeys_from_spec() -> bool {
        <T::Number as FromSpec<u16>>::obeys_from_spec()
    }

    open spec fn from_spec(v: u16) -> Self {
        Value::Number(<T::Number as FromSpec<u16>>::from_spec(v))
    }
}

impl<T: Json> PartialEq<u16> for Value<T> where T::Number: PartialEq<u16> {
    fn eq(&self, other: &u16) -> (r: bool) {
        match self {
            Value::Number(n) => n == other,
            _ => false,
        }
    }
}

impl<T: Json> vstd::std_specs::cmp::PartialEqSpecImpl<u16> for Value<T> where T::Number: PartialEq<u16> {
    open spec fn obeys_eq_spec() -> bool {
        <T::Number as PartialEqSpec<u16>>::obeys_eq_spec()
    }

    open spec fn eq_spec(&self, other: &u16) -> bool {
        match self {
            Value::Number(n) => n.eq_spec(other),
            _ => false,
        }
    }
}

impl<'a, T: Json> PartialEq<u16> for &'a Value<T> where T::Number: PartialEq<u16> {
    fn eq(&self, other: &u16) -> (r: bool) {
        match self {
            Value::Number(n) => n == other,
            _ => false,
        }
    }
}

impl<'a, T: Json> vstd::std_specs::cmp::PartialEqSpecImpl<u16> for &'a Value<T> where T::Number: PartialEq<u16> {
    open spec fn obeys_eq_spec() -> bool {
        <T::Number as PartialEqSpec<u16>>::obeys_eq_spec()
    }

    open spec fn eq_spec(&self, other: &u16) -> bool {
        match **self {
            Value::Number(n) => n.eq_spec(other),
            _ => false,
        }
    }
}

impl<'a, T: Json> PartialEq<u16> for &'a mut Value<T> where T::Number: PartialEq<u16> {
    fn eq(&self, other: &u16) -> (r: bool) {
        match self {
            Value::Number(n) => n == other,
            _ => false,
        }
    }
}

impl<'a, T: Json> vstd::std_specs::cmp::PartialEqSpecImpl<u16> for &'a mut Value<T> where T::Number: PartialEq<u16> {
    open spec fn obeys_eq_spec() -> bool {
        <T::Number as PartialEqSpec<u16>>::obeys_eq_spec()
    }

    open spec fn eq_spec(&self, other: &u16) -> bool {
        match **self {
            Value::Number(n) => n.eq_spec(other),
            _ => false,
        }
    }
}

impl<T: Json> PartialEq<Value<T>> for u16 where u16: PartialEq<T::Number> {
    fn eq(&self, other: &Value<T>) -> (r: bool) {
        match other {
            Value::Number(n) => self == n,
            _ => false,
        }
    }
}

impl<T: Json> vstd::std_specs::cmp::PartialEqSpecImpl<Value<T>> for u16 where u16: PartialEq<T::Number> {
    open spec fn obeys_eq_spec() -> bool {
        <u16 as PartialEqSpec<T::Number>>::obeys_eq_spec()
    }

    open spec fn eq_spec(&self, other: &Value<T>) -> bool {
        match other {
            Value::Number(n) => PartialEqSpec::eq_spec(self, n),
            _ => false,
        }
    }
}

impl<T: Json> From<u32> for Value<T> where T::Number: From<u32> {
    /// The number that the number type of the backend makes of `v`.
    fn from(v: u32) -> (r: Self)
        ensures
            r matches Value::Number(x) && call_ensures(
                <T::Number as From<u32>>::from,
                (v,),
                x,
            ),
    {
        Value::Number(<T::Number as From<u32>>::from(v))
    }
}

impl<T: Json> vstd::std_specs::convert::FromSpecImpl<u32> for Value<T> where T::Number: From<u32> {
    open spec fn obeys_from_spec() -> bool {
        <T::Number as FromSpec<u32>>::obeys_from_spec()
    }

    open spec fn from_spec(v: u32) -> Self {
        Value::Number(<T::Number as FromSpec<u32>>::from_spec(v))
    }
}

impl<T: Json> PartialEq<u32> for Value<T> where T::Number: PartialEq<u32> {
    fn eq(&self, other: &u32) -> (r: bool) {
        match self {
            Value::Number(n) => n == other,
            _ => false,
        }
    }
}

impl<T: Json> vstd::std_specs::cmp::PartialEqSpecImpl<u32> for Value<T> where T::Number: PartialEq<u32> {
    open spec fn obeys_eq_spec() -> bool {
        <T::Number as PartialEqSpec<u32>>::obeys_eq_spec()
    }

    open spec fn eq_spec(&self, other: &u32) -> bool {
        match self {
            Value::Number(n) => n.eq_spec(other),
            _ => false,
        }
    }
}

impl<'a, T: Json> PartialEq<u32> for &'a Value<T> where T::Number: PartialEq<u32> {
    fn eq(&self, other: &u32) -> (r: bool) {
        match self {
            Value::Number(n) => n == other,
            _ => false,
        }
    }
}

impl<'a, T: Json> vstd::std_specs::cmp::PartialEqSpecImpl<u32> for &'a Value<T> where T::Number: PartialEq<u32> {
    open spec fn obeys_eq_spec() -> bool {
        <T::Number as PartialEqSpec<u32>>::obeys_eq_spec()
    }

    open spec fn eq_spec(&self, other: &u32) -> bool {
        match **self {
            Value::Number(n) => n.eq_spec(other),
            _ => false,
        }
    }
}

impl<'a, T: Json> PartialEq<u32> for &'a mut Value<T> where T::Number: PartialEq<u32> {
    fn eq(&self, other: &u32) -> (r: bool) {
        match self {
            Value::Number(n) => n == other,
            _ => false,
        }
    }
}

impl<'a, T: Json> vstd::std_specs::cmp::PartialEqSpecImpl<u32> for &'a mut Value<T> where T::Number: PartialEq<u32> {
    open spec fn obeys_eq_spec() -> bool {
        <T::Number as PartialEqSpec<u32>>::obeys_eq_spec()
    }

    open spec fn eq_spec(&self, other: &u32) -> bool {
        match **self {
            Value::Number(n) => n.eq_spec(other),
            _ => false,
        }
    }
}

impl<T: Json> PartialEq<Value<T>> for u32 where u32: PartialEq<T::Number> {
    fn eq(&self, other: &Value<T>) -> (r: bool) {
        match other {
            Value::Number(n) => self == n,
            _ => false,
        }
    }
}

impl<T: Json> vstd::std_specs::cmp::PartialEqSpecImpl<Value<T>> for u32 where u32: PartialEq<T::Number> {
    open spec fn obeys_eq_spec() -> bool {
        <u32 as PartialEqSpec<T::Number>>::obeys_eq_spec()
    }

    open spec fn eq_spec(&self, other: &Value<T>) -> bool {
        match other {
            Value::Number(n) => PartialEqSpec::eq_spec(self, n),
            _ => false,
        }
    }
}

impl<T: Json> From<u64> for Value<T> where T::Number: From<u64> {
    /// The number that the number type of the backend makes of `v`.
    fn from(v: u64) -> (r: Self)
        ensures
            r matches Value::Number(x) && call_ensures(
                <T::Number as From<u64>>::from,
                (v,),
                x,
            ),
    {
        Value::Number(<T::Number as From<u64>>::from(v))
    }
}

impl<T: Json> vstd::std_specs::convert::FromSpecImpl<u64> for Value<T> where T::Number: From<u64> {
    open spec fn obeys_from_spec() -> bool {
        <T::Number as FromSpec<u64>>::obeys_from_spec()
    }

    open spec fn from_spec(v: u64) -> Self {
        Value::Number(<T::Number as FromSpec<u64>>::from_spec(v))
    }
}

impl<T: Json> PartialEq<u64> for Value<T> where T::Number: PartialEq<u64> {
    fn eq(&self, other: &u64) -> (r: bool) {
        match self {
            Value::Number(n) => n == other,
            _ => false,
        }
    }
}

impl<T: Json> vstd::std_specs::cmp::PartialEqSpecImpl<u64> for Value<T> where T::Number: PartialEq<u64> {
    open spec fn obeys_eq_spec() -> bool {
        <T::Number as PartialEqSpec<u64>>::obeys_eq_spec()
    }

    open spec fn eq_spec(&self, other: &u64) -> bool {
        match self {
            Value::Number(n) => n.eq_spec(other),
            _ => false,
        }
    }
}

impl<'a, T: Json> PartialEq<u64> for &'a Value<T> where T::Number: PartialEq<u64> {
    fn eq(&self, other: &u64) -> (r: bool) {
        match self {
            Value::Number(n) => n == other,
            _ => false,
        }
    }
}

impl<'a, T: Json> vstd::std_specs::cmp::PartialEqSpecImpl<u64> for &'a Value<T> where T::Number: PartialEq<u64> {
    open spec fn obeys_eq_spec() -> bool {
        <T::Number as PartialEqSpec<u64>>::obeys_eq_spec()
    }

    open spec fn eq_spec(&self, other: &u64) -> bool {
        match **self {
            Value::Number(n) => n.eq_spec(other),
            _ => false,
        }
    }
}

impl<'a, T: Json> PartialEq<u64> for &'a mut Value<T> where T::Number: PartialEq<u64> {
    fn eq(&self, other: &u64) -> (r: bool) {
        match self {
            Value::Number(n) => n == other,
            _ => false,
        }
    }
}

impl<'a, T: Json> vstd::std_specs::cmp::PartialEqSpecImpl<u64> for &'a mut Value<T> where T::Number: PartialEq<u64> {
    open spec fn obeys_eq_spec() -> bool {
        <T::Number as PartialEqSpec<u64>>::obeys_eq_spec()
    }

    open spec fn eq_spec(&self, other: &u64) -> bool {
        match **self {
            Value::Number(n) => n.eq_spec(other),
            _ => false,
        }
    }
}

impl<T: Json> PartialEq<Value<T>> for u64 where u64: PartialEq<T::Number> {
    fn eq(&self, other: &Value<T>) -> (r: bool) {
        match other {
            Value::Number(n) => self == n,
            _ => false,
        }
    }
}

impl<T: Json> vstd::std_specs::cmp::PartialEqSpecImpl<Value<T>> for u64 where u64: PartialEq<T::Number> {
    open spec fn obeys_eq_spec() -> bool {
        <u64 as PartialEqSpec<T::Number>>::obeys_eq_spec()
    }

    open spec fn eq_spec(&self, other: &Value<T>) -> bool {
        match other {
            Value::Number(n) => PartialEqSpec::eq_spec(self, n),
            _ => false,
        }
    }
}

impl<T: Json> From<usize> for Value<T> where T::Number: From<usize> {
    /// The number that the number type of the backend makes of `v`.
    fn from(v: usize) -> (r: Self)
        ensures
            r matches Value::Number(x) && call_ensures(
                <T::Number as From<usize>>::from,
                (v,),
                x,
            ),
    {
        Value::Number(<T::Number as From<usize>>::from(v))
    }
}

impl<T: Json> vstd::std_specs::convert::FromSpecImpl<usize> for Value<T> where T::Number: From<usize> {
    open spec fn obeys_from_spec() -> bool {
        <T::Number as FromSpec<usize>>::obeys_from_spec()
    }

    open spec fn from_spec(v: usize) -> Self {
        Value::Number(<T::Number as FromSpec<usize>>::from_spec(v))
    }
}

impl<T: Json> PartialEq<usize> for Value<T> where T::Number: PartialEq<usize> {
    fn eq(&self, other: &usize) -> (r: bool) {
        match self {
            Value::Number(n) => n == other,
            _ => false,
        }
    }
}

impl<T: Json> vstd::std_specs::cmp::PartialEqSpecImpl<usize> for Value<T> where T::Number: PartialEq<usize> {
    open spec fn obeys_eq_spec() -> bool {
        <T::Number as PartialEqSpec<usize>>::obeys_eq_spec()
    }

    open spec fn eq_spec(&self, other: &usize) -> bool {
        match self {
            Value::Number(n) => n.eq_spec(other),
            _ => false,
        }
    }
}

impl<'a, T: Json> PartialEq<usize> for &'a Value<T> where T::Number: PartialEq<usize> {
    fn eq(&self, other: &usize) -> (r: bool) {
        match self {
            Value::Number(n) => n == other,
            _ => false,
        }
    }
}

impl<'a, T: Json> vstd::std_specs::cmp::PartialEqSpecImpl<usize> for &'a Value<T> where T::Number: PartialEq<usize> {
    open spec fn obeys_eq_spec() -> bool {
        <T::Number as PartialEqSpec<usize>>::obeys_eq_spec()
    }

    open spec fn eq_spec(&self, other: &usize) -> bool {
        match **self {
            Value::Number(n) => n.eq_spec(other),
            _ => false,
        }
    }
}

impl<'a, T: Json> PartialEq<usize> for &'a mut Value<T> where T::Number: PartialEq<usize> {
    fn eq(&self, other: &usize) -> (r: bool) {
        match self {
            Value::Number(n) => n == other,
            _ => false,
        }
    }
}

impl<'a, T: Json> vstd::std_specs::cmp::PartialEqSpecImpl<usize> for &'a mut Value<T> where T::Number: PartialEq<usize> {
    open spec fn obeys_eq_spec() -> bool {
        <T::Number as PartialEqSpec<usize>>::obeys_eq_spec()
    }

    open spec fn eq_spec(&self, other: &usize) -> bool {
        match **self {
            Value::Number(n) => n.eq_spec(other),
            _ => false,
        }
    }
}

impl<T: Json> PartialEq<Value<T>> for usize where usize: PartialEq<T::Number> {
    fn eq(&self, other: &Value<T>) -> (r: bool) {
        match other {
            Value::Number(n) => self == n,
            _ => false,
        }
    }
}

impl<T: Json> vstd::std_specs::cmp::PartialEqSpecImpl<Value<T>> for usize where usize: PartialEq<T::Number> {
    open spec fn obeys_eq_spec() -> bool {
        <usize as PartialEqSpec<T::Number>>::obeys_eq_spec()
    }

    open spec fn eq_spec(&self, other: &Value<T>) -> bool {
        match other {
            Value::Number(n) => PartialEqSpec::eq_spec(self, n),
            _ => false,
        }
    }
}

impl<T: Json> From<i8> for Value<T> where T::Number: From<i8> {
    /// The number that the number type of the backend makes of `v`.
    fn from(v: i8) -> (r: Self)
        ensures
            r matches Value::Number(x) && call_ensures(
                <T::Number as From<i8>>::from,
                (v,),
                x,
            ),
    {
        Value::Number(<T::Number as From<i8>>::from(v))
    }
}

impl<T: Json> vstd::std_specs::convert::FromSpecImpl<i8> for Value<T> where T::Number: From<i8> {
    open spec fn obeys_from_spec() -> bool {
        <T::Number as FromSpec<i8>>::obeys_from_spec()
    }

    open spec fn from_spec(v: i8) -> Self {
        Value::Number(<T::Number as FromSpec<i8>>::from_spec(v))
    }
}

impl<T: Json> PartialEq<i8> for Value<T> where T::Number: PartialEq<i8> {
    fn eq(&self, other: &i8) -> (r: bool) {
        match self {
            Value::Number(n) => n == other,
            _ => false,
        }
    }
}

impl<T: Json> vstd::std_specs::cmp::PartialEqSpecImpl<i8> for Value<T> where T::Number: PartialEq<i8> {
    open spec fn obeys_eq_spec() -> bool {
        <T::Number as PartialEqSpec<i8>>::obeys_eq_spec()
    }

    open spec fn eq_spec(&self, other: &i8) -> bool {
        match self {
            Value::Number(n) => n.eq_spec(other),
            _ => false,
        }
    }
}

impl<'a, T: Json> PartialEq<i8> for &'a Value<T> where T::Number: PartialEq<i8> {
    fn eq(&self, other: &i8) -> (r: bool) {
        match self {
            Value::Number(n) => n == other,
            _ => false,
        }
    }
}

impl<'a, T: Json> vstd::std_specs::cmp::PartialEqSpecImpl<i8> for &'a Value<T> where T::Number: PartialEq<i8> {
    open spec fn obeys_eq_spec() -> bool {
        <T::Number as PartialEqSpec<i8>>::obeys_eq_spec()
    }

    open spec fn eq_spec(&self, other: &i8) -> bool {
        match **self {
            Value::Number(n) => n.eq_spec(other),
            _ => false,
        }
    }
}

impl<'a, T: Json> PartialEq<i8> for &'a mut Value<T> where T::Number: PartialEq<i8> {
    fn eq(&self, other: &i8) -> (r: bool) {
        match self {
            Value::Number(n) => n == other,
            _ => false,
        }
    }
}

impl<'a, T: Json> vstd::std_specs::cmp::PartialEqSpecImpl<i8> for &'a mut Value<T> where T::Number: PartialEq<i8> {
    open spec fn obeys_eq_spec() -> bool {
        <T::Number as PartialEqSpec<i8>>::obeys_eq_spec()
    }

    open spec fn eq_spec(&self, other: &i8) -> bool {
        match **self {
            Value::Number(n) => n.eq_spec(other),
            _ => false,
        }
    }
}

impl<T: Json> PartialEq<Value<T>> for i8 where i8: PartialEq<T::Number> {
    fn eq(&self, other: &Value<T>) -> (r: bool) {
        match other {
            Value::Number(n) => self == n,
            _ => false,
        }
    }
}

impl<T: Json> vstd::std_specs::cmp::PartialEqSpecImpl<Value<T>> for i8 where i8: PartialEq<T::Number> {
    open spec fn obeys_eq_spec() -> bool {
        <i8 as PartialEqSpec<T::Number>>::obeys_eq_spec()
    }

    open spec fn eq_spec(&self, other: &Value<T>) -> bool {
        match other {
            Value::Number(n) => PartialEqSpec::eq_spec(self, n),
            _ => false,
        }
    }
}

impl<T: Json> From<i16> for Value<T> where T::Number: From<i16> {
    /// The number that the number type of the backend makes of `v`.
    fn from(v: i16) -> (r: Self)
        ensures
            r matches Value::Number(x) && call_ensures(
                <T::Number as From<i16>>::from,
                (v,),
                x,
            ),
    {
        Value::Number(<T::Number as From<i16>>::from(v))
    }
}

impl<T: Json> vstd::std_specs::convert::FromSpecImpl<i16> for Value<T> where T::Number: From<i16> {
    open spec fn obeys_from_spec() -> bool {
        <T::Number as FromSpec<i16>>::obeys_from_spec()
    }

    open spec fn from_spec(v: i16) -> Self {
        Value::Number(<T::Number as FromSpec<i16>>::from_spec(v))
    }
}

impl<T: Json> PartialEq<i16> for Value<T> where T::Number: PartialEq<i16> {
    fn eq(&self, other: &i16) -> (r: bool) {
        match self {
            Value::Number(n) => n == other,
            _ => false,
        }
    }
}

impl<T: Json> vstd::std_specs::cmp::PartialEqSpecImpl<i16> for Value<T> where T::Number: PartialEq<i16> {
    open spec fn obeys_eq_spec() -> bool {
        <T::Number as PartialEqSpec<i16>>::obeys_eq_spec()
    }

    open spec fn eq_spec(&self, other: &i16) -> bool {
        match self {
            Value::Number(n) => n.eq_spec(other),
            _ => false,
        }
    }
}

impl<'a, T: Json> PartialEq<i16> for &'a Value<T> where T::Number: PartialEq<i16> {
    fn eq(&self, other: &i16) -> (r: bool) {
        match self {
            Value::Number(n) => n == other,
            _ => false,
        }
    }
}

impl<'a, T: Json> vstd::std_specs::cmp::PartialEqSpecImpl<i16> for &'a Value<T> where T::Number: PartialEq<i16> {
    open spec fn obeys_eq_spec() -> bool {
        <T::Number as PartialEqSpec<i16>>::obeys_eq_spec()
    }

    open spec fn eq_spec(&self, other: &i16) -> bool {
        match **self {
            Value::Number(n) => n.eq_spec(other),
            _ => false,
        }
    }
}

impl<'a, T: Json> PartialEq<i16> for &'a mut Value<T> where T::Number: PartialEq<i16> {
    fn eq(&self, other: &i16) -> (r: bool) {
        match self {
            Value::Number(n) => n == other,
            _ => false,
        }
    }
}

impl<'a, T: Json> vstd::std_specs::cmp::PartialEqSpecImpl<i16> for &'a mut Value<T> where T::Number: PartialEq<i16> {
    open spec fn obeys_eq_spec() -> bool {
        <T::Number as PartialEqSpec<i16>>::obeys_eq_spec()
    }

    open spec fn eq_spec(&self, other: &i16) -> bool {
        match **self {
            Value::Number(n) => n.eq_spec(other),
            _ => false,
        }
    }
}

impl<T: Json> PartialEq<Value<T>> for i16 where i16: PartialEq<T::Number> {
    fn eq(&self, other: &Value<T>) -> (r: bool) {
        match other {
            Value::Number(n) => self == n,
            _ => false,
        }
    }
}

impl<T: Json> vstd::std_specs::cmp::PartialEqSpecImpl<Value<T>> for i16 where i16: PartialEq<T::Number> {
    open spec fn obeys_eq_spec() -> bool {
        <i16 as PartialEqSpec<T::Number>>::obeys_eq_spec()
    }

    open spec fn eq_spec(&self, other: &Value<T>) -> bool {
        match other {
            Value::Number(n) => PartialEqSpec::eq_spec(self, n),
            _ => false,
        }
    }
}

impl<T: Json> From<i32> for Value<T> where T::Number: From<i32> {
    /// The number that the number type of the backend makes of `v`.
    fn from(v: i32) -> (r: Self)
        ensures
            r matches Value::Number(x) && call_ensures(
                <T::Number as From<i32>>::from,
                (v,),
                x,
            ),
    {
        Value::Number(<T::Number as From<i32>>::from(v))
    }
}

impl<T: Json> vstd::std_specs::convert::FromSpecImpl<i32> for Value<T> where T::Number: From<i32> {
    open spec fn obeys_from_spec() -> bool {
        <T::Number as FromSpec<i32>>::obeys_from_spec()
    }

    open spec fn from_spec(v: i32) -> Self {
        Value::Number(<T::Number as FromSpec<i32>>::from_spec(v))
    }
}

impl<T: Json> PartialEq<i32> for Value<T> where T::Number: PartialEq<i32> {
    fn eq(&self, other: &i32) -> (r: bool) {
        match self {
            Value::Number(n) => n == other,
            _ => false,
        }
    }
}

impl<T: Json> vstd::std_specs::cmp::PartialEqSpecImpl<i32> for Value<T> where T::Number: PartialEq<i32> {
    open spec fn obeys_eq_spec() -> bool {
        <T::Number as PartialEqSpec<i32>>::obeys_eq_spec()
    }

    open spec fn eq_spec(&self, other: &i32) -> bool {
        match self {
            Value::Number(n) => n.eq_spec(other),
            _ => false,
        }
    }
}

impl<'a, T: Json> PartialEq<i32> for &'a Value<T> where T::Number: PartialEq<i32> {
    fn eq(&self, other: &i32) -> (r: bool) {
        match self {
            Value::Number(n) => n == other,
            _ => false,
        }
    }
}

impl<'a, T: Json> vstd::std_specs::cmp::PartialEqSpecImpl<i32> for &'a Value<T> where T::Number: PartialEq<i32> {
    open spec fn obeys_eq_spec() -> bool {
        <T::Number as PartialEqSpec<i32>>::obeys_eq_spec()
    }

    open spec fn eq_spec(&self, other: &i32) -> bool {
        match **self {
            Value::Number(n) => n.eq_spec(other),
            _ => false,
        }
    }
}

impl<'a, T: Json> PartialEq<i32> for &'a mut Value<T> where T::Number: PartialEq<i32> {
    fn eq(&self, other: &i32) -> (r: bool) {
        match self {
            Value::Number(n) => n == other,
            _ => false,
        }
    }
}

impl<'a, T: Json> vstd::std_specs::cmp::PartialEqSpecImpl<i32> for &'a mut Value<T> where T::Number: PartialEq<i32> {
    open spec fn obeys_eq_spec() -> bool {
        <T::Number as PartialEqSpec<i32>>::obeys_eq_spec()
    }

    open spec fn eq_spec(&self, other: &i32) -> bool {
        match **self {
            Value::Number(n) => n.eq_spec(other),
            _ => false,
        }
    }
}

impl<T: Json> PartialEq<Value<T>> for i32 where i32: PartialEq<T::Number> {
    fn eq(&self, other: &Value<T>) -> (r: bool) {
        match other {
            Value::Number(n) => self == n,
            _ => false,
        }
    }
}

impl<T: Json> vstd::std_specs::cmp::PartialEqSpecImpl<Value<T>> for i32 where i32: PartialEq<T::Number> {
    open spec fn obeys_eq_spec() -> bool {
        <i32 as PartialEqSpec<T::Number>>::obeys_eq_spec()
    }

    open spec fn eq_spec(&self, other: &Value<T>) -> bool {
        match other {
            Value::Number(n) => PartialEqSpec::eq_spec(self, n),
            _ => false,
        }
    }
}

impl<T: Json> From<i64> for Value<T> where T::Number: From<i64> {
    /// The number that the number type of the backend makes of `v`.
    fn from(v: i64) -> (r: Self)
        ensures
            r matches Value::Number(x) && call_ensures(
                <T::Number as From<i64>>::from,
                (v,),
                x,
            ),
    {
        Value::Number(<T::Number as From<i64>>::from(v))
    }
}

impl<T: Json> vstd::std_specs::convert::FromSpecImpl<i64> for Value<T> where T::Number: From<i64> {
    open spec fn obeys_from_spec() -> bool {
        <T::Number as FromSpec<i64>>::obeys_from_spec()
    }

    open spec fn from_spec(v: i64) -> Self {
        Value::Number(<T::Number as FromSpec<i64>>::from_spec(v))
    }
}

impl<T: Json> PartialEq<i64> for Value<T> where T::Number: PartialEq<i64> {
    fn eq(&self, other: &i64) -> (r: bool) {
        match self {
            Value::Number(n) => n == other,
            _ => false,
        }
    }
}

impl<T: Json> vstd::std_specs::cmp::PartialEqSpecImpl<i64> for Value<T> where T::Number: PartialEq<i64> {
    open spec fn obeys_eq_spec() -> bool {
        <T::Number as PartialEqSpec<i64>>::obeys_eq_spec()
    }

    open spec fn eq_spec(&self, other: &i64) -> bool {
        match self {
            Value::Number(n) => n.eq_spec(other),
            _ => false,
        }
    }
}

impl<'a, T: Json> PartialEq<i64> for &'a Value<T> where T::Number: PartialEq<i64> {
    fn eq(&self, other: &i64) -> (r: bool) {
        match self {
            Value::Number(n) => n == other,
            _ => false,
        }
    }
}

impl<'a, T: Json> vstd::std_specs::cmp::PartialEqSpecImpl<i64> for &'a Value<T> where T::Number: PartialEq<i64> {
    open spec fn obeys_eq_spec() -> bool {
        <T::Number as PartialEqSpec<i64>>::obeys_eq_spec()
    }

    open spec fn eq_spec(&self, other: &i64) -> bool {
        match **self {
            Value::Number(n) => n.eq_spec(other),
            _ => false,
        }
    }
}

impl<'a, T: Json> PartialEq<i64> for &'a mut Value<T> where T::Number: PartialEq<i64> {
    fn eq(&self, other: &i64) -> (r: bool) {
        match self {
            Value::Number(n) => n == other,
            _ => false,
        }
    }
}

impl<'a, T: Json> vstd::std_specs::cmp::PartialEqSpecImpl<i64> for &'a mut Value<T> where T::Number: PartialEq<i64> {
    open spec fn obeys_eq_spec() -> bool {
        <T::Number as PartialEqSpec<i64>>::obeys_eq_spec()
    }

    open spec fn eq_spec(&self, other: &i64) -> bool {
        match **self {
            Value::Number(n) => n.eq_spec(other),
            _ => false,
        }
    }
}

impl<T: Json> PartialEq<Value<T>> for i64 where i64: PartialEq<T::Number> {
    fn eq(&self, other: &Value<T>) -> (r: bool) {
        match other {
            Value::Number(n) => self == n,
            _ => false,
        }
    }
}

impl<T: Json> vstd::std_specs::cmp::PartialEqSpecImpl<Value<T>> for i64 where i64: PartialEq<T::Number> {
    open spec fn obeys_eq_spec() -> bool {
        <i64 as PartialEqSpec<T::Number>>::obeys_eq_spec()
    }

    open spec fn eq_spec(&self, other: &Value<T>) -> bool {
        match other {
            Value::Number(n) => PartialEqSpec::eq_spec(self, n),
            _ => false,
        }
    }
}

impl<T: Json> From<isize> for Value<T> where T::Number: From<isize> {
    /// The number that the number type of the backend makes of `v`.
    fn from(v: isize) -> (r: Self)
        ensures
            r matches Value::Number(x) && call_ensures(
                <T::Number as From<isize>>::from,
                (v,),
                x,
            ),
    {
        Value::Number(<T::Number as From<isize>>::from(v))
    }
}

impl<T: Json> vstd::std_specs::convert::FromSpecImpl<isize> for Value<T> where T::Number: From<isize> {
    open spec fn obeys_from_spec() -> bool {
        <T::Number as FromSpec<isize>>::obeys_from_spec()
    }

    open spec fn from_spec(v: isize) -> Self {
        Value::Number(<T::Number as FromSpec<isize>>::from_spec(v))
    }
}

impl<T: Json> PartialEq<isize> for Value<T> where T::Number: PartialEq<isize> {
    fn eq(&self, other: &isize) -> (r: bool) {
        match self {
            Value::Number(n) => n == other,
            _ => false,
        }
    }
}

impl<T: Json> vstd::std_specs::cmp::PartialEqSpecImpl<isize> for Value<T> where T::Number: PartialEq<isize> {
    open spec fn obeys_eq_spec() -> bool {
        <T::Number as PartialEqSpec<isize>>::obeys_eq_spec()
    }

    open spec fn eq_spec(&self, other: &isize) -> bool {
        match self {
            Value::Number(n) => n.eq_spec(other),
            _ => false,
        }
    }
}

impl<'a, T: Json> PartialEq<isize> for &'a Value<T> where T::Number: PartialEq<isize> {
    fn eq(&self, other: &isize) -> (r: bool) {
        match self {
            Value::Number(n) => n == other,
            _ => false,
        }
    }
}

impl<'a, T: Json> vstd::std_specs::cmp::PartialEqSpecImpl<isize> for &'a Value<T> where T::Number: PartialEq<isize> {
    open spec fn obeys_eq_spec() -> bool {
        <T::Number as PartialEqSpec<isize>>::obeys_eq_spec()
    }

    open spec fn eq_spec(&self, other: &isize) -> bool {
        match **self {
            Value::Number(n) => n.eq_spec(other),
            _ => false,
        }
    }
}

impl<'a, T: Json> PartialEq<isize> for &'a mut Value<T> where T::Number: PartialEq<isize> {
    fn eq(&self, other: &isize) -> (r: bool) {
        match self {
            Value::Number(n) => n == other,
            _ => false,
        }
    }
}

impl<'a, T: Json> vstd::std_specs::cmp::PartialEqSpecImpl<isize> for &'a mut Value<T> where T::Number: PartialEq<isize> {
    open spec fn obeys_eq_spec() -> bool {
        <T::Number as PartialEqSpec<isize>>::obeys_eq_spec()
    }

    open spec fn eq_spec(&self, other: &isize) -> bool {
        match **self {
            Value::Number(n) => n.eq_spec(other),
            _ => false,
        }
    }
}

impl<T: Json> PartialEq<Value<T>> for isize where isize: PartialEq<T::Number> {
    fn eq(&self, other: &Value<T>) -> (r: bool) {
        match other {
            Value::Number(n) => self == n,
            _ => false,
        }
    }
}

impl<T: Json> vstd::std_specs::cmp::PartialEqSpecImpl<Value<T>> for isize where isize: PartialEq<T::Number> {
    open spec fn obeys_eq_spec() -> bool {
        <isize as PartialEqSpec<T::Number>>::obeys_eq_spec()
    }

    open spec fn eq_spec(&self, other: &Value<T>) -> bool {
        match other {
            Value::Number(n) => PartialEqSpec::eq_spec(self, n),
            _ => false,
        }
    }
}

impl<'a, T: Json> From<&'a str> for Value<T> where T::String: From<&'a str> {
    /// The string that the string type of the backend makes of `v`.
    fn from(v: &'a str) -> (r: Self)
        ensures
            r matches Value::String(x) && call_ensures(
                <T::String as From<&'a str>>::from,
                (v,),
                x,
            ),
    {
        Value::String(<T::String as From<&'a str>>::from(v))
    }
}

impl<'a, T: Json> vstd::std_specs::convert::FromSpecImpl<&'a str> for Value<T> where T::String: From<&'a str> {
    open spec fn obeys_from_spec() -> bool {
        <T::String as FromSpec<&'a str>>::obeys_from_spec()
    }

    open spec fn from_spec(v: &'a str) -> Self {
        Value::String(<T::String as FromSpec<&'a str>>::from_spec(v))
    }
}

impl<T: Json> From<String> for Value<T> where T::String: From<String> {
    /// The string that the string type of the backend makes of `v`.
    fn from(v: String) -> (r: Self)
        ensures
            r matches Value::String(x) && call_ensures(
                <T::String as From<String>>::from,
                (v,),
                x,
            ),
    {
        Value::String(<T::String as From<String>>::from(v))
    }
}

impl<T: Json> vstd::std_specs::convert::FromSpecImpl<String> for Value<T> where T::String: From<String> {
    open spec fn obeys_from_spec() -> bool {
        <T::String as FromSpec<String>>::obeys_from_spec()
    }

    open spec fn from_spec(v: String) -> Self {
        Value::String(<T::String as FromSpec<String>>::from_spec(v))
    }
}

impl<'a, T: Json> From<Cow<'a, str>> for Value<T> where T::String: From<Cow<'a, str>> {
    /// The string that the string type of the backend makes of `v`.
    fn from(v: Cow<'a, str>) -> (r: Self)
        ensures
            r matches Value::String(x) && call_ensures(
                <T::String as From<Cow<'a, str>>>::from,
                (v,),
                x,
            ),
    {
        Value::String(<T::String as From<Cow<'a, str>>>::from(v))
    }
}

impl<'a, T: Json> vstd::std_specs::convert::FromSpecImpl<Cow<'a, str>> for Value<T> where T::String: From<Cow<'a, str>> {
    open spec fn obeys_from_spec() -> bool {
        <T::String as FromSpec<Cow<'a, str>>>::obeys_from_spec()
    }

    open spec fn from_spec(v: Cow<'a, str>) -> Self {
        Value::String(<T::String as FromSpec<Cow<'a, str>>>::from_spec(v))
    }
}

impl<'a, T: Json> From<&'a [Value<T>]> for Value<T> where T::Array: From<&'a [Value<T>]> {
    /// The array that the array type of the backend makes of `v`.
    fn from(v: &'a [Value<T>]) -> (r: Self)
        ensures
            r matches Value::Array(x) && call_ensures(
                <T::Array as From<&'a [Value<T>]>>::from,
                (v,),
                x,
            ),
    {
        Value::Array(<T::Array as From<&'a [Value<T>]>>::from(v))
    }
}

impl<'a, T: Json> vstd::std_specs::convert::FromSpecImpl<&'a [Value<T>]> for Value<T> where T::Array: From<&'a [Value<T>]> {
    open spec fn obeys_from_spec() -> bool {
        <T::Array as FromSpec<&'a [Value<T>]>>::obeys_from_spec()
    }

    open spec fn from_spec(v: &'a [Value<T>]) -> Self {
        Value::Array(<T::Array as FromSpec<&'a [Value<T>]>>::from_spec(v))
    }
}

impl<T: Json> From<Vec<Value<T>>> for Value<T> where T::Array: From<Vec<Value<T>>> {
    /// The array that the array type of the backend makes of `v`.
    fn from(v: Vec<Value<T>>) -> (r: Self)
        ensures
            r matches Value::Array(x) && call_ensures(
                <T::Array as From<Vec<Value<T>>>>::from,
                (v,),
                x,
            ),
    {
        Value::Array(<T::Array as From<Vec<Value<T>>>>::from(v))
    }
}

impl<T: Json> vstd::std_specs::convert::FromSpecImpl<Vec<Value<T>>> for Value<T> where T::Array: From<Vec<Value<T>>> {
    open spec fn obeys_from_spec() -> bool {
        <T::Array as FromSpec<Vec<Value<T>>>>::obeys_from_spec()
    }

    open spec fn from_spec(v: Vec<Value<T>>) -> Self {
        Value::Array(<T::Array as FromSpec<Vec<Value<T>>>>::from_spec(v))
    }
}

} // verus!
