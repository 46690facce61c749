//! The owned six-variant value of a backend.
use vstd::prelude::*;
use vstd::std_specs::convert::FromSpecImpl;
use core::hash::Hash;
use core::hash::Hasher;
use crate::Json;
use crate::JsonNew;
use crate::reference::ValueMut;
use crate::reference::ValueRef;
use crate::text::Text;

verus! {

/// The variant of a value, without its payload.
#[derive(Clone, Copy, PartialEq, Eq, Structural, Debug)]
pub enum Tag {
    Null,
    Boolean,
    Number,
    String,
    Array,
    Object,
}

impl Tag {
    /// The place of the variant in the fixed order of the variants:
    /// `Null < Boolean < Number < String < Array < Object`.
    pub open spec fn rank(self) -> int {
        match self {
            Tag::Null => 0,
            Tag::Boolean => 1,
            Tag::Number => 2,
            Tag::String => 3,
            Tag::Array => 4,
            Tag::Object => 5,
        }
    }

    /// The place of the variant in the fixed order of the variants.
    pub fn index(self) -> (r: u8)
        ensures
            r == self.rank(),
    {
        match self {
            Tag::Null => 0,
            Tag::Boolean => 1,
            Tag::Number => 2,
            Tag::String => 3,
            Tag::Array => 4,
            Tag::Object => 5,
        }
    }
}

/// Any JSON value.
pub enum Value<T: Json> {
    /// JSON `null` value.
    Null,
    /// JSON boolean value (`true` or `false`).
    Boolean(bool),
    /// JSON number, whether integer or floating point.
    Number(T::Number),
    /// JSON string value.
    String(T::String),
    /// JSON array of values.
    Array(T::Array),
    /// JSON object.
    Object(T::Object),
}

/// `Hash::hash` of a payload, which feeds the payload to the hasher. Nothing is
/// stated of the hasher's state.
#[verifier::external_body]
pub(crate) fn hash_payload<P: Hash, H: Hasher>(payload: &P, state: &mut H) {
    payload.hash(state)
}

impl<T: Json> Value<T> {
    /// The variant of the value.
    pub open spec fn spec_tag(self) -> Tag {
        match self {
            Value::Null => Tag::Null,
            Value::Boolean(_) => Tag::Boolean,
            Value::Number(_) => Tag::Number,
            Value::String(_) => Tag::String,
            Value::Array(_) => Tag::Array,
            Value::Object(_) => Tag::Object,
        }
    }

    /// The boolean that the value holds, if it is one.
    pub open spec fn bool_payload(self) -> Option<bool> {
        match self {
            Value::Boolean(b) => Some(b),
            _ => None,
        }
    }

    /// The number that the value holds, if it is one.
    pub open spec fn number_payload(self) -> Option<T::Number> {
        match self {
            Value::Number(n) => Some(n),
            _ => None,
        }
    }

    /// The text that the value holds, if it is a string.
    pub open spec fn text_payload(self) -> Option<Seq<char>> {
        match self {
            Value::String(s) => Some(s.text()),
            _ => None,
        }
    }

    /// The array that the value holds, if it is one.
    pub open spec fn array_payload(self) -> Option<T::Array> {
        match self {
            Value::Array(a) => Some(a),
            _ => None,
        }
    }

    /// The object that the value holds, if it is one.
    pub open spec fn object_payload(self) -> Option<T::Object> {
        match self {
            Value::Object(o) => Some(o),
            _ => None,
        }
    }

    /// Classification and extraction agree: a value is of a variant exactly when
    /// the extraction of that variant gives a payload, and exactly one variant
    /// applies.
    pub proof fn lemma_classification_matches_extraction(self)
        ensures
            self is Boolean <==> self.bool_payload() is Some,
            self is Number <==> self.number_payload() is Some,
            self is String <==> self.text_payload() is Some,
            self is Array <==> self.array_payload() is Some,
            self is Object <==> self.object_payload() is Some,
            self is Null <==> !(self is Boolean || self is Number || self is String
                || self is Array || self is Object),
    {
    }

    /// The variant of the value.
    pub fn tag(&self) -> (r: Tag)
        ensures
            r == self.spec_tag(),
    {
        match self {
            Value::Null => Tag::Null,
            Value::Boolean(_) => Tag::Boolean,
            Value::Number(_) => Tag::Number,
            Value::String(_) => Tag::String,
            Value::Array(_) => Tag::Array,
            Value::Object(_) => Tag::Object,
        }
    }

    /// Returns `true` if the value is a `Null`. Returns `false` otherwise.
    pub fn is_null(&self) -> (r: bool)
        ensures
            r == (*self is Null),
    {
        matches!(self, Value::Null)
    }

    /// Returns `true` if the value is a boolean. Returns `false` otherwise.
    ///
    /// For any value on which `is_bool` returns `true`,
    /// [`as_bool`](Self::as_bool()) is guaranteed to return the boolean value.
    pub fn is_bool(&self) -> (r: bool)
        ensures
            r == (*self is Boolean),
            r == self.bool_payload().is_some(),
    {
        matches!(self, Value::Boolean(_))
    }

    /// Returns `true` if the value is a number. Returns `false` otherwise.
    ///
    /// For any value on which `is_number` returns `true`,
    /// [`as_number`](Self::as_number()) is guaranteed to return the number value.
    pub fn is_number(&self) -> (r: bool)
        ensures
            r == (*self is Number),
            r == self.number_payload().is_some(),
    {
        matches!(self, Value::Number(_))
    }

    /// Returns `true` if the value is a string.
    /// Returns `false` otherwise.
    ///
    /// For any value on which `is_string` returns `true`,
    /// [`as_str`](Self::as_str()) is guaranteed to return the string value.
    pub fn is_string(&self) -> (r: bool)
        ensures
            r == (*self is String),
            r == self.text_payload().is_some(),
    {
        matches!(self, Value::String(_))
    }

    /// Returns `true` if the value is an array.
    /// Returns `false` otherwise.
    ///
    /// For any value on which `is_array` returns `true`,
    /// [`as_array`](Self::as_array()) is guaranteed to return the array value.
    pub fn is_array(&self) -> (r: bool)
        ensures
            r == (*self is Array),
            r == self.array_payload().is_some(),
    {
        matches!(self, Value::Array(_))
    }

    /// Returns `true` if the value is an object.
    /// Returns `false` otherwise.
    ///
    /// For any value on which `is_object` returns `true`,
    /// [`as_object`](Self::as_object()) is guaranteed to return the object value.
    pub fn is_object(&self) -> (r: bool)
        ensures
            r == (*self is Object),
            r == self.object_payload().is_some(),
    {
        matches!(self, Value::Object(_))
    }

    /// If the value is a boolean, returns the associated `bool`.
    /// Returns `None` otherwise.
    pub fn as_bool(&self) -> (r: Option<bool>)
        ensures
            r == self.bool_payload(),
    {
        match self {
            Value::Boolean(b) => Some(*b),
            _ => None,
        }
    }

    /// If the value is a number, returns a reference to it.
    /// Returns `None` otherwise.
    pub fn as_number(&self) -> (r: Option<&T::Number>)
        ensures
            match r {
                Some(x) => self.number_payload() == Some(*x),
                None => self.number_payload() is None,
            },
    {
        match self {
            Value::Number(n) => Some(n),
            _ => None,
        }
    }

    /// If the value is a string, returns its associated [`str`].
    /// Returns `None` otherwise.
    pub fn as_str(&self) -> (r: Option<&str>)
        ensures
            match r {
                Some(s) => self.text_payload() == Some(s@),
                None => self.text_payload() is None,
            },
    {
        match self {
            Value::String(s) => Some(s.as_str()),
            _ => None,
        }
    }

    /// If the value is an array, returns a reference to it.
    /// Returns `None` otherwise.
    pub fn as_array(&self) -> (r: Option<&T::Array>)
        ensures
            match r {
                Some(x) => self.array_payload() == Some(*x),
                None => self.array_payload() is None,
            },
    {
        match self {
            Value::Array(a) => Some(a),
            _ => None,
        }
    }

    /// If the value is an array, returns a mutable reference to it.
    /// Returns `None` otherwise.
    ///
    /// What the caller leaves behind the reference is the array afterwards; a value
    /// that is no array stays as it is.
    pub fn as_array_mut(&mut self) -> (r: Option<&mut T::Array>)
        ensures
            match r {
                Some(a) => *old(self) == Value::<T>::Array(*a) && *final(self) == Value::<
                    T,
                >::Array(*final(a)),
                None => !(*old(self) is Array) && *final(self) == *old(self),
            },
    {
        match self {
            Value::Array(a) => Some(a),
            _ => None,
        }
    }

    /// If the value is an object, returns a reference to it.
    /// Returns `None` otherwise.
    pub fn as_object(&self) -> (r: Option<&T::Object>)
        ensures
            match r {
                Some(x) => self.object_payload() == Some(*x),
                None => self.object_payload() is None,
            },
    {
        match self {
            Value::Object(o) => Some(o),
            _ => None,
        }
    }

    /// If the value is an object, returns a mutable reference to it.
    /// Returns `None` otherwise.
    ///
    /// What the caller leaves behind the reference is the object afterwards; a
    /// value that is no object stays as it is.
    pub fn as_object_mut(&mut self) -> (r: Option<&mut T::Object>)
        ensures
            match r {
                Some(o) => *old(self) == Value::<T>::Object(*o) && *final(self) == Value::<
                    T,
                >::Object(*final(o)),
                None => !(*old(self) is Object) && *final(self) == *old(self),
            },
    {
        match self {
            Value::Object(o) => Some(o),
            _ => None,
        }
    }

    /// A shared view of the value.
    pub fn as_value_ref(&self) -> (r: ValueRef<'_, T>)
        ensures
            r.shows(*self),
    {
        match self {
            Value::Null => ValueRef::Null,
            Value::Boolean(b) => ValueRef::Boolean(*b),
            Value::Number(n) => ValueRef::Number(n),
            Value::String(s) => ValueRef::String(s.as_str()),
            Value::Array(a) => ValueRef::Array(a),
            Value::Object(o) => ValueRef::Object(o),
        }
    }

    /// An exclusive view of the value.
    ///
    /// The view shows the value as it is; what the caller leaves behind the view's
    /// references is the value afterwards.
    pub fn as_value_mut(&mut self) -> (r: ValueMut<'_, T>)
        ensures
            r.shows(*old(self)),
            match r {
                ValueMut::Null => *final(self) == Value::<T>::Null,
                ValueMut::Boolean(a) => *final(self) == Value::<T>::Boolean(*final(a)),
                ValueMut::Number(a) => *final(self) == Value::<T>::Number(*final(a)),
                ValueMut::String(a) => *final(self) == Value::<T>::String(*final(a)),
                ValueMut::Array(a) => *final(self) == Value::<T>::Array(*final(a)),
                ValueMut::Object(a) => *final(self) == Value::<T>::Object(*final(a)),
            },
    {
        match self {
            Value::Null => ValueMut::Null,
            Value::Boolean(b) => ValueMut::Boolean(b),
            Value::Number(n) => ValueMut::Number(n),
            Value::String(s) => ValueMut::String(s),
            Value::Array(a) => ValueMut::Array(a),
            Value::Object(o) => ValueMut::Object(o),
        }
    }

    /// Takes the value out of the Value, leaving a Null in its place.
    pub fn take(&mut self) -> (r: Self)
        ensures
            r == *old(self),
            *final(self) == Value::<T>::Null,
    {
        let mut value = Value::Null;
        core::mem::swap(&mut value, self);
        value
    }

    /// The node that holds this value under the metadata `meta`.
    pub fn with(self, meta: T::MetaData) -> (r: T) where T: JsonNew
        ensures
            r.content() == self,
            r.annotation() == meta,
    {
        T::new(self, meta)
    }

    /// The node that holds this value under the default metadata.
    pub fn with_default(self) -> (r: T) where T: JsonNew, T::MetaData: Default
        ensures
            r.content() == self,
            call_ensures(<T::MetaData as Default>::default, (), r.annotation()),
    {
        T::new(self, <T::MetaData as Default>::default())
    }
}

impl<T: Json> Default for Value<T> {
    /// The default value is [`Value::Null`].
    fn default() -> (r: Self)
        ensures
            r == Value::<T>::Null,
    {
        Value::Null
    }
}

impl<T: Json> Clone for Value<T> where
    T::Number: Clone,
    T::String: Clone,
    T::Array: Clone,
    T::Object: Clone,
 {
    /// A value of the same variant whose payload is a clone of this payload.
    fn clone(&self) -> (r: Self)
        ensures
            match (*self, r) {
                (Value::Null, Value::Null) => true,
                (Value::Boolean(a), Value::Boolean(b)) => a == b,
                (Value::Number(a), Value::Number(b)) => cloned(a, b),
                (Value::String(a), Value::String(b)) => cloned(a, b),
                (Value::Array(a), Value::Array(b)) => cloned(a, b),
                (Value::Object(a), Value::Object(b)) => cloned(a, b),
                _ => false,
            },
    {
        match self {
            Value::Null => Value::Null,
            Value::Boolean(b) => Value::Boolean(*b),
            Value::Number(n) => Value::Number(n.clone()),
            Value::String(s) => Value::String(s.clone()),
            Value::Array(a) => Value::Array(a.clone()),
            Value::Object(o) => Value::Object(o.clone()),
        }
    }
}

impl<T: Json> Hash for Value<T> where T::Number: Hash, T::String: Hash, T::Array: Hash, T::Object: Hash {
    /// Feeds the payload to the hasher, and nothing for `Null`: then the hasher
    /// stays as it is. Of the hasher's state after a payload nothing is stated.
    fn hash<H: Hasher>(&self, h: &mut H)
        ensures
            *self is Null ==> *final(h) == *old(h),
    {
        match self {
            Value::Null => (),
            Value::Boolean(b) => hash_payload(b, h),
            Value::Number(n) => hash_payload(n, h),
            Value::String(s) => hash_payload(s, h),
            Value::Array(a) => hash_payload(a, h),
            Value::Object(o) => hash_payload(o, h),
        }
    }
}

impl<T: Json> From<()> for Value<T> {
    fn from(u: ()) -> (r: Self) {
        Value::Null
    }
}

impl<T: Json> FromSpecImpl<()> for Value<T> {
    open spec fn obeys_from_spec() -> bool {
        true
    }

    open spec fn from_spec(u: ()) -> Self {
        Value::Null
    }
}

impl<T: Json> From<bool> for Value<T> {
    fn from(b: bool) -> (r: Self) {
        Value::Boolean(b)
    }
}

impl<T: Json> FromSpecImpl<bool> for Value<T> {
    open spec fn obeys_from_spec() -> bool {
        true
    }

    open spec fn from_spec(b: bool) -> Self {
        Value::Boolean(b)
    }
}

impl<J: Json> From<J> for Value<J> {
    fn from(j: J) -> (r: Self) {
        j.into_value()
    }
}

impl<J: Json> FromSpecImpl<J> for Value<J> {
    open spec fn obeys_from_spec() -> bool {
        true
    }

    open spec fn from_spec(j: J) -> Self {
        j.content()
    }
}

} // verus!
