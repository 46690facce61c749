//! Borrowed views of a value: shared and exclusive.
use vstd::prelude::*;
use crate::Json;
use crate::text::Text;
use crate::value::Tag;
use crate::value::Value;

verus! {

/// JSON value reference.
pub enum ValueRef<'a, T: Json> {
    Null,
    Boolean(bool),
    Number(&'a T::Number),
    String(&'a str),
    Array(&'a T::Array),
    Object(&'a T::Object),
}

/// Mutable JSON value reference.
pub enum ValueMut<'a, T: Json> {
    Null,
    Boolean(&'a mut bool),
    Number(&'a mut T::Number),
    String(&'a mut T::String),
    Array(&'a mut T::Array),
    Object(&'a mut T::Object),
}

impl<'a, T: Json> ValueRef<'a, T> {
    /// Whether this view is a view of `v`: the same variant, with the payload of
    /// `v` behind the reference.
    pub open spec fn shows(self, v: Value<T>) -> bool {
        match (self, v) {
            (ValueRef::Null, Value::Null) => true,
            (ValueRef::Boolean(a), Value::Boolean(b)) => a == b,
            (ValueRef::Number(a), Value::Number(b)) => *a == b,
            (ValueRef::String(a), Value::String(b)) => a@ == b.text(),
            (ValueRef::Array(a), Value::Array(b)) => *a == b,
            (ValueRef::Object(a), Value::Object(b)) => *a == b,
            _ => false,
        }
    }

    /// The variant of the value.
    pub open spec fn spec_tag(self) -> Tag {
        match self {
            ValueRef::Null => Tag::Null,
            ValueRef::Boolean(_) => Tag::Boolean,
            ValueRef::Number(_) => Tag::Number,
            ValueRef::String(_) => Tag::String,
            ValueRef::Array(_) => Tag::Array,
            ValueRef::Object(_) => Tag::Object,
        }
    }

    /// The boolean that the value holds, if it is one.
    pub open spec fn bool_payload(self) -> Option<bool> {
        match self {
            ValueRef::Boolean(b) => Some(b),
            _ => None,
        }
    }

    /// The number that the value holds, if it is one.
    pub open spec fn number_payload(self) -> Option<T::Number> {
        match self {
            ValueRef::Number(n) => Some(*n),
            _ => None,
        }
    }

    /// The text that the value holds, if it is a string.
    pub open spec fn text_payload(self) -> Option<Seq<char>> {
        match self {
            ValueRef::String(s) => Some(s@),
            _ => None,
        }
    }

    /// The array that the value holds, if it is one.
    pub open spec fn array_payload(self) -> Option<T::Array> {
        match self {
            ValueRef::Array(a) => Some(*a),
            _ => None,
        }
    }

    /// The object that the value holds, if it is one.
    pub open spec fn object_payload(self) -> Option<T::Object> {
        match self {
            ValueRef::Object(o) => Some(*o),
            _ => None,
        }
    }

    /// Classification and extraction agree: a view is of a variant exactly when
    /// the extraction of that variant gives a payload, and exactly one variant
    /// applies.
    pub proof fn lemma_classification_matches_extraction(self)
        ensures
            self is Boolean <==> self.bool_payload() is Some,
            self is Number <==> self.number_payload() is Some,
            self is String <==> self.text_payload() is Some,
            self is Array <==> self.array_payload() is Some,
            self is Object <==> self.object_payload() is Some,
            self is Null <==> !(self is Boolean || self is Number || self is String
                || self is Array || self is Object),
    {
    }

    /// A view shows a value of its own variant, with its own payloads.
    pub proof fn lemma_shows_same_payloads(self, v: Value<T>)
        requires
            self.shows(v),
        ensures
            self.spec_tag() == v.spec_tag(),
            self.bool_payload() == v.bool_payload(),
            self.number_payload() == v.number_payload(),
            self.text_payload() == v.text_payload(),
            self.array_payload() == v.array_payload(),
            self.object_payload() == v.object_payload(),
    {
    }

    /// Returns `true` if the value is a `Null`. Returns `false` otherwise.
    pub fn is_null(&self) -> (r: bool)
        ensures
            r == (*self is Null),
    {
        matches!(self, ValueRef::Null)
    }

    /// Returns `true` if the value is a boolean. Returns `false` otherwise.
    ///
    /// For any value on which `is_bool` returns `true`,
    /// [`as_bool`](Self::as_bool()) is guaranteed to return the boolean value.
    pub fn is_bool(&self) -> (r: bool)
        ensures
            r == (*self is Boolean),
            r == self.bool_payload().is_some(),
    {
        matches!(self, ValueRef::Boolean(_))
    }

    /// Returns `true` if the value is a number. Returns `false` otherwise.
    ///
    /// For any value on which `is_number` returns `true`,
    /// [`as_number`](Self::as_number()) is guaranteed to return the number value.
    pub fn is_number(&self) -> (r: bool)
        ensures
            r == (*self is Number),
            r == self.number_payload().is_some(),
    {
        matches!(self, ValueRef::Number(_))
    }

    /// Returns `true` if the value is a string.
    /// Returns `false` otherwise.
    ///
    /// For any value on which `is_string` returns `true`,
    /// [`as_str`](Self::as_str()) is guaranteed to return the string value.
    pub fn is_string(&self) -> (r: bool)
        ensures
            r == (*self is String),
            r == self.text_payload().is_some(),
    {
        matches!(self, ValueRef::String(_))
    }

    /// Returns `true` if the value is an array.
    /// Returns `false` otherwise.
    ///
    /// For any value on which `is_array` returns `true`,
    /// [`as_array`](Self::as_array()) is guaranteed to return the array value.
    pub fn is_array(&self) -> (r: bool)
        ensures
            r == (*self is Array),
            r == self.array_payload().is_some(),
    {
        matches!(self, ValueRef::Array(_))
    }

    /// Returns `true` if the value is an object.
    /// Returns `false` otherwise.
    ///
    /// For any value on which `is_object` returns `true`,
    /// [`as_object`](Self::as_object()) is guaranteed to return the object value.
    pub fn is_object(&self) -> (r: bool)
        ensures
            r == (*self is Object),
            r == self.object_payload().is_some(),
    {
        matches!(self, ValueRef::Object(_))
    }

    /// If the value is a boolean, returns the associated `bool`.
    /// Returns `None` otherwise.
    pub fn as_bool(&self) -> (r: Option<bool>)
        ensures
            r == self.bool_payload(),
    {
        match self {
            ValueRef::Boolean(b) => Some(*b),
            _ => None,
        }
    }

    /// If the value is a number, returns a reference to it.
    /// Returns `None` otherwise.
    pub fn as_number(&self) -> (r: Option<&'a T::Number>)
        ensures
            match r {
                Some(x) => self.number_payload() == Some(*x),
                None => self.number_payload() is None,
            },
    {
        match self {
            ValueRef::Number(n) => Some(*n),
            _ => None,
        }
    }

    /// If the value is a string, returns its associated [`str`].
    /// Returns `None` otherwise.
    pub fn as_str(&self) -> (r: Option<&'a str>)
        ensures
            match r {
                Some(s) => self.text_payload() == Some(s@),
                None => self.text_payload() is None,
            },
    {
        match self {
            ValueRef::String(s) => Some(*s),
            _ => None,
        }
    }

    /// If the value is an array, returns a reference to it.
    /// Returns `None` otherwise.
    pub fn as_array(&self) -> (r: Option<&'a T::Array>)
        ensures
            match r {
                Some(x) => self.array_payload() == Some(*x),
                None => self.array_payload() is None,
            },
    {
        match self {
            ValueRef::Array(a) => Some(*a),
            _ => None,
        }
    }

    /// If the value is an object, returns a reference to it.
    /// Returns `None` otherwise.
    pub fn as_object(&self) -> (r: Option<&'a T::Object>)
        ensures
            match r {
                Some(x) => self.object_payload() == Some(*x),
                None => self.object_payload() is None,
            },
    {
        match self {
            ValueRef::Object(o) => Some(*o),
            _ => None,
        }
    }

    /// Creates a new value by cloning the referenced value.
    ///
    /// The new value is of the same variant; its payload is a clone of the payload
    /// behind the view, and its string holds the same text.
    pub fn cloned(&self) -> (r: Value<T>) where
        T::Number: Clone,
        T::Array: Clone,
        T::Object: Clone,

        ensures
            match (*self, r) {
                (ValueRef::Null, Value::Null) => true,
                (ValueRef::Boolean(a), Value::Boolean(b)) => a == b,
                (ValueRef::Number(a), Value::Number(b)) => cloned(*a, b),
                (ValueRef::String(a), Value::String(b)) => a@ == b.text(),
                (ValueRef::Array(a), Value::Array(b)) => cloned(*a, b),
                (ValueRef::Object(a), Value::Object(b)) => cloned(*a, b),
                _ => false,
            },
    {
        match self {
            ValueRef::Null => Value::Null,
            ValueRef::Boolean(b) => Value::Boolean(*b),
            ValueRef::Number(n) => Value::Number((*n).clone()),
            ValueRef::String(s) => Value::String(<T::String as Text>::from_str(*s)),
            ValueRef::Array(a) => Value::Array((*a).clone()),
            ValueRef::Object(o) => Value::Object((*o).clone()),
        }
    }
}

impl<'a, T: Json> ValueMut<'a, T> {
    /// Whether this view is a view of `v`: the same variant, with the payload of
    /// `v` behind the reference.
    pub open spec fn shows(self, v: Value<T>) -> bool {
        match (self, v) {
            (ValueMut::Null, Value::Null) => true,
            (ValueMut::Boolean(a), Value::Boolean(b)) => *a == b,
            (ValueMut::Number(a), Value::Number(b)) => *a == b,
            (ValueMut::String(a), Value::String(b)) => *a == b,
            (ValueMut::Array(a), Value::Array(b)) => *a == b,
            (ValueMut::Object(a), Value::Object(b)) => *a == b,
            _ => false,
        }
    }

    /// The value that the view shows now.
    pub open spec fn shown(self) -> Value<T> {
        match self {
            ValueMut::Null => Value::Null,
            ValueMut::Boolean(a) => Value::Boolean(*a),
            ValueMut::Number(a) => Value::Number(*a),
            ValueMut::String(a) => Value::String(*a),
            ValueMut::Array(a) => Value::Array(*a),
            ValueMut::Object(a) => Value::Object(*a),
        }
    }

    /// Classification and extraction agree: a view is of a variant exactly when
    /// the extraction of that variant gives a payload, and exactly one variant
    /// applies.
    pub proof fn lemma_classification_matches_extraction(self)
        ensures
            self.shows(self.shown()),
            self is Boolean <==> self.shown().bool_payload() is Some,
            self is Number <==> self.shown().number_payload() is Some,
            self is String <==> self.shown().text_payload() is Some,
            self is Array <==> self.shown().array_payload() is Some,
            self is Object <==> self.shown().object_payload() is Some,
            self is Null <==> !(self is Boolean || self is Number || self is String
                || self is Array || self is Object),
    {
    }

    /// Returns `true` if the value is a `Null`. Returns `false` otherwise.
    pub fn is_null(&self) -> (r: bool)
        ensures
            r == (*self is Null),
    {
        matches!(self, ValueMut::Null)
    }

    /// Returns `true` if the value is a boolean. Returns `false` otherwise.
    ///
    /// For any value on which `is_bool` returns `true`,
    /// [`as_bool`](Self::as_bool()) is guaranteed to return the boolean value.
    pub fn is_bool(&self) -> (r: bool)
        ensures
            r == (*self is Boolean),
            r == self.shown().bool_payload().is_some(),
    {
        matches!(self, ValueMut::Boolean(_))
    }

    /// Returns `true` if the value is a number. Returns `false` otherwise.
    ///
    /// For any value on which `is_number` returns `true`,
    /// [`as_number`](Self::as_number()) is guaranteed to return the number value.
    pub fn is_number(&self) -> (r: bool)
        ensures
            r == (*self is Number),
            r == self.shown().number_payload().is_some(),
    {
        matches!(self, ValueMut::Number(_))
    }

    /// Returns `true` if the value is a string.
    /// Returns `false` otherwise.
    ///
    /// For any value on which `is_string` returns `true`,
    /// [`as_str`](Self::as_str()) is guaranteed to return the string value.
    pub fn is_string(&self) -> (r: bool)
        ensures
            r == (*self is String),
            r == self.shown().text_payload().is_some(),
    {
        matches!(self, ValueMut::String(_))
    }

    /// Returns `true` if the value is an array.
    /// Returns `false` otherwise.
    ///
    /// For any value on which `is_array` returns `true`,
    /// [`as_array`](Self::as_array()) is guaranteed to return the array value.
    pub fn is_array(&self) -> (r: bool)
        ensures
            r == (*self is Array),
            r == self.shown().array_payload().is_some(),
    {
        matches!(self, ValueMut::Array(_))
    }

    /// Returns `true` if the value is an object.
    /// Returns `false` otherwise.
    ///
    /// For any value on which `is_object` returns `true`,
    /// [`as_object`](Self::as_object()) is guaranteed to return the object value.
    pub fn is_object(&self) -> (r: bool)
        ensures
            r == (*self is Object),
            r == self.shown().object_payload().is_some(),
    {
        matches!(self, ValueMut::Object(_))
    }

    /// If the value is a boolean, returns the associated `bool`.
    /// Returns `None` otherwise.
    pub fn as_bool(&self) -> (r: Option<bool>)
        ensures
            r == self.shown().bool_payload(),
    {
        match self {
            ValueMut::Boolean(b) => Some(**b),
            _ => None,
        }
    }

    /// If the value is a number, returns a reference to it.
    /// Returns `None` otherwise.
    pub fn as_number(&self) -> (r: Option<&T::Number>)
        ensures
            match r {
                Some(x) => self.shown().number_payload() == Some(*x),
                None => self.shown().number_payload() is None,
            },
    {
        match self {
            ValueMut::Number(n) => Some(&**n),
            _ => None,
        }
    }

    /// If the value is a string, returns its associated [`str`].
    /// Returns `None` otherwise.
    pub fn as_str(&self) -> (r: Option<&str>)
        ensures
            match r {
                Some(s) => self.shown().text_payload() == Some(s@),
                None => self.shown().text_payload() is None,
            },
    {
        match self {
            ValueMut::String(s) => Some(s.as_str()),
            _ => None,
        }
    }

    /// If the value is an array, returns a reference to it.
    /// Returns `None` otherwise.
    pub fn as_array(&self) -> (r: Option<&T::Array>)
        ensures
            match r {
                Some(x) => self.shown().array_payload() == Some(*x),
                None => self.shown().array_payload() is None,
            },
    {
        match self {
            ValueMut::Array(a) => Some(&**a),
            _ => None,
        }
    }

    /// If the value is an object, returns a reference to it.
    /// Returns `None` otherwise.
    pub fn as_object(&self) -> (r: Option<&T::Object>)
        ensures
            match r {
                Some(x) => self.shown().object_payload() == Some(*x),
                None => self.shown().object_payload() is None,
            },
    {
        match self {
            ValueMut::Object(o) => Some(&**o),
            _ => None,
        }
    }

    /// If the value is an array, returns a mutable reference to it.
    /// Returns `None` otherwise.
    ///
    /// What the caller leaves behind the reference is what the view shows
    /// afterwards, and the view still belongs to the same node; a view of no array
    /// stays as it is.
    pub fn as_array_mut(&mut self) -> (r: Option<&mut T::Array>)
        ensures
            match r {
                Some(a) => {
                    &&& *old(self) matches ValueMut::Array(b)
                    &&& *final(self) matches ValueMut::Array(c)
                    &&& *a == *b
                    &&& *c == *final(a)
                    &&& *final(c) == *final(b)
                },
                None => !(*old(self) is Array) && *final(self) == *old(self),
            },
    {
        match self {
            ValueMut::Array(a) => Some(a),
            _ => None,
        }
    }

    /// If the value is an object, returns a mutable reference to it.
    /// Returns `None` otherwise.
    ///
    /// What the caller leaves behind the reference is what the view shows
    /// afterwards, and the view still belongs to the same node; a view of no
    /// object stays as it is.
    pub fn as_object_mut(&mut self) -> (r: Option<&mut T::Object>)
        ensures
            match r {
                Some(o) => {
                    &&& *old(self) matches ValueMut::Object(b)
                    &&& *final(self) matches ValueMut::Object(c)
                    &&& *o == *b
                    &&& *c == *final(o)
                    &&& *final(c) == *final(b)
                },
                None => !(*old(self) is Object) && *final(self) == *old(self),
            },
    {
        match self {
            ValueMut::Object(o) => Some(o),
            _ => None,
        }
    }

    /// Creates a new value by cloning the referenced value.
    ///
    /// The new value is of the same variant; its payload is a clone of the payload
    /// behind the view.
    pub fn cloned(&self) -> (r: Value<T>) where
        T::Number: Clone,
        T::String: Clone,
        T::Array: Clone,
        T::Object: Clone,

        ensures
            match (*self, r) {
                (ValueMut::Null, Value::Null) => true,
                (ValueMut::Boolean(a), Value::Boolean(b)) => *a == b,
                (ValueMut::Number(a), Value::Number(b)) => cloned(*a, b),
                (ValueMut::String(a), Value::String(b)) => cloned(*a, b),
                (ValueMut::Array(a), Value::Array(b)) => cloned(*a, b),
                (ValueMut::Object(a), Value::Object(b)) => cloned(*a, b),
                _ => false,
            },
    {
        match self {
            ValueMut::Null => Value::Null,
            ValueMut::Boolean(b) => Value::Boolean(**b),
            ValueMut::Number(n) => Value::Number((**n).clone()),
            ValueMut::String(s) => Value::String((**s).clone()),
            ValueMut::Array(a) => Value::Array((**a).clone()),
            ValueMut::Object(o) => Value::Object((**o).clone()),
        }
    }
}

} // verus!
