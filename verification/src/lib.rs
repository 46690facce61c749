//! A data model for JSON-like trees that does not depend on how a tree is stored.
//!
//! A backend presents its nodes through the [`Json`] trait; algorithms then work on
//! the six-variant views [`Value`], [`ValueRef`] and [`ValueMut`], whatever the
//! backend. Values of two different backends are compared by tag first and by
//! payload second. [`MetaValue`] is a small backend that attaches an annotation to
//! every node.
use vstd::prelude::*;

pub mod compare;
pub mod convert;
pub mod metavalue;
pub mod number;
pub mod order;
pub mod reference;
pub mod text;
pub mod tree;
pub mod value;

pub use crate::metavalue::MetaValue;
pub use crate::number::Literal;
pub use crate::number::Number;
pub use crate::number::Zero;
pub use crate::order::Comparable;
pub use crate::order::Order;
pub use crate::reference::ValueMut;
pub use crate::reference::ValueRef;
pub use crate::text::SmallString;
pub use crate::text::Text;
pub use crate::tree::Tree;
pub use crate::value::Tag;
pub use crate::value::Value;

verus! {

/// JSON object key.
///
/// A key is a text with an annotation. Only the text takes part in comparisons.
pub trait Key<M> {
    /// The text of the key.
    spec fn text(&self) -> Seq<char>;

    /// The annotation of the key.
    spec fn annotation(&self) -> M;

    /// The text of the key as a string slice.
    fn as_str(&self) -> (r: &str)
        ensures
            r@ == self.text(),
    ;

    /// Returns a reference to the annotation of the key.
    fn metadata(&self) -> (r: &M)
        ensures
            *r == self.annotation(),
    ;
}

impl Key<()> for String {
    open spec fn text(&self) -> Seq<char> {
        self@
    }

    open spec fn annotation(&self) -> () {
        ()
    }

    fn as_str(&self) -> (r: &str) {
        String::as_str(self)
    }

    fn metadata(&self) -> (r: &()) {
        &()
    }
}

impl Key<()> for SmallString {
    open spec fn text(&self) -> Seq<char> {
        self@
    }

    open spec fn annotation(&self) -> () {
        ()
    }

    fn as_str(&self) -> (r: &str) {
        SmallString::as_str(self)
    }

    fn metadata(&self) -> (r: &()) {
        &()
    }
}

/// An array payload: a sequence of nodes that tells its length and hands out the
/// node at an index.
pub trait Sequence<J> {
    /// The nodes of the array, in order.
    spec fn items(&self) -> Seq<J>;

    /// The number of nodes.
    fn len(&self) -> (r: usize)
        ensures
            r == self.items().len(),
    ;

    /// Whether the array has no node.
    fn is_empty(&self) -> (r: bool)
        ensures
            r == (self.items().len() == 0),
    {
        self.len() == 0
    }

    /// The node at `index`, if there is one.
    fn get(&self, index: usize) -> (r: Option<&J>)
        ensures
            match r {
                Some(x) => index < self.items().len() && *x == self.items()[index as int],
                None => index >= self.items().len(),
            },
    ;
}

impl<J> Sequence<J> for Vec<J> {
    open spec fn items(&self) -> Seq<J> {
        self@
    }

    fn len(&self) -> (r: usize) {
        Vec::len(self)
    }

    fn get(&self, index: usize) -> (r: Option<&J>) {
        if index < Vec::len(self) {
            Some(&self[index])
        } else {
            None
        }
    }
}

/// The value of the first entry whose key has the text `key`.
pub open spec fn lookup<M, K: Key<M>, J>(entries: Seq<(K, J)>, key: Seq<char>) -> Option<J>
    decreases entries.len(),
{
    if entries.len() == 0 {
        None
    } else if entries[0].0.text() == key {
        Some(entries[0].1)
    } else {
        lookup(entries.drop_first(), key)
    }
}

/// An object payload: entries of a key and a node, walked in a fixed order and
/// found by the text of the key.
pub trait Mapping<M, K: Key<M>, J> {
    /// The entries of the object, in the order in which they are walked.
    spec fn entries(&self) -> Seq<(K, J)>;

    /// The number of entries.
    fn len(&self) -> (r: usize)
        ensures
            r == self.entries().len(),
    ;

    /// Whether the object has no entry.
    fn is_empty(&self) -> (r: bool)
        ensures
            r == (self.entries().len() == 0),
    {
        self.len() == 0
    }

    /// The entry at position `index` of the walk, if there is one.
    fn entry(&self, index: usize) -> (r: Option<(&K, &J)>)
        ensures
            match r {
                Some((k, v)) => index < self.entries().len() && *k == self.entries()[index as int].0
                    && *v == self.entries()[index as int].1,
                None => index >= self.entries().len(),
            },
    ;

    /// The node under the key with the text of `key`, if there is one.
    fn get(&self, key: &str) -> (r: Option<&J>)
        ensures
            match r {
                Some(v) => lookup::<M, K, J>(self.entries(), key@) == Some(*v),
                None => lookup::<M, K, J>(self.entries(), key@) is None,
            },
    ;
}

/// JSON value attached to some metadata.
///
/// `content` is what the node holds, as an owned value, and `annotation` the
/// metadata attached to it. Every operation is stated over the two.
pub trait Json: Sized {
    /// Metadata type attached to each value.
    ///
    /// The metadata is ignored when JSON values are compared.
    type MetaData;

    /// Literal number type.
    type Number: Number;

    /// String type.
    type String: Text;

    /// Array type.
    type Array: Sequence<Self>;

    /// Object key type.
    type Key: Key<Self::MetaData>;

    /// Object type.
    type Object: Mapping<Self::MetaData, Self::Key, Self>;

    /// What the node holds, without the metadata.
    spec fn content(&self) -> Value<Self>;

    /// The metadata attached to the node.
    spec fn annotation(&self) -> Self::MetaData;

    /// Returns a reference to the actual JSON value (without the metadata).
    fn as_value_ref(&self) -> (r: ValueRef<'_, Self>)
        ensures
            match (r, self.content()) {
                (ValueRef::Null, Value::Null) => true,
                (ValueRef::Boolean(a), Value::Boolean(b)) => a == b,
                (ValueRef::Number(a), Value::Number(b)) => *a == b,
                (ValueRef::String(a), Value::String(b)) => a@ == b.text(),
                (ValueRef::Array(a), Value::Array(b)) => *a == b,
                (ValueRef::Object(a), Value::Object(b)) => *a == b,
                _ => false,
            },
    ;

    /// Returns a mutable reference to the actual JSON value (without the metadata).
    ///
    /// The view shows the content as it is; what the caller leaves behind the view's
    /// references is the content afterwards. The metadata stays.
    fn as_value_mut(&mut self) -> (r: ValueMut<'_, Self>)
        ensures
            match (r, old(self).content()) {
                (ValueMut::Null, Value::Null) => true,
                (ValueMut::Boolean(a), Value::Boolean(b)) => *a == b,
                (ValueMut::Number(a), Value::Number(b)) => *a == b,
                (ValueMut::String(a), Value::String(b)) => *a == b,
                (ValueMut::Array(a), Value::Array(b)) => *a == b,
                (ValueMut::Object(a), Value::Object(b)) => *a == b,
                _ => false,
            },
            match r {
                ValueMut::Null => final(self).content() == Value::<Self>::Null,
                ValueMut::Boolean(a) => final(self).content() == Value::<Self>::Boolean(*final(a)),
                ValueMut::Number(a) => final(self).content() == Value::<Self>::Number(*final(a)),
                ValueMut::String(a) => final(self).content() == Value::<Self>::String(*final(a)),
                ValueMut::Array(a) => final(self).content() == Value::<Self>::Array(*final(a)),
                ValueMut::Object(a) => final(self).content() == Value::<Self>::Object(*final(a)),
            },
            final(self).annotation() == old(self).annotation(),
    ;

    /// Transforms this JSON value into a `Value` and `MetaData`.
    fn into_parts(self) -> (r: (Value<Self>, Self::MetaData))
        ensures
            r.0 == self.content(),
            r.1 == self.annotation(),
    ;

    /// Transforms this JSON value into a `Value`.
    fn into_value(self) -> (r: Value<Self>)
        ensures
            r == self.content(),
    {
        self.into_parts().0
    }

    /// Returns a reference to the metadata associated to the JSON value.
    fn metadata(&self) -> (r: &Self::MetaData)
        ensures
            *r == self.annotation(),
    ;

    /// Returns a pair containing a reference to the JSON value and a reference to its metadata.
    fn as_pair(&self) -> (r: (ValueRef<'_, Self>, &Self::MetaData))
        ensures
            match (r.0, self.content()) {
                (ValueRef::Null, Value::Null) => true,
                (ValueRef::Boolean(a), Value::Boolean(b)) => a == b,
                (ValueRef::Number(a), Value::Number(b)) => *a == b,
                (ValueRef::String(a), Value::String(b)) => a@ == b.text(),
                (ValueRef::Array(a), Value::Array(b)) => *a == b,
                (ValueRef::Object(a), Value::Object(b)) => *a == b,
                _ => false,
            },
            *r.1 == self.annotation(),
    {
        (self.as_value_ref(), self.metadata())
    }

    /// Returns a pair containing a mutable reference to the JSON value and a reference to its metadata.
    fn as_pair_mut(&mut self) -> (r: (ValueMut<'_, Self>, &Self::MetaData))
        ensures
            match (r.0, old(self).content()) {
                (ValueMut::Null, Value::Null) => true,
                (ValueMut::Boolean(a), Value::Boolean(b)) => *a == b,
                (ValueMut::Number(a), Value::Number(b)) => *a == b,
                (ValueMut::String(a), Value::String(b)) => *a == b,
                (ValueMut::Array(a), Value::Array(b)) => *a == b,
                (ValueMut::Object(a), Value::Object(b)) => *a == b,
                _ => false,
            },
            match r.0 {
                ValueMut::Null => final(self).content() == Value::<Self>::Null,
                ValueMut::Boolean(a) => final(self).content() == Value::<Self>::Boolean(*final(a)),
                ValueMut::Number(a) => final(self).content() == Value::<Self>::Number(*final(a)),
                ValueMut::String(a) => final(self).content() == Value::<Self>::String(*final(a)),
                ValueMut::Array(a) => final(self).content() == Value::<Self>::Array(*final(a)),
                ValueMut::Object(a) => final(self).content() == Value::<Self>::Object(*final(a)),
            },
            *r.1 == old(self).annotation(),
            final(self).annotation() == old(self).annotation(),
    ;

    /// Returns `true` if the value is a `Null`. Returns `false` otherwise.
    fn is_null(&self) -> (r: bool)
        ensures
            r == (self.content() is Null),
    {
        match self.as_value_ref() {
            ValueRef::Null => true,
            _ => false,
        }
    }

    /// Checks if the value is an empty array.
    fn is_empty_array(&self) -> (r: bool)
        ensures
            r == (self.content() matches Value::Array(a) && a.items().len() == 0),
    {
        match self.as_value_ref() {
            ValueRef::Array(a) => a.is_empty(),
            _ => false,
        }
    }

    /// Checks if the value is an empty object.
    fn is_empty_object(&self) -> (r: bool)
        ensures
            r == (self.content() matches Value::Object(o) && o.entries().len() == 0),
    {
        match self.as_value_ref() {
            ValueRef::Object(o) => o.is_empty(),
            _ => false,
        }
    }

    /// Checks if the value is an empty array or empty object.
    fn is_empty_array_or_object(&self) -> (r: bool)
        ensures
            r == match self.content() {
                Value::Array(a) => a.items().len() == 0,
                Value::Object(o) => o.entries().len() == 0,
                _ => false,
            },
    {
        match self.as_value_ref() {
            ValueRef::Array(a) => a.is_empty(),
            ValueRef::Object(o) => o.is_empty(),
            _ => false,
        }
    }

    /// Returns `true` if the value is a boolean. Returns `false` otherwise.
    ///
    /// For any value on which `is_bool` returns `true`,
    /// [`as_bool`](Self::as_bool()) is guaranteed to return the boolean value.
    fn is_bool(&self) -> (r: bool)
        ensures
            r == (self.content() is Boolean),
    {
        match self.as_value_ref() {
            ValueRef::Boolean(_) => true,
            _ => false,
        }
    }

    /// Returns `true` if the value is a number. Returns `false` otherwise.
    ///
    /// For any value on which `is_number` returns `true`,
    /// [`as_number`](Self::as_number()) is guaranteed to return the number value.
    fn is_number(&self) -> (r: bool)
        ensures
            r == (self.content() is Number),
    {
        match self.as_value_ref() {
            ValueRef::Number(_) => true,
            _ => false,
        }
    }

    /// Returns `true` if the value is a string.
    /// Returns `false` otherwise.
    ///
    /// For any value on which `is_string` returns `true`,
    /// [`as_str`](Self::as_str()) is guaranteed to return the string value.
    fn is_string(&self) -> (r: bool)
        ensures
            r == (self.content() is String),
    {
        match self.as_value_ref() {
            ValueRef::String(_) => true,
            _ => false,
        }
    }

    /// Returns `true` if the value is an array.
    /// Returns `false` otherwise.
    ///
    /// For any value on which `is_array` returns `true`,
    /// [`as_array`](Self::as_array()) is guaranteed to return the array value.
    fn is_array(&self) -> (r: bool)
        ensures
            r == (self.content() is Array),
    {
        match self.as_value_ref() {
            ValueRef::Array(_) => true,
            _ => false,
        }
    }

    /// Returns `true` if the value is an object.
    /// Returns `false` otherwise.
    ///
    /// For any value on which `is_object` returns `true`,
    /// [`as_object`](Self::as_object()) is guaranteed to return the object value.
    fn is_object(&self) -> (r: bool)
        ensures
            r == (self.content() is Object),
    {
        match self.as_value_ref() {
            ValueRef::Object(_) => true,
            _ => false,
        }
    }

    /// If the value is a boolean, returns the associated `bool`.
    /// Returns `None` otherwise.
    fn as_bool(&self) -> (r: Option<bool>)
        ensures
            r == match self.content() {
                Value::Boolean(b) => Some(b),
                _ => None,
            },
    {
        match self.as_value_ref() {
            ValueRef::Boolean(b) => Some(b),
            _ => None,
        }
    }

    /// If the value is a number, returns a reference to it.
    /// Returns `None` otherwise.
    fn as_number(&self) -> (r: Option<&Self::Number>)
        ensures
            match r {
                Some(n) => self.content() == Value::<Self>::Number(*n),
                None => !(self.content() is Number),
            },
    {
        match self.as_value_ref() {
            ValueRef::Number(n) => Some(n),
            _ => None,
        }
    }

    /// Returns this number as an `u32` if it can be exactly represented as such.
    fn as_u32(&self) -> (r: Option<u32>)
        ensures
            r == match self.content() {
                Value::Number(n) => crate::number::narrow_u32(n.exact_u64()),
                _ => None,
            },
    {
        match self.as_value_ref() {
            ValueRef::Number(n) => n.as_u32(),
            _ => None,
        }
    }

    /// Returns this number as an `u64` if it can be exactly represented as such.
    fn as_u64(&self) -> (r: Option<u64>)
        ensures
            r == match self.content() {
                Value::Number(n) => n.exact_u64(),
                _ => None,
            },
    {
        match self.as_value_ref() {
            ValueRef::Number(n) => n.as_u64(),
            _ => None,
        }
    }

    /// Returns this number as an `i32` if it can be exactly represented as such.
    fn as_i32(&self) -> (r: Option<i32>)
        ensures
            r == match self.content() {
                Value::Number(n) => crate::number::narrow_i32(n.exact_i64()),
                _ => None,
            },
    {
        match self.as_value_ref() {
            ValueRef::Number(n) => n.as_i32(),
            _ => None,
        }
    }

    /// Returns this number as an `i64` if it can be exactly represented as such.
    fn as_i64(&self) -> (r: Option<i64>)
        ensures
            r == match self.content() {
                Value::Number(n) => n.exact_i64(),
                _ => None,
            },
    {
        match self.as_value_ref() {
            ValueRef::Number(n) => n.as_i64(),
            _ => None,
        }
    }

    /// If the value is a string, returns its associated [`str`].
    /// Returns `None` otherwise.
    fn as_str(&self) -> (r: Option<&str>)
        ensures
            match r {
                Some(s) => self.content() matches Value::String(t) && s@ == t.text(),
                None => !(self.content() is String),
            },
    {
        match self.as_value_ref() {
            ValueRef::String(s) => Some(s),
            _ => None,
        }
    }

    /// If the value is an array, returns a reference to it.
    /// Returns `None` otherwise.
    fn as_array(&self) -> (r: Option<&Self::Array>)
        ensures
            match r {
                Some(a) => self.content() == Value::<Self>::Array(*a),
                None => !(self.content() is Array),
            },
    {
        match self.as_value_ref() {
            ValueRef::Array(a) => Some(a),
            _ => None,
        }
    }

    /// If the value is an array, returns a mutable reference to it.
    /// Returns `None` otherwise.
    ///
    /// What the caller leaves behind the reference is the array afterwards; a node
    /// that is no array stays as it is.
    fn as_array_mut(&mut self) -> (r: Option<&mut Self::Array>)
        ensures
            match r {
                Some(a) => old(self).content() == Value::<Self>::Array(*a) && final(self).content() == Value::<Self>::Array(*final(a)),
                None => !(old(self).content() is Array) && final(self).content() == old(self).content(),
            },
            final(self).annotation() == old(self).annotation(),
    {
        match self.as_value_mut() {
            ValueMut::Array(a) => Some(a),
            _ => None,
        }
    }

    /// If the value is an object, returns a reference to it.
    /// Returns `None` otherwise.
    fn as_object(&self) -> (r: Option<&Self::Object>)
        ensures
            match r {
                Some(o) => self.content() == Value::<Self>::Object(*o),
                None => !(self.content() is Object),
            },
    {
        match self.as_value_ref() {
            ValueRef::Object(o) => Some(o),
            _ => None,
        }
    }

    /// If the value is an object, returns a mutable reference to it.
    /// Returns `None` otherwise.
    ///
    /// What the caller leaves behind the reference is the object afterwards; a node
    /// that is no object stays as it is.
    fn as_object_mut(&mut self) -> (r: Option<&mut Self::Object>)
        ensures
            match r {
                Some(o) => old(self).content() == Value::<Self>::Object(*o) && final(self).content() == Value::<Self>::Object(*final(o)),
                None => !(old(self).content() is Object) && final(self).content() == old(self).content(),
            },
            final(self).annotation() == old(self).annotation(),
    {
        match self.as_value_mut() {
            ValueMut::Object(o) => Some(o),
            _ => None,
        }
    }
}

/// Constructible JSON type.
pub trait JsonNew: Json {
    /// Creates a new "meta value" from a `Value` and its associated metadata.
    fn new(value: Value<Self>, metadata: Self::MetaData) -> (r: Self)
        ensures
            r.content() == value,
            r.annotation() == metadata,
    ;

    /// Creates a new object key.
    fn new_key(key: &str, metadata: Self::MetaData) -> (r: Self::Key)
        ensures
            r.text() == key@,
            r.annotation() == metadata,
    ;

    /// Creates a new `null` value.
    fn null(metadata: Self::MetaData) -> (r: Self)
        ensures
            r.content() == Value::<Self>::Null,
            r.annotation() == metadata,
    {
        Self::new(Value::Null, metadata)
    }

    /// Creates a new boolean value.
    fn boolean(b: bool, metadata: Self::MetaData) -> (r: Self)
        ensures
            r.content() == Value::<Self>::Boolean(b),
            r.annotation() == metadata,
    {
        Self::new(Value::Boolean(b), metadata)
    }

    /// Creates a new number value.
    fn number(n: Self::Number, metadata: Self::MetaData) -> (r: Self)
        ensures
            r.content() == Value::<Self>::Number(n),
            r.annotation() == metadata,
    {
        Self::new(Value::Number(n), metadata)
    }

    /// Creates a new string value.
    fn string(s: Self::String, metadata: Self::MetaData) -> (r: Self)
        ensures
            r.content() == Value::<Self>::String(s),
            r.annotation() == metadata,
    {
        Self::new(Value::String(s), metadata)
    }

    /// Creates a new array value.
    fn array(a: Self::Array, metadata: Self::MetaData) -> (r: Self)
        ensures
            r.content() == Value::<Self>::Array(a),
            r.annotation() == metadata,
    {
        Self::new(Value::Array(a), metadata)
    }

    /// Creates a new empty array value: the array is the default of the array type.
    fn empty_array(metadata: Self::MetaData) -> (r: Self) where Self::Array: Default
        ensures
            r.content() matches Value::Array(a) && call_ensures(
                <Self::Array as Default>::default,
                (),
                a,
            ),
            r.annotation() == metadata,
    {
        Self::array(<Self::Array as Default>::default(), metadata)
    }

    /// Creates a new object value.
    fn object(o: Self::Object, metadata: Self::MetaData) -> (r: Self)
        ensures
            r.content() == Value::<Self>::Object(o),
            r.annotation() == metadata,
    {
        Self::new(Value::Object(o), metadata)
    }

    /// Creates a new empty object value: the object is the default of the object
    /// type.
    fn empty_object(metadata: Self::MetaData) -> (r: Self) where Self::Object: Default
        ensures
            r.content() matches Value::Object(o) && call_ensures(
                <Self::Object as Default>::default,
                (),
                o,
            ),
            r.annotation() == metadata,
    {
        Self::object(<Self::Object as Default>::default(), metadata)
    }
}

/// Taking a node apart and putting the parts together again loses nothing: the new
/// node holds the content and the metadata of the old one.
pub proof fn lemma_parts_round_trip<T: JsonNew>(
    node: T,
    parts: (Value<T>, T::MetaData),
    rebuilt: T,
)
    requires
        call_ensures(T::into_parts, (node,), parts),
        call_ensures(T::new, parts, rebuilt),
    ensures
        rebuilt.content() == node.content(),
        rebuilt.annotation() == node.annotation(),
{
}

} // verus!
