//! A backend that attaches an annotation to every node.
//!
//! A node holds its annotation and its content. Numbers are literals of
//! `json_number`, strings and keys are small strings, arrays are vectors of nodes,
//! and objects keep their entries in the order of their keys.
use vstd::prelude::*;
use vstd::bytes::u64_to_le_bytes;
use vstd::std_specs::cmp::PartialEqSpec;
use vstd::std_specs::cmp::PartialOrdSpec;
use core::cmp::Ordering;
use core::hash::Hash;
use core::hash::Hasher;
use crate::Json;
use crate::JsonNew;
use crate::Mapping;
use crate::lookup;
use crate::number::Literal;
use crate::order::Comparable;
use crate::order::Order;
use crate::order::mirror_option;
use crate::reference::ValueMut;
use crate::reference::ValueRef;
use crate::text::SmallString;
use crate::text::Text;
use crate::text::lemma_text_order_equal;
use crate::text::lemma_text_order_mirror;
use crate::text::lemma_text_order_transitive;
use crate::text::small_hash;
use crate::text::small_order;
use crate::text::text_order;
use crate::tree::Tree;
use crate::tree::entries_feed;
use crate::tree::entry_results;
use crate::tree::item_results;
use crate::tree::items_feed;
use crate::tree::length_feed;
use crate::tree::lemma_first_decided_after_equal;
use crate::tree::lemma_tree_order_equal;
use crate::tree::lemma_tree_order_mirror;
use crate::tree::text_feed;
use crate::tree::tree_feed;
use crate::tree::tree_order;
use crate::value::Value;
use crate::value::hash_payload;

verus! {

/// An object key: a text and the annotation attached to it.
///
/// Keys are compared by their texts alone.
pub struct Key<M> {
    meta: M,
    key: SmallString,
}

impl<M> Key<M> {
    /// The key with the text of `key` and the annotation `meta`.
    pub fn new(key: &str, meta: M) -> (r: Self)
        ensures
            crate::Key::text(&r) == key@,
            crate::Key::annotation(&r) == meta,
    {
        Key { meta, key: SmallString::new(key) }
    }
}

/// Whether the string slice holds the text.
pub open spec fn same_text(s: &str, text: Seq<char>) -> bool {
    s@ == text
}

impl<M> AsRef<str> for Key<M> {
    /// The text of the key.
    fn as_ref(&self) -> (r: &str)
        ensures
            r@ == crate::Key::text(self),
    {
        self.key.as_str()
    }
}

impl<M> core::borrow::Borrow<str> for Key<M> {
    /// The text of the key.
    fn borrow(&self) -> (r: &str)
        ensures
            same_text(r, crate::Key::text(self)),
    {
        self.key.as_str()
    }
}

impl<M> crate::Key<M> for Key<M> {
    closed spec fn text(&self) -> Seq<char> {
        self.key@
    }

    closed spec fn annotation(&self) -> M {
        self.meta
    }

    fn as_str(&self) -> (r: &str) {
        self.key.as_str()
    }

    fn metadata(&self) -> (r: &M) {
        &self.meta
    }
}

enum Content<M> {
    Null,
    Boolean(bool),
    Number(Literal),
    String(SmallString),
    Array(Vec<MetaValue<M>>),
    Object(Object<M>),
}

/// A JSON value with an annotation on every node.
pub struct MetaValue<M> {
    meta: M,
    value: Content<M>,
}

/// The object of a [`MetaValue`]: entries of a key and a node, kept in the
/// ascending order of the keys' texts, so that no text occurs twice.
pub struct Object<M> {
    entries: Vec<(Key<M>, MetaValue<M>)>,
}

/// Whether the texts of the keys ascend strictly.
pub open spec fn ascending<M>(entries: Seq<(Key<M>, MetaValue<M>)>) -> bool {
    forall|i: int, j: int|
        0 <= i < j < entries.len() ==> text_order(
            crate::Key::text(&(#[trigger] entries[i]).0),
            crate::Key::text(&(#[trigger] entries[j]).0),
        ) == Order::Less
}

/// The trees of the nodes of an array.
pub open spec fn item_trees<M>(items: Seq<MetaValue<M>>) -> Seq<Tree> {
    Seq::new(items.len(), |i: int| items[i].tree())
}

/// The texts of the keys of an object, each with the tree of the node under it.
pub open spec fn entry_trees<M>(entries: Seq<(Key<M>, MetaValue<M>)>) -> Seq<(Seq<char>, Tree)> {
    Seq::new(entries.len(), |i: int| (crate::Key::text(&entries[i].0), entries[i].1.tree()))
}

/// What a value of this backend holds, without any annotation.
pub open spec fn value_tree<M>(v: Value<MetaValue<M>>) -> Tree {
    match v {
        Value::Null => Tree::Null,
        Value::Boolean(b) => Tree::Boolean(b),
        Value::Number(n) => Tree::Number(n@),
        Value::String(s) => Tree::String(s@),
        Value::Array(a) => Tree::Array(item_trees(a@)),
        Value::Object(o) => Tree::Object(entry_trees(o.entries())),
    }
}

impl<M> MetaValue<M> {
    /// What the node holds, without the annotations of the node and of everything
    /// below it.
    pub closed spec fn tree(&self) -> Tree
        decreases self,
    {
        match self.value {
            Content::Null => Tree::Null,
            Content::Boolean(b) => Tree::Boolean(b),
            Content::Number(n) => Tree::Number(n@),
            Content::String(s) => Tree::String(s@),
            Content::Array(a) => Tree::Array(
                Seq::new(
                    a@.len(),
                    |i: int|
                        if 0 <= i < a@.len() {
                            a@[i].tree()
                        } else {
                            Tree::Null
                        },
                ),
            ),
            Content::Object(o) => Tree::Object(
                Seq::new(
                    o.entries@.len(),
                    |i: int|
                        if 0 <= i < o.entries@.len() {
                            (o.entries@[i].0.key@, o.entries@[i].1.tree())
                        } else {
                            (Seq::empty(), Tree::Null)
                        },
                ),
            ),
        }
    }

    /// The tree of a node is the tree of its content: the annotation of the node
    /// takes no part in it.
    pub proof fn lemma_tree_of_content(&self)
        ensures
            self.tree() == value_tree(self.content()),
    {
        match self.value {
            Content::Array(a) => {
                assert(self.tree()->Array_0 =~= item_trees(a@));
            },
            Content::Object(o) => {
                assert(self.tree()->Object_0 =~= entry_trees(o.entries@));
            },
            _ => {},
        }
    }

    /// Returns a view of the content of the node.
    pub fn value(&self) -> (r: ValueRef<'_, Self>)
        ensures
            r.shows(self.content()),
    {
        self.as_value_ref()
    }

    /// Returns an exclusive view of the content of the node.
    ///
    /// The view shows the content as it is; what the caller leaves behind the
    /// view's references is the content afterwards. The annotation stays.
    pub fn value_mut(&mut self) -> (r: ValueMut<'_, Self>)
        ensures
            r.shows(old(self).content()),
            match r {
                ValueMut::Null => final(self).content() == Value::<Self>::Null,
                ValueMut::Boolean(a) => final(self).content() == Value::<Self>::Boolean(*final(a)),
                ValueMut::Number(a) => final(self).content() == Value::<Self>::Number(*final(a)),
                ValueMut::String(a) => final(self).content() == Value::<Self>::String(*final(a)),
                ValueMut::Array(a) => final(self).content() == Value::<Self>::Array(*final(a)),
                ValueMut::Object(a) => final(self).content() == Value::<Self>::Object(*final(a)),
            },
            final(self).annotation() == old(self).annotation(),
    {
        self.as_value_mut()
    }
}

impl<M> Object<M> {
    #[verifier::type_invariant]
    spec fn sorted(&self) -> bool {
        ascending(self.entries@)
    }

    /// An object without entries.
    pub fn new() -> (r: Self)
        ensures
            r.entries().len() == 0,
    {
        Object { entries: Vec::new() }
    }

    /// Puts `value` under `key`.
    ///
    /// Where an entry with the text of `key` exists, its node is replaced and
    /// returned, and its key stays. Otherwise the entry is added at the place that
    /// keeps the texts of the keys ascending, and `None` is returned.
    pub fn insert(&mut self, key: Key<M>, value: MetaValue<M>) -> (r: Option<MetaValue<M>>)
        ensures
            ({
                let before = old(self).entries();
                let i = position(before, crate::Key::text(&key));
                if i < before.len() && crate::Key::text(&before[i].0) == crate::Key::text(&key) {
                    r == Some(before[i].1) && final(self).entries() == before.update(
                        i,
                        (before[i].0, value),
                    )
                } else {
                    r is None && final(self).entries() == before.insert(i, (key, value))
                }
            }),
            0 <= position(old(self).entries(), crate::Key::text(&key)) <= old(self).entries().len(),
            ascending(final(self).entries()),
    {
        proof {
            use_type_invariant(&*self);
        }
        let ghost before = self.entries@;
        let ghost text = key.key@;
        let mut entries: Vec<(Key<M>, MetaValue<M>)> = Vec::new();
        core::mem::swap(&mut self.entries, &mut entries);
        let mut i: usize = 0;
        assert(before.skip(0) =~= before);
        while i < entries.len() && small_order(&entries[i].0.key, &key.key) == Order::Less
            invariant
                entries@ == before,
                text == key.key@,
                i <= before.len(),
                position(before, text) == i + position(before.skip(i as int), text),
                forall|j: int|
                    0 <= j < i ==> text_order(crate::Key::text(&before[j].0), text) == Order::Less,
            decreases before.len() - i,
        {
            proof {
                assert(before.skip(i as int)[0] == before[i as int]);
                assert(before.skip(i as int).drop_first() =~= before.skip(i + 1));
            }
            i = i + 1;
        }
        proof {
            if i < before.len() {
                assert(before.skip(i as int)[0] == before[i as int]);
                lemma_text_order_equal(crate::Key::text(&before[i as int].0), text);
            }
        }
        let found = i < entries.len() && small_order(&entries[i].0.key, &key.key) == Order::Equal;
        if found {
            let (k, v) = entries.remove(i);
            entries.insert(i, (k, value));
            proof {
                assert(entries@ =~= before.update(i as int, (before[i as int].0, value)));
                lemma_update_keeps_ascending(before, i as int, value);
            }
            core::mem::swap(&mut self.entries, &mut entries);
            Some(v)
        } else {
            entries.insert(i, (key, value));
            proof {
                lemma_insert_keeps_ascending(before, i as int, key, value);
            }
            core::mem::swap(&mut self.entries, &mut entries);
            None
        }
    }
}

/// The index of the first entry whose key has the text `key`, which is the number
/// of entries where there is none.
pub open spec fn index_of<M>(entries: Seq<(Key<M>, MetaValue<M>)>, key: Seq<char>) -> int
    decreases entries.len(),
{
    if entries.len() == 0 || crate::Key::text(&entries[0].0) == key {
        0
    } else {
        1 + index_of(entries.drop_first(), key)
    }
}

impl<M> Object<M> {
    /// Takes the entry with the text of `key` out of the object and returns its
    /// node. An object without such an entry stays as it is.
    pub fn remove(&mut self, key: &str) -> (r: Option<MetaValue<M>>)
        ensures
            ({
                let before = old(self).entries();
                let i = index_of(before, key@);
                if i < before.len() {
                    r == Some(before[i].1) && final(self).entries() == before.remove(i)
                } else {
                    r is None && final(self).entries() == before
                }
            }),
            0 <= index_of(old(self).entries(), key@) <= old(self).entries().len(),
            ascending(final(self).entries()),
    {
        proof {
            use_type_invariant(&*self);
        }
        let ghost before = self.entries@;
        let mut entries: Vec<(Key<M>, MetaValue<M>)> = Vec::new();
        core::mem::swap(&mut self.entries, &mut entries);
        let mut i: usize = 0;
        assert(before.skip(0) =~= before);
        while i < entries.len() && !entries[i].0.key.eq_str(key)
            invariant
                entries@ == before,
                i <= before.len(),
                index_of(before, key@) == i + index_of(before.skip(i as int), key@),
            decreases before.len() - i,
        {
            proof {
                assert(before.skip(i as int)[0] == before[i as int]);
                assert(before.skip(i as int).drop_first() =~= before.skip(i + 1));
            }
            i = i + 1;
        }
        proof {
            if i < before.len() {
                assert(before.skip(i as int)[0] == before[i as int]);
            }
        }
        if i < entries.len() {
            let (_k, v) = entries.remove(i);
            proof {
                lemma_remove_keeps_ascending(before, i as int);
            }
            core::mem::swap(&mut self.entries, &mut entries);
            Some(v)
        } else {
            core::mem::swap(&mut self.entries, &mut entries);
            None
        }
    }
}

/// Taking an entry out keeps the texts of the keys ascending.
proof fn lemma_remove_keeps_ascending<M>(before: Seq<(Key<M>, MetaValue<M>)>, i: int)
    requires
        ascending(before),
        0 <= i < before.len(),
    ensures
        ascending(before.remove(i)),
{
    let after = before.remove(i);
    assert forall|p: int, q: int| 0 <= p < q < after.len() implies text_order(
        crate::Key::text(&(#[trigger] after[p]).0),
        crate::Key::text(&(#[trigger] after[q]).0),
    ) == Order::Less by {
        let pp = if p < i { p } else { p + 1 };
        let qq = if q < i { q } else { q + 1 };
        assert(after[p] == before[pp]);
        assert(after[q] == before[qq]);
    }
}

/// Replacing the node of an entry keeps the texts of the keys ascending.
proof fn lemma_update_keeps_ascending<M>(
    before: Seq<(Key<M>, MetaValue<M>)>,
    i: int,
    value: MetaValue<M>,
)
    requires
        ascending(before),
        0 <= i < before.len(),
    ensures
        ascending(before.update(i, (before[i].0, value))),
{
    let after = before.update(i, (before[i].0, value));
    assert forall|p: int, q: int| 0 <= p < q < after.len() implies text_order(
        crate::Key::text(&(#[trigger] after[p]).0),
        crate::Key::text(&(#[trigger] after[q]).0),
    ) == Order::Less by {
        assert(crate::Key::text(&after[p].0) == crate::Key::text(&before[p].0));
        assert(crate::Key::text(&after[q].0) == crate::Key::text(&before[q].0));
    }
}

/// Adding an entry between the keys that come before its key and the keys that
/// come after it keeps the texts of the keys ascending.
proof fn lemma_insert_keeps_ascending<M>(
    before: Seq<(Key<M>, MetaValue<M>)>,
    i: int,
    key: Key<M>,
    value: MetaValue<M>,
)
    requires
        ascending(before),
        0 <= i <= before.len(),
        forall|j: int|
            0 <= j < i ==> text_order(crate::Key::text(&before[j].0), crate::Key::text(&key))
                == Order::Less,
        i < before.len() ==> text_order(crate::Key::text(&before[i].0), crate::Key::text(&key))
            == Order::Greater,
    ensures
        ascending(before.insert(i, (key, value))),
{
    let after = before.insert(i, (key, value));
    let text = crate::Key::text(&key);
    assert forall|p: int, q: int| 0 <= p < q < after.len() implies text_order(
        crate::Key::text(&(#[trigger] after[p]).0),
        crate::Key::text(&(#[trigger] after[q]).0),
    ) == Order::Less by {
        if q < i {
            assert(after[p] == before[p]);
            assert(after[q] == before[q]);
        } else if q == i {
            assert(after[p] == before[p]);
        } else if p < i {
            assert(after[p] == before[p]);
            assert(after[q] == before[q - 1]);
        } else if p == i {
            assert(after[q] == before[q - 1]);
            lemma_text_order_mirror(crate::Key::text(&before[i].0), text);
            if q - 1 > i {
                lemma_text_order_transitive(
                    text,
                    crate::Key::text(&before[i].0),
                    crate::Key::text(&before[q - 1].0),
                );
            }
        } else {
            assert(after[p] == before[p - 1]);
            assert(after[q] == before[q - 1]);
        }
    }
}

/// The place of a key among the entries of an object: the index of the first
/// entry whose key does not come before `key`, which is the number of entries
/// where there is none.
pub open spec fn position<M>(entries: Seq<(Key<M>, MetaValue<M>)>, key: Seq<char>) -> int
    decreases entries.len(),
{
    if entries.len() == 0 || text_order(crate::Key::text(&entries[0].0), key) != Order::Less {
        0
    } else {
        1 + position(entries.drop_first(), key)
    }
}

impl<M> Default for Object<M> {
    /// The default object has no entries.
    fn default() -> (r: Self)
        ensures
            r.entries().len() == 0,
    {
        Object::new()
    }
}

impl<M> Mapping<M, Key<M>, MetaValue<M>> for Object<M> {
    closed spec fn entries(&self) -> Seq<(Key<M>, MetaValue<M>)> {
        self.entries@
    }

    /// The number of entries. The entries are in the ascending order of their
    /// keys' texts.
    fn len(&self) -> (r: usize)
        ensures
            ascending(self.entries()),
    {
        proof {
            use_type_invariant(self);
        }
        self.entries.len()
    }

    fn entry(&self, index: usize) -> (r: Option<(&Key<M>, &MetaValue<M>)>) {
        if index < self.entries.len() {
            let e = &self.entries[index];
            Some((&e.0, &e.1))
        } else {
            None
        }
    }

    fn get(&self, key: &str) -> (r: Option<&MetaValue<M>>) {
        let mut i: usize = 0;
        assert(self.entries@.skip(0) =~= self.entries@);
        while i < self.entries.len()
            invariant
                i <= self.entries.len(),
                lookup::<M, Key<M>, MetaValue<M>>(self.entries@, key@) == lookup::<
                    M,
                    Key<M>,
                    MetaValue<M>,
                >(self.entries@.skip(i as int), key@),
            decreases self.entries.len() - i,
        {
            let e = &self.entries[i];
            proof {
                assert(self.entries@.skip(i as int)[0] == self.entries@[i as int]);
                assert(self.entries@.skip(i as int).drop_first() =~= self.entries@.skip(i + 1));
            }
            if e.0.key.eq_str(key) {
                return Some(&e.1);
            }
            i = i + 1;
        }
        None
    }
}

impl<M> Json for MetaValue<M> {
    type MetaData = M;

    type Number = Literal;

    type String = SmallString;

    type Array = Vec<MetaValue<M>>;

    type Key = Key<M>;

    type Object = Object<M>;

    closed spec fn content(&self) -> Value<Self> {
        match self.value {
            Content::Null => Value::Null,
            Content::Boolean(b) => Value::Boolean(b),
            Content::Number(n) => Value::Number(n),
            Content::String(s) => Value::String(s),
            Content::Array(a) => Value::Array(a),
            Content::Object(o) => Value::Object(o),
        }
    }

    closed spec fn annotation(&self) -> M {
        self.meta
    }

    fn as_value_ref(&self) -> (r: ValueRef<'_, Self>) {
        match &self.value {
            Content::Null => ValueRef::Null,
            Content::Boolean(b) => ValueRef::Boolean(*b),
            Content::Number(n) => ValueRef::Number(n),
            Content::String(s) => {
                assert(Text::text(s) == s@);
                ValueRef::String(s.as_str())
            },
            Content::Array(a) => ValueRef::Array(a),
            Content::Object(o) => ValueRef::Object(o),
        }
    }

    fn as_value_mut(&mut self) -> (r: ValueMut<'_, Self>) {
        match &mut self.value {
            Content::Null => ValueMut::Null,
            Content::Boolean(b) => ValueMut::Boolean(b),
            Content::Number(n) => ValueMut::Number(n),
            Content::String(s) => ValueMut::String(s),
            Content::Array(a) => ValueMut::Array(a),
            Content::Object(o) => ValueMut::Object(o),
        }
    }

    fn into_parts(self) -> (r: (Value<Self>, M)) {
        assert(self.annotation() == self.meta);
        let MetaValue { meta, value } = self;
        let value = match value {
            Content::Null => Value::Null,
            Content::Boolean(b) => Value::Boolean(b),
            Content::Number(n) => Value::Number(n),
            Content::String(s) => Value::String(s),
            Content::Array(a) => Value::Array(a),
            Content::Object(o) => Value::Object(o),
        };
        (value, meta)
    }

    fn metadata(&self) -> (r: &M) {
        &self.meta
    }

    fn as_pair_mut(&mut self) -> (r: (ValueMut<'_, Self>, &M)) {
        let view = match &mut self.value {
            Content::Null => ValueMut::Null,
            Content::Boolean(b) => ValueMut::Boolean(b),
            Content::Number(n) => ValueMut::Number(n),
            Content::String(s) => ValueMut::String(s),
            Content::Array(a) => ValueMut::Array(a),
            Content::Object(o) => ValueMut::Object(o),
        };
        (view, &self.meta)
    }
}

impl<M> JsonNew for MetaValue<M> {
    fn new(value: Value<Self>, metadata: M) -> (r: Self) {
        let value = match value {
            Value::Null => Content::Null,
            Value::Boolean(b) => Content::Boolean(b),
            Value::Number(n) => Content::Number(n),
            Value::String(s) => Content::String(s),
            Value::Array(a) => Content::Array(a),
            Value::Object(o) => Content::Object(o),
        };
        MetaValue { meta: metadata, value }
    }

    fn new_key(key: &str, metadata: M) -> (r: Key<M>) {
        Key::new(key, metadata)
    }
}

/// A node that is taken apart and put together again is the node it was: the
/// content and the annotation determine the node.
pub proof fn lemma_round_trip<M>(v: MetaValue<M>, w: MetaValue<M>)
    requires
        w.content() == v.content(),
        w.annotation() == v.annotation(),
    ensures
        w == v,
        w.tree() == v.tree(),
{
}

impl<M> Content<M> {
    /// The place of the variant in the order of the variants.
    fn index(&self) -> (r: u8)
        ensures
            r == match self {
                Content::Null => 0int,
                Content::Boolean(_) => 1,
                Content::Number(_) => 2,
                Content::String(_) => 3,
                Content::Array(_) => 4,
                Content::Object(_) => 5,
            },
    {
        match self {
            Content::Null => 0,
            Content::Boolean(_) => 1,
            Content::Number(_) => 2,
            Content::String(_) => 3,
            Content::Array(_) => 4,
            Content::Object(_) => 5,
        }
    }
}

/// Orders two nodes, which may carry different kinds of annotation, by what they
/// hold: the annotations take no part.
pub fn compare_nodes<M, N>(a: &MetaValue<M>, b: &MetaValue<N>) -> (r: Order)
    ensures
        r == tree_order(a.tree(), b.tree()),
    decreases *a, 1int,
{
    match (&a.value, &b.value) {
        (Content::Null, Content::Null) => Order::Equal,
        (Content::Boolean(x), Content::Boolean(y)) => {
            if *x == *y {
                Order::Equal
            } else if *y {
                Order::Less
            } else {
                Order::Greater
            }
        },
        (Content::Number(x), Content::Number(y)) => x.order_to(y),
        (Content::String(x), Content::String(y)) => small_order(x, y),
        (Content::Array(x), Content::Array(y)) => {
            proof {
                assert(a.tree()->Array_0 =~= item_trees(x@));
                assert(b.tree()->Array_0 =~= item_trees(y@));
            }
            compare_arrays(x, y)
        },
        (Content::Object(x), Content::Object(y)) => {
            proof {
                assert(a.tree()->Object_0 =~= entry_trees(x.entries@));
                assert(b.tree()->Object_0 =~= entry_trees(y.entries@));
            }
            compare_objects(x, y)
        },
        _ => {
            if a.value.index() < b.value.index() {
                Order::Less
            } else {
                Order::Greater
            }
        },
    }
}

/// Orders two arrays lexicographically by their nodes: the first pair of nodes
/// that differs decides, and a proper prefix comes first.
pub fn compare_arrays<M, N>(x: &Vec<MetaValue<M>>, y: &Vec<MetaValue<N>>) -> (r: Order)
    ensures
        r == tree_order(Tree::Array(item_trees(x@)), Tree::Array(item_trees(y@))),
    decreases *x, 0int,
{
    let ghost results = item_results(item_trees(x@), item_trees(y@));
    let mut i: usize = 0;
    while i < x.len() && i < y.len()
        invariant
            i <= x.len(),
            i <= y.len(),
            results == item_results(item_trees(x@), item_trees(y@)),
            forall|j: int| 0 <= j < i ==> results[j] == Order::Equal,
        decreases x.len() - i,
    {
        let c = compare_nodes(&x[i], &y[i]);
        proof {
            assert(results[i as int] == c);
        }
        match c {
            Order::Equal => {},
            _ => {
                proof {
                    lemma_first_decided_after_equal(results, i as int);
                }
                return c;
            },
        }
        i = i + 1;
    }
    proof {
        lemma_first_decided_after_equal(results, i as int);
    }
    if x.len() < y.len() {
        Order::Less
    } else if x.len() == y.len() {
        Order::Equal
    } else {
        Order::Greater
    }
}

/// Orders two objects lexicographically by their entries, in the order in which
/// the objects are walked: of the first pair of entries that differs, the texts of
/// the keys decide, else the nodes under them; a proper prefix comes first.
pub fn compare_objects<M, N>(x: &Object<M>, y: &Object<N>) -> (r: Order)
    ensures
        r == tree_order(
            Tree::Object(entry_trees(x.entries())),
            Tree::Object(entry_trees(y.entries())),
        ),
    decreases *x, 0int,
{
    let ghost results = entry_results(entry_trees(x.entries@), entry_trees(y.entries@));
    let mut i: usize = 0;
    while i < x.entries.len() && i < y.entries.len()
        invariant
            i <= x.entries.len(),
            i <= y.entries.len(),
            results == entry_results(entry_trees(x.entries@), entry_trees(y.entries@)),
            forall|j: int| 0 <= j < i ==> results[j] == Order::Equal,
        decreases x.entries.len() - i,
    {
        let ex = &x.entries[i];
        let ey = &y.entries[i];
        let k = small_order(&ex.0.key, &ey.0.key);
        let c = match k {
            Order::Equal => compare_nodes(&ex.1, &ey.1),
            _ => k,
        };
        proof {
            assert(results[i as int] == c);
        }
        match c {
            Order::Equal => {},
            _ => {
                proof {
                    lemma_first_decided_after_equal(results, i as int);
                }
                return c;
            },
        }
        i = i + 1;
    }
    proof {
        lemma_first_decided_after_equal(results, i as int);
    }
    if x.entries.len() < y.entries.len() {
        Order::Less
    } else if x.entries.len() == y.entries.len() {
        Order::Equal
    } else {
        Order::Greater
    }
}

impl<M, N> Comparable<Key<N>> for Key<M> {
    open spec fn same(&self, other: &Key<N>) -> bool {
        crate::Key::text(self) == crate::Key::text(other)
    }

    open spec fn order(&self, other: &Key<N>) -> Option<Order> {
        Some(text_order(crate::Key::text(self), crate::Key::text(other)))
    }

    proof fn lemma_same_is_equal(&self, other: &Key<N>) {
        lemma_text_order_equal(crate::Key::text(self), crate::Key::text(other));
    }

    fn is_same(&self, other: &Key<N>) -> (r: bool) {
        self.key.is_same(&other.key)
    }

    fn compare(&self, other: &Key<N>) -> (r: Option<Order>) {
        Some(small_order(&self.key, &other.key))
    }
}

impl<M, N> PartialEq<Key<N>> for Key<M> {
    fn eq(&self, other: &Key<N>) -> (r: bool) {
        self.key.is_same(&other.key)
    }
}

impl<M> Eq for Key<M> {

}

impl<M, N> vstd::std_specs::cmp::PartialEqSpecImpl<Key<N>> for Key<M> {
    open spec fn obeys_eq_spec() -> bool {
        true
    }

    open spec fn eq_spec(&self, other: &Key<N>) -> bool {
        crate::Key::text(self) == crate::Key::text(other)
    }
}

impl<M, N> PartialOrd<Key<N>> for Key<M> {
    fn partial_cmp(&self, other: &Key<N>) -> (r: Option<Ordering>) {
        Some(small_order(&self.key, &other.key).to_ordering())
    }
}

impl<M, N> vstd::std_specs::cmp::PartialOrdSpecImpl<Key<N>> for Key<M> {
    open spec fn obeys_partial_cmp_spec() -> bool {
        true
    }

    open spec fn partial_cmp_spec(&self, other: &Key<N>) -> Option<Ordering> {
        Some(text_order(crate::Key::text(self), crate::Key::text(other)).ordering())
    }
}

impl<M> Hash for Key<M> {
    /// Feeds the text of the key to the hasher, and not the annotation.
    fn hash<H: Hasher>(&self, state: &mut H) {
        small_hash(&self.key, state)
    }
}

impl<M, N> Comparable<MetaValue<N>> for MetaValue<M> {
    open spec fn same(&self, other: &MetaValue<N>) -> bool {
        self.tree() == other.tree()
    }

    open spec fn order(&self, other: &MetaValue<N>) -> Option<Order> {
        Some(tree_order(self.tree(), other.tree()))
    }

    proof fn lemma_same_is_equal(&self, other: &MetaValue<N>) {
        lemma_tree_order_equal(self.tree(), other.tree());
    }

    fn is_same(&self, other: &MetaValue<N>) -> (r: bool) {
        proof {
            lemma_tree_order_equal(self.tree(), other.tree());
        }
        match compare_nodes(self, other) {
            Order::Equal => true,
            _ => false,
        }
    }

    fn compare(&self, other: &MetaValue<N>) -> (r: Option<Order>) {
        Some(compare_nodes(self, other))
    }
}

impl<M, N> Comparable<Vec<MetaValue<N>>> for Vec<MetaValue<M>> {
    open spec fn same(&self, other: &Vec<MetaValue<N>>) -> bool {
        item_trees(self@) == item_trees(other@)
    }

    open spec fn order(&self, other: &Vec<MetaValue<N>>) -> Option<Order> {
        Some(tree_order(Tree::Array(item_trees(self@)), Tree::Array(item_trees(other@))))
    }

    proof fn lemma_same_is_equal(&self, other: &Vec<MetaValue<N>>) {
        lemma_tree_order_equal(Tree::Array(item_trees(self@)), Tree::Array(item_trees(other@)));
    }

    fn is_same(&self, other: &Vec<MetaValue<N>>) -> (r: bool) {
        proof {
            lemma_tree_order_equal(
                Tree::Array(item_trees(self@)),
                Tree::Array(item_trees(other@)),
            );
        }
        match compare_arrays(self, other) {
            Order::Equal => true,
            _ => false,
        }
    }

    fn compare(&self, other: &Vec<MetaValue<N>>) -> (r: Option<Order>) {
        Some(compare_arrays(self, other))
    }
}

impl<M, N> Comparable<Object<N>> for Object<M> {
    open spec fn same(&self, other: &Object<N>) -> bool {
        entry_trees(self.entries()) == entry_trees(other.entries())
    }

    open spec fn order(&self, other: &Object<N>) -> Option<Order> {
        Some(
            tree_order(
                Tree::Object(entry_trees(self.entries())),
                Tree::Object(entry_trees(other.entries())),
            ),
        )
    }

    proof fn lemma_same_is_equal(&self, other: &Object<N>) {
        lemma_tree_order_equal(
            Tree::Object(entry_trees(self.entries())),
            Tree::Object(entry_trees(other.entries())),
        );
    }

    fn is_same(&self, other: &Object<N>) -> (r: bool) {
        proof {
            lemma_tree_order_equal(
                Tree::Object(entry_trees(self.entries())),
                Tree::Object(entry_trees(other.entries())),
            );
        }
        match compare_objects(self, other) {
            Order::Equal => true,
            _ => false,
        }
    }

    fn compare(&self, other: &Object<N>) -> (r: Option<Order>) {
        Some(compare_objects(self, other))
    }
}

impl<M, N> PartialEq<MetaValue<N>> for MetaValue<M> {
    fn eq(&self, other: &MetaValue<N>) -> (r: bool) {
        self.is_same(other)
    }
}

impl<M> Eq for MetaValue<M> {

}

impl<M, N> vstd::std_specs::cmp::PartialEqSpecImpl<MetaValue<N>> for MetaValue<M> {
    open spec fn obeys_eq_spec() -> bool {
        true
    }

    open spec fn eq_spec(&self, other: &MetaValue<N>) -> bool {
        self.tree() == other.tree()
    }
}

impl<M, N> PartialOrd<MetaValue<N>> for MetaValue<M> {
    fn partial_cmp(&self, other: &MetaValue<N>) -> (r: Option<Ordering>) {
        Some(compare_nodes(self, other).to_ordering())
    }
}

impl<M, N> vstd::std_specs::cmp::PartialOrdSpecImpl<MetaValue<N>> for MetaValue<M> {
    open spec fn obeys_partial_cmp_spec() -> bool {
        true
    }

    open spec fn partial_cmp_spec(&self, other: &MetaValue<N>) -> Option<Ordering> {
        Some(tree_order(self.tree(), other.tree()).ordering())
    }
}

/// The comparison of two values of this backend, under whatever kinds of
/// annotation, is the order of their trees.
pub proof fn lemma_value_order_is_tree_order<M, N>(
    v: Value<MetaValue<M>>,
    w: Value<MetaValue<N>>,
)
    ensures
        v.order_to(w) == Some(tree_order(value_tree(v), value_tree(w))),
        v.same_as(w) <==> value_tree(v) == value_tree(w),
{
    v.lemma_same_as_is_equal(w);
    lemma_tree_order_equal(value_tree(v), value_tree(w));
}

/// Metadata takes no part in comparisons: two nodes that hold the same tree are
/// equal and are ordered as `Equal`, whatever annotations they and the nodes below
/// them carry, and nodes that are equal hold the same tree.
pub proof fn lemma_annotations_irrelevant<M, N>(a: MetaValue<M>, b: MetaValue<N>)
    ensures
        a.tree() == b.tree() <==> a.same(&b),
        a.tree() == b.tree() <==> a.order(&b) == Some(Order::Equal),
        a.tree() == b.tree() <==> a.eq_spec(&b),
        a.tree() == b.tree() <==> a.content().same_as(b.content()),
{
    lemma_tree_order_equal(a.tree(), b.tree());
    a.lemma_tree_of_content();
    b.lemma_tree_of_content();
    lemma_value_order_is_tree_order(a.content(), b.content());
}

/// Comparing two nodes from the other side mirrors the result: equal stays equal,
/// less becomes greater and greater becomes less. The same holds of their
/// contents.
pub proof fn lemma_nodes_mirrored<M, N>(a: MetaValue<M>, b: MetaValue<N>)
    ensures
        b.order(&a) == mirror_option(a.order(&b)),
        b.same(&a) == a.same(&b),
        b.content().order_to(a.content()) == mirror_option(a.content().order_to(b.content())),
        b.content().same_as(a.content()) == a.content().same_as(b.content()),
{
    lemma_tree_order_mirror(a.tree(), b.tree());
    a.lemma_tree_of_content();
    b.lemma_tree_of_content();
    lemma_value_order_is_tree_order(a.content(), b.content());
    lemma_value_order_is_tree_order(b.content(), a.content());
}

impl<M: Clone> Clone for Key<M> {
    /// A key with the same text and a clone of the annotation.
    fn clone(&self) -> (r: Self)
        ensures
            crate::Key::text(&r) == crate::Key::text(self),
            cloned(crate::Key::annotation(self), crate::Key::annotation(&r)),
    {
        Key { meta: self.meta.clone(), key: self.key.clone() }
    }
}

/// Whether the nodes of one array are copies of the nodes of the other, position
/// by position.
pub open spec fn copied_items<M: Clone>(x: Seq<MetaValue<M>>, y: Seq<MetaValue<M>>) -> bool
    decreases x, 0int,
{
    &&& x.len() == y.len()
    &&& forall|i: int| 0 <= i < x.len() ==> copied_node(#[trigger] x[i], y[i])
}

/// Whether the entries of one object are copies of the entries of the other,
/// position by position: the key has the same text and a clone of the annotation,
/// and the node is a copy.
pub open spec fn copied_entries<M: Clone>(
    x: Seq<(Key<M>, MetaValue<M>)>,
    y: Seq<(Key<M>, MetaValue<M>)>,
) -> bool
    decreases x, 0int,
{
    &&& x.len() == y.len()
    &&& forall|i: int|
        0 <= i < x.len() ==> {
            &&& crate::Key::text(&(#[trigger] x[i]).0) == crate::Key::text(&y[i].0)
            &&& cloned(crate::Key::annotation(&x[i].0), crate::Key::annotation(&y[i].0))
            &&& copied_node(x[i].1, y[i].1)
        }
}

/// Whether `r` is a copy of `a`: it holds the same content, and the annotation of
/// each node and of each key in it is a clone of the annotation that it copies.
pub closed spec fn copied_node<M: Clone>(a: MetaValue<M>, r: MetaValue<M>) -> bool
    decreases a, 1int,
{
    &&& cloned(a.meta, r.meta)
    &&& match (a.value, r.value) {
        (Content::Null, Content::Null) => true,
        (Content::Boolean(x), Content::Boolean(y)) => x == y,
        (Content::Number(x), Content::Number(y)) => x@ == y@,
        (Content::String(x), Content::String(y)) => x@ == y@,
        (Content::Array(x), Content::Array(y)) => copied_items(x@, y@),
        (Content::Object(x), Content::Object(y)) => copied_entries(x.entries@, y.entries@),
        _ => false,
    }
}

/// What a copy of a node is, in terms of what the node shows: a clone of the
/// annotation, and the same content with copies of the nodes below.
pub proof fn lemma_copied_node<M: Clone>(a: MetaValue<M>, r: MetaValue<M>)
    ensures
        copied_node(a, r) <==> {
            &&& cloned(a.annotation(), r.annotation())
            &&& match (a.content(), r.content()) {
                (Value::Null, Value::Null) => true,
                (Value::Boolean(x), Value::Boolean(y)) => x == y,
                (Value::Number(x), Value::Number(y)) => x@ == y@,
                (Value::String(x), Value::String(y)) => x@ == y@,
                (Value::Array(x), Value::Array(y)) => copied_items(x@, y@),
                (Value::Object(x), Value::Object(y)) => copied_entries(x.entries(), y.entries()),
                _ => false,
            }
        },
{
}

/// A copy of a node holds the tree of the node.
pub proof fn lemma_copy_holds_the_tree<M: Clone>(a: MetaValue<M>, r: MetaValue<M>)
    requires
        copied_node(a, r),
    ensures
        r.tree() == a.tree(),
    decreases a,
{
    match (a.value, r.value) {
        (Content::Array(x), Content::Array(y)) => {
            assert forall|i: int| 0 <= i < x@.len() implies x@[i].tree() == y@[i].tree() by {
                lemma_copy_holds_the_tree(x@[i], y@[i]);
            }
            assert(a.tree()->Array_0 =~= r.tree()->Array_0);
        },
        (Content::Object(x), Content::Object(y)) => {
            assert forall|i: int| 0 <= i < x.entries@.len() implies x.entries@[i].1.tree()
                == y.entries@[i].1.tree() && x.entries@[i].0.key@ == y.entries@[i].0.key@ by {
                lemma_copy_holds_the_tree(x.entries@[i].1, y.entries@[i].1);
            }
            assert(a.tree()->Object_0 =~= r.tree()->Object_0);
        },
        _ => {},
    }
}

/// A copy of the nodes of an array.
fn clone_items<M: Clone>(x: &Vec<MetaValue<M>>) -> (r: Vec<MetaValue<M>>)
    ensures
        copied_items(x@, r@),
    decreases *x, 0int,
{
    let mut out: Vec<MetaValue<M>> = Vec::new();
    let mut i: usize = 0;
    while i < x.len()
        invariant
            i <= x.len(),
            out@.len() == i,
            forall|j: int| 0 <= j < i ==> copied_node(#[trigger] x@[j], out@[j]),
        decreases x.len() - i,
    {
        let node = clone_node(&x[i]);
        out.push(node);
        i = i + 1;
    }
    out
}

/// A copy of a node, with clones of the annotations.
fn clone_node<M: Clone>(a: &MetaValue<M>) -> (r: MetaValue<M>)
    ensures
        copied_node(*a, r),
    decreases *a, 1int,
{
    let value = match &a.value {
        Content::Null => Content::Null,
        Content::Boolean(b) => Content::Boolean(*b),
        Content::Number(n) => Content::Number(n.clone()),
        Content::String(s) => Content::String(s.clone()),
        Content::Array(x) => {
            let items = clone_items(x);
            Content::Array(items)
        },
        Content::Object(o) => {
            let entries = clone_entries(&o.entries);
            proof {
                use_type_invariant(o);
                lemma_copied_entries_ascend(o.entries@, entries@);
            }
            Content::Object(Object { entries })
        },
    };
    MetaValue { meta: a.meta.clone(), value }
}

/// Copies of entries whose keys ascend have keys that ascend.
proof fn lemma_copied_entries_ascend<M: Clone>(
    x: Seq<(Key<M>, MetaValue<M>)>,
    y: Seq<(Key<M>, MetaValue<M>)>,
)
    requires
        copied_entries(x, y),
        ascending(x),
    ensures
        ascending(y),
{
    assert forall|p: int, q: int| 0 <= p < q < y.len() implies text_order(
        crate::Key::text(&(#[trigger] y[p]).0),
        crate::Key::text(&(#[trigger] y[q]).0),
    ) == Order::Less by {
        assert(crate::Key::text(&x[p].0) == crate::Key::text(&y[p].0));
        assert(crate::Key::text(&x[q].0) == crate::Key::text(&y[q].0));
    }
}

/// A copy of the entries of an object.
fn clone_entries<M: Clone>(x: &Vec<(Key<M>, MetaValue<M>)>) -> (r: Vec<(Key<M>, MetaValue<M>)>)
    ensures
        copied_entries(x@, r@),
    decreases *x, 0int,
{
    let mut out: Vec<(Key<M>, MetaValue<M>)> = Vec::new();
    let mut i: usize = 0;
    while i < x.len()
        invariant
            i <= x.len(),
            out@.len() == i,
            forall|j: int|
                0 <= j < i ==> {
                    &&& crate::Key::text(&(#[trigger] x@[j]).0) == crate::Key::text(&out@[j].0)
                    &&& cloned(
                        crate::Key::annotation(&x@[j].0),
                        crate::Key::annotation(&out@[j].0),
                    )
                    &&& copied_node(x@[j].1, out@[j].1)
                },
        decreases x.len() - i,
    {
        let e = &x[i];
        let key = e.0.clone();
        let node = clone_node(&e.1);
        out.push((key, node));
        i = i + 1;
    }
    out
}

impl<M: Clone> Clone for MetaValue<M> {
    /// A copy of the node: it holds the same tree, and the annotation of each node
    /// and of each key in it is a clone of the annotation that it copies.
    fn clone(&self) -> (r: Self)
        ensures
            copied_node(*self, r),
            r.tree() == self.tree(),
            cloned(self.annotation(), r.annotation()),
    {
        let r = clone_node(self);
        proof {
            lemma_copy_holds_the_tree(*self, r);
        }
        r
    }
}

impl<M: Clone> Clone for Object<M> {
    /// A copy of the object: its entries hold the same texts and trees, and the
    /// annotation of each key and of each node in it is a clone of the annotation
    /// that it copies.
    fn clone(&self) -> (r: Self)
        ensures
            copied_entries(self.entries(), r.entries()),
            entry_trees(r.entries()) == entry_trees(self.entries()),
    {
        let entries = clone_entries(&self.entries);
        proof {
            use_type_invariant(self);
            lemma_copied_entries_ascend(self.entries@, entries@);
            assert forall|i: int| 0 <= i < entries@.len() implies entry_trees(entries@)[i]
                == entry_trees(self.entries@)[i] by {
                lemma_copy_holds_the_tree(self.entries@[i].1, entries@[i].1);
            }
            assert(entry_trees(entries@) =~= entry_trees(self.entries@));
        }
        Object { entries }
    }
}

/// Appends the bytes to the buffer.
fn push_all(out: &mut Vec<u8>, bytes: &[u8])
    ensures
        final(out)@ == old(out)@ + bytes@,
{
    let ghost start = out@;
    let mut i: usize = 0;
    while i < bytes.len()
        invariant
            i <= bytes@.len(),
            out@ == start + bytes@.subrange(0, i as int),
        decreases bytes@.len() - i,
    {
        out.push(bytes[i]);
        proof {
            assert(out@ =~= start + bytes@.subrange(0, i + 1));
        }
        i = i + 1;
    }
    proof {
        assert(bytes@.subrange(0, i as int) =~= bytes@);
    }
}

/// Appends the bytes that stand for a length to the buffer.
fn push_length(out: &mut Vec<u8>, n: usize)
    ensures
        final(out)@ == old(out)@ + length_feed(n as nat),
{
    let mut bytes = u64_to_le_bytes(n as u64);
    out.append(&mut bytes);
}

/// Appends the bytes that stand for a text to the buffer.
fn push_text(out: &mut Vec<u8>, text: &SmallString)
    ensures
        final(out)@ == old(out)@ + text_feed(text@),
{
    let ghost start = out@;
    let bytes = text.as_str().as_bytes();
    push_length(out, bytes.len());
    push_all(out, bytes);
    proof {
        assert(out@ =~= start + text_feed(text@));
    }
}

/// Appends the bytes that stand for what a node holds to the buffer. No
/// annotation takes part.
fn push_node<M>(out: &mut Vec<u8>, a: &MetaValue<M>)
    ensures
        final(out)@ == old(out)@ + tree_feed(a.tree()),
    decreases *a, 1int,
{
    let ghost start = out@;
    match &a.value {
        Content::Null => {
            out.push(0);
            proof {
                assert(out@ =~= start + tree_feed(a.tree()));
            }
        },
        Content::Boolean(b) => {
            out.push(1);
            out.push(if *b { 1 } else { 0 });
            proof {
                assert(out@ =~= start + tree_feed(a.tree()));
            }
        },
        Content::Number(n) => {
            let bytes = n.as_bytes();
            out.push(2);
            push_length(out, bytes.len());
            push_all(out, bytes);
            proof {
                assert(out@ =~= start + tree_feed(a.tree()));
            }
        },
        Content::String(s) => {
            out.push(3);
            push_text(out, s);
            proof {
                assert(out@ =~= start + tree_feed(a.tree()));
            }
        },
        Content::Array(x) => {
            proof {
                assert(a.tree()->Array_0 =~= item_trees(x@));
            }
            push_items(out, x);
        },
        Content::Object(o) => {
            proof {
                assert(a.tree()->Object_0 =~= entry_trees(o.entries@));
            }
            push_entries(out, &o.entries);
        },
    }
}

/// Appends the bytes that stand for an array to the buffer: the place of the
/// variant, the number of nodes, then each node.
fn push_items<M>(out: &mut Vec<u8>, x: &Vec<MetaValue<M>>)
    ensures
        final(out)@ == old(out)@ + tree_feed(Tree::Array(item_trees(x@))),
    decreases *x, 0int,
{
    let ghost start = out@;
    let ghost trees = item_trees(x@);
    out.push(4);
    push_length(out, x.len());
    let ghost head = out@;
    let mut i: usize = 0;
    while i < x.len()
        invariant
            i <= x.len(),
            trees == item_trees(x@),
            out@ == head + items_feed(trees, i as nat),
        decreases x.len() - i,
    {
        push_node(out, &x[i]);
        proof {
            assert(trees[i as int] == x@[i as int].tree());
            assert(out@ =~= head + items_feed(trees, (i + 1) as nat));
        }
        i = i + 1;
    }
    proof {
        assert(out@ =~= start + tree_feed(Tree::Array(trees)));
    }
}

/// Appends the bytes that stand for an object to the buffer: the place of the
/// variant, the number of entries, then of each entry the text of the key and
/// the node.
fn push_entries<M>(out: &mut Vec<u8>, x: &Vec<(Key<M>, MetaValue<M>)>)
    ensures
        final(out)@ == old(out)@ + tree_feed(Tree::Object(entry_trees(x@))),
    decreases *x, 0int,
{
    let ghost start = out@;
    let ghost trees = entry_trees(x@);
    out.push(5);
    push_length(out, x.len());
    let ghost head = out@;
    let mut i: usize = 0;
    while i < x.len()
        invariant
            i <= x.len(),
            trees == entry_trees(x@),
            out@ == head + entries_feed(trees, i as nat),
        decreases x.len() - i,
    {
        let e = &x[i];
        push_text(out, &e.0.key);
        push_node(out, &e.1);
        proof {
            assert(trees[i as int] == (e.0.key@, e.1.tree()));
            assert(out@ =~= head + entries_feed(trees, (i + 1) as nat));
        }
        i = i + 1;
    }
    proof {
        assert(out@ =~= start + tree_feed(Tree::Object(trees)));
    }
}

/// The bytes that stand for a node when it is hashed: those of the tree that the
/// node holds, so that nodes which hold the same tree give the same bytes,
/// whatever annotations they carry.
pub fn node_feed<M>(a: &MetaValue<M>) -> (r: Vec<u8>)
    ensures
        r@ == tree_feed(a.tree()),
{
    let mut out: Vec<u8> = Vec::new();
    push_node(&mut out, a);
    proof {
        assert(out@ =~= tree_feed(a.tree()));
    }
    out
}

/// The bytes that stand for an array when it is hashed.
pub fn array_feed<M>(x: &Vec<MetaValue<M>>) -> (r: Vec<u8>)
    ensures
        r@ == tree_feed(Tree::Array(item_trees(x@))),
{
    let mut out: Vec<u8> = Vec::new();
    push_items(&mut out, x);
    proof {
        assert(out@ =~= tree_feed(Tree::Array(item_trees(x@))));
    }
    out
}

/// The bytes that stand for an object when it is hashed.
pub fn object_feed<M>(x: &Object<M>) -> (r: Vec<u8>)
    ensures
        r@ == tree_feed(Tree::Object(entry_trees(x.entries()))),
{
    let mut out: Vec<u8> = Vec::new();
    push_entries(&mut out, &x.entries);
    proof {
        assert(out@ =~= tree_feed(Tree::Object(entry_trees(x.entries@))));
    }
    out
}

/// Feeds what a node holds to the hasher: the bytes of [`node_feed`], in one
/// piece. No annotation is fed. Nothing is stated of the hasher's state.
fn hash_node<M, H: Hasher>(a: &MetaValue<M>, state: &mut H) {
    match &a.value {
        Content::Array(x) => hash_items(x, state),
        Content::Object(o) => hash_entries(&o.entries, state),
        _ => {
            let bytes = node_feed(a);
            hash_payload(&bytes, state)
        },
    }
}

/// Feeds an array to the hasher: the bytes of [`array_feed`], in one piece.
/// Nothing is stated of the hasher's state.
fn hash_items<M, H: Hasher>(x: &Vec<MetaValue<M>>, state: &mut H) {
    let bytes = array_feed(x);
    hash_payload(&bytes, state)
}

/// Feeds the entries of an object to the hasher: the bytes that stand for the
/// object, in one piece. Nothing is stated of the hasher's state.
fn hash_entries<M, H: Hasher>(x: &Vec<(Key<M>, MetaValue<M>)>, state: &mut H) {
    let mut bytes: Vec<u8> = Vec::new();
    push_entries(&mut bytes, x);
    hash_payload(&bytes, state)
}

impl<M> Hash for MetaValue<M> {
    /// Feeds what the node holds to the hasher, and no annotation.
    fn hash<H: Hasher>(&self, state: &mut H) {
        hash_node(self, state)
    }
}

impl<M> Hash for Object<M> {
    /// Feeds the entries to the hasher, and no annotation.
    fn hash<H: Hasher>(&self, state: &mut H) {
        hash_entries(&self.entries, state)
    }
}

} // verus!
