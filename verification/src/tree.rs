//! The mathematical content of a JSON tree, free of metadata and of any
//! representation, and its total order.
use vstd::prelude::*;
use vstd::bytes::spec_u64_to_le_bytes;
use vstd::utf8::encode_utf8;
use crate::order::Order;
use crate::order::bool_order;
use crate::order::bytes_order;
use crate::order::int_order;
use crate::order::lemma_bytes_order_equal;
use crate::order::lemma_bytes_order_mirror;
use crate::text::lemma_text_order_equal;
use crate::text::lemma_text_order_mirror;
use crate::text::lemma_text_order_transitive;
use crate::text::text_order;
use crate::value::Tag;

verus! {

/// What a JSON tree holds: a number is the bytes of its literal, a string its
/// text, an array the trees of its nodes, an object the texts of its keys with the
/// trees under them, in the order in which the object is walked.
pub enum Tree {
    Null,
    Boolean(bool),
    Number(Seq<u8>),
    String(Seq<char>),
    Array(Seq<Tree>),
    Object(Seq<(Seq<char>, Tree)>),
}

impl Tree {
    /// The variant of the tree.
    pub open spec fn tag(self) -> Tag {
        match self {
            Tree::Null => Tag::Null,
            Tree::Boolean(_) => Tag::Boolean,
            Tree::Number(_) => Tag::Number,
            Tree::String(_) => Tag::String,
            Tree::Array(_) => Tag::Array,
            Tree::Object(_) => Tag::Object,
        }
    }
}

/// The first result that is not `Equal`, or `Equal` where there is none.
pub open spec fn first_decided(results: Seq<Order>) -> Order
    decreases results.len(),
{
    if results.len() == 0 {
        Order::Equal
    } else if results[0] != Order::Equal {
        results[0]
    } else {
        first_decided(results.drop_first())
    }
}

/// The lexicographic order of two sequences of lengths `n` and `m`, given the
/// results of comparing their items position by position: the first position that
/// decides, else the shorter sequence comes first.
pub open spec fn lexicographic(results: Seq<Order>, n: int, m: int) -> Order {
    first_decided(results).or(int_order(n, m))
}

/// The smaller of two lengths.
pub open spec fn shorter(n: nat, m: nat) -> nat {
    if n <= m {
        n
    } else {
        m
    }
}

/// The results of comparing the trees of two arrays position by position.
pub open spec fn item_results(x: Seq<Tree>, y: Seq<Tree>) -> Seq<Order>
    decreases x,
{
    Seq::new(
        shorter(x.len(), y.len()),
        |i: int|
            if 0 <= i < x.len() && i < y.len() {
                tree_order(x[i], y[i])
            } else {
                Order::Equal
            },
    )
}

/// The results of comparing the entries of two objects position by position: the
/// texts of the keys first, the trees under them second.
pub open spec fn entry_results(x: Seq<(Seq<char>, Tree)>, y: Seq<(Seq<char>, Tree)>) -> Seq<Order>
    decreases x,
{
    Seq::new(
        shorter(x.len(), y.len()),
        |i: int|
            if 0 <= i < x.len() && i < y.len() {
                text_order(x[i].0, y[i].0).or(tree_order(x[i].1, y[i].1))
            } else {
                Order::Equal
            },
    )
}

/// The order of two trees.
///
/// Trees of different variants stand as their variants do, in
/// `Null < Boolean < Number < String < Array < Object`. Booleans are ordered with
/// `false` first, numbers by the bytes of their literals, strings by their texts,
/// arrays lexicographically by their items, objects lexicographically by their
/// entries.
pub open spec fn tree_order(a: Tree, b: Tree) -> Order
    decreases a,
{
    match (a, b) {
        (Tree::Null, Tree::Null) => Order::Equal,
        (Tree::Boolean(x), Tree::Boolean(y)) => bool_order(x, y),
        (Tree::Number(x), Tree::Number(y)) => bytes_order(x, y),
        (Tree::String(x), Tree::String(y)) => text_order(x, y),
        (Tree::Array(x), Tree::Array(y)) => lexicographic(
            item_results(x, y),
            x.len() as int,
            y.len() as int,
        ),
        (Tree::Object(x), Tree::Object(y)) => lexicographic(
            entry_results(x, y),
            x.len() as int,
            y.len() as int,
        ),
        _ => int_order(a.tag().rank(), b.tag().rank()),
    }
}

/// Where every result before position `i` is `Equal`, the first result that decides
/// is the one at `i` if that one decides, and there is none if `i` is the end.
pub proof fn lemma_first_decided_after_equal(results: Seq<Order>, i: int)
    requires
        0 <= i <= results.len(),
        forall|j: int| 0 <= j < i ==> results[j] == Order::Equal,
    ensures
        i == results.len() ==> first_decided(results) == Order::Equal,
        i < results.len() && results[i] != Order::Equal ==> first_decided(results) == results[i],
    decreases i,
{
    if i > 0 {
        let rest = results.drop_first();
        assert(results[0] == Order::Equal);
        assert forall|j: int| 0 <= j < i - 1 implies rest[j] == Order::Equal by {
            assert(rest[j] == results[j + 1]);
        }
        lemma_first_decided_after_equal(rest, i - 1);
        if i < results.len() {
            assert(rest[i - 1] == results[i]);
        }
    }
}

/// No result decides exactly when every result is `Equal`.
pub proof fn lemma_first_decided_equal(results: Seq<Order>)
    ensures
        first_decided(results) == Order::Equal <==> forall|j: int|
            0 <= j < results.len() ==> results[j] == Order::Equal,
    decreases results.len(),
{
    if results.len() > 0 {
        let rest = results.drop_first();
        lemma_first_decided_equal(rest);
        if results[0] == Order::Equal {
            if forall|j: int| 0 <= j < rest.len() ==> rest[j] == Order::Equal {
                assert forall|j: int| 0 <= j < results.len() implies results[j]
                    == Order::Equal by {
                    if j > 0 {
                        assert(rest[j - 1] == results[j]);
                    }
                }
            }
            if forall|j: int| 0 <= j < results.len() ==> results[j] == Order::Equal {
                assert forall|j: int| 0 <= j < rest.len() implies rest[j] == Order::Equal by {
                    assert(rest[j] == results[j + 1]);
                }
            }
        }
    }
}

/// Where each result of one sequence mirrors the result of the other at the same
/// position, the first results that decide mirror each other.
pub proof fn lemma_first_decided_mirror(r1: Seq<Order>, r2: Seq<Order>)
    requires
        r1.len() == r2.len(),
        forall|j: int| 0 <= j < r1.len() ==> r2[j] == r1[j].mirror(),
    ensures
        first_decided(r2) == first_decided(r1).mirror(),
    decreases r1.len(),
{
    if r1.len() > 0 {
        assert(r2[0] == r1[0].mirror());
        let t1 = r1.drop_first();
        let t2 = r2.drop_first();
        assert forall|j: int| 0 <= j < t1.len() implies t2[j] == t1[j].mirror() by {
            assert(t1[j] == r1[j + 1]);
            assert(t2[j] == r2[j + 1]);
        }
        lemma_first_decided_mirror(t1, t2);
    }
}

/// Swapping the two trees mirrors the result: equal stays equal, less becomes
/// greater and greater becomes less.
pub proof fn lemma_tree_order_mirror(a: Tree, b: Tree)
    ensures
        tree_order(b, a) == tree_order(a, b).mirror(),
    decreases a,
{
    match (a, b) {
        (Tree::Number(x), Tree::Number(y)) => {
            lemma_bytes_order_mirror(x, y);
        },
        (Tree::String(x), Tree::String(y)) => {
            lemma_text_order_mirror(x, y);
        },
        (Tree::Array(x), Tree::Array(y)) => {
            let r1 = item_results(x, y);
            let r2 = item_results(y, x);
            assert forall|j: int| 0 <= j < r1.len() implies r2[j] == r1[j].mirror() by {
                lemma_tree_order_mirror(x[j], y[j]);
            }
            lemma_first_decided_mirror(r1, r2);
        },
        (Tree::Object(x), Tree::Object(y)) => {
            let r1 = entry_results(x, y);
            let r2 = entry_results(y, x);
            assert forall|j: int| 0 <= j < r1.len() implies r2[j] == r1[j].mirror() by {
                lemma_text_order_mirror(x[j].0, y[j].0);
                lemma_tree_order_mirror(x[j].1, y[j].1);
            }
            lemma_first_decided_mirror(r1, r2);
        },
        _ => {},
    }
}

/// Two trees compare `Equal` exactly when they are the same tree.
pub proof fn lemma_tree_order_equal(a: Tree, b: Tree)
    ensures
        tree_order(a, b) == Order::Equal <==> a == b,
    decreases a,
{
    match (a, b) {
        (Tree::Number(x), Tree::Number(y)) => {
            lemma_bytes_order_equal(x, y);
        },
        (Tree::String(x), Tree::String(y)) => {
            lemma_text_order_equal(x, y);
        },
        (Tree::Array(x), Tree::Array(y)) => {
            let r = item_results(x, y);
            lemma_first_decided_equal(r);
            assert forall|j: int| 0 <= j < r.len() implies (r[j] == Order::Equal <==> x[j]
                == y[j]) by {
                lemma_tree_order_equal(x[j], y[j]);
            }
            if tree_order(a, b) == Order::Equal {
                assert(x =~= y);
            }
        },
        (Tree::Object(x), Tree::Object(y)) => {
            let r = entry_results(x, y);
            lemma_first_decided_equal(r);
            assert forall|j: int| 0 <= j < r.len() implies (r[j] == Order::Equal <==> x[j]
                == y[j]) by {
                lemma_text_order_equal(x[j].0, y[j].0);
                lemma_tree_order_equal(x[j].1, y[j].1);
            }
            if tree_order(a, b) == Order::Equal {
                assert(x =~= y);
            }
        },
        _ => {},
    }
}

/// The position of the first result that is not `Equal`, or the number of results
/// where there is none.
pub open spec fn decision(results: Seq<Order>) -> int
    decreases results.len(),
{
    if results.len() == 0 || results[0] != Order::Equal {
        0
    } else {
        1 + decision(results.drop_first())
    }
}

/// Every result before the decision is `Equal`, the result at the decision is
/// not, and it is the first result that decides.
pub proof fn lemma_decision(results: Seq<Order>)
    ensures
        0 <= decision(results) <= results.len(),
        forall|j: int| 0 <= j < decision(results) ==> results[j] == Order::Equal,
        decision(results) < results.len() ==> results[decision(results)] != Order::Equal
            && first_decided(results) == results[decision(results)],
        decision(results) == results.len() ==> first_decided(results) == Order::Equal,
    decreases results.len(),
{
    if results.len() > 0 && results[0] == Order::Equal {
        let rest = results.drop_first();
        lemma_decision(rest);
        assert forall|j: int| 0 <= j < decision(results) implies results[j] == Order::Equal by {
            if j > 0 {
                assert(rest[j - 1] == results[j]);
            }
        }
        if decision(results) < results.len() {
            assert(rest[decision(rest)] == results[decision(results)]);
        }
    }
}

/// Lexicographic order carries over a sequence in the middle, where the results
/// at each position do: a result that is `Equal` may be replaced, and `Less`
/// after `Less` is `Less`.
proof fn lemma_lexicographic_transitive(
    ab: Seq<Order>,
    bc: Seq<Order>,
    ac: Seq<Order>,
    n: nat,
    m: nat,
    l: nat,
)
    requires
        ab.len() == shorter(n, m),
        bc.len() == shorter(m, l),
        ac.len() == shorter(n, l),
        forall|p: int|
            0 <= p < n && p < m && p < l ==> {
                &&& (ab[p] == Order::Equal ==> ac[p] == bc[p])
                &&& (bc[p] == Order::Equal ==> ac[p] == ab[p])
                &&& (ab[p] == Order::Less && bc[p] == Order::Less ==> ac[p] == Order::Less)
            },
        lexicographic(ab, n as int, m as int) == Order::Less,
        lexicographic(bc, m as int, l as int) == Order::Less,
    ensures
        lexicographic(ac, n as int, l as int) == Order::Less,
{
    lemma_decision(ab);
    lemma_decision(bc);
    let i = decision(ab);
    let j = decision(bc);
    let k = if i <= j {
        i
    } else {
        j
    };
    assert(k <= ac.len());
    assert forall|p: int| 0 <= p < k implies ac[p] == Order::Equal by {
        assert(ab[p] == Order::Equal);
        assert(bc[p] == Order::Equal);
    }
    lemma_first_decided_after_equal(ac, k);
    if k < ac.len() {
        assert(ac[k] == Order::Less);
    }
}

/// The order of trees is transitive: what comes before a tree comes before
/// everything that the tree comes before.
pub proof fn lemma_tree_order_less_transitive(a: Tree, b: Tree, c: Tree)
    requires
        tree_order(a, b) == Order::Less,
        tree_order(b, c) == Order::Less,
    ensures
        tree_order(a, c) == Order::Less,
    decreases a,
{
    match (a, b, c) {
        (Tree::Number(x), Tree::Number(y), Tree::Number(z)) => {
            crate::order::lemma_bytes_order_transitive(x, y, z);
        },
        (Tree::String(x), Tree::String(y), Tree::String(z)) => {
            lemma_text_order_transitive(x, y, z);
        },
        (Tree::Array(x), Tree::Array(y), Tree::Array(z)) => {
            let ab = item_results(x, y);
            let bc = item_results(y, z);
            let ac = item_results(x, z);
            assert forall|p: int| 0 <= p < x.len() && p < y.len() && p < z.len() implies {
                &&& (ab[p] == Order::Equal ==> ac[p] == bc[p])
                &&& (bc[p] == Order::Equal ==> ac[p] == ab[p])
                &&& (ab[p] == Order::Less && bc[p] == Order::Less ==> ac[p] == Order::Less)
            } by {
                lemma_tree_order_equal(x[p], y[p]);
                lemma_tree_order_equal(y[p], z[p]);
                if ab[p] == Order::Less && bc[p] == Order::Less {
                    lemma_tree_order_less_transitive(x[p], y[p], z[p]);
                }
            }
            lemma_lexicographic_transitive(ab, bc, ac, x.len(), y.len(), z.len());
        },
        (Tree::Object(x), Tree::Object(y), Tree::Object(z)) => {
            let ab = entry_results(x, y);
            let bc = entry_results(y, z);
            let ac = entry_results(x, z);
            assert forall|p: int| 0 <= p < x.len() && p < y.len() && p < z.len() implies {
                &&& (ab[p] == Order::Equal ==> ac[p] == bc[p])
                &&& (bc[p] == Order::Equal ==> ac[p] == ab[p])
                &&& (ab[p] == Order::Less && bc[p] == Order::Less ==> ac[p] == Order::Less)
            } by {
                lemma_text_order_equal(x[p].0, y[p].0);
                lemma_text_order_equal(y[p].0, z[p].0);
                lemma_tree_order_equal(x[p].1, y[p].1);
                lemma_tree_order_equal(y[p].1, z[p].1);
                lemma_text_order_transitive(x[p].0, y[p].0, z[p].0);
                if tree_order(x[p].1, y[p].1) == Order::Less && tree_order(y[p].1, z[p].1)
                    == Order::Less {
                    lemma_tree_order_less_transitive(x[p].1, y[p].1, z[p].1);
                }
            }
            lemma_lexicographic_transitive(ab, bc, ac, x.len(), y.len(), z.len());
        },
        _ => {},
    }
}

/// The order of trees is a total order: with the laws of equality and of
/// mirroring, any two trees are ordered, and the order carries over a tree in the
/// middle.
pub proof fn lemma_tree_order_transitive(a: Tree, b: Tree, c: Tree)
    ensures
        tree_order(a, b) != Order::Greater && tree_order(b, c) != Order::Greater ==> tree_order(
            a,
            c,
        ) != Order::Greater,
        tree_order(a, b) == Order::Less && tree_order(b, c) != Order::Greater ==> tree_order(a, c)
            == Order::Less,
        tree_order(a, b) != Order::Greater && tree_order(b, c) == Order::Less ==> tree_order(a, c)
            == Order::Less,
{
    lemma_tree_order_equal(a, b);
    lemma_tree_order_equal(b, c);
    lemma_tree_order_equal(a, c);
    if tree_order(a, b) == Order::Less && tree_order(b, c) == Order::Less {
        lemma_tree_order_less_transitive(a, b, c);
    }
}

/// The bytes that stand for a length: the length in 64 bits, lowest byte first.
pub open spec fn length_feed(n: nat) -> Seq<u8> {
    spec_u64_to_le_bytes(n as u64)
}

/// The bytes that stand for a text: the length of its UTF-8 encoding, then the
/// encoding.
pub open spec fn text_feed(text: Seq<char>) -> Seq<u8> {
    length_feed(encode_utf8(text).len()) + encode_utf8(text)
}

/// The bytes that stand for the first `n` trees of an array, one tree after the
/// other.
pub open spec fn items_feed(x: Seq<Tree>, n: nat) -> Seq<u8>
    decreases x, n,
{
    if n == 0 || n > x.len() {
        Seq::empty()
    } else {
        items_feed(x, (n - 1) as nat) + tree_feed(x[n - 1])
    }
}

/// The bytes that stand for the first `n` entries of an object, one entry after
/// the other: the text of the key, then the tree under it.
pub open spec fn entries_feed(x: Seq<(Seq<char>, Tree)>, n: nat) -> Seq<u8>
    decreases x, n,
{
    if n == 0 || n > x.len() {
        Seq::empty()
    } else {
        entries_feed(x, (n - 1) as nat) + text_feed(x[n - 1].0) + tree_feed(x[n - 1].1)
    }
}

/// The bytes that stand for a tree when it is hashed. They are a function of the
/// tree alone: first the place of the variant, then the payload. A number is its
/// length and its literal, a string its text, an array the number of its trees
/// and the trees, an object the number of its entries and the entries.
pub open spec fn tree_feed(t: Tree) -> Seq<u8>
    decreases t, 0nat,
{
    match t {
        Tree::Null => seq![0u8],
        Tree::Boolean(b) => seq![1u8, if b { 1u8 } else { 0u8 }],
        Tree::Number(x) => seq![2u8] + length_feed(x.len()) + x,
        Tree::String(x) => seq![3u8] + text_feed(x),
        Tree::Array(x) => seq![4u8] + length_feed(x.len()) + items_feed(x, x.len()),
        Tree::Object(x) => seq![5u8] + length_feed(x.len()) + entries_feed(x, x.len()),
    }
}

} // verus!
