//! The document tree and access to the children of a node.

use vstd::prelude::*;

use crate::text::{decimal, index_label, padded, pad_string};

verus! {

/// One value of a parsed document. The tree is built once and only read
/// afterwards.
#[derive(Debug, PartialEq)]
pub enum Node {
    Null,
    Bool(bool),
    /// A number, held as the text that the parser gives for it.
    Number(String),
    Str(String),
    Array(Vec<Node>),
    /// The entries of an object, keyed by name, in document order. Nothing
    /// here depends on the names being distinct: entries are shown as given.
    Object(Vec<(String, Node)>),
}

impl Node {
    /// The node holds no children of its own.
    pub open spec fn is_scalar(&self) -> bool {
        !(self is Array || self is Object)
    }

    /// Number of children: elements of an array, entries of an object, none
    /// for a scalar.
    pub open spec fn count(&self) -> nat {
        match self {
            Node::Array(items) => items@.len(),
            Node::Object(entries) => entries@.len(),
            _ => 0,
        }
    }

    /// The `i`-th child, for `0 <= i < self.count()`.
    pub open spec fn child(&self, i: int) -> Node
        recommends
            0 <= i < self.count(),
    {
        match self {
            Node::Array(items) => items@[i],
            Node::Object(entries) => entries@[i].1,
            _ => Node::Null,
        }
    }

    /// Rows that a panel shows for the node: one per child, or a single row
    /// for a scalar.
    pub open spec fn rows(&self) -> nat {
        if self.is_scalar() {
            1
        } else {
            self.count()
        }
    }

    /// Text of row `i`: the decimal index in an array, the key in an object,
    /// and for a scalar (row 0 only) its own value as text.
    pub open spec fn label(&self, i: int) -> Seq<char>
        recommends
            0 <= i < self.rows(),
    {
        match self {
            Node::Null => "null"@,
            Node::Bool(b) => if *b {
                "true"@
            } else {
                "false"@
            },
            Node::Number(text) => text@,
            Node::Str(text) => text@,
            Node::Array(_) => decimal(i as nat),
            Node::Object(entries) => entries@[i].0@,
        }
    }

    /// The rows of the node, each padded to `width` characters.
    pub open spec fn lines(&self, width: nat) -> Seq<Seq<char>> {
        Seq::new(self.rows(), |i: int| padded(self.label(i), width))
    }

    /// Number of children (see `count`).
    pub fn child_count(&self) -> (r: usize)
        ensures
            r == self.count(),
    {
        match self {
            Node::Array(items) => items.len(),
            Node::Object(entries) => entries.len(),
            _ => 0,
        }
    }

    /// Number of rows (see `rows`).
    pub fn row_count(&self) -> (r: usize)
        ensures
            r == self.rows(),
    {
        match self {
            Node::Array(items) => items.len(),
            Node::Object(entries) => entries.len(),
            _ => 1,
        }
    }

    /// The `i`-th child, or `None` where there is none.
    pub fn child_at(&self, i: usize) -> (r: Option<&Node>)
        ensures
            r is Some <==> i < self.count(),
            r matches Some(c) ==> *c == self.child(i as int),
    {
        match self {
            Node::Array(items) => {
                if i < items.len() {
                    Some(&items[i])
                } else {
                    None
                }
            },
            Node::Object(entries) => {
                if i < entries.len() {
                    Some(&entries[i].1)
                } else {
                    None
                }
            },
            _ => None,
        }
    }

    /// Text of row `i` (see `label`).
    pub fn label_at(&self, i: usize) -> (r: String)
        requires
            i < self.rows(),
        ensures
            r@ == self.label(i as int),
    {
        match self {
            Node::Null => String::from_str("null"),
            Node::Bool(b) => {
                if *b {
                    String::from_str("true")
                } else {
                    String::from_str("false")
                }
            },
            Node::Number(text) => text.clone(),
            Node::Str(text) => text.clone(),
            Node::Array(_) => index_label(i),
            Node::Object(entries) => entries[i].0.clone(),
        }
    }

    /// All rows of the node, padded to `width` characters.
    pub fn padded_lines(&self, width: usize) -> (r: Vec<String>)
        ensures
            r@.len() == self.rows(),
            forall|i: int| 0 <= i < r@.len() ==> #[trigger] r@[i]@ == self.lines(width as nat)[i],
    {
        let n = self.row_count();
        let mut r: Vec<String> = Vec::new();
        let mut i: usize = 0;
        while i < n
            invariant
                n == self.rows(),
                i <= n,
                r@.len() == i,
                forall|j: int| 0 <= j < i ==> #[trigger] r@[j]@ == self.lines(width as nat)[j],
            decreases n - i,
        {
            let label = self.label_at(i);
            let line = pad_string(label.as_str(), width);
            r.push(line);
            i = i + 1;
        }
        r
    }
}

} // verus!
