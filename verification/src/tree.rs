//! The generic symbolic-expression tree and the few accessors the decoders
//! are built from.

use vstd::prelude::*;

verus! {

/// A symbolic expression: an atom, a list of expressions, or nothing.
#[derive(Debug, PartialEq)]
pub enum Node {
    /// A bare or quoted string.
    Atom(String),
    /// A parenthesised list.
    List(Vec<Node>),
    /// The expression of an empty document.
    Empty,
}

/// The mathematical value of a [`Node`].
pub ghost enum Tree {
    Atom(Seq<char>),
    List(Seq<Tree>),
    Empty,
}

impl View for Node {
    type V = Tree;

    open spec fn view(&self) -> Tree
        decreases self,
    {
        match self {
            Node::Atom(s) => Tree::Atom(s@),
            Node::List(v) => Tree::List(Seq::new(v.len() as nat, |i: int| if 0 <= i < v.len() { v[i]@ } else { Tree::Empty })),
            Node::Empty => Tree::Empty,
        }
    }
}

/// The values of a sequence of nodes, in order.
pub open spec fn forest(s: Seq<Node>) -> Seq<Tree> {
    Seq::new(s.len(), |i: int| s[i]@)
}

/// A list node's value is the list of its children's values.
pub proof fn lemma_list_view(v: Vec<Node>)
    ensures
        Node::List(v)@ == Tree::List(forest(v@)),
{
    assert(Node::List(v)@->List_0 =~= forest(v@));
}

impl Tree {
    /// The name of a list: its first child, where that is an atom.
    pub open spec fn list_name(self) -> Option<Seq<char>> {
        match self {
            Tree::List(l) => if l.len() > 0 && l[0] is Atom {
                Some(l[0]->Atom_0)
            } else {
                None
            },
            _ => None,
        }
    }
}

impl Node {
    /// A deep copy.
    pub fn duplicate(&self) -> (copy: Node)
        ensures
            copy@ == self@,
        decreases self,
    {
        match self {
            Node::Atom(s) => Node::Atom(s.clone()),
            Node::List(v) => {
                let mut out: Vec<Node> = Vec::new();
                let mut i: usize = 0;
                while i < v.len()
                    invariant
                        *self == Node::List(*v),
                        i <= v.len(),
                        out.len() == i,
                        forall|j: int| 0 <= j < i ==> out[j]@ == v[j]@,
                    decreases v.len() - i,
                {
                    proof {
                        vstd::std_specs::vec::axiom_vec_index_decreases(*v, i as int);
                        assert(decreases_to!(*self => self->List_0));
                    }
                    out.push(v[i].duplicate());
                    i += 1;
                }
                proof {
                    lemma_list_view(*v);
                    lemma_list_view(out);
                    assert(forest(out@) =~= forest(v@));
                }
                Node::List(out)
            },
            Node::Empty => Node::Empty,
        }
    }

    /// The name of a list node: the text of its first child, where that is an
    /// atom.
    pub fn list_name(&self) -> (name: Option<&String>)
        ensures
            match name {
                Some(s) => self@.list_name() == Some(s@),
                None => self@.list_name() is None,
            },
    {
        match self {
            Node::List(v) => {
                proof {
                    lemma_list_view(*v);
                }
                if v.len() > 0 {
                    match &v[0] {
                        Node::Atom(s) => Some(s),
                        _ => None,
                    }
                } else {
                    None
                }
            },
            _ => None,
        }
    }
}

/// Duplicates each node of a list.
pub fn duplicate_all(v: &Vec<Node>) -> (out: Vec<Node>)
    ensures
        forest(out@) == forest(v@),
{
    let mut out: Vec<Node> = Vec::new();
    let mut i: usize = 0;
    while i < v.len()
        invariant
            i <= v.len(),
            out.len() == i,
            forall|j: int| 0 <= j < i ==> out[j]@ == v[j]@,
        decreases v.len() - i,
    {
        out.push(v[i].duplicate());
        i += 1;
    }
    assert(forest(out@) =~= forest(v@));
    out
}

} // verus!
