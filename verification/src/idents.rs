//! Identifier names and ordered identifier sets.
//!
//! Identifiers are compared by exact textual identity.  A name that starts
//! with the reserved prefix `dc_` opts out of duplication, as does a binding
//! that is declared mutable.  Identifier sets keep first-insertion order and
//! never hold a name twice, which makes every enumeration of a set (and so
//! every synthesized output) deterministic.

use vstd::prelude::*;
use vstd::string::StrSliceExecFns;

verus! {

/// The reserved opt-out prefix: a name beginning with `dc_` is never tracked
/// for duplication.
pub open spec fn reserved_name(n: Seq<char>) -> bool {
    n.len() >= 3 && n[0] == 'd' && n[1] == 'c' && n[2] == '_'
}

/// Whether `n` carries the reserved opt-out prefix.
pub fn is_reserved_name(n: &String) -> (r: bool)
    ensures
        r == reserved_name(n@),
{
    let s = n.as_str();
    if s.unicode_len() < 3 {
        return false;
    }
    s.get_char(0) == 'd' && s.get_char(1) == 'c' && s.get_char(2) == '_'
}

/// View of a vector of names: the sequence of their character sequences.
pub open spec fn names_view(s: Seq<String>) -> Seq<Seq<char>> {
    Seq::new(s.len(), |i: int| s[i]@)
}

/// Insertion into a set kept as a sequence: appends the name only if it is
/// not already present.
pub open spec fn ins(s: Seq<Seq<char>>, x: Seq<char>) -> Seq<Seq<char>> {
    if s.contains(x) {
        s
    } else {
        s.push(x)
    }
}

/// Union of two sets kept as sequences: the names of `t` are inserted into
/// `s` from left to right, so new names keep the order of `t`.
pub open spec fn uni(s: Seq<Seq<char>>, t: Seq<Seq<char>>) -> Seq<Seq<char>>
    decreases t,
{
    if t.len() == 0 {
        s
    } else {
        ins(uni(s, t.drop_last()), t.last())
    }
}

/// A sequence holds no name twice.
pub open spec fn nodup(s: Seq<Seq<char>>) -> bool {
    forall|i: int, j: int| 0 <= i < j < s.len() ==> s[i] != s[j]
}

/// No name of the sequence carries the reserved prefix.
pub open spec fn reserved_free(s: Seq<Seq<char>>) -> bool {
    forall|i: int| 0 <= i < s.len() ==> !reserved_name(#[trigger] s[i])
}

pub broadcast proof fn lemma_ins_contains(s: Seq<Seq<char>>, x: Seq<char>, y: Seq<char>)
    ensures
        #[trigger] ins(s, x).contains(y) <==> (s.contains(y) || x == y),
{
    if !s.contains(x) {
        if s.contains(y) {
            let i = choose|i: int| 0 <= i < s.len() && s[i] == y;
            assert(s.push(x)[i] == y);
        }
        assert(s.push(x)[s.len() as int] == x);
        if s.push(x).contains(y) && y != x {
            let i = choose|i: int| 0 <= i < s.push(x).len() && s.push(x)[i] == y;
            assert(s[i] == y);
        }
    }
}

pub proof fn lemma_ins_nodup(s: Seq<Seq<char>>, x: Seq<char>)
    requires
        nodup(s),
    ensures
        nodup(ins(s, x)),
{
    if !s.contains(x) {
        assert forall|i: int, j: int| 0 <= i < j < ins(s, x).len() implies ins(s, x)[i] != ins(
            s,
            x,
        )[j] by {
            if j == s.len() {
                assert(ins(s, x)[j] == x);
                if s[i] == x {
                    assert(s.contains(x));
                }
            }
        }
    }
}

pub proof fn lemma_uni_nodup(s: Seq<Seq<char>>, t: Seq<Seq<char>>)
    requires
        nodup(s),
    ensures
        nodup(uni(s, t)),
    decreases t,
{
    if t.len() > 0 {
        lemma_uni_nodup(s, t.drop_last());
        lemma_ins_nodup(uni(s, t.drop_last()), t.last());
    }
}

pub broadcast proof fn lemma_uni_contains(s: Seq<Seq<char>>, t: Seq<Seq<char>>, y: Seq<char>)
    ensures
        #[trigger] uni(s, t).contains(y) <==> (s.contains(y) || t.contains(y)),
    decreases t,
{
    if t.len() > 0 {
        lemma_uni_contains(s, t.drop_last(), y);
        lemma_ins_contains(uni(s, t.drop_last()), t.last(), y);
        if t.contains(y) {
            let i = choose|i: int| 0 <= i < t.len() && t[i] == y;
            if i < t.len() - 1 {
                assert(t.drop_last()[i] == y);
            }
        }
        if t.drop_last().contains(y) {
            let i = choose|i: int| 0 <= i < t.drop_last().len() && t.drop_last()[i] == y;
            assert(t[i] == y);
        }
    }
}

pub proof fn lemma_ins_reserved_free(s: Seq<Seq<char>>, x: Seq<char>)
    requires
        reserved_free(s),
        !reserved_name(x),
    ensures
        reserved_free(ins(s, x)),
{
}

pub proof fn lemma_uni_reserved_free(s: Seq<Seq<char>>, t: Seq<Seq<char>>)
    requires
        reserved_free(s),
        reserved_free(t),
    ensures
        reserved_free(uni(s, t)),
    decreases t,
{
    if t.len() > 0 {
        assert(reserved_free(t.drop_last())) by {
            assert(forall|i: int|
                0 <= i < t.drop_last().len() ==> t.drop_last()[i] == #[trigger] t[i]);
        }
        lemma_uni_reserved_free(s, t.drop_last());
        assert(!reserved_name(t.last()));
        lemma_ins_reserved_free(uni(s, t.drop_last()), t.last());
    }
}

/// A set of identifier names in first-insertion order, with no repetition.
#[derive(Debug, PartialEq, Eq)]
pub struct IdentSet {
    pub items: Vec<String>,
}

impl View for IdentSet {
    type V = Seq<Seq<char>>;

    open spec fn view(&self) -> Seq<Seq<char>> {
        names_view(self.items@)
    }
}

impl IdentSet {
    /// The empty set.
    pub fn new() -> (r: IdentSet)
        ensures
            r@ == Seq::<Seq<char>>::empty(),
    {
        let r = IdentSet { items: Vec::new() };
        proof {
            assert(r@ =~= Seq::<Seq<char>>::empty());
        }
        r
    }

    /// Whether the set holds `n`.
    pub fn contains(&self, n: &String) -> (r: bool)
        ensures
            r == self@.contains(n@),
    {
        let mut i: usize = 0;
        while i < self.items.len()
            invariant
                i <= self.items.len(),
                forall|j: int| 0 <= j < i ==> self@[j] != n@,
            decreases self.items.len() - i,
        {
            if self.items[i] == *n {
                proof {
                    assert(self@[i as int] == n@);
                }
                return true;
            }
            i = i + 1;
        }
        proof {
            if self@.contains(n@) {
                let j = choose|j: int| 0 <= j < self@.len() && self@[j] == n@;
                assert(self@[j] != n@);
            }
        }
        false
    }

    /// Adds `n` unless it is already present.
    pub fn insert(&mut self, n: String)
        ensures
            final(self)@ == ins(old(self)@, n@),
    {
        let present = self.contains(&n);
        if !present {
            self.items.push(n);
            proof {
                assert(self@ =~= ins(old(self)@, n@));
            }
        }
    }

    /// Inserts every name of `other`, in order.
    pub fn union_with(&mut self, other: &IdentSet)
        ensures
            final(self)@ == uni(old(self)@, other@),
    {
        let mut i: usize = 0;
        while i < other.items.len()
            invariant
                i <= other.items.len(),
                self@ == uni(old(self)@, other@.subrange(0, i as int)),
            decreases other.items.len() - i,
        {
            let ghost pre = other@.subrange(0, i as int);
            let name = other.items[i].clone();
            proof {
                assert(name@ == other@[i as int]);
            }
            self.insert(name);
            proof {
                let cur = other@.subrange(0, i as int + 1);
                assert(cur.drop_last() =~= pre);
                assert(cur.last() == other@[i as int]);
            }
            i = i + 1;
        }
        proof {
            assert(other@.subrange(0, other.items.len() as int) =~= other@);
        }
    }

    /// The number of names held.
    pub fn len(&self) -> (r: usize)
        ensures
            r == self@.len(),
    {
        self.items.len()
    }
}

} // verus!
