//! The scope tracker: a stack of lexical frames over a root identifier set.
//!
//! Each frame records the identifiers bound in it, the identifiers whose use
//! has been attributed to it, and whether it is a capturing boundary (a
//! move-closure or move-async-block).  The attribution rule lives in
//! [`record_usage_v`]: a reference to a name bound in some frame is charged to
//! every *capturing* frame strictly inside the binding frame, and a reference
//! to a name bound only at the root is charged to every active frame.

use vstd::prelude::*;
use crate::ast::TransformError;
use crate::idents::IdentSet;
use crate::idents::ins;
use crate::idents::uni;

verus! {

/// Ghost state of one lexical frame.
#[verifier::ext_equal]
pub struct NestV {
    pub idents: Seq<Seq<char>>,
    pub usage: Seq<Seq<char>>,
    pub capture: bool,
}

/// Ghost state of the whole tracker.
#[verifier::ext_equal]
pub struct DataV {
    pub debug: bool,
    pub root: Seq<Seq<char>>,
    pub nested: Seq<NestV>,
}

/// An empty frame with the given capturing flag.
pub open spec fn empty_frame_v(capture: bool) -> NestV {
    NestV { idents: Seq::empty(), usage: Seq::empty(), capture }
}

/// Entering a nested block pushes a fresh frame.
pub open spec fn push_frame_v(d: DataV, capture: bool) -> DataV {
    DataV { nested: d.nested.push(empty_frame_v(capture)), ..d }
}

/// Leaving a nested block drops the innermost frame.
pub open spec fn pop_frame_v(d: DataV) -> DataV {
    DataV { nested: d.nested.drop_last(), ..d }
}

/// Binding registers names in the innermost frame, or in the root set when no
/// frame is active.
pub open spec fn bind_v(d: DataV, names: Seq<Seq<char>>) -> DataV {
    if d.nested.len() > 0 {
        let k = d.nested.len() - 1;
        DataV {
            nested: d.nested.update(k, NestV { idents: uni(d.nested[k].idents, names), ..d.nested[k] }),
            ..d
        }
    } else {
        DataV { root: uni(d.root, names), ..d }
    }
}

/// The innermost frame whose bound set holds `n`, if any.
pub open spec fn innermost_v(nested: Seq<NestV>, n: Seq<char>) -> Option<int>
    decreases nested,
{
    if nested.len() == 0 {
        None
    } else if nested.last().idents.contains(n) {
        Some(nested.len() - 1)
    } else {
        innermost_v(nested.drop_last(), n)
    }
}

/// Whether a use of `n` is attributed to the frame at depth `j`: frames
/// strictly inside the binding frame that are capturing boundaries, or every
/// frame when `n` is bound only in the root set.
pub open spec fn usage_target_v(d: DataV, n: Seq<char>, j: int) -> bool {
    match innermost_v(d.nested, n) {
        Some(off) => off < j && d.nested[j].capture,
        None => d.root.contains(n),
    }
}

/// The attribution rule: a no-op for a name that is not visible, otherwise
/// `n` is added to the usage set of exactly the target frames.
pub open spec fn record_usage_v(d: DataV, n: Seq<char>) -> DataV {
    DataV {
        nested: Seq::new(
            d.nested.len(),
            |j: int|
                if usage_target_v(d, n, j) {
                    NestV { usage: ins(d.nested[j].usage, n), ..d.nested[j] }
                } else {
                    d.nested[j]
                },
        ),
        ..d
    }
}

/// Recording a sequence of names left to right.
pub open spec fn record_names_v(d: DataV, names: Seq<Seq<char>>) -> DataV
    decreases names,
{
    if names.len() == 0 {
        d
    } else {
        record_usage_v(record_names_v(d, names.drop_last()), names.last())
    }
}

/// The names of a set joined with `", "`, in set order.
pub open spec fn join_names_v(s: Seq<Seq<char>>) -> Seq<char>
    decreases s,
{
    if s.len() == 0 {
        Seq::empty()
    } else if s.len() == 1 {
        s[0]
    } else {
        join_names_v(s.drop_last()) + ", "@ + s.last()
    }
}

pub proof fn lemma_innermost_props(nested: Seq<NestV>, n: Seq<char>)
    ensures
        match innermost_v(nested, n) {
            Some(off) => 0 <= off < nested.len() && nested[off].idents.contains(n) && (forall|j: int|
                off < j < nested.len() ==> !(#[trigger] nested[j].idents).contains(n)),
            None => forall|j: int|
                0 <= j < nested.len() ==> !(#[trigger] nested[j].idents).contains(n),
        },
    decreases nested,
{
    if nested.len() > 0 {
        lemma_innermost_props(nested.drop_last(), n);
        assert(forall|j: int|
            0 <= j < nested.len() - 1 ==> #[trigger] nested[j] == nested.drop_last()[j]);
    }
}

/// One lexical frame of the scope stack.
#[derive(Debug, PartialEq, Eq)]
pub struct NestBlock {
    pub idents: IdentSet,
    pub usage: IdentSet,
    pub capture: bool,
}

impl View for NestBlock {
    type V = NestV;

    open spec fn view(&self) -> NestV {
        NestV { idents: self.idents@, usage: self.usage@, capture: self.capture }
    }
}

/// The scope tracker threaded through one traversal of one function body.
#[derive(Debug, PartialEq, Eq)]
pub struct Data {
    pub debug: bool,
    pub root: IdentSet,
    pub nested: Vec<NestBlock>,
}

impl View for Data {
    type V = DataV;

    open spec fn view(&self) -> DataV {
        DataV {
            debug: self.debug,
            root: self.root@,
            nested: Seq::new(self.nested@.len(), |i: int| self.nested@[i]@),
        }
    }
}

impl Data {
    /// A fresh tracker with no frame and an empty root set.
    pub fn new(debug: bool) -> (r: Data)
        ensures
            r@ == (DataV { debug, root: Seq::empty(), nested: Seq::empty() }),
    {
        let r = Data { debug, root: IdentSet::new(), nested: Vec::new() };
        proof {
            assert(r@.nested =~= Seq::<NestV>::empty());
            assert(r@ =~= (DataV { debug, root: Seq::empty(), nested: Seq::empty() }));
        }
        r
    }

    /// Enters a nested block or capturing boundary.
    pub fn push_nested_block(&mut self, capture: bool)
        ensures
            final(self)@ == push_frame_v(old(self)@, capture),
    {
        self.nested.push(NestBlock { idents: IdentSet::new(), usage: IdentSet::new(), capture });
        proof {
            assert(self@.nested =~= old(self)@.nested.push(empty_frame_v(capture)));
            assert(self@ =~= push_frame_v(old(self)@, capture));
        }
    }

    /// Registers bound identifiers in the innermost frame, or in the root set
    /// when the stack is empty.
    pub fn push_idents(&mut self, other: &IdentSet)
        ensures
            final(self)@ == bind_v(old(self)@, other@),
    {
        if self.nested.len() > 0 {
            let mut frame = match self.nested.pop() {
                Some(f) => f,
                None => {
                    proof {
                        assert(false);
                    }
                    NestBlock { idents: IdentSet::new(), usage: IdentSet::new(), capture: false }
                },
            };
            frame.idents.union_with(other);
            self.nested.push(frame);
            proof {
                let k = old(self)@.nested.len() - 1;
                assert(self@.nested =~= old(self)@.nested.update(
                    k,
                    NestV {
                        idents: uni(old(self)@.nested[k].idents, other@),
                        ..old(self)@.nested[k]
                    },
                ));
                assert(self@ =~= bind_v(old(self)@, other@));
            }
        } else {
            self.root.union_with(other);
            proof {
                assert(self@.nested =~= old(self)@.nested);
                assert(self@ =~= bind_v(old(self)@, other@));
            }
        }
    }

    /// The names of a set joined with `", "`, for diagnostic text.
    pub fn string_idents(other: &IdentSet) -> (r: String)
        ensures
            r@ == join_names_v(other@),
    {
        let mut out = String::new();
        let mut i: usize = 0;
        while i < other.items.len()
            invariant
                i <= other.items.len(),
                out@ == join_names_v(other@.subrange(0, i as int)),
            decreases other.items.len() - i,
        {
            let ghost pre = other@.subrange(0, i as int);
            if i > 0 {
                out.append(", ");
            }
            out.append(other.items[i].as_str());
            proof {
                let cur = other@.subrange(0, i as int + 1);
                assert(cur.drop_last() =~= pre);
                assert(cur.last() == other@[i as int]);
                assert(out@ =~= join_names_v(cur));
            }
            i = i + 1;
        }
        proof {
            assert(other@.subrange(0, other.items.len() as int) =~= other@);
        }
        out
    }

    /// Attributes a use of `other` per the attribution rule; a no-op when the
    /// name is not visible anywhere.
    pub fn push_usage(&mut self, other: String) -> (r: Result<(), TransformError>)
        ensures
            r matches Ok(_),
            final(self)@ == record_usage_v(old(self)@, other@),
    {
        proof {
            lemma_innermost_props(old(self)@.nested, other@);
        }
        let mut nested_idx: Option<usize> = None;
        let mut i: usize = 0;
        while i < self.nested.len()
            invariant
                *self == *old(self),
                i <= self.nested.len(),
                match nested_idx {
                    Some(u) => innermost_v(old(self)@.nested.subrange(0, i as int), other@)
                        == Some(u as int),
                    None => innermost_v(old(self)@.nested.subrange(0, i as int), other@)
                        == None::<int>,
                },
            decreases self.nested.len() - i,
        {
            let ghost pre = old(self)@.nested.subrange(0, i as int);
            if self.nested[i].idents.contains(&other) {
                nested_idx = Some(i);
            }
            proof {
                let cur = old(self)@.nested.subrange(0, i as int + 1);
                assert(cur.drop_last() =~= pre);
                assert(cur.last() == old(self)@.nested[i as int]);
            }
            i = i + 1;
        }
        proof {
            assert(old(self)@.nested.subrange(0, self.nested.len() as int) =~= old(self)@.nested);
        }
        let ghost d0 = old(self)@;
        match nested_idx {
            None => {
                if !self.root.contains(&other) {
                    proof {
                        assert(forall|j: int|
                            0 <= j < d0.nested.len() ==> !usage_target_v(d0, other@, j));
                        assert(self@.nested =~= record_usage_v(d0, other@).nested);
                        assert(self@ =~= record_usage_v(d0, other@));
                    }
                    return Ok(());
                }
                let mut j: usize = 0;
                while j < self.nested.len()
                    invariant
                        j <= self.nested.len(),
                        self.nested.len() == d0.nested.len(),
                        self.debug == d0.debug,
                        self.root@ == d0.root,
                        innermost_v(d0.nested, other@) == None::<int>,
                        d0.root.contains(other@),
                        forall|k: int|
                            j <= k < d0.nested.len() ==> self@.nested[k] == d0.nested[k],
                        forall|k: int|
                            0 <= k < j ==> self@.nested[k] == (NestV {
                                usage: ins(d0.nested[k].usage, other@),
                                ..d0.nested[k]
                            }),
                    decreases self.nested.len() - j,
                {
                    let ghost prev = self@.nested;
                    self.nested[j].usage.insert(other.clone());
                    proof {
                        assert(self@.nested.len() == prev.len());
                        assert(forall|k: int|
                            0 <= k < prev.len() && k != j as int ==> self@.nested[k] == prev[k]);
                        assert(self@.nested[j as int] == (NestV {
                            usage: ins(d0.nested[j as int].usage, other@),
                            ..d0.nested[j as int]
                        }));
                        assert forall|k: int| 0 <= k < j as int + 1 implies self@.nested[k]
                            == (NestV {
                            usage: ins(d0.nested[k].usage, other@),
                            ..d0.nested[k]
                        }) by {
                            if k < j as int {
                                assert(self@.nested[k] == prev[k]);
                                assert(prev[k] == (NestV {
                                    usage: ins(d0.nested[k].usage, other@),
                                    ..d0.nested[k]
                                }));
                            }
                        }
                    }
                    j = j + 1;
                }
                proof {
                    assert(forall|k: int|
                        0 <= k < d0.nested.len() ==> usage_target_v(d0, other@, k));
                    assert(self@.nested =~= record_usage_v(d0, other@).nested);
                    assert(self@ =~= record_usage_v(d0, other@));
                }
                Ok(())
            },
            Some(off) => {
                let mut j: usize = off + 1;
                proof {
                    assert(forall|k: int|
                        0 <= k <= off ==> !usage_target_v(d0, other@, k));
                }
                while j < self.nested.len()
                    invariant
                        off < j <= self.nested.len(),
                        self.nested.len() == d0.nested.len(),
                        self.debug == d0.debug,
                        self.root@ == d0.root,
                        innermost_v(d0.nested, other@) == Some(off as int),
                        forall|k: int|
                            j <= k < d0.nested.len() ==> self@.nested[k] == d0.nested[k],
                        forall|k: int| 0 <= k <= off ==> self@.nested[k] == d0.nested[k],
                        forall|k: int|
                            off < k < j ==> self@.nested[k] == (if d0.nested[k].capture {
                                NestV { usage: ins(d0.nested[k].usage, other@), ..d0.nested[k] }
                            } else {
                                d0.nested[k]
                            }),
                    decreases self.nested.len() - j,
                {
                    let ghost prev = self@.nested;
                    if self.nested[j].capture {
                        self.nested[j].usage.insert(other.clone());
                        proof {
                            assert(self@.nested.len() == prev.len());
                            assert(forall|k: int|
                                0 <= k < prev.len() && k != j as int ==> self@.nested[k]
                                    == prev[k]);
                            assert(self@.nested[j as int] == (NestV {
                                usage: ins(d0.nested[j as int].usage, other@),
                                ..d0.nested[j as int]
                            }));
                        }
                    }
                    proof {
                        assert forall|k: int| off < k < j as int + 1 implies self@.nested[k] == (
                        if d0.nested[k].capture {
                            NestV { usage: ins(d0.nested[k].usage, other@), ..d0.nested[k] }
                        } else {
                            d0.nested[k]
                        }) by {
                            if k < j as int {
                                assert(self@.nested[k] == prev[k]);
                                assert(prev[k] == (if d0.nested[k].capture {
                                    NestV {
                                        usage: ins(d0.nested[k].usage, other@),
                                        ..d0.nested[k]
                                    }
                                } else {
                                    d0.nested[k]
                                }));
                            }
                        }
                        assert forall|k: int| j as int + 1 <= k < d0.nested.len() implies self@.nested[k]
                            == d0.nested[k] by {
                            assert(self@.nested[k] == prev[k]);
                            assert(prev[k] == d0.nested[k]);
                        }
                    }
                    j = j + 1;
                }
                proof {
                    assert(self@.nested =~= record_usage_v(d0, other@).nested);
                    assert(self@ =~= record_usage_v(d0, other@));
                }
                Ok(())
            },
        }
    }

    /// Leaves a nested block, returning its frame; fails with
    /// [`TransformError::ScopeUnderflow`] when no frame is active.
    pub fn pop_nested_block(&mut self) -> (r: Result<Option<NestBlock>, TransformError>)
        ensures
            old(self)@.nested.len() > 0 ==> (r matches Ok(b) && b matches Some(fr) && fr@ == old(
                self,
            )@.nested.last() && final(self)@ == pop_frame_v(old(self)@)),
            old(self)@.nested.len() == 0 ==> (r matches Err(e) && e
                == TransformError::ScopeUnderflow && final(self)@ == old(self)@),
    {
        match self.nested.pop() {
            Some(frame) => {
                proof {
                    assert(frame@ == old(self)@.nested.last());
                    assert(self@.nested =~= old(self)@.nested.drop_last());
                    assert(self@ =~= pop_frame_v(old(self)@));
                }
                Ok(Some(frame))
            },
            None => {
                proof {
                    assert(self@ =~= old(self)@);
                }
                Err(TransformError::ScopeUnderflow)
            },
        }
    }
}

} // verus!
