use vstd::prelude::*;
use crate::geom::{Coords, Direction};

verus! {

/// The shape of a wire fragment: how the wire that enters a cell from one
/// side continues inside that cell.
#[derive(Clone, Copy, Debug, PartialEq, Eq, Hash, Structural)]
pub enum WireShape {
    Stub,
    Straight,
    TurnLeft,
    TurnRight,
    SplitTee,
    SplitLeft,
    SplitRight,
    Cross,
}

/// One wire fragment: the shape of the wire at side `dir` of cell `coords`.
#[derive(Clone, Copy, Debug, PartialEq, Eq, Structural)]
pub struct WireFragment {
    pub coords: Coords,
    pub dir: Direction,
    pub shape: WireShape,
}

impl WireFragment {
    pub open spec fn key(self) -> (Coords, Direction) {
        (self.coords, self.dir)
    }
}

/// The map that a sequence of fragments describes (later fragments win).
pub open spec fn fragments_map(s: Seq<WireFragment>) -> Map<(Coords, Direction), WireShape>
    decreases s.len(),
{
    if s.len() == 0 {
        Map::empty()
    } else {
        fragments_map(s.drop_last()).insert(s.last().key(), s.last().shape)
    }
}

/// No two fragments of the sequence share a cell side.
pub open spec fn keys_unique(s: Seq<WireFragment>) -> bool {
    forall|i: int, j: int| 0 <= i < s.len() && 0 <= j < s.len() && i != j ==> s[i].key() != s[j].key()
}

/// Every fragment of the sequence lies in a cell of small coordinates.
pub open spec fn fragments_small(s: Seq<WireFragment>) -> bool {
    forall|i: int| 0 <= i < s.len() ==> (#[trigger] s[i]).coords.is_small()
}

/// A finite map from cell sides to wire shapes (a set of wire fragments in
/// which each cell side occurs at most once).
pub struct WireMap {
    items: Vec<WireFragment>,
}

impl View for WireMap {
    type V = Map<(Coords, Direction), WireShape>;

    open spec fn view(&self) -> Map<(Coords, Direction), WireShape> {
        fragments_map(self.fragments())
    }
}

/// The map of a sequence holds exactly its fragments, when no cell side
/// occurs twice.
pub proof fn lemma_fragments_map(s: Seq<WireFragment>)
    requires
        keys_unique(s),
    ensures
        forall|i: int|
            0 <= i < s.len() ==> #[trigger] fragments_map(s).contains_key(s[i].key())
                && fragments_map(s)[s[i].key()] == s[i].shape,
        forall|k: (Coords, Direction)|
            #[trigger] fragments_map(s).contains_key(k) ==> exists|i: int|
                0 <= i < s.len() && s[i].key() == k,
    decreases s.len(),
{
    if s.len() > 0 {
        let t = s.drop_last();
        assert(keys_unique(t));
        lemma_fragments_map(t);
        assert forall|k: (Coords, Direction)| #[trigger]
            fragments_map(s).contains_key(k) implies exists|i: int|
            0 <= i < s.len() && s[i].key() == k by {
            if k != s.last().key() {
                let i = choose|i: int| 0 <= i < t.len() && t[i].key() == k;
                assert(s[i] == t[i]);
            } else {
                assert(s[s.len() - 1].key() == k);
            }
        }
        assert forall|i: int| 0 <= i < s.len() implies #[trigger] fragments_map(s).contains_key(
            s[i].key(),
        ) && fragments_map(s)[s[i].key()] == s[i].shape by {
            if i < s.len() - 1 {
                assert(s[i] == t[i]);
                assert(s[i].key() != s.last().key());
                assert(fragments_map(t).contains_key(t[i].key()));
            }
        }
    }
}

impl WireMap {
    /// The fragments, in storage order.
    pub closed spec fn fragments(&self) -> Seq<WireFragment> {
        self.items@
    }

    /// Well-formedness: no cell side is stored twice.
    pub open spec fn wf(&self) -> bool {
        keys_unique(self.fragments())
    }

    /// Every stored fragment has small coordinates.
    pub open spec fn is_small(&self) -> bool {
        fragments_small(self.fragments())
    }

    pub fn new() -> (m: WireMap)
        ensures
            m.wf(),
            m.is_small(),
            m@ == Map::<(Coords, Direction), WireShape>::empty(),
            m.fragments().len() == 0,
    {
        WireMap { items: Vec::new() }
    }

    pub fn len(&self) -> (n: usize)
        ensures
            n == self.fragments().len(),
    {
        self.items.len()
    }

    pub fn is_empty(&self) -> (b: bool)
        requires
            self.wf(),
        ensures
            b == (self@ == Map::<(Coords, Direction), WireShape>::empty()),
    {
        proof {
            lemma_fragments_map(self.fragments());
            if self.items.len() > 0 {
                assert(self@.contains_key(self.fragments()[0].key()));
            } else {
                assert(self@ =~= Map::<(Coords, Direction), WireShape>::empty());
            }
        }
        self.items.len() == 0
    }

    /// The `i`-th stored fragment.
    pub fn fragment(&self, i: usize) -> (f: WireFragment)
        requires
            i < self.fragments().len(),
        ensures
            f == self.fragments()[i as int],
    {
        self.items[i]
    }

    /// The shape stored for side `dir` of cell `coords`, if any.
    pub fn get(&self, coords: Coords, dir: Direction) -> (r: Option<WireShape>)
        requires
            self.wf(),
        ensures
            r == (if self@.contains_key((coords, dir)) {
                Some(self@[(coords, dir)])
            } else {
                None
            }),
    {
        proof {
            lemma_fragments_map(self.fragments());
        }
        let mut i: usize = 0;
        while i < self.items.len()
            invariant
                i <= self.items.len(),
                self.wf(),
                forall|j: int| 0 <= j < i ==> self.items@[j].key() != (coords, dir),
            decreases self.items.len() - i,
        {
            let f = self.items[i];
            if f.coords == coords && f.dir == dir {
                proof {
                    lemma_fragments_map(self.fragments());
                }
                assert(self@.contains_key(self.fragments()[i as int].key()));
                return Some(f.shape);
            }
            i = i + 1;
        }
        None
    }

    pub fn contains_key(&self, coords: Coords, dir: Direction) -> (b: bool)
        requires
            self.wf(),
        ensures
            b == self@.contains_key((coords, dir)),
    {
        self.get(coords, dir).is_some()
    }

    /// Sets the shape of side `dir` of cell `coords`, replacing any shape
    /// stored for it before.
    pub fn insert(&mut self, coords: Coords, dir: Direction, shape: WireShape)
        requires
            old(self).wf(),
        ensures
            final(self).wf(),
            final(self)@ == old(self)@.insert((coords, dir), shape),
            old(self).is_small() && coords.is_small() ==> final(self).is_small(),
            forall|j: int|
                0 <= j < final(self).fragments().len() ==> #[trigger] final(self).fragments()[j]
                    == (WireFragment { coords, dir, shape }) || old(self).fragments().contains(
                    final(self).fragments()[j],
                ),
    {
        proof {
            lemma_fragments_map(self.fragments());
        }
        let ghost old_items = self.items@;
        let mut i: usize = 0;
        while i < self.items.len()
            invariant
                i <= self.items.len(),
                self.items@ == old_items,
                old_items == old(self).fragments(),
                keys_unique(old_items),
                forall|j: int| 0 <= j < i ==> self.items@[j].key() != (coords, dir),
            decreases self.items.len() - i,
        {
            let f = self.items[i];
            if f.coords == coords && f.dir == dir {
                let nf = WireFragment { coords, dir, shape };
                self.items.set(i, nf);
                proof {
                    let s = self.items@;
                    lemma_fragments_map(old_items);
                    assert(keys_unique(s)) by {
                        assert forall|a: int, b: int|
                            0 <= a < s.len() && 0 <= b < s.len() && a != b implies s[a].key()
                            != s[b].key() by {
                            assert(old_items[a].key() == s[a].key());
                            assert(old_items[b].key() == s[b].key());
                        }
                    }
                    lemma_fragments_map(s);
                    assert(self@ =~= old(self)@.insert((coords, dir), shape)) by {
                        assert forall|k: (Coords, Direction)| #[trigger]
                            self@.contains_key(k) implies old(self)@.insert(
                            (coords, dir),
                            shape,
                        ).contains_key(k) && self@[k] == old(self)@.insert((coords, dir), shape)[k] by {
                            let j = choose|j: int| 0 <= j < s.len() && s[j].key() == k;
                            assert(self@.contains_key(s[j].key()));
                            if j != i {
                                assert(s[j] == old_items[j]);
                                assert(old(self)@.contains_key(old_items[j].key()));
                            }
                        }
                        assert forall|k: (Coords, Direction)| #[trigger]
                            old(self)@.insert((coords, dir), shape).contains_key(
                            k,
                        ) implies self@.contains_key(k) by {
                            if k != (coords, dir) {
                                let j = choose|j: int| 0 <= j < old_items.len() && old_items[j].key() == k;
                                assert(s[j] == old_items[j]);
                                assert(self@.contains_key(s[j].key()));
                            } else {
                                assert(s[i as int].key() == k);
                                assert(self@.contains_key(s[i as int].key()));
                            }
                        }
                    }
                    assert(old(self).is_small() && coords.is_small() ==> fragments_small(s)) by {
                        if old(self).is_small() && coords.is_small() {
                            assert forall|j: int| 0 <= j < s.len() implies (#[trigger] s[j]).coords.is_small() by {
                                if j != i {
                                    assert(s[j] == old_items[j]);
                                }
                            }
                        }
                    }
                    assert forall|j: int| 0 <= j < s.len() implies #[trigger] s[j] == (WireFragment {
                        coords,
                        dir,
                        shape,
                    }) || old_items.contains(s[j]) by {
                        if j != i {
                            assert(s[j] == old_items[j]);
                        }
                    }
                }
                return;
            }
            i = i + 1;
        }
        self.items.push(WireFragment { coords, dir, shape });
        proof {
            let s = self.items@;
            assert(s.drop_last() =~= old_items);
            assert(keys_unique(s));
            assert(old(self).is_small() && coords.is_small() ==> fragments_small(s)) by {
                if old(self).is_small() && coords.is_small() {
                    assert forall|j: int| 0 <= j < s.len() implies (#[trigger] s[j]).coords.is_small() by {
                        if j < old_items.len() {
                            assert(s[j] == old_items[j]);
                        }
                    }
                }
            }
            assert forall|j: int| 0 <= j < s.len() implies #[trigger] s[j] == (WireFragment {
                coords,
                dir,
                shape,
            }) || old_items.contains(s[j]) by {
                if j < old_items.len() {
                    assert(s[j] == old_items[j]);
                }
            }
        }
    }
}

} // verus!
