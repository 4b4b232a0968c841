//! A growable array-backed container mapping small integer identifiers to
//! values. Insertion at an index beyond the current length pads the
//! intervening slots with empty entries; nothing is ever removed, so total
//! storage is monotonic in the largest identifier ever inserted.

use vstd::prelude::*;

verus! {

#[derive(Debug)]
pub struct VecMap<T> {
    inner: Vec<Option<T>>,
}

impl<T> View for VecMap<T> {
    type V = Seq<Option<T>>;

    closed spec fn view(&self) -> Seq<Option<T>> {
        self.inner@
    }
}

impl<T> Default for VecMap<T> {
    fn default() -> (r: Self)
        ensures
            r@ == Seq::<Option<T>>::empty(),
    {
        let r = Self { inner: Vec::new() };
        proof {
            assert(r@ =~= Seq::<Option<T>>::empty());
        }
        r
    }
}

impl<T> VecMap<T> {
    /// The value stored at `i`: `None` both for a padded hole and for an
    /// index beyond the storage.
    pub open spec fn spec_get(&self, i: int) -> Option<T> {
        if 0 <= i < self@.len() {
            self@[i]
        } else {
            None
        }
    }

    /// The contents after storing `v` at `i`, padding with empty slots when
    /// `i` lies beyond the current length.
    pub open spec fn spec_insert(m: Seq<Option<T>>, i: int, v: T) -> Seq<Option<T>>
        recommends
            0 <= i,
    {
        if i < m.len() {
            m.update(i, Some(v))
        } else {
            m + Seq::new((i - m.len()) as nat, |_j: int| None) + seq![Some(v)]
        }
    }

    /// How `spec_insert` reads back at each index.
    pub proof fn lemma_spec_insert_get(m: Seq<Option<T>>, i: int, v: T, j: int)
        requires
            0 <= i,
        ensures
            Self::spec_insert(m, i, v).len() == if i < m.len() {
                m.len() as int
            } else {
                i + 1
            },
            j == i ==> Self::spec_insert(m, i, v)[j] == Some(v),
            j != i && 0 <= j < Self::spec_insert(m, i, v).len() ==> Self::spec_insert(m, i, v)[j]
                == (if 0 <= j < m.len() {
                m[j]
            } else {
                None
            }),
    {
    }

    pub fn insert(&mut self, index: usize, v: T)
        ensures
            final(self)@ == Self::spec_insert(old(self)@, index as int, v),
    {
        if index < self.inner.len() {
            self.inner.set(index, Some(v));
        } else {
            let ghost m0 = self.inner@;
            while self.inner.len() < index
                invariant
                    m0.len() <= self.inner@.len() <= index,
                    self.inner@ == m0 + Seq::new((self.inner@.len() - m0.len()) as nat, |_j: int| None::<T>),
                decreases index - self.inner.len(),
            {
                self.inner.push(None);
                proof {
                    assert(self.inner@ =~= m0 + Seq::new(
                        (self.inner@.len() - m0.len()) as nat,
                        |_j: int| None::<T>,
                    ));
                }
            }
            self.inner.push(Some(v));
            proof {
                assert(self@ =~= Self::spec_insert(m0, index as int, v));
            }
        }
    }

    /// Lookup of an identifier that the caller is required, by construction,
    /// to have populated; querying a hole or an out-of-range index is a
    /// contract violation, not a recoverable condition.
    pub fn get(&self, index: usize) -> (r: &T)
        requires
            self.spec_get(index as int) is Some,
        ensures
            self.spec_get(index as int) == Some(*r),
    {
        match &self.inner[index] {
            Some(v) => v,
            None => vstd::pervasive::unreached(),
        }
    }

    /// Mutable lookup under the same populated-index contract as `get`.
    pub fn get_mut(&mut self, index: usize) -> (r: &mut T)
        requires
            old(self).spec_get(index as int) is Some,
        ensures
            old(self).spec_get(index as int) == Some(*r),
            final(self)@ == old(self)@.update(index as int, Some(*final(r))),
    {
        match &mut self.inner[index] {
            Some(v) => v,
            None => vstd::pervasive::unreached(),
        }
    }

    /// The only fallible accessor: holes and out-of-range identifiers come
    /// back as an absence marker instead of a fault.
    pub fn try_get(&self, index: usize) -> (r: Option<&T>)
        ensures
            match r {
                Some(v) => self.spec_get(index as int) == Some(*v),
                None => self.spec_get(index as int) is None,
            },
    {
        if index < self.inner.len() {
            match &self.inner[index] {
                Some(v) => Some(v),
                None => None,
            }
        } else {
            None
        }
    }
}

/// The contents after a whole sequence of insertions, applied first to last
/// to an initially empty map.
pub open spec fn apply_inserts<T>(ops: Seq<(usize, T)>) -> Seq<Option<T>>
    decreases ops.len(),
{
    if ops.len() == 0 {
        Seq::empty()
    } else {
        VecMap::<T>::spec_insert(
            apply_inserts(ops.drop_last()),
            ops.last().0 as int,
            ops.last().1,
        )
    }
}

/// The value most recently written to identifier `id` by `ops`, if any.
pub open spec fn last_write<T>(ops: Seq<(usize, T)>, id: usize) -> Option<T>
    decreases ops.len(),
{
    if ops.len() == 0 {
        None
    } else if ops.last().0 == id {
        Some(ops.last().1)
    } else {
        last_write(ops.drop_last(), id)
    }
}

/// Law: however a sequence of insertions is ordered, every identifier that
/// was inserted reads back as the value last written to it, and an
/// identifier never inserted reads back as absent.
pub proof fn lemma_inserts_read_back<T>(ops: Seq<(usize, T)>, id: usize)
    ensures
        match last_write(ops, id) {
            Some(v) => apply_inserts(ops)[id as int] == Some(v) && id < apply_inserts(ops).len(),
            None => id >= apply_inserts(ops).len() || apply_inserts(ops)[id as int] is None,
        },
    decreases ops.len(),
{
    if ops.len() > 0 {
        lemma_inserts_read_back(ops.drop_last(), id);
        VecMap::<T>::lemma_spec_insert_get(
            apply_inserts(ops.drop_last()),
            ops.last().0 as int,
            ops.last().1,
            id as int,
        );
    }
}

} // verus!
