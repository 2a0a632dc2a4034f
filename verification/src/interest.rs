//! Interest sets: the weak handles of the devices of one class that the
//! compositor looks after.
use vstd::prelude::*;
use crate::handle::WeakHandle;

verus! {

/// Some handle of `s` observes the token `id`.
pub open spec fn holds<T: Copy>(s: Seq<WeakHandle<T>>, id: usize) -> bool {
    exists|i: int| 0 <= i < s.len() && (#[trigger] s[i]).token() == id
}

/// No two handles of `s` observe the same token.
pub open spec fn distinct<T: Copy>(s: Seq<WeakHandle<T>>) -> bool {
    forall|i: int, j: int|
        0 <= i < s.len() && 0 <= j < s.len() && i != j ==> (#[trigger] s[i]).token() != (
        #[trigger] s[j]).token()
}

/// Where the handle that observes the token `id` stands in `s`, if `s`
/// holds one.
pub open spec fn position_of<T: Copy>(s: Seq<WeakHandle<T>>, id: usize) -> int {
    choose|i: int| 0 <= i < s.len() && (#[trigger] s[i]).token() == id
}

/// The set after `handle` was put in: at the end, unless the set holds a
/// handle to the same foreign object already.
pub open spec fn inserted<T: Copy>(s: Seq<WeakHandle<T>>, handle: WeakHandle<T>) -> Seq<
    WeakHandle<T>,
> {
    if holds(s, handle.token()) {
        s
    } else {
        s.push(handle)
    }
}

/// The set after the handle that observes the token `id` was taken out. The
/// other handles keep their order.
pub open spec fn without<T: Copy>(s: Seq<WeakHandle<T>>, id: usize) -> Seq<WeakHandle<T>> {
    if holds(s, id) {
        s.remove(position_of(s, id))
    } else {
        s
    }
}

/// A handle that goes into a set which does not hold its foreign object
/// makes the set one larger; one that the set holds leaves the set as it is.
/// Either way the set holds the object afterwards, nothing is in it twice,
/// and putting the handle in once more changes nothing.
pub proof fn lemma_inserted<T: Copy>(s: Seq<WeakHandle<T>>, handle: WeakHandle<T>)
    requires
        distinct(s),
    ensures
        distinct(inserted(s, handle)),
        holds(inserted(s, handle), handle.token()),
        inserted(inserted(s, handle), handle) == inserted(s, handle),
        inserted(s, handle).len() == s.len() + (if holds(s, handle.token()) {
            0int
        } else {
            1int
        }),
        forall|id: usize|
            id != handle.token() ==> (holds(inserted(s, handle), id) <==> holds(s, id)),
{
    let t = inserted(s, handle);
    if !holds(s, handle.token()) {
        assert(t[s.len() as int].token() == handle.token());
        assert forall|id: usize| id != handle.token() implies (holds(t, id) <==> holds(s, id)) by {
            if holds(s, id) {
                let i = choose|i: int| 0 <= i < s.len() && s[i].token() == id;
                assert(t[i].token() == id);
            }
            if holds(t, id) {
                let i = choose|i: int| 0 <= i < t.len() && t[i].token() == id;
                assert(s[i].token() == id);
            }
        }
    }
}

/// Taking a foreign object out of a set that holds it makes the set one
/// smaller; taking out one that the set does not hold leaves the set as it
/// is. Either way the set does not hold the object afterwards, nothing is in
/// it twice, and every other object is held exactly if it was held before.
pub proof fn lemma_without<T: Copy>(s: Seq<WeakHandle<T>>, id: usize)
    requires
        distinct(s),
    ensures
        distinct(without(s, id)),
        !holds(without(s, id), id),
        without(s, id).len() == s.len() - (if holds(s, id) {
            1int
        } else {
            0int
        }),
        forall|other: usize| other != id ==> (holds(without(s, id), other) <==> holds(s, other)),
{
    if holds(s, id) {
        let at = position_of(s, id);
        let t = without(s, id);
        assert forall|other: usize| holds(t, other) implies other != id && holds(s, other) by {
            let i = choose|i: int| 0 <= i < t.len() && t[i].token() == other;
            let k = if i < at {
                i
            } else {
                i + 1
            };
            assert(s[k].token() == other);
        }
        assert forall|other: usize| other != id && holds(s, other) implies holds(t, other) by {
            let i = choose|i: int| 0 <= i < s.len() && s[i].token() == other;
            let k = if i < at {
                i
            } else {
                i - 1
            };
            assert(t[k].token() == other);
        }
    }
}

/// A set of weak handles, kept in the order in which they came. A foreign
/// object is in the set once at most.
pub struct InterestSet<T: Copy> {
    members: Vec<WeakHandle<T>>,
}

impl<T: Copy> View for InterestSet<T> {
    type V = Seq<WeakHandle<T>>;

    closed spec fn view(&self) -> Seq<WeakHandle<T>> {
        self.members@
    }
}

impl<T: Copy> InterestSet<T> {
    /// Nothing is in the set twice: this holds of every interest set.
    #[verifier::type_invariant]
    pub open spec fn inv(&self) -> bool {
        distinct(self@)
    }

    /// The empty set.
    pub fn new() -> (set: Self)
        ensures
            set@ == Seq::<WeakHandle<T>>::empty(),
            distinct(set@),
    {
        InterestSet { members: Vec::new() }
    }

    /// Number of handles in the set.
    pub fn len(&self) -> (n: usize)
        ensures
            n == self@.len(),
            distinct(self@),
    {
        proof {
            use_type_invariant(self);
        }
        self.members.len()
    }

    /// Where the handle for the token `id` stands, if one is in the set.
    fn position(&self, id: usize) -> (at: Option<usize>)
        ensures
            at is Some <==> holds(self@, id),
            at is Some ==> at.unwrap() == position_of(self@, id),
            distinct(self@),
    {
        proof {
            use_type_invariant(self);
        }
        let mut i: usize = 0;
        while i < self.members.len()
            invariant
                i <= self.members@.len(),
                distinct(self@),
                forall|j: int| 0 <= j < i ==> self@[j].token() != id,
            decreases self.members@.len() - i,
        {
            if self.members[i].id() == id {
                proof {
                    assert(self@[i as int].token() == id);
                    let at = position_of(self@, id);
                    assert(self@[at].token() == id);
                }
                return Some(i);
            }
            i = i + 1;
        }
        None
    }

    /// Whether a handle to the same foreign object is in the set.
    pub fn contains(&self, handle: &WeakHandle<T>) -> (b: bool)
        ensures
            b == holds(self@, handle.token()),
    {
        self.position(handle.id()).is_some()
    }

    /// Puts a handle into the set, at the end. Where the set holds a handle
    /// to the same foreign object already, the set stays as it is and the
    /// handle comes back.
    pub fn insert(&mut self, handle: WeakHandle<T>) -> (rejected: Option<WeakHandle<T>>)
        ensures
            final(self)@ == inserted(old(self)@, handle),
            rejected == (if holds(old(self)@, handle.token()) {
                Some(handle)
            } else {
                None
            }),
    {
        if self.position(handle.id()).is_some() {
            Some(handle)
        } else {
            proof {
                lemma_inserted(self@, handle);
            }
            let mut members: Vec<WeakHandle<T>> = Vec::new();
            core::mem::swap(&mut self.members, &mut members);
            members.push(handle);
            core::mem::swap(&mut self.members, &mut members);
            None
        }
    }

    /// Takes the handle to the foreign object of `handle` out of the set and
    /// returns it. The other handles keep their order.
    pub fn remove(&mut self, handle: &WeakHandle<T>) -> (removed: Option<WeakHandle<T>>)
        ensures
            final(self)@ == without(old(self)@, handle.token()),
            removed == (if holds(old(self)@, handle.token()) {
                Some(old(self)@[position_of(old(self)@, handle.token())])
            } else {
                None
            }),
    {
        match self.position(handle.id()) {
            None => None,
            Some(at) => {
                proof {
                    lemma_without(self@, handle.token());
                }
                let mut members: Vec<WeakHandle<T>> = Vec::new();
                core::mem::swap(&mut self.members, &mut members);
                let removed = members.remove(at);
                core::mem::swap(&mut self.members, &mut members);
                Some(removed)
            },
        }
    }
}

} // verus!
