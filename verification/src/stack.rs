use vstd::prelude::*;

verus! {

/// The element one pop surfaces from a stack holding `v`: the top (the last
/// element of the sequence), or nothing when the stack is empty.
pub open spec fn popped_value<T>(v: Seq<T>) -> Option<T> {
    if v.len() == 0 {
        None
    } else {
        Some(v.last())
    }
}

/// The contents left behind by one pop on a stack holding `v`.
pub open spec fn popped_rest<T>(v: Seq<T>) -> Seq<T> {
    if v.len() == 0 {
        v
    } else {
        v.drop_last()
    }
}

/// An ordered, growable collection with last-in-first-out access.
///
/// The view of a stack is the sequence of its elements in insertion order;
/// the last element of the sequence is the top.
#[derive(Debug)]
pub struct Stack<T> {
    size: usize,
    data: Vec<T>,
}

impl<T> View for Stack<T> {
    type V = Seq<T>;

    closed spec fn view(&self) -> Seq<T> {
        self.data@
    }
}

impl<T> Stack<T> {
    /// The cached element count agrees with the length of the element
    /// sequence; every operation below preserves this.
    pub closed spec fn well_formed(&self) -> bool {
        self.size == self.data@.len()
    }

    /// Creates an empty stack.
    pub fn new() -> (s: Stack<T>)
        ensures
            s.well_formed(),
            s@ == Seq::<T>::empty(),
    {
        Stack { size: 0, data: Vec::new() }
    }

    /// True exactly when the stack holds no elements.
    pub fn is_empty(&self) -> (r: bool)
        requires
            self.well_formed(),
        ensures
            r == (self@.len() == 0),
    {
        self.size == 0
    }

    /// Appends `item` on top of the stack.
    pub fn push(&mut self, item: T)
        requires
            old(self).well_formed(),
        ensures
            final(self).well_formed(),
            final(self)@ == old(self)@.push(item),
    {
        self.data.push(item);
        proof {
            // the grown vector's length fits in usize, so the count can follow it
            assert(self.data.len() == self.data@.len());
        }
        self.size = self.size + 1;
    }

    /// Removes and returns the top element, or returns nothing when the
    /// stack is empty, leaving it unchanged.
    pub fn pop(&mut self) -> (r: Option<T>)
        requires
            old(self).well_formed(),
        ensures
            final(self).well_formed(),
            r == popped_value(old(self)@),
            final(self)@ == popped_rest(old(self)@),
    {
        if self.size == 0 {
            None
        } else {
            self.size = self.size - 1;
            self.data.pop()
        }
    }

    /// Returns a reference to the top element without removing it, or
    /// nothing when the stack is empty.
    pub fn peek(&self) -> (r: Option<&T>)
        requires
            self.well_formed(),
        ensures
            self@.len() == 0 ==> r is None,
            self@.len() > 0 ==> (r matches Some(p) && *p == self@.last()),
    {
        if self.size == 0 {
            None
        } else {
            Some(&self.data[self.size - 1])
        }
    }

    /// Returns the number of elements currently held.
    pub fn size(&self) -> (r: usize)
        requires
            self.well_formed(),
        ensures
            r == self@.len(),
    {
        self.size
    }

    /// Removes every element; afterwards the stack is empty. Idempotent.
    pub fn clear(&mut self)
        requires
            old(self).well_formed(),
        ensures
            final(self).well_formed(),
            final(self)@ == Seq::<T>::empty(),
    {
        self.data.clear();
        self.size = 0;
    }

    /// Hands the stack over to a consuming traversal that surfaces the
    /// elements in pop order.
    pub fn into_iter(self) -> (it: IntoIter<T>)
        requires
            self.well_formed(),
        ensures
            it.well_formed(),
            it@ == self@,
    {
        IntoIter(self)
    }

    /// Starts a read-only traversal that surfaces a reference to each
    /// element in pop order, leaving the stack untouched.
    pub fn iter(&self) -> (it: Iter<'_, T>)
        requires
            self.well_formed(),
        ensures
            it@ == self@,
    {
        let mut refs: Vec<&T> = Vec::new();
        let n = self.data.len();
        for i in 0..n
            invariant
                n == self.data@.len(),
                refs@.len() == i,
                forall|j: int| 0 <= j < i ==> *(#[trigger] refs@[j]) == self.data@[j],
        {
            refs.push(&self.data[i]);
        }
        Iter { stack: refs }
    }

    /// Starts a mutating traversal that surfaces a mutable reference to
    /// each element in pop order. While the traversal is alive the stack is
    /// exclusively borrowed; afterwards it holds, in place, whatever the
    /// caller wrote through the surfaced references.
    pub fn iter_mut(&mut self) -> (it: IterMut<'_, T>)
        requires
            old(self).well_formed(),
        ensures
            it.entries().len() == old(self)@.len(),
            forall|j: int| 0 <= j < it.entries().len() ==> *(#[trigger] it.entries()[j])
                == old(self)@[j],
            final(self).well_formed(),
            final(self)@.len() == old(self)@.len(),
            forall|j: int| 0 <= j < it.entries().len() ==> final(self)@[j] == *final(
                #[trigger] it.entries()[j]
            ),
    {
        let mut refs: Vec<&mut T> = Vec::new();
        push_mut_refs(self.data.as_mut_slice(), &mut refs);
        IterMut { stack: refs }
    }
}

/// Appends to `refs` one mutable reference to each element of `s`, in
/// order. The slice ends up holding, position by position, whatever is
/// later written through those references.
fn push_mut_refs<'a, T>(s: &'a mut [T], refs: &mut Vec<&'a mut T>)
    ensures
        final(refs)@.len() == old(refs)@.len() + old(s)@.len(),
        forall|j: int| 0 <= j < old(refs)@.len() ==> #[trigger] final(refs)@[j] == old(
            refs,
        )@[j],
        forall|j: int| old(refs)@.len() <= j < final(refs)@.len() ==> *(
        #[trigger] final(refs)@[j]) == old(s)@[j - old(refs)@.len()],
        final(s)@.len() == old(s)@.len(),
        forall|j: int| old(refs)@.len() <= j < final(refs)@.len() ==> final(s)@[j - old(
            refs,
        )@.len()] == *final(#[trigger] final(refs)@[j]),
    decreases s@.len(),
{
    if s.len() > 0 {
        let (first, tail) = s.split_at_mut(1);
        let r = first.first_mut().unwrap();
        refs.push(r);
        push_mut_refs(tail, refs);
    }
}

/// A consuming traversal: owns the stack it drains and surfaces the
/// elements in pop order, most recently pushed first.
///
/// The view of the traversal is the sequence of elements it has not yet
/// surfaced, in insertion order; each advance surfaces the last of them.
pub struct IntoIter<T>(Stack<T>);

impl<T> View for IntoIter<T> {
    type V = Seq<T>;

    closed spec fn view(&self) -> Seq<T> {
        self.0@
    }
}

impl<T> IntoIter<T> {
    /// The wrapped stack keeps its count in step with its contents.
    pub closed spec fn well_formed(&self) -> bool {
        self.0.well_formed()
    }

    /// Surfaces the next element in pop order, or nothing once the
    /// traversal is exhausted; exhaustion is terminal.
    pub fn next(&mut self) -> (r: Option<T>)
        requires
            old(self).well_formed(),
        ensures
            final(self).well_formed(),
            r == popped_value(old(self)@),
            final(self)@ == popped_rest(old(self)@),
    {
        self.0.pop()
    }
}

/// A read-only traversal over a stack: holds a reference to every element,
/// taken when the traversal started, and surfaces them in pop order.
///
/// The view is the sequence of element values not yet surfaced, in
/// insertion order; each advance surfaces the last of them.
pub struct Iter<'a, T> {
    stack: Vec<&'a T>,
}

impl<'a, T> View for Iter<'a, T> {
    type V = Seq<T>;

    closed spec fn view(&self) -> Seq<T> {
        Seq::new(self.stack@.len(), |i: int| *self.stack@[i])
    }
}

impl<'a, T> Iter<'a, T> {
    /// Surfaces a reference to the next element in pop order, or nothing
    /// once the traversal is exhausted; exhaustion is terminal.
    pub fn next(&mut self) -> (r: Option<&'a T>)
        ensures
            r is None ==> old(self)@.len() == 0,
            r matches Some(p) ==> Some(*p) == popped_value(old(self)@),
            final(self)@ == popped_rest(old(self)@),
    {
        self.stack.pop()
    }
}

/// A mutating traversal over a stack: holds a mutable reference to every
/// element, taken when the traversal started, and surfaces them in pop
/// order. Writing through a surfaced reference changes the element in
/// place; the stack's contents and count are otherwise untouched.
pub struct IterMut<'a, T> {
    stack: Vec<&'a mut T>,
}

impl<'a, T> IterMut<'a, T> {
    /// The references not yet surfaced, in insertion order of the elements
    /// they point at; each advance surfaces the last of them.
    pub closed spec fn entries(&self) -> Seq<&'a mut T> {
        self.stack@
    }

    /// Once the traversal will never be advanced or written through again,
    /// every reference it still holds settles at the value it held: the
    /// elements never surfaced keep their values.
    pub proof fn lemma_unsurfaced_entries_settle(self, j: int)
        ensures
            0 <= j < self.entries().len() ==> has_resolved(self) ==> *final(
                self.entries()[j]
            ) == *self.entries()[j],
    {
        // follows from the ambient resolution axioms for the held vector
    }

    /// Surfaces a mutable reference to the next element in pop order, or
    /// nothing once the traversal is exhausted; exhaustion is terminal.
    pub fn next(&mut self) -> (r: Option<&'a mut T>)
        ensures
            old(self).entries().len() == 0 ==> r is None && final(self).entries() == old(
                self,
            ).entries(),
            old(self).entries().len() > 0 ==> (r matches Some(p) && p == old(
                self,
            ).entries().last()) && final(self).entries() == old(self).entries().drop_last(),
    {
        self.stack.pop()
    }
}

} // verus!
