//! A LIFO singly linked list built from individually owned nodes.
//!
//! The list owns its head node, and each node owns its successor, so the
//! chain is a strict forward-only ownership path.  The abstract value of a
//! list is the sequence of its elements from the head (most recently
//! pushed) to the tail.

use vstd::prelude::*;

verus! {

/// One element plus ownership of the remainder of the chain.
pub struct Node<T> {
    item: T,
    next: Link<T>,
}

type Link<T> = Option<Box<Node<T>>>;

/// A singly linked list: an ownership link to the first node, or nothing.
///
/// Its view is the sequence of elements from head to tail, so index 0 is
/// the most recently pushed element that has not yet been popped.
pub struct LinkedList<T> {
    head: Link<T>,
}

/// Explicit teardown: release everything a container owns through its
/// `drop` method.
pub trait Drop {
    fn drop(&mut self);
}

/// The pull-based iteration capability: produce the next element, or
/// signal exhaustion with nothing.
pub trait Iter {
    type Item;

    fn next(&mut self) -> Option<Self::Item>;
}

/// A consuming iterator: owns the whole list and pops from it, yielding
/// owned elements in head-to-tail order.
pub struct IntoIterator<T> {
    iterator: LinkedList<T>,
}

/// A borrowing iterator: a read-only cursor holding a reference to the
/// next node to visit, or nothing once exhausted.
pub struct Iterator<'a, T> {
    next: Option<&'a Node<T>>,
}

/// A mutably borrowing iterator: an exclusive cursor holding a mutable
/// reference to the next node to visit, or nothing once exhausted.
pub struct MutIterator<'a, T> {
    next: Option<&'a mut Node<T>>,
}

/// The sequence of elements stored in the chain hanging off a link,
/// from the link's own node to the tail.
pub closed spec fn link_view<T>(link: Link<T>) -> Seq<T>
    decreases link,
{
    match link {
        None => Seq::empty(),
        Some(node) => seq![(*node).item] + link_view((*node).next),
    }
}

impl<T> View for Node<T> {
    type V = Seq<T>;

    /// The elements from this node to the tail; never empty.
    closed spec fn view(&self) -> Seq<T> {
        seq![self.item] + link_view(self.next)
    }
}

impl<T> View for LinkedList<T> {
    type V = Seq<T>;

    closed spec fn view(&self) -> Seq<T> {
        link_view(self.head)
    }
}

impl<T> LinkedList<T> {
    /// Returns an empty list.
    pub fn new() -> (r: Self)
        ensures
            r@ == Seq::<T>::empty(),
    {
        LinkedList { head: None }
    }

    /// Wraps `item` in a new node whose successor is the current head;
    /// the new node becomes the head.
    pub fn push(&mut self, item: T)
        ensures
            final(self)@ == seq![item] + old(self)@,
    {
        let new_node = Box::new(Node { item: item, next: self.head.take() });
        self.head = Some(new_node);
    }

    /// Detaches the head node, makes its successor the new head, and
    /// returns the held element; returns nothing on an empty list.
    pub fn pop(&mut self) -> (r: Option<T>)
        ensures
            old(self)@.len() == 0 ==> r is None && final(self)@ == old(self)@,
            old(self)@.len() > 0 ==> r == Some(old(self)@[0]) && final(self)@ == old(self)@.drop_first(),
    {
        match self.head.take() {
            None => None,
            Some(node) => {
                let node = *node;
                self.head = node.next;
                assert(old(self)@.drop_first() =~= link_view(node.next));
                Some(node.item)
            },
        }
    }

    /// Returns a read-only reference to the head element, or nothing if
    /// the list is empty.  Does not mutate the list.
    pub fn peek(&self) -> (r: Option<&T>)
        ensures
            self@.len() == 0 ==> r is None,
            self@.len() > 0 ==> (r matches Some(x) && *x == self@[0]),
    {
        match &self.head {
            None => None,
            Some(node) => Some(&node.item),
        }
    }

    /// Returns an exclusive reference to the head element for in-place
    /// modification, or nothing if the list is empty.  Whatever the caller
    /// writes through the reference becomes the new head element.
    pub fn mut_peek(&mut self) -> (r: Option<&mut T>)
        ensures
            old(self)@.len() == 0 ==> r is None && final(self)@ == old(self)@,
            old(self)@.len() > 0 ==> r is Some
                && *r.unwrap() == old(self)@[0]
                && final(self)@ == seq![*final(r.unwrap())] + old(self)@.drop_first(),
    {
        match &mut self.head {
            None => None,
            Some(node) => Some(&mut node.item),
        }
    }

    /// Transfers ownership of the whole list into a consuming iterator;
    /// the list value itself is no longer usable afterwards.
    pub fn into_iter(self) -> (r: IntoIterator<T>)
        ensures
            r@ == self@,
    {
        IntoIterator { iterator: self }
    }

    /// Produces a read-only cursor rooted at the current head; the list
    /// itself is left untouched and must outlive the iterator.
    pub fn iter<'a>(&'a self) -> (r: Iterator<'a, T>)
        ensures
            r@ == self@,
    {
        Iterator {
            next: match &self.head {
                None => None,
                Some(node) => Some(&**node),
            },
        }
    }

    /// Builds a list from an ordered sequence of values by pushing them
    /// in the given order, so the last value listed ends up at the head
    /// and is the first returned by pop, peek, or iteration.  An empty
    /// sequence gives the same list as `new`.
    pub fn from_values(values: Vec<T>) -> (r: LinkedList<T>)
        ensures
            r@ == values@.reverse(),
    {
        let ghost orig: Seq<T> = values@;
        let mut values = values;
        let mut list = LinkedList::new();
        proof {
            assert(list@.reverse() + values@ =~= orig);
        }
        while values.len() > 0
            invariant
                list@.reverse() + values@ == orig,
            decreases values.len(),
        {
            let ghost prev: Seq<T> = list@;
            let v = values.remove(0);
            list.push(v);
            proof {
                assert(list@.reverse() =~= prev.reverse() + seq![v]);
                assert(list@.reverse() + values@ =~= orig);
            }
        }
        proof {
            assert(list@.reverse() =~= orig);
            assert(list@ =~= orig.reverse());
        }
        list
    }

    /// Iteratively unlinks the whole chain: repeatedly detaches the head
    /// node and takes its successor as the new current node until none
    /// remain.  This keeps teardown at constant auxiliary space instead
    /// of recursing to a depth proportional to the list's length.
    fn clear(&mut self)
        ensures
            final(self)@ == Seq::<T>::empty(),
        opens_invariants none
        no_unwind
    {
        let mut curr: Link<T> = None;
        core::mem::swap(&mut curr, &mut self.head);
        loop
            decreases link_view(curr).len(),
        {
            match curr {
                None => {
                    break;
                },
                Some(mut node) => {
                    let mut succ: Link<T> = None;
                    core::mem::swap(&mut succ, &mut node.next);
                    curr = succ;
                },
            }
        }
    }

    /// Produces an exclusive cursor rooted at the current head; the list
    /// cannot be otherwise accessed while the iterator is alive, and the
    /// elements it holds afterwards are exactly those the cursor leaves
    /// behind.
    pub fn mut_iter<'a>(&'a mut self) -> (r: MutIterator<'a, T>)
        ensures
            r@ == old(self)@,
            r.cursor() is Some <==> old(self)@.len() > 0,
            old(self)@.len() == 0 ==> final(self)@ == old(self)@,
            old(self)@.len() > 0 ==> final(self)@ == final(r.cursor()->Some_0)@,
    {
        MutIterator {
            next: match &mut self.head {
                None => None,
                Some(node) => Some(&mut **node),
            },
        }
    }
}

impl<T> Drop for LinkedList<T> {
    /// Empties the list by the iterative unlinking of `clear`.
    fn drop(&mut self)
        ensures
            final(self)@ == Seq::<T>::empty(),
    {
        self.clear();
    }
}

impl<T> core::ops::Drop for LinkedList<T> {
    /// Teardown when a list goes out of scope: delegates to the same
    /// iterative unlinking, so dropping a long list cannot exhaust the
    /// call stack the way a recursive teardown of the chain would.
    fn drop(&mut self)
        opens_invariants none
        no_unwind
    {
        self.clear();
    }
}

impl<'a, T> View for MutIterator<'a, T> {
    type V = Seq<T>;

    /// The elements still to be visited, in order, as they stand now.
    closed spec fn view(&self) -> Seq<T> {
        match self.next {
            None => Seq::empty(),
            Some(node) => (*node)@,
        }
    }
}

impl<'a, T> MutIterator<'a, T> {
    /// The cursor itself: the exclusive reference to the next node to
    /// visit, or nothing once exhausted.  Contracts apply `final` to it
    /// to speak about the elements the chain will hold once every
    /// reference handed out through this cursor has expired.
    pub closed spec fn cursor(&self) -> Option<&'a mut Node<T>> {
        self.next
    }
}

impl<T> View for IntoIterator<T> {
    type V = Seq<T>;

    /// The elements still to be yielded, in order.
    closed spec fn view(&self) -> Seq<T> {
        self.iterator@
    }
}

impl<T> Iter for IntoIterator<T> {
    type Item = T;

    /// Pops the wrapped list: yields the remaining elements one by one
    /// in head-to-tail order, then nothing once the list is empty.
    fn next(&mut self) -> (r: Option<T>)
        ensures
            old(self)@.len() == 0 ==> r is None && final(self)@ == old(self)@,
            old(self)@.len() > 0 ==> r == Some(old(self)@[0]) && final(self)@ == old(self)@.drop_first(),
    {
        self.iterator.pop()
    }
}

impl<'a, T> View for Iterator<'a, T> {
    type V = Seq<T>;

    /// The elements still to be visited, in order.
    closed spec fn view(&self) -> Seq<T> {
        match self.next {
            None => Seq::empty(),
            Some(node) => node@,
        }
    }
}

impl<'a, T> Iter for Iterator<'a, T> {
    type Item = &'a T;

    /// Yields a reference to each remaining element in head-to-tail
    /// order, then nothing; never mutates the underlying list.
    fn next(&mut self) -> (r: Option<&'a T>)
        ensures
            old(self)@.len() == 0 ==> r is None && final(self)@ == old(self)@,
            old(self)@.len() > 0 ==> (r matches Some(x) && *x == old(self)@[0])
                && final(self)@ == old(self)@.drop_first(),
    {
        match self.next {
            None => None,
            Some(node) => {
                self.next = match &node.next {
                    None => None,
                    Some(succ) => Some(&**succ),
                };
                Some(&node.item)
            },
        }
    }
}

impl<'a, T> Iter for MutIterator<'a, T> {
    type Item = &'a mut T;

    /// Yields an exclusive reference to each remaining element in
    /// head-to-tail order, exactly once per element, then nothing.  What
    /// the caller writes through a yielded reference is what the
    /// underlying list holds at that position afterwards.
    fn next(&mut self) -> (r: Option<&'a mut T>)
        ensures
            old(self)@.len() == 0 ==> r is None && final(self)@ == old(self)@
                && final(self).cursor() is None && old(self).cursor() is None,
            old(self)@.len() > 0 ==> r is Some
                && *r.unwrap() == old(self)@[0]
                && final(self)@ == old(self)@.drop_first(),
            old(self)@.len() == 1 ==> final(self).cursor() is None
                && final(old(self).cursor()->Some_0)@ == seq![*final(r.unwrap())],
            old(self)@.len() > 1 ==> final(self).cursor() is Some
                && final(old(self).cursor()->Some_0)@
                    == seq![*final(r.unwrap())] + final(final(self).cursor()->Some_0)@,
    {
        match self.next.take() {
            None => None,
            Some(node) => {
                let item = &mut node.item;
                self.next = match &mut node.next {
                    None => None,
                    Some(succ) => Some(&mut **succ),
                };
                Some(item)
            },
        }
    }
}

/// Dropping a mutating iterator at any point is safe: once the iterator
/// is resolved (nothing will be written through it any more), the chain
/// its cursor still points to keeps the elements it holds now, so the
/// underlying list is left with exactly the elements already written
/// through yielded references followed by the untouched remainder.
pub proof fn lemma_mut_iterator_resolved<'a, T>(it: MutIterator<'a, T>)
    requires
        has_resolved(it),
    ensures
        it.cursor() matches Some(n) ==> final(n)@ == it@,
{
}

/// The LIFO law at the level of abstract lists: a push makes the pushed
/// element the head, and the pop right after it returns that element and
/// leaves the elements that stood there before, so any sequence of pushes
/// is popped back in reverse order, and peek after a push sees the pushed
/// element.
pub proof fn lemma_push_then_pop<T>(s: Seq<T>, x: T)
    ensures
        (seq![x] + s).len() == s.len() + 1,
        (seq![x] + s)[0] == x,
        (seq![x] + s).drop_first() == s,
{
    assert((seq![x] + s).drop_first() =~= s);
}

/// Building from an ordered sequence of values is the same as pushing
/// them one by one in that order: the built list holds them reversed, so
/// the last value listed stands at the head, and an empty sequence gives
/// an empty list.
pub proof fn lemma_built_from_values<T>(s: Seq<T>)
    ensures
        s.reverse().len() == s.len(),
        s.len() > 0 ==> s.reverse()[0] == s[s.len() - 1],
        s.len() == 0 ==> s.reverse() == Seq::<T>::empty(),
{
    assert(s.len() == 0 ==> s.reverse() =~= Seq::<T>::empty());
}

} // verus!
