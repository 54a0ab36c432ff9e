use vstd::prelude::*;

verus! {

/// A last-in-first-out stack built from a chain of boxed nodes.
pub struct List<T> {
    head: Option<Box<Node<T>>>,
}

/// One element and the owning link to the node below it.
pub struct Node<T> {
    elem: T,
    next: Option<Box<Node<T>>>,
}

impl<T> Node<T> {
    /// The elements from this node down to the bottom of the stack.
    pub closed spec fn chain(self) -> Seq<T> {
        seq![self.elem] + link_seq(self.next)
    }
}

/// The elements held by a chain starting at `link`, first node first.
spec fn link_seq<T>(link: Option<Box<Node<T>>>) -> Seq<T>
    decreases link,
{
    match link {
        None => Seq::empty(),
        Some(node) => seq![node.elem] + link_seq(node.next),
    }
}

/// The stack after `x` was pushed onto `s`.
pub open spec fn pushed<T>(s: Seq<T>, x: T) -> Seq<T> {
    seq![x] + s
}

/// What a pop on `s` hands back, and the stack it leaves.
pub open spec fn popped<T>(s: Seq<T>) -> (Option<T>, Seq<T>) {
    if s.len() == 0 {
        (None, s)
    } else {
        (Some(s[0]), s.drop_first())
    }
}

impl<T> View for List<T> {
    type V = Seq<T>;

    /// The elements from top to bottom: index 0 is the next to be popped.
    closed spec fn view(&self) -> Seq<T> {
        link_seq(self.head)
    }
}

impl<T> List<T> {
    /// An empty stack.
    pub fn new() -> (r: Self)
        ensures
            r@ == Seq::<T>::empty(),
    {
        List { head: None }
    }

    /// Puts `elem` on top.
    pub fn push(&mut self, elem: T)
        ensures
            final(self)@ == pushed(old(self)@, elem),
    {
        let new_node = Box::new(Node { elem: elem, next: self.head.take() });
        self.head = Some(new_node);
    }

    /// Removes the top element and hands it back, or `None` when empty.
    pub fn pop(&mut self) -> (r: Option<T>)
        ensures
            (r, final(self)@) == popped(old(self)@),
    {
        match self.head.take() {
            None => None,
            Some(node) => {
                let node = *node;
                self.head = node.next;
                Some(node.elem)
            }
        }
    }

    /// A shared reference to the top element, or `None` when empty.
    pub fn peek(&self) -> (r: Option<&T>)
        ensures
            self@.len() == 0 ==> r is None,
            self@.len() > 0 ==> r == Some(&self@[0]),
    {
        match &self.head {
            None => None,
            Some(node) => Some(&node.elem),
        }
    }

    /// An exclusive reference to the top element, or `None` when empty.
    /// What is written through it becomes the new top; nothing else changes.
    pub fn peek_mut(&mut self) -> (r: Option<&mut T>)
        ensures
            old(self)@.len() == 0 ==> r is None && final(self)@ == old(self)@,
            old(self)@.len() > 0 ==> {
                &&& r is Some
                &&& *r.unwrap() == old(self)@[0]
                &&& final(self)@ == old(self)@.update(0, *final(r.unwrap()))
            },
    {
        match &mut self.head {
            None => None,
            Some(node) => Some(&mut node.elem),
        }
    }

    /// Turns the stack into a traversal that hands its elements out by value.
    pub fn into_iter(self) -> (r: IntoIter<T>)
        ensures
            r@ == self@,
    {
        IntoIter(self)
    }

    /// A shared traversal from top to bottom.
    pub fn iter(&self) -> (r: Iter<'_, T>)
        ensures
            r@ == self@,
    {
        match &self.head {
            None => Iter { next: None },
            Some(node) => Iter { next: Some(&**node) },
        }
    }

    /// An exclusive traversal from top to bottom. Once it is done with, the
    /// stack holds what the traversal left in its elements.
    pub fn iter_mut(&mut self) -> (r: IterMut<'_, T>)
        ensures
            r@ == old(self)@,
            r.cursor() is None <==> r@.len() == 0,
            r.cursor() is None ==> final(self)@ == Seq::<T>::empty(),
            r.cursor() is Some ==> final(self)@ == final(r.cursor().unwrap()).chain(),
    {
        match &mut self.head {
            None => IterMut { next: None },
            Some(node) => IterMut { next: Some(&mut **node) },
        }
    }
}

/// Owns a stack and hands its elements out by value, top first.
pub struct IntoIter<T>(List<T>);

impl<T> View for IntoIter<T> {
    type V = Seq<T>;

    /// The elements still to come, in the order they will come.
    closed spec fn view(&self) -> Seq<T> {
        self.0@
    }
}

impl<T> IntoIter<T> {
    /// The next element, or `None` from the moment the stack is drained on.
    pub fn next(&mut self) -> (r: Option<T>)
        ensures
            (r, final(self)@) == popped(old(self)@),
    {
        self.0.pop()
    }
}

/// Shared traversal of a stack from top to bottom.
pub struct Iter<'a, T> {
    next: Option<&'a Node<T>>,
}

impl<'a, T> View for Iter<'a, T> {
    type V = Seq<T>;

    /// The elements still to be visited, in visiting order.
    closed spec fn view(&self) -> Seq<T> {
        match self.next {
            None => Seq::empty(),
            Some(node) => node.chain(),
        }
    }
}

impl<'a, T> Iter<'a, T> {
    /// A reference to the next element, or `None` once every element was visited.
    pub fn next(&mut self) -> (r: Option<&'a T>)
        ensures
            old(self)@.len() == 0 ==> r is None && final(self)@ == old(self)@,
            old(self)@.len() > 0 ==> r == Some(&old(self)@[0]) && final(self)@ == old(
                self,
            )@.drop_first(),
    {
        match self.next {
            None => None,
            Some(node) => {
                self.next = match &node.next {
                    None => None,
                    Some(n) => Some(&**n),
                };
                Some(&node.elem)
            },
        }
    }
}

/// Exclusive traversal of a stack from top to bottom; each element can be
/// changed in place through the reference handed out for it.
pub struct IterMut<'a, T> {
    next: Option<&'a mut Node<T>>,
}

impl<'a, T> View for IterMut<'a, T> {
    type V = Seq<T>;

    /// The elements still to be visited, as they are now.
    closed spec fn view(&self) -> Seq<T> {
        match self.next {
            None => Seq::empty(),
            Some(node) => (*node).chain(),
        }
    }
}

impl<'a, T> IterMut<'a, T> {
    /// The node that the traversal will visit next, if any.
    pub closed spec fn cursor(&self) -> Option<&'a mut Node<T>> {
        self.next
    }

    /// A traversal that is done with leaves the part it did not visit as it is.
    pub proof fn lemma_unvisited_kept(self)
        requires
            has_resolved(self),
        ensures
            self.cursor() is Some ==> final(self.cursor().unwrap()).chain() == self@,
    {
    }

    /// A reference to the next element, or `None` once every element was visited.
    /// The part of the stack left to visit will end up holding what was written
    /// through the returned reference, followed by what the rest of the
    /// traversal leaves behind.
    pub fn next(&mut self) -> (r: Option<&'a mut T>)
        ensures
            old(self)@.len() == 0 ==> {
                &&& r is None
                &&& final(self)@ == old(self)@
                &&& final(self).cursor() is None
            },
            old(self)@.len() > 0 ==> {
                &&& r is Some
                &&& *r.unwrap() == old(self)@[0]
                &&& final(self)@ == old(self)@.drop_first()
                &&& final(old(self).cursor().unwrap()).chain() == seq![*final(r.unwrap())] + (
                match final(self).cursor() {
                    None => Seq::<T>::empty(),
                    Some(c) => final(c).chain(),
                })
            },
            final(self).cursor() is None <==> final(self)@.len() == 0,
    {
        match self.next.take() {
            None => None,
            Some(node) => {
                self.next = match &mut node.next {
                    None => None,
                    Some(n) => Some(&mut **n),
                };
                Some(&mut node.elem)
            },
        }
    }
}

impl<T> Drop for List<T> {
    /// Detaches the chain and hands it to `release`, which frees it node by node;
    /// the stack is left empty.
    fn drop(&mut self)
        ensures
            final(self)@ == Seq::<T>::empty(),
        opens_invariants none
        no_unwind
    {
        let mut cur_link: Option<Box<Node<T>>> = None;
        core::mem::swap(&mut cur_link, &mut self.head);
        release(cur_link);
    }
}

/// Releases a chain one node at a time, so that a long chain is freed
/// without one nested drop per node.
fn release<T>(link: Option<Box<Node<T>>>)
    opens_invariants none
    no_unwind
{
    let mut cur_link = link;
    loop
        decreases link_seq(cur_link).len(),
    {
        match cur_link {
            None => break,
            Some(boxed_node) => {
                let node = *boxed_node;
                cur_link = node.next;
            },
        }
    }
}

} // verus!
