use vstd::prelude::*;

verus! {

/// One node of the doubly-linked list. Neighbours are addressed by index
/// into the list's arena rather than by shared ownership handles, which
/// sidesteps cyclic ownership entirely.
pub struct Node<T> {
    pub data: T,
    pub prev: Option<usize>,
    pub next: Option<usize>,
}

impl<T> Node<T> {
    /// A fresh, unlinked node carrying `data`.
    pub fn new(data: T) -> (r: Node<T>)
        ensures
            r.data == data,
            r.prev is None,
            r.next is None,
    {
        Node { data, prev: None, next: None }
    }
}

/// A doubly-linked list kept in an arena: element `i` of the arena is the
/// list's `i`-th node, its neighbours stored as optional indices. Appending
/// and removing happen at the tail, so the arena order is the list order.
pub struct LinkedList<T> {
    nodes: Vec<Node<T>>,
    head: Option<usize>,
    tail: Option<usize>,
}

impl<T> LinkedList<T> {
    /// The sequence of element values, front to back.
    pub closed spec fn view(&self) -> Seq<T> {
        self.nodes@.map_values(|n: Node<T>| n.data)
    }

    /// The arena indices run front to back: the head is index 0, the tail is
    /// the last index, and each node points at its immediate neighbours.
    pub closed spec fn wf(&self) -> bool {
        &&& self.head == (if self.nodes@.len() == 0 {
            None::<usize>
        } else {
            Some(0usize)
        })
        &&& self.tail == (if self.nodes@.len() == 0 {
            None::<usize>
        } else {
            Some((self.nodes@.len() - 1) as usize)
        })
        &&& forall|i: int|
            0 <= i < self.nodes@.len() ==> (#[trigger] self.nodes@[i]).prev == (if i == 0 {
                None::<usize>
            } else {
                Some((i - 1) as usize)
            })
        &&& forall|i: int|
            0 <= i < self.nodes@.len() ==> (#[trigger] self.nodes@[i]).next == (if i
                == self.nodes@.len() - 1 {
                None::<usize>
            } else {
                Some((i + 1) as usize)
            })
    }

    /// A new, empty list.
    pub fn new() -> (r: Self)
        ensures
            r.wf(),
            r@ == Seq::<T>::empty(),
    {
        let r = LinkedList { nodes: Vec::new(), head: None, tail: None };
        proof {
            assert(r@ =~= Seq::<T>::empty());
        }
        r
    }

    /// How many elements the list holds.
    pub fn len(&self) -> (r: usize)
        ensures
            r == self@.len(),
    {
        self.nodes.len()
    }

    /// The `i`-th element from the front, or `None` past the end.
    pub fn get(&self, i: usize) -> (r: Option<&T>)
        ensures
            i < self@.len() ==> r is Some && *r->0 == self@[i as int],
            i >= self@.len() ==> r is None,
    {
        if i < self.nodes.len() {
            Some(&self.nodes[i].data)
        } else {
            None
        }
    }

    /// Appends `data` at the tail: the old tail node and the new node are
    /// linked to each other, and the tail index moves to the new node.
    pub fn append(&mut self, data: T)
        requires
            old(self).wf(),
        ensures
            final(self).wf(),
            final(self)@ == old(self)@.push(data),
    {
        let mut node = Node::new(data);
        match self.tail {
            Some(t) => {
                let new_idx = self.nodes.len();
                node.prev = Some(t);
                let mut old_tail = self.nodes.pop().unwrap();
                old_tail.next = Some(new_idx);
                self.nodes.push(old_tail);
                self.nodes.push(node);
                self.tail = Some(new_idx);
                proof {
                    assert(final(self)@ =~= old(self)@.push(data));
                }
            },
            None => {
                self.nodes.push(node);
                self.head = Some(0);
                self.tail = Some(0);
                proof {
                    assert(final(self)@ =~= old(self)@.push(data));
                }
            },
        }
    }

    /// Removes the tail node, if any: its predecessor becomes the new tail,
    /// and an empty list stays empty.
    pub fn remove_tail(&mut self)
        requires
            old(self).wf(),
        ensures
            final(self).wf(),
            old(self)@.len() == 0 ==> final(self)@ == old(self)@,
            old(self)@.len() > 0 ==> final(self)@ == old(self)@.subrange(
                0,
                old(self)@.len() - 1,
            ),
    {
        match self.tail {
            Some(_) => {
                let _ = self.nodes.pop();
                if self.nodes.len() == 0 {
                    self.head = None;
                    self.tail = None;
                } else {
                    let last = self.nodes.len() - 1;
                    let mut new_tail = self.nodes.pop().unwrap();
                    new_tail.next = None;
                    self.nodes.push(new_tail);
                    self.tail = Some(last);
                }
                proof {
                    assert(final(self)@ =~= old(self)@.subrange(0, old(self)@.len() - 1));
                }
            },
            None => {},
        }
    }
}

} // verus!
