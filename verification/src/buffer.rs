//! The request buffer of one slug as a model of the store's list: newest at
//! the head, taken from the tail, with the slug's membership in the active set.

use vstd::prelude::*;
use vstd::string::*;

verus! {

/// The set of slugs with pending buffered work.
pub const ACTIVE_SET: &'static str = "buf:active";

/// How many members of the active set one scan step asks for.
pub const SCAN_COUNT: usize = 500;

/// The key of a slug's buffer.
pub fn buffer_key(slug: &str) -> (key: String)
    ensures
        key@ == "buf:"@ + slug@,
{
    let mut key = String::from_str("buf:");
    key.append(slug);
    key
}

/// The list after a push at its head.
pub open spec fn pushed<T>(list: Seq<T>, item: T) -> Seq<T> {
    seq![item] + list
}

/// How many items a take of at most `n` removes.
pub open spec fn taken_count<T>(list: Seq<T>, n: nat) -> nat {
    if n < list.len() {
        n
    } else {
        list.len()
    }
}

/// The batch that a take of at most `n` hands out: the items at the tail,
/// oldest first.
pub open spec fn batch_of<T>(list: Seq<T>, n: nat) -> Seq<T> {
    list.subrange(list.len() - taken_count(list, n), list.len() as int).reverse()
}

/// The list that a take of at most `n` leaves.
pub open spec fn left_after<T>(list: Seq<T>, n: nat) -> Seq<T> {
    list.take(list.len() - taken_count(list, n))
}

/// The list after the pushes of `items`, one after the other.
pub open spec fn pushed_all<T>(list: Seq<T>, items: Seq<T>) -> Seq<T>
    decreases items.len(),
{
    if items.len() == 0 {
        list
    } else {
        pushed(pushed_all(list, items.drop_last()), items.last())
    }
}

/// The buffer of one slug: its list, newest at the head, and whether the slug
/// is in the active set.
#[derive(Debug)]
pub struct SlugBuffer<T> {
    pub items: Vec<T>,
    pub active: bool,
}

impl<T> SlugBuffer<T> {
    /// A slug with pending requests is in the active set. The converse does
    /// not hold: a slug stays in the set until a worker finds its list empty.
    pub open spec fn wf(&self) -> bool {
        self.items@.len() > 0 ==> self.active
    }

    /// The buffer of a slug that has seen no request.
    pub fn new() -> (b: SlugBuffer<T>)
        ensures
            b.items@ == Seq::<T>::empty(),
            !b.active,
            b.wf(),
    {
        SlugBuffer { items: Vec::new(), active: false }
    }

    /// Pushes a request at the head of the list and adds the slug to the
    /// active set.
    pub fn push_request(&mut self, item: T)
        ensures
            final(self).items@ == pushed(old(self).items@, item),
            final(self).active,
            final(self).wf(),
    {
        self.items.insert(0, item);
        self.active = true;
        assert(self.items@ =~= pushed(old(self).items@, item));
    }

    /// Takes up to `n` requests from the tail of the list, oldest first, in
    /// one step. The slug stays in the active set.
    pub fn take_batch(&mut self, n: usize) -> (batch: Vec<T>)
        ensures
            batch@ == batch_of(old(self).items@, n as nat),
            final(self).items@ == left_after(old(self).items@, n as nat),
            final(self).active == old(self).active,
            old(self).wf() ==> final(self).wf(),
    {
        let len: usize = self.items.len();
        let take: usize = if n < len {
            n
        } else {
            len
        };
        let mut batch: Vec<T> = Vec::new();
        let mut i: usize = 0;
        while i < take
            invariant
                len == old(self).items@.len(),
                take == taken_count(old(self).items@, n as nat),
                i <= take,
                self.active == old(self).active,
                self.items@ == old(self).items@.take(len - i),
                batch@ == old(self).items@.subrange(len - i, len as int).reverse(),
            decreases take - i,
        {
            let item = self.items.pop();
            match item {
                Some(x) => {
                    batch.push(x);
                },
                None => {},
            }
            i += 1;
            proof {
                assert(self.items@ =~= old(self).items@.take(len - i));
                assert(batch@ =~= old(self).items@.subrange(len - i, len as int).reverse());
            }
        }
        batch
    }

    /// Takes the slug out of the active set where its list is empty, as a
    /// worker does that has found nothing to take; a slug with pending
    /// requests stays.
    pub fn remove_active(&mut self)
        ensures
            final(self).items@ == old(self).items@,
            final(self).active == (old(self).active && old(self).items@.len() > 0),
            old(self).wf() ==> final(self).wf(),
    {
        if self.items.len() == 0 {
            self.active = false;
        }
    }

    /// Puts a batch back where it was taken from: at the tail of the list, its
    /// oldest request last, so that it is the first to be taken again. The
    /// slug is added to the active set.
    pub fn requeue(&mut self, batch: Vec<T>)
        ensures
            final(self).items@ == old(self).items@ + batch@.reverse(),
            final(self).active,
            final(self).wf(),
    {
        let mut batch = batch;
        let n: usize = batch.len();
        let mut i: usize = 0;
        let ghost all = batch@;
        while i < n
            invariant
                n == all.len(),
                i <= n,
                batch@ == all.take(n - i),
                self.items@ == old(self).items@ + all.reverse().take(i as int),
            decreases n - i,
        {
            match batch.pop() {
                Some(x) => {
                    self.items.push(x);
                },
                None => {},
            }
            i += 1;
            proof {
                assert(batch@ =~= all.take(n - i));
                assert(self.items@ =~= old(self).items@ + all.reverse().take(i as int));
            }
        }
        self.active = true;
        assert(all.reverse().take(n as int) =~= all.reverse());
    }

    /// The number of pending requests.
    pub fn buffer_len(&self) -> (n: usize)
        ensures
            n == self.items@.len(),
    {
        self.items.len()
    }
}

/// Requests pushed one after the other, with no take in between, come out of
/// one take that is large enough in the order in which they were pushed, after
/// all that was pending before them, and the list is empty again.
pub proof fn lemma_fifo<T>(pending: Seq<T>, items: Seq<T>, n: nat)
    requires
        n >= pending.len() + items.len(),
    ensures
        batch_of(pushed_all(pending, items), n) == pending.reverse() + items,
        left_after(pushed_all(pending, items), n) == Seq::<T>::empty(),
{
    lemma_pushed_all(pending, items);
    let list = pushed_all(pending, items);
    assert(list =~= items.reverse() + pending);
    assert(batch_of(list, n) =~= pending.reverse() + items);
    assert(left_after(list, n) =~= Seq::<T>::empty());
}

/// Pushes pile up at the head, the last one first.
pub proof fn lemma_pushed_all<T>(list: Seq<T>, items: Seq<T>)
    ensures
        pushed_all(list, items) == items.reverse() + list,
    decreases items.len(),
{
    if items.len() == 0 {
        assert(items.reverse() + list =~= list);
    } else {
        lemma_pushed_all(list, items.drop_last());
        assert(pushed(items.drop_last().reverse() + list, items.last()) =~= items.reverse() + list);
    }
}

/// A take hands out nothing that was pushed after what it leaves: the batch
/// and what is left make up the list, and each request is in one of them only.
pub proof fn lemma_take_splits<T>(list: Seq<T>, n: nat)
    ensures
        left_after(list, n) + batch_of(list, n).reverse() == list,
        batch_of(list, n).len() == taken_count(list, n),
{
    assert(left_after(list, n) + batch_of(list, n).reverse() =~= list);
}

/// A batch that is put back is taken again as it was. After a take, any
/// pushes, and the requeue of what was taken, one take that is large enough
/// hands out all requests in the order in which they were pushed, as if the
/// first take had not been made.
pub proof fn lemma_requeue_keeps_order<T>(list: Seq<T>, n: nat, newer: Seq<T>, m: nat)
    requires
        m >= list.len() + newer.len(),
    ensures
        batch_of(pushed_all(left_after(list, n), newer) + batch_of(list, n).reverse(), m)
            == list.reverse() + newer,
{
    let left = left_after(list, n);
    let batch = batch_of(list, n);
    lemma_pushed_all(left, newer);
    lemma_take_splits(list, n);
    let after = pushed_all(left, newer) + batch.reverse();
    assert(after =~= newer.reverse() + list);
    assert(batch_of(after, m) =~= list.reverse() + newer);
}

/// What one answer of the cursored scan of the active set does: the slugs
/// found so far, and the cursor to go on with, if the scan goes on. The scan
/// ends when the store hands back cursor 0, or when it fails to answer.
pub fn scan_step(found: &mut Vec<String>, reply: Option<(u64, Vec<String>)>) -> (next: Option<u64>)
    ensures
        match reply {
            Some((cursor, page)) => {
                &&& final(found)@ == old(found)@ + page@
                &&& next == if cursor == 0 {
                    None
                } else {
                    Some(cursor)
                }
            },
            None => final(found)@ == old(found)@ && next is None,
        },
{
    match reply {
        Some((cursor, page)) => {
            let mut page = page;
            found.append(&mut page);
            if cursor == 0 {
                None
            } else {
                Some(cursor)
            }
        },
        None => None,
    }
}

} // verus!
