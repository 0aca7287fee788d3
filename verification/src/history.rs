//! The session history: the requests that were sent, each once, in the order
//! in which they were first sent, kept in an `indexmap::IndexSet`.
use vstd::prelude::*;
use indexmap::IndexSet;

use crate::api::{Request, RequestView};

verus! {

/// An insertion-ordered set, from the `indexmap` crate.
#[verifier::external_type_specification]
#[verifier::external_body]
#[verifier::reject_recursive_types(T)]
#[verifier::reject_recursive_types(S)]
pub struct ExIndexSet<T, S>(IndexSet<T, S>);

/// The entries of an `IndexSet` of requests, in the set's order.
pub uninterp spec fn index_set_entries(set: IndexSet<Request>) -> Seq<RequestView>;

/// The sequence left when the entry at `i` is replaced by the last entry and the
/// last position is dropped, as `swap_remove` does.
pub open spec fn swap_removed<A>(s: Seq<A>, i: int) -> Seq<A> {
    s.update(i, s.last()).drop_last()
}

/// A sequence with every entry after the first of its value left out.
pub open spec fn first_occurrences<A>(s: Seq<A>) -> Seq<A>
    decreases s.len(),
{
    if s.len() == 0 {
        s
    } else {
        let rest = first_occurrences(s.drop_last());
        if rest.contains(s.last()) {
            rest
        } else {
            rest.push(s.last())
        }
    }
}

/// `IndexSet::new`: an empty set.
#[verifier::external_body]
fn index_set_new() -> (s: IndexSet<Request>)
    ensures
        index_set_entries(s) == Seq::<RequestView>::empty(),
{
    IndexSet::new()
}

/// `IndexSet::insert`: when an equal request (same texts, protocol and method,
/// by `Request`'s derived `Eq` and `Hash`) is already there, the set is left as
/// it was and `false` comes back; otherwise the request is appended and `true`
/// comes back. An `IndexSet` never holds two equal entries.
#[verifier::external_body]
fn index_set_insert(s: &mut IndexSet<Request>, r: Request) -> (added: bool)
    ensures
        added == !index_set_entries(*old(s)).contains(r@),
        index_set_entries(*final(s)) == if added {
            index_set_entries(*old(s)).push(r@)
        } else {
            index_set_entries(*old(s))
        },
        index_set_entries(*final(s)).no_duplicates(),
{
    s.insert(r)
}

/// `IndexSet::swap_remove`: when an equal request is there, it is removed by
/// moving the last entry into its place, and `true` comes back; otherwise the
/// set is left as it was and `false` comes back.
#[verifier::external_body]
fn index_set_swap_remove(s: &mut IndexSet<Request>, r: &Request) -> (removed: bool)
    ensures
        removed == index_set_entries(*old(s)).contains(r@),
        removed ==> exists|i: int|
            0 <= i < index_set_entries(*old(s)).len() && index_set_entries(*old(s))[i] == r@
                && index_set_entries(*final(s)) == swap_removed(index_set_entries(*old(s)), i),
        !removed ==> index_set_entries(*final(s)) == index_set_entries(*old(s)),
        index_set_entries(*final(s)).no_duplicates(),
{
    s.swap_remove(r)
}

/// `IndexSet::get_index`: the entry at a position, where there is one.
#[verifier::external_body]
fn index_set_get(s: &IndexSet<Request>, i: usize) -> (r: Option<&Request>)
    ensures
        r is Some <==> i < index_set_entries(*s).len(),
        r matches Some(q) ==> q@ == index_set_entries(*s)[i as int],
{
    s.get_index(i)
}

/// `IndexSet::len`: the number of entries.
#[verifier::external_body]
fn index_set_len(s: &IndexSet<Request>) -> (n: usize)
    ensures
        n == index_set_entries(*s).len(),
{
    s.len()
}

/// The requests sent in this session, each at most once, in the order in which
/// they were first added.
pub struct History {
    entries: IndexSet<Request>,
}

impl View for History {
    type V = Seq<RequestView>;

    closed spec fn view(&self) -> Seq<RequestView> {
        index_set_entries(self.entries)
    }
}

impl History {
    #[verifier::type_invariant]
    closed spec fn distinct(self) -> bool {
        index_set_entries(self.entries).no_duplicates()
    }

    /// An empty history.
    pub fn new() -> (h: History)
        ensures
            h@ == Seq::<RequestView>::empty(),
    {
        History { entries: index_set_new() }
    }

    /// A history holding the given requests in order, later copies of an
    /// earlier request left out.
    pub fn from_requests(requests: Vec<Request>) -> (h: History)
        ensures
            h@ == first_occurrences(requests@.map_values(|r: Request| r@)),
            h@.no_duplicates(),
    {
        let ghost views = requests@.map_values(|r: Request| r@);
        let mut h = History::new();
        let n = requests.len();
        assert(views.take(0) == Seq::<RequestView>::empty());
        for k in 0..n
            invariant
                n == requests@.len(),
                views == requests@.map_values(|r: Request| r@),
                h@ == first_occurrences(views.take(k as int)),
                h@.no_duplicates(),
        {
            h.insert(requests[k].clone());
            assert(views.take(k + 1).drop_last() == views.take(k as int));
        }
        assert(views.take(n as int) == views);
        h
    }

    /// Adds a request at the end, unless an equal one is already there; says
    /// whether it was added. Entries stay distinct.
    pub fn insert(&mut self, r: Request) -> (added: bool)
        ensures
            added == !old(self)@.contains(r@),
            final(self)@ == if added { old(self)@.push(r@) } else { old(self)@ },
            final(self)@.no_duplicates(),
    {
        proof {
            use_type_invariant(&*self);
        }
        let mut entries = index_set_new();
        std::mem::swap(&mut entries, &mut self.entries);
        let added = index_set_insert(&mut entries, r);
        self.entries = entries;
        added
    }

    /// Removes the entry equal to `r`, moving the last entry into its place;
    /// says whether there was one. Entries stay distinct.
    pub fn swap_remove(&mut self, r: &Request) -> (removed: bool)
        ensures
            removed == old(self)@.contains(r@),
            removed ==> exists|i: int|
                0 <= i < old(self)@.len() && old(self)@[i] == r@ && final(self)@ == swap_removed(old(self)@, i),
            !removed ==> final(self)@ == old(self)@,
            !final(self)@.contains(r@),
            old(self)@.no_duplicates(),
            final(self)@.no_duplicates(),
    {
        proof {
            use_type_invariant(&*self);
        }
        let mut entries = index_set_new();
        std::mem::swap(&mut entries, &mut self.entries);
        let removed = index_set_swap_remove(&mut entries, r);
        self.entries = entries;
        proof {
            if removed {
                let i = choose|i: int|
                    0 <= i < old(self)@.len() && old(self)@[i] == r@ && self@ == swap_removed(old(self)@, i);
                assert forall|j: int| 0 <= j < self@.len() implies self@[j] != r@ by {
                    if j == i {
                        assert(self@[j] == old(self)@.last());
                        assert(old(self)@[old(self)@.len() - 1] == old(self)@.last());
                    } else {
                        assert(self@[j] == old(self)@[j]);
                    }
                }
            }
        }
        removed
    }

    /// The entry at a position, where there is one.
    pub fn get(&self, i: usize) -> (r: Option<&Request>)
        ensures
            r is Some <==> i < self@.len(),
            r matches Some(q) ==> q@ == self@[i as int],
            self@.no_duplicates(),
    {
        proof {
            use_type_invariant(self);
        }
        index_set_get(&self.entries, i)
    }

    /// The number of entries.
    pub fn len(&self) -> (n: usize)
        ensures
            n == self@.len(),
            self@.no_duplicates(),
    {
        proof {
            use_type_invariant(self);
        }
        index_set_len(&self.entries)
    }

    /// Whether there are no entries.
    pub fn is_empty(&self) -> (b: bool)
        ensures
            b == (self@.len() == 0),
    {
        index_set_len(&self.entries) == 0
    }

    /// The entries, in order, as a vector of copies.
    pub fn to_vec(&self) -> (v: Vec<Request>)
        ensures
            v@.len() == self@.len(),
            forall|i: int| 0 <= i < v@.len() ==> #[trigger] v@[i]@ == self@[i],
    {
        let n = self.len();
        let mut v: Vec<Request> = Vec::new();
        for k in 0..n
            invariant
                n == self@.len(),
                v@.len() == k,
                forall|i: int| 0 <= i < k ==> #[trigger] v@[i]@ == self@[i],
        {
            match self.get(k) {
                Some(r) => v.push(r.clone()),
                None => {},
            }
        }
        v
    }
}

} // verus!
