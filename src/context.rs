use vstd::prelude::*;
use crate::item::{Item, ItemData, clone_items};

verus! {

/// The working set: the items on show, the bound reference payload, and the
/// root list that a reset goes back to.
pub struct Context {
    pub list_items: Vec<Item>,
    pub reference: Option<ItemData>,
    pub root_items: Vec<Item>,
}

impl Context {
    /// The list that a reset shows.
    pub open spec fn root(&self) -> Seq<Item> {
        self.root_items@
    }

    /// A working set showing `root_items`, with no reference bound.
    pub fn new(root_items: Vec<Item>) -> (r: Context)
        ensures
            r.root() == root_items@,
            r.list_items@ == root_items@,
            r.reference is None,
    {
        let list_items = clone_items(&root_items);
        Context { list_items, reference: None, root_items }
    }

    pub fn root_items(&self) -> (r: &Vec<Item>)
        ensures
            r@ == self.root(),
    {
        &self.root_items
    }

    /// Goes back to the root list and drops the reference.
    pub fn reset(&mut self)
        ensures
            final(self).list_items@ == old(self).root(),
            final(self).reference is None,
            final(self).root() == old(self).root(),
    {
        self.list_items = clone_items(&self.root_items);
        self.reference = None;
    }

    /// Replaces the items on show with what an action returned.
    pub fn async_select_callback(&mut self, items: Vec<Item>)
        ensures
            final(self).list_items@ == items@,
            final(self).reference == old(self).reference,
            final(self).root() == old(self).root(),
    {
        self.list_items = items;
    }

    /// The items on show whose title contains `query`, as indices in list
    /// order.
    pub fn filter(&self, query: &str) -> (r: Vec<usize>)
        ensures
            r@ == matching_indices(self.list_items@, query@, self.list_items@.len()),
            forall|k: int| 0 <= k < r@.len() ==> (#[trigger] r@[k]) < self.list_items@.len(),
            r@.len() <= self.list_items@.len(),
    {
        proof {
            lemma_matching_len(self.list_items@, query@, self.list_items@.len());
        }
        substring_filter(&self.list_items, query)
    }

    /// Binds `data` as the reference payload.
    pub fn set_reference(&mut self, data: ItemData)
        ensures
            final(self).reference == Some(data),
            final(self).list_items == old(self).list_items,
            final(self).root() == old(self).root(),
    {
        self.reference = Some(data);
    }
}

/// `needle` occurs in `hay` as a contiguous run starting at `at`.
pub open spec fn occurs_at(hay: Seq<u8>, needle: Seq<u8>, at: int) -> bool {
    0 <= at && at + needle.len() <= hay.len() && hay.subrange(at, at + needle.len()) == needle
}

/// `needle` occurs in `hay` as a contiguous run.
pub open spec fn contains_bytes(hay: Seq<u8>, needle: Seq<u8>) -> bool {
    exists|at: int| #[trigger] occurs_at(hay, needle, at)
}

/// The title of `item` contains `query`, compared on their UTF-8 bytes.
pub open spec fn title_matches(item: Item, query: Seq<char>) -> bool {
    contains_bytes(vstd::utf8::encode_utf8(item.title@), vstd::utf8::encode_utf8(query))
}

/// The indices below `n` of the items whose title contains `query`, in
/// increasing order.
pub open spec fn matching_indices(items: Seq<Item>, query: Seq<char>, n: nat) -> Seq<usize>
    decreases n,
{
    if n == 0 {
        Seq::empty()
    } else {
        let before = matching_indices(items, query, (n - 1) as nat);
        if title_matches(items[n - 1], query) {
            before.push((n - 1) as usize)
        } else {
            before
        }
    }
}

proof fn lemma_matching_len(items: Seq<Item>, query: Seq<char>, n: nat)
    ensures
        matching_indices(items, query, n).len() <= n,
    decreases n,
{
    if n > 0 {
        lemma_matching_len(items, query, (n - 1) as nat);
    }
}

fn occurs_at_exec(hay: &[u8], needle: &[u8], at: usize) -> (r: bool)
    requires
        at + needle@.len() <= hay@.len(),
    ensures
        r == occurs_at(hay@, needle@, at as int),
{
    let hay_len = hay.len();
    let mut k: usize = 0;
    while k < needle.len()
        invariant
            hay_len == hay@.len(),
            at + needle@.len() <= hay@.len(),
            k <= needle@.len(),
            forall|j: int| 0 <= j < k ==> hay@[at + j] == needle@[j],
        decreases needle@.len() - k,
    {
        if hay[at + k] != needle[k] {
            assert(hay@.subrange(at as int, at + needle@.len())[k as int] != needle@[k as int]);
            return false;
        }
        k = k + 1;
    }
    assert(hay@.subrange(at as int, at + needle@.len()) =~= needle@);
    true
}

/// Whether `needle` occurs in `hay`.
pub fn contains(hay: &str, needle: &str) -> (r: bool)
    ensures
        r == contains_bytes(vstd::utf8::encode_utf8(hay@), vstd::utf8::encode_utf8(needle@)),
{
    let h = hay.as_bytes();
    let n = needle.as_bytes();
    assert(h@ == vstd::utf8::encode_utf8(hay@));
    assert(n@ == vstd::utf8::encode_utf8(needle@));
    if n.len() > h.len() {
        assert forall|at: int| !occurs_at(h@, n@, at) by {}
        return false;
    }
    let last = h.len() - n.len();
    let mut at: usize = 0;
    loop
        invariant
            h@ == vstd::utf8::encode_utf8(hay@),
            n@ == vstd::utf8::encode_utf8(needle@),
            last + n@.len() == h@.len(),
            at <= last,
            forall|a: int| 0 <= a < at ==> !#[trigger] occurs_at(h@, n@, a),
        ensures
            forall|a: int| 0 <= a <= last ==> !#[trigger] occurs_at(h@, n@, a),
        decreases last - at,
    {
        if occurs_at_exec(h, n, at) {
            assert(occurs_at(h@, n@, at as int));
            return true;
        }
        if at == last {
            break;
        }
        at = at + 1;
    }
    assert forall|a: int| !#[trigger] occurs_at(h@, n@, a) by {
        if 0 <= a <= last {
        }
    }
    false
}

/// The items of `items` whose title contains `query`, as indices in list
/// order. The same query always gives the same indices.
pub fn substring_filter(items: &Vec<Item>, query: &str) -> (r: Vec<usize>)
    ensures
        r@ == matching_indices(items@, query@, items@.len()),
        forall|k: int| 0 <= k < r@.len() ==> (#[trigger] r@[k]) < items@.len(),
{
    let mut r: Vec<usize> = Vec::new();
    let mut i: usize = 0;
    while i < items.len()
        invariant
            i <= items@.len(),
            r@ == matching_indices(items@, query@, i as nat),
            forall|k: int| 0 <= k < r@.len() ==> (#[trigger] r@[k]) < i,
        decreases items@.len() - i,
    {
        if contains(items[i].title.as_str(), query) {
            r.push(i);
        }
        i = i + 1;
    }
    r
}

} // verus!
