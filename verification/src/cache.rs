//! Module cache.
//!
//! Memoizes the outcome of resolving a module reference (a URI, compared byte
//! for byte, with no normalization) to a compiled module. A failed resolution
//! is remembered as well, so a reference that could not be fetched or compiled
//! is never fruitlessly retried. A reference being resolved is marked pending
//! the moment its one fetch begins, so a racing request for the same reference
//! finds the mark and issues no second fetch (single flight); both requests
//! then observe the one recorded outcome.
//!
//! The cache lives exactly as long as its connection; entries are never
//! evicted.

use vstd::prelude::*;
use crate::sandbox::clone_module;

verus! {

/// One cache slot for a module reference.
pub enum CacheEntry {
    /// The one fetch for this reference is in flight; its outcome is not yet
    /// known.
    Pending,
    /// Resolution finished: the compiled module, or `None` if the fetch or
    /// the compile failed — kept so the failure is never retried.
    Done(Option<wasmer::Module>),
}

/// The mapping a sequence of cache slots stands for; a later slot for the
/// same reference supersedes an earlier one.
pub open spec fn entries_map(s: Seq<(Vec<u8>, CacheEntry)>) -> Map<Seq<u8>, CacheEntry>
    decreases s.len(),
{
    if s.len() == 0 {
        Map::empty()
    } else {
        entries_map(s.drop_last()).insert(s.last().0@, s.last().1)
    }
}

/// The cache: a mapping from reference bytes to the state of its resolution.
pub struct ModuleCache {
    entries: Vec<(Vec<u8>, CacheEntry)>,
}

impl View for ModuleCache {
    type V = Map<Seq<u8>, CacheEntry>;

    closed spec fn view(&self) -> Map<Seq<u8>, CacheEntry> {
        entries_map(self.entries@)
    }
}

/// What a lookup finds for a reference.
pub enum Probe {
    /// The reference was never resolved: its one fetch must be started.
    Absent,
    /// The one fetch for the reference is already in flight.
    Pending,
    /// Resolution finished and failed; it is not retried.
    Failed,
    /// Resolution finished with this compiled module.
    Ready(wasmer::Module),
}

/// Whether the byte contents of two vectors are equal.
pub fn bytes_eq(a: &Vec<u8>, b: &Vec<u8>) -> (r: bool)
    ensures
        r == (a@ == b@),
{
    if a.len() != b.len() {
        return false;
    }
    let mut i: usize = 0;
    while i < a.len()
        invariant
            i <= a@.len(),
            a@.len() == b@.len(),
            forall|j: int| 0 <= j < i ==> a@[j] == b@[j],
        decreases a@.len() - i,
    {
        if a[i] != b[i] {
            return false;
        }
        i = i + 1;
    }
    assert(a@ =~= b@);
    true
}

/// In a slot sequence whose suffix from `i` on never mentions `k`, the slots
/// before `i` alone decide what `k` maps to.
proof fn lemma_unmatched_suffix(s: Seq<(Vec<u8>, CacheEntry)>, i: int, k: Seq<u8>)
    requires
        0 <= i <= s.len(),
        forall|j: int| i <= j < s.len() ==> s[j].0@ != k,
    ensures
        entries_map(s).contains_key(k) == entries_map(s.subrange(0, i)).contains_key(k),
        entries_map(s).contains_key(k) ==> entries_map(s)[k] == entries_map(s.subrange(0, i))[k],
    decreases s.len() - i,
{
    if i == s.len() {
        assert(s.subrange(0, i) =~= s);
    } else {
        let s1 = s.drop_last();
        assert(s[s.len() - 1].0@ != k);
        lemma_unmatched_suffix(s1, i, k);
        assert(s1.subrange(0, i) =~= s.subrange(0, i));
    }
}

impl ModuleCache {
    /// A fresh cache holding nothing.
    pub fn new() -> (r: ModuleCache)
        ensures
            r@ == Map::<Seq<u8>, CacheEntry>::empty(),
    {
        ModuleCache { entries: Vec::new() }
    }

    /// Looks a reference up, without I/O: exactly what the cache records for
    /// it, or `Absent` if it was never resolved.
    pub fn probe(&self, uri: &Vec<u8>) -> (r: Probe)
        ensures
            match r {
                Probe::Absent => !self@.dom().contains(uri@),
                Probe::Pending => self@.dom().contains(uri@) && self@[uri@] is Pending,
                Probe::Failed => self@.dom().contains(uri@) && self@[uri@] == CacheEntry::Done(
                    None::<wasmer::Module>,
                ),
                Probe::Ready(m) => self@.dom().contains(uri@) && self@[uri@] == CacheEntry::Done(
                    Some(m),
                ),
            },
    {
        let ghost s = self.entries@;
        let mut i: usize = self.entries.len();
        while i > 0
            invariant
                i <= s.len(),
                s == self.entries@,
                self@ == entries_map(s),
                forall|j: int| i <= j < s.len() ==> s[j].0@ != uri@,
            decreases i,
        {
            i = i - 1;
            let slot = &self.entries[i];
            if bytes_eq(&slot.0, uri) {
                proof {
                    lemma_unmatched_suffix(s, i + 1, uri@);
                    assert(s.subrange(0, i + 1).drop_last() =~= s.subrange(0, i as int));
                    assert(s.subrange(0, i + 1).last() == s[i as int]);
                    assert(entries_map(s)[uri@] == s[i as int].1);
                }
                match &slot.1 {
                    CacheEntry::Pending => {
                        return Probe::Pending;
                    },
                    CacheEntry::Done(outcome) => match outcome {
                        None => {
                            return Probe::Failed;
                        },
                        Some(m) => {
                            return Probe::Ready(clone_module(m));
                        },
                    },
                }
            }
        }
        proof {
            lemma_unmatched_suffix(s, 0, uri@);
            assert(s.subrange(0, 0) =~= Seq::<(Vec<u8>, CacheEntry)>::empty());
        }
        Probe::Absent
    }

    /// Marks the one fetch for an unresolved reference as begun.
    pub fn begin_fetch(&mut self, uri: &Vec<u8>)
        requires
            !old(self)@.dom().contains(uri@),
        ensures
            final(self)@ == old(self)@.insert(uri@, CacheEntry::Pending),
    {
        let key = crate::msg::bytes_from(uri, 0);
        assert(key@ =~= uri@);
        self.entries.push((key, CacheEntry::Pending));
        proof {
            assert(self.entries@.drop_last() =~= old(self).entries@);
        }
    }

    /// Records the outcome of the one fetch-and-compile for a pending
    /// reference; the slot is final from here on.
    pub fn complete(&mut self, uri: &Vec<u8>, outcome: Option<wasmer::Module>)
        requires
            old(self)@.dom().contains(uri@),
            old(self)@[uri@] is Pending,
        ensures
            final(self)@ == old(self)@.insert(uri@, CacheEntry::Done(outcome)),
    {
        let key = crate::msg::bytes_from(uri, 0);
        assert(key@ =~= uri@);
        self.entries.push((key, CacheEntry::Done(outcome)));
        proof {
            assert(self.entries@.drop_last() =~= old(self).entries@);
        }
    }
}

/// Whether a request for `uri` must perform an underlying fetch: only when the
/// cache records nothing at all for it.
pub open spec fn needs_fetch(c: Map<Seq<u8>, CacheEntry>, uri: Seq<u8>) -> bool {
    !c.dom().contains(uri)
}

/// Law (fetch at most once): a fetch is issued for a reference only when the
/// cache records nothing for it, and from the moment that one fetch begins,
/// through its completion, the reference stays recorded — so no later request
/// for it can issue a second fetch, and each finds the one recorded outcome.
pub proof fn lemma_fetch_at_most_once(
    c: Map<Seq<u8>, CacheEntry>,
    uri: Seq<u8>,
    outcome: Option<wasmer::Module>,
)
    requires
        needs_fetch(c, uri),
    ensures
        !needs_fetch(c.insert(uri, CacheEntry::Pending), uri),
        !needs_fetch(c.insert(uri, CacheEntry::Pending).insert(uri, CacheEntry::Done(outcome)), uri),
        c.insert(uri, CacheEntry::Pending).insert(uri, CacheEntry::Done(outcome))[uri]
            == CacheEntry::Done(outcome),
{
}

/// Law (recorded references persist): neither transition of the cache — a
/// fetch beginning for some reference, or one completing — removes any
/// recorded reference or disturbs any other reference's record.
pub proof fn lemma_record_persists(
    c: Map<Seq<u8>, CacheEntry>,
    recorded: Seq<u8>,
    touched: Seq<u8>,
    e: CacheEntry,
)
    requires
        c.dom().contains(recorded),
    ensures
        c.insert(touched, e).dom().contains(recorded),
        touched != recorded ==> c.insert(touched, e)[recorded] == c[recorded],
{
}

/// Law (single flight): when two simultaneous requests race on the same
/// unresolved reference, the first to act marks it pending and issues the one
/// fetch; the second then finds the mark and issues none; and once the one
/// fetch completes, both observe the same recorded module.
pub proof fn lemma_single_flight(
    c: Map<Seq<u8>, CacheEntry>,
    uri: Seq<u8>,
    outcome: Option<wasmer::Module>,
)
    requires
        needs_fetch(c, uri),
    ensures
        ({
            let marked = c.insert(uri, CacheEntry::Pending);
            let done = marked.insert(uri, CacheEntry::Done(outcome));
            &&& !needs_fetch(marked, uri)
            &&& marked[uri] is Pending
            &&& done[uri] == CacheEntry::Done(outcome)
        }),
{
}

} // verus!
