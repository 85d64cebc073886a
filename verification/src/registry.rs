//! The identifier registry: a durable, append-only map from collection
//! identifiers to resolved resource handles.
//!
//! An identifier is permanently claimed by the first handle committed for
//! it: committing the same pair again changes nothing, and committing a
//! conflicting handle is refused rather than overwriting.  The spec
//! functions [`commit_ok`] and [`committed`] model one commit; the public
//! lemmas below state the laws of the registry over that model.

use vstd::prelude::*;
use crate::bytes::{bytes_eq, clone_bytes};

verus! {

/// Whether a commit of `handle` under `identifier` is accepted against the
/// registry state `m`: the identifier is unclaimed, or already resolved to
/// this very handle.
pub open spec fn commit_ok(m: Map<Seq<u8>, Seq<u8>>, identifier: Seq<u8>, handle: Seq<u8>) -> bool {
    !m.contains_key(identifier) || m[identifier] == handle
}

/// The registry state after a commit of `handle` under `identifier`: the
/// entry is added when the commit is accepted, and nothing changes when it
/// is refused.
pub open spec fn committed(
    m: Map<Seq<u8>, Seq<u8>>,
    identifier: Seq<u8>,
    handle: Seq<u8>,
) -> Map<Seq<u8>, Seq<u8>> {
    if commit_ok(m, identifier, handle) {
        m.insert(identifier, handle)
    } else {
        m
    }
}

/// The map named by an entry list: later entries win, though the registry's
/// well-formedness keeps keys distinct so the question never arises.
pub open spec fn map_of(entries: Seq<(Vec<u8>, Vec<u8>)>) -> Map<Seq<u8>, Seq<u8>>
    decreases entries.len(),
{
    if entries.len() == 0 {
        Map::empty()
    } else {
        map_of(entries.drop_last()).insert(entries.last().0@, entries.last().1@)
    }
}

/// Keys of an entry list are pairwise distinct.
pub open spec fn distinct_keys(entries: Seq<(Vec<u8>, Vec<u8>)>) -> bool {
    forall|p: int, q: int| 0 <= p < q < entries.len() ==> entries[p].0@ != entries[q].0@
}

proof fn lemma_map_of_domain(entries: Seq<(Vec<u8>, Vec<u8>)>, k: Seq<u8>)
    ensures
        map_of(entries).contains_key(k) <==> exists|i: int|
            0 <= i < entries.len() && entries[i].0@ == k,
    decreases entries.len(),
{
    if entries.len() > 0 {
        lemma_map_of_domain(entries.drop_last(), k);
        if entries.last().0@ == k {
            assert(entries[entries.len() - 1].0@ == k);
        } else if map_of(entries.drop_last()).contains_key(k) {
            let i = choose|i: int|
                0 <= i < entries.drop_last().len() && entries.drop_last()[i].0@ == k;
            assert(entries[i].0@ == k);
        } else {
            assert forall|i: int| 0 <= i < entries.len() implies entries[i].0@ != k by {
                if i < entries.len() - 1 {
                    assert(entries.drop_last()[i].0@ == entries[i].0@);
                }
            }
        }
    }
}

proof fn lemma_map_of_value(entries: Seq<(Vec<u8>, Vec<u8>)>, i: int)
    requires
        0 <= i < entries.len(),
        distinct_keys(entries),
    ensures
        map_of(entries).contains_key(entries[i].0@),
        map_of(entries)[entries[i].0@] == entries[i].1@,
    decreases entries.len(),
{
    if i == entries.len() - 1 {
        assert(entries.last() == entries[i]);
    } else {
        assert(distinct_keys(entries.drop_last()));
        assert(entries.drop_last()[i] == entries[i]);
        lemma_map_of_value(entries.drop_last(), i);
        assert(entries[i].0@ != entries.last().0@);
    }
}

/// The durable identifier-to-handle registry.
pub struct IdentifierRegistry {
    entries: Vec<(Vec<u8>, Vec<u8>)>,
}

impl View for IdentifierRegistry {
    type V = Map<Seq<u8>, Seq<u8>>;

    closed spec fn view(&self) -> Map<Seq<u8>, Seq<u8>> {
        map_of(self.entries@)
    }
}

impl IdentifierRegistry {
    /// One identifier resolves to at most one handle.
    pub closed spec fn wf(&self) -> bool {
        distinct_keys(self.entries@)
    }

    /// An empty registry: no identifier is claimed.
    pub fn new() -> (r: Self)
        ensures
            r.wf(),
            r@ == Map::<Seq<u8>, Seq<u8>>::empty(),
    {
        IdentifierRegistry { entries: Vec::new() }
    }

    /// Looks an identifier up, returning its resolved handle if one was ever
    /// committed.
    pub fn lookup(&self, identifier: &Vec<u8>) -> (r: Option<Vec<u8>>)
        requires
            self.wf(),
        ensures
            match r {
                Some(h) => self@.contains_key(identifier@) && h@ == self@[identifier@],
                None => !self@.contains_key(identifier@),
            },
    {
        let mut i: usize = 0;
        while i < self.entries.len()
            invariant
                self.wf(),
                i <= self.entries.len(),
                forall|j: int| 0 <= j < i ==> self.entries@[j].0@ != identifier@,
            decreases self.entries.len() - i,
        {
            if bytes_eq(&self.entries[i].0, identifier) {
                proof {
                    lemma_map_of_value(self.entries@, i as int);
                }
                return Some(clone_bytes(&self.entries[i].1));
            }
            i = i + 1;
        }
        proof {
            lemma_map_of_domain(self.entries@, identifier@);
        }
        None
    }

    /// The duplicate check made before a workflow starts: true when the
    /// identifier is still unclaimed.  Nothing is written: an in-flight
    /// identifier is represented by absence, not by a placeholder.
    pub fn reserve_check(&self, identifier: &Vec<u8>) -> (r: bool)
        requires
            self.wf(),
        ensures
            r == !self@.contains_key(identifier@),
    {
        self.lookup(identifier).is_none()
    }

    /// Records that an identifier resolved to a handle.  Returns whether the
    /// commit was accepted; a conflicting handle for an already-resolved
    /// identifier is refused and the registry is left untouched.
    pub fn commit(&mut self, identifier: Vec<u8>, handle: Vec<u8>) -> (r: bool)
        requires
            old(self).wf(),
        ensures
            final(self).wf(),
            r == commit_ok(old(self)@, identifier@, handle@),
            final(self)@ == committed(old(self)@, identifier@, handle@),
    {
        let mut i: usize = 0;
        while i < self.entries.len()
            invariant
                self.wf(),
                i <= self.entries.len(),
                self == old(self),
                forall|j: int| 0 <= j < i ==> self.entries@[j].0@ != identifier@,
            decreases self.entries.len() - i,
        {
            if bytes_eq(&self.entries[i].0, &identifier) {
                proof {
                    lemma_map_of_value(self.entries@, i as int);
                }
                if bytes_eq(&self.entries[i].1, &handle) {
                    proof {
                        assert(old(self)@.insert(identifier@, handle@) =~= old(self)@);
                    }
                    return true;
                } else {
                    return false;
                }
            }
            i = i + 1;
        }
        proof {
            lemma_map_of_domain(self.entries@, identifier@);
            assert(!old(self)@.contains_key(identifier@));
        }
        let ghost before = self.entries@;
        self.entries.push((identifier, handle));
        proof {
            assert(self.entries@.drop_last() =~= before);
            assert(forall|j: int|
                0 <= j < before.len() ==> self.entries@[j].0@ != self.entries@.last().0@);
            assert(forall|p: int, q: int|
                0 <= p < q < self.entries@.len() - 1 ==> #[trigger] self.entries@[p].0@
                    != #[trigger] self.entries@[q].0@) by {
                assert(forall|j: int| 0 <= j < before.len() ==> self.entries@[j] == before[j]);
            }
        }
        true
    }
}

/// Committing a pair a second time is accepted and changes nothing: the
/// registry after two identical commits is the registry after one, whatever
/// state it started in.
pub proof fn lemma_commit_idempotent(m: Map<Seq<u8>, Seq<u8>>, identifier: Seq<u8>, handle: Seq<u8>)
    ensures
        commit_ok(m, identifier, handle) ==> commit_ok(
            committed(m, identifier, handle),
            identifier,
            handle,
        ),
        committed(committed(m, identifier, handle), identifier, handle) == committed(
            m,
            identifier,
            handle,
        ),
{
    if commit_ok(m, identifier, handle) {
        assert(committed(committed(m, identifier, handle), identifier, handle) =~= committed(
            m,
            identifier,
            handle,
        ));
    }
}

/// A conflicting handle for an already-resolved identifier is refused, and
/// the refused commit leaves the registry exactly as it was.
pub proof fn lemma_commit_conflict_refused(
    m: Map<Seq<u8>, Seq<u8>>,
    identifier: Seq<u8>,
    handle: Seq<u8>,
    other: Seq<u8>,
)
    requires
        commit_ok(m, identifier, handle),
        handle != other,
    ensures
        !commit_ok(committed(m, identifier, handle), identifier, other),
        committed(committed(m, identifier, handle), identifier, other) == committed(
            m,
            identifier,
            handle,
        ),
{
}

/// An entry, once present, survives every later commit with its handle
/// unchanged: identifiers are permanently claimed on first resolution.
pub proof fn lemma_commit_preserves_existing(
    m: Map<Seq<u8>, Seq<u8>>,
    identifier: Seq<u8>,
    handle: Seq<u8>,
    k: Seq<u8>,
)
    requires
        m.contains_key(k),
    ensures
        committed(m, identifier, handle).contains_key(k),
        committed(m, identifier, handle)[k] == m[k],
{
}

/// A commit under one identifier neither creates nor changes an entry for
/// any other identifier.
pub proof fn lemma_commit_frames_others(
    m: Map<Seq<u8>, Seq<u8>>,
    identifier: Seq<u8>,
    handle: Seq<u8>,
    k: Seq<u8>,
)
    requires
        k != identifier,
    ensures
        committed(m, identifier, handle).contains_key(k) == m.contains_key(k),
        m.contains_key(k) ==> committed(m, identifier, handle)[k] == m[k],
{
}

/// The registry state after a whole sequence of commits, applied in order.
/// Commits are the only way the registry ever changes, so a fact that holds
/// of `committed_all` for every `ops` holds of every reachable registry.
pub open spec fn committed_all(
    m: Map<Seq<u8>, Seq<u8>>,
    ops: Seq<(Seq<u8>, Seq<u8>)>,
) -> Map<Seq<u8>, Seq<u8>>
    decreases ops.len(),
{
    if ops.len() == 0 {
        m
    } else {
        committed(committed_all(m, ops.drop_last()), ops.last().0, ops.last().1)
    }
}

/// An entry, once present, is never removed or changed by any number of
/// later commits: a resolved identifier never resolves differently again.
pub proof fn lemma_entry_survives_all_commits(
    m: Map<Seq<u8>, Seq<u8>>,
    ops: Seq<(Seq<u8>, Seq<u8>)>,
    k: Seq<u8>,
)
    requires
        m.contains_key(k),
    ensures
        committed_all(m, ops).contains_key(k),
        committed_all(m, ops)[k] == m[k],
    decreases ops.len(),
{
    if ops.len() > 0 {
        lemma_entry_survives_all_commits(m, ops.drop_last(), k);
        lemma_commit_preserves_existing(
            committed_all(m, ops.drop_last()),
            ops.last().0,
            ops.last().1,
            k,
        );
    }
}

/// An identifier that no commit mentions is never created: as long as no
/// issue call for it succeeds, no entry for it ever appears.
pub proof fn lemma_absent_stays_absent(
    m: Map<Seq<u8>, Seq<u8>>,
    ops: Seq<(Seq<u8>, Seq<u8>)>,
    k: Seq<u8>,
)
    requires
        !m.contains_key(k),
        forall|i: int| 0 <= i < ops.len() ==> ops[i].0 != k,
    ensures
        !committed_all(m, ops).contains_key(k),
    decreases ops.len(),
{
    if ops.len() > 0 {
        assert(forall|i: int| 0 <= i < ops.len() - 1 ==> ops.drop_last()[i].0 != k);
        lemma_absent_stays_absent(m, ops.drop_last(), k);
        assert(ops[ops.len() - 1].0 != k);
        lemma_commit_frames_others(
            committed_all(m, ops.drop_last()),
            ops.last().0,
            ops.last().1,
            k,
        );
    }
}

/// A fresh identifier's first commit is accepted and resolves the
/// identifier to that handle; any later commit, for it or for another
/// identifier, still finds it resolved to the same handle.
pub proof fn lemma_fresh_commit_resolves(
    m: Map<Seq<u8>, Seq<u8>>,
    identifier: Seq<u8>,
    handle: Seq<u8>,
    later_identifier: Seq<u8>,
    later_handle: Seq<u8>,
)
    requires
        !m.contains_key(identifier),
    ensures
        commit_ok(m, identifier, handle),
        committed(m, identifier, handle).contains_key(identifier),
        committed(m, identifier, handle)[identifier] == handle,
        committed(committed(m, identifier, handle), later_identifier, later_handle).contains_key(
            identifier,
        ),
        committed(committed(m, identifier, handle), later_identifier, later_handle)[identifier]
            == handle,
{
    lemma_commit_preserves_existing(
        committed(m, identifier, handle),
        later_identifier,
        later_handle,
        identifier,
    );
}

} // verus!
