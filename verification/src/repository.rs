//! The repository: sole mediator between handlers and the stored changelog.
//!
//! The changelog is append-only. Each append stamps the candidate entry with
//! a fresh time-ordered id and the current time, and files it so that the
//! collection stays ordered by `created_at`, newest first. Retrieval returns
//! every stored entry in that order.

use vstd::prelude::*;
use crate::models::{Entry, EntryView};
use crate::timestamp::{now_micros, MAX_TIMESTAMP_MICROS};
use crate::idgen::{fresh_entry_id, is_uuid_text, ENTRY_ID_LEN};

verus! {

/// A persistence failure, split as the error taxonomy asks: trouble
/// obtaining a connection, or trouble running a statement or mapping
/// its result. The payload is a diagnostic message for the log; it is
/// never sent to a client.
#[derive(Debug)]
pub enum Error {
    Pool(String),
    Query(String),
}

/// What must hold of every stored entry: a non-empty id, a creation time
/// after the epoch and within the range the wire format can render, and
/// `updated_at` equal to `created_at` (entries are never updated).
pub open spec fn entry_wf(e: EntryView) -> bool {
    &&& e.id.len() > 0
    &&& 0 < e.created_at <= MAX_TIMESTAMP_MICROS as int
    &&& e.updated_at == e.created_at
}

/// Newest first: creation times never increase along the sequence.
pub open spec fn sorted_desc(s: Seq<EntryView>) -> bool {
    forall|i: int, j: int| 0 <= i <= j < s.len() ==> s[i].created_at >= s[j].created_at
}

/// Where an entry created at time `t` is filed in a newest-first sequence:
/// before the first entry that is no newer than `t`.
pub open spec fn insert_idx(s: Seq<EntryView>, t: int) -> int
    decreases s.len(),
{
    if s.len() == 0 {
        0
    } else if s[0].created_at <= t {
        0
    } else {
        1 + insert_idx(s.subrange(1, s.len() as int), t)
    }
}

/// The changelog after filing `e` at its position.
pub open spec fn insert_sorted(s: Seq<EntryView>, e: EntryView) -> Seq<EntryView> {
    s.insert(insert_idx(s, e.created_at), e)
}

/// `insert_idx` is in range, everything before it is strictly newer than
/// `t`, and the entry at it (if any) is no newer than `t`.
pub proof fn lemma_insert_idx(s: Seq<EntryView>, t: int)
    ensures
        0 <= insert_idx(s, t) <= s.len(),
        forall|j: int| 0 <= j < insert_idx(s, t) ==> #[trigger] s[j].created_at > t,
        insert_idx(s, t) < s.len() ==> s[insert_idx(s, t)].created_at <= t,
    decreases s.len(),
{
    if s.len() == 0 {
    } else if s[0].created_at <= t {
    } else {
        let tail = s.subrange(1, s.len() as int);
        lemma_insert_idx(tail, t);
        assert forall|j: int| 0 <= j < insert_idx(s, t) implies #[trigger] s[j].created_at
            > t by {
            if j > 0 {
                assert(tail[j - 1].created_at > t);
            }
        }
        if insert_idx(s, t) < s.len() {
            assert(s[insert_idx(s, t)] == tail[insert_idx(tail, t)]);
        }
    }
}

/// Any position with the properties of `lemma_insert_idx` is `insert_idx`.
pub proof fn lemma_insert_idx_unique(s: Seq<EntryView>, t: int, i: int)
    requires
        0 <= i <= s.len(),
        forall|j: int| 0 <= j < i ==> #[trigger] s[j].created_at > t,
        i < s.len() ==> s[i].created_at <= t,
    ensures
        i == insert_idx(s, t),
{
    let k = insert_idx(s, t);
    lemma_insert_idx(s, t);
    if i < k {
        assert(s[i].created_at > t);
    } else if k < i {
        assert(s[k].created_at > t);
    }
}

/// Filing an entry keeps the changelog newest-first.
pub proof fn lemma_insert_sorted_keeps_order(s: Seq<EntryView>, e: EntryView)
    requires
        sorted_desc(s),
    ensures
        sorted_desc(insert_sorted(s, e)),
{
    let t = e.created_at;
    let k = insert_idx(s, t);
    let s2 = insert_sorted(s, e);
    lemma_insert_idx(s, t);
    s.insert_ensures(k, e);
    assert forall|i: int, j: int| 0 <= i <= j < s2.len() implies s2[i].created_at
        >= s2[j].created_at by {
        if i < k && j < k {
        } else if i < k && j == k {
            assert(s[i].created_at > t);
        } else if i == k && j > k {
            assert(s[j - 1].created_at <= t);
        } else if i < k && j > k {
            assert(s2[i] == s[i] && s2[j] == s[j - 1]);
        } else if i > k && j > k {
            assert(s2[i] == s[i - 1] && s2[j] == s[j - 1]);
        }
    }
}

/// The changelog grows by exactly one entry at each append.
pub proof fn lemma_insert_sorted_len(s: Seq<EntryView>, e: EntryView)
    ensures
        insert_sorted(s, e).len() == s.len() + 1,
{
    lemma_insert_idx(s, e.created_at);
    s.insert_ensures(insert_idx(s, e.created_at), e);
}

/// An append adds the new entry and keeps every prior entry: as a bag,
/// the changelog after is the changelog before plus the new entry.
pub proof fn lemma_insert_sorted_multiset(s: Seq<EntryView>, e: EntryView)
    ensures
        insert_sorted(s, e).to_multiset() == s.to_multiset().insert(e),
{
    lemma_insert_idx(s, e.created_at);
    vstd::seq_lib::to_multiset_insert(s, insert_idx(s, e.created_at), e);
}

/// The changelog a well-formed repository serves is ordered by descending
/// creation time: what `GET /changelog` renders lists entries newest first.
pub proof fn lemma_changelog_newest_first(repository: &Repository)
    requires
        repository.wf(),
    ensures
        sorted_desc(repository@),
{
}

/// A first entry has the changelog to itself: appending to an empty
/// changelog yields exactly the one-entry sequence.
pub proof fn lemma_first_entry_alone(e: EntryView)
    ensures
        insert_sorted(Seq::<EntryView>::empty(), e) =~= seq![e],
{
    lemma_insert_idx(Seq::<EntryView>::empty(), e.created_at);
    Seq::<EntryView>::empty().insert_ensures(0, e);
}

/// An entry at least as new as everything stored is filed first.
pub proof fn lemma_newest_entry_first(s: Seq<EntryView>, e: EntryView)
    requires
        forall|j: int| 0 <= j < s.len() ==> #[trigger] s[j].created_at <= e.created_at,
    ensures
        insert_sorted(s, e)[0] == e,
{
    if s.len() > 0 {
        assert(s[0].created_at <= e.created_at);
    }
    assert(insert_idx(s, e.created_at) == 0);
    s.insert_ensures(0, e);
}

/// The views of a sequence of entries, element by element.
pub open spec fn entries_view(s: Seq<Entry>) -> Seq<EntryView> {
    Seq::new(s.len(), |i: int| s[i]@)
}

/// A candidate entry stamped with the given server-assigned fields, the
/// store untouched. For a clock reading inside the representable range the
/// result carries the client's `tags` and `text` unchanged together with
/// the given id and time; any other reading is a mapping failure.
pub fn stamp_entry_at(entry: Entry, id: String, now: i64) -> (r: Result<Entry, Error>)
    ensures
        if 0 < now <= MAX_TIMESTAMP_MICROS {
            r matches Ok(e) && e@.id == id@ && e@.tags == entry@.tags && e@.text == entry@.text
                && e@.created_at == now as int && e@.updated_at == now as int
        } else {
            r matches Err(err) && err is Query
        },
{
    if now <= 0 || now > MAX_TIMESTAMP_MICROS {
        return Err(Error::Query("system clock outside the representable range".to_owned()));
    }
    Ok(Entry { id, tags: entry.tags, text: entry.text, created_at: now, updated_at: now })
}

/// A candidate entry stamped as an append would stamp it -- a fresh
/// time-ordered id and the current time -- without storing it. The
/// production service builds the row it persists from this, so the
/// server-assigned fields come from the verified path. Fails only when
/// the clock reads outside the representable range; exactly when stamping
/// succeeds is pinned one call down, in `stamp_entry_at`, for every
/// reading.
pub fn stamp_entry(entry: Entry) -> (r: Result<Entry, Error>)
    ensures
        match r {
            Ok(e) => {
                &&& is_uuid_text(e@.id)
                &&& e@.tags == entry@.tags
                &&& e@.text == entry@.text
                &&& entry_wf(e@)
            },
            Err(err) => err is Query,
        },
{
    stamp_entry_at(entry, fresh_entry_id(), now_micros())
}

/// The persistence component. It owns the stored changelog and exposes
/// appending and retrieval as the only operations.
#[derive(Debug)]
pub struct Repository {
    entries: Vec<Entry>,
}

impl View for Repository {
    type V = Seq<EntryView>;

    closed spec fn view(&self) -> Seq<EntryView> {
        entries_view(self.entries@)
    }
}

impl Repository {
    /// The repository's invariant: stored newest-first, every entry
    /// well-formed.
    pub open spec fn wf(&self) -> bool {
        &&& sorted_desc(self@)
        &&& forall|i: int| 0 <= i < self@.len() ==> entry_wf(#[trigger] self@[i])
    }

    /// An empty changelog.
    pub fn new() -> (r: Self)
        ensures
            r@ == Seq::<EntryView>::empty(),
            r.wf(),
    {
        let r = Repository { entries: Vec::new() };
        proof {
            assert(r@ =~= Seq::<EntryView>::empty());
        }
        r
    }

    /// Appends `entry` under the given id and clock reading. For a reading
    /// inside the representable range the append succeeds: the stored
    /// changelog afterwards is the one before with the returned entry filed
    /// at its newest-first position, and the returned entry carries the
    /// client's `tags` and `text` unchanged together with the given id and
    /// time. For any other reading nothing is stored and the mapping
    /// failure is returned.
    pub fn add_entry_at(&mut self, entry: Entry, id: String, now: i64) -> (r: Result<
        Entry,
        Error,
    >)
        requires
            old(self).wf(),
            id@.len() > 0,
        ensures
            final(self).wf(),
            if 0 < now <= MAX_TIMESTAMP_MICROS {
                r matches Ok(e) && e@.id == id@ && e@.tags == entry@.tags && e@.text
                    == entry@.text && e@.created_at == now as int && e@.updated_at == now as int
                    && final(self)@ == insert_sorted(old(self)@, e@)
            } else {
                r matches Err(err) && err is Query && final(self)@ == old(self)@
            },
    {
        let e = match stamp_entry_at(entry, id, now) {
            Ok(e) => e,
            Err(err) => {
                return Err(err);
            },
        };
        let r = e.clone();
        let mut i: usize = 0;
        while i < self.entries.len() && self.entries[i].created_at > now
            invariant
                *self == *old(self),
                i <= self.entries.len(),
                forall|j: int| 0 <= j < i ==> #[trigger] self@[j].created_at > now as int,
            decreases self.entries.len() - i,
        {
            assert(self@[i as int].created_at > now as int);
            i = i + 1;
        }
        proof {
            lemma_insert_idx_unique(old(self)@, now as int, i as int);
        }
        self.entries.insert(i, e);
        proof {
            let ov = old(self)@;
            let oe = old(self).entries@;
            oe.insert_ensures(i as int, e);
            ov.insert_ensures(i as int, r@);
            assert forall|k: int| 0 <= k < self@.len() implies self@[k] == ov.insert(
                i as int,
                r@,
            )[k] by {
                if k < i as int {
                    assert(self.entries@[k] == oe[k]);
                } else if k == i as int {
                    assert(self.entries@[k] == e);
                } else {
                    assert(self.entries@[k] == oe[k - 1]);
                }
            }
            assert(self@ =~= insert_sorted(ov, r@));
            lemma_insert_sorted_keeps_order(ov, r@);
            lemma_insert_sorted_len(ov, r@);
        }
        Ok(r)
    }

    /// Appends a candidate entry. Whatever id or timestamps the candidate
    /// carries are ignored: a fresh time-ordered id and the current time are
    /// assigned. Fails only when the system clock reads outside the range
    /// the wire format can represent, and then changes nothing; exactly when
    /// an append succeeds is pinned one call down, in `add_entry_at`, for
    /// every clock reading.
    pub fn add_entry(&mut self, entry: Entry) -> (r: Result<Entry, Error>)
        requires
            old(self).wf(),
        ensures
            final(self).wf(),
            match r {
                Ok(e) => {
                    &&& is_uuid_text(e@.id)
                    &&& e@.id.len() == ENTRY_ID_LEN as int
                    &&& e@.tags == entry@.tags
                    &&& e@.text == entry@.text
                    &&& entry_wf(e@)
                    &&& final(self)@ == insert_sorted(old(self)@, e@)
                },
                Err(err) => final(self)@ == old(self)@ && err is Query,
            },
    {
        let id = fresh_entry_id();
        let now = now_micros();
        self.add_entry_at(entry, id, now)
    }

    /// Returns the full changelog, newest first: the result holds exactly
    /// the stored entries, in order. An empty changelog is an empty vector,
    /// not an error.
    pub fn get_changelog(&self) -> (r: Result<Vec<Entry>, Error>)
        ensures
            r matches Ok(v) && entries_view(v@) == self@,
    {
        let mut v: Vec<Entry> = Vec::new();
        let mut i: usize = 0;
        while i < self.entries.len()
            invariant
                i <= self.entries.len(),
                v@.len() == i as int,
                entries_view(v@) =~= self@.subrange(0, i as int),
            decreases self.entries.len() - i,
        {
            let c = self.entries[i].clone();
            let ghost prev = v@;
            v.push(c);
            proof {
                assert(v@ == prev.push(c));
                assert forall|k: int| 0 <= k < v@.len() implies entries_view(v@)[k]
                    == self@.subrange(0, i as int + 1)[k] by {
                    if k < i as int {
                        assert(prev.push(c)[k] == prev[k]);
                        assert(entries_view(prev)[k] == self@.subrange(0, i as int)[k]);
                    } else {
                        assert(prev.push(c)[k] == c);
                    }
                }
                assert(entries_view(v@) =~= self@.subrange(0, i as int + 1));
            }
            i = i + 1;
        }
        proof {
            assert(entries_view(v@) =~= self@);
        }
        Ok(v)
    }
}

} // verus!
