//! The changelog entry: the sole domain entity, and the shape of a request
//! to create one.
//!
//! Timestamps are held as microseconds since the Unix epoch; the wire
//! representation formats them as RFC 3339 strings.

use vstd::prelude::*;

verus! {

/// The mathematical value of an [`Entry`]: every string as a sequence of
/// characters, every timestamp as an unbounded integer.
pub struct EntryView {
    pub id: Seq<char>,
    pub tags: Seq<Seq<char>>,
    pub text: Seq<char>,
    pub created_at: int,
    pub updated_at: int,
}

/// A single changelog record. `id`, `created_at` and `updated_at` are
/// assigned by the repository at creation time and never supplied by a
/// client; `tags` and `text` come from the client.
#[derive(Debug)]
pub struct Entry {
    pub id: String,
    pub tags: Vec<String>,
    pub text: String,
    pub created_at: i64,
    pub updated_at: i64,
}

impl View for Entry {
    type V = EntryView;

    open spec fn view(&self) -> EntryView {
        EntryView {
            id: self.id@,
            tags: self.tags.deep_view(),
            text: self.text@,
            created_at: self.created_at as int,
            updated_at: self.updated_at as int,
        }
    }
}

impl Default for Entry {
    /// An entry before the repository has assigned its server-side fields:
    /// every string empty, both timestamps zero.
    fn default() -> (r: Self)
        ensures
            r@.id == Seq::<char>::empty(),
            r@.tags == Seq::<Seq<char>>::empty(),
            r@.text == Seq::<char>::empty(),
            r@.created_at == 0,
            r@.updated_at == 0,
    {
        let r = Entry {
            id: String::new(),
            tags: Vec::new(),
            text: String::new(),
            created_at: 0,
            updated_at: 0,
        };
        proof {
            assert(r@.tags =~= Seq::<Seq<char>>::empty());
        }
        r
    }
}

impl Clone for Entry {
    /// A field-by-field copy: the clone has the same mathematical value.
    fn clone(&self) -> (r: Self)
        ensures
            r@ == self@,
    {
        let r = Entry {
            id: clone_string(&self.id),
            tags: clone_tags(&self.tags),
            text: clone_string(&self.text),
            created_at: self.created_at,
            updated_at: self.updated_at,
        };
        proof {
            assert(r@ =~= self@);
        }
        r
    }
}

/// Clones a string; the clone holds the same characters.
pub(crate) fn clone_string(s: &String) -> (r: String)
    ensures
        r@ == s@,
{
    s.clone()
}

/// Clones a tag list; the clone holds the same strings in the same order.
pub(crate) fn clone_tags(tags: &Vec<String>) -> (r: Vec<String>)
    ensures
        r.deep_view() == tags.deep_view(),
{
    let mut r: Vec<String> = Vec::new();
    let mut i: usize = 0;
    while i < tags.len()
        invariant
            i <= tags.len(),
            r@.len() == i as int,
            r.deep_view() =~= tags.deep_view().subrange(0, i as int),
        decreases tags.len() - i,
    {
        let c = clone_string(&tags[i]);
        let ghost prev = r@;
        r.push(c);
        proof {
            assert(r@ == prev.push(c));
            assert forall|k: int| 0 <= k < r@.len() implies r.deep_view()[k] == tags.deep_view()
                .subrange(0, i as int + 1)[k] by {
                if k < i as int {
                    assert(prev.push(c)[k] == prev[k]);
                    assert(prev[k].deep_view() == tags.deep_view().subrange(0, i as int)[k]);
                } else {
                    assert(prev.push(c)[k] == c);
                }
            }
            assert(r.deep_view() =~= tags.deep_view().subrange(0, i as int + 1));
        }
        i = i + 1;
    }
    proof {
        assert(r.deep_view() =~= tags.deep_view());
    }
    r
}

/// The mathematical value of a [`CreateEntry`].
pub struct CreateEntryView {
    pub text: Seq<char>,
    pub tags: Seq<Seq<char>>,
}

/// The body of a request to create an entry: the client-supplied fields
/// of a changelog entry.
#[derive(Debug)]
pub struct CreateEntry {
    pub text: String,
    pub tags: Vec<String>,
}

impl View for CreateEntry {
    type V = CreateEntryView;

    open spec fn view(&self) -> CreateEntryView {
        CreateEntryView { text: self.text@, tags: self.tags.deep_view() }
    }
}

impl CreateEntry {
    /// The candidate entry a request builds: the client's fields, with the
    /// server-assigned fields left at their defaults to be overwritten.
    pub fn into_candidate(self) -> (r: Entry)
        ensures
            r@.tags == self@.tags,
            r@.text == self@.text,
            r@.id == Seq::<char>::empty(),
            r@.created_at == 0,
            r@.updated_at == 0,
    {
        let mut r = Entry::default();
        r.tags = self.tags;
        r.text = self.text;
        r
    }
}

} // verus!
