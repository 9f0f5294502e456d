//! The HTTP contract: what status code and body each route answers with.
//!
//! A reply here is a status code and a body; the surrounding server turns
//! it into a real response. `GET /changelog` answers 404 on an empty
//! changelog (a preserved design choice), 200 with the JSON array
//! otherwise; `POST /changelog` answers 201 with the stored entry, 400 on
//! a malformed body, and any repository failure becomes a bare 500.

use vstd::prelude::*;
use crate::idgen::is_uuid_text;
use crate::json::{json_of_entries, json_of_entry, render_entries, render_entry, renderable};
use crate::models::{CreateEntry, Entry, EntryView};
use crate::repository::{entries_view, entry_wf, insert_sorted, Error as RepoError, Repository};
use crate::timestamp::MAX_TIMESTAMP_MICROS;

verus! {

/// A handler failure: an empty changelog, or a repository error carried
/// through to be rendered as a server error.
#[derive(Debug)]
pub enum Error {
    NotFound,
    RepoError(RepoError),
}

/// An HTTP response as the handlers decide it: a status code and a body.
#[derive(Debug)]
pub struct HttpReply {
    pub status: u16,
    pub body: String,
}

impl Error {
    /// The response for a failed request: 404 for an empty changelog, 500
    /// for a repository error, both with an empty body (no detail leaks to
    /// the client).
    pub fn error_response(&self) -> (r: HttpReply)
        ensures
            self is NotFound ==> r.status == 404,
            self is RepoError ==> r.status == 500,
            r.body@ == Seq::<char>::empty(),
    {
        match *self {
            Error::NotFound => HttpReply { status: 404, body: String::new() },
            Error::RepoError(_) => HttpReply { status: 500, body: String::new() },
        }
    }
}

/// Serves `GET /changelog`: an empty changelog is reported as not found,
/// otherwise the reply is 200 with the JSON array of every entry, newest
/// first.
pub fn get_changelog(repository: &Repository) -> (r: Result<HttpReply, Error>)
    requires
        repository.wf(),
    ensures
        repository@.len() == 0 <==> (r matches Err(e) && e is NotFound),
        repository@.len() > 0 ==> (r matches Ok(reply) && reply.status == 200 && reply.body@
            == json_of_entries(repository@)),
{
    let changelog = match repository.get_changelog() {
        Ok(v) => v,
        Err(e) => {
            return Err(Error::RepoError(e));
        },
    };
    if changelog.is_empty() {
        return Err(Error::NotFound);
    }
    proof {
        assert forall|i: int| 0 <= i < changelog@.len() implies crate::json::renderable(
            #[trigger] changelog@[i]@,
        ) by {
            assert(entry_wf(repository@[i]));
        }
    }
    let body = render_entries(&changelog);
    Ok(HttpReply { status: 200, body })
}

/// Serves `POST /changelog` once the body has been decoded: appends an
/// entry built from the client's fields and answers 201 with the stored
/// entry, whose `tags` and `text` are the client's unchanged. A repository
/// failure leaves the changelog as it was.
pub fn post_changelog(new_entry: CreateEntry, repository: &mut Repository) -> (r: Result<
    HttpReply,
    Error,
>)
    requires
        old(repository).wf(),
    ensures
        final(repository).wf(),
        match r {
            Ok(reply) => reply.status == 201 && final(repository)@.len() == old(repository)@.len()
                + 1 && (exists|e: EntryView|
                #[trigger] entry_created(
                    e,
                    new_entry@,
                    old(repository)@,
                    final(repository)@,
                    reply.body@,
                )),
            Err(err) => err is RepoError && final(repository)@ == old(repository)@,
        },
{
    let entry = match repository.add_entry(new_entry.into_candidate()) {
        Ok(e) => e,
        Err(e) => {
            return Err(Error::RepoError(e));
        },
    };
    let body = render_entry(&entry);
    let reply = HttpReply { status: 201, body };
    proof {
        let e = entry@;
        crate::repository::lemma_insert_sorted_len(old(repository)@, e);
        assert(entry_created(e, new_entry@, old(repository)@, repository@, reply.body@));
        assert(exists|ev: EntryView|
            #[trigger] entry_created(ev, new_entry@, old(repository)@, repository@, reply.body@));
    }
    Ok(reply)
}

/// What a successful `POST /changelog` promises of the (server-chosen)
/// stored entry `e`: the client's `tags` and `text` unchanged, a non-empty
/// well-formed server-assigned identity, the changelog grown by exactly
/// that entry at its newest-first position, and the reply body showing it.
pub open spec fn entry_created(
    e: EntryView,
    req: crate::models::CreateEntryView,
    before: Seq<EntryView>,
    after: Seq<EntryView>,
    body: Seq<char>,
) -> bool {
    &&& e.tags == req.tags
    &&& e.text == req.text
    &&& e.id.len() > 0
    &&& is_uuid_text(e.id)
    &&& entry_wf(e)
    &&& after == insert_sorted(before, e)
    &&& body == json_of_entry(e)
}

/// Serves a whole `GET /changelog` request, failures already rendered:
/// 404 with an empty body on an empty changelog, otherwise 200 with the
/// JSON array of every entry, newest first.
pub fn handle_get_changelog(repository: &Repository) -> (r: HttpReply)
    requires
        repository.wf(),
    ensures
        repository@.len() == 0 ==> r.status == 404 && r.body@ == Seq::<char>::empty(),
        repository@.len() > 0 ==> r.status == 200 && r.body@ == json_of_entries(repository@),
{
    match get_changelog(repository) {
        Ok(reply) => reply,
        Err(e) => e.error_response(),
    }
}

/// Serves a whole `POST /changelog` request. The caller hands over the
/// decoded body, or `None` when the body did not decode into the expected
/// shape; a malformed body is answered with 400 and performs no insert.
/// A decoded body is appended and answered with 201 showing the stored
/// entry, and a repository failure is a bare 500 with the changelog
/// unchanged.
pub fn handle_post_changelog(parsed: Option<CreateEntry>, repository: &mut Repository) -> (r:
    HttpReply)
    requires
        old(repository).wf(),
    ensures
        final(repository).wf(),
        parsed is None ==> r.status == 400 && final(repository)@ == old(repository)@,
        parsed matches Some(c) ==> {
            if r.status == 201 {
                final(repository)@.len() == old(repository)@.len() + 1 && (exists|e: EntryView|
                    #[trigger] entry_created(e, c@, old(repository)@, final(repository)@, r.body@))
            } else {
                r.status == 500 && final(repository)@ == old(repository)@
            }
        },
{
    let new_entry = match parsed {
        Some(c) => c,
        None => {
            return HttpReply { status: 400, body: String::new() };
        },
    };
    match post_changelog(new_entry, repository) {
        Ok(reply) => reply,
        Err(e) => e.error_response(),
    }
}

/// Every entry's timestamps fit the wire format.
pub open spec fn all_renderable(s: Seq<Entry>) -> bool {
    forall|i: int| 0 <= i < s.len() ==> renderable(#[trigger] s[i]@)
}

/// The timestamp-range test the wire format needs, as executable code.
fn entry_renderable(e: &Entry) -> (r: bool)
    ensures
        r == renderable(e@),
{
    0 < e.created_at && e.created_at <= MAX_TIMESTAMP_MICROS && 0 < e.updated_at
        && e.updated_at <= MAX_TIMESTAMP_MICROS
}

/// The `GET /changelog` decision over a fetched changelog, for a service
/// that keeps the entries elsewhere: 404 with an empty body when there are
/// none, 200 with the JSON array of all of them in the given order when
/// every timestamp fits the wire format, and a bare 500 (a mapping
/// failure) otherwise.
pub fn changelog_reply(entries: &Vec<Entry>) -> (r: HttpReply)
    ensures
        entries@.len() == 0 ==> r.status == 404 && r.body@ == Seq::<char>::empty(),
        entries@.len() > 0 && all_renderable(entries@) ==> r.status == 200 && r.body@
            == json_of_entries(entries_view(entries@)),
        entries@.len() > 0 && !all_renderable(entries@) ==> r.status == 500 && r.body@
            == Seq::<char>::empty(),
{
    if entries.len() == 0 {
        return HttpReply { status: 404, body: String::new() };
    }
    let mut i: usize = 0;
    while i < entries.len()
        invariant
            i <= entries.len(),
            forall|k: int| 0 <= k < i ==> renderable(#[trigger] entries@[k]@),
        decreases entries.len() - i,
    {
        if !entry_renderable(&entries[i]) {
            return HttpReply { status: 500, body: String::new() };
        }
        i = i + 1;
    }
    let body = render_entries(entries);
    HttpReply { status: 200, body }
}

/// The `POST /changelog` success decision over a stored entry, for a
/// service that keeps the entries elsewhere: 201 with its JSON object when
/// its timestamps fit the wire format, and a bare 500 (a mapping failure)
/// otherwise.
pub fn created_reply(entry: &Entry) -> (r: HttpReply)
    ensures
        renderable(entry@) ==> r.status == 201 && r.body@ == json_of_entry(entry@),
        !renderable(entry@) ==> r.status == 500 && r.body@ == Seq::<char>::empty(),
{
    if entry_renderable(entry) {
        let body = render_entry(entry);
        HttpReply { status: 201, body }
    } else {
        HttpReply { status: 500, body: String::new() }
    }
}

/// Serves `GET /health`: always 200 with a fixed body.
pub fn health() -> (r: HttpReply)
    ensures
        r.status == 200,
        r.body@ == "Alive and well."@,
{
    let body: &str = "Alive and well.";
    HttpReply { status: 200, body: body.to_owned() }
}

} // verus!
