//! A model of the persistence boundary: the two independent tables the
//! system writes, with their invariants. Each insert appends a single row
//! and the store assigns `created_at` from a monotonically increasing
//! stamp, so listings ordered by recency are exact reversals of insertion
//! order. The relational store the application talks to is expected to
//! behave as this model does; its driver lives outside the library.

use vstd::prelude::*;
use vstd::string::StringExecFns;
use crate::validate::{valid_name, valid_message};
use crate::media::{filename_wf, ImageKind};

verus! {

/// One persisted text submission.
pub struct MessageRow {
    pub name: String,
    pub message: String,
    pub created_at: u64,
}

/// One persisted media record.
pub struct MediaRow {
    pub filename: String,
    pub created_at: u64,
}

/// The prefix under which accepted uploads are served.
pub open spec fn public_path_spec(filename: Seq<char>) -> Seq<char> {
    "/uploads/"@ + filename
}

/// Map a stored filename to the path under which it is served.
pub fn public_path(filename: &str) -> (r: String)
    ensures
        r@ == public_path_spec(filename@),
{
    let prefix = String::from_str("/uploads/");
    prefix.concat(filename)
}

/// The message table's invariant: every row passed validation, and
/// `created_at` increases strictly with insertion order, below `stamp`.
pub open spec fn messages_wf(rows: Seq<MessageRow>, stamp: u64) -> bool {
    &&& forall|i: int|
        0 <= i < rows.len() ==> valid_name((#[trigger] rows[i]).name@) && valid_message(
            rows[i].message@,
        )
    &&& forall|i: int, j: int|
        0 <= i < j < rows.len() ==> (#[trigger] rows[i]).created_at < (
        #[trigger] rows[j]).created_at
    &&& forall|i: int| 0 <= i < rows.len() ==> (#[trigger] rows[i]).created_at < stamp
}

/// A filename that is well formed for some accepted format.
pub open spec fn filename_wf_some(f: Seq<char>) -> bool {
    exists|k: ImageKind| filename_wf(f, k)
}

/// The media table's invariant: every row carries a well-formed generated
/// filename, and `created_at` increases strictly with insertion order,
/// below `stamp`.
pub open spec fn media_wf(rows: Seq<MediaRow>, stamp: u64) -> bool {
    &&& forall|i: int|
        0 <= i < rows.len() ==> filename_wf_some((#[trigger] rows[i]).filename@)
    &&& forall|i: int, j: int|
        0 <= i < j < rows.len() ==> (#[trigger] rows[i]).created_at < (
        #[trigger] rows[j]).created_at
    &&& forall|i: int| 0 <= i < rows.len() ==> (#[trigger] rows[i]).created_at < stamp
}

proof fn lemma_messages_wf_push(rows: Seq<MessageRow>, stamp: u64, row: MessageRow)
    requires
        messages_wf(rows, stamp),
        stamp < u64::MAX,
        valid_name(row.name@),
        valid_message(row.message@),
        row.created_at == stamp,
    ensures
        messages_wf(rows.push(row), (stamp + 1) as u64),
{
    let cur = rows.push(row);
    assert forall|i: int| 0 <= i < cur.len() implies valid_name((#[trigger] cur[i]).name@)
        && valid_message(cur[i].message@) by {
        if i < rows.len() {
            assert(cur[i] == rows[i]);
        } else {
            assert(cur[i] == row);
        }
    }
    assert forall|i: int, j: int|
        0 <= i < j < cur.len() implies (#[trigger] cur[i]).created_at < (
    #[trigger] cur[j]).created_at by {
        if i < rows.len() {
            assert(cur[i] == rows[i]);
        }
        if j < rows.len() {
            assert(cur[j] == rows[j]);
        } else {
            assert(cur[j] == row);
        }
    }
    assert forall|i: int| 0 <= i < cur.len() implies (#[trigger] cur[i]).created_at < stamp
        + 1 by {
        if i < rows.len() {
            assert(cur[i] == rows[i]);
        } else {
            assert(cur[i] == row);
        }
    }
}

proof fn lemma_messages_wf_bump(rows: Seq<MessageRow>, stamp: u64)
    requires
        messages_wf(rows, stamp),
        stamp < u64::MAX,
    ensures
        messages_wf(rows, (stamp + 1) as u64),
{
    assert forall|i: int| 0 <= i < rows.len() implies (#[trigger] rows[i]).created_at < stamp
        + 1 by {
        assert(rows[i].created_at < stamp);
    }
}

proof fn lemma_media_wf_push(rows: Seq<MediaRow>, stamp: u64, row: MediaRow)
    requires
        media_wf(rows, stamp),
        stamp < u64::MAX,
        filename_wf_some(row.filename@),
        row.created_at == stamp,
    ensures
        media_wf(rows.push(row), (stamp + 1) as u64),
{
    let cur = rows.push(row);
    assert forall|i: int| 0 <= i < cur.len() implies filename_wf_some(
        (#[trigger] cur[i]).filename@,
    ) by {
        if i < rows.len() {
            assert(cur[i] == rows[i]);
        } else {
            assert(cur[i] == row);
        }
    }
    assert forall|i: int, j: int|
        0 <= i < j < cur.len() implies (#[trigger] cur[i]).created_at < (
    #[trigger] cur[j]).created_at by {
        if i < rows.len() {
            assert(cur[i] == rows[i]);
        }
        if j < rows.len() {
            assert(cur[j] == rows[j]);
        } else {
            assert(cur[j] == row);
        }
    }
    assert forall|i: int| 0 <= i < cur.len() implies (#[trigger] cur[i]).created_at < stamp
        + 1 by {
        if i < rows.len() {
            assert(cur[i] == rows[i]);
        } else {
            assert(cur[i] == row);
        }
    }
}

proof fn lemma_media_wf_bump(rows: Seq<MediaRow>, stamp: u64)
    requires
        media_wf(rows, stamp),
        stamp < u64::MAX,
    ensures
        media_wf(rows, (stamp + 1) as u64),
{
    assert forall|i: int| 0 <= i < rows.len() implies (#[trigger] rows[i]).created_at < stamp
        + 1 by {
        assert(rows[i].created_at < stamp);
    }
}

/// The in-memory model of the store: both tables plus the stamp the next
/// insert will receive as `created_at`.
pub struct StoreModel {
    messages: Vec<MessageRow>,
    media: Vec<MediaRow>,
    next_stamp: u64,
}

impl StoreModel {
    /// The persisted text submissions, oldest first.
    pub closed spec fn messages(&self) -> Seq<MessageRow> {
        self.messages@
    }

    /// The persisted media records, oldest first.
    pub closed spec fn media(&self) -> Seq<MediaRow> {
        self.media@
    }

    /// The stamp the next insert will receive.
    pub closed spec fn next_stamp(&self) -> u64 {
        self.next_stamp
    }

    /// The store's invariant, over both tables and the next stamp.
    pub open spec fn wf(&self) -> bool {
        messages_wf(self.messages(), self.next_stamp()) && media_wf(
            self.media(),
            self.next_stamp(),
        )
    }

    /// An empty store.
    pub fn new() -> (s: StoreModel)
        ensures
            s.wf(),
            s.messages().len() == 0,
            s.media().len() == 0,
            s.next_stamp() == 0,
    {
        StoreModel { messages: Vec::new(), media: Vec::new(), next_stamp: 0 }
    }

    /// Append one validated text submission; the store assigns `created_at`.
    pub fn insert_message(&mut self, name: String, message: String)
        requires
            old(self).wf(),
            old(self).next_stamp() < u64::MAX,
            valid_name(name@),
            valid_message(message@),
        ensures
            final(self).wf(),
            final(self).messages() == old(self).messages().push(
                (MessageRow { name, message, created_at: old(self).next_stamp() }),
            ),
            final(self).media() == old(self).media(),
            final(self).next_stamp() == old(self).next_stamp() + 1,
    {
        let ghost prev = self.messages();
        let ghost prev_stamp = self.next_stamp;
        let created_at = self.next_stamp;
        self.messages.push(MessageRow { name, message, created_at });
        self.next_stamp = self.next_stamp + 1;
        proof {
            let row = (MessageRow { name, message, created_at: prev_stamp });
            assert(self.messages() == prev.push(row));
            lemma_messages_wf_push(prev, prev_stamp, row);
            lemma_media_wf_bump(self.media(), prev_stamp);
        }
    }

    /// Append one media record; the store assigns `created_at`.
    pub fn insert_media(&mut self, filename: String)
        requires
            old(self).wf(),
            old(self).next_stamp() < u64::MAX,
            filename_wf_some(filename@),
        ensures
            final(self).wf(),
            final(self).media() == old(self).media().push(
                (MediaRow { filename, created_at: old(self).next_stamp() }),
            ),
            final(self).messages() == old(self).messages(),
            final(self).next_stamp() == old(self).next_stamp() + 1,
    {
        let ghost prev = self.media();
        let ghost prev_stamp = self.next_stamp;
        let created_at = self.next_stamp;
        self.media.push(MediaRow { filename, created_at });
        self.next_stamp = self.next_stamp + 1;
        proof {
            let row = (MediaRow { filename, created_at: prev_stamp });
            assert(self.media() == prev.push(row));
            lemma_media_wf_push(prev, prev_stamp, row);
            lemma_messages_wf_bump(self.messages(), prev_stamp);
        }
    }

    /// How many text submissions are stored.
    pub fn message_count(&self) -> (n: usize)
        ensures
            n == self.messages().len(),
    {
        self.messages.len()
    }

    /// How many media records are stored.
    pub fn media_count(&self) -> (n: usize)
        ensures
            n == self.media().len(),
    {
        self.media.len()
    }

    /// The name and message of the stored submission at `i`, oldest first.
    pub fn message_at(&self, i: usize) -> (r: (String, String))
        requires
            i < self.messages().len(),
        ensures
            r.0@ == self.messages()[i as int].name@,
            r.1@ == self.messages()[i as int].message@,
    {
        let row = &self.messages[i];
        (row.name.clone(), row.message.clone())
    }

    /// All stored media as public paths, most recent first.
    pub fn list_media_paths(&self) -> (r: Vec<String>)
        ensures
            r@.len() == self.media().len(),
            forall|i: int|
                0 <= i < r@.len() ==> (#[trigger] r@[i])@ == public_path_spec(
                    self.media()[self.media().len() - 1 - i].filename@,
                ),
    {
        let n = self.media.len();
        let mut r: Vec<String> = Vec::new();
        let mut taken: usize = 0;
        while taken < n
            invariant
                taken <= n,
                n == self.media().len(),
                r@.len() == taken,
                forall|i: int|
                    0 <= i < taken ==> (#[trigger] r@[i])@ == public_path_spec(
                        self.media()[self.media().len() - 1 - i].filename@,
                    ),
            decreases n - taken,
        {
            let row = &self.media[n - 1 - taken];
            let path = public_path(row.filename.as_str());
            r.push(path);
            taken = taken + 1;
        }
        r
    }

    /// Law: the listing is most-recent-first — within the stored media,
    /// the row a listing places earlier was created strictly later.
    pub proof fn lemma_listing_order(&self, i: int, j: int)
        requires
            self.wf(),
            0 <= i < j < self.media().len(),
        ensures
            self.media()[self.media().len() - 1 - i].created_at > self.media()[self.media().len()
                - 1 - j].created_at,
    {
    }
}

} // verus!
