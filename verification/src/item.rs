//! The remote records handled by the fetch queue.
//!
//! A fetched record is a tagged union over the kinds the remote service
//! publishes. The wire format tags each record with a string discriminator;
//! `decode_tag` maps that discriminator to a kind, folding unrecognized or
//! missing tags into `Unknown` rather than failing.

use vstd::prelude::*;
use vstd::string::StrSliceExecFns;

verus! {

/// Identifier of a remote record.
pub type ItemId = u32;

/// The kind of a remote record, as named by its wire discriminator.
#[derive(Clone, Copy, Debug, PartialEq, Eq, Structural)]
pub enum ItemKind {
    Story,
    Comment,
    Job,
    Poll,
    PollOption,
    Unknown,
}

/// A story record.
#[derive(Clone, Debug)]
pub struct StoryItem {
    pub id: ItemId,
    pub by: String,
    pub score: i32,
    /// Publication time, seconds since the Unix epoch.
    pub time: u64,
    pub text: String,
    pub title: String,
    pub url: String,
    pub domain: String,
    pub descendants: u32,
    pub children: Vec<ItemId>,
}

/// A comment record.
#[derive(Clone, Debug)]
pub struct CommentItem {
    pub id: ItemId,
    pub by: String,
    pub score: i32,
    /// Publication time, seconds since the Unix epoch.
    pub time: u64,
    pub text: String,
    pub children: Vec<ItemId>,
    pub parent: ItemId,
}

/// A job posting record.
#[derive(Clone, Debug)]
pub struct JobItem {
    pub id: ItemId,
    pub by: String,
    pub score: i32,
    /// Publication time, seconds since the Unix epoch.
    pub time: u64,
    pub title: String,
    pub url: String,
    pub domain: String,
}

/// A poll record.
#[derive(Clone, Debug)]
pub struct PollItem {
    pub id: ItemId,
}

/// One option of a poll.
#[derive(Clone, Debug)]
pub struct PollOptionItem {
    pub id: ItemId,
}

/// A remote record, immutable once fetched; a re-fetch replaces it wholesale.
#[derive(Clone, Debug)]
pub enum Item {
    Unknown,
    Story(StoryItem),
    Comment(CommentItem),
    Job(JobItem),
    Poll(PollItem),
    PollOption(PollOptionItem),
}

impl Item {
    /// The kind of this record.
    pub fn kind(&self) -> (k: ItemKind)
        ensures
            k == self.spec_kind(),
    {
        match self {
            Item::Unknown => ItemKind::Unknown,
            Item::Story(_) => ItemKind::Story,
            Item::Comment(_) => ItemKind::Comment,
            Item::Job(_) => ItemKind::Job,
            Item::Poll(_) => ItemKind::Poll,
            Item::PollOption(_) => ItemKind::PollOption,
        }
    }

    pub open spec fn spec_kind(&self) -> ItemKind {
        match self {
            Item::Unknown => ItemKind::Unknown,
            Item::Story(_) => ItemKind::Story,
            Item::Comment(_) => ItemKind::Comment,
            Item::Job(_) => ItemKind::Job,
            Item::Poll(_) => ItemKind::Poll,
            Item::PollOption(_) => ItemKind::PollOption,
        }
    }
}

/// The kind a wire discriminator names. A missing or unrecognized
/// discriminator resolves to `Unknown`; decoding never fails.
pub open spec fn spec_decode_tag(tag: Option<Seq<char>>) -> ItemKind {
    match tag {
        Some(t) => {
            if t == "story"@ {
                ItemKind::Story
            } else if t == "comment"@ {
                ItemKind::Comment
            } else if t == "job"@ {
                ItemKind::Job
            } else if t == "poll"@ {
                ItemKind::Poll
            } else if t == "pollopt"@ {
                ItemKind::PollOption
            } else {
                ItemKind::Unknown
            }
        },
        None => ItemKind::Unknown,
    }
}

/// Character-by-character string comparison.
fn str_eq(a: &str, b: &str) -> (r: bool)
    ensures
        r == (a@ == b@),
{
    let a_len = a.unicode_len();
    let b_len = b.unicode_len();
    if a_len != b_len {
        return false;
    }
    let mut i: usize = 0;
    while i < a_len
        invariant
            i <= a_len,
            a_len == a@.len(),
            a_len == b@.len(),
            forall|j: int| 0 <= j < i ==> a@[j] == b@[j],
        decreases a_len - i,
    {
        if a.get_char(i) != b.get_char(i) {
            return false;
        }
        i = i + 1;
    }
    proof {
        assert(a@ =~= b@);
    }
    true
}

/// Map the wire discriminator of a record to its kind.
///
/// `None` stands for a record without a discriminator field.
pub fn decode_tag(tag: Option<&str>) -> (k: ItemKind)
    ensures
        k == spec_decode_tag(match tag {
            Some(t) => Some(t@),
            None => None,
        }),
{
    match tag {
        Some(t) => {
            if str_eq(t, "story") {
                ItemKind::Story
            } else if str_eq(t, "comment") {
                ItemKind::Comment
            } else if str_eq(t, "job") {
                ItemKind::Job
            } else if str_eq(t, "poll") {
                ItemKind::Poll
            } else if str_eq(t, "pollopt") {
                ItemKind::PollOption
            } else {
                ItemKind::Unknown
            }
        },
        None => ItemKind::Unknown,
    }
}

} // verus!
