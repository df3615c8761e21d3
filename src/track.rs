//! Track records: what the player remembers about each queued item.
use vstd::prelude::*;

verus! {

/// The display title of a queued item.
pub struct SongTitle {
    pub text: String,
}

/// The re-playable source of a queued item: the query it was resolved from.
/// Looping re-enqueues this same source instead of resolving the query again.
pub struct SongSource {
    pub query: String,
}

/// The pairing of a display title with its re-playable source, attached to
/// every queued item.
pub struct TrackRecord {
    pub title: SongTitle,
    pub source: SongSource,
}

/// The title shown for an item whose resolver gave no title.
pub open spec fn fallback_title_spec() -> Seq<char> {
    seq!['<', 'U', 'N', 'K', 'N', 'O', 'W', 'N', '>']
}

/// The title that an item shows, given the title its metadata carried.
pub open spec fn shown_title(title: Option<Seq<char>>) -> Seq<char> {
    match title {
        Some(t) => t,
        None => fallback_title_spec(),
    }
}

/// Title shown for a track whose metadata carried no title.
pub fn fallback_title() -> (r: String)
    ensures
        r@ == fallback_title_spec(),
{
    let r = String::from_str("<UNKNOWN>");
    proof {
        reveal_strlit("<UNKNOWN>");
    }
    r
}

/// The metadata title when there is one, the fallback title otherwise.
pub fn title_or_fallback(title: Option<String>) -> (r: String)
    ensures
        r@ == shown_title(
            match title {
                Some(t) => Some(t@),
                None => None,
            },
        ),
{
    match title {
        Some(t) => t,
        None => fallback_title(),
    }
}

impl SongTitle {
    pub open spec fn view(&self) -> Seq<char> {
        self.text@
    }

    pub fn duplicate(&self) -> (r: SongTitle)
        ensures
            r == *self,
    {
        SongTitle { text: self.text.clone() }
    }
}

impl SongSource {
    pub open spec fn view(&self) -> Seq<char> {
        self.query@
    }

    pub fn duplicate(&self) -> (r: SongSource)
        ensures
            r == *self,
    {
        SongSource { query: self.query.clone() }
    }
}

impl TrackRecord {
    /// The record's title and source as plain text.
    pub open spec fn view(&self) -> (Seq<char>, Seq<char>) {
        (self.title@, self.source@)
    }

    /// The record attached when a resolved query is enqueued: the metadata
    /// title, or the fallback title when the metadata had none.
    pub fn new(title: Option<String>, query: String) -> (r: TrackRecord)
        ensures
            r@.0 == shown_title(
                match title {
                    Some(t) => Some(t@),
                    None => None,
                },
            ),
            r@.1 == query@,
    {
        TrackRecord { title: SongTitle { text: title_or_fallback(title) }, source: SongSource { query } }
    }

    /// A fresh record with the same title and the same source, used to
    /// re-enqueue a finished item.
    pub fn renew(&self) -> (r: TrackRecord)
        ensures
            r == *self,
    {
        TrackRecord { title: self.title.duplicate(), source: self.source.duplicate() }
    }
}

} // verus!
