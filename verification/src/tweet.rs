use vstd::prelude::*;
use vstd::string::StrSliceExecFns;

use crate::error::ErrorCode;

verus! {

/// Most characters a topic may hold, counted as Unicode characters, not bytes.
pub const MAX_TOPIC_CHARS: usize = 50;

/// Most characters a body may hold, counted as Unicode characters, not bytes.
pub const MAX_CONTENT_CHARS: usize = 280;

/// One message of the board: born fully formed in a single creation step and
/// never mutated afterwards.
#[derive(Clone, Debug)]
pub struct Tweet {
    /// The creator's public identity, fixed at creation.
    pub author: [u8; 32],
    /// Seconds since the epoch, taken from the clock the caller supplied.
    pub timestamp: i64,
    /// Short label for the message, at most 50 characters, stored verbatim.
    pub topic: String,
    /// The message text, at most 280 characters, stored verbatim.
    pub content: String,
}

/// The mathematical model of a record: the contracts of this crate speak of
/// records through this view.
pub ghost struct TweetView {
    pub author: Seq<u8>,
    pub timestamp: int,
    pub topic: Seq<char>,
    pub content: Seq<char>,
}

impl View for Tweet {
    type V = TweetView;

    open spec fn view(&self) -> TweetView {
        TweetView {
            author: self.author@,
            timestamp: self.timestamp as int,
            topic: self.topic@,
            content: self.content@,
        }
    }
}

/// Whether a topic is within the 50-character bound.
pub open spec fn topic_fits(topic: Seq<char>) -> bool {
    topic.len() <= MAX_TOPIC_CHARS
}

/// Whether a body is within the 280-character bound.
pub open spec fn content_fits(content: Seq<char>) -> bool {
    content.len() <= MAX_CONTENT_CHARS
}

/// The record a successful creation yields: the texts verbatim, the author
/// and the timestamp exactly as supplied.
pub open spec fn created_record(
    topic: Seq<char>,
    content: Seq<char>,
    author: Seq<u8>,
    now: i64,
) -> TweetView {
    TweetView { author, timestamp: now as int, topic, content }
}

/// The outcome `send_tweet` owes for each input: the topic bound is checked
/// first, then the body bound, and only a request that passes both yields a
/// record.
pub open spec fn create_result(
    topic: Seq<char>,
    content: Seq<char>,
    author: Seq<u8>,
    now: i64,
) -> Result<TweetView, ErrorCode> {
    if !topic_fits(topic) {
        Err(ErrorCode::TopicTooLong)
    } else if !content_fits(content) {
        Err(ErrorCode::ContentTooLong)
    } else {
        Ok(created_record(topic, content, author, now))
    }
}

/// Validate a creation request and build the record.
///
/// All validation runs before any part of the record is assembled; a
/// rejection leaves nothing behind. On success the returned record carries
/// the texts unchanged, the given author, and the given time.
pub fn send_tweet(topic: String, content: String, author: [u8; 32], now: i64) -> (result: Result<
    Tweet,
    ErrorCode,
>)
    ensures
        ({
            let r = create_result(topic@, content@, author@, now);
            match result {
                Ok(t) => r == Ok::<TweetView, ErrorCode>(t@),
                Err(e) => r == Err::<TweetView, ErrorCode>(e),
            }
        }),
{
    if topic.as_str().unicode_len() > MAX_TOPIC_CHARS {
        return Err(ErrorCode::TopicTooLong);
    }
    if content.as_str().unicode_len() > MAX_CONTENT_CHARS {
        return Err(ErrorCode::ContentTooLong);
    }
    Ok(Tweet { author, timestamp: now, topic, content })
}

/// Every request whose topic is within 50 characters and whose body is
/// within 280 characters is accepted, and the record carries both texts
/// exactly as given, with the given author and time.
pub proof fn lemma_within_bounds_accepted(
    topic: Seq<char>,
    content: Seq<char>,
    author: Seq<u8>,
    now: i64,
)
    requires
        topic_fits(topic),
        content_fits(content),
    ensures
        create_result(topic, content, author, now) == Ok::<TweetView, ErrorCode>(
            created_record(topic, content, author, now),
        ),
        create_result(topic, content, author, now)->Ok_0.topic == topic,
        create_result(topic, content, author, now)->Ok_0.content == content,
{
}

/// A topic one character over the bound is rejected as `TopicTooLong`,
/// whatever the body holds.
pub proof fn lemma_topic_over_bound_rejected(
    topic: Seq<char>,
    content: Seq<char>,
    author: Seq<u8>,
    now: i64,
)
    requires
        topic.len() == MAX_TOPIC_CHARS + 1,
    ensures
        create_result(topic, content, author, now) == Err::<TweetView, ErrorCode>(
            ErrorCode::TopicTooLong,
        ),
{
}

/// A body one character over the bound is rejected as `ContentTooLong`,
/// for every topic that is itself within bounds. (A topic over its own bound
/// takes precedence: the request is then rejected as `TopicTooLong`.)
pub proof fn lemma_content_over_bound_rejected(
    topic: Seq<char>,
    content: Seq<char>,
    author: Seq<u8>,
    now: i64,
)
    requires
        topic_fits(topic),
        content.len() == MAX_CONTENT_CHARS + 1,
    ensures
        create_result(topic, content, author, now) == Err::<TweetView, ErrorCode>(
            ErrorCode::ContentTooLong,
        ),
{
}

/// Boundary exactness: a topic of exactly 50 characters together with a body
/// of exactly 280 characters is accepted.
pub proof fn lemma_boundaries_accepted(
    topic: Seq<char>,
    content: Seq<char>,
    author: Seq<u8>,
    now: i64,
)
    requires
        topic.len() == MAX_TOPIC_CHARS,
        content.len() == MAX_CONTENT_CHARS,
    ensures
        create_result(topic, content, author, now) == Ok::<TweetView, ErrorCode>(
            created_record(topic, content, author, now),
        ),
{
}

/// No deduplication: two creations with the same texts but a different
/// author or a different time yield distinct records.
pub proof fn lemma_distinct_creations(
    topic: Seq<char>,
    content: Seq<char>,
    author1: Seq<u8>,
    now1: i64,
    author2: Seq<u8>,
    now2: i64,
)
    requires
        author1 != author2 || now1 != now2,
    ensures
        created_record(topic, content, author1, now1) != created_record(
            topic,
            content,
            author2,
            now2,
        ),
{
}

} // verus!
