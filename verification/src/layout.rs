use vstd::prelude::*;
use vstd::utf8::encode_scalar;
use vstd::utf8::encode_utf8;

use crate::tweet::content_fits;
use crate::tweet::create_result;
use crate::tweet::topic_fits;
use crate::tweet::Tweet;
use crate::tweet::TweetView;

verus! {

/// Bytes the storage medium reserves at the front of a slot for its
/// record-format tag.
pub const DISCRIMINATOR_LENGTH: usize = 8;

/// Bytes of the author's public identity.
pub const PUBLIC_KEY_LENGTH: usize = 32;

/// Bytes of the creation timestamp.
pub const TIMESTAMP_LENGTH: usize = 8;

/// Bytes of the length prefix written before each text field.
pub const STRING_LENGTH_PREFIX: usize = 4;

/// Worst-case bytes of a topic: 50 characters at up to 4 encoded bytes each.
pub const MAX_TOPIC_LENGTH: usize = 50 * 4;

/// Worst-case bytes of a body: 280 characters at up to 4 encoded bytes each.
pub const MAX_CONTENT_LENGTH: usize = 280 * 4;

impl Tweet {
    /// The fixed storage budget of one record: the slot is sized for the
    /// worst-case byte expansion of both texts, never for their actual
    /// encoded size, so it can be reserved before the content is known.
    pub const LEN: usize = DISCRIMINATOR_LENGTH + PUBLIC_KEY_LENGTH + TIMESTAMP_LENGTH
        + STRING_LENGTH_PREFIX + MAX_TOPIC_LENGTH + STRING_LENGTH_PREFIX + MAX_CONTENT_LENGTH;
}

/// The exact number of bytes a record occupies when serialized: the format
/// tag, the author, the timestamp, and each text as a length prefix followed
/// by its UTF-8 bytes.
pub open spec fn serialized_len(t: TweetView) -> int {
    DISCRIMINATOR_LENGTH + PUBLIC_KEY_LENGTH + TIMESTAMP_LENGTH + STRING_LENGTH_PREFIX
        + encode_utf8(t.topic).len() + STRING_LENGTH_PREFIX + encode_utf8(t.content).len()
}

/// How many bytes a caller must reserve for a record before creating it.
///
/// Total, and the same on every call: the fixed sum of the layout parts,
/// 8 + 32 + 8 + 4 + 200 + 4 + 1120 = 1376.
pub fn required_storage_size() -> (n: usize)
    ensures
        n == Tweet::LEN,
        n == 1376,
{
    Tweet::LEN
}

/// The UTF-8 encoding of a text takes at most four bytes per character.
pub proof fn lemma_encoded_len_at_most_4x(s: Seq<char>)
    ensures
        encode_utf8(s).len() <= 4 * s.len(),
    decreases s.len(),
{
    if s.len() > 0 {
        lemma_encoded_len_at_most_4x(s.drop_first());
        assert(encode_scalar(s[0] as u32).len() <= 4);
    }
}

/// A record whose texts are within the character bounds serializes to at
/// most the reserved budget, even when every character takes four bytes.
pub proof fn lemma_record_fits_reservation(t: TweetView)
    requires
        topic_fits(t.topic),
        content_fits(t.content),
    ensures
        serialized_len(t) <= Tweet::LEN,
{
    lemma_encoded_len_at_most_4x(t.topic);
    lemma_encoded_len_at_most_4x(t.content);
}

/// Every record that a creation request is answered with fits the
/// reservation: a slot of `Tweet::LEN` bytes is always enough.
pub proof fn lemma_accepted_record_fits(
    topic: Seq<char>,
    content: Seq<char>,
    author: Seq<u8>,
    now: i64,
)
    requires
        create_result(topic, content, author, now) is Ok,
    ensures
        serialized_len(create_result(topic, content, author, now)->Ok_0) <= Tweet::LEN,
{
    lemma_record_fits_reservation(create_result(topic, content, author, now)->Ok_0);
}

} // verus!
