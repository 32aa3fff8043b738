//! The live meme service: its record and the address a query goes to.

use vstd::prelude::*;
use crate::text::join;

verus! {

/// Address of the meme service, up to the optional topic.
pub const MEME_ENDPOINT: &'static str = "https://meme-api.herokuapp.com/gimme/";

/// One meme as the service describes it.
#[derive(Default, Debug, Clone, PartialEq)]
pub struct Meme {
    pub post_link: String,
    pub subreddit: String,
    pub title: String,
    pub url: String,
    pub nsfw: bool,
    pub spoiler: bool,
    pub author: String,
    pub ups: i64,
    pub preview: Vec<String>,
}

/// Why a live query gave no meme.
#[derive(Debug, Clone, Copy, PartialEq, Eq)]
pub enum QueryFailure {
    /// The request could not be sent or its answer not received.
    Transport,
    /// The service answered with a status other than success.
    Status(u16),
    /// The answer was not a meme record.
    Malformed,
}

/// The topic as it stands in the address: the topic itself, or nothing.
pub open spec fn topic_segment(topic: Option<&str>) -> Seq<char> {
    match topic {
        Some(t) => t@,
        None => Seq::empty(),
    }
}

/// The address of a live query: the endpoint followed by the topic, if any.
pub fn meme_request_url(topic: Option<&str>) -> (r: String)
    ensures
        r@ == MEME_ENDPOINT@ + topic_segment(topic),
{
    match topic {
        Some(t) => join(MEME_ENDPOINT, t),
        None => {
            let r = String::from_str(MEME_ENDPOINT);
            assert(r@ =~= MEME_ENDPOINT@ + Seq::<char>::empty());
            r
        },
    }
}

} // verus!
