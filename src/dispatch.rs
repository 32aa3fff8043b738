//! The command dispatcher: turns an inbound command into a reply, or into a
//! live query whose outcome is then turned into a reply.

use vstd::prelude::*;
use crate::cache::{serves, ResourceCache};
use crate::meme::{meme_request_url, Meme, QueryFailure, MEME_ENDPOINT};
use crate::select::select;
use crate::text::text_eq;

verus! {

/// Name of the command that answers from the cached gallery.
pub const CACHED_COMMAND: &'static str = "pepe";

/// Name of the command that answers with a live meme.
pub const LIVE_COMMAND: &'static str = "meme";

/// Text message that asks for a cached image.
pub const TEXT_TRIGGER: &'static str = "!pepe";

/// Reply when a live query fails.
pub const FALLBACK_REPLY: &'static str = "Error.";

/// Reply to a command name that is not known.
pub const UNMATCHED_REPLY: &'static str = "Unmatched application command name";

/// Reply when the cache cannot serve a pick.
pub const NOT_READY_REPLY: &'static str = "Internal error: the image cache is not ready.";

/// The kinds of command the bot answers.
#[derive(Debug, Clone, PartialEq, Eq)]
pub enum CommandKind {
    GetCachedImage,
    GetLiveImage(Option<String>),
    Unrecognized,
}

/// What the event handler is to do next.
#[derive(Debug, Clone, PartialEq, Eq)]
pub enum Action {
    /// Send this text as the reply.
    Reply(String),
    /// Log a warning with this text and send it as the reply.
    ReplyAndWarn(String),
    /// Log an error with this text and send it as the reply: the command
    /// could not be served because of a fault on this side.
    ReplyAndLogError(String),
    /// Query the meme service at this address, then reply with
    /// `live_image_reply` of the outcome.
    QueryLive(String),
}

/// The kind of a structured command with the given name and topic.
pub open spec fn command_of(name: Seq<char>, topic: Option<String>) -> CommandKind {
    if name == CACHED_COMMAND@ {
        CommandKind::GetCachedImage
    } else if name == LIVE_COMMAND@ {
        CommandKind::GetLiveImage(topic)
    } else {
        CommandKind::Unrecognized
    }
}

/// The topic text of an optional topic: the topic, or nothing.
pub open spec fn topic_text(topic: Option<String>) -> Seq<char> {
    match topic {
        Some(t) => t@,
        None => Seq::empty(),
    }
}

/// The reply to a finished live query: the meme's link, or the fallback text.
pub open spec fn live_reply_text(outcome: Result<Meme, QueryFailure>) -> Seq<char> {
    match outcome {
        Ok(m) => m.url@,
        Err(_) => FALLBACK_REPLY@,
    }
}

/// A reply to a cached-image command from a cache in state `s`: a link of
/// the stored gallery when it is ready, else the internal-error text.
pub open spec fn valid_cached_reply(s: Option<crate::imgur::Gallery>, reply: Seq<char>) -> bool {
    match s {
        Some(g) => if g.ready() {
            exists|i: int| 0 <= i < g.images@.len() && #[trigger] g.links()[i] == reply
        } else {
            reply == NOT_READY_REPLY@
        },
        None => reply == NOT_READY_REPLY@,
    }
}

/// Classifies a structured command by its name; the topic goes with a
/// live-image command.
pub fn parse_command(name: &str, topic: Option<String>) -> (r: CommandKind)
    ensures
        r == command_of(name@, topic),
{
    if text_eq(name, CACHED_COMMAND) {
        CommandKind::GetCachedImage
    } else if text_eq(name, LIVE_COMMAND) {
        CommandKind::GetLiveImage(topic)
    } else {
        CommandKind::Unrecognized
    }
}

/// Classifies a text message: the trigger asks for a cached image, any other
/// text is not a command.
pub fn parse_message(content: &str) -> (r: Option<CommandKind>)
    ensures
        content@ == TEXT_TRIGGER@ ==> r == Some(CommandKind::GetCachedImage),
        content@ != TEXT_TRIGGER@ ==> r is None,
{
    if text_eq(content, TEXT_TRIGGER) {
        Some(CommandKind::GetCachedImage)
    } else {
        None
    }
}

/// A random link of the cached gallery, or the internal-error text when the
/// cache holds no gallery that can serve a pick.
pub fn cached_image_reply(cache: &ResourceCache) -> (r: String)
    ensures
        valid_cached_reply(cache@, r@),
{
    match cache.get() {
        Ok(g) => match select(g) {
            Ok(link) => link,
            Err(_) => String::from_str(NOT_READY_REPLY),
        },
        Err(_) => String::from_str(NOT_READY_REPLY),
    }
}

/// The reply to a finished live query.
pub fn live_image_reply(outcome: Result<Meme, QueryFailure>) -> (r: String)
    ensures
        r@ == live_reply_text(outcome),
{
    match outcome {
        Ok(m) => m.url,
        Err(_) => String::from_str(FALLBACK_REPLY),
    }
}

/// Decides what to do with a command.
pub fn dispatch(cache: &ResourceCache, kind: CommandKind) -> (r: Action)
    ensures
        kind == CommandKind::GetCachedImage && serves(cache@) ==> (r matches Action::Reply(t)
            && valid_cached_reply(cache@, t@)),
        kind == CommandKind::GetCachedImage && !serves(cache@) ==> (r matches Action::ReplyAndLogError(t)
            && t@ == NOT_READY_REPLY@),
        kind matches CommandKind::GetLiveImage(topic) ==> (r matches Action::QueryLive(url)
            && url@ == MEME_ENDPOINT@ + topic_text(topic)),
        kind == CommandKind::Unrecognized ==> (r matches Action::ReplyAndWarn(t) && t@
            == UNMATCHED_REPLY@),
{
    match kind {
        CommandKind::GetCachedImage => {
            if cache.can_serve() {
                Action::Reply(cached_image_reply(cache))
            } else {
                Action::ReplyAndLogError(String::from_str(NOT_READY_REPLY))
            }
        },
        CommandKind::GetLiveImage(topic) => {
            let url = match &topic {
                Some(t) => meme_request_url(Some(t.as_str())),
                None => meme_request_url(None),
            };
            Action::QueryLive(url)
        },
        CommandKind::Unrecognized => Action::ReplyAndWarn(String::from_str(UNMATCHED_REPLY)),
    }
}

/// Once the cache is initialized with a ready gallery, it serves picks (so no
/// cached-image dispatch takes the logged error path), and every cached-image
/// reply is the link of one of its images.
pub proof fn lemma_cached_reply_after_initialize(c: crate::imgur::Gallery, reply: Seq<char>)
    requires
        c.ready(),
        valid_cached_reply(crate::cache::initialize_outcome(None, c).0, reply),
    ensures
        serves(crate::cache::initialize_outcome(None, c).0),
        exists|i: int| 0 <= i < c.images@.len() && #[trigger] c.links()[i] == reply,
{
}

/// Any name other than the two command names is answered with the
/// unmatched-command text.
pub proof fn lemma_unknown_name_unmatched(name: Seq<char>, topic: Option<String>)
    requires
        name != CACHED_COMMAND@,
        name != LIVE_COMMAND@,
    ensures
        command_of(name, topic) == CommandKind::Unrecognized,
{
}

/// A live query's reply is the meme's link when it succeeds, and exactly the
/// fallback text when it fails, whatever the failure.
pub proof fn lemma_live_reply(m: Meme, e: QueryFailure)
    ensures
        live_reply_text(Ok(m)) == m.url@,
        live_reply_text(Err(e)) == FALLBACK_REPLY@,
{
}

} // verus!
