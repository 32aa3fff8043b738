use pepe_bot::cache::ResourceCache;
use pepe_bot::dispatch::{
    cached_image_reply, dispatch, live_image_reply, parse_command, parse_message, Action,
    CommandKind, FALLBACK_REPLY, NOT_READY_REPLY, UNMATCHED_REPLY,
};
use pepe_bot::imgur::{Gallery, Image};
use pepe_bot::meme::{meme_request_url, Meme, QueryFailure};
use pepe_bot::text::{join, text_eq};

fn image(id: &str, link: &str) -> Image {
    let mut img = Image::default();
    img.id = id.to_string();
    img.link = link.to_string();
    img
}

fn two_image_cache() -> ResourceCache {
    let mut g = Gallery::default();
    g.id = "g1".to_string();
    g.images_count = 2;
    g.images = vec![image("a", "https://x/a"), image("b", "https://x/b")];
    let mut cache = ResourceCache::new();
    cache.initialize(g).unwrap();
    cache
}

#[test]
fn end_to_end_cached_dispatches() {
    let cache = two_image_cache();
    let mut seen_a = false;
    let mut seen_b = false;
    for _ in 0..1000 {
        let kind = parse_command("pepe", None);
        match dispatch(&cache, kind) {
            Action::Reply(link) => {
                assert!(link == "https://x/a" || link == "https://x/b");
                seen_a |= link == "https://x/a";
                seen_b |= link == "https://x/b";
            }
            other => panic!("unexpected action {:?}", other),
        }
    }
    assert!(seen_a && seen_b);
}

#[test]
fn text_trigger_asks_for_cached_image() {
    assert_eq!(parse_message("!pepe"), Some(CommandKind::GetCachedImage));
    assert_eq!(parse_message("!pep"), None);
    assert_eq!(parse_message("hello"), None);
}

#[test]
fn unknown_command_is_unmatched() {
    let kind = parse_command("ping", Some("x".to_string()));
    assert_eq!(kind, CommandKind::Unrecognized);
    let cache = two_image_cache();
    assert_eq!(
        dispatch(&cache, kind),
        Action::ReplyAndWarn("Unmatched application command name".to_string())
    );
    assert_eq!(UNMATCHED_REPLY, "Unmatched application command name");
}

#[test]
fn live_command_with_topic_queries_the_topic() {
    let kind = parse_command("meme", Some("rust".to_string()));
    assert_eq!(kind, CommandKind::GetLiveImage(Some("rust".to_string())));
    let cache = ResourceCache::new();
    match dispatch(&cache, kind) {
        Action::QueryLive(url) => {
            assert_eq!(url, "https://meme-api.herokuapp.com/gimme/rust");
            assert!(url.contains("rust"));
        }
        other => panic!("unexpected action {:?}", other),
    }
}

#[test]
fn live_command_without_topic_queries_the_bare_endpoint() {
    let cache = ResourceCache::new();
    assert_eq!(
        dispatch(&cache, parse_command("meme", None)),
        Action::QueryLive("https://meme-api.herokuapp.com/gimme/".to_string())
    );
    assert_eq!(meme_request_url(None), "https://meme-api.herokuapp.com/gimme/");
    assert_eq!(meme_request_url(Some("rust")), "https://meme-api.herokuapp.com/gimme/rust");
}

#[test]
fn live_reply_is_the_link_or_the_fallback() {
    let mut m = Meme::default();
    m.url = "https://i.redd.it/mock.png".to_string();
    assert_eq!(live_image_reply(Ok(m)), "https://i.redd.it/mock.png");
    assert_eq!(live_image_reply(Err(QueryFailure::Status(500))), "Error.");
    assert_eq!(live_image_reply(Err(QueryFailure::Transport)), "Error.");
    assert_eq!(live_image_reply(Err(QueryFailure::Malformed)), FALLBACK_REPLY);
}

#[test]
fn cached_reply_from_unready_cache_is_internal_error() {
    let cache = ResourceCache::new();
    assert_eq!(cached_image_reply(&cache), NOT_READY_REPLY);
    assert!(!cache.can_serve());
    assert_eq!(
        dispatch(&cache, parse_command("pepe", None)),
        Action::ReplyAndLogError(NOT_READY_REPLY.to_string())
    );
    assert_eq!(
        dispatch(&cache, parse_message("!pepe").unwrap()),
        Action::ReplyAndLogError(NOT_READY_REPLY.to_string())
    );
    let mut empty = ResourceCache::new();
    empty.initialize(Gallery::default()).unwrap();
    assert_eq!(
        dispatch(&empty, CommandKind::GetCachedImage),
        Action::ReplyAndLogError(NOT_READY_REPLY.to_string())
    );
}

#[test]
fn text_helpers() {
    assert!(text_eq("pepe", "pepe"));
    assert!(!text_eq("pepe", "pep"));
    assert!(!text_eq("pepe", "meme"));
    assert_eq!(join("ab", "cd"), "abcd");
}
