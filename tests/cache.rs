use pepe_bot::cache::{CacheError, ResourceCache};
use pepe_bot::imgur::{Gallery, Image};

fn gallery(id: &str, links: &[&str]) -> Gallery {
    let mut g = Gallery::default();
    g.id = id.to_string();
    g.images_count = links.len() as i64;
    for (i, l) in links.iter().enumerate() {
        let mut img = Image::default();
        img.id = format!("img{}", i);
        img.link = l.to_string();
        g.images.push(img);
    }
    g
}

#[test]
fn get_before_initialize_is_not_ready() {
    let cache = ResourceCache::new();
    assert!(!cache.is_initialized());
    assert_eq!(cache.get(), Err(CacheError::NotReady));
}

#[test]
fn get_after_initialize_returns_the_gallery() {
    let c = gallery("g1", &["https://x/a", "https://x/b"]);
    let mut cache = ResourceCache::new();
    assert_eq!(cache.initialize(c.clone()), Ok(()));
    assert!(cache.is_initialized());
    assert_eq!(cache.get(), Ok(&c));
}

#[test]
fn second_initialize_is_refused_and_keeps_the_first() {
    let c = gallery("g1", &["https://x/a"]);
    let d = gallery("g2", &["https://y/z"]);
    let mut cache = ResourceCache::new();
    assert_eq!(cache.initialize(c.clone()), Ok(()));
    assert_eq!(cache.initialize(d), Err(CacheError::AlreadyInitialized));
    assert_eq!(cache.get(), Ok(&c));
}
