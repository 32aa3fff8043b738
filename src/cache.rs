//! The resource cache: holds the gallery, written once at startup and only
//! read afterwards.

use vstd::prelude::*;
use crate::imgur::Gallery;

verus! {

/// Misuse of the cache.
#[derive(Debug, Clone, Copy, PartialEq, Eq)]
pub enum CacheError {
    /// A second initialization was attempted; the first value stays.
    AlreadyInitialized,
    /// A read came before any initialization.
    NotReady,
}

/// Holds at most one gallery for the life of the process.
pub struct ResourceCache {
    gallery: Option<Gallery>,
}

/// The state after an initialization with `c` from state `s`, and its result.
pub open spec fn initialize_outcome(s: Option<Gallery>, c: Gallery) -> (Option<Gallery>, Result<(), CacheError>) {
    match s {
        Some(_) => (s, Err(CacheError::AlreadyInitialized)),
        None => (Some(c), Ok(())),
    }
}

/// A cache in state `s` holds a gallery that can serve random picks.
pub open spec fn serves(s: Option<Gallery>) -> bool {
    s matches Some(g) && g.ready()
}

/// What a read from state `s` gives.
pub open spec fn get_outcome(s: Option<Gallery>) -> Result<Gallery, CacheError> {
    match s {
        Some(g) => Ok(g),
        None => Err(CacheError::NotReady),
    }
}

impl View for ResourceCache {
    type V = Option<Gallery>;

    closed spec fn view(&self) -> Option<Gallery> {
        self.gallery
    }
}

impl ResourceCache {
    /// An empty cache.
    pub fn new() -> (r: ResourceCache)
        ensures
            r@ is None,
    {
        ResourceCache { gallery: None }
    }

    /// Stores `c` if nothing is stored yet; refuses otherwise, keeping the
    /// stored gallery.
    pub fn initialize(&mut self, c: Gallery) -> (r: Result<(), CacheError>)
        ensures
            (final(self)@, r) == initialize_outcome(old(self)@, c),
    {
        if self.gallery.is_some() {
            Err(CacheError::AlreadyInitialized)
        } else {
            self.gallery = Some(c);
            Ok(())
        }
    }

    /// Whether a gallery is stored.
    pub fn is_initialized(&self) -> (r: bool)
        ensures
            r == self@ is Some,
    {
        self.gallery.is_some()
    }

    /// Whether the cache holds a gallery that can serve random picks.
    pub fn can_serve(&self) -> (r: bool)
        ensures
            r == serves(self@),
    {
        match &self.gallery {
            Some(g) => g.is_ready(),
            None => false,
        }
    }

    /// The stored gallery, or `NotReady` before initialization.
    pub fn get(&self) -> (r: Result<&Gallery, CacheError>)
        ensures
            match r {
                Ok(g) => get_outcome(self@) == Ok::<Gallery, CacheError>(*g),
                Err(e) => get_outcome(self@) == Err::<Gallery, CacheError>(e),
            },
    {
        match &self.gallery {
            Some(g) => Ok(g),
            None => Err(CacheError::NotReady),
        }
    }
}

/// A read after one initialization of an empty cache gives the gallery it
/// was given, and a second initialization is refused and changes nothing.
pub proof fn lemma_initialize_once(c: Gallery, d: Gallery)
    ensures
        initialize_outcome(None, c).1 == Ok::<(), CacheError>(()),
        get_outcome(initialize_outcome(None, c).0) == Ok::<Gallery, CacheError>(c),
        initialize_outcome(initialize_outcome(None, c).0, d).1 == Err::<(), CacheError>(
            CacheError::AlreadyInitialized,
        ),
        get_outcome(initialize_outcome(initialize_outcome(None, c).0, d).0) == Ok::<
            Gallery,
            CacheError,
        >(c),
{
}

/// Before any initialization a read is refused.
pub proof fn lemma_read_before_initialize()
    ensures
        get_outcome(None) == Err::<Gallery, CacheError>(CacheError::NotReady),
{
}

} // verus!
