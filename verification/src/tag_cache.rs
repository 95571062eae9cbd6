use vstd::prelude::*;
use crate::text::{owned, same_text};

verus! {

/// The last fetched tag, kept under its name so that moving between the
/// tabs of a tag page does not fetch it again.
pub struct TagCache<T> {
    name: String,
    tag: Option<T>,
}

impl<T> TagCache<T> {
    /// The name the cached tag is kept under.
    pub closed spec fn cached_name(&self) -> Seq<char> {
        self.name@
    }

    /// The cached tag.
    pub closed spec fn cached_tag(&self) -> Option<T> {
        self.tag
    }

    /// An empty cache.
    pub fn new() -> (c: Self)
        ensures
            c.cached_name() == Seq::<char>::empty(),
            c.cached_tag() is None,
    {
        TagCache { name: String::new(), tag: None }
    }

    /// Store a tag in the cache, under `name`.
    pub fn set(&mut self, name: &str, tag: T)
        ensures
            final(self).cached_name() == name@,
            final(self).cached_tag() == Some(tag),
    {
        self.name = owned(name);
        self.tag = Some(tag);
    }
}

/// Whether a lookup of `name` finds the cached tag: the name is not empty
/// and is the one the tag is kept under.
pub open spec fn cache_hit(cached_name: Seq<char>, name: Seq<char>) -> bool {
    name.len() > 0 && cached_name == name
}

/// What a lookup of `name` finds: the cached tag on a hit, else nothing.
pub open spec fn lookup<T>(cached_name: Seq<char>, cached_tag: Option<T>, name: Seq<char>) -> Option<T> {
    if cache_hit(cached_name, name) {
        cached_tag
    } else {
        None
    }
}

/// `r` is what `get(name)` may hand back: nothing when the lookup finds
/// nothing, else a clone of the tag it finds.
pub open spec fn read_back<T: Clone>(cached_name: Seq<char>, cached_tag: Option<T>, name: Seq<char>, r: Option<T>) -> bool {
    match (lookup(cached_name, cached_tag, name), r) {
        (Some(t), Some(c)) => cloned(t, c),
        (None, None) => true,
        _ => false,
    }
}

impl<T: Clone> TagCache<T> {
    /// Get a copy of the cached tag if it matches the given name.
    pub fn get(&self, name: &str) -> (r: Option<T>)
        ensures
            read_back(self.cached_name(), self.cached_tag(), name@, r),
    {
        if !name.is_empty() && same_text(self.name.as_str(), name) {
            self.tag.clone()
        } else {
            None
        }
    }
}

/// What the tag page does with the answer of its fetch.
pub enum TagPageUpdate<T, E> {
    /// Show this tag.
    Show(T),
    /// Show this error.
    Fail(E),
    /// Keep showing what is shown.
    Keep,
}

/// The tag page showed the cached tag, if any, and fetched a fresh copy;
/// this is what follows when the fetch answers. A fetched tag is cached
/// under `name` and shown; a failure is shown only when no tag is shown
/// (`showing` is false), and leaves the cache as it was.
pub fn tag_fetch_done<T: Clone, E>(cache: &mut TagCache<T>, name: &str, result: Result<T, E>, showing: bool) -> (u: TagPageUpdate<T, E>)
    ensures
        match result {
            Ok(t) => {
                &&& final(cache).cached_name() == name@
                &&& final(cache).cached_tag() matches Some(c) && cloned(t, c)
                &&& u == TagPageUpdate::<T, E>::Show(t)
            },
            Err(e) => {
                &&& *final(cache) == *old(cache)
                &&& showing ==> u is Keep
                &&& !showing ==> u == TagPageUpdate::<T, E>::Fail(e)
            },
        },
{
    match result {
        Ok(tag) => {
            cache.set(name, tag.clone());
            TagPageUpdate::Show(tag)
        },
        Err(e) => if showing {
            TagPageUpdate::Keep
        } else {
            TagPageUpdate::Fail(e)
        },
    }
}

/// After `set(name, tag)`, until the next `set`: a lookup of any `m` finds
/// `tag` exactly when `m` is `name` and not empty, so the last write wins
/// and a tag under another name is gone; for a tag type whose clone keeps
/// the value, `get(m)` gives back exactly that.
pub proof fn law_cache_read_back<T: Clone>(name: Seq<char>, tag: T, m: Seq<char>, r: Option<T>)
    ensures
        lookup(name, Some(tag), m) == (if m.len() > 0 && m == name {
            Some(tag)
        } else {
            None
        }),
        read_back(name, Some(tag), m, r) && (forall|c: T| cloned(tag, c) ==> c == tag) ==> r == (
        if m.len() > 0 && m == name {
            Some(tag)
        } else {
            None
        }),
{
}

} // verus!
