use vstd::prelude::*;

verus! {

/// The state of an endless-scroll list: the results gathered so far, how far
/// the server's list has been read, its total, and whether a page is being
/// fetched.
pub struct ScrollFeed<T> {
    pub items: Vec<T>,
    pub loaded_up_to: i64,
    pub total: i64,
    pub loading_more: bool,
}

/// The counters of a feed.
pub struct FeedCounters {
    pub loaded_up_to: i64,
    pub total: i64,
    pub loading_more: bool,
}

impl<T> ScrollFeed<T> {
    pub open spec fn counters(&self) -> FeedCounters {
        FeedCounters {
            loaded_up_to: self.loaded_up_to,
            total: self.total,
            loading_more: self.loading_more,
        }
    }
}

/// Whether the server has results beyond those read.
pub open spec fn more_available(c: FeedCounters) -> bool {
    c.loaded_up_to < c.total
}

/// Asking for the next page: refused (`None`, nothing changes) while a page
/// is being fetched or when nothing is left; else the fetch starts at the
/// offset read so far.
pub open spec fn load_start(c: FeedCounters) -> (FeedCounters, Option<i64>) {
    if c.loading_more || !more_available(c) {
        (c, None)
    } else {
        (FeedCounters { loading_more: true, ..c }, Some(c.loaded_up_to))
    }
}

/// Whether the list shows that it reached its end: nothing is being
/// fetched, everything is read, and there is at least one result.
pub open spec fn end_reached(c: FeedCounters) -> bool {
    !c.loading_more && c.loaded_up_to >= c.total && c.total > 0
}

impl<T> ScrollFeed<T> {
    /// An empty feed.
    pub fn new() -> (f: Self)
        ensures
            f.items@.len() == 0,
            f.loaded_up_to == 0,
            f.total == 0,
            !f.loading_more,
    {
        ScrollFeed { items: Vec::new(), loaded_up_to: 0, total: 0, loading_more: false }
    }

    /// Whether the server has results beyond those read.
    pub fn has_more(&self) -> (r: bool)
        ensures
            r == more_available(self.counters()),
    {
        self.loaded_up_to < self.total
    }

    /// Starts over from a page that was loaded from the address bar: its
    /// results become the list.
    pub fn page_loaded(&mut self, offset: i64, results: Vec<T>, total: i64)
        requires
            results@.len() <= i64::MAX,
            offset + results@.len() <= i64::MAX,
        ensures
            final(self).items@ == results@,
            final(self).loaded_up_to == offset + results@.len(),
            final(self).total == total,
            final(self).loading_more == old(self).loading_more,
    {
        let n = results.len() as i64;
        self.items = results;
        self.loaded_up_to = offset + n;
        self.total = total;
    }

    /// Asks to fetch the next page; gives the offset to fetch from, or `None`
    /// when a fetch is under way or nothing is left (the guard against
    /// duplicate fetches).
    pub fn begin_load(&mut self) -> (r: Option<i64>)
        ensures
            (final(self).counters(), r) == load_start(old(self).counters()),
            final(self).items@ == old(self).items@,
    {
        if self.loading_more || !self.has_more() {
            return None;
        }
        self.loading_more = true;
        Some(self.loaded_up_to)
    }

    /// A fetched page arrived: its results are added, the read offset moves
    /// past them, and the fetch is over.
    pub fn more_loaded(&mut self, offset: i64, results: Vec<T>, total: i64)
        requires
            results@.len() <= i64::MAX,
            offset + results@.len() <= i64::MAX,
        ensures
            final(self).items@ == old(self).items@ + results@,
            final(self).loaded_up_to == offset + results@.len(),
            final(self).total == total,
            !final(self).loading_more,
    {
        let n = results.len() as i64;
        let mut results = results;
        self.items.append(&mut results);
        self.loaded_up_to = offset + n;
        self.total = total;
        self.loading_more = false;
    }

    /// A fetch failed: it is over and nothing else changes.
    pub fn load_failed(&mut self)
        ensures
            final(self).items@ == old(self).items@,
            final(self).loaded_up_to == old(self).loaded_up_to,
            final(self).total == old(self).total,
            !final(self).loading_more,
    {
        self.loading_more = false;
    }

    /// Whether the list shows that it reached its end.
    pub fn at_end(&self) -> (r: bool)
        ensures
            r == end_reached(self.counters()),
    {
        !self.loading_more && self.loaded_up_to >= self.total && self.total > 0
    }
}

/// Once a fetch has started, asking again before it ends starts nothing.
pub proof fn law_no_duplicate_fetch(c: FeedCounters)
    requires
        load_start(c).1 is Some,
    ensures
        load_start(load_start(c).0).1 is None,
        load_start(load_start(c).0).0 == load_start(c).0,
{
}

} // verus!
