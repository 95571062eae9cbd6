use vstd::prelude::*;
use crate::model::PostSafety;
use crate::scan::texts;
use crate::tags::copy_texts;
use crate::text::{chars_of, opt_text, owned, same_text, string_of};

verus! {

/// Progress of one queued upload.
#[derive(Clone, Debug)]
pub enum UploadStatus {
    Pending,
    Uploading,
    Done,
    Error(String),
    Skipped,
}

/// One item of the upload queue: a local file (of type `F`) or a URL.
pub struct Uploadable<F> {
    pub key: String,
    pub name: String,
    pub file: Option<F>,
    pub url: Option<String>,
    pub preview_url: Option<String>,
    pub safety: PostSafety,
    pub anonymous: bool,
    pub status: UploadStatus,
}

/// The queue of files and URLs waiting to be uploaded, each under a key that
/// no other item has, with the tags typed for each item.
pub struct UploadQueue<F> {
    items: Vec<Uploadable<F>>,
    tags: Vec<Vec<String>>,
}

/// No key occurs twice.
pub open spec fn distinct_keys<F>(items: Seq<Uploadable<F>>) -> bool {
    forall|i: int, j: int|
        0 <= i < items.len() && 0 <= j < items.len() && i != j ==> #[trigger] items[i].key@
            != #[trigger] items[j].key@
}

/// Whether some item has key `key`.
pub open spec fn has_key<F>(items: Seq<Uploadable<F>>, key: Seq<char>) -> bool {
    exists|i: int| 0 <= i < items.len() && #[trigger] items[i].key@ == key
}

/// The name shown for an upload from a URL: the text after its last `/`
/// (the whole URL when it has none).
pub open spec fn url_file_name(url: Seq<char>) -> Seq<char>
    decreases url.len(),
{
    if url.len() == 0 {
        url
    } else if url.last() == '/' {
        Seq::empty()
    } else {
        url_file_name(url.drop_last()).push(url.last())
    }
}

/// An item freshly queued: safe, not anonymous, pending.
pub open spec fn fresh_item<F>(
    item: Uploadable<F>,
    key: Seq<char>,
    name: Seq<char>,
    file: Option<F>,
    url: Option<Seq<char>>,
    preview_url: Option<Seq<char>>,
) -> bool {
    &&& item.key@ == key
    &&& item.name@ == name
    &&& item.file == file
    &&& opt_text(item.url) == url
    &&& opt_text(item.preview_url) == preview_url
    &&& item.safety == PostSafety::Safe
    &&& !item.anonymous
    &&& item.status is Pending
}

fn find_key<F>(items: &Vec<Uploadable<F>>, key: &str) -> (r: Option<usize>)
    ensures
        match r {
            Some(i) => i < items@.len() && items@[i as int].key@ == key@ && forall|j: int|
                0 <= j < i ==> items@[j].key@ != key@,
            None => !has_key(items@, key@),
        },
{
    for i in 0..items.len()
        invariant
            forall|j: int| 0 <= j < i ==> items@[j].key@ != key@,
    {
        if same_text(items[i].key.as_str(), key) {
            return Some(i);
        }
    }
    None
}

impl<F> UploadQueue<F> {
    /// The queue's items, in order.
    pub closed spec fn view_items(&self) -> Seq<Uploadable<F>> {
        self.items@
    }

    /// The tags typed for each item, in the order of the items.
    pub closed spec fn view_tags(&self) -> Seq<Seq<Seq<char>>> {
        self.tags@.map_values(|v: Vec<String>| texts(v@))
    }

    /// Every queue has distinct keys and one tag list per item.
    pub open spec fn wf(&self) -> bool {
        &&& distinct_keys(self.view_items())
        &&& self.view_tags().len() == self.view_items().len()
    }

    pub fn new() -> (q: Self)
        ensures
            q.wf(),
            q.view_items().len() == 0,
            q.view_tags().len() == 0,
    {
        UploadQueue { items: Vec::new(), tags: Vec::new() }
    }

    /// The queued items.
    pub fn items(&self) -> (r: &Vec<Uploadable<F>>)
        ensures
            r@ == self.view_items(),
    {
        &self.items
    }

    /// Whether more than one item is queued (each item then gets its own
    /// safety and anonymity).
    pub fn is_bulk(&self) -> (r: bool)
        ensures
            r == (self.view_items().len() > 1),
    {
        self.items.len() > 1
    }

    /// Queues a local file under `key` (its name and size), unless an item
    /// with that key is queued already. Returns whether it was added.
    pub fn add_file(&mut self, key: String, name: String, file: F, preview_url: Option<String>) -> (added: bool)
        requires
            old(self).wf(),
        ensures
            final(self).wf(),
            added == !has_key(old(self).view_items(), key@),
            !added ==> final(self).view_items() == old(self).view_items() && final(self).view_tags()
                == old(self).view_tags(),
            added ==> final(self).view_tags() == old(self).view_tags().push(Seq::empty()),
            added ==> final(self).view_items().len() == old(self).view_items().len() + 1
                && final(self).view_items().drop_last() == old(self).view_items()
                && fresh_item(
                final(self).view_items().last(),
                key@,
                name@,
                Some(file),
                None,
                opt_text(preview_url),
            ),
    {
        if find_key(&self.items, key.as_str()).is_some() {
            return false;
        }
        let ghost before = self.items@;
        let ghost k = key@;
        self.items.push(
            Uploadable {
                key,
                name,
                file: Some(file),
                url: None,
                preview_url,
                safety: PostSafety::Safe,
                anonymous: false,
                status: UploadStatus::Pending,
            },
        );
        assert(self.items@.drop_last() =~= before);
        let ghost tags_before = self.view_tags();
        let no_tags: Vec<String> = Vec::new();
        assert(texts(no_tags@) =~= Seq::<Seq<char>>::empty());
        self.tags.push(no_tags);
        assert(self.view_tags() =~= tags_before.push(Seq::empty()));
        assert(distinct_keys(self.items@)) by {
            assert forall|i: int, j: int|
                0 <= i < self.items@.len() && 0 <= j < self.items@.len() && i != j implies #[trigger] self.items@[i].key@
                != #[trigger] self.items@[j].key@ by {
                if i == before.len() as int {
                    assert(before[j].key@ != k);
                } else if j == before.len() as int {
                    assert(before[i].key@ != k);
                } else {
                    assert(before[i].key@ != before[j].key@);
                }
            }
        }
        true
    }

    /// Queues a URL (its own key), unless it is queued already. Returns
    /// whether it was added.
    pub fn add_url(&mut self, url: String) -> (added: bool)
        requires
            old(self).wf(),
        ensures
            final(self).wf(),
            added == !has_key(old(self).view_items(), url@),
            !added ==> final(self).view_items() == old(self).view_items() && final(self).view_tags()
                == old(self).view_tags(),
            added ==> final(self).view_tags() == old(self).view_tags().push(Seq::empty()),
            added ==> final(self).view_items().len() == old(self).view_items().len() + 1
                && final(self).view_items().drop_last() == old(self).view_items()
                && fresh_item(
                final(self).view_items().last(),
                url@,
                url_file_name(url@),
                None,
                Some(url@),
                None,
            ),
    {
        if find_key(&self.items, url.as_str()).is_some() {
            return false;
        }
        let name = url_name(url.as_str());
        let key = owned(url.as_str());
        let ghost before = self.items@;
        let ghost k = url@;
        self.items.push(
            Uploadable {
                key,
                name,
                file: None,
                url: Some(url),
                preview_url: None,
                safety: PostSafety::Safe,
                anonymous: false,
                status: UploadStatus::Pending,
            },
        );
        assert(self.items@.drop_last() =~= before);
        let ghost tags_before = self.view_tags();
        let no_tags: Vec<String> = Vec::new();
        assert(texts(no_tags@) =~= Seq::<Seq<char>>::empty());
        self.tags.push(no_tags);
        assert(self.view_tags() =~= tags_before.push(Seq::empty()));
        assert(distinct_keys(self.items@)) by {
            assert forall|i: int, j: int|
                0 <= i < self.items@.len() && 0 <= j < self.items@.len() && i != j implies #[trigger] self.items@[i].key@
                != #[trigger] self.items@[j].key@ by {
                if i == before.len() as int {
                    assert(before[j].key@ != k);
                } else if j == before.len() as int {
                    assert(before[i].key@ != k);
                } else {
                    assert(before[i].key@ != before[j].key@);
                }
            }
        }
        true
    }
}

/// The position of the item with key `key`.
pub open spec fn key_position<F>(items: Seq<Uploadable<F>>, key: Seq<char>) -> int
    recommends
        has_key(items, key),
{
    choose|i: int| 0 <= i < items.len() && #[trigger] items[i].key@ == key
}

/// `items` with the entries at `i` and `j` exchanged.
pub open spec fn swapped<A>(items: Seq<A>, i: int, j: int) -> Seq<A> {
    items.update(i, items[j]).update(j, items[i])
}

proof fn lemma_key_position<F>(items: Seq<Uploadable<F>>, key: Seq<char>, i: int)
    requires
        distinct_keys(items),
        0 <= i < items.len(),
        items[i].key@ == key,
    ensures
        key_position(items, key) == i,
{
    let p = key_position(items, key);
    assert(0 <= p < items.len() && items[p].key@ == key);
    if p != i {
        assert(items[p].key@ != items[i].key@);
    }
}

/// Removing the key that `add_file` or `add_url` has just queued gives back
/// the queue as it was before, its typed tags included: the new item is the
/// last one, and the only one with that key.
pub proof fn law_remove_undoes_add<F>(
    before: Seq<Uploadable<F>>,
    after: Seq<Uploadable<F>>,
    tags_before: Seq<Seq<Seq<char>>>,
    key: Seq<char>,
)
    requires
        distinct_keys(after),
        after.len() == before.len() + 1,
        after.drop_last() == before,
        after.last().key@ == key,
        tags_before.len() == before.len(),
    ensures
        has_key(after, key),
        key_position(after, key) == before.len(),
        after.remove(key_position(after, key)) == before,
        tags_before.push(Seq::empty()).remove(key_position(after, key)) == tags_before,
{
    let n = before.len() as int;
    assert(after[n].key@ == key);
    lemma_key_position(after, key, n);
    assert(after.remove(n) =~= after.drop_last());
    assert(tags_before.push(Seq::empty()).remove(n) =~= tags_before);
}

/// Moving an item by `d` places and then by `-d` places leaves the queue and
/// its typed tags as they were; keys stay distinct after the first move.
pub proof fn law_move_back<F>(items: Seq<Uploadable<F>>, tags: Seq<Seq<Seq<char>>>, key: Seq<char>, d: int)
    requires
        distinct_keys(items),
        tags.len() == items.len(),
        has_key(items, key),
        0 <= key_position(items, key) + d < items.len(),
    ensures
        ({
            let i = key_position(items, key);
            let moved = swapped(items, i, i + d);
            &&& distinct_keys(moved)
            &&& key_position(moved, key) == i + d
            &&& swapped(moved, i + d, i + d - d) == items
            &&& swapped(swapped(tags, i, i + d), i + d, i + d - d) == tags
        }),
{
    let i = key_position(items, key);
    let t = i + d;
    let moved = swapped(items, i, t);
    assert(0 <= i < items.len() && items[i].key@ == key);
    assert forall|a: int, b: int|
        0 <= a < moved.len() && 0 <= b < moved.len() && a != b implies #[trigger] moved[a].key@
        != #[trigger] moved[b].key@ by {
        let a0 = if a == i { t } else if a == t { i } else { a };
        let b0 = if b == i { t } else if b == t { i } else { b };
        assert(moved[a] == items[a0]);
        assert(moved[b] == items[b0]);
        assert(items[a0].key@ != items[b0].key@);
    }
    assert(moved[t] == items[i]);
    lemma_key_position(moved, key, t);
    assert(swapped(moved, t, i) =~= items);
    assert(swapped(swapped(tags, i, t), t, i) =~= tags);
}

/// Exchanges the entries at `i` and `t`.
fn swap_entries<A>(v: &mut Vec<A>, i: usize, t: usize)
    requires
        i < old(v)@.len(),
        t < old(v)@.len(),
        i != t,
    ensures
        final(v)@ == swapped(old(v)@, i as int, t as int),
{
    let ghost before = v@;
    let (lo, hi) = if i < t {
        (i, t)
    } else {
        (t, i)
    };
    let entry_hi = v.remove(hi);
    let entry_lo = v.remove(lo);
    v.insert(lo, entry_hi);
    v.insert(hi, entry_lo);
    assert(v@ =~= swapped(before, i as int, t as int));
}

impl<F> UploadQueue<F> {
    /// Removes the item with key `key`, if queued, and hands back its
    /// preview URL so that the caller can release it.
    pub fn remove(&mut self, key: &str) -> (preview: Option<String>)
        requires
            old(self).wf(),
        ensures
            final(self).wf(),
            !has_key(old(self).view_items(), key@) ==> final(self).view_items() == old(
                self,
            ).view_items() && final(self).view_tags() == old(self).view_tags() && preview is None,
            has_key(old(self).view_items(), key@) ==> {
                let i = key_position(old(self).view_items(), key@);
                &&& final(self).view_items() == old(self).view_items().remove(i)
                &&& final(self).view_tags() == old(self).view_tags().remove(i)
                &&& opt_text(preview) == opt_text(old(self).view_items()[i].preview_url)
            },
    {
        match find_key(&self.items, key) {
            None => None,
            Some(i) => {
                proof {
                    lemma_key_position(self.items@, key@, i as int);
                }
                let ghost before = self.items@;
                let ghost tags_before = self.view_tags();
                let item = self.items.remove(i);
                self.tags.remove(i);
                assert(self.view_tags() =~= tags_before.remove(i as int));
                assert(distinct_keys(self.items@)) by {
                    assert forall|a: int, b: int|
                        0 <= a < self.items@.len() && 0 <= b < self.items@.len() && a != b implies #[trigger] self.items@[a].key@
                        != #[trigger] self.items@[b].key@ by {
                        let a0 = if a < i { a } else { a + 1 };
                        let b0 = if b < i { b } else { b + 1 };
                        assert(before[a0].key@ != before[b0].key@);
                    }
                }
                item.preview_url
            },
        }
    }

    /// Moves the item with key `key` by `direction` places (negative: toward
    /// the front), exchanging it with the item there; nothing happens when
    /// that place is outside the queue. The new place is computed in `i32`,
    /// so it must not pass `i32::MAX`.
    pub fn move_item(&mut self, key: &str, direction: i32)
        requires
            old(self).wf(),
            old(self).view_items().len() <= i32::MAX,
            has_key(old(self).view_items(), key@) ==> key_position(old(self).view_items(), key@)
                + direction <= i32::MAX,
        ensures
            final(self).wf(),
            !has_key(old(self).view_items(), key@) ==> final(self).view_items() == old(
                self,
            ).view_items() && final(self).view_tags() == old(self).view_tags(),
            has_key(old(self).view_items(), key@) ==> {
                let i = key_position(old(self).view_items(), key@);
                let t = i + direction;
                &&& (0 <= t < old(self).view_items().len()) ==> final(self).view_items() == swapped(
                    old(self).view_items(),
                    i,
                    t,
                ) && final(self).view_tags() == swapped(old(self).view_tags(), i, t)
                &&& !(0 <= t < old(self).view_items().len()) ==> final(self).view_items() == old(
                    self,
                ).view_items() && final(self).view_tags() == old(self).view_tags()
            },
    {
        match find_key(&self.items, key) {
            None => {},
            Some(i) => {
                proof {
                    lemma_key_position(self.items@, key@, i as int);
                }
                let t: i64 = i as i64 + direction as i64;
                if 0 <= t && t < self.items.len() as i64 {
                    let t = t as usize;
                    if t != i {
                        let ghost before = self.items@;
                        let (lo, hi) = if i < t {
                            (i, t)
                        } else {
                            (t, i)
                        };
                        swap_entries(&mut self.items, i, t);
                        let ghost tags_before = self.tags@;
                        swap_entries(&mut self.tags, i, t);
                        assert(self.view_tags() =~= swapped(
                            tags_before.map_values(|v: Vec<String>| texts(v@)),
                            i as int,
                            t as int,
                        ));
                        assert(distinct_keys(self.items@)) by {
                            assert forall|a: int, b: int|
                                0 <= a < self.items@.len() && 0 <= b < self.items@.len() && a
                                    != b implies #[trigger] self.items@[a].key@
                                != #[trigger] self.items@[b].key@ by {
                                let a0 = if a == lo as int {
                                    hi as int
                                } else if a == hi as int {
                                    lo as int
                                } else {
                                    a
                                };
                                let b0 = if b == lo as int {
                                    hi as int
                                } else if b == hi as int {
                                    lo as int
                                } else {
                                    b
                                };
                                assert(before[a0].key@ != before[b0].key@);
                            }
                        }
                    } else {
                        assert(self.items@ =~= swapped(self.items@, i as int, t as int));
                        assert(self.view_tags() =~= swapped(self.view_tags(), i as int, t as int));
                    }
                }
            },
        }
    }

    /// Sets the safety of the item with key `key`, if queued.
    pub fn set_safety(&mut self, key: &str, safety: PostSafety)
        requires
            old(self).wf(),
        ensures
            final(self).wf(),
            final(self).view_tags() == old(self).view_tags(),
            final(self).view_items().len() == old(self).view_items().len(),
            forall|j: int|
                0 <= j < old(self).view_items().len() ==> {
                    let u = old(self).view_items()[j];
                    #[trigger] final(self).view_items()[j] == (if u.key@ == key@ {
                        Uploadable { safety, ..u }
                    } else {
                        u
                    })
                },
    {
        if let Some(i) = find_key(&self.items, key) {
            let ghost before = self.items@;
            let mut item = self.items.remove(i);
            item.safety = safety;
            self.items.insert(i, item);
            assert forall|j: int| 0 <= j < before.len() && j != i implies before[j].key@ != key@ by {
                assert(before[j].key@ != before[i as int].key@);
            }
            assert(distinct_keys(self.items@)) by {
                assert forall|a: int, b: int|
                    0 <= a < self.items@.len() && 0 <= b < self.items@.len() && a
                        != b implies #[trigger] self.items@[a].key@
                    != #[trigger] self.items@[b].key@ by {
                    assert(before[a].key@ != before[b].key@);
                }
            }
        }
    }

    /// Sets whether the item with key `key`, if queued, is uploaded anonymously.
    pub fn set_anonymous(&mut self, key: &str, anonymous: bool)
        requires
            old(self).wf(),
        ensures
            final(self).wf(),
            final(self).view_tags() == old(self).view_tags(),
            final(self).view_items().len() == old(self).view_items().len(),
            forall|j: int|
                0 <= j < old(self).view_items().len() ==> {
                    let u = old(self).view_items()[j];
                    #[trigger] final(self).view_items()[j] == (if u.key@ == key@ {
                        Uploadable { anonymous, ..u }
                    } else {
                        u
                    })
                },
    {
        if let Some(i) = find_key(&self.items, key) {
            let ghost before = self.items@;
            let mut item = self.items.remove(i);
            item.anonymous = anonymous;
            self.items.insert(i, item);
            assert forall|j: int| 0 <= j < before.len() && j != i implies before[j].key@ != key@ by {
                assert(before[j].key@ != before[i as int].key@);
            }
            assert(distinct_keys(self.items@)) by {
                assert forall|a: int, b: int|
                    0 <= a < self.items@.len() && 0 <= b < self.items@.len() && a
                        != b implies #[trigger] self.items@[a].key@
                    != #[trigger] self.items@[b].key@ by {
                    assert(before[a].key@ != before[b].key@);
                }
            }
        }
    }
}

impl<F> UploadQueue<F> {
    /// Records the progress of the item at `index`, if there is one.
    pub fn set_status(&mut self, index: usize, status: UploadStatus)
        requires
            old(self).wf(),
        ensures
            final(self).wf(),
            final(self).view_tags() == old(self).view_tags(),
            index < old(self).view_items().len() ==> final(self).view_items() == old(
                self,
            ).view_items().update(index as int, Uploadable { status, ..old(self).view_items()[index as int] }),
            index >= old(self).view_items().len() ==> final(self).view_items() == old(
                self,
            ).view_items(),
    {
        if index < self.items.len() {
            let ghost before = self.items@;
            let mut item = self.items.remove(index);
            item.status = status;
            self.items.insert(index, item);
            assert(self.items@ =~= before.update(index as int, Uploadable { status, ..before[index as int] }));
            assert(distinct_keys(self.items@)) by {
                assert forall|a: int, b: int|
                    0 <= a < self.items@.len() && 0 <= b < self.items@.len() && a
                        != b implies #[trigger] self.items@[a].key@
                    != #[trigger] self.items@[b].key@ by {
                    assert(before[a].key@ != before[b].key@);
                }
            }
        }
    }

    /// Sets the tags typed for the item with key `key`, if queued.
    pub fn set_file_tags(&mut self, key: &str, tags: Vec<String>)
        requires
            old(self).wf(),
        ensures
            final(self).wf(),
            final(self).view_items() == old(self).view_items(),
            has_key(old(self).view_items(), key@) ==> final(self).view_tags() == old(
                self,
            ).view_tags().update(key_position(old(self).view_items(), key@), texts(tags@)),
            !has_key(old(self).view_items(), key@) ==> final(self).view_tags() == old(
                self,
            ).view_tags(),
    {
        if let Some(i) = find_key(&self.items, key) {
            proof {
                lemma_key_position(self.items@, key@, i as int);
            }
            let ghost tags_before = self.tags@;
            let ghost typed = texts(tags@);
            self.tags.set(i, tags);
            assert(self.view_tags() =~= tags_before.map_values(|v: Vec<String>| texts(v@)).update(
                i as int,
                typed,
            ));
        }
    }

    /// The tags typed for each item, under the item's key, in queue order
    /// (what an "upload all" run is started with).
    pub fn file_tags(&self) -> (r: Vec<(String, Vec<String>)>)
        requires
            self.wf(),
        ensures
            r@.len() == self.view_items().len(),
            forall|i: int|
                0 <= i < r@.len() ==> (#[trigger] r@[i]).0@ == self.view_items()[i].key@ && texts(
                    r@[i].1@,
                ) == self.view_tags()[i],
    {
        let mut r: Vec<(String, Vec<String>)> = Vec::new();
        for i in 0..self.items.len()
            invariant
                self.wf(),
                r@.len() == i,
                forall|j: int|
                    0 <= j < i ==> (#[trigger] r@[j]).0@ == self.view_items()[j].key@ && texts(
                        r@[j].1@,
                    ) == self.view_tags()[j],
        {
            assert(self.view_tags()[i as int] == texts(self.tags@[i as int]@));
            r.push((owned(self.items[i].key.as_str()), copy_texts(&self.tags[i])));
        }
        r
    }

    /// The positions of the items that wait to be uploaded, in order.
    pub fn pending_indices(&self) -> (r: Vec<usize>)
        ensures
            r@ == pending_positions(self.view_items()),
    {
        let mut r: Vec<usize> = Vec::new();
        for i in 0..self.items.len()
            invariant
                i <= self.items@.len(),
                r@ == pending_positions(self.items@.take(i as int)),
        {
            assert(self.items@.take(i + 1).drop_last() =~= self.items@.take(i as int));
            if let UploadStatus::Pending = self.items[i].status {
                r.push(i);
            }
        }
        assert(self.items@.take(self.items@.len() as int) =~= self.items@);
        r
    }
}

/// The positions of the pending items of `items`, in order.
pub open spec fn pending_positions<F>(items: Seq<Uploadable<F>>) -> Seq<usize>
    decreases items.len(),
{
    if items.len() == 0 {
        Seq::empty()
    } else {
        let rest = pending_positions(items.drop_last());
        if items.last().status is Pending {
            rest.push((items.len() - 1) as usize)
        } else {
            rest
        }
    }
}

/// The pending positions name every pending item once and nothing else, in
/// increasing order: a run that steps through them takes up each pending
/// item exactly once.
pub proof fn law_pending_positions<F>(items: Seq<Uploadable<F>>)
    requires
        items.len() <= usize::MAX,
    ensures
        forall|a: int, b: int|
            0 <= a < b < pending_positions(items).len() ==> #[trigger] pending_positions(items)[a]
                < #[trigger] pending_positions(items)[b],
        forall|k: int|
            0 <= k < pending_positions(items).len() ==> #[trigger] pending_positions(items)[k]
                < items.len() && items[pending_positions(items)[k] as int].status is Pending,
        forall|i: int|
            0 <= i < items.len() && (#[trigger] items[i]).status is Pending ==> exists|k: int|
                0 <= k < pending_positions(items).len() && #[trigger] pending_positions(items)[k]
                    == i,
    decreases items.len(),
{
    if items.len() > 0 {
        let d = items.drop_last();
        law_pending_positions(d);
        let rest = pending_positions(d);
        let p = pending_positions(items);
        let n = items.len() - 1;
        assert forall|k: int| 0 <= k < rest.len() implies #[trigger] rest[k] < n && items[rest[k] as int]
            == d[rest[k] as int] by {}
        if items.last().status is Pending {
            assert(p == rest.push(n as usize));
            assert forall|i: int|
                0 <= i < items.len() && (#[trigger] items[i]).status is Pending implies exists|k: int|
                    0 <= k < p.len() && #[trigger] p[k] == i by {
                if i < n {
                    assert(d[i] == items[i]);
                    let k = choose|k: int| 0 <= k < rest.len() && #[trigger] rest[k] == i;
                    assert(p[k] == i);
                } else {
                    assert(p[rest.len() as int] == i);
                }
            }
        } else {
            assert forall|i: int|
                0 <= i < items.len() && (#[trigger] items[i]).status is Pending implies exists|k: int|
                    0 <= k < p.len() && #[trigger] p[k] == i by {
                assert(i != n);
                assert(d[i] == items[i]);
            }
        }
    }
}

proof fn lemma_url_name_skip(url: Seq<char>, i: int)
    requires
        0 <= i <= url.len(),
        forall|j: int| i <= j < url.len() ==> url[j] != '/',
        i > 0 ==> url[i - 1] == '/',
    ensures
        url_file_name(url) == url.subrange(i, url.len() as int),
    decreases url.len(),
{
    if url.len() > i {
        lemma_url_name_skip(url.drop_last(), i);
        assert(url.drop_last().subrange(i, url.len() - 1).push(url.last()) == url.subrange(
            i,
            url.len() as int,
        ));
    } else if i > 0 {
        assert(url.subrange(i, url.len() as int).len() == 0);
    } else {
        assert(url.len() == 0);
    }
}

/// The name shown for an upload from `url`.
pub fn url_name(url: &str) -> (r: String)
    ensures
        r@ == url_file_name(url@),
{
    let v = chars_of(url);
    let mut i = v.len();
    while i > 0 && v[i - 1] != '/'
        invariant
            i <= v@.len(),
            v@ == url@,
            forall|j: int| i <= j < v@.len() ==> v@[j] != '/',
        decreases i,
    {
        i -= 1;
    }
    proof {
        lemma_url_name_skip(v@, i as int);
    }
    let mut out: Vec<char> = Vec::new();
    let mut j = i;
    while j < v.len()
        invariant
            i <= j <= v@.len(),
            out@ == v@.subrange(i as int, j as int),
        decreases v.len() - j,
    {
        out.push(v[j]);
        j += 1;
    }
    string_of(&out)
}

} // verus!
