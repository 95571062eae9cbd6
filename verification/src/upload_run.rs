use vstd::prelude::*;
use crate::model::{api_error_text, format_api_error, ApiError, PostSafety};
use crate::scan::texts;
use crate::tags::{copy_texts, merge_tags, merged_tags};
use crate::text::{nat_text, opt_text, owned, push_nat, push_str, same_text};
use crate::upload::{distinct_keys, has_key, key_position, UploadQueue, UploadStatus, Uploadable};

verus! {

/// What the duplicate search reported for an upload.
#[derive(Clone, Copy, Debug)]
pub struct SearchSummary {
    pub exact_match: bool,
    pub similar_found: bool,
}

/// The request that creates a post from an upload (fields that an upload
/// never sets are left out).
pub struct CreatePostBody {
    pub safety: PostSafety,
    pub content_token: Option<String>,
    pub content_url: Option<String>,
    pub relations: Option<Vec<i64>>,
    pub anonymous: Option<bool>,
    pub tags: Option<Vec<String>>,
}

/// The settings of an "upload all" run, taken when it starts.
pub struct UploadOptions {
    pub skip_duplicate: bool,
    pub force_upload_similar: bool,
    pub pause_on_error: bool,
    pub single_safety: PostSafety,
    pub single_anonymous: bool,
    pub relate_all: bool,
    pub shared_tags: Vec<String>,
    /// Tags given to single items, under their keys.
    pub file_tags: Vec<(String, Vec<String>)>,
}

/// Where a run stands.
#[derive(Clone, Copy, Debug, PartialEq, Eq, Structural)]
pub enum UploadStage {
    /// About to take up the next pending item.
    Ready,
    /// Waiting for the file of the current item to be uploaded.
    Uploading,
    /// Waiting for the duplicate search on the current item.
    Searching,
    /// Waiting for the post of the current item to be created.
    Creating,
    /// Stopped or finished.
    Over,
}

/// How a run that went through every item ends.
#[derive(Clone, Copy, Debug, PartialEq, Eq, Structural)]
pub enum UploadOutcome {
    /// Exactly one post was created: show it.
    OpenPost(i64),
    /// Several posts were created: say how many.
    AllUploaded(usize),
    /// Nothing to show (some item failed, or nothing was created).
    Quiet,
}

/// What the page is to do next for a run.
pub enum UploadAction {
    /// Upload the file of the item at `index`.
    UploadFile { index: usize },
    /// Search for duplicates of the content of the item at `index`.
    ReverseSearch { index: usize, content_token: Option<String>, content_url: Option<String> },
    /// Create the post for the item at `index`.
    CreatePost { index: usize, body: CreatePostBody },
    /// Take up the next item.
    Continue,
    /// Stop on an error (pause on error), showing it.
    Stop { error: String },
    /// Every item was taken up.
    Finish { outcome: UploadOutcome },
}

/// A running "upload all": the pending items it goes through, in order, and
/// what it has learnt so far.
pub struct UploadRun {
    pub options: UploadOptions,
    pub bulk: bool,
    pub pending: Vec<usize>,
    pub position: usize,
    pub created: Vec<i64>,
    pub stage: UploadStage,
    /// The item being uploaded, as it was when it was taken up.
    pub key: String,
    pub name: String,
    pub safety: PostSafety,
    pub anonymous: bool,
    pub content_token: Option<String>,
    pub content_url: Option<String>,
}

pub open spec fn opt_ids(o: Option<Vec<i64>>) -> Option<Seq<i64>> {
    match o {
        Some(v) => Some(v@),
        None => None,
    }
}

pub open spec fn opt_texts(o: Option<Vec<String>>) -> Option<Seq<Seq<char>>> {
    match o {
        Some(v) => Some(texts(v@)),
        None => None,
    }
}

/// The tags given to the item with key `key`: those of the first entry
/// under that key.
pub open spec fn tags_under(entries: Seq<(String, Vec<String>)>, key: Seq<char>) -> Seq<Seq<char>>
    decreases entries.len(),
{
    if entries.len() == 0 {
        Seq::empty()
    } else if entries[0].0@ == key {
        texts(entries[0].1@)
    } else {
        tags_under(entries.drop_first(), key)
    }
}

proof fn lemma_tags_under_skip(entries: Seq<(String, Vec<String>)>, key: Seq<char>, k: int)
    requires
        0 <= k <= entries.len(),
        forall|j: int| 0 <= j < k ==> (#[trigger] entries[j]).0@ != key,
    ensures
        tags_under(entries, key) == tags_under(entries.skip(k), key),
    decreases k,
{
    if k == 0 {
        assert(entries.skip(0) =~= entries);
    } else {
        lemma_tags_under_skip(entries, key, k - 1);
        let e = entries.skip(k - 1);
        assert(e[0] == entries[k - 1]);
        assert(e.drop_first() =~= entries.skip(k));
    }
}

/// Started with the entries that `UploadQueue::file_tags` gives, a run
/// finds for each queued item exactly the tags typed for it, and none for
/// a key that is not queued.
pub proof fn law_file_tags_lookup<F>(
    items: Seq<Uploadable<F>>,
    tags: Seq<Seq<Seq<char>>>,
    entries: Seq<(String, Vec<String>)>,
    key: Seq<char>,
)
    requires
        distinct_keys(items),
        tags.len() == items.len(),
        entries.len() == items.len(),
        forall|i: int|
            0 <= i < entries.len() ==> (#[trigger] entries[i]).0@ == items[i].key@ && texts(
                entries[i].1@,
            ) == tags[i],
    ensures
        has_key(items, key) ==> tags_under(entries, key) == tags[key_position(items, key)],
        !has_key(items, key) ==> tags_under(entries, key) == Seq::<Seq<char>>::empty(),
{
    if has_key(items, key) {
        let p = key_position(items, key);
        assert(0 <= p < items.len() && items[p].key@ == key);
        assert forall|j: int| 0 <= j < p implies (#[trigger] entries[j]).0@ != key by {
            assert(items[j].key@ != items[p].key@);
        }
        lemma_tags_under_skip(entries, key, p);
        assert(entries.skip(p)[0] == entries[p]);
    } else {
        assert forall|j: int| 0 <= j < entries.len() implies (#[trigger] entries[j]).0@ != key by {
            if entries[j].0@ == key {
                assert(items[j].key@ == key);
            }
        }
        lemma_tags_under_skip(entries, key, entries.len() as int);
        assert(entries.skip(entries.len() as int).len() == 0);
    }
}

/// The tags of the post made from the item with key `key`: the shared tags,
/// then the item's own tags that are not among them (up to ASCII case).
pub open spec fn upload_tags(options: UploadOptions, key: Seq<char>) -> Seq<Seq<char>> {
    merged_tags(texts(options.shared_tags@), tags_under(options.file_tags@, key))
}

/// Whether the item status counts as finished for the end of a run.
pub open spec fn settled(s: UploadStatus) -> bool {
    s is Done || s is Skipped
}

/// How a run ends once it went through every item.
pub open spec fn run_outcome<F>(items: Seq<Uploadable<F>>, created: Seq<i64>) -> UploadOutcome {
    if (forall|i: int| 0 <= i < items.len() ==> settled(#[trigger] items[i].status)) {
        if created.len() == 1 {
            UploadOutcome::OpenPost(created[0])
        } else if created.len() > 0 {
            UploadOutcome::AllUploaded(created.len() as usize)
        } else {
            UploadOutcome::Quiet
        }
    } else {
        UploadOutcome::Quiet
    }
}

/// The request that creates the post of the current item.
pub open spec fn body_matches(run: UploadRun, body: CreatePostBody) -> bool {
    let anonymous = if run.bulk {
        run.anonymous
    } else {
        run.options.single_anonymous
    };
    let tags = upload_tags(run.options, run.key@);
    &&& body.safety == (if run.bulk {
        run.safety
    } else {
        run.options.single_safety
    })
    &&& opt_text(body.content_token) == opt_text(run.content_token)
    &&& opt_text(body.content_url) == opt_text(run.content_url)
    &&& opt_ids(body.relations) == (if run.options.relate_all && run.created@.len() > 0 {
        Some(run.created@)
    } else {
        None
    })
    &&& body.anonymous == (if anonymous {
        Some(true)
    } else {
        None
    })
    &&& opt_texts(body.tags) == (if tags.len() == 0 {
        None
    } else {
        Some(tags)
    })
}

/// The same run with another stage and position (the options, the pending
/// positions and the created posts are kept).
pub open spec fn same_plan(a: UploadRun, b: UploadRun) -> bool {
    &&& texts(a.options.shared_tags@) == texts(b.options.shared_tags@)
    &&& a.options.file_tags@ == b.options.file_tags@
    &&& a.options.skip_duplicate == b.options.skip_duplicate
    &&& a.options.force_upload_similar == b.options.force_upload_similar
    &&& a.options.pause_on_error == b.options.pause_on_error
    &&& a.options.single_safety == b.options.single_safety
    &&& a.options.single_anonymous == b.options.single_anonymous
    &&& a.options.relate_all == b.options.relate_all
    &&& a.bulk == b.bulk
    &&& a.pending@ == b.pending@
}


/// The position in the queue of the item that `run` has taken up.
pub open spec fn current_index(run: UploadRun) -> usize {
    run.pending@[run.position as int]
}

/// `after` is `before` with at most the status of the item at `index`
/// changed, and it holds `status_is` when there is such an item.
pub open spec fn status_changed<F>(
    before: Seq<Uploadable<F>>,
    after: Seq<Uploadable<F>>,
    index: int,
    status: spec_fn(UploadStatus) -> bool,
) -> bool {
    if 0 <= index < before.len() {
        &&& after == before.update(index, Uploadable { status: after[index].status, ..before[index] })
        &&& status(after[index].status)
    } else {
        after == before
    }
}

/// Whether a run checks each upload for duplicates before creating its post.
pub open spec fn checks_duplicates(options: UploadOptions) -> bool {
    options.skip_duplicate || !options.force_upload_similar
}

/// The step after the content of the current item is known: the duplicate
/// search when the run checks for duplicates, else the creation of the post.
pub open spec fn content_step(run: UploadRun, action: UploadAction) -> bool {
    if checks_duplicates(run.options) {
        &&& run.stage == UploadStage::Searching
        &&& action matches UploadAction::ReverseSearch { index, content_token, content_url }
            && index == current_index(run) && opt_text(content_token) == opt_text(run.content_token)
            && opt_text(content_url) == opt_text(run.content_url)
    } else {
        &&& run.stage == UploadStage::Creating
        &&& action matches UploadAction::CreatePost { index, body } && index == current_index(run)
            && body_matches(run, body)
    }
}

/// The current item failed with message `msg`: it is marked with the error;
/// the run stops with that error when it pauses on errors, else it goes on
/// with the next item.
pub open spec fn failed_step<F>(
    before: UploadRun,
    after: UploadRun,
    items_before: Seq<Uploadable<F>>,
    items_after: Seq<Uploadable<F>>,
    msg: Seq<char>,
    action: UploadAction,
) -> bool {
    &&& status_changed(
        items_before,
        items_after,
        current_index(before) as int,
        |s: UploadStatus| s matches UploadStatus::Error(m) && m@ == msg,
    )
    &&& after.created@ == before.created@
    &&& if before.options.pause_on_error {
        &&& after.stage == UploadStage::Over
        &&& after.position == before.position
        &&& action matches UploadAction::Stop { error } && error@ == msg
    } else {
        &&& after.stage == UploadStage::Ready
        &&& after.position == before.position + 1
        &&& action is Continue
    }
}

/// The current item is settled with status `status`, and the run goes on
/// with the next one.
pub open spec fn settled_step<F>(
    before: UploadRun,
    after: UploadRun,
    items_before: Seq<Uploadable<F>>,
    items_after: Seq<Uploadable<F>>,
    status: spec_fn(UploadStatus) -> bool,
    action: UploadAction,
) -> bool {
    &&& status_changed(items_before, items_after, current_index(before) as int, status)
    &&& after.stage == UploadStage::Ready
    &&& after.position == before.position + 1
    &&& action is Continue
}

/// The message for an item whose file could not be uploaded.
pub open spec fn upload_failed_text(name: Seq<char>, error: Seq<char>) -> Seq<char> {
    name + ": Upload failed \u{2014} "@ + error
}

/// The message for an item that looks like posts already on the server.
pub open spec fn similar_found_text(name: Seq<char>) -> Seq<char> {
    name + ": Similar posts found. Check 'Force upload similar' to override."@
}

/// The message for an item whose post could not be created.
pub open spec fn create_failed_text(name: Seq<char>, e: ApiError) -> Seq<char> {
    name + ": "@ + api_error_text(e)
}

/// The message shown when a run created several posts.
pub fn all_uploaded_message(count: usize) -> (r: String)
    ensures
        r@ == "All "@ + nat_text(count as nat) + " posts uploaded."@,
{
    let mut r = owned("All ");
    push_nat(&mut r, count as u64);
    push_str(&mut r, " posts uploaded.");
    r
}

/// How a run ends once it went through every item: a success outcome only
/// when every item is done or skipped; then the one created post is shown
/// when exactly one was created, the count is reported when several were,
/// and nothing is shown when none was. Any item left pending, uploading or
/// failed makes the run end quietly, however many posts were created.
pub proof fn law_run_outcome<F>(items: Seq<Uploadable<F>>, created: Seq<i64>)
    requires
        created.len() <= usize::MAX,
    ensures
        (exists|i: int| 0 <= i < items.len() && !settled(#[trigger] items[i].status)) ==> run_outcome(
            items,
            created,
        ) == UploadOutcome::Quiet,
        !(run_outcome(items, created) is Quiet) ==> forall|i: int|
            0 <= i < items.len() ==> (#[trigger] items[i].status is Done || items[i].status is Skipped),
        run_outcome(items, created) matches UploadOutcome::OpenPost(id) ==> created.len() == 1
            && created[0] == id,
        run_outcome(items, created) matches UploadOutcome::AllUploaded(n) ==> n == created.len()
            && n >= 2,
        (forall|i: int| 0 <= i < items.len() ==> settled(#[trigger] items[i].status)) ==> (
        created.len() == 0 <==> run_outcome(items, created) is Quiet),
{
    if exists|i: int| 0 <= i < items.len() && !settled(#[trigger] items[i].status) {
        let i = choose|i: int| 0 <= i < items.len() && !settled(#[trigger] items[i].status);
        assert(!(forall|j: int| 0 <= j < items.len() ==> settled(#[trigger] items[j].status)));
    }
}

/// With "relate all" on, the post created for an item is related to every
/// post created earlier in the run, in the order they were created, and to
/// nothing else; with it off, or before any post was created, no relations
/// are sent.
pub proof fn law_relations_are_earlier_posts(run: UploadRun, body: CreatePostBody)
    requires
        body_matches(run, body),
    ensures
        run.options.relate_all && run.created@.len() > 0 ==> (body.relations matches Some(r)
            && r@.len() == run.created@.len() && forall|i: int|
            0 <= i < r@.len() ==> #[trigger] r@[i] == run.created@[i]),
        !(run.options.relate_all && run.created@.len() > 0) ==> body.relations is None,
{
}

fn copy_opt(o: &Option<String>) -> (r: Option<String>)
    ensures
        opt_text(r) == opt_text(*o),
{
    match o {
        Some(s) => Some(owned(s.as_str())),
        None => None,
    }
}

fn copy_ids(v: &Vec<i64>) -> (r: Vec<i64>)
    ensures
        r@ == v@,
{
    let mut r: Vec<i64> = Vec::new();
    for i in 0..v.len()
        invariant
            r@ == v@.take(i as int),
    {
        r.push(v[i]);
        assert(r@ =~= v@.take(i + 1));
    }
    assert(v@.take(v.len() as int) =~= v@);
    r
}

fn tags_for_key(entries: &Vec<(String, Vec<String>)>, key: &str) -> (r: Vec<String>)
    ensures
        texts(r@) == tags_under(entries@, key@),
{
    let mut i: usize = 0;
    assert(entries@.skip(0) =~= entries@);
    while i < entries.len()
        invariant
            i <= entries@.len(),
            tags_under(entries@, key@) == tags_under(entries@.skip(i as int), key@),
        decreases entries.len() - i,
    {
        assert(entries@.skip(i as int).drop_first() =~= entries@.skip(i + 1));
        if same_text(entries[i].0.as_str(), key) {
            return copy_texts(&entries[i].1);
        }
        i += 1;
    }
    Vec::new()
}


impl UploadRun {
    /// Starts an "upload all" run over the pending items of `queue`; fails
    /// with `No files to upload.` when none is pending.
    pub fn start<F>(queue: &UploadQueue<F>, options: UploadOptions) -> (r: Result<
        UploadRun,
        String,
    >)
        ensures
            match r {
                Err(msg) => crate::upload::pending_positions(queue.view_items()).len() == 0
                    && msg@ == "No files to upload."@,
                Ok(run) => {
                    &&& run.pending@ == crate::upload::pending_positions(queue.view_items())
                    &&& run.pending@.len() > 0
                    &&& run.position == 0
                    &&& run.created@.len() == 0
                    &&& run.stage == UploadStage::Ready
                    &&& run.bulk == (queue.view_items().len() > 1)
                    &&& run.options == options
                },
            },
    {
        let pending = queue.pending_indices();
        if pending.len() == 0 {
            return Err(owned("No files to upload."));
        }
        Ok(
            UploadRun {
                options,
                bulk: queue.is_bulk(),
                pending,
                position: 0,
                created: Vec::new(),
                stage: UploadStage::Ready,
                key: String::new(),
                name: String::new(),
                safety: PostSafety::Safe,
                anonymous: false,
                content_token: None,
                content_url: None,
            },
        )
    }

    /// The position in the queue of the item to take up next, if any is left.
    pub fn next_index(&self) -> (r: Option<usize>)
        ensures
            r == (if self.position < self.pending@.len() {
                Some(self.pending@[self.position as int])
            } else {
                None
            }),
    {
        if self.position < self.pending.len() {
            Some(self.pending[self.position])
        } else {
            None
        }
    }

    fn make_body(&self) -> (body: CreatePostBody)
        ensures
            body_matches(*self, body),
    {
        let safety = if self.bulk {
            self.safety
        } else {
            self.options.single_safety
        };
        let anonymous = if self.bulk {
            self.anonymous
        } else {
            self.options.single_anonymous
        };
        let own_tags = tags_for_key(&self.options.file_tags, self.key.as_str());
        let all_tags = merge_tags(&self.options.shared_tags, &own_tags);
        let relations = if self.options.relate_all && self.created.len() > 0 {
            Some(copy_ids(&self.created))
        } else {
            None
        };
        CreatePostBody {
            safety,
            content_token: copy_opt(&self.content_token),
            content_url: copy_opt(&self.content_url),
            relations,
            anonymous: if anonymous {
                Some(true)
            } else {
                None
            },
            tags: if all_tags.len() == 0 {
                None
            } else {
                Some(all_tags)
            },
        }
    }

    fn content_known(&mut self) -> (action: UploadAction)
        requires
            old(self).position < old(self).pending@.len(),
        ensures
            content_step(*final(self), action),
            same_plan(*old(self), *final(self)),
            final(self).position == old(self).position,
            final(self).created@ == old(self).created@,
            final(self).key@ == old(self).key@,
            final(self).name@ == old(self).name@,
            final(self).safety == old(self).safety,
            final(self).anonymous == old(self).anonymous,
            opt_text(final(self).content_token) == opt_text(old(self).content_token),
            opt_text(final(self).content_url) == opt_text(old(self).content_url),
    {
        let index = self.pending[self.position];
        if self.options.skip_duplicate || !self.options.force_upload_similar {
            self.stage = UploadStage::Searching;
            UploadAction::ReverseSearch {
                index,
                content_token: copy_opt(&self.content_token),
                content_url: copy_opt(&self.content_url),
            }
        } else {
            self.stage = UploadStage::Creating;
            let body = self.make_body();
            UploadAction::CreatePost { index, body }
        }
    }

    fn fail<F>(&mut self, queue: &mut UploadQueue<F>, msg: String) -> (action: UploadAction)
        requires
            old(self).position < old(self).pending@.len(),
            old(queue).wf(),
        ensures
            final(queue).wf(),
            failed_step(
                *old(self),
                *final(self),
                old(queue).view_items(),
                final(queue).view_items(),
                msg@,
                action,
            ),
            same_plan(*old(self), *final(self)),
    {
        let index = self.pending[self.position];
        let ghost m = msg@;
        queue.set_status(index, UploadStatus::Error(owned(msg.as_str())));
        if self.options.pause_on_error {
            self.stage = UploadStage::Over;
            UploadAction::Stop { error: msg }
        } else {
            self.stage = UploadStage::Ready;
            assert(self.position < self.pending.len());
            self.position = self.position + 1;
            UploadAction::Continue
        }
    }

    fn settle<F>(&mut self, queue: &mut UploadQueue<F>, status: UploadStatus) -> (action: UploadAction)
        requires
            old(self).position < old(self).pending@.len(),
            old(queue).wf(),
        ensures
            final(queue).wf(),
            settled_step(
                *old(self),
                *final(self),
                old(queue).view_items(),
                final(queue).view_items(),
                |s: UploadStatus| s == status,
                action,
            ),
            same_plan(*old(self), *final(self)),
            final(self).created@ == old(self).created@,
    {
        let index = self.pending[self.position];
        queue.set_status(index, status);
        self.stage = UploadStage::Ready;
        assert(self.position < self.pending.len());
        self.position = self.position + 1;
        UploadAction::Continue
    }
}


impl UploadRun {
    /// Takes up the next pending item: marks it as uploading and asks for its
    /// file to be uploaded; an item given by URL goes straight on to the
    /// duplicate search or to the creation of its post. When no item is
    /// left, the run finishes and says how it ended.
    pub fn begin_next<F>(&mut self, queue: &mut UploadQueue<F>) -> (action: UploadAction)
        requires
            old(self).stage == UploadStage::Ready,
            old(queue).wf(),
            old(self).position <= old(self).pending@.len(),
            old(self).position < old(self).pending@.len() ==> current_index(*old(self))
                < old(queue).view_items().len(),
        ensures
            final(queue).wf(),
            same_plan(*old(self), *final(self)),
            final(self).created@ == old(self).created@,
            final(self).position == old(self).position,
            old(self).position == old(self).pending@.len() ==> {
                &&& final(self).stage == UploadStage::Over
                &&& final(queue).view_items() == old(queue).view_items()
                &&& action == UploadAction::Finish {
                    outcome: run_outcome(old(queue).view_items(), old(self).created@),
                }
            },
            old(self).position < old(self).pending@.len() ==> {
                let index = current_index(*old(self));
                let item = old(queue).view_items()[index as int];
                &&& final(queue).view_items() == old(queue).view_items().update(
                    index as int,
                    Uploadable { status: UploadStatus::Uploading, ..item },
                )
                &&& final(self).key@ == item.key@
                &&& final(self).name@ == item.name@
                &&& final(self).safety == item.safety
                &&& final(self).anonymous == item.anonymous
                &&& item.file is Some ==> {
                    &&& final(self).stage == UploadStage::Uploading
                    &&& action == UploadAction::UploadFile { index }
                }
                &&& item.file is None ==> {
                    &&& final(self).content_token is None
                    &&& opt_text(final(self).content_url) == opt_text(item.url)
                    &&& content_step(*final(self), action)
                }
            },
    {
        if self.position >= self.pending.len() {
            self.stage = UploadStage::Over;
            let outcome = run_end(queue, &self.created);
            return UploadAction::Finish { outcome };
        }
        let index = self.pending[self.position];
        let item = &queue.items()[index];
        self.key = owned(item.key.as_str());
        self.name = owned(item.name.as_str());
        self.safety = item.safety;
        self.anonymous = item.anonymous;
        let has_file = item.file.is_some();
        let url = copy_opt(&item.url);
        queue.set_status(index, UploadStatus::Uploading);
        if has_file {
            self.stage = UploadStage::Uploading;
            UploadAction::UploadFile { index }
        } else {
            self.content_token = None;
            self.content_url = url;
            self.content_known()
        }
    }

    /// Goes on after the file of the current item was uploaded (`Ok` with the
    /// content token) or failed (`Err` with the error's text).
    pub fn after_upload<F>(&mut self, queue: &mut UploadQueue<F>, result: Result<String, String>) -> (action: UploadAction)
        requires
            old(self).stage == UploadStage::Uploading,
            old(self).position < old(self).pending@.len(),
            old(queue).wf(),
        ensures
            final(queue).wf(),
            same_plan(*old(self), *final(self)),
            final(self).created@ == old(self).created@,
            match result {
                Ok(token) => {
                    &&& final(queue).view_items() == old(queue).view_items()
                    &&& final(self).position == old(self).position
                    &&& opt_text(final(self).content_token) == Some(token@)
                    &&& final(self).content_url is None
                    &&& final(self).key@ == old(self).key@
                    &&& content_step(*final(self), action)
                },
                Err(e) => failed_step(
                    *old(self),
                    *final(self),
                    old(queue).view_items(),
                    final(queue).view_items(),
                    upload_failed_text(old(self).name@, e@),
                    action,
                ),
            },
    {
        match result {
            Ok(token) => {
                self.content_token = Some(token);
                self.content_url = None;
                self.content_known()
            },
            Err(e) => {
                let mut msg = owned(self.name.as_str());
                push_str(&mut msg, ": Upload failed \u{2014} ");
                push_str(&mut msg, e.as_str());
                self.fail(queue, msg)
            },
        }
    }

    /// Goes on after the duplicate search on the current item (`None` when the
    /// search itself failed, which does not hold the upload up).
    pub fn after_search<F>(&mut self, queue: &mut UploadQueue<F>, found: Option<SearchSummary>) -> (action: UploadAction)
        requires
            old(self).stage == UploadStage::Searching,
            old(self).position < old(self).pending@.len(),
            old(queue).wf(),
        ensures
            final(queue).wf(),
            same_plan(*old(self), *final(self)),
            final(self).created@ == old(self).created@,
            ({
                let skip = found matches Some(f) && f.exact_match && old(
                    self,
                ).options.skip_duplicate;
                let similar = found matches Some(f) && f.similar_found && !old(
                    self,
                ).options.force_upload_similar;
                &&& skip ==> settled_step(
                    *old(self),
                    *final(self),
                    old(queue).view_items(),
                    final(queue).view_items(),
                    |s: UploadStatus| s is Skipped,
                    action,
                )
                &&& !skip && similar ==> failed_step(
                    *old(self),
                    *final(self),
                    old(queue).view_items(),
                    final(queue).view_items(),
                    similar_found_text(old(self).name@),
                    action,
                )
                &&& !skip && !similar ==> {
                    &&& final(queue).view_items() == old(queue).view_items()
                    &&& final(self).position == old(self).position
                    &&& final(self).stage == UploadStage::Creating
                    &&& action matches UploadAction::CreatePost { index, body } && index
                        == current_index(*old(self)) && body_matches(*old(self), body)
                }
            }),
    {
        if let Some(f) = found {
            if f.exact_match && self.options.skip_duplicate {
                return self.settle(queue, UploadStatus::Skipped);
            }
            if f.similar_found && !self.options.force_upload_similar {
                let mut msg = owned(self.name.as_str());
                push_str(&mut msg, ": Similar posts found. Check 'Force upload similar' to override.");
                return self.fail(queue, msg);
            }
        }
        let index = self.pending[self.position];
        let body = self.make_body();
        self.stage = UploadStage::Creating;
        UploadAction::CreatePost { index, body }
    }

    /// Goes on after the post of the current item was created (`Ok` with its
    /// id, when the server gave one) or not.
    pub fn after_create<F>(&mut self, queue: &mut UploadQueue<F>, result: Result<Option<i64>, ApiError>) -> (action: UploadAction)
        requires
            old(self).stage == UploadStage::Creating,
            old(self).position < old(self).pending@.len(),
            old(queue).wf(),
        ensures
            final(queue).wf(),
            same_plan(*old(self), *final(self)),
            match result {
                Ok(id) => {
                    &&& final(self).created@ == (match id {
                        Some(i) => old(self).created@.push(i),
                        None => old(self).created@,
                    })
                    &&& settled_step(
                        *old(self),
                        *final(self),
                        old(queue).view_items(),
                        final(queue).view_items(),
                        |s: UploadStatus| s is Done,
                        action,
                    )
                },
                Err(e) => failed_step(
                    *old(self),
                    *final(self),
                    old(queue).view_items(),
                    final(queue).view_items(),
                    create_failed_text(old(self).name@, e),
                    action,
                ),
            },
    {
        match result {
            Ok(id) => {
                if let Some(i) = id {
                    self.created.push(i);
                }
                self.settle(queue, UploadStatus::Done)
            },
            Err(e) => {
                let mut msg = owned(self.name.as_str());
                push_str(&mut msg, ": ");
                let text = format_api_error(&e);
                push_str(&mut msg, text.as_str());
                self.fail(queue, msg)
            },
        }
    }
}

fn run_end<F>(queue: &UploadQueue<F>, created: &Vec<i64>) -> (r: UploadOutcome)
    ensures
        r == run_outcome(queue.view_items(), created@),
{
    let items = queue.items();
    let mut all = true;
    for i in 0..items.len()
        invariant
            items@ == queue.view_items(),
            all == (forall|j: int| 0 <= j < i ==> settled(#[trigger] items@[j].status)),
    {
        match items[i].status {
            UploadStatus::Done | UploadStatus::Skipped => {},
            _ => {
                all = false;
            },
        }
    }
    if all {
        if created.len() == 1 {
            UploadOutcome::OpenPost(created[0])
        } else if created.len() > 0 {
            UploadOutcome::AllUploaded(created.len())
        } else {
            UploadOutcome::Quiet
        }
    } else {
        UploadOutcome::Quiet
    }
}

} // verus!
