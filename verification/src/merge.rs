use vstd::prelude::*;
use crate::scan::{parse_i64_chars, parse_i64_spec, trim, trim_chars};
use crate::text::{chars_of, owned, same_chars, string_of};

verus! {

/// The request that merges one tag or pool (`remove`) into another.
pub struct MergeBody<T> {
    pub remove: T,
    pub merge_to: T,
    pub remove_version: String,
    pub merge_to_version: String,
}

/// The request that merges one post into another.
pub struct PostMergeBody {
    pub remove: i64,
    pub merge_to: i64,
    pub remove_version: String,
    pub merge_to_version: String,
    pub replace_content: bool,
}

/// Why a merge form was not sent.
pub enum MergeRefusal {
    /// The form is wrong: show the message.
    Invalid(String),
    /// The target's version is not known yet: show the message and load it.
    TargetVersionPending(String),
}

/// The target id typed in a merge form: the trimmed field read as an integer.
pub open spec fn target_id_of(field: Seq<char>) -> Option<i64> {
    parse_i64_spec(trim(field))
}

/// Reads the target id of a merge form.
pub fn target_id(field: &str) -> (r: Option<i64>)
    ensures
        r == target_id_of(field@),
{
    parse_i64_chars(&trim_chars(&chars_of(field)))
}

/// The outcome of the tag merge form for tag `source`.
pub open spec fn tag_merge_outcome(
    source: Seq<char>,
    target: Seq<char>,
    confirmed: bool,
    target_version: Seq<char>,
) -> Result<Seq<char>, (bool, Seq<char>)> {
    if trim(target).len() == 0 {
        Err((false, "Target tag is required."@))
    } else if trim(target) == source {
        Err((false, "Cannot merge a tag with itself."@))
    } else if !confirmed {
        Err((false, "Please confirm that you want to merge this tag."@))
    } else if target_version.len() == 0 {
        Err((true, "Loading target tag version, please try again..."@))
    } else {
        Ok(trim(target))
    }
}

pub open spec fn refusal_view(r: MergeRefusal) -> (bool, Seq<char>) {
    match r {
        MergeRefusal::Invalid(m) => (false, m@),
        MergeRefusal::TargetVersionPending(m) => (true, m@),
    }
}

/// Checks the tag merge form and builds its request: the trimmed target must
/// be given, differ from the source and be confirmed, and its version must
/// be known.
pub fn tag_merge_request(
    source: &str,
    target: &str,
    confirmed: bool,
    source_version: &str,
    target_version: &str,
) -> (r: Result<MergeBody<String>, MergeRefusal>)
    ensures
        match r {
            Ok(b) => {
                &&& tag_merge_outcome(source@, target@, confirmed, target_version@) == Ok::<
                    Seq<char>,
                    (bool, Seq<char>),
                >(b.merge_to@)
                &&& b.remove@ == source@
                &&& b.remove_version@ == source_version@
                &&& b.merge_to_version@ == target_version@
            },
            Err(e) => tag_merge_outcome(source@, target@, confirmed, target_version@) == Err::<
                Seq<char>,
                (bool, Seq<char>),
            >(refusal_view(e)),
        },
{
    let t = trim_chars(&chars_of(target));
    if t.len() == 0 {
        return Err(MergeRefusal::Invalid(owned("Target tag is required.")));
    }
    if same_chars(&t, &chars_of(source)) {
        return Err(MergeRefusal::Invalid(owned("Cannot merge a tag with itself.")));
    }
    if !confirmed {
        return Err(
            MergeRefusal::Invalid(owned("Please confirm that you want to merge this tag.")),
        );
    }
    if target_version.is_empty() {
        return Err(
            MergeRefusal::TargetVersionPending(
                owned("Loading target tag version, please try again..."),
            ),
        );
    }
    Ok(
        MergeBody {
            remove: owned(source),
            merge_to: string_of(&t),
            remove_version: owned(source_version),
            merge_to_version: owned(target_version),
        },
    )
}

/// The outcome of the pool merge form for pool `source`.
pub open spec fn pool_merge_outcome(source: i64, target: Seq<char>, target_version: Seq<char>) -> Result<
    i64,
    (bool, Seq<char>),
> {
    match target_id_of(target) {
        None => Err((false, "Invalid target pool ID."@)),
        Some(t) => if t == source {
            Err((false, "Cannot merge a pool with itself."@))
        } else if target_version.len() == 0 {
            Err((true, "Loading target pool version..."@))
        } else {
            Ok(t)
        },
    }
}

/// Checks the pool merge form and builds its request.
pub fn pool_merge_request(
    source: i64,
    target: &str,
    source_version: &str,
    target_version: &str,
) -> (r: Result<MergeBody<i64>, MergeRefusal>)
    ensures
        match r {
            Ok(b) => {
                &&& pool_merge_outcome(source, target@, target_version@) == Ok::<
                    i64,
                    (bool, Seq<char>),
                >(b.merge_to)
                &&& b.remove == source
                &&& b.remove_version@ == source_version@
                &&& b.merge_to_version@ == target_version@
            },
            Err(e) => pool_merge_outcome(source, target@, target_version@) == Err::<
                i64,
                (bool, Seq<char>),
            >(refusal_view(e)),
        },
{
    let t = match target_id(target) {
        None => {
            return Err(MergeRefusal::Invalid(owned("Invalid target pool ID.")));
        },
        Some(t) => t,
    };
    if t == source {
        return Err(MergeRefusal::Invalid(owned("Cannot merge a pool with itself.")));
    }
    if target_version.is_empty() {
        return Err(MergeRefusal::TargetVersionPending(owned("Loading target pool version...")));
    }
    Ok(
        MergeBody {
            remove: source,
            merge_to: t,
            remove_version: owned(source_version),
            merge_to_version: owned(target_version),
        },
    )
}

/// The outcome of the post merge form for post `source`.
pub open spec fn post_merge_outcome(source: i64, target: Seq<char>, target_version: Seq<char>) -> Result<
    i64,
    (bool, Seq<char>),
> {
    match target_id_of(target) {
        None => Err((false, "Invalid target post ID."@)),
        Some(t) => if t == source {
            Err((false, "Cannot merge a post with itself."@))
        } else if target_version.len() == 0 {
            Err((true, "Loading target post version..."@))
        } else {
            Ok(t)
        },
    }
}

/// Checks the post merge form and builds its request.
pub fn post_merge_request(
    source: i64,
    target: &str,
    source_version: &str,
    target_version: &str,
    replace_content: bool,
) -> (r: Result<PostMergeBody, MergeRefusal>)
    ensures
        match r {
            Ok(b) => {
                &&& post_merge_outcome(source, target@, target_version@) == Ok::<
                    i64,
                    (bool, Seq<char>),
                >(b.merge_to)
                &&& b.remove == source
                &&& b.remove_version@ == source_version@
                &&& b.merge_to_version@ == target_version@
                &&& b.replace_content == replace_content
            },
            Err(e) => post_merge_outcome(source, target@, target_version@) == Err::<
                i64,
                (bool, Seq<char>),
            >(refusal_view(e)),
        },
{
    let t = match target_id(target) {
        None => {
            return Err(MergeRefusal::Invalid(owned("Invalid target post ID.")));
        },
        Some(t) => t,
    };
    if t == source {
        return Err(MergeRefusal::Invalid(owned("Cannot merge a post with itself.")));
    }
    if target_version.is_empty() {
        return Err(MergeRefusal::TargetVersionPending(owned("Loading target post version...")));
    }
    Ok(
        PostMergeBody {
            remove: source,
            merge_to: t,
            remove_version: owned(source_version),
            merge_to_version: owned(target_version),
            replace_content,
        },
    )
}

/// A merge that goes ahead never merges a tag, pool or post into itself,
/// and it goes ahead only once the target's version is known.
pub proof fn law_no_self_merge(
    source_tag: Seq<char>,
    source_id: i64,
    target: Seq<char>,
    confirmed: bool,
    target_version: Seq<char>,
)
    ensures
        tag_merge_outcome(source_tag, target, confirmed, target_version) matches Ok(t) ==> t
            != source_tag && target_version.len() > 0,
        pool_merge_outcome(source_id, target, target_version) matches Ok(t) ==> t != source_id
            && target_version.len() > 0,
        post_merge_outcome(source_id, target, target_version) matches Ok(t) ==> t != source_id
            && target_version.len() > 0,
{
}

} // verus!
