use vstd::prelude::*;
use crate::model::{api_error_text, format_api_error, ApiError};
use crate::scan::{comma_names, comma_names_of, joined, texts};
use crate::edits::{opt_texts_of, UpdatePostBody};
use crate::model::PostSafety;
use crate::selection::Selection;
use crate::tags::{merge_tags, merged_tags};
use crate::text::{int_text, owned, push_int, push_str};
use crate::edits::bulk_body_only;

verus! {

/// The tags of a post after "add tags to selected posts": its tags, then
/// the tags typed in the dialog (comma separated) that it does not have yet,
/// ignoring ASCII case.
pub fn bulk_tags(existing: &Vec<String>, field: &str) -> (r: Vec<String>)
    ensures
        texts(r@) == merged_tags(texts(existing@), comma_names(field@)),
{
    let added = comma_names_of(field);
    merge_tags(existing, &added)
}

/// The tags typed in the bulk tag dialog.
pub fn bulk_tag_input(field: &str) -> (r: Vec<String>)
    ensures
        texts(r@) == comma_names(field@),
{
    comma_names_of(field)
}

/// The positions of the listed posts whose id is selected, in order.
pub open spec fn selected_positions(post_ids: Seq<Option<i64>>, chosen: Set<i64>) -> Seq<usize>
    decreases post_ids.len(),
{
    if post_ids.len() == 0 {
        Seq::empty()
    } else {
        let rest = selected_positions(post_ids.drop_last(), chosen);
        match post_ids.last() {
            Some(id) => if chosen.contains(id) {
                rest.push((post_ids.len() - 1) as usize)
            } else {
                rest
            },
            None => rest,
        }
    }
}

/// The positions of the listed posts that a bulk action applies to.
pub fn selected_posts(post_ids: &Vec<Option<i64>>, selection: &Selection) -> (r: Vec<usize>)
    ensures
        r@ == selected_positions(post_ids@, selection.chosen()),
{
    let mut r: Vec<usize> = Vec::new();
    for i in 0..post_ids.len()
        invariant
            r@ == selected_positions(post_ids@.take(i as int), selection.chosen()),
    {
        assert(post_ids@.take(i + 1).drop_last() =~= post_ids@.take(i as int));
        if let Some(id) = post_ids[i] {
            if selection.contains(id) {
                r.push(i);
            }
        }
    }
    assert(post_ids@.take(post_ids.len() as int) =~= post_ids@);
    r
}

/// The message for a post that a bulk action failed on.
pub open spec fn post_error_text(id: i64, e: ApiError) -> Seq<char> {
    "Post "@ + int_text(id as int) + ": "@ + api_error_text(e)
}

/// Describes a failure of a bulk action on post `id`.
pub fn post_error(id: i64, e: &ApiError) -> (r: String)
    ensures
        r@ == post_error_text(id, *e),
{
    let mut r = owned("Post ");
    push_int(&mut r, id);
    push_str(&mut r, ": ");
    let m = format_api_error(e);
    push_str(&mut r, m.as_str());
    r
}

/// What a bulk action reports: nothing when every post went through, else
/// the failures joined with `; `.
pub fn bulk_error_message(errors: &Vec<String>) -> (r: Option<String>)
    ensures
        errors@.len() == 0 ==> r is None,
        errors@.len() > 0 ==> (r matches Some(m) && m@ == joined(texts(errors@), "; "@)),
{
    if errors.len() == 0 {
        return None;
    }
    let mut m = owned(errors[0].as_str());
    assert(texts(errors@).take(1) =~= seq![errors@[0]@]);
    for i in 1..errors.len()
        invariant
            errors@.len() > 0,
            m@ == joined(texts(errors@).take(i as int), "; "@),
    {
        push_str(&mut m, "; ");
        push_str(&mut m, errors[i].as_str());
        assert(texts(errors@).take(i + 1).drop_last() =~= texts(errors@).take(i as int));
    }
    assert(texts(errors@).take(errors.len() as int) =~= texts(errors@));
    Some(m)
}

/// The request of the bulk tag action for one post: its version and its
/// tags with the typed ones added; every other field is left out.
pub fn bulk_tag_body(version: &str, existing: &Vec<String>, field: &str) -> (b: UpdatePostBody)
    ensures
        b.version@ == version@,
        opt_texts_of(b.tags) == Some(merged_tags(texts(existing@), comma_names(field@))),
        b.safety is None,
        bulk_body_only(b),
{
    UpdatePostBody {
        version: owned(version),
        safety: None,
        source: None,
        description: None,
        relations: None,
        tags: Some(bulk_tags(existing, field)),
        flags: None,
        content_token: None,
        thumbnail_token: None,
    }
}

/// The request of the bulk safety action for one post: its version and the
/// chosen safety; every other field is left out.
pub fn bulk_safety_body(version: &str, safety: PostSafety) -> (b: UpdatePostBody)
    ensures
        b.version@ == version@,
        b.safety == Some(safety),
        b.tags is None,
        bulk_body_only(b),
{
    UpdatePostBody {
        version: owned(version),
        safety: Some(safety),
        source: None,
        description: None,
        relations: None,
        tags: None,
        flags: None,
        content_token: None,
        thumbnail_token: None,
    }
}

/// Ends a bulk action over the selected posts, given the error texts of the
/// requests that failed: when none failed, selecting ends with nothing
/// selected and no error is shown; else the selection stays as it was and
/// the errors are shown joined with `; `.
pub fn finish_bulk_run(selection: &mut Selection, errors: &Vec<String>) -> (r: Option<String>)
    ensures
        errors@.len() == 0 ==> {
            &&& r is None
            &&& final(selection).wf()
            &&& !final(selection).is_selecting()
            &&& final(selection).chosen() == Set::<i64>::empty()
        },
        errors@.len() > 0 ==> {
            &&& r matches Some(m) && m@ == joined(texts(errors@), "; "@)
            &&& *final(selection) == *old(selection)
        },
{
    let r = bulk_error_message(errors);
    if r.is_none() {
        selection.leave();
    }
    r
}

} // verus!
