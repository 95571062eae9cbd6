use vstd::prelude::*;
use crate::scan::texts;
use crate::text::{int_text, owned, push_int, push_str, same_text};
use crate::uri::{push_uri_component, uri_component};

verus! {

/// `/post/{id}`.
pub open spec fn post_path(id: i64) -> Seq<char> {
    "/post/"@ + int_text(id as int)
}

/// `/pool/{id}`.
pub open spec fn pool_path(id: i64) -> Seq<char> {
    "/pool/"@ + int_text(id as int)
}

/// `/tag/{name}` with the name URI-component encoded.
pub open spec fn tag_path(name: Seq<char>) -> Seq<char> {
    "/tag/"@ + uri_component(name)
}

fn path_with_id(prefix: &str, id: i64) -> (r: String)
    ensures
        r@ == prefix@ + int_text(id as int),
{
    let mut r = owned(prefix);
    push_int(&mut r, id);
    r
}

fn path_with_name(prefix: &str, name: &str, suffix: &str) -> (r: String)
    ensures
        r@ == prefix@ + uri_component(name@) + suffix@,
{
    let mut r = owned(prefix);
    push_uri_component(&mut r, name);
    push_str(&mut r, suffix);
    r
}

/// Where a new pool is shown: its page, under id 0 when the server gave none.
pub fn created_pool_route(id: Option<i64>) -> (r: String)
    ensures
        r@ == pool_path(
            match id {
                Some(i) => i,
                None => 0,
            },
        ),
{
    path_with_id("/pool/", match id {
        Some(i) => i,
        None => 0,
    })
}

/// Where a pool merge leads: the merged pool, or the target when the server
/// named none.
pub fn merged_pool_route(id: Option<i64>, target: i64) -> (r: String)
    ensures
        r@ == pool_path(
            match id {
                Some(i) => i,
                None => target,
            },
        ),
{
    path_with_id("/pool/", match id {
        Some(i) => i,
        None => target,
    })
}

/// Where a post merge leads: the merged post, or the target when the server
/// named none.
pub fn merged_post_route(id: Option<i64>, target: i64) -> (r: String)
    ensures
        r@ == post_path(
            match id {
                Some(i) => i,
                None => target,
            },
        ),
{
    path_with_id("/post/", match id {
        Some(i) => i,
        None => target,
    })
}

/// The first name of a tag as the server answered it (empty when none).
pub open spec fn first_name(names: Option<Seq<Seq<char>>>) -> Seq<char> {
    match names {
        Some(n) => if n.len() > 0 {
            n[0]
        } else {
            Seq::empty()
        },
        None => Seq::empty(),
    }
}

pub open spec fn opt_names(names: &Option<Vec<String>>) -> Option<Seq<Seq<char>>> {
    match names {
        Some(v) => Some(texts(v@)),
        None => None,
    }
}

fn first_of(names: &Option<Vec<String>>) -> (r: &str)
    ensures
        r@ == first_name(opt_names(names)),
{
    proof {
        reveal_strlit("");
    }
    match names {
        Some(v) => if v.len() > 0 {
            v[0].as_str()
        } else {
            ""
        },
        None => "",
    }
}

/// Where a created or merged tag is shown: the page of its first name.
pub fn tag_route(names: &Option<Vec<String>>) -> (r: String)
    ensures
        r@ == tag_path(first_name(opt_names(names))),
{
    proof {
        reveal_strlit("");
    }
    let r = path_with_name("/tag/", first_of(names), "");
    assert(r@ =~= tag_path(first_name(opt_names(names))));
    r
}

/// After a tag was saved: its editor under its new first name when that
/// name changed (a tag without names keeps `current`), else nowhere.
pub fn renamed_tag_route(current: &str, names: &Option<Vec<String>>) -> (r: Option<String>)
    ensures
        ({
            let n = if opt_names(names) matches Some(v) && v.len() > 0 {
                first_name(opt_names(names))
            } else {
                current@
            };
            &&& n == current@ ==> r is None
            &&& n != current@ ==> (r matches Some(p) && p@ == tag_path(n) + "/edit"@)
        }),
{
    let has_first = match names {
        Some(v) => v.len() > 0,
        None => false,
    };
    let n = if has_first {
        first_of(names)
    } else {
        current
    };
    if same_text(n, current) {
        None
    } else {
        Some(path_with_name("/tag/", n, "/edit"))
    }
}

/// After a user was saved under a new name: that user's editor.
pub fn renamed_user_route(renamed: Option<&str>) -> (r: Option<String>)
    ensures
        match renamed {
            Some(n) => r matches Some(p) && p@ == "/user/"@ + uri_component(n@) + "/edit"@,
            None => r is None,
        },
{
    match renamed {
        Some(n) => Some(path_with_name("/user/", n, "/edit")),
        None => None,
    }
}

/// The post page a keyboard key leads to: `e` the editor of the shown
/// post (when it has a positive id), `a` or left arrow the previous post,
/// `d` or right arrow the next one.
pub open spec fn post_key_target(key: Seq<char>, post_id: i64, prev: Option<i64>, next: Option<i64>) -> Option<Seq<char>> {
    if key == "e"@ {
        if post_id > 0 {
            Some(post_path(post_id) + "/edit"@)
        } else {
            None
        }
    } else if key == "a"@ || key == "ArrowLeft"@ {
        match prev {
            Some(p) => Some(post_path(p)),
            None => None,
        }
    } else if key == "d"@ || key == "ArrowRight"@ {
        match next {
            Some(n) => Some(post_path(n)),
            None => None,
        }
    } else {
        None
    }
}

/// Where a key pressed on a post page leads.
pub fn post_key_route(key: &str, post_id: i64, prev: Option<i64>, next: Option<i64>) -> (r: Option<String>)
    ensures
        crate::text::opt_text(r) == post_key_target(key@, post_id, prev, next),
{
    if same_text(key, "e") {
        if post_id > 0 {
            let mut r = path_with_id("/post/", post_id);
            push_str(&mut r, "/edit");
            Some(r)
        } else {
            None
        }
    } else if same_text(key, "a") || same_text(key, "ArrowLeft") {
        match prev {
            Some(p) => Some(path_with_id("/post/", p)),
            None => None,
        }
    } else if same_text(key, "d") || same_text(key, "ArrowRight") {
        match next {
            Some(n) => Some(path_with_id("/post/", n)),
            None => None,
        }
    } else {
        None
    }
}

} // verus!
