use vstd::prelude::*;
use crate::model::{mime_display, mime_label, MimeType, PostType};
use crate::scan::{parse_i64_chars, parse_i64_spec, split_words, texts, words};
use crate::size::{file_size_text, format_file_size};
use crate::text::{chars_of, int_text, opt_text, owned, push_char, push_int, push_str, same_text, string_of};
use crate::uri::{push_uri_component, uri_component};
use crate::uri::uri_decoded;
use crate::web::{decode_uri_component, url_host_of, url_hostname};

verus! {

/// The domain shown for a source URL: the host the URL parser found, or the
/// URL itself when there is none (or it is empty).
pub open spec fn domain_text(url: Seq<char>, host: Option<Seq<char>>) -> Seq<char> {
    match host {
        Some(h) => if h.len() > 0 {
            h
        } else {
            url
        },
        None => url,
    }
}

/// The domain shown for `url`, given the host name that the URL parser read
/// from it (`None` when it could not parse it).
pub fn domain_from_host(url: &str, host: Option<String>) -> (r: String)
    ensures
        r@ == domain_text(url@, opt_text(host)),
{
    match host {
        Some(h) => if h.as_str().is_empty() {
            owned(url)
        } else {
            h
        },
        None => owned(url),
    }
}

/// Extract the hostname from a URL string (the URL itself when it has none).
pub fn extract_domain(url: &str) -> (r: String)
    ensures
        r@ == domain_text(url@, url_host_of(url@)),
{
    let host = url_hostname(url);
    domain_from_host(url, host)
}

/// The source URLs of a post: the words of its source field.
pub fn source_urls(source: &str) -> (r: Vec<String>)
    ensures
        texts(r@) == words(source@),
{
    split_words(source)
}

/// The text of a post's download link: its size, its type (`unknown` when
/// not known) and, when both are known, `(width x height)`, separated by
/// spaces.
pub open spec fn download_text(
    size: Option<i64>,
    mime: Option<MimeType>,
    width: Option<i64>,
    height: Option<i64>,
) -> Seq<char> {
    (match size {
        Some(b) => file_size_text(b as int),
        None => Seq::empty(),
    }) + " "@ + (match mime {
        Some(m) => mime_label(m),
        None => "unknown"@,
    }) + " "@ + (match (width, height) {
        (Some(w), Some(h)) => "("@ + int_text(w as int) + "x"@ + int_text(h as int) + ")"@,
        _ => Seq::empty(),
    })
}

/// Builds the text of a post's download link.
pub fn download_label(
    size: Option<i64>,
    mime: Option<MimeType>,
    width: Option<i64>,
    height: Option<i64>,
) -> (r: String)
    ensures
        r@ == download_text(size, mime, width, height),
{
    let mut r = match size {
        Some(b) => format_file_size(b),
        None => String::new(),
    };
    let ghost a = r@;
    push_str(&mut r, " ");
    match mime {
        Some(m) => push_str(&mut r, mime_display(m)),
        None => push_str(&mut r, "unknown"),
    }
    push_str(&mut r, " ");
    let ghost b = r@;
    match (width, height) {
        (Some(w), Some(h)) => {
            push_str(&mut r, "(");
            push_int(&mut r, w);
            push_str(&mut r, "x");
            push_int(&mut r, h);
            push_str(&mut r, ")");
            assert(r@ =~= b + ("("@ + int_text(w as int) + "x"@ + int_text(h as int) + ")"@));
        },
        _ => {},
    }
    assert(r@ =~= download_text(size, mime, width, height));
    r
}

/// Links to search for a post's image on other sites.
pub struct ReverseSearchLinks {
    pub iqdb: Option<String>,
    pub danbooru: Option<String>,
    pub google_lens: Option<String>,
}

/// The absolute address of the post's content: the page's origin (when it
/// is known) followed by the content URL.
pub open spec fn absolute_url(origin: Option<Seq<char>>, content_url: Seq<char>) -> Seq<char> {
    match origin {
        Some(o) => o + content_url,
        None => Seq::empty(),
    }
}

/// The reverse-search links of a post: IQDB and Google Lens by the absolute
/// content address (URI-component encoded), Danbooru by the MD5 checksum;
/// each left out when what it needs is empty.
pub fn reverse_search_links(origin: Option<&str>, content_url: &str, checksum_md5: &str) -> (r: ReverseSearchLinks)
    ensures
        ({
            let abs = absolute_url(
                match origin {
                    Some(o) => Some(o@),
                    None => None,
                },
                content_url@,
            );
            &&& opt_text(r.iqdb) == (if abs.len() > 0 {
                Some("https://iqdb.org/?url="@ + uri_component(abs))
            } else {
                None
            })
            &&& opt_text(r.danbooru) == (if checksum_md5@.len() > 0 {
                Some("https://danbooru.donmai.us/posts?tags=md5:"@ + checksum_md5@)
            } else {
                None
            })
            &&& opt_text(r.google_lens) == (if abs.len() > 0 {
                Some("https://lens.google.com/uploadbyurl?url="@ + uri_component(abs))
            } else {
                None
            })
        }),
{
    let mut abs = String::new();
    if let Some(o) = origin {
        push_str(&mut abs, o);
        push_str(&mut abs, content_url);
    }
    let iqdb = if abs.as_str().is_empty() {
        None
    } else {
        let mut u = owned("https://iqdb.org/?url=");
        push_uri_component(&mut u, abs.as_str());
        Some(u)
    };
    let danbooru = if checksum_md5.is_empty() {
        None
    } else {
        let mut u = owned("https://danbooru.donmai.us/posts?tags=md5:");
        push_str(&mut u, checksum_md5);
        Some(u)
    };
    let google_lens = if abs.as_str().is_empty() {
        None
    } else {
        let mut u = owned("https://lens.google.com/uploadbyurl?url=");
        push_uri_component(&mut u, abs.as_str());
        Some(u)
    };
    ReverseSearchLinks { iqdb, danbooru, google_lens }
}

/// The link to the resource of a history entry: posts and pools by numeric
/// id, tags (and their categories, implications and suggestions) and users
/// (and their tokens) by name; none for comments and anything else.
pub open spec fn resource_href(resource_type: Seq<char>, resource_id: Seq<char>) -> Option<Seq<char>> {
    if resource_type == "Post"@ {
        match parse_i64_spec(resource_id) {
            Some(id) => Some("/post/"@ + int_text(id as int)),
            None => None,
        }
    } else if resource_type == "Tag"@ || resource_type == "TagCategory"@ || resource_type
        == "TagImplication"@ || resource_type == "TagSuggestion"@ {
        Some("/tag/"@ + resource_id)
    } else if resource_type == "Pool"@ || resource_type == "PoolCategory"@ {
        match parse_i64_spec(resource_id) {
            Some(id) => Some("/pool/"@ + int_text(id as int)),
            None => None,
        }
    } else if resource_type == "User"@ || resource_type == "UserToken"@ {
        Some("/user/"@ + resource_id)
    } else {
        None
    }
}

fn prefixed_id(prefix: &str, id: i64) -> (r: String)
    ensures
        r@ == prefix@ + int_text(id as int),
{
    let mut r = owned(prefix);
    push_int(&mut r, id);
    r
}

fn prefixed(prefix: &str, rest: &str) -> (r: String)
    ensures
        r@ == prefix@ + rest@,
{
    let mut r = owned(prefix);
    push_str(&mut r, rest);
    r
}

/// Generate a link to the resource based on its type and ID.
pub fn resource_link(resource_type: &str, resource_id: &str) -> (r: Option<String>)
    ensures
        opt_text(r) == resource_href(resource_type@, resource_id@),
{
    if same_text(resource_type, "Post") {
        match parse_i64_chars(&chars_of(resource_id)) {
            Some(id) => Some(prefixed_id("/post/", id)),
            None => None,
        }
    } else if same_text(resource_type, "Tag") || same_text(resource_type, "TagCategory")
        || same_text(resource_type, "TagImplication") || same_text(
        resource_type,
        "TagSuggestion",
    ) {
        Some(prefixed("/tag/", resource_id))
    } else if same_text(resource_type, "Pool") || same_text(resource_type, "PoolCategory") {
        match parse_i64_chars(&chars_of(resource_id)) {
            Some(id) => Some(prefixed_id("/pool/", id)),
            None => None,
        }
    } else if same_text(resource_type, "User") || same_text(resource_type, "UserToken") {
        Some(prefixed("/user/", resource_id))
    } else {
        None
    }
}

/// Where the home page's search goes: the post list, with the query (URI
/// component encoded) and 42 posts per page when a query was typed.
pub open spec fn home_search_href(query: Seq<char>) -> Seq<char> {
    if query.len() == 0 {
        "/posts"@
    } else {
        "/posts?query="@ + uri_component(query) + "&limit=42"@
    }
}

/// The address the home page's search box leads to.
pub fn home_search_url(query: &str) -> (r: String)
    ensures
        r@ == home_search_href(query@),
{
    if query.is_empty() {
        owned("/posts")
    } else {
        let mut r = owned("/posts?query=");
        push_uri_component(&mut r, query);
        push_str(&mut r, "&limit=42");
        r
    }
}

/// The post query of the comments page: posts by latest comment that have
/// comments, after the user's own query when one was typed.
pub open spec fn comments_search(query: Seq<char>) -> Seq<char> {
    if query.len() == 0 {
        "sort:comment-date comment-count:1.."@
    } else {
        query + " "@ + "sort:comment-date comment-count:1.."@
    }
}

/// Combines the user query with the comment sorting of the comments page.
pub fn comments_query(query: &str) -> (r: String)
    ensures
        r@ == comments_search(query@),
{
    let mut r = String::new();
    if !query.is_empty() {
        push_str(&mut r, query);
        push_str(&mut r, " ");
    }
    push_str(&mut r, "sort:comment-date comment-count:1..");
    r
}

/// Which actions the viewer may take on a comment: editing and deleting are
/// allowed on any comment with the `any` privilege, and on the viewer's own
/// comments with the `own` one.
pub fn comment_actions(
    viewer: Option<&str>,
    author: &str,
    can_edit_own: bool,
    can_edit_any: bool,
    can_delete_own: bool,
    can_delete_any: bool,
) -> (r: (bool, bool))
    ensures
        ({
            let own = viewer matches Some(v) && v@ == author@;
            &&& r.0 == ((own && can_edit_own) || can_edit_any)
            &&& r.1 == ((own && can_delete_own) || can_delete_any)
        }),
{
    let own = match viewer {
        Some(v) => same_text(v, author),
        None => false,
    };
    ((own && can_edit_own) || can_edit_any, (own && can_delete_own) || can_delete_any)
}

/// The (identifier, token) pair held by a decoded reset parameter
/// `identifier:token`: split at its first colon.
pub open spec fn reset_pair(decoded: Seq<char>) -> Option<(Seq<char>, Seq<char>)> {
    if exists|i: int| 0 <= i < decoded.len() && decoded[i] == ':' {
        let i = choose|i: int|
            0 <= i < decoded.len() && decoded[i] == ':' && forall|j: int| 0 <= j < i ==> decoded[j] != ':';
        Some((decoded.take(i), decoded.skip(i + 1)))
    } else {
        None
    }
}

/// Splits a decoded reset parameter at its first colon.
pub fn split_reset_token(decoded: &str) -> (r: Option<(String, String)>)
    ensures
        match r {
            Some((a, b)) => reset_pair(decoded@) == Some((a@, b@)),
            None => reset_pair(decoded@) is None,
        },
{
    let v = chars_of(decoded);
    let mut i: usize = 0;
    while i < v.len() && v[i] != ':'
        invariant
            v@ == decoded@,
            i <= v@.len(),
            forall|j: int| 0 <= j < i ==> v@[j] != ':',
        decreases v.len() - i,
    {
        i += 1;
    }
    if i == v.len() {
        return None;
    }
    proof {
        let k = choose|k: int|
            0 <= k < v@.len() && v@[k] == ':' && forall|j: int| 0 <= j < k ==> v@[j] != ':';
        if k < i {
        } else if k > i {
            assert(v@[i as int] == ':');
        }
        assert(k == i);
    }
    let mut a: Vec<char> = Vec::new();
    let mut j: usize = 0;
    while j < i
        invariant
            j <= i < v@.len(),
            a@ == v@.take(j as int),
        decreases i - j,
    {
        a.push(v[j]);
        j += 1;
        assert(a@ =~= v@.take(j as int));
    }
    let mut b: Vec<char> = Vec::new();
    let mut k: usize = i + 1;
    while k < v.len()
        invariant
            i < k <= v@.len(),
            b@ == v@.subrange(i + 1, k as int),
        decreases v.len() - k,
    {
        b.push(v[k]);
        k += 1;
        assert(b@ =~= v@.subrange(i + 1, k as int));
    }
    assert(b@ =~= v@.skip(i + 1));
    Some((string_of(&a), string_of(&b)))
}

/// What the reset page makes of its `token` parameter: the decoded
/// parameter (the raw one when it does not decode) split into identifier and
/// token, or the error shown.
pub open spec fn reset_request(param: Option<Seq<char>>) -> Result<(Seq<char>, Seq<char>), Seq<char>> {
    match param {
        None => Err("Missing reset token."@),
        Some(raw) => {
            let decoded = match uri_decoded(raw) {
                Some(d) => d,
                None => raw,
            };
            match reset_pair(decoded) {
                Some(p) => Ok(p),
                None => Err("Invalid reset token format."@),
            }
        },
    }
}

/// Reads the password reset parameter `username:token`.
pub fn reset_credentials(param: Option<&str>) -> (r: Result<(String, String), String>)
    ensures
        match r {
            Ok((a, b)) => reset_request(
                match param {
                    Some(p) => Some(p@),
                    None => None,
                },
            ) == Ok::<(Seq<char>, Seq<char>), Seq<char>>((a@, b@)),
            Err(e) => reset_request(
                match param {
                    Some(p) => Some(p@),
                    None => None,
                },
            ) == Err::<(Seq<char>, Seq<char>), Seq<char>>(e@),
        },
{
    match param {
        None => Err(owned("Missing reset token.")),
        Some(raw) => {
            let decoded = match decode_uri_component(raw) {
                Some(d) => d,
                None => owned(raw),
            };
            match split_reset_token(decoded.as_str()) {
                Some(pair) => Ok(pair),
                None => Err(owned("Invalid reset token format.")),
            }
        },
    }
}

/// The address of a neighbouring post's content to fetch ahead of time:
/// its content URL when it is a still or animated image (a post of unknown
/// type counts as an image), else none.
pub fn preload_url(post_type: Option<PostType>, content_url: Option<String>) -> (r: Option<String>)
    ensures
        opt_text(r) == (match post_type {
            Some(PostType::Video) | Some(PostType::Flash) => None,
            _ => opt_text(content_url),
        }),
{
    match post_type {
        Some(PostType::Video) | Some(PostType::Flash) => None,
        _ => content_url,
    }
}

/// The title of a pool: its first name, or `#` and its id when it has none.
pub open spec fn pool_title_text(names: Option<Seq<Seq<char>>>, id: i64) -> Seq<char> {
    match names {
        Some(n) => if n.len() > 0 {
            n[0]
        } else {
            "#"@ + int_text(id as int)
        },
        None => "#"@ + int_text(id as int),
    }
}

/// The name a pool is shown under on its deletion page.
pub fn pool_title(names: &Option<Vec<String>>, id: i64) -> (r: String)
    ensures
        r@ == pool_title_text(
            match names {
                Some(v) => Some(texts(v@)),
                None => None,
            },
            id,
        ),
{
    match names {
        Some(v) => if v.len() > 0 {
            return owned(v[0].as_str());
        },
        None => {},
    }
    let mut r = owned("#");
    push_int(&mut r, id);
    r
}

/// The other names of a tag or pool: every name after the first.
pub fn aliases(names: &Vec<String>) -> (r: Vec<String>)
    ensures
        texts(r@) == (if names@.len() > 1 {
            texts(names@).skip(1)
        } else {
            Seq::empty()
        }),
{
    let mut r: Vec<String> = Vec::new();
    if names.len() > 1 {
        for i in 1..names.len()
            invariant
                1 <= i <= names@.len(),
                texts(r@) == texts(names@).subrange(1, i as int),
        {
            let ghost prev = texts(r@);
            r.push(owned(names[i].as_str()));
            assert(texts(r@) =~= prev.push(names@[i as int]@));
            assert(texts(r@) =~= texts(names@).subrange(1, i + 1));
        }
        assert(texts(names@).subrange(1, names@.len() as int) =~= texts(names@).skip(1));
    }
    r
}

/// The name shown for the author of a post, comment or change: the user's
/// name, or `Anonymous` when there is none.
pub fn user_label(name: Option<String>) -> (r: String)
    ensures
        r@ == (match name {
            Some(n) => n@,
            None => "Anonymous"@,
        }),
{
    match name {
        Some(n) => n,
        None => owned("Anonymous"),
    }
}

} // verus!
