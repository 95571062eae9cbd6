use vstd::prelude::*;
use crate::forms::{blank, ids_field, opt_ids_view, post_relations, unless_empty};
use crate::model::{
    avatar_style_named, parse_avatar_style, parse_rank, parse_safety, rank_named, safety_named,
    AvatarStyle, PostSafety, UserRank,
};
use crate::scan::{parse_i64_chars, parse_i64_spec, texts, trim, trim_chars};
use crate::text::{chars_of, opt_text, owned, same_chars, same_text, string_of};

verus! {

/// The request that updates a post (fields the forms never send are left out).
pub struct UpdatePostBody {
    pub version: String,
    pub safety: Option<PostSafety>,
    pub source: Option<String>,
    pub description: Option<String>,
    pub relations: Option<Vec<i64>>,
    pub tags: Option<Vec<String>>,
    pub flags: Option<Vec<String>>,
    pub content_token: Option<String>,
    pub thumbnail_token: Option<String>,
}

pub open spec fn opt_texts_of(o: Option<Vec<String>>) -> Option<Seq<Seq<char>>> {
    match o {
        Some(v) => Some(texts(v@)),
        None => None,
    }
}

/// The flags of a post from its two check boxes, `loop` first.
pub open spec fn post_flags(flag_loop: bool, flag_sound: bool) -> Seq<Seq<char>> {
    (if flag_loop {
        seq!["loop"@]
    } else {
        Seq::empty()
    }) + (if flag_sound {
        seq!["sound"@]
    } else {
        Seq::empty()
    })
}

/// The flags of a post from its two check boxes.
pub fn flags_of(flag_loop: bool, flag_sound: bool) -> (r: Vec<String>)
    ensures
        texts(r@) == post_flags(flag_loop, flag_sound),
{
    let mut r: Vec<String> = Vec::new();
    if flag_loop {
        r.push(owned("loop"));
    }
    let ghost mid = texts(r@);
    if flag_sound {
        r.push(owned("sound"));
        assert(texts(r@) =~= mid.push("sound"@));
    }
    assert(texts(r@) =~= post_flags(flag_loop, flag_sound));
    r
}

/// Whether the flag list holds `flag`.
pub fn has_flag(flags: &Vec<String>, flag: &str) -> (r: bool)
    ensures
        r == texts(flags@).contains(flag@),
{
    for i in 0..flags.len()
        invariant
            forall|j: int| 0 <= j < i ==> texts(flags@)[j] != flag@,
    {
        if same_text(flags[i].as_str(), flag) {
            assert(texts(flags@)[i as int] == flag@);
            return true;
        }
    }
    false
}

/// A post update that sends no field besides its version, safety and tags.
pub open spec fn bulk_body_only(b: UpdatePostBody) -> bool {
    &&& b.source is None
    &&& b.description is None
    &&& b.relations is None
    &&& b.flags is None
    &&& b.content_token is None
    &&& b.thumbnail_token is None
}

/// Builds the request of the post editing form: the safety select, the tags,
/// source and description as they are, the related ids (blank: none), the
/// flags and any newly uploaded content or thumbnail.
pub fn post_edit_body(
    safety: &str,
    tags: Vec<String>,
    source: &str,
    description: &str,
    relations: &str,
    flag_loop: bool,
    flag_sound: bool,
    version: &str,
    content_token: Option<String>,
    thumbnail_token: Option<String>,
) -> (r: Result<UpdatePostBody, String>)
    ensures
        match r {
            Err(e) => ids_field(relations@, Some(Seq::empty()), "Invalid relation IDs."@) == Err::<
                Option<Seq<i64>>,
                Seq<char>,
            >(e@),
            Ok(b) => {
                &&& ids_field(relations@, Some(Seq::empty()), "Invalid relation IDs."@) == Ok::<
                    Option<Seq<i64>>,
                    Seq<char>,
                >(opt_ids_view(b.relations))
                &&& b.relations is Some
                &&& b.version@ == version@
                &&& b.safety == safety_named(safety@)
                &&& opt_text(b.source) == Some(source@)
                &&& opt_text(b.description) == Some(description@)
                &&& opt_texts_of(b.tags) == Some(texts(tags@))
                &&& opt_texts_of(b.flags) == Some(post_flags(flag_loop, flag_sound))
                &&& opt_text(b.content_token) == opt_text(content_token)
                &&& opt_text(b.thumbnail_token) == opt_text(thumbnail_token)
            },
        },
{
    let safety_value = parse_safety(safety);
    let rels = match post_relations(relations) {
        Ok(v) => v,
        Err(e) => {
            return Err(e);
        },
    };
    Ok(
        UpdatePostBody {
            version: owned(version),
            safety: safety_value,
            source: Some(owned(source)),
            description: Some(owned(description)),
            relations: Some(rels),
            tags: Some(tags),
            flags: Some(flags_of(flag_loop, flag_sound)),
            content_token,
            thumbnail_token,
        },
    )
}

/// The request that updates a user.
pub struct UpdateUserBody {
    pub version: String,
    pub name: Option<String>,
    pub password: Option<String>,
    pub email: Option<Option<String>>,
    pub rank: Option<UserRank>,
    pub avatar_style: Option<AvatarStyle>,
    pub avatar_url: Option<String>,
}

/// Builds the request of the user editing form for user `current_name`: the
/// name only when it changed, the password and avatar URL only when given,
/// the email always (cleared when empty), rank and avatar style when they
/// name one.
pub fn user_update_body(
    current_name: &str,
    version: &str,
    new_name: &str,
    new_password: &str,
    new_email: &str,
    rank: &str,
    avatar_style: &str,
    avatar_url: &str,
) -> (b: UpdateUserBody)
    ensures
        b.version@ == version@,
        opt_text(b.name) == (if new_name@ != current_name@ {
            Some(new_name@)
        } else {
            None
        }),
        opt_text(b.password) == unless_empty(new_password@),
        b.email is Some,
        opt_text(b.email->0) == unless_empty(new_email@),
        b.rank == rank_named(rank@),
        b.avatar_style == avatar_style_named(avatar_style@),
        opt_text(b.avatar_url) == unless_empty(avatar_url@),
{
    UpdateUserBody {
        version: owned(version),
        name: if same_text(new_name, current_name) {
            None
        } else {
            Some(owned(new_name))
        },
        password: if new_password.is_empty() {
            None
        } else {
            Some(owned(new_password))
        },
        email: Some(
            if new_email.is_empty() {
                None
            } else {
                Some(owned(new_email))
            },
        ),
        rank: parse_rank(rank),
        avatar_style: parse_avatar_style(avatar_style),
        avatar_url: if avatar_url.is_empty() {
            None
        } else {
            Some(owned(avatar_url))
        },
    }
}

/// The request that registers a user.
pub struct CreateUserBody {
    pub name: String,
    pub password: String,
    pub email: Option<String>,
    pub rank: Option<UserRank>,
    pub avatar_style: Option<AvatarStyle>,
}

/// Builds the registration request: the email only when given, no rank and
/// no avatar style.
pub fn register_body(name: &str, password: &str, email: &str) -> (b: CreateUserBody)
    ensures
        b.name@ == name@,
        b.password@ == password@,
        opt_text(b.email) == unless_empty(email@),
        b.rank is None,
        b.avatar_style is None,
{
    CreateUserBody {
        name: owned(name),
        password: owned(password),
        email: if email.is_empty() {
            None
        } else {
            Some(owned(email))
        },
        rank: None,
        avatar_style: None,
    }
}

/// The message when a registration field does not match the server's regex.
pub open spec fn regex_mismatch_text(field_name: Seq<char>, pattern: Seq<char>) -> Seq<char> {
    field_name + " doesn't satisfy regex: "@ + pattern
}

/// What the registration form says of a field, given whether it matched the
/// server's regex `pattern`: nothing when it matched, else the mismatch.
pub fn regex_check_message(matched: bool, pattern: &str, field_name: &str) -> (r: Option<String>)
    ensures
        matched ==> r is None,
        !matched ==> opt_text(r) == Some(regex_mismatch_text(field_name@, pattern@)),
{
    if matched {
        None
    } else {
        let mut m = owned(field_name);
        crate::text::push_str(&mut m, " doesn't satisfy regex: ");
        crate::text::push_str(&mut m, pattern);
        Some(m)
    }
}

/// The value the safety select of the post editor starts at: the post's
/// safety, `safe` when the post has none.
pub fn safety_field(safety: Option<PostSafety>) -> (r: &'static str)
    ensures
        r@ == (match safety {
            Some(s) => crate::model::safety_text(s),
            None => "safe"@,
        }),
{
    match safety {
        Some(s) => s.name(),
        None => "safe",
    }
}

/// What the post editor keeps between saves: the version to send, and the
/// tokens of newly uploaded content and thumbnail.
pub struct PostEditState {
    pub version: String,
    pub content_token: Option<String>,
    pub thumbnail_token: Option<String>,
}

impl PostEditState {
    /// The post was saved: the server's new version is kept (empty when it
    /// gave none) and the uploaded tokens, now used, are dropped.
    pub fn post_updated(&mut self, version: Option<String>)
        ensures
            final(self).version@ == (match version {
                Some(v) => v@,
                None => Seq::empty(),
            }),
            final(self).content_token is None,
            final(self).thumbnail_token is None,
    {
        self.version = match version {
            Some(v) => v,
            None => String::new(),
        };
        self.content_token = None;
        self.thumbnail_token = None;
    }
}

} // verus!
