use vstd::prelude::*;
use crate::text::{owned, same_text};

verus! {

/// Safety rating of a post.
#[derive(Clone, Copy, Debug, PartialEq, Eq, Structural)]
pub enum PostSafety {
    Safe,
    Sketchy,
    Unsafe,
}

/// Rank of a user account.
#[derive(Clone, Copy, Debug, PartialEq, Eq, Structural)]
pub enum UserRank {
    Restricted,
    Regular,
    Power,
    Moderator,
    Administrator,
}

/// Where a user's avatar comes from.
#[derive(Clone, Copy, Debug, PartialEq, Eq, Structural)]
pub enum AvatarStyle {
    Gravatar,
    Manual,
}

/// Kind of a post's content.
#[derive(Clone, Copy, Debug, PartialEq, Eq, Structural)]
pub enum PostType {
    Image,
    Animation,
    Video,
    Flash,
}

/// Content type of a post's file.
#[derive(Clone, Copy, Debug, PartialEq, Eq, Structural)]
pub enum MimeType {
    Bmp,
    Gif,
    Jpeg,
    Png,
    Webp,
    Mp4,
    Mov,
    Webm,
    Swf,
    Avif,
}

/// A failed request to the server: the server's own error, or a failure
/// to reach it.
#[derive(Clone, Debug)]
pub enum ApiError {
    Server { description: String },
    Network(String),
}

/// The message shown for a failed request.
pub open spec fn api_error_text(e: ApiError) -> Seq<char> {
    match e {
        ApiError::Server { description } => description@,
        ApiError::Network(msg) => msg@,
    }
}

/// The message shown for a failed request: the server's description, or the
/// network error.
pub fn format_api_error(e: &ApiError) -> (r: String)
    ensures
        r@ == api_error_text(*e),
{
    match e {
        ApiError::Server { description } => owned(description.as_str()),
        ApiError::Network(msg) => owned(msg.as_str()),
    }
}

/// The rank that a form value names.
pub open spec fn rank_named(s: Seq<char>) -> Option<UserRank> {
    if s == "restricted"@ {
        Some(UserRank::Restricted)
    } else if s == "regular"@ {
        Some(UserRank::Regular)
    } else if s == "power"@ {
        Some(UserRank::Power)
    } else if s == "moderator"@ {
        Some(UserRank::Moderator)
    } else if s == "administrator"@ {
        Some(UserRank::Administrator)
    } else {
        None
    }
}

/// Reads a rank from its form value.
pub fn parse_rank(s: &str) -> (r: Option<UserRank>)
    ensures
        r == rank_named(s@),
{
    if same_text(s, "restricted") {
        Some(UserRank::Restricted)
    } else if same_text(s, "regular") {
        Some(UserRank::Regular)
    } else if same_text(s, "power") {
        Some(UserRank::Power)
    } else if same_text(s, "moderator") {
        Some(UserRank::Moderator)
    } else if same_text(s, "administrator") {
        Some(UserRank::Administrator)
    } else {
        None
    }
}

/// The form value of a rank (its name in lower case).
pub open spec fn rank_text(r: UserRank) -> Seq<char> {
    match r {
        UserRank::Restricted => "restricted"@,
        UserRank::Regular => "regular"@,
        UserRank::Power => "power"@,
        UserRank::Moderator => "moderator"@,
        UserRank::Administrator => "administrator"@,
    }
}

impl UserRank {
    /// The rank's name in lower case.
    pub fn name(&self) -> (r: &'static str)
        ensures
            r@ == rank_text(*self),
    {
        match self {
            UserRank::Restricted => "restricted",
            UserRank::Regular => "regular",
            UserRank::Power => "power",
            UserRank::Moderator => "moderator",
            UserRank::Administrator => "administrator",
        }
    }
}

/// The avatar style that a form value names.
pub open spec fn avatar_style_named(s: Seq<char>) -> Option<AvatarStyle> {
    if s == "gravatar"@ {
        Some(AvatarStyle::Gravatar)
    } else if s == "manual"@ {
        Some(AvatarStyle::Manual)
    } else {
        None
    }
}

/// Reads an avatar style from its form value.
pub fn parse_avatar_style(s: &str) -> (r: Option<AvatarStyle>)
    ensures
        r == avatar_style_named(s@),
{
    if same_text(s, "gravatar") {
        Some(AvatarStyle::Gravatar)
    } else if same_text(s, "manual") {
        Some(AvatarStyle::Manual)
    } else {
        None
    }
}

/// The form value of an avatar style.
pub open spec fn avatar_style_text(a: AvatarStyle) -> Seq<char> {
    match a {
        AvatarStyle::Gravatar => "gravatar"@,
        AvatarStyle::Manual => "manual"@,
    }
}

impl AvatarStyle {
    /// The style's name in lower case.
    pub fn name(&self) -> (r: &'static str)
        ensures
            r@ == avatar_style_text(*self),
    {
        match self {
            AvatarStyle::Gravatar => "gravatar",
            AvatarStyle::Manual => "manual",
        }
    }
}

/// The form value of a safety rating.
pub open spec fn safety_text(s: PostSafety) -> Seq<char> {
    match s {
        PostSafety::Safe => "safe"@,
        PostSafety::Sketchy => "sketchy"@,
        PostSafety::Unsafe => "unsafe"@,
    }
}

impl PostSafety {
    /// The rating's name in lower case.
    pub fn name(&self) -> (r: &'static str)
        ensures
            r@ == safety_text(*self),
    {
        match self {
            PostSafety::Safe => "safe",
            PostSafety::Sketchy => "sketchy",
            PostSafety::Unsafe => "unsafe",
        }
    }
}

/// The safety rating that a form value names.
pub open spec fn safety_named(s: Seq<char>) -> Option<PostSafety> {
    if s == "sketchy"@ {
        Some(PostSafety::Sketchy)
    } else if s == "unsafe"@ {
        Some(PostSafety::Unsafe)
    } else if s == "safe"@ {
        Some(PostSafety::Safe)
    } else {
        None
    }
}

/// Reads a safety rating from its form value (the post editor's select).
pub fn parse_safety(s: &str) -> (r: Option<PostSafety>)
    ensures
        r == safety_named(s@),
{
    if same_text(s, "sketchy") {
        Some(PostSafety::Sketchy)
    } else if same_text(s, "unsafe") {
        Some(PostSafety::Unsafe)
    } else if same_text(s, "safe") {
        Some(PostSafety::Safe)
    } else {
        None
    }
}

/// The safety chosen in the bulk safety dialog: `sketchy` and `unsafe` name
/// their ratings, anything else means safe.
pub fn bulk_safety_choice(s: &str) -> (r: PostSafety)
    ensures
        r == (match safety_named(s@) {
            Some(PostSafety::Sketchy) => PostSafety::Sketchy,
            Some(PostSafety::Unsafe) => PostSafety::Unsafe,
            _ => PostSafety::Safe,
        }),
{
    match parse_safety(s) {
        Some(PostSafety::Sketchy) => PostSafety::Sketchy,
        Some(PostSafety::Unsafe) => PostSafety::Unsafe,
        _ => PostSafety::Safe,
    }
}

/// The short label of a content type.
pub open spec fn mime_label(m: MimeType) -> Seq<char> {
    match m {
        MimeType::Bmp => "BMP"@,
        MimeType::Gif => "GIF"@,
        MimeType::Jpeg => "JPEG"@,
        MimeType::Png => "PNG"@,
        MimeType::Webp => "WEBP"@,
        MimeType::Mp4 => "MPEG-4"@,
        MimeType::Mov => "MOV"@,
        MimeType::Webm => "WEBM"@,
        MimeType::Swf => "SWF"@,
        MimeType::Avif => "AVIF"@,
    }
}

/// Map a content type to a short display string.
pub fn mime_display(mime: MimeType) -> (r: &'static str)
    ensures
        r@ == mime_label(mime),
{
    match mime {
        MimeType::Bmp => "BMP",
        MimeType::Gif => "GIF",
        MimeType::Jpeg => "JPEG",
        MimeType::Png => "PNG",
        MimeType::Webp => "WEBP",
        MimeType::Mp4 => "MPEG-4",
        MimeType::Mov => "MOV",
        MimeType::Webm => "WEBM",
        MimeType::Swf => "SWF",
        MimeType::Avif => "AVIF",
    }
}

/// Reading back the name of a rank gives the rank.
pub proof fn law_rank_name_round_trip(r: UserRank)
    ensures
        rank_named(rank_text(r)) == Some(r),
{
    reveal_strlit("restricted");
    reveal_strlit("regular");
    reveal_strlit("power");
    reveal_strlit("moderator");
    reveal_strlit("administrator");
    assert("restricted"@.len() == 10);
    assert("regular"@.len() == 7);
    assert("power"@.len() == 5);
    assert("moderator"@.len() == 9);
    assert("administrator"@.len() == 13);
}

/// Reading back the name of an avatar style gives the style.
pub proof fn law_avatar_style_name_round_trip(a: AvatarStyle)
    ensures
        avatar_style_named(avatar_style_text(a)) == Some(a),
{
    reveal_strlit("gravatar");
    reveal_strlit("manual");
    assert("gravatar"@.len() == 8);
    assert("manual"@.len() == 6);
}

/// Reading back the name of a safety gives the safety.
pub proof fn law_safety_name_round_trip(s: PostSafety)
    ensures
        safety_named(safety_text(s)) == Some(s),
{
    reveal_strlit("safe");
    reveal_strlit("sketchy");
    reveal_strlit("unsafe");
    assert("safe"@.len() == 4);
    assert("sketchy"@.len() == 7);
    assert("unsafe"@.len() == 6);
}

} // verus!
