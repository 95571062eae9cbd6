use vstd::prelude::*;
use crate::scan::{comma_ids, comma_ids_of, comma_names, comma_names_of, is_white, joined, lemma_int_text_parses, lemma_split_append, lemma_split_plain, lemma_trim_clean, lemma_trim_space_clean, nonblank_pieces, parse_pieces, split_on, texts, trim, trim_chars};
use crate::model::{avatar_style_named, parse_avatar_style, parse_rank, parse_safety, rank_named, safety_named, AvatarStyle, PostSafety, UserRank};
use crate::scan::{parse_i64_chars, parse_i64_spec};
use crate::tags::copy_texts;
use crate::text::{chars_of, int_text, opt_text, owned, push_int, push_str, same_chars, same_text, string_of};

verus! {

/// Whether a field holds nothing but white space.
pub open spec fn blank(s: Seq<char>) -> bool {
    trim(s).len() == 0
}

/// Whether `s` holds nothing but white space.
pub fn is_blank(s: &str) -> (r: bool)
    ensures
        r == blank(s@),
{
    trim_chars(&chars_of(s)).len() == 0
}

/// The names of a comma-separated names field; at least one is required.
pub open spec fn names_field(s: Seq<char>) -> Result<Seq<Seq<char>>, Seq<char>> {
    if comma_names(s).len() == 0 {
        Err("At least one name is required."@)
    } else {
        Ok(comma_names(s))
    }
}

/// Reads a comma-separated names field (tags and pools): the trimmed,
/// non-empty names, or the error shown when there is none.
pub fn parse_names_field(s: &str) -> (r: Result<Vec<String>, String>)
    ensures
        match r {
            Ok(v) => names_field(s@) == Ok::<Seq<Seq<char>>, Seq<char>>(texts(v@)),
            Err(e) => names_field(s@) == Err::<Seq<Seq<char>>, Seq<char>>(e@),
        },
{
    let names = comma_names_of(s);
    if names.len() == 0 {
        Err(owned("At least one name is required."))
    } else {
        Ok(names)
    }
}

/// A comma-separated list of ids where a blank field means `blank_value`,
/// and a piece that is not an integer gives the error `error`.
pub open spec fn ids_field(
    s: Seq<char>,
    blank_value: Option<Seq<i64>>,
    error: Seq<char>,
) -> Result<Option<Seq<i64>>, Seq<char>> {
    if blank(s) {
        Ok(blank_value)
    } else {
        match comma_ids(s) {
            Some(ids) => Ok(Some(ids)),
            None => Err(error),
        }
    }
}

pub open spec fn opt_ids_view(o: Option<Vec<i64>>) -> Option<Seq<i64>> {
    match o {
        Some(v) => Some(v@),
        None => None,
    }
}

/// The post ids of the pool creation form: none when blank.
pub fn pool_create_posts(s: &str) -> (r: Result<Option<Vec<i64>>, String>)
    ensures
        match r {
            Ok(o) => ids_field(s@, None, "Invalid post IDs."@) == Ok::<
                Option<Seq<i64>>,
                Seq<char>,
            >(opt_ids_view(o)),
            Err(e) => ids_field(s@, None, "Invalid post IDs."@) == Err::<
                Option<Seq<i64>>,
                Seq<char>,
            >(e@),
        },
{
    if is_blank(s) {
        return Ok(None);
    }
    match comma_ids_of(s) {
        Some(ids) => Ok(Some(ids)),
        None => Err(owned("Invalid post IDs.")),
    }
}

/// A comma-separated id list where blank means the empty list.
fn ids_or_empty(s: &str, error: &str) -> (r: Result<Vec<i64>, String>)
    ensures
        match r {
            Ok(v) => ids_field(s@, Some(Seq::empty()), error@) == Ok::<
                Option<Seq<i64>>,
                Seq<char>,
            >(Some(v@)),
            Err(e) => ids_field(s@, Some(Seq::empty()), error@) == Err::<
                Option<Seq<i64>>,
                Seq<char>,
            >(e@),
        },
{
    if is_blank(s) {
        return Ok(Vec::new());
    }
    match comma_ids_of(s) {
        Some(ids) => Ok(ids),
        None => Err(owned(error)),
    }
}

/// The post ids of the pool editing form: the empty list when blank.
pub fn pool_edit_posts(s: &str) -> (r: Result<Vec<i64>, String>)
    ensures
        match r {
            Ok(v) => ids_field(s@, Some(Seq::empty()), "Invalid post IDs."@) == Ok::<
                Option<Seq<i64>>,
                Seq<char>,
            >(Some(v@)),
            Err(e) => ids_field(s@, Some(Seq::empty()), "Invalid post IDs."@) == Err::<
                Option<Seq<i64>>,
                Seq<char>,
            >(e@),
        },
{
    ids_or_empty(s, "Invalid post IDs.")
}

/// The related post ids of the post editing form: the empty list when blank.
pub fn post_relations(s: &str) -> (r: Result<Vec<i64>, String>)
    ensures
        match r {
            Ok(v) => ids_field(s@, Some(Seq::empty()), "Invalid relation IDs."@) == Ok::<
                Option<Seq<i64>>,
                Seq<char>,
            >(Some(v@)),
            Err(e) => ids_field(s@, Some(Seq::empty()), "Invalid relation IDs."@) == Err::<
                Option<Seq<i64>>,
                Seq<char>,
            >(e@),
        },
{
    ids_or_empty(s, "Invalid relation IDs.")
}

/// `Some(s)` unless `s` is empty.
pub open spec fn unless_empty(s: Seq<char>) -> Option<Seq<char>> {
    if s.len() == 0 {
        None
    } else {
        Some(s)
    }
}

fn some_unless_empty(s: &str) -> (r: Option<String>)
    ensures
        opt_text(r) == unless_empty(s@),
{
    if s.is_empty() {
        None
    } else {
        Some(owned(s))
    }
}

/// `s`, or `default` when `s` is empty.
pub open spec fn or_default_text(s: Seq<char>, default: Seq<char>) -> Seq<char> {
    if s.len() == 0 {
        default
    } else {
        s
    }
}

fn text_or(s: &str, default: &str) -> (r: String)
    ensures
        r@ == or_default_text(s@, default@),
{
    if s.is_empty() {
        owned(default)
    } else {
        owned(s)
    }
}


/// The request that creates a tag.
pub struct CreateTagBody {
    pub category: String,
    pub names: Vec<String>,
    pub description: Option<String>,
    pub implications: Option<Vec<String>>,
    pub suggestions: Option<Vec<String>>,
}

/// The request that updates a tag.
pub struct UpdateTagBody {
    pub version: String,
    pub category: Option<String>,
    pub names: Option<Vec<String>>,
    pub description: Option<String>,
    pub implications: Option<Vec<String>>,
    pub suggestions: Option<Vec<String>>,
}

pub open spec fn opt_texts_view(o: Option<Vec<String>>) -> Option<Seq<Seq<char>>> {
    match o {
        Some(v) => Some(texts(v@)),
        None => None,
    }
}

/// `Some(list)` unless the list is empty.
pub open spec fn unless_none(list: Seq<Seq<char>>) -> Option<Seq<Seq<char>>> {
    if list.len() == 0 {
        None
    } else {
        Some(list)
    }
}

fn list_unless_empty(v: Vec<String>) -> (r: Option<Vec<String>>)
    ensures
        opt_texts_view(r) == unless_none(texts(v@)),
{
    if v.len() == 0 {
        None
    } else {
        Some(v)
    }
}

/// Builds the request of the tag creation form; an empty category means
/// `default`, and empty fields are left out.
pub fn tag_create_body(
    names: &str,
    category: &str,
    description: &str,
    implications: Vec<String>,
    suggestions: Vec<String>,
) -> (r: Result<CreateTagBody, String>)
    ensures
        match r {
            Err(e) => names_field(names@) == Err::<Seq<Seq<char>>, Seq<char>>(e@),
            Ok(b) => {
                &&& names_field(names@) == Ok::<Seq<Seq<char>>, Seq<char>>(texts(b.names@))
                &&& b.category@ == or_default_text(category@, "default"@)
                &&& opt_text(b.description) == unless_empty(description@)
                &&& opt_texts_view(b.implications) == unless_none(texts(implications@))
                &&& opt_texts_view(b.suggestions) == unless_none(texts(suggestions@))
            },
        },
{
    let names = match parse_names_field(names) {
        Ok(n) => n,
        Err(e) => {
            return Err(e);
        },
    };
    Ok(
        CreateTagBody {
            category: text_or(category, "default"),
            names,
            description: some_unless_empty(description),
            implications: list_unless_empty(implications),
            suggestions: list_unless_empty(suggestions),
        },
    )
}

/// Builds the request of the tag editing form: every field is sent.
pub fn tag_update_body(
    names: &str,
    version: &str,
    category: &str,
    description: &str,
    implications: Vec<String>,
    suggestions: Vec<String>,
) -> (r: Result<UpdateTagBody, String>)
    ensures
        match r {
            Err(e) => names_field(names@) == Err::<Seq<Seq<char>>, Seq<char>>(e@),
            Ok(b) => {
                &&& names_field(names@) == Ok::<Seq<Seq<char>>, Seq<char>>(
                    texts(b.names->0@),
                )
                &&& b.names is Some
                &&& b.version@ == version@
                &&& opt_text(b.category) == Some(category@)
                &&& opt_text(b.description) == Some(description@)
                &&& opt_texts_view(b.implications) == Some(texts(implications@))
                &&& opt_texts_view(b.suggestions) == Some(texts(suggestions@))
            },
        },
{
    let names = match parse_names_field(names) {
        Ok(n) => n,
        Err(e) => {
            return Err(e);
        },
    };
    Ok(
        UpdateTagBody {
            version: owned(version),
            category: Some(owned(category)),
            names: Some(names),
            description: Some(owned(description)),
            implications: Some(implications),
            suggestions: Some(suggestions),
        },
    )
}

/// The request that creates a pool.
pub struct CreatePoolBody {
    pub names: Vec<String>,
    pub category: String,
    pub description: Option<String>,
    pub posts: Option<Vec<i64>>,
}

/// The request that updates a pool.
pub struct UpdatePoolBody {
    pub version: String,
    pub category: Option<String>,
    pub names: Option<Vec<String>>,
    pub description: Option<String>,
    pub posts: Option<Vec<i64>>,
}

/// Builds the request of the pool creation form: the names are checked
/// first, then the post ids.
pub fn pool_create_body(
    names: &str,
    category: &str,
    description: &str,
    posts_field: &str,
) -> (r: Result<CreatePoolBody, String>)
    ensures
        match r {
            Err(e) => names_field(names@) is Err ==> names_field(names@) == Err::<
                Seq<Seq<char>>,
                Seq<char>,
            >(e@),
            Ok(b) => {
                &&& names_field(names@) == Ok::<Seq<Seq<char>>, Seq<char>>(texts(b.names@))
                &&& ids_field(posts_field@, None, "Invalid post IDs."@) == Ok::<
                    Option<Seq<i64>>,
                    Seq<char>,
                >(opt_ids_view(b.posts))
                &&& b.category@ == or_default_text(category@, "default"@)
                &&& opt_text(b.description) == unless_empty(description@)
            },
        },
        names_field(names@) is Ok ==> (r is Err <==> ids_field(
            posts_field@,
            None,
            "Invalid post IDs."@,
        ) is Err),
        names_field(names@) is Ok && r is Err ==> ids_field(
            posts_field@,
            None,
            "Invalid post IDs."@,
        ) == Err::<Option<Seq<i64>>, Seq<char>>(r->Err_0@),
{
    let names = match parse_names_field(names) {
        Ok(n) => n,
        Err(e) => {
            return Err(e);
        },
    };
    let posts = match pool_create_posts(posts_field) {
        Ok(p) => p,
        Err(e) => {
            return Err(e);
        },
    };
    Ok(
        CreatePoolBody {
            names,
            category: text_or(category, "default"),
            description: some_unless_empty(description),
            posts,
        },
    )
}

/// Builds the request of the pool editing form: every field is sent, a
/// blank post list meaning no posts.
pub fn pool_update_body(
    names: &str,
    version: &str,
    category: &str,
    description: &str,
    posts_field: &str,
) -> (r: Result<UpdatePoolBody, String>)
    ensures
        match r {
            Err(e) => names_field(names@) is Err ==> names_field(names@) == Err::<
                Seq<Seq<char>>,
                Seq<char>,
            >(e@),
            Ok(b) => {
                &&& b.names is Some
                &&& names_field(names@) == Ok::<Seq<Seq<char>>, Seq<char>>(
                    texts(b.names->0@),
                )
                &&& b.posts is Some
                &&& ids_field(posts_field@, Some(Seq::empty()), "Invalid post IDs."@) == Ok::<
                    Option<Seq<i64>>,
                    Seq<char>,
                >(opt_ids_view(b.posts))
                &&& b.version@ == version@
                &&& opt_text(b.category) == Some(category@)
                &&& opt_text(b.description) == Some(description@)
            },
        },
        names_field(names@) is Ok ==> (r is Err <==> ids_field(
            posts_field@,
            Some(Seq::empty()),
            "Invalid post IDs."@,
        ) is Err),
        names_field(names@) is Ok && r is Err ==> ids_field(
            posts_field@,
            Some(Seq::empty()),
            "Invalid post IDs."@,
        ) == Err::<Option<Seq<i64>>, Seq<char>>(r->Err_0@),
{
    let names = match parse_names_field(names) {
        Ok(n) => n,
        Err(e) => {
            return Err(e);
        },
    };
    let posts = match pool_edit_posts(posts_field) {
        Ok(p) => p,
        Err(e) => {
            return Err(e);
        },
    };
    Ok(
        UpdatePoolBody {
            version: owned(version),
            category: Some(owned(category)),
            names: Some(names),
            description: Some(owned(description)),
            posts: Some(posts),
        },
    )
}


/// The decimal texts of a list of ids.
pub open spec fn id_texts(ids: Seq<i64>) -> Seq<Seq<char>> {
    ids.map_values(|id: i64| int_text(id as int))
}

/// How an id list is shown in a form field: the ids joined with `, `.
pub open spec fn ids_text(ids: Seq<i64>) -> Seq<char> {
    joined(id_texts(ids), ", "@)
}

/// Writes an id list into a form field (pool posts, post relations).
pub fn id_list_text(ids: &Vec<i64>) -> (r: String)
    ensures
        r@ == ids_text(ids@),
{
    let mut r = String::new();
    for i in 0..ids.len()
        invariant
            r@ == ids_text(ids@.take(i as int)),
    {
        let ghost prev = r@;
        if i > 0 {
            push_str(&mut r, ", ");
        }
        push_int(&mut r, ids[i]);
        assert(id_texts(ids@.take(i + 1)).drop_last() =~= id_texts(ids@.take(i as int)));
        assert(id_texts(ids@.take(i + 1)).last() == int_text(ids@[i as int] as int));
        if i == 0 {
            assert(id_texts(ids@.take(1)) =~= seq![int_text(ids@[0] as int)]);
        }
    }
    assert(ids@.take(ids.len() as int) =~= ids@);
    r
}

/// How a list of names is shown in a form field: joined with `, `.
pub open spec fn names_text(names: Seq<Seq<char>>) -> Seq<char> {
    joined(names, ", "@)
}

/// Writes a list of names into a form field (tag and pool names).
pub fn name_list_text(names: &Vec<String>) -> (r: String)
    ensures
        r@ == names_text(texts(names@)),
{
    let mut r = String::new();
    for i in 0..names.len()
        invariant
            r@ == names_text(texts(names@).take(i as int)),
    {
        if i > 0 {
            push_str(&mut r, ", ");
        }
        push_str(&mut r, names[i].as_str());
        assert(texts(names@).take(i + 1).drop_last() =~= texts(names@).take(i as int));
        if i == 0 {
            assert(texts(names@).take(1) =~= seq![names@[0]@]);
        }
    }
    assert(texts(names@).take(names.len() as int) =~= texts(names@));
    r
}


/// The pieces that splitting `ids_text(ids)` at its commas gives.
spec fn id_pieces(ids: Seq<i64>) -> Seq<Seq<char>>
    decreases ids.len(),
{
    if ids.len() <= 1 {
        id_texts(ids)
    } else {
        id_pieces(ids.drop_last()).push(seq![' '] + int_text(ids.last() as int))
    }
}

proof fn lemma_id_pieces(ids: Seq<i64>)
    requires
        ids.len() >= 1,
    ensures
        split_on(ids_text(ids), ',') == id_pieces(ids),
        parse_pieces(id_pieces(ids)) == Some(ids),
        ids_text(ids).len() > 0,
        !is_white(ids_text(ids)[0]),
        !is_white(ids_text(ids).last()),
    decreases ids.len(),
{
    let x = ids.last();
    let t = int_text(x as int);
    lemma_int_text_parses(x);
    lemma_trim_clean(t);
    if ids.len() == 1 {
        assert(id_texts(ids) =~= seq![t]);
        assert(ids_text(ids) == t);
        lemma_split_plain(t, ',');
        let one: Seq<Seq<char>> = seq![t];
        assert(one.drop_last() =~= Seq::<Seq<char>>::empty());
        assert(one.last() == t);
        assert(parse_pieces(one.drop_last()) == Some(Seq::<i64>::empty()));
        assert(parse_i64_spec(trim(one.last())) == Some(x));
        assert(parse_pieces(one) == Some(Seq::<i64>::empty().push(x)));
        assert(Seq::<i64>::empty().push(x) =~= ids);
    } else {
        let d = ids.drop_last();
        lemma_id_pieces(d);
        assert(id_texts(ids).drop_last() =~= id_texts(d));
        assert(id_texts(ids).last() == t);
        assert(ids_text(ids) == ids_text(d) + ", "@ + t);
        let b = seq![' '] + t;
        assert(forall|i: int| 0 <= i < b.len() ==> #[trigger] b[i] != ',') by {
            assert forall|i: int| 0 <= i < b.len() implies #[trigger] b[i] != ',' by {
                if i > 0 {
                    assert(b[i] == t[i - 1]);
                }
            }
        }
        reveal_strlit(", ");
        assert(ids_text(d) + ", "@ + t =~= ids_text(d) + seq![','] + b);
        lemma_split_append(ids_text(d), ',', b);
        lemma_trim_space_clean(t);
        assert(id_pieces(ids).drop_last() == id_pieces(d));
        assert(id_pieces(ids).last() == b);
        assert(parse_i64_spec(trim(b)) == Some(x));
        assert(d.push(x) =~= ids);
        assert(ids_text(ids)[0] == ids_text(d)[0]);
        assert(ids_text(ids).last() == t.last());
    }
}

/// Sending a post or pool form with its id field as the form filled it in
/// (the ids joined with `, `) gives back the same ids; an empty list gives
/// back what the form takes a blank field for.
pub proof fn law_id_list_round_trip(ids: Seq<i64>, blank_value: Option<Seq<i64>>, error: Seq<char>)
    ensures
        ids.len() > 0 ==> ids_field(ids_text(ids), blank_value, error) == Ok::<
            Option<Seq<i64>>,
            Seq<char>,
        >(Some(ids)),
        ids.len() == 0 ==> ids_field(ids_text(ids), blank_value, error) == Ok::<
            Option<Seq<i64>>,
            Seq<char>,
        >(blank_value),
{
    if ids.len() == 0 {
        assert(id_texts(ids) =~= Seq::<Seq<char>>::empty());
        assert(ids_text(ids) =~= Seq::<char>::empty());
        assert(trim(ids_text(ids)) =~= Seq::<char>::empty());
        assert(blank(ids_text(ids)));
    } else {
        lemma_id_pieces(ids);
        lemma_trim_clean(ids_text(ids));
        assert(!blank(ids_text(ids)));
        assert(comma_ids(ids_text(ids)) == Some(ids));
    }
}

/// A name that a names field keeps as it is: not empty, no white space at
/// either end, and no comma.
pub open spec fn plain_name(n: Seq<char>) -> bool {
    &&& n.len() > 0
    &&& !is_white(n[0])
    &&& !is_white(n.last())
    &&& forall|i: int| 0 <= i < n.len() ==> #[trigger] n[i] != ','
}

/// The pieces that splitting `names_text(names)` at its commas gives.
spec fn name_pieces(names: Seq<Seq<char>>) -> Seq<Seq<char>>
    decreases names.len(),
{
    if names.len() <= 1 {
        names
    } else {
        name_pieces(names.drop_last()).push(seq![' '] + names.last())
    }
}

proof fn lemma_name_pieces(names: Seq<Seq<char>>)
    requires
        names.len() >= 1,
        forall|i: int| 0 <= i < names.len() ==> plain_name(#[trigger] names[i]),
    ensures
        split_on(names_text(names), ',') == name_pieces(names),
        nonblank_pieces(name_pieces(names)) == names,
        names_text(names).len() > 0,
        !is_white(names_text(names)[0]),
        !is_white(names_text(names).last()),
    decreases names.len(),
{
    let t = names.last();
    assert(plain_name(names[names.len() - 1]));
    lemma_trim_clean(t);
    if names.len() == 1 {
        assert(names_text(names) == t);
        lemma_split_plain(t, ',');
        assert(names =~= seq![t]);
        let one: Seq<Seq<char>> = seq![t];
        assert(one.drop_last() =~= Seq::<Seq<char>>::empty());
        assert(nonblank_pieces(one.drop_last()) =~= Seq::<Seq<char>>::empty());
        assert(nonblank_pieces(one) =~= Seq::<Seq<char>>::empty().push(t));
    } else {
        let d = names.drop_last();
        assert forall|i: int| 0 <= i < d.len() implies plain_name(#[trigger] d[i]) by {
            assert(d[i] == names[i]);
        }
        lemma_name_pieces(d);
        assert(names_text(names) == names_text(d) + ", "@ + t);
        let b = seq![' '] + t;
        assert(forall|i: int| 0 <= i < b.len() ==> #[trigger] b[i] != ',') by {
            assert forall|i: int| 0 <= i < b.len() implies #[trigger] b[i] != ',' by {
                if i > 0 {
                    assert(b[i] == t[i - 1]);
                }
            }
        }
        reveal_strlit(", ");
        assert(names_text(d) + ", "@ + t =~= names_text(d) + seq![','] + b);
        lemma_split_append(names_text(d), ',', b);
        lemma_trim_space_clean(t);
        assert(name_pieces(names).drop_last() == name_pieces(d));
        assert(name_pieces(names).last() == b);
        assert(d.push(t) =~= names);
        assert(names_text(names)[0] == names_text(d)[0]);
        assert(names_text(names).last() == t.last());
    }
}

/// Sending a tag or pool form with its names field as the form filled it in
/// (the names joined with `, `) gives back the same names, when there is at
/// least one and none has a comma or white space at either end.
pub proof fn law_name_list_round_trip(names: Seq<Seq<char>>)
    requires
        names.len() >= 1,
        forall|i: int| 0 <= i < names.len() ==> plain_name(#[trigger] names[i]),
    ensures
        names_field(names_text(names)) == Ok::<Seq<Seq<char>>, Seq<char>>(names),
{
    lemma_name_pieces(names);
}

} // verus!
