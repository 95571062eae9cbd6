use vstd::prelude::*;
use crate::forms::unless_empty;
use crate::text::{opt_text, owned, same_text};

verus! {

/// A login token of a user, as the server lists it.
pub struct UserToken {
    pub token: Option<String>,
    pub note: Option<String>,
    pub enabled: Option<bool>,
    pub creation_time: Option<String>,
    pub expiration_time: Option<Option<String>>,
    pub version: Option<String>,
}

/// The request that creates a token.
pub struct CreateUserTokenBody {
    pub enabled: Option<bool>,
    pub note: Option<String>,
    pub expiration_time: Option<String>,
}

/// The request that updates a token.
pub struct UpdateUserTokenBody {
    pub version: String,
    pub enabled: Option<bool>,
    pub note: Option<String>,
    pub expiration_time: Option<String>,
}

/// Builds the request of the token creation form: an enabled token with
/// the note when one was typed, never expiring.
pub fn create_token_body(note: &str) -> (b: CreateUserTokenBody)
    ensures
        b.enabled == Some(true),
        opt_text(b.note) == unless_empty(note@),
        b.expiration_time is None,
{
    CreateUserTokenBody {
        enabled: Some(true),
        note: if note.is_empty() {
            None
        } else {
            Some(owned(note))
        },
        expiration_time: None,
    }
}

/// Builds the request that switches a token on or off (a token of unknown
/// state counts as off).
pub fn toggle_token_body(token: &UserToken) -> (b: UpdateUserTokenBody)
    ensures
        b.version@ == (match token.version {
            Some(v) => v@,
            None => Seq::empty(),
        }),
        b.enabled == Some(!(token.enabled == Some(true))),
        b.note is None,
        b.expiration_time is None,
{
    let enabled = match token.enabled {
        Some(e) => e,
        None => false,
    };
    UpdateUserTokenBody {
        version: match &token.version {
            Some(v) => owned(v.as_str()),
            None => String::new(),
        },
        enabled: Some(!enabled),
        note: None,
        expiration_time: None,
    }
}

/// When a token expires, as shown: its expiration time, or `Never`.
pub open spec fn expiration_text(e: Option<Option<String>>) -> Seq<char> {
    match e {
        Some(Some(t)) => t@,
        _ => "Never"@,
    }
}

/// The expiration shown for a token.
pub fn expiration_label(token: &UserToken) -> (r: String)
    ensures
        r@ == expiration_text(token.expiration_time),
{
    match &token.expiration_time {
        Some(Some(t)) => owned(t.as_str()),
        _ => owned("Never"),
    }
}

fn same_opt(a: &Option<String>, b: &Option<String>) -> (r: bool)
    ensures
        r == (opt_text(*a) == opt_text(*b)),
{
    match (a, b) {
        (Some(x), Some(y)) => same_text(x.as_str(), y.as_str()),
        (None, None) => true,
        _ => false,
    }
}

/// The first position of a listed token with token value `token`.
pub open spec fn token_position(list: Seq<UserToken>, token: Option<Seq<char>>) -> Option<int>
    decreases list.len(),
{
    if list.len() == 0 {
        None
    } else if opt_text(list[0].token) == token {
        Some(0)
    } else {
        match token_position(list.drop_first(), token) {
            Some(i) => Some(i + 1),
            None => None,
        }
    }
}

fn find_token(list: &Vec<UserToken>, token: &Option<String>) -> (r: Option<usize>)
    ensures
        match r {
            Some(i) => token_position(list@, opt_text(*token)) == Some(i as int) && i < list@.len(),
            None => token_position(list@, opt_text(*token)) is None,
        },
{
    let mut i: usize = 0;
    assert(list@.skip(0) =~= list@);
    while i < list.len()
        invariant
            i <= list@.len(),
            token_position(list@, opt_text(*token)) == (match token_position(
                list@.skip(i as int),
                opt_text(*token),
            ) {
                Some(k) => Some(k + i),
                None => None,
            }),
        decreases list@.len() - i,
    {
        assert(list@.skip(i as int).drop_first() =~= list@.skip(i + 1));
        assert(list@.skip(i as int)[0] == list@[i as int]);
        if same_opt(&list[i].token, token) {
            return Some(i);
        }
        i += 1;
    }
    None
}

/// Puts the server's answer to a token update in the place of the first
/// listed token with the same token value, if any.
pub fn replace_token(list: &mut Vec<UserToken>, updated: UserToken)
    ensures
        match token_position(old(list)@, opt_text(updated.token)) {
            Some(i) => final(list)@ == old(list)@.update(i, updated),
            None => final(list)@ == old(list)@,
        },
{
    match find_token(list, &updated.token) {
        Some(i) => {
            list.remove(i);
            list.insert(i, updated);
            assert(list@ =~= old(list)@.update(i as int, updated));
        },
        None => {},
    }
}

/// The listed tokens that do not carry the token value `token`, in order.
pub open spec fn without_token(list: Seq<UserToken>, token: Seq<char>) -> Seq<UserToken>
    decreases list.len(),
{
    if list.len() == 0 {
        list
    } else {
        let rest = without_token(list.drop_last(), token);
        if opt_text(list.last().token) == Some(token) {
            rest
        } else {
            rest.push(list.last())
        }
    }
}

/// Drops the deleted token from the list.
pub fn remove_token(list: &mut Vec<UserToken>, token: &str)
    ensures
        final(list)@ == without_token(old(list)@, token@),
{
    let mut all: Vec<UserToken> = Vec::new();
    std::mem::swap(list, &mut all);
    let ghost start = all@;
    let mut kept: Vec<UserToken> = Vec::new();
    for t in it: all.into_iter()
        invariant
            it.seq() == start,
            kept@ == without_token(start.take(it.index() as int), token@),
    {
        assert(start.take(it.index() + 1).drop_last() =~= start.take(it.index() as int));
        let drop = match &t.token {
            Some(v) => same_text(v.as_str(), token),
            None => false,
        };
        if !drop {
            kept.push(t);
        }
    }
    assert(start.take(start.len() as int) =~= start);
    *list = kept;
}

/// After a token is removed no listed token carries its value, and every
/// token that carries another value is still listed.
pub proof fn law_removed_token_gone(list: Seq<UserToken>, token: Seq<char>)
    ensures
        forall|i: int|
            0 <= i < without_token(list, token).len() ==> opt_text(
                #[trigger] without_token(list, token)[i].token,
            ) != Some(token),
        forall|i: int|
            0 <= i < list.len() && opt_text((#[trigger] list[i]).token) != Some(token)
                ==> without_token(list, token).contains(list[i]),
    decreases list.len(),
{
    if list.len() > 0 {
        let d = list.drop_last();
        law_removed_token_gone(d, token);
        let rest = without_token(d, token);
        let r = without_token(list, token);
        assert forall|i: int|
            0 <= i < list.len() && opt_text((#[trigger] list[i]).token) != Some(token)
                implies r.contains(list[i]) by {
            if i < d.len() {
                assert(list[i] == d[i]);
                let k = choose|k: int| 0 <= k < rest.len() && rest[k] == d[i];
                assert(r[k] == rest[k]);
            } else {
                assert(r.last() == list[i]);
                assert(r[r.len() - 1] == list[i]);
            }
        }
    }
}

} // verus!
