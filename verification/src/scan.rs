use vstd::prelude::*;
use crate::text::{chars_of, digit_char, int_text, nat_text, string_of};

verus! {

/// Unicode `White_Space`, the property that `char::is_whitespace` tests.
pub open spec fn is_white(c: char) -> bool {
    let u = c as u32;
    ||| 0x09 <= u <= 0x0D
    ||| u == 0x20 || u == 0x85 || u == 0xA0 || u == 0x1680
    ||| 0x2000 <= u <= 0x200A
    ||| u == 0x2028 || u == 0x2029 || u == 0x202F || u == 0x205F || u == 0x3000
}

pub fn white(c: char) -> (r: bool)
    ensures
        r == is_white(c),
{
    let u = c as u32;
    (0x09 <= u && u <= 0x0D) || u == 0x20 || u == 0x85 || u == 0xA0 || u == 0x1680 || (0x2000 <= u
        && u <= 0x200A) || u == 0x2028 || u == 0x2029 || u == 0x202F || u == 0x205F || u == 0x3000
}

pub open spec fn trim_start(s: Seq<char>) -> Seq<char>
    decreases s.len(),
{
    if s.len() > 0 && is_white(s[0]) {
        trim_start(s.drop_first())
    } else {
        s
    }
}

pub open spec fn trim_end(s: Seq<char>) -> Seq<char>
    decreases s.len(),
{
    if s.len() > 0 && is_white(s.last()) {
        trim_end(s.drop_last())
    } else {
        s
    }
}

/// What `str::trim` leaves: `s` without leading and trailing white space.
pub open spec fn trim(s: Seq<char>) -> Seq<char> {
    trim_end(trim_start(s))
}

proof fn lemma_trim_start_skip(s: Seq<char>, i: int)
    requires
        0 <= i <= s.len(),
        forall|j: int| 0 <= j < i ==> is_white(s[j]),
    ensures
        trim_start(s) == trim_start(s.subrange(i, s.len() as int)),
    decreases i,
{
    if i > 0 {
        assert(s.drop_first().subrange(i - 1, s.drop_first().len() as int) == s.subrange(
            i,
            s.len() as int,
        ));
        lemma_trim_start_skip(s.drop_first(), i - 1);
    } else {
        assert(s.subrange(0, s.len() as int) == s);
    }
}

proof fn lemma_trim_end_skip(s: Seq<char>, k: int)
    requires
        0 <= k <= s.len(),
        forall|j: int| k <= j < s.len() ==> is_white(s[j]),
    ensures
        trim_end(s) == trim_end(s.subrange(0, k)),
    decreases s.len() - k,
{
    if k < s.len() {
        assert(s.drop_last().subrange(0, k) == s.subrange(0, k));
        lemma_trim_end_skip(s.drop_last(), k);
    } else {
        assert(s.subrange(0, k) == s);
    }
}

/// `trim` of a character sequence.
pub fn trim_chars(v: &Vec<char>) -> (r: Vec<char>)
    ensures
        r@ == trim(v@),
{
    let n = v.len();
    let mut a: usize = 0;
    while a < n && white(v[a])
        invariant
            a <= n == v@.len(),
            forall|j: int| 0 <= j < a ==> is_white(v@[j]),
        decreases n - a,
    {
        a += 1;
    }
    proof {
        lemma_trim_start_skip(v@, a as int);
    }
    let ghost rest = v@.subrange(a as int, n as int);
    let mut b: usize = n;
    while b > a && white(v[b - 1])
        invariant
            a <= b <= n == v@.len(),
            rest == v@.subrange(a as int, n as int),
            forall|j: int| b <= j < n ==> is_white(v@[j]),
        decreases b,
    {
        b -= 1;
    }
    let mut r: Vec<char> = Vec::new();
    let mut i = a;
    while i < b
        invariant
            a <= i <= b <= n == v@.len(),
            r@ == v@.subrange(a as int, i as int),
        decreases b - i,
    {
        r.push(v[i]);
        i += 1;
    }
    proof {
        lemma_trim_end_skip(rest, (b - a) as int);
        assert(rest.subrange(0, (b - a) as int) == v@.subrange(a as int, b as int));
        if a < n && !is_white(v@[a as int]) {
        } else {
            assert(a == n);
        }
        assert(trim_start(rest) == rest);
    }
    r
}


/// The pieces of `s` between occurrences of `sep`, as `str::split` yields
/// them: `n` separators give `n + 1` pieces, empty ones included.
pub open spec fn split_on(s: Seq<char>, sep: char) -> Seq<Seq<char>>
    decreases s.len(),
{
    if s.len() == 0 {
        seq![Seq::empty()]
    } else {
        let rest = split_on(s.drop_last(), sep);
        if s.last() == sep {
            rest.push(Seq::empty())
        } else {
            rest.update(rest.len() - 1, rest.last().push(s.last()))
        }
    }
}

proof fn lemma_split_nonempty(s: Seq<char>, sep: char)
    ensures
        split_on(s, sep).len() >= 1,
    decreases s.len(),
{
    if s.len() > 0 {
        lemma_split_nonempty(s.drop_last(), sep);
    }
}

/// The character sequences held by a list of character vectors.
pub open spec fn views(v: Seq<Vec<char>>) -> Seq<Seq<char>> {
    v.map_values(|x: Vec<char>| x@)
}

/// `s.split(sep)`, each piece as its characters.
pub fn split_chars(s: &Vec<char>, sep: char) -> (r: Vec<Vec<char>>)
    ensures
        views(r@) == split_on(s@, sep),
{
    let mut done: Vec<Vec<char>> = Vec::new();
    let mut cur: Vec<char> = Vec::new();
    for i in 0..s.len()
        invariant
            views(done@).push(cur@) == split_on(s@.take(i as int), sep),
    {
        let c = s[i];
        let ghost prev = views(done@);
        let ghost prev_cur = cur@;
        proof {
            assert(s@.take(i + 1).drop_last() == s@.take(i as int));
            lemma_split_nonempty(s@.take(i as int), sep);
        }
        if c == sep {
            let finished = cur;
            done.push(finished);
            cur = Vec::new();
            assert(views(done@) =~= prev.push(prev_cur));
        } else {
            cur.push(c);
            assert(views(done@) =~= prev);
        }
        assert(views(done@).push(cur@) =~= split_on(s@.take(i + 1), sep));
    }
    assert(s@.take(s.len() as int) == s@);
    let ghost prev = views(done@);
    let ghost last = cur@;
    done.push(cur);
    assert(views(done@) =~= prev.push(last));
    assert(views(done@) =~= split_on(s@, sep));
    done
}


pub open spec fn is_digit(c: char) -> bool {
    '0' <= c <= '9'
}

pub open spec fn all_digits(t: Seq<char>) -> bool {
    forall|i: int| 0 <= i < t.len() ==> is_digit(#[trigger] t[i])
}

/// The number that a string of decimal digits denotes.
pub open spec fn digits_value(t: Seq<char>) -> int
    decreases t.len(),
{
    if t.len() == 0 {
        0
    } else {
        digits_value(t.drop_last()) * 10 + ((t.last() as int) - 48)
    }
}

/// The integer that `s` spells: an optional `+` or `-` followed by at least
/// one decimal digit and nothing else.
pub open spec fn int_syntax_value(s: Seq<char>) -> Option<int> {
    let negative = s.len() > 0 && s[0] == '-';
    let body = if s.len() > 0 && (s[0] == '-' || s[0] == '+') {
        s.drop_first()
    } else {
        s
    };
    if body.len() == 0 || !all_digits(body) {
        None
    } else if negative {
        Some(-digits_value(body))
    } else {
        Some(digits_value(body))
    }
}

/// What `s.parse::<i64>()` gives: the spelled integer when it fits in `i64`.
pub open spec fn parse_i64_spec(s: Seq<char>) -> Option<i64> {
    match int_syntax_value(s) {
        Some(v) => if i64::MIN <= v <= i64::MAX {
            Some(v as i64)
        } else {
            None
        },
        None => None,
    }
}

proof fn lemma_digits_value_grows(t: Seq<char>, i: int)
    requires
        all_digits(t),
        0 <= i <= t.len(),
    ensures
        digits_value(t) >= digits_value(t.take(i)) >= 0,
    decreases t.len(),
{
    if t.len() > 0 {
        if i == t.len() {
            assert(t.take(i) == t);
            lemma_digits_value_grows(t.drop_last(), t.len() - 1);
            assert(t.drop_last().take(t.len() - 1) == t.drop_last());
        } else {
            lemma_digits_value_grows(t.drop_last(), i);
            assert(t.drop_last().take(i) == t.take(i));
        }
    } else {
        assert(t.take(i) == t);
    }
}

/// `s.parse::<i64>().ok()` on a character sequence.
pub fn parse_i64_chars(s: &Vec<char>) -> (r: Option<i64>)
    ensures
        r == parse_i64_spec(s@),
{
    let n = s.len();
    let negative = n > 0 && s[0] == '-';
    let start: usize = if n > 0 && (s[0] == '-' || s[0] == '+') {
        1
    } else {
        0
    };
    let ghost body = s@.subrange(start as int, n as int);
    assert(body == (if s@.len() > 0 && (s@[0] == '-' || s@[0] == '+') {
        s@.drop_first()
    } else {
        s@
    }));
    if start == n {
        return None;
    }
    let mut mag: u128 = 0;
    let mut i = start;
    while i < n
        invariant
            start <= i <= n == s@.len(),
            body == s@.subrange(start as int, n as int),
            body == (if s@.len() > 0 && (s@[0] == '-' || s@[0] == '+') {
                s@.drop_first()
            } else {
                s@
            }),
            start < n,
            negative == (s@.len() > 0 && s@[0] == '-'),
            forall|j: int| 0 <= j < i - start ==> is_digit(#[trigger] body[j]),
            mag == digits_value(body.take(i - start)),
            mag <= 0x8000_0000_0000_0000,
        decreases n - i,
    {
        let c = s[i];
        if !('0' <= c && c <= '9') {
            assert(!is_digit(body[i - start]));
            return None;
        }
        let d = (c as u32 - 48) as u128;
        assert(body.take(i + 1 - start).drop_last() == body.take(i - start));
        mag = mag * 10 + d;
        if mag > 0x8000_0000_0000_0000 {
            proof {
                if all_digits(body) {
                    lemma_digits_value_grows(body, i + 1 - start);
                }
            }
            return None;
        }
        i += 1;
    }
    assert(body.take(n - start) == body);
    if negative {
        Some(-(mag as i128) as i64)
    } else if mag <= 0x7FFF_FFFF_FFFF_FFFF {
        Some(mag as i64)
    } else {
        None
    }
}


/// The character sequences held by a list of strings.
pub open spec fn texts(v: Seq<String>) -> Seq<Seq<char>> {
    v.map_values(|x: String| x@)
}

/// The trimmed pieces that are not empty, in order.
pub open spec fn nonblank_pieces(pieces: Seq<Seq<char>>) -> Seq<Seq<char>>
    decreases pieces.len(),
{
    if pieces.len() == 0 {
        Seq::empty()
    } else {
        let rest = nonblank_pieces(pieces.drop_last());
        let t = trim(pieces.last());
        if t.len() > 0 {
            rest.push(t)
        } else {
            rest
        }
    }
}

/// The names listed in a comma-separated field:
/// `s.split(',').map(str::trim).filter(|s| !s.is_empty())`.
pub open spec fn comma_names(s: Seq<char>) -> Seq<Seq<char>> {
    nonblank_pieces(split_on(s, ','))
}

/// Every trimmed piece parsed as an `i64`; `None` when one of them does not parse.
pub open spec fn parse_pieces(pieces: Seq<Seq<char>>) -> Option<Seq<i64>>
    decreases pieces.len(),
{
    if pieces.len() == 0 {
        Some(Seq::empty())
    } else {
        match (parse_pieces(pieces.drop_last()), parse_i64_spec(trim(pieces.last()))) {
            (Some(r), Some(v)) => Some(r.push(v)),
            _ => None,
        }
    }
}

/// The numbers of a comma-separated field:
/// `s.split(',').map(|p| p.trim().parse::<i64>())`, all of them or none.
pub open spec fn comma_ids(s: Seq<char>) -> Option<Seq<i64>> {
    parse_pieces(split_on(s, ','))
}

/// The names listed in the comma-separated field `s`.
pub fn comma_names_of(s: &str) -> (r: Vec<String>)
    ensures
        texts(r@) == comma_names(s@),
{
    let pieces = split_chars(&chars_of(s), ',');
    let mut r: Vec<String> = Vec::new();
    for i in 0..pieces.len()
        invariant
            views(pieces@) == split_on(s@, ','),
            texts(r@) == nonblank_pieces(views(pieces@).take(i as int)),
    {
        let t = trim_chars(&pieces[i]);
        let ghost prev = texts(r@);
        assert(views(pieces@).take(i + 1).drop_last() == views(pieces@).take(i as int));
        if t.len() > 0 {
            r.push(string_of(&t));
            assert(texts(r@) =~= prev.push(t@));
        }
    }
    assert(views(pieces@).take(pieces.len() as int) == views(pieces@));
    r
}

/// The numbers of the comma-separated field `s`, or `None` when a piece is
/// not an integer.
pub fn comma_ids_of(s: &str) -> (r: Option<Vec<i64>>)
    ensures
        match r {
            Some(v) => comma_ids(s@) == Some(v@),
            None => comma_ids(s@) is None,
        },
{
    let pieces = split_chars(&chars_of(s), ',');
    let mut r: Vec<i64> = Vec::new();
    for i in 0..pieces.len()
        invariant
            views(pieces@) == split_on(s@, ','),
            parse_pieces(views(pieces@).take(i as int)) == Some(r@),
    {
        let t = trim_chars(&pieces[i]);
        assert(views(pieces@).take(i + 1).drop_last() == views(pieces@).take(i as int));
        match parse_i64_chars(&t) {
            Some(v) => {
                r.push(v);
            },
            None => {
                proof {
                    lemma_parse_pieces_fails(views(pieces@), i as int);
                }
                return None;
            },
        }
    }
    assert(views(pieces@).take(pieces.len() as int) == views(pieces@));
    Some(r)
}

proof fn lemma_parse_pieces_fails(p: Seq<Seq<char>>, i: int)
    requires
        0 <= i < p.len(),
        parse_i64_spec(trim(p[i])) is None,
    ensures
        parse_pieces(p) is None,
    decreases p.len(),
{
    if i < p.len() - 1 {
        lemma_parse_pieces_fails(p.drop_last(), i);
    }
}


/// The white-space separated words of `s`, as `str::split_whitespace`
/// yields them.
pub open spec fn words(s: Seq<char>) -> Seq<Seq<char>>
    decreases s.len(),
{
    if s.len() == 0 {
        Seq::empty()
    } else {
        let w = words(s.drop_last());
        if is_white(s.last()) {
            w
        } else if s.len() >= 2 && !is_white(s[s.len() - 2]) {
            w.update(w.len() - 1, w.last().push(s.last()))
        } else {
            w.push(seq![s.last()])
        }
    }
}

proof fn lemma_words_nonempty_end(s: Seq<char>)
    requires
        s.len() > 0,
        !is_white(s.last()),
    ensures
        words(s).len() > 0,
    decreases s.len(),
{
    if s.len() >= 2 && !is_white(s[s.len() - 2]) {
        lemma_words_nonempty_end(s.drop_last());
    }
}

/// `s.split_whitespace()`, each word as a string.
pub fn split_words(s: &str) -> (r: Vec<String>)
    ensures
        texts(r@) == words(s@),
{
    let v = chars_of(s);
    let mut done: Vec<String> = Vec::new();
    let mut cur: Vec<char> = Vec::new();
    for i in 0..v.len()
        invariant
            v@ == s@,
            cur@.len() > 0 ==> i > 0 && !is_white(v@[i - 1]),
            i > 0 && !is_white(v@[i - 1]) ==> cur@.len() > 0,
            (if cur@.len() > 0 {
                texts(done@).push(cur@)
            } else {
                texts(done@)
            }) == words(v@.take(i as int)),
    {
        let c = v[i];
        assert(v@.take(i + 1).drop_last() =~= v@.take(i as int));
        let ghost prev_done = texts(done@);
        let ghost prev_cur = cur@;
        if white(c) {
            if cur.len() > 0 {
                done.push(string_of(&cur));
                cur = Vec::new();
                assert(texts(done@) =~= prev_done.push(prev_cur));
            }
        } else {
            cur.push(c);
            proof {
                let t = v@.take(i + 1);
                assert(t.drop_last() == v@.take(i as int));
                assert(t.last() == c);
                if prev_cur.len() > 0 {
                    assert(t[i - 1] == v@[i - 1]);
                    assert(!is_white(t[t.len() - 2]));
                    assert(words(t) == words(t.drop_last()).update(
                        words(t.drop_last()).len() - 1,
                        words(t.drop_last()).last().push(c),
                    ));
                    assert(texts(done@).push(cur@) =~= words(t));
                } else {
                    if i > 0 {
                        assert(t[i - 1] == v@[i - 1]);
                        assert(is_white(t[t.len() - 2]));
                    }
                    assert(words(t) == words(t.drop_last()).push(seq![c]));
                    assert(cur@ =~= seq![c]);
                    assert(texts(done@) == prev_done);
                    assert(texts(done@).push(cur@) =~= words(t));
                }
            }
        }
        assert((if cur@.len() > 0 {
            texts(done@).push(cur@)
        } else {
            texts(done@)
        }) =~= words(v@.take(i + 1)));
    }
    assert(v@.take(v.len() as int) =~= v@);
    if cur.len() > 0 {
        let ghost prev_done = texts(done@);
        let ghost prev_cur = cur@;
        done.push(string_of(&cur));
        assert(texts(done@) =~= prev_done.push(prev_cur));
    }
    done
}


/// `parts` joined with `sep` between neighbours.
pub open spec fn joined(parts: Seq<Seq<char>>, sep: Seq<char>) -> Seq<char>
    decreases parts.len(),
{
    if parts.len() == 0 {
        Seq::empty()
    } else if parts.len() == 1 {
        parts[0]
    } else {
        joined(parts.drop_last(), sep) + sep + parts.last()
    }
}


/// Splitting text that holds no separator gives the text itself.
pub proof fn lemma_split_plain(b: Seq<char>, sep: char)
    requires
        forall|i: int| 0 <= i < b.len() ==> b[i] != sep,
    ensures
        split_on(b, sep) == seq![b],
    decreases b.len(),
{
    if b.len() > 0 {
        lemma_split_plain(b.drop_last(), sep);
        assert(b.last() != sep);
        let rest = split_on(b.drop_last(), sep);
        assert(split_on(b, sep) == rest.update(rest.len() - 1, rest.last().push(b.last())));
        assert(b.drop_last().push(b.last()) =~= b);
        assert(seq![b.drop_last()].update(0, b.drop_last().push(b.last())) =~= seq![b]);
    } else {
        assert(b =~= Seq::<char>::empty());
    }
}

/// Splitting `a`, a separator, then text `b` without separator: the pieces of
/// `a` followed by `b`.
pub proof fn lemma_split_append(a: Seq<char>, sep: char, b: Seq<char>)
    requires
        forall|i: int| 0 <= i < b.len() ==> b[i] != sep,
    ensures
        split_on(a + seq![sep] + b, sep) == split_on(a, sep).push(b),
    decreases b.len(),
{
    if b.len() == 0 {
        assert(a + seq![sep] + b =~= a.push(sep));
        assert((a.push(sep)).drop_last() =~= a);
        assert((a.push(sep)).last() == sep);
        assert(b =~= Seq::<char>::empty());
        assert(split_on(a.push(sep), sep) == split_on(a, sep).push(Seq::empty()));
    } else {
        let b0 = b.drop_last();
        lemma_split_append(a, sep, b0);
        assert((a + seq![sep] + b).drop_last() =~= a + seq![sep] + b0);
        assert((a + seq![sep] + b).last() == b.last());
        assert(b.last() != sep);
        let rest = split_on(a + seq![sep] + b0, sep);
        assert(split_on(a + seq![sep] + b, sep) == rest.update(rest.len() - 1, rest.last().push(b.last())));
        assert(b0.push(b.last()) =~= b);
        assert(split_on(a, sep).push(b0).update(split_on(a, sep).len() as int, b0.push(b.last()))
            =~= split_on(a, sep).push(b));
        assert(b0.push(b.last()) =~= b);
    }
}

/// Trimming text that does not start or end with white space leaves it as it is.
pub proof fn lemma_trim_clean(t: Seq<char>)
    requires
        t.len() > 0 ==> !is_white(t[0]) && !is_white(t.last()),
    ensures
        trim(t) == t,
{
}

/// Trimming one leading space off clean text.
pub proof fn lemma_trim_space_clean(t: Seq<char>)
    requires
        t.len() > 0,
        !is_white(t[0]),
        !is_white(t.last()),
    ensures
        trim(seq![' '] + t) == t,
{
    assert((seq![' '] + t).drop_first() =~= t);
    assert(trim_start(seq![' '] + t) == trim_start(t));
}


proof fn lemma_digit_char(d: int)
    requires
        0 <= d < 10,
    ensures
        is_digit(digit_char(d)),
        digit_char(d) as int == d + 48,
        !is_white(digit_char(d)),
        digit_char(d) != ',',
{
}

/// The decimal text of a natural number: digits only, at least one, and
/// they denote the number.
pub proof fn lemma_nat_text_digits(n: nat)
    ensures
        nat_text(n).len() >= 1,
        all_digits(nat_text(n)),
        digits_value(nat_text(n)) == n,
    decreases n,
{
    lemma_digit_char((n % 10) as int);
    if n >= 10 {
        lemma_nat_text_digits(n / 10);
        let t = nat_text(n);
        assert(t.drop_last() =~= nat_text(n / 10));
        assert forall|i: int| 0 <= i < t.len() implies is_digit(#[trigger] t[i]) by {
            if i < t.len() - 1 {
                assert(t[i] == nat_text(n / 10)[i]);
            }
        }
        assert(t.last() == digit_char((n % 10) as int));
        assert(n == (n / 10) * 10 + n % 10);
        assert(digits_value(t) == digits_value(t.drop_last()) * 10 + ((t.last() as int) - 48));
    } else {
        lemma_digit_char(n as int);
        let t = nat_text(n);
        assert(t.drop_last() =~= Seq::<char>::empty());
        assert(digits_value(t) == digits_value(t.drop_last()) * 10 + ((t.last() as int) - 48));
    }
}

/// Parsing the decimal text of an `i64` gives it back.
pub proof fn lemma_int_text_parses(x: i64)
    ensures
        parse_i64_spec(int_text(x as int)) == Some(x),
        int_text(x as int).len() >= 1,
        !is_white(int_text(x as int)[0]),
        !is_white(int_text(x as int).last()),
        forall|i: int| 0 <= i < int_text(x as int).len() ==> #[trigger] int_text(x as int)[i] != ',',
{
    if x < 0 {
        let m = (-x) as nat;
        lemma_nat_text_digits(m);
        let t = int_text(x as int);
        assert(t == seq!['-'] + nat_text(m));
        assert(t.drop_first() =~= nat_text(m));
        assert(!is_digit('-'));
        assert(t.last() == nat_text(m).last());
        assert(is_digit(nat_text(m).last()));
        assert forall|i: int| 0 <= i < t.len() implies #[trigger] t[i] != ',' by {
            if i > 0 {
                assert(t[i] == nat_text(m)[i - 1]);
                assert(is_digit(nat_text(m)[i - 1]));
            }
        }
    } else {
        let m = x as nat;
        lemma_nat_text_digits(m);
        let t = int_text(x as int);
        assert(is_digit(t[0]));
        assert(is_digit(t.last()));
        assert forall|i: int| 0 <= i < t.len() implies #[trigger] t[i] != ',' by {
            assert(is_digit(t[i]));
        }
    }
}

} // verus!
