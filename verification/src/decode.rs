//! The ways in which a short link is cut out of a reply body.
//!
//! A reply is never parsed as JSON, XML or HTML. A decoder only looks for
//! fixed markers and takes what stands between them.

use vstd::prelude::*;
use vstd::string::*;
use crate::text::{
    after_first, before_first, chars_of, cut_after, cut_before, cut_second, find, first_at,
    is_first_at, lemma_before_first_is_prefix, lemma_first_at, lemma_first_at_is, occurs,
    occurs_at, second_piece,
};

verus! {

/// The separator that ends a field of a JSON-like reply.
pub const FIELD_END: &'static str = ",";

/// The character that encloses a value of a JSON-like reply.
pub const QUOTE: &'static str = "\"";

/// The value between a pair of tags: what stands behind the leftmost `open`,
/// up to the next `open` or, where a `close` comes before that, up to the
/// `close`. There is none where the body is empty, where `open` does not
/// occur, or where no `close` stands behind the leftmost `open`.
pub open spec fn tagged_value(body: Seq<char>, open: Seq<char>, close: Seq<char>) -> Option<
    Seq<char>,
> {
    if body.len() == 0 {
        None
    } else {
        match after_first(body, open) {
            Some(rest) => if occurs(rest, close) {
                Some(before_first(before_first(rest, open), close))
            } else {
                None
            },
            None => None,
        }
    }
}

/// The value of an attribute of a page. It is the second of the pieces into
/// which `marker` cuts the body, up to the leftmost `end` in that piece, or
/// all of that piece where no `end` follows. There is none where the body is
/// empty or where `marker` does not occur.
pub open spec fn attribute_value(body: Seq<char>, marker: Seq<char>, end: Seq<char>) -> Option<
    Seq<char>,
> {
    if body.len() == 0 {
        None
    } else {
        match second_piece(body, marker) {
            Some(piece) => Some(before_first(piece, end)),
            None => None,
        }
    }
}

/// The field of a JSON-like reply that follows `key`: the second of the
/// pieces into which `key` cuts the body, up to its leftmost field
/// separator. Where `key` does not occur the field is empty.
pub open spec fn field_after(body: Seq<char>, key: Seq<char>) -> Seq<char> {
    match second_piece(body, key) {
        Some(piece) => before_first(piece, FIELD_END@),
        None => Seq::empty(),
    }
}

/// The quoted value of the field that follows `key`: the second of the
/// pieces into which the quote character cuts that field. There is none where
/// the body is empty, or where the field holds no quote, as it does where
/// `key` does not occur.
pub open spec fn quoted_value(body: Seq<char>, key: Seq<char>) -> Option<Seq<char>> {
    if body.len() == 0 {
        None
    } else {
        second_piece(field_after(body, key), QUOTE@)
    }
}

/// `text` without the characters equal to `c`.
pub open spec fn without(text: Seq<char>, c: char) -> Seq<char> {
    text.filter(|x: char| x != c)
}

/// `text` without its last character, if it has one.
pub open spec fn without_last(text: Seq<char>) -> Seq<char> {
    if text.len() > 0 {
        text.drop_last()
    } else {
        text
    }
}

/// A value that stands between `open` and `close`, with nothing around them,
/// is what `tagged_value` finds, provided that `open` does not occur in the
/// value followed by `close`, and that `close` does not begin inside the value.
pub proof fn lemma_tagged_value_enclosed(value: Seq<char>, open: Seq<char>, close: Seq<char>)
    requires
        open.len() > 0,
        !occurs(value + close, open),
        is_first_at(value + close, close, value.len() as int),
    ensures
        tagged_value(open + value + close, open, close) == Some(value),
{
    let body = open + value + close;
    let rest = value + close;
    assert(body.subrange(0, open.len() as int) =~= open);
    assert(is_first_at(body, open, 0));
    lemma_first_at_is(body, open, 0);
    assert(body.skip(open.len() as int) =~= rest);
    lemma_first_at_is(rest, close, value.len() as int);
    assert(rest.take(value.len() as int) =~= value);
}

/// Tags that begin with `lead` and hold it nowhere else enclose any value
/// without `lead`: where `open` is no beginning of `close`, `tagged_value`
/// finds that value.
pub proof fn lemma_tagged_value_without_lead(
    value: Seq<char>,
    open: Seq<char>,
    close: Seq<char>,
    lead: char,
)
    requires
        open.len() > 0,
        close.len() > 0,
        open[0] == lead,
        close[0] == lead,
        forall|i: int| 0 <= i < value.len() ==> value[i] != lead,
        forall|i: int| 1 <= i < close.len() ==> close[i] != lead,
        !occurs_at(close, open, 0),
    ensures
        tagged_value(open + value + close, open, close) == Some(value),
{
    let rest = value + close;
    let n = value.len() as int;
    assert forall|at: int| occurs_at(rest, open, at) implies false by {
        assert(rest.subrange(at, at + open.len())[0] == lead);
        assert(at == n);
        assert(close.subrange(0, open.len() as int) =~= rest.subrange(at, at + open.len()));
    }
    assert forall|at: int| 0 <= at < n implies !occurs_at(rest, close, at) by {
        if occurs_at(rest, close, at) {
            assert(rest.subrange(at, at + close.len())[0] == lead);
        }
    }
    assert(rest.subrange(n, n + close.len()) =~= close);
    lemma_tagged_value_enclosed(value, open, close);
}

/// A body in which `close` does not occur holds no tagged value.
pub proof fn lemma_tagged_value_needs_close(body: Seq<char>, open: Seq<char>, close: Seq<char>)
    requires
        !occurs(body, close),
    ensures
        tagged_value(body, open, close) is None,
{
    if body.len() > 0 && occurs(body, open) {
        lemma_first_at(body, open);
        let from = first_at(body, open) + open.len();
        let rest = body.skip(from);
        if occurs(rest, close) {
            let at = choose|at: int| occurs_at(rest, close, at);
            assert(body.subrange(from + at, from + at + close.len()) =~= rest.subrange(
                at,
                at + close.len(),
            ));
            assert(occurs_at(body, close, from + at));
        }
    }
}

/// A body in which `open` does not occur holds no tagged value.
pub proof fn lemma_tagged_value_needs_open(body: Seq<char>, open: Seq<char>, close: Seq<char>)
    requires
        !occurs(body, open),
    ensures
        tagged_value(body, open, close) is None,
{
}

/// A body in which `marker` does not occur holds no attribute value.
pub proof fn lemma_attribute_value_needs_marker(
    body: Seq<char>,
    marker: Seq<char>,
    end: Seq<char>,
)
    requires
        !occurs(body, marker),
    ensures
        attribute_value(body, marker, end) is None,
{
}

/// A body in which `key` does not occur holds no quoted value.
pub proof fn lemma_quoted_value_needs_key(body: Seq<char>, key: Seq<char>)
    requires
        !occurs(body, key),
    ensures
        quoted_value(body, key) is None,
{
    reveal_strlit("\"");
    assert(field_after(body, key) =~= Seq::<char>::empty());
}

/// Where `key` is followed by a field separator before any quote, the field
/// of `key` holds no quoted value: a quoted string of a later field is not
/// taken for it.
pub proof fn lemma_quoted_value_stays_in_field(
    before: Seq<char>,
    key: Seq<char>,
    gap: Seq<char>,
    after: Seq<char>,
)
    requires
        is_first_at(before + key + gap + FIELD_END@ + after, key, before.len() as int),
        forall|i: int| 0 <= i < gap.len() ==> gap[i] != '"',
    ensures
        quoted_value(before + key + gap + FIELD_END@ + after, key) is None,
{
    reveal_strlit(",");
    reveal_strlit("\"");
    let body = before + key + gap + FIELD_END@ + after;
    let rest = gap + FIELD_END@ + after;
    let n = gap.len() as int;
    lemma_first_at_is(body, key, before.len() as int);
    assert(body.skip((before.len() + key.len()) as int) =~= rest);
    let piece = before_first(rest, key);
    lemma_before_first_is_prefix(rest, key);
    let field = before_first(piece, FIELD_END@);
    lemma_before_first_is_prefix(piece, FIELD_END@);
    assert(field == field_after(body, key));
    if piece.len() > n {
        assert(piece.subrange(n, n + 1) =~= FIELD_END@);
        assert(occurs_at(piece, FIELD_END@, n));
    }
    assert(field.len() <= n);
    assert forall|at: int| occurs_at(field, QUOTE@, at) implies false by {
        assert(field.subrange(at, at + 1)[0] == '"');
        assert(field[at] == gap[at]);
    }
}

/// Copies the characters `from..to` of `res` into a string of their own.
fn extract(res: &str, from: usize, to: usize) -> (piece: String)
    requires
        from <= to <= res@.len(),
    ensures
        piece@ == res@.subrange(from as int, to as int),
{
    res.substring_char(from, to).to_owned()
}

/// Extracts the value between the tags `open` and `close` from a reply.
pub fn tagged(res: &str, open: &str, close: &str) -> (value: Option<String>)
    ensures
        value.deep_view() == tagged_value(res@, open@, close@),
{
    if res.is_empty() {
        return None;
    }
    let text = chars_of(res);
    let open = chars_of(open);
    let close = chars_of(close);
    let n = text.len();
    assert(text@.subrange(0, n as int) =~= text@);
    match cut_after(&text, 0, n, &open) {
        Some(from) => match find(&text, from, n, &close) {
            Some(_) => {
                let to = cut_before(&text, from, n, &open);
                let stop = cut_before(&text, from, to, &close);
                Some(extract(res, from, stop))
            },
            None => None,
        },
        None => None,
    }
}

/// Extracts the value of an attribute from a page: what stands between
/// `marker` and `end`.
pub fn attribute(res: &str, marker: &str, end: &str) -> (value: Option<String>)
    ensures
        value.deep_view() == attribute_value(res@, marker@, end@),
{
    if res.is_empty() {
        return None;
    }
    let text = chars_of(res);
    let marker = chars_of(marker);
    let end = chars_of(end);
    assert(text@.subrange(0, text@.len() as int) =~= text@);
    match cut_second(&text, 0, text.len(), &marker) {
        Some((from, to)) => {
            let stop = cut_before(&text, from, to, &end);
            Some(extract(res, from, stop))
        },
        None => None,
    }
}

/// Extracts the quoted value of the field that follows `key` from a
/// JSON-like reply.
pub fn quoted(res: &str, key: &str) -> (value: Option<String>)
    ensures
        value.deep_view() == quoted_value(res@, key@),
{
    if res.is_empty() {
        return None;
    }
    let text = chars_of(res);
    let key = chars_of(key);
    let field_end = chars_of(FIELD_END);
    let quote = chars_of(QUOTE);
    assert(text@.subrange(0, text@.len() as int) =~= text@);
    let (from, to) = match cut_second(&text, 0, text.len(), &key) {
        Some((from, to)) => (from, cut_before(&text, from, to, &field_end)),
        None => {
            assert(text@.subrange(0, 0) =~= Seq::<char>::empty());
            (0, 0)
        },
    };
    match cut_second(&text, from, to, &quote) {
        Some((start, stop)) => Some(extract(res, start, stop)),
        None => None,
    }
}

/// Taking `c` out of a text that ends in `x` leaves `x` in place unless it is
/// `c` itself.
pub proof fn lemma_without_push(text: Seq<char>, x: char, c: char)
    ensures
        without(text.push(x), c) == if x != c {
            without(text, c).push(x)
        } else {
            without(text, c)
        },
{
    reveal(Seq::filter);
    assert(text.push(x).drop_last() =~= text);
}

/// Returns `value` without its backslashes.
pub fn strip_backslashes(value: &str) -> (plain: String)
    ensures
        plain@ == without(value@, '\\'),
{
    let text = chars_of(value);
    let n = text.len();
    let mut plain = String::new();
    let mut start: usize = 0;
    let mut i: usize = 0;
    proof {
        reveal(Seq::filter);
        assert(plain@ + text@.subrange(0, 0) =~= without(text@.take(0), '\\'));
    }
    while i < n
        invariant
            n == text.len(),
            text@ == value@,
            start <= i <= n,
            plain@ + text@.subrange(start as int, i as int) == without(text@.take(i as int), '\\'),
        decreases n - i,
    {
        proof {
            lemma_without_push(text@.take(i as int), text@[i as int], '\\');
            assert(text@.take(i + 1) =~= text@.take(i as int).push(text@[i as int]));
        }
        if text[i] == '\\' {
            plain.append(value.substring_char(start, i));
            start = i + 1;
            assert(plain@ + text@.subrange(start as int, i + 1) =~= plain@);
        } else {
            assert(plain@ + text@.subrange(start as int, i + 1) =~= (plain@ + text@.subrange(
                start as int,
                i as int,
            )).push(text@[i as int]));
        }
        i = i + 1;
    }
    plain.append(value.substring_char(start, n));
    assert(text@.take(n as int) =~= value@);
    plain
}

/// Returns `value` without its last character, if it has one.
pub fn drop_last_char(value: &str) -> (rest: String)
    ensures
        rest@ == without_last(value@),
{
    let n = value.unicode_len();
    if n > 0 {
        extract(value, 0, n - 1)
    } else {
        String::new()
    }
}

/// Returns `value` with `base` in front of it.
pub fn prefixed(base: &str, value: &str) -> (whole: String)
    ensures
        whole@ == base@ + value@,
{
    let mut whole = String::from_str(base);
    whole.append(value);
    whole
}

} // verus!
