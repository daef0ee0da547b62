//! Channel topics: `|`-separated fields, one of which announces the latest post.
use vstd::prelude::*;

verus! {

/// Separator between the fields of a channel topic.
pub const FIELD_SEPARATOR: char = '|';

/// Address announced in the topic and in the notification message.
pub const POST_URL: &'static str = "https://alt-f4.blog/ALTF4-4/";

/// Position (from 0) of the field that announces the latest post.
pub const POST_FIELD: usize = 3;

/// Whether `c` has the Unicode `White_Space` property.
pub open spec fn is_white_space(c: char) -> bool {
    let n = c as u32;
    (0x09 <= n && n <= 0x0d) || n == 0x20 || n == 0x85 || n == 0xa0 || n == 0x1680 || (0x2000
        <= n && n <= 0x200a) || n == 0x2028 || n == 0x2029 || n == 0x202f || n == 0x205f || n
        == 0x3000
}

/// Relies on `char::is_whitespace`: true exactly for the characters with the
/// Unicode `White_Space` property.
#[verifier::external_body]
fn is_whitespace(c: char) -> (r: bool)
    ensures
        r == is_white_space(c),
{
    c.is_whitespace()
}

/// `s` without its leading white space.
pub open spec fn trim_start(s: Seq<char>) -> Seq<char>
    decreases s.len(),
{
    if s.len() > 0 && is_white_space(s[0]) {
        trim_start(s.drop_first())
    } else {
        s
    }
}

/// `s` without its trailing white space.
pub open spec fn trim_end(s: Seq<char>) -> Seq<char>
    decreases s.len(),
{
    if s.len() > 0 && is_white_space(s.last()) {
        trim_end(s.drop_last())
    } else {
        s
    }
}

/// `s` without white space at either end.
pub open spec fn trimmed(s: Seq<char>) -> Seq<char> {
    trim_end(trim_start(s))
}

/// The pieces of `s` between separators, in order; `s` without a separator is
/// one piece, and the empty text is one empty piece.
pub open spec fn split_fields(s: Seq<char>) -> Seq<Seq<char>>
    decreases s.len(),
{
    if s.len() == 0 {
        seq![Seq::empty()]
    } else {
        let prev = split_fields(s.drop_last());
        if s.last() == FIELD_SEPARATOR {
            prev.push(Seq::empty())
        } else {
            prev.update(prev.len() - 1, prev.last().push(s.last()))
        }
    }
}

/// The fields of a topic: its pieces between separators, each trimmed.
pub open spec fn fields_of(topic: Seq<char>) -> Seq<Seq<char>> {
    split_fields(topic).map_values(|f: Seq<char>| trimmed(f))
}

/// The pieces of `fs` in order, with `sep` between each two of them.
pub open spec fn join_with(fs: Seq<Seq<char>>, sep: Seq<char>) -> Seq<char>
    decreases fs.len(),
{
    if fs.len() == 0 {
        Seq::empty()
    } else if fs.len() == 1 {
        fs[0]
    } else {
        join_with(fs.drop_last(), sep) + sep + fs.last()
    }
}

/// What a sequence of strings holds, as text.
pub open spec fn texts(v: Seq<String>) -> Seq<Seq<char>> {
    v.map_values(|f: String| f@)
}

/// The text of an optional string.
pub open spec fn opt_text(o: Option<String>) -> Option<Seq<char>> {
    match o {
        Some(s) => Some(s@),
        None => None,
    }
}

/// The field that announces the post `fingerprint`.
pub open spec fn post_field(fingerprint: Seq<char>) -> Seq<char> {
    POST_URL@ + ": "@ + fingerprint
}

/// The topic with its announcement field replaced by one for `fingerprint`, all
/// fields trimmed and joined by `" | "`; `None` where the topic has fewer fields
/// than that.
pub open spec fn rewritten_topic(topic: Seq<char>, fingerprint: Seq<char>) -> Option<Seq<char>> {
    let fs = fields_of(topic);
    if fs.len() <= POST_FIELD {
        None
    } else {
        Some(join_with(fs.update(POST_FIELD as int, post_field(fingerprint)), " | "@))
    }
}

/// `s` with the white space at both ends removed.
pub fn trim(s: &str) -> (r: String)
    ensures
        r@ == trimmed(s@),
{
    let n = s.unicode_len();
    let mut a: usize = 0;
    assert(s@.subrange(0, n as int) =~= s@);
    while a < n && is_whitespace(s.get_char(a))
        invariant
            n == s@.len(),
            a <= n,
            trim_start(s@) == trim_start(s@.subrange(a as int, n as int)),
        decreases n - a,
    {
        assert(s@.subrange(a as int, n as int).drop_first() =~= s@.subrange(a + 1, n as int));
        a += 1;
    }
    assert(trim_start(s@) == s@.subrange(a as int, n as int));
    let mut b: usize = n;
    while b > a && is_whitespace(s.get_char(b - 1))
        invariant
            n == s@.len(),
            a <= b <= n,
            trimmed(s@) == trim_end(s@.subrange(a as int, b as int)),
        decreases b,
    {
        assert(s@.subrange(a as int, b as int).drop_last() =~= s@.subrange(a as int, b - 1));
        b -= 1;
    }
    s.substring_char(a, b).to_owned()
}

/// The fields of `topic`: split at each `|`, each piece trimmed.
pub fn topic_fields(topic: &str) -> (r: Vec<String>)
    ensures
        texts(r@) == fields_of(topic@),
{
    let n = topic.unicode_len();
    let mut out: Vec<String> = Vec::new();
    let mut start: usize = 0;
    let mut i: usize = 0;
    let ghost mut raw: Seq<Seq<char>> = Seq::empty();
    assert(topic@.subrange(0, 0) =~= Seq::<char>::empty());
    assert(raw.push(topic@.subrange(0, 0)) =~= seq![Seq::<char>::empty()]);
    while i < n
        invariant
            n == topic@.len(),
            start <= i <= n,
            split_fields(topic@.subrange(0, i as int)) == raw.push(
                topic@.subrange(start as int, i as int),
            ),
            out.len() == raw.len(),
            forall|k: int| 0 <= k < raw.len() ==> #[trigger] out@[k]@ == trimmed(raw[k]),
        decreases n - i,
    {
        let c = topic.get_char(i);
        assert(topic@.subrange(0, i + 1).drop_last() =~= topic@.subrange(0, i as int));
        assert(topic@.subrange(0, i + 1).last() == c);
        if c == FIELD_SEPARATOR {
            let f = trim(topic.substring_char(start, i));
            out.push(f);
            proof {
                raw = raw.push(topic@.subrange(start as int, i as int));
                assert(topic@.subrange(i + 1, i + 1) =~= Seq::<char>::empty());
            }
            start = i + 1;
        } else {
            assert(topic@.subrange(start as int, i + 1) =~= topic@.subrange(
                start as int,
                i as int,
            ).push(c));
        }
        i += 1;
    }
    let f = trim(topic.substring_char(start, n));
    out.push(f);
    proof {
        raw = raw.push(topic@.subrange(start as int, n as int));
        assert(topic@.subrange(0, n as int) =~= topic@);
        assert(texts(out@) =~= fields_of(topic@));
    }
    out
}

/// The strings of `fs` in order, with `sep` between each two of them.
pub fn join_fields(fs: &Vec<String>, sep: &str) -> (r: String)
    ensures
        r@ == join_with(texts(fs@), sep@),
{
    let n = fs.len();
    if n == 0 {
        return String::new();
    }
    let mut acc = fs[0].clone();
    assert(texts(fs@).subrange(0, 1) =~= seq![fs@[0]@]);
    let mut i: usize = 1;
    while i < n
        invariant
            n == fs.len(),
            1 <= i <= n,
            acc@ == join_with(texts(fs@).subrange(0, i as int), sep@),
        decreases n - i,
    {
        acc.append(sep);
        acc.append(fs[i].as_str());
        assert(texts(fs@).subrange(0, i + 1).drop_last() =~= texts(fs@).subrange(0, i as int));
        i += 1;
    }
    assert(texts(fs@).subrange(0, n as int) =~= texts(fs@));
    acc
}

/// The announcement field for `fingerprint`: `"<url>: <fingerprint>"`.
pub fn announcement_field(fingerprint: &str) -> (r: String)
    ensures
        r@ == post_field(fingerprint@),
{
    let mut field = POST_URL.to_owned();
    field.append(": ");
    field.append(fingerprint);
    field
}

/// `topic` with its announcement field set to `fingerprint`, or `None` where
/// the topic has too few fields.
pub fn rewrite_topic(topic: &str, fingerprint: &str) -> (r: Option<String>)
    ensures
        opt_text(r) == rewritten_topic(topic@, fingerprint@),
{
    let mut fs = topic_fields(topic);
    if fs.len() <= POST_FIELD {
        return None;
    }
    let field = announcement_field(fingerprint);
    fs.set(POST_FIELD, field);
    assert(texts(fs@) =~= fields_of(topic@).update(
        POST_FIELD as int,
        post_field(fingerprint@),
    ));
    Some(join_fields(&fs, " | "))
}

} // verus!
