use vstd::prelude::*;
use crate::text::{
    chars_of, is_control, is_control_spec, push_char, seq_starts_with, strip_controls, trim,
    starts_with,
};

verus! {

/// Longest sanitized query, in characters.
pub const MAX_QUERY_CHARS: usize = 256;

/// `s` cut to at most `n` characters.
pub open spec fn cap_len<A>(s: Seq<A>, n: nat) -> Seq<A> {
    if s.len() <= n {
        s
    } else {
        s.take(n as int)
    }
}

/// A query after sanitation: trimmed, control characters removed, and cut
/// to `MAX_QUERY_CHARS` characters.
pub open spec fn sanitized(q: Seq<char>) -> Seq<char> {
    cap_len(strip_controls(trim(q)), MAX_QUERY_CHARS as nat)
}

/// Removing control characters distributes over concatenation.
pub proof fn lemma_strip_controls_append(a: Seq<char>, b: Seq<char>)
    ensures
        strip_controls(a + b) == strip_controls(a) + strip_controls(b),
    decreases b.len(),
{
    if b.len() == 0 {
        assert(a + b =~= a);
        assert(strip_controls(a) + strip_controls(b) =~= strip_controls(a));
    } else {
        assert((a + b).drop_last() =~= a + b.drop_last());
        assert((a + b).last() == b.last());
        lemma_strip_controls_append(a, b.drop_last());
        if !is_control_spec(b.last()) {
            assert(strip_controls(a) + strip_controls(b.drop_last()).push(b.last()) =~= (
            strip_controls(a) + strip_controls(b.drop_last())).push(b.last()));
        }
    }
}

/// Relies on `str::trim`: the slice without leading and trailing characters
/// of the Unicode `White_Space` property.
#[verifier::external_body]
pub(crate) fn trim_str(s: &str) -> (r: &str)
    ensures
        r@ == trim(s@),
{
    s.trim()
}

/// Sanitizes a user query: trims it, removes control characters and keeps at
/// most `MAX_QUERY_CHARS` characters.
pub fn sanitize_query(query: &str) -> (r: String)
    ensures
        r@ == sanitized(query@),
{
    let t = trim_str(query);
    let ghost ts = t@;
    let mut out = String::new();
    let mut count: usize = 0;
    for c in it: t.chars()
        invariant
            it.seq() == ts,
            ts == trim(query@),
            out@ == strip_controls(ts.subrange(0, it.index() as int)),
            count == out@.len(),
            count < MAX_QUERY_CHARS,
    {
        let ghost k = it.index();
        assert(ts.subrange(0, k + 1).drop_last() =~= ts.subrange(0, k as int));
        if !is_control(c) {
            push_char(&mut out, c);
            count = count + 1;
            if count == MAX_QUERY_CHARS {
                proof {
                    let a = ts.subrange(0, k + 1);
                    let b = ts.subrange(k + 1, ts.len() as int);
                    assert(ts =~= a + b);
                    lemma_strip_controls_append(a, b);
                    assert(out@ =~= strip_controls(ts).take(MAX_QUERY_CHARS as int));
                }
                return out;
            }
        }
    }
    assert(ts.subrange(0, ts.len() as int) =~= ts);
    out
}

/// Whether `url` has the form of a web address: it begins with `http://`
/// or `https://`.
pub open spec fn is_web_url(url: Seq<char>) -> bool {
    starts_with(url, "http://"@) || starts_with(url, "https://"@)
}

/// Whether `url` begins with `http://` or `https://`.
pub fn is_valid_url(url: &str) -> (r: bool)
    ensures
        r == is_web_url(url@),
{
    let u = chars_of(url);
    let http = chars_of("http://");
    let https = chars_of("https://");
    seq_starts_with(&u, &http) || seq_starts_with(&u, &https)
}

/// Characters that stay as they are in a query parameter.
pub open spec fn is_unreserved(c: char) -> bool {
    ('A' <= c && c <= 'Z') || ('a' <= c && c <= 'z') || ('0' <= c && c <= '9') || c == '-' || c
        == '_' || c == '.' || c == '~'
}

/// The upper-case hexadecimal digit of `d`, for `d < 16`.
pub open spec fn hex_digit_spec(d: u32) -> char {
    if d < 10 {
        (('0' as u32) + d) as char
    } else {
        (('A' as u32) + d - 10) as char
    }
}

/// How one character is written in a query parameter: unreserved characters
/// as they are, a space as `+`, anything else as `%` and two hexadecimal
/// digits of its low byte.
pub open spec fn encode_char(c: char) -> Seq<char> {
    if is_unreserved(c) {
        seq![c]
    } else if c == ' ' {
        seq!['+']
    } else {
        let b = (c as u32) % 256;
        seq!['%', hex_digit_spec(b / 16), hex_digit_spec(b % 16)]
    }
}

/// The query-parameter form of `s`, character by character.
pub open spec fn url_encoded(s: Seq<char>) -> Seq<char>
    decreases s.len(),
{
    if s.len() == 0 {
        s
    } else {
        url_encoded(s.drop_last()) + encode_char(s.last())
    }
}

fn hex_digit(d: u32) -> (r: char)
    requires
        d < 16,
    ensures
        r == hex_digit_spec(d),
{
    if d < 10 {
        char_of(0x30 + d)
    } else {
        char_of(0x41 + d - 10)
    }
}

/// The character with code `u`, for an ASCII code.
fn char_of(u: u32) -> (r: char)
    requires
        u < 128,
    ensures
        r == u as char,
        r as u32 == u,
{
    let b = u as u8;
    b as char
}

/// Encodes `s` for use in a URL query parameter.
pub fn url_encode(s: &str) -> (r: String)
    ensures
        r@ == url_encoded(s@),
{
    let cs = chars_of(s);
    let mut out = String::new();
    let mut i: usize = 0;
    while i < cs.len()
        invariant
            i <= cs@.len(),
            out@ == url_encoded(cs@.subrange(0, i as int)),
        decreases cs.len() - i,
    {
        let c = cs[i];
        assert(cs@.subrange(0, i + 1).drop_last() =~= cs@.subrange(0, i as int));
        let ghost before = out@;
        let is_unres = ('A' <= c && c <= 'Z') || ('a' <= c && c <= 'z') || ('0' <= c && c <= '9')
            || c == '-' || c == '_' || c == '.' || c == '~';
        if is_unres {
            push_char(&mut out, c);
            assert(out@ =~= before + encode_char(c));
        } else if c == ' ' {
            push_char(&mut out, '+');
            assert(out@ =~= before + encode_char(c));
        } else {
            let b = (c as u32) % 256;
            push_char(&mut out, '%');
            push_char(&mut out, hex_digit(b / 16));
            push_char(&mut out, hex_digit(b % 16));
            assert(out@ =~= before + encode_char(c));
        }
        i = i + 1;
    }
    assert(cs@.subrange(0, cs@.len() as int) =~= cs@);
    out
}

/// Removing control characters leaves none.
pub proof fn lemma_strip_controls_clean(s: Seq<char>)
    ensures
        forall|i: int| 0 <= i < strip_controls(s).len() ==> !is_control_spec(strip_controls(s)[i]),
    decreases s.len(),
{
    if s.len() > 0 {
        lemma_strip_controls_clean(s.drop_last());
        let p = strip_controls(s.drop_last());
        if !is_control_spec(s.last()) {
            assert forall|i: int| 0 <= i < p.push(s.last()).len() implies !is_control_spec(
                p.push(s.last())[i],
            ) by {
                if i < p.len() {
                    assert(p.push(s.last())[i] == p[i]);
                }
            }
        }
    }
}

/// A sanitized query holds no control character and at most
/// `MAX_QUERY_CHARS` characters.
pub proof fn law_sanitized_is_clean(q: Seq<char>)
    ensures
        sanitized(q).len() <= MAX_QUERY_CHARS,
        forall|i: int| 0 <= i < sanitized(q).len() ==> !is_control_spec(sanitized(q)[i]),
{
    lemma_strip_controls_clean(trim(q));
    let c = strip_controls(trim(q));
    if c.len() > MAX_QUERY_CHARS {
        assert forall|i: int| 0 <= i < sanitized(q).len() implies !is_control_spec(sanitized(q)[i]) by {
            assert(sanitized(q)[i] == c[i]);
        }
    }
}

} // verus!
