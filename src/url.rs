//! Composing request URLs from a base, path segments and query parameters.
use vstd::prelude::*;
use vstd::utf8::encode_utf8;

use crate::text::push_char;
use crate::validate::str_views;

verus! {

/// A byte that stands for itself in a URL component: an ASCII letter or
/// digit, or one of `-`, `.`, `_`, `~`.
pub open spec fn is_unreserved(b: u8) -> bool {
    (65 <= b <= 90) || (97 <= b <= 122) || (48 <= b <= 57) || b == 45 || b == 46 || b == 95
        || b == 126
}

/// The uppercase hexadecimal digit character for `d < 16`.
pub open spec fn hex_char(d: nat) -> char {
    if d < 10 {
        (48 + d) as char
    } else {
        (55 + d) as char
    }
}

/// How one byte of a component is written: itself if unreserved,
/// else `%` and two uppercase hexadecimal digits.
pub open spec fn escape_byte(b: u8) -> Seq<char> {
    if is_unreserved(b) {
        seq![b as char]
    } else {
        seq!['%', hex_char(b as nat / 16), hex_char(b as nat % 16)]
    }
}

/// The escaped form of a sequence of bytes.
pub open spec fn escape_bytes(bs: Seq<u8>) -> Seq<char>
    decreases bs.len(),
{
    if bs.len() == 0 {
        seq![]
    } else {
        escape_bytes(bs.drop_last()) + escape_byte(bs.last())
    }
}

/// The percent-encoded form of a text: its UTF-8 bytes, each escaped.
pub open spec fn percent_encoded(s: Seq<char>) -> Seq<char> {
    escape_bytes(encode_utf8(s))
}

/// `base` without one trailing `/`, if it ends in one.
pub open spec fn trim_slash(base: Seq<char>) -> Seq<char> {
    if base.len() > 0 && base.last() == '/' {
        base.drop_last()
    } else {
        base
    }
}

/// `/` followed by the encoded segment, for each segment in order.
pub open spec fn path_suffix(segments: Seq<Seq<char>>) -> Seq<char>
    decreases segments.len(),
{
    if segments.len() == 0 {
        seq![]
    } else {
        path_suffix(segments.drop_last()) + seq!['/'] + percent_encoded(segments.last())
    }
}

/// The URL of `segments` under `base`, with exactly one `/` between parts.
pub open spec fn joined(base: Seq<char>, segments: Seq<Seq<char>>) -> Seq<char> {
    trim_slash(base) + path_suffix(segments)
}

/// One query parameter, `key=value`, both encoded.
pub open spec fn query_pair(p: (Seq<char>, Seq<char>)) -> Seq<char> {
    percent_encoded(p.0) + seq!['='] + percent_encoded(p.1)
}

/// The query parameters in order, separated by `&`.
pub open spec fn query_string(pairs: Seq<(Seq<char>, Seq<char>)>) -> Seq<char>
    decreases pairs.len(),
{
    if pairs.len() == 0 {
        seq![]
    } else if pairs.len() == 1 {
        query_pair(pairs[0])
    } else {
        query_string(pairs.drop_last()) + seq!['&'] + query_pair(pairs.last())
    }
}

/// `url` with the query parameters appended; unchanged when there are none.
pub open spec fn with_query_spec(url: Seq<char>, pairs: Seq<(Seq<char>, Seq<char>)>) -> Seq<
    char,
> {
    if pairs.len() == 0 {
        url
    } else {
        url + seq!['?'] + query_string(pairs)
    }
}

/// The views of a list of key/value pairs.
pub open spec fn pair_views(pairs: Seq<(String, String)>) -> Seq<(Seq<char>, Seq<char>)> {
    pairs.map_values(|p: (String, String)| (p.0@, p.1@))
}

/// The uppercase hexadecimal digit character for `d`.
pub fn to_hex_char(d: u8) -> (c: char)
    requires
        d < 16,
    ensures
        c == hex_char(d as nat),
{
    if d < 10 {
        (48u8 + d) as char
    } else {
        (55u8 + d) as char
    }
}

/// Append the percent-encoded form of `s` to `out`.
pub fn push_encoded(out: &mut String, s: &str)
    ensures
        final(out)@ == old(out)@ + percent_encoded(s@),
{
    let bytes = s.as_bytes_vec();
    let ghost start = out@;
    let mut i: usize = 0;
    while i < bytes.len()
        invariant
            bytes@ == encode_utf8(s@),
            i <= bytes@.len(),
            out@ == start + escape_bytes(bytes@.take(i as int)),
        decreases bytes@.len() - i,
    {
        let b = bytes[i];
        proof {
            assert(bytes@.take(i + 1).drop_last() =~= bytes@.take(i as int));
        }
        if (65 <= b && b <= 90) || (97 <= b && b <= 122) || (48 <= b && b <= 57) || b == 45 || b
            == 46 || b == 95 || b == 126 {
            push_char(out, b as char);
        } else {
            push_char(out, '%');
            push_char(out, to_hex_char(b / 16));
            push_char(out, to_hex_char(b % 16));
        }
        proof {
            assert(out@ =~= start + escape_bytes(bytes@.take(i + 1)));
        }
        i = i + 1;
    }
    proof {
        assert(bytes@.take(i as int) =~= bytes@);
    }
}

/// The percent-encoded form of `s`, fit to stand as one path segment or
/// query key or value.
pub fn encode_component(s: &str) -> (r: String)
    ensures
        r@ == percent_encoded(s@),
{
    let mut out = String::new();
    push_encoded(&mut out, s);
    proof {
        assert(out@ =~= percent_encoded(s@));
    }
    out
}

/// Append `segments` to `base` as path segments, each encoded and preceded by
/// a single `/`; one trailing `/` of `base` is not doubled.
pub fn join_all(base: &str, segments: &[&str]) -> (r: String)
    ensures
        r@ == joined(base@, str_views(segments@)),
{
    let n = base.unicode_len();
    let mut out = if n > 0 && base.get_char(n - 1) == '/' {
        String::from_str(base.substring_char(0, n - 1))
    } else {
        String::from_str(base)
    };
    proof {
        if n > 0 && base@.last() == '/' {
            assert(base@.subrange(0, n - 1) =~= base@.drop_last());
        }
    }
    let ghost segs = str_views(segments@);
    let mut i: usize = 0;
    while i < segments.len()
        invariant
            segs == str_views(segments@),
            i <= segments@.len(),
            out@ == trim_slash(base@) + path_suffix(segs.take(i as int)),
        decreases segments@.len() - i,
    {
        proof {
            assert(segs.take(i + 1).drop_last() =~= segs.take(i as int));
        }
        push_char(&mut out, '/');
        push_encoded(&mut out, segments[i]);
        proof {
            assert(out@ =~= trim_slash(base@) + path_suffix(segs.take(i + 1)));
        }
        i = i + 1;
    }
    proof {
        assert(segs.take(i as int) =~= segs);
    }
    out
}

/// Append `pairs` to `url` as a query string, `?key=value&key=value`, keys and
/// values encoded. `url` is taken to have no query yet.
pub fn with_query(url: &str, pairs: &Vec<(String, String)>) -> (r: String)
    ensures
        r@ == with_query_spec(url@, pair_views(pairs@)),
{
    let mut out = String::from_str(url);
    let ghost ps = pair_views(pairs@);
    let mut i: usize = 0;
    while i < pairs.len()
        invariant
            ps == pair_views(pairs@),
            i <= pairs@.len(),
            out@ == with_query_spec(url@, ps.take(i as int)),
        decreases pairs@.len() - i,
    {
        proof {
            assert(ps.take(i + 1).drop_last() =~= ps.take(i as int));
            assert(ps.take(i + 1).last() == ps[i as int]);
            if i == 0 {
                assert(ps.take(1)[0] == ps[0]);
            }
        }
        if i == 0 {
            push_char(&mut out, '?');
        } else {
            push_char(&mut out, '&');
        }
        push_encoded(&mut out, pairs[i].0.as_str());
        push_char(&mut out, '=');
        push_encoded(&mut out, pairs[i].1.as_str());
        proof {
            assert(out@ =~= with_query_spec(url@, ps.take(i + 1)));
        }
        i = i + 1;
    }
    proof {
        assert(ps.take(i as int) =~= ps);
    }
    out
}

} // verus!
