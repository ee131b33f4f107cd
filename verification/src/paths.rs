//! Paths of the My Files pages, and how a record id travels in a path segment.

use vstd::prelude::*;
use vstd::string::*;

use crate::text::{seq_starts_with, str_starts_with};

verus! {

/// Mount path of the My Files app.
pub const ROOT: &'static str = "/meson";

/// A record id character in a path segment: `:` is written `%3A`.
pub open spec fn encode_char(c: char) -> Seq<char> {
    if c == ':' {
        seq!['%', '3', 'A']
    } else {
        seq![c]
    }
}

/// A record id with every `:` written `%3A`.
pub open spec fn encode_id(s: Seq<char>) -> Seq<char>
    decreases s.len(),
{
    if s.len() == 0 {
        Seq::empty()
    } else {
        encode_char(s[0]) + encode_id(s.skip(1))
    }
}

/// Whether `s` begins with `%3A`.
pub open spec fn starts_with_encoded_colon(s: Seq<char>) -> bool {
    s.len() >= 3 && s[0] == '%' && s[1] == '3' && s[2] == 'A'
}

/// A path segment with every `%3A`, from left to right, read back as `:`.
pub open spec fn decode_id(s: Seq<char>) -> Seq<char>
    decreases s.len(),
{
    if s.len() == 0 {
        Seq::empty()
    } else if starts_with_encoded_colon(s) {
        seq![':'] + decode_id(s.skip(3))
    } else {
        seq![s[0]] + decode_id(s.skip(1))
    }
}

/// Whether `%3A` occurs nowhere in `s`.
pub open spec fn free_of_encoded_colon(s: Seq<char>) -> bool {
    forall|i: int|
        #![trigger s[i]]
        0 <= i && i + 2 < s.len() ==> !(s[i] == '%' && s[i + 1] == '3' && s[i + 2] == 'A')
}

proof fn lemma_encode_append(a: Seq<char>, b: Seq<char>)
    ensures
        encode_id(a + b) == encode_id(a) + encode_id(b),
    decreases a.len(),
{
    if a.len() == 0 {
        assert(a + b =~= b);
    } else {
        assert((a + b).skip(1) =~= a.skip(1) + b);
        assert((a + b)[0] == a[0]);
        lemma_encode_append(a.skip(1), b);
    }
}

/// Writing an id without `:` for a path leaves it unchanged.
pub proof fn lemma_encode_without_colon(t: Seq<char>)
    requires
        forall|j: int| 0 <= j < t.len() ==> t[j] != ':',
    ensures
        encode_id(t) == t,
    decreases t.len(),
{
    if t.len() > 0 {
        lemma_encode_without_colon(t.skip(1));
        assert(t =~= seq![t[0]] + t.skip(1));
    }
}

proof fn lemma_encode_head(u: Seq<char>)
    requires
        u.len() > 0,
    ensures
        encode_id(u).len() >= u.len(),
        encode_id(u)[0] == (if u[0] == ':' {
            '%'
        } else {
            u[0]
        }),
        u[0] != ':' ==> encode_id(u) =~= seq![u[0]] + encode_id(u.skip(1)),
    decreases u.len(),
{
    if u.len() > 1 {
        lemma_encode_head(u.skip(1));
    }
}

/// Writes a record id for a path segment: every `:` becomes `%3A`.
pub fn urlencoding_path(id: &str) -> (res: String)
    ensures
        res@ == encode_id(id@),
        (forall|j: int| 0 <= j < id@.len() ==> id@[j] != ':') ==> res@ == id@,
        forall|j: int| 0 <= j < res@.len() ==> res@[j] != ':',
{
    let n = id.unicode_len();
    let mut res = String::new();
    let mut start: usize = 0;
    let mut i: usize = 0;
    proof {
        reveal_strlit("%3A");
    }
    while i < n
        invariant
            n == id@.len(),
            start <= i <= n,
            res@ == encode_id(id@.subrange(0, start as int)),
            forall|j: int| start <= j < i ==> id@[j] != ':',
        decreases n - i,
    {
        if id.get_char(i) == ':' {
            let ghost before = res@;
            res.append(id.substring_char(start, i));
            res.append("%3A");
            proof {
                reveal_strlit("%3A");
                let s = id@;
                let mid = s.subrange(start as int, i as int);
                lemma_encode_without_colon(mid);
                assert(s.subrange(0, i + 1) =~= s.subrange(0, start as int) + mid + seq![':']);
                lemma_encode_append(s.subrange(0, start as int) + mid, seq![':']);
                lemma_encode_append(s.subrange(0, start as int), mid);
                assert(encode_id(seq![':']) =~= seq!['%', '3', 'A']) by {
                    let one = seq![':'];
                    assert(one.skip(1) =~= Seq::<char>::empty());
                    assert(encode_id(one.skip(1)) =~= Seq::<char>::empty());
                    assert(encode_id(one) == encode_char(one[0]) + encode_id(one.skip(1)));
                }
                assert(res@ =~= before + mid + seq!['%', '3', 'A']);
            }
            start = i + 1;
        }
        i = i + 1;
    }
    res.append(id.substring_char(start, n));
    proof {
        let s = id@;
        let tail = s.subrange(start as int, n as int);
        lemma_encode_without_colon(tail);
        assert(s =~= s.subrange(0, start as int) + tail);
        lemma_encode_append(s.subrange(0, start as int), tail);
        lemma_encoded_has_no_colon(s);
        if forall|j: int| 0 <= j < s.len() ==> s[j] != ':' {
            lemma_encode_without_colon(s);
        }
    }
    res
}

proof fn lemma_decode_step(s: Seq<char>, i: int)
    requires
        0 <= i < s.len(),
    ensures
        starts_with_encoded_colon(s.skip(i)) ==> decode_id(s.skip(i)) == seq![':'] + decode_id(
            s.skip(i + 3),
        ),
        !starts_with_encoded_colon(s.skip(i)) ==> decode_id(s.skip(i)) == seq![s[i]] + decode_id(
            s.skip(i + 1),
        ),
{
    let t = s.skip(i);
    assert(t.len() > 0);
    if starts_with_encoded_colon(t) {
        assert(t.skip(3) =~= s.skip(i + 3));
    } else {
        assert(t.skip(1) =~= s.skip(i + 1));
    }
}

/// Reads a record id back from a path segment: every `%3A`, from left to
/// right, becomes `:`.
pub fn decode_file_id_param(raw: &str) -> (res: String)
    ensures
        res@ == decode_id(raw@),
        free_of_encoded_colon(raw@) ==> res@ == raw@,
{
    let n = raw.unicode_len();
    let mut res = String::new();
    let mut start: usize = 0;
    let mut i: usize = 0;
    proof {
        reveal_strlit(":");
        assert(raw@.skip(0) =~= raw@);
    }
    while i < n
        invariant
            n == raw@.len(),
            start <= i <= n,
            decode_id(raw@) == res@ + raw@.subrange(start as int, i as int) + decode_id(
                raw@.skip(i as int),
            ),
        decreases n - i,
    {
        let ghost s = raw@;
        let ghost before = res@;
        proof {
            lemma_decode_step(s, i as int);
        }
        if n - i >= 3 && raw.get_char(i) == '%' && raw.get_char(i + 1) == '3' && raw.get_char(i + 2)
            == 'A' {
            assert(starts_with_encoded_colon(s.skip(i as int)));
            let ghost old_start = start;
            let ghost old_i = i;
            res.append(raw.substring_char(start, i));
            res.append(":");
            proof {
                reveal_strlit(":");
            }
            assert(res@ =~= before + s.subrange(old_start as int, old_i as int) + seq![':']);
            i = i + 3;
            start = i;
            assert(s.subrange(start as int, i as int) =~= Seq::<char>::empty());
        } else {
            assert(!starts_with_encoded_colon(s.skip(i as int)));
            assert(s.subrange(start as int, i + 1) =~= s.subrange(start as int, i as int) + seq![
                s[i as int],
            ]);
            i = i + 1;
        }
    }
    res.append(raw.substring_char(start, n));
    proof {
        assert(raw@.skip(n as int) =~= Seq::<char>::empty());
        lemma_decode_keeps_other_text(raw@);
    }
    res
}

/// Reading a segment back rewrites only `%3A`: a segment in which `%3A`
/// does not occur comes back unchanged, a raw `:` included.
pub proof fn lemma_decode_keeps_other_text(s: Seq<char>)
    ensures
        free_of_encoded_colon(s) ==> decode_id(s) == s,
    decreases s.len(),
{
    if s.len() > 0 && free_of_encoded_colon(s) {
        let t = s.skip(1);
        assert(s.len() < 3 || !(s[0int] == '%' && s[0int + 1] == '3' && s[0int + 2] == 'A'));
        assert(!starts_with_encoded_colon(s));
        assert(free_of_encoded_colon(t)) by {
            assert forall|i: int| 0 <= i && i + 2 < t.len() implies !(#[trigger] t[i] == '%' && t[i
                + 1] == '3' && t[i + 2] == 'A') by {
                assert(t[i] == s[i + 1]);
                assert(s[i + 1 + 1] == t[i + 1]);
                assert(s[i + 1 + 2] == t[i + 2]);
            }
        }
        lemma_decode_keeps_other_text(t);
        assert(s =~= seq![s[0]] + t);
    }
}

/// Each `%3A` at the front of a segment is read as one `:`, and the rest is
/// read on its own.
pub proof fn lemma_decode_escape_at_front(rest: Seq<char>)
    ensures
        decode_id(seq!['%', '3', 'A'] + rest) == seq![':'] + decode_id(rest),
{
    let s = seq!['%', '3', 'A'] + rest;
    assert(s.skip(3) =~= rest);
}

/// A record id survives the trip through a path segment: reading back what
/// `urlencoding_path` wrote gives the id again, for every id in which `%3A`
/// does not already occur.
pub proof fn lemma_decode_encode_roundtrip(s: Seq<char>)
    requires
        free_of_encoded_colon(s),
    ensures
        decode_id(encode_id(s)) == s,
    decreases s.len(),
{
    if s.len() == 0 {
        return;
    }
    let t = s.skip(1);
    assert(free_of_encoded_colon(t)) by {
        assert forall|i: int| 0 <= i && i + 2 < t.len() implies !(#[trigger] t[i] == '%' && t[i
            + 1] == '3' && t[i + 2] == 'A') by {
            assert(t[i] == s[i + 1]);
            assert(s[i + 1 + 1] == t[i + 1]);
            assert(s[i + 1 + 2] == t[i + 2]);
        }
    }
    lemma_decode_encode_roundtrip(t);
    let e = encode_id(s);
    let et = encode_id(t);
    assert(e == encode_char(s[0]) + et);
    if s[0] == ':' {
        assert(starts_with_encoded_colon(e));
        assert(e.skip(3) =~= et);
        assert(s =~= seq![':'] + t);
    } else {
        assert(e =~= seq![s[0]] + et);
        if t.len() > 0 {
            lemma_encode_head(t);
        }
        if starts_with_encoded_colon(e) {
            assert(s[0] == '%');
            assert(et[0] == '3');
            assert(t[0] == '3');
            assert(t.len() >= 2);
            lemma_encode_head(t.skip(1));
            assert(et =~= seq![t[0]] + encode_id(t.skip(1)));
            assert(et[1] == encode_id(t.skip(1))[0]);
            assert(t.skip(1)[0] == 'A');
            assert(s[0] == '%' && s[1] == '3' && s[2] == 'A');
            assert(false);
        }
        assert(e.skip(1) =~= et);
        assert(s =~= seq![s[0]] + t);
    }
}

/// A written path segment holds no `:`.
pub proof fn lemma_encoded_has_no_colon(s: Seq<char>)
    ensures
        forall|j: int| 0 <= j < encode_id(s).len() ==> encode_id(s)[j] != ':',
    decreases s.len(),
{
    if s.len() > 0 {
        lemma_encoded_has_no_colon(s.skip(1));
        let head = encode_char(s[0]);
        let rest = encode_id(s.skip(1));
        assert(encode_id(s) == head + rest);
        assert forall|j: int| 0 <= j < encode_id(s).len() implies encode_id(s)[j] != ':' by {
            if j < head.len() {
                assert(encode_id(s)[j] == head[j]);
            } else {
                assert(encode_id(s)[j] == rest[j - head.len()]);
            }
        }
    }
}

/// Path of the detail page of the file with record id `id`.
pub fn file_detail_href(id: &str) -> (href: String)
    ensures
        href@ == "/meson/files/"@ + encode_id(id@),
{
    let encoded = urlencoding_path(id);
    String::from_str("/meson/files/").concat(encoded.as_str())
}

/// Whether a mime type is an image type, previewed by the image element.
pub fn is_image_mime(mime: &str) -> (res: bool)
    ensures
        res == seq_starts_with(mime@, "image/"@),
{
    str_starts_with(mime, "image/")
}

} // verus!
