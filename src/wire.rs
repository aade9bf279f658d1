//! The wire form of replies read back: an encoded reply decodes as one reply that takes
//! all of its bytes.
use crate::response::{
    code_chars, continuation, crlf, encode_spec, indent, is_ascii_digit, line_end,
    multi_line_end, ends_reply, reply_length, Code,
};
use crate::text::split_on;
use vstd::prelude::*;
use vstd::utf8::*;

verus! {

/// UTF-8 encodes a concatenation piece by piece.
proof fn lemma_encode_concat(a: Seq<char>, b: Seq<char>)
    ensures
        encode_utf8(a + b) == encode_utf8(a) + encode_utf8(b),
    decreases a.len(),
{
    if a.len() == 0 {
        assert(a + b =~= b);
        assert(encode_utf8(a) + encode_utf8(b) =~= encode_utf8(b));
    } else {
        assert((a + b).drop_first() =~= a.drop_first() + b);
        assert((a + b)[0] == a[0]);
        lemma_encode_concat(a.drop_first(), b);
        assert(encode_scalar(a[0] as u32) + (encode_utf8(a.drop_first()) + encode_utf8(b))
            =~= (encode_scalar(a[0] as u32) + encode_utf8(a.drop_first())) + encode_utf8(b));
    }
}

/// The bytes that encode one character: a line feed only for `'\n'`, a digit first only
/// for a digit, and the character itself when it is ASCII.
proof fn lemma_scalar_bytes(c: char)
    ensures
        encode_scalar(c as u32).len() >= 1,
        c == '\n' ==> encode_scalar(c as u32) == seq![10u8],
        c != '\n' ==> forall|i: int|
            0 <= i < encode_scalar(c as u32).len() ==> #[trigger] encode_scalar(c as u32)[i] != 10,
        !is_ascii_digit(c) ==> !(48 <= encode_scalar(c as u32)[0] <= 57),
        (c as u32) < 128 ==> encode_scalar(c as u32) == seq![c as u8],
{
    let u = c as u32;
    if has_width_1_encoding(u) {
        assert(leading_byte_width_1(u) == u as u8) by (bit_vector)
            requires
                u <= 0x7f,
        ;
    } else if has_width_2_encoding(u) {
        assert(leading_byte_width_2(u) >= 0xc0 && last_continuation_byte(u) >= 0x80) by (bit_vector);
    } else if has_width_3_encoding(u) {
        assert(leading_byte_width_3(u) >= 0xc0 && second_last_continuation_byte(u) >= 0x80
            && last_continuation_byte(u) >= 0x80) by (bit_vector);
    } else {
        assert(leading_byte_width_4(u) >= 0xc0 && third_last_continuation_byte(u) >= 0x80
            && second_last_continuation_byte(u) >= 0x80 && last_continuation_byte(u) >= 0x80)
            by (bit_vector);
    }
}

/// Text without a line feed encodes to bytes without one.
proof fn lemma_encode_no_newline(t: Seq<char>)
    requires
        !t.contains('\n'),
    ensures
        forall|i: int| 0 <= i < encode_utf8(t).len() ==> #[trigger] encode_utf8(t)[i] != 10,
    decreases t.len(),
{
    if t.len() > 0 {
        lemma_scalar_bytes(t[0]);
        assert(t[0] != '\n');
        assert(!t.drop_first().contains('\n')) by {
            if t.drop_first().contains('\n') {
                let k = choose|k: int| 0 <= k < t.drop_first().len() && t.drop_first()[k] == '\n';
                assert(t[k + 1] == '\n');
            }
        }
        lemma_encode_no_newline(t.drop_first());
        let a = encode_scalar(t[0] as u32);
        let r = encode_utf8(t.drop_first());
        assert(encode_utf8(t) == a + r);
        assert forall|i: int| 0 <= i < (a + r).len() implies #[trigger] (a + r)[i] != 10 by {
            if i >= a.len() {
                assert((a + r)[i] == r[i - a.len()]);
            }
        }
    }
}

/// The first byte of an encoding is the first byte of its first character's encoding.
proof fn lemma_encode_first(t: Seq<char>)
    requires
        t.len() > 0,
    ensures
        encode_utf8(t).len() >= 1,
        encode_utf8(t)[0] == encode_scalar(t[0] as u32)[0],
{
    lemma_scalar_bytes(t[0]);
}

/// Text with a separator splits into two pieces or more.
proof fn lemma_split_on_separated(s: Seq<char>, sep: char)
    requires
        s.contains(sep),
    ensures
        split_on(s, sep).len() >= 2,
    decreases s.len(),
{
    crate::text::lemma_split_on_len(s.drop_last(), sep);
    if s.last() != sep {
        let k = choose|k: int| 0 <= k < s.len() && s[k] == sep;
        assert(s.drop_last()[k] == sep);
        lemma_split_on_separated(s.drop_last(), sep);
    }
}

/// No piece of a split holds the separator.
proof fn lemma_split_on_pieces(s: Seq<char>, sep: char)
    ensures
        forall|k: int|
            0 <= k < split_on(s, sep).len() ==> !(#[trigger] split_on(s, sep)[k]).contains(sep),
    decreases s.len(),
{
    if s.len() > 0 {
        let init = split_on(s.drop_last(), sep);
        crate::text::lemma_split_on_len(s.drop_last(), sep);
        lemma_split_on_pieces(s.drop_last(), sep);
        if s.last() != sep {
            let last = init.last().push(s.last());
            assert(!last.contains(sep)) by {
                if last.contains(sep) {
                    let j = choose|j: int| 0 <= j < last.len() && last[j] == sep;
                    if j < init.last().len() {
                        assert(init[init.len() - 1][j] == sep);
                    }
                }
            }
        } else {
            assert(!Seq::<char>::empty().contains(sep));
        }
    }
}

/// Scanning for the end of a line passes over bytes that are not line feeds.
proof fn lemma_line_end_skip(b: Seq<u8>, i: int, k: int)
    requires
        0 <= i <= k <= b.len(),
        forall|j: int| i <= j < k ==> b[j] != 10,
    ensures
        line_end(b, i) == line_end(b, k),
    decreases k - i,
{
    if i < k {
        lemma_line_end_skip(b, i + 1, k);
    }
}

/// Scanning a line of a multi-line reply passes over bytes that are not line feeds.
proof fn lemma_multi_line_end_skip(b: Seq<u8>, start: int, i: int, k: int)
    requires
        0 <= i <= k <= b.len(),
        forall|j: int| i <= j < k ==> b[j] != 10,
    ensures
        multi_line_end(b, start, i) == multi_line_end(b, start, k),
    decreases k - i,
{
    if i < k {
        lemma_multi_line_end_skip(b, start, i + 1, k);
    }
}

/// A continuation line with its indent and terminator.
spec fn piece(line: Seq<char>) -> Seq<char> {
    indent(line) + line + crlf()
}

/// The continuation lines, taken from the front.
proof fn lemma_continuation_front(ls: Seq<Seq<char>>)
    requires
        ls.len() > 0,
    ensures
        continuation(ls) == piece(ls[0]) + continuation(ls.drop_first()),
    decreases ls.len(),
{
    if ls.len() == 1 {
        assert(ls.drop_last() =~= Seq::<Seq<char>>::empty());
        assert(ls.drop_first() =~= Seq::<Seq<char>>::empty());
        assert(continuation(ls) =~= piece(ls[0]) + continuation(ls.drop_first()));
    } else {
        lemma_continuation_front(ls.drop_last());
        assert(ls.drop_last().drop_first() =~= ls.drop_first().drop_last());
        assert(ls.drop_first().last() == ls.last());
        assert(ls.drop_last()[0] == ls[0]);
        assert(continuation(ls) =~= piece(ls[0]) + continuation(ls.drop_first()));
    }
}

/// ASCII text encodes to its characters' bytes.
proof fn lemma_encode_ascii(t: Seq<char>)
    requires
        is_ascii_chars(t),
    ensures
        encode_utf8(t) == t.map_values(|c: char| c as u8),
{
    is_ascii_chars_encode_utf8(t);
    assert(encode_utf8(t) =~= t.map_values(|c: char| c as u8));
}

/// The bytes of a continuation line: a line feed only at the end, and no digit first
/// unless the line is too short to end a reply.
proof fn lemma_piece_bytes(line: Seq<char>)
    requires
        !line.contains('\n'),
    ensures
        ({
            let p = encode_utf8(piece(line));
            &&& p.len() >= 2
            &&& p[p.len() - 1] == 10
            &&& forall|j: int| 0 <= j < p.len() - 1 ==> #[trigger] p[j] != 10
            &&& p.len() < 4 || !(48 <= p[0] <= 57)
        }),
{
    let ind = encode_utf8(indent(line));
    let body = encode_utf8(line);
    let end = encode_utf8(crlf());
    lemma_encode_concat(indent(line) + line, crlf());
    lemma_encode_concat(indent(line), line);
    lemma_encode_ascii(crlf());
    lemma_encode_ascii(indent(line));
    lemma_encode_no_newline(line);
    assert(end =~= seq![13u8, 10u8]);
    let p = encode_utf8(piece(line));
    assert(p == ind + body + end);
    assert forall|j: int| 0 <= j < p.len() - 1 implies #[trigger] p[j] != 10 by {
        if j < ind.len() {
            assert(p[j] == ind[j]);
        } else if j < ind.len() + body.len() {
            assert(p[j] == body[j - ind.len()]);
        } else {
            assert(p[j] == end[j - ind.len() - body.len()]);
        }
    }
    if ind.len() > 0 {
        assert(p[0] == ind[0]);
    } else if line.len() > 0 {
        lemma_encode_first(line);
        lemma_scalar_bytes(line[0]);
        assert(p[0] == body[0]);
    } else {
        assert(body.len() == 0);
    }
}

/// Scanning a multi-line reply passes over its continuation lines.
proof fn lemma_multi_over(w: Seq<u8>, i: int, ls: Seq<Seq<char>>)
    requires
        48 <= w[0] <= 57,
        0 <= i,
        i + encode_utf8(continuation(ls)).len() <= w.len(),
        w.subrange(i, i + encode_utf8(continuation(ls)).len()) == encode_utf8(continuation(ls)),
        forall|k: int| 0 <= k < ls.len() ==> !(#[trigger] ls[k]).contains('\n'),
    ensures
        multi_line_end(w, i, i) == multi_line_end(
            w,
            i + encode_utf8(continuation(ls)).len(),
            i + encode_utf8(continuation(ls)).len(),
        ),
    decreases ls.len(),
{
    if ls.len() == 0 {
        assert(continuation(ls) =~= Seq::<char>::empty());
    } else {
        let rest = ls.drop_first();
        lemma_continuation_front(ls);
        lemma_encode_concat(piece(ls[0]), continuation(rest));
        lemma_piece_bytes(ls[0]);
        let p = encode_utf8(piece(ls[0]));
        let r = encode_utf8(continuation(rest));
        let m = i + p.len();
        assert forall|j: int| i <= j < m - 1 implies w[j] != 10 by {
            assert(w[j] == w.subrange(i, i + (p + r).len())[j - i]);
            assert((p + r)[j - i] == p[j - i]);
        }
        assert(w[m - 1] == 10) by {
            assert(w[m - 1] == w.subrange(i, i + (p + r).len())[m - 1 - i]);
            assert((p + r)[m - 1 - i] == p[m - 1 - i]);
        }
        assert(p.len() >= 4 ==> w[i] != w[0]) by {
            assert(w[i] == w.subrange(i, i + (p + r).len())[0]);
            assert((p + r)[0] == p[0]);
        }
        lemma_multi_line_end_skip(w, i, i, m - 1);
        assert(w.subrange(m, m + r.len()) =~= r) by {
            assert forall|j: int| 0 <= j < r.len() implies w.subrange(m, m + r.len())[j] == r[j] by {
                assert(w[m + j] == w.subrange(i, i + (p + r).len())[p.len() + j]);
                assert((p + r)[p.len() + j] == r[j]);
            }
        }
        assert forall|k: int| 0 <= k < rest.len() implies !(#[trigger] rest[k]).contains('\n') by {
            assert(rest[k] == ls[k + 1]);
        }
        lemma_multi_over(w, m, rest);
    }
}

/// The code's digits encode to the code's bytes.
proof fn lemma_code_bytes(code: Code)
    ensures
        encode_utf8(code_chars(code)) == code.spec_digits(),
        code.spec_digits().len() == 3,
        forall|k: int| 0 <= k < 3 ==> 48 <= #[trigger] code.spec_digits()[k] <= 57,
{
    code.lemma_three_digits();
    let v = code.spec_value();
    assert(1 <= v / 100 <= 9 && 0 <= (v / 10) % 10 <= 9 && 0 <= v % 10 <= 9);
    let d = code.spec_digits();
    let t = code_chars(code);
    assert(is_ascii_chars(t));
    lemma_encode_ascii(t);
    assert(encode_utf8(t) =~= d);
}

/// A reply's wire form reads back as one reply that takes all of it and has the same code:
/// the indent before continuation lines that begin with a digit keeps any of them from
/// passing for the line that ends the reply.
pub proof fn lemma_encoded_reply_decodes(code: Code, text: Seq<char>)
    ensures
        ({
            let w = encode_utf8(encode_spec(code, text));
            &&& reply_length(w) == Some(w.len() as int)
            &&& w.subrange(0, 3) == code.spec_digits()
        }),
{
    let d = code.spec_digits();
    let dc = code_chars(code);
    lemma_code_bytes(code);
    let lines = split_on(text, '\n');
    crate::text::lemma_split_on_len(text, '\n');
    lemma_split_on_pieces(text, '\n');
    lemma_encode_ascii(seq![' ']);
    lemma_encode_ascii(seq!['-']);
    lemma_encode_ascii(crlf());
    let sp = encode_utf8(seq![' ']);
    let end = encode_utf8(crlf());
    assert(sp =~= seq![32u8]);
    assert(end =~= seq![13u8, 10u8]);
    if lines.len() <= 1 {
        if text.contains('\n') {
            lemma_split_on_separated(text, '\n');
        }
        lemma_encode_no_newline(text);
        let body = encode_utf8(text);
        lemma_encode_concat(dc, seq![' ']);
        lemma_encode_concat(dc + seq![' '], text);
        lemma_encode_concat(dc + seq![' '] + text, crlf());
        let w = encode_utf8(encode_spec(code, text));
        assert(w == d + sp + body + end);
        let n = w.len() as int;
        assert forall|j: int| 4 <= j < n - 1 implies w[j] != 10 by {
            if j < 4 + body.len() {
                assert(w[j] == body[j - 4]);
            } else {
                assert(w[j] == end[j - 4 - body.len()]);
            }
        }
        assert(w[n - 1] == 10);
        lemma_line_end_skip(w, 4, n - 1);
        assert(w.subrange(0, 3) =~= d);
    } else {
        let ls = lines.drop_last();
        let last = lines.last();
        assert(!last.contains('\n'));
        assert forall|k: int| 0 <= k < ls.len() implies !(#[trigger] ls[k]).contains('\n') by {
            assert(ls[k] == lines[k]);
        }
        let rest = ls.drop_first();
        assert forall|k: int| 0 <= k < rest.len() implies !(#[trigger] rest[k]).contains('\n') by {
            assert(rest[k] == ls[k + 1]);
        }
        lemma_continuation_front(ls);
        lemma_piece_bytes(ls[0]);
        lemma_encode_concat(piece(ls[0]), continuation(rest));
        lemma_encode_no_newline(last);
        let p = encode_utf8(piece(ls[0]));
        let r = encode_utf8(continuation(rest));
        let tail = encode_utf8(last);
        let dash = encode_utf8(seq!['-']);
        assert(dash =~= seq![45u8]);
        let c1 = dc + seq!['-'];
        let c2 = c1 + continuation(ls);
        let c3 = c2 + dc;
        let c4 = c3 + seq![' '];
        let c5 = c4 + last;
        lemma_encode_concat(dc, seq!['-']);
        lemma_encode_concat(c1, continuation(ls));
        lemma_encode_concat(c2, dc);
        lemma_encode_concat(c3, seq![' ']);
        lemma_encode_concat(c4, last);
        lemma_encode_concat(c5, crlf());
        let w = encode_utf8(encode_spec(code, text));
        assert(encode_spec(code, text) == c5 + crlf());
        assert(w == d + dash + (p + r) + d + sp + tail + end);
        let n = w.len() as int;
        let e: int = 4 + p.len() as int;
        let q: int = e + r.len() as int;
        assert(n == q + 4 + tail.len() + 2);
        // The first line ends where the first continuation line does.
        assert forall|j: int| 4 <= j < e - 1 implies w[j] != 10 by {
            assert(w[j] == p[j - 4]);
        }
        assert(w[e - 1] == 10) by {
            assert(w[e - 1] == p[p.len() - 1]);
        }
        lemma_line_end_skip(w, 4, e - 1);
        assert(line_end(w, 4) == Some(e));
        // The other continuation lines do not end the reply.
        assert(w.subrange(e, e + r.len()) =~= r) by {
            assert forall|j: int| 0 <= j < r.len() implies w.subrange(e, e + r.len())[j] == r[j] by {
                assert(w[e + j] == r[j]);
            }
        }
        assert(w[0] == d[0]);
        lemma_multi_over(w, e, rest);
        // The last line does.
        assert forall|j: int| q <= j < n - 1 implies w[j] != 10 by {
            if j < q + 3 {
                assert(w[j] == d[j - q]);
            } else if j == q + 3 {
                assert(w[j] == 32);
            } else if j < q + 4 + tail.len() {
                assert(w[j] == tail[j - q - 4]);
            } else {
                assert(w[j] == end[j - q - 4 - tail.len()]);
            }
        }
        assert(w[n - 1] == 10);
        assert(ends_reply(w, q)) by {
            assert(w[q] == d[0] && w[q + 1] == d[1] && w[q + 2] == d[2] && w[q + 3] == 32);
        }
        lemma_multi_line_end_skip(w, q, q, n - 1);
        assert(w[3] == 45);
        assert(w.subrange(0, 3) =~= d);
    }
}

} // verus!
