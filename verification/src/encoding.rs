//! The `application/x-www-form-urlencoded` serialization used for query
//! parameters sent to the provider: alphanumerics and `*-._` stay as they
//! are, a space becomes `+`, and every other character becomes the
//! percent-encoding of its UTF-8 bytes, with uppercase hex digits.

use vstd::prelude::*;
use crate::strutil::push_char;

verus! {

pub open spec fn spec_hex_digit(n: int) -> char {
    seq!['0', '1', '2', '3', '4', '5', '6', '7', '8', '9', 'A', 'B', 'C', 'D', 'E', 'F'][n]
}

/// Characters that the form-urlencoded serialization leaves unchanged.
pub open spec fn spec_is_unreserved(c: char) -> bool {
    ('a' <= c && c <= 'z') || ('A' <= c && c <= 'Z') || ('0' <= c && c <= '9') || c == '*' || c
        == '-' || c == '.' || c == '_'
}

/// The UTF-8 encoding of a character.
pub open spec fn spec_utf8_bytes(c: char) -> Seq<u8> {
    let u = c as u32;
    if u < 0x80 {
        seq![u as u8]
    } else if u < 0x800 {
        seq![(0xC0 | (u >> 6)) as u8, (0x80 | (u & 0x3F)) as u8]
    } else if u < 0x10000 {
        seq![
            (0xE0 | (u >> 12)) as u8,
            (0x80 | ((u >> 6) & 0x3F)) as u8,
            (0x80 | (u & 0x3F)) as u8,
        ]
    } else {
        seq![
            (0xF0 | (u >> 18)) as u8,
            (0x80 | ((u >> 12) & 0x3F)) as u8,
            (0x80 | ((u >> 6) & 0x3F)) as u8,
            (0x80 | (u & 0x3F)) as u8,
        ]
    }
}

/// `%XX` for each byte, in order.
pub open spec fn spec_percent_bytes(bs: Seq<u8>) -> Seq<char>
    decreases bs.len(),
{
    if bs.len() == 0 {
        Seq::<char>::empty()
    } else {
        seq!['%', spec_hex_digit(bs[0] as int / 16), spec_hex_digit(bs[0] as int % 16)]
            + spec_percent_bytes(bs.drop_first())
    }
}

/// What one character contributes to the encoded output.
pub open spec fn spec_encoded_char(c: char) -> Seq<char> {
    if spec_is_unreserved(c) {
        seq![c]
    } else if c == ' ' {
        seq!['+']
    } else {
        spec_percent_bytes(spec_utf8_bytes(c))
    }
}

/// The form-urlencoded serialization of a character sequence.
pub open spec fn spec_form_encoded(s: Seq<char>) -> Seq<char>
    decreases s.len(),
{
    if s.len() == 0 {
        Seq::<char>::empty()
    } else {
        spec_encoded_char(s[0]) + spec_form_encoded(s.drop_first())
    }
}

pub proof fn lemma_percent_bytes_push(bs: Seq<u8>, b: u8)
    ensures
        spec_percent_bytes(bs.push(b)) == spec_percent_bytes(bs) + seq![
            '%',
            spec_hex_digit(b as int / 16),
            spec_hex_digit(b as int % 16),
        ],
    decreases bs.len(),
{
    let enc = seq!['%', spec_hex_digit(b as int / 16), spec_hex_digit(b as int % 16)];
    if bs.len() == 0 {
        assert(bs.push(b) =~= seq![b]);
        assert(bs.push(b).drop_first() =~= Seq::<u8>::empty());
        assert(spec_percent_bytes(Seq::<u8>::empty()) =~= Seq::<char>::empty());
        assert(spec_percent_bytes(bs.push(b)) =~= enc + Seq::<char>::empty());
        assert(enc + Seq::<char>::empty() =~= enc);
        assert(spec_percent_bytes(bs) + enc =~= enc);
    } else {
        lemma_percent_bytes_push(bs.drop_first(), b);
        assert(bs.push(b).drop_first() =~= bs.drop_first().push(b));
        let head = seq![
            '%',
            spec_hex_digit(bs[0] as int / 16),
            spec_hex_digit(bs[0] as int % 16),
        ];
        assert(head + (spec_percent_bytes(bs.drop_first()) + enc) =~= (head + spec_percent_bytes(
            bs.drop_first(),
        )) + enc);
    }
}

pub proof fn lemma_form_encoded_push(s: Seq<char>, c: char)
    ensures
        spec_form_encoded(s.push(c)) == spec_form_encoded(s) + spec_encoded_char(c),
    decreases s.len(),
{
    if s.len() == 0 {
        assert(s.push(c) =~= seq![c]);
        assert(s.push(c).drop_first() =~= Seq::<char>::empty());
        assert(spec_form_encoded(Seq::<char>::empty()) =~= Seq::<char>::empty());
        assert(spec_form_encoded(s.push(c)) =~= spec_encoded_char(c) + Seq::<char>::empty());
        assert(spec_encoded_char(c) + Seq::<char>::empty() =~= spec_encoded_char(c));
        assert(spec_form_encoded(s) + spec_encoded_char(c) =~= spec_encoded_char(c));
    } else {
        lemma_form_encoded_push(s.drop_first(), c);
        assert(s.push(c).drop_first() =~= s.drop_first().push(c));
        assert(s.push(c)[0] == s[0]);
        assert(spec_encoded_char(s[0]) + (spec_form_encoded(s.drop_first()) + spec_encoded_char(c))
            =~= (spec_encoded_char(s[0]) + spec_form_encoded(s.drop_first())) + spec_encoded_char(
            c,
        ));
    }
}

fn hex_digit_char(n: u8) -> (c: char)
    requires
        n < 16,
    ensures
        c == spec_hex_digit(n as int),
{
    if n == 0 {
        '0'
    } else if n == 1 {
        '1'
    } else if n == 2 {
        '2'
    } else if n == 3 {
        '3'
    } else if n == 4 {
        '4'
    } else if n == 5 {
        '5'
    } else if n == 6 {
        '6'
    } else if n == 7 {
        '7'
    } else if n == 8 {
        '8'
    } else if n == 9 {
        '9'
    } else if n == 10 {
        'A'
    } else if n == 11 {
        'B'
    } else if n == 12 {
        'C'
    } else if n == 13 {
        'D'
    } else if n == 14 {
        'E'
    } else {
        'F'
    }
}

fn is_unreserved(c: char) -> (r: bool)
    ensures
        r == spec_is_unreserved(c),
{
    ('a' <= c && c <= 'z') || ('A' <= c && c <= 'Z') || ('0' <= c && c <= '9') || c == '*' || c
        == '-' || c == '.' || c == '_'
}

fn utf8_encode(c: char) -> (v: Vec<u8>)
    ensures
        v@ == spec_utf8_bytes(c),
{
    let u = c as u32;
    let mut v: Vec<u8> = Vec::new();
    if u < 0x80 {
        v.push(u as u8);
    } else if u < 0x800 {
        v.push((0xC0 | (u >> 6)) as u8);
        v.push((0x80 | (u & 0x3F)) as u8);
    } else if u < 0x10000 {
        v.push((0xE0 | (u >> 12)) as u8);
        v.push((0x80 | ((u >> 6) & 0x3F)) as u8);
        v.push((0x80 | (u & 0x3F)) as u8);
    } else {
        v.push((0xF0 | (u >> 18)) as u8);
        v.push((0x80 | ((u >> 12) & 0x3F)) as u8);
        v.push((0x80 | ((u >> 6) & 0x3F)) as u8);
        v.push((0x80 | (u & 0x3F)) as u8);
    }
    proof {
        assert(v@ =~= spec_utf8_bytes(c));
    }
    v
}

/// The form-urlencoded serialization of `s`, as the provider-bound query
/// parameters carry it.
pub fn form_encode(s: &str) -> (r: String)
    ensures
        r@ == spec_form_encoded(s@),
{
    let n = s.unicode_len();
    let mut out = String::new();
    let mut i: usize = 0;
    while i < n
        invariant
            n == s@.len(),
            i <= n,
            out@ == spec_form_encoded(s@.take(i as int)),
        decreases n - i,
    {
        let c = s.get_char(i);
        proof {
            assert(s@.take(i + 1) =~= s@.take(i as int).push(s@[i as int]));
            lemma_form_encoded_push(s@.take(i as int), s@[i as int]);
        }
        if is_unreserved(c) {
            push_char(&mut out, c);
            proof {
                assert(out@ =~= spec_form_encoded(s@.take(i + 1)));
            }
        } else if c == ' ' {
            push_char(&mut out, '+');
            proof {
                assert(out@ =~= spec_form_encoded(s@.take(i + 1)));
            }
        } else {
            let bytes = utf8_encode(c);
            let m = bytes.len();
            let ghost prefix = out@;
            let mut j: usize = 0;
            proof {
                assert(bytes@.take(0) =~= Seq::<u8>::empty());
            }
            while j < m
                invariant
                    j <= m,
                    m == bytes@.len(),
                    out@ == prefix + spec_percent_bytes(bytes@.take(j as int)),
                decreases m - j,
            {
                let b = bytes[j];
                proof {
                    assert(bytes@.take(j + 1) =~= bytes@.take(j as int).push(bytes@[j as int]));
                    lemma_percent_bytes_push(bytes@.take(j as int), bytes@[j as int]);
                }
                push_char(&mut out, '%');
                push_char(&mut out, hex_digit_char(b / 16));
                push_char(&mut out, hex_digit_char(b % 16));
                proof {
                    assert(out@ =~= prefix + spec_percent_bytes(bytes@.take(j + 1)));
                }
                j += 1;
            }
            proof {
                assert(bytes@.take(m as int) =~= bytes@);
                assert(out@ =~= spec_form_encoded(s@.take(i + 1)));
            }
        }
        i += 1;
    }
    proof {
        assert(s@.take(n as int) =~= s@);
    }
    out
}

} // verus!
