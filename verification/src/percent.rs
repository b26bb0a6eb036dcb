//! Percent-encoding of byte strings for use inside a URL query value, and
//! the matching decoder. Alphanumerics and the unreserved punctuation
//! `- . _ ~` pass through unchanged; every other byte (spaces, quotes,
//! reserved URL characters, non-ASCII bytes) becomes `%XX`.
use vstd::prelude::*;
use vstd::string::StrSliceExecFns;
use vstd::utf8::decode_utf8;
use vstd::utf8::encode_utf8;
use vstd::utf8::encode_utf8_decode_utf8;

verus! {

/// True for the bytes that survive encoding unescaped: ASCII digits,
/// letters, and `- . _ ~`.
pub open spec fn is_safe_byte(b: u8) -> bool {
    (0x30 <= b <= 0x39) || (0x41 <= b <= 0x5a) || (0x61 <= b <= 0x7a) || b == 0x2d || b == 0x2e
        || b == 0x5f || b == 0x7e
}

/// The character for one hexadecimal digit, upper case.
pub open spec fn hex_digit(d: int) -> char
    recommends
        0 <= d < 16,
{
    if d == 0 {
        '0'
    } else if d == 1 {
        '1'
    } else if d == 2 {
        '2'
    } else if d == 3 {
        '3'
    } else if d == 4 {
        '4'
    } else if d == 5 {
        '5'
    } else if d == 6 {
        '6'
    } else if d == 7 {
        '7'
    } else if d == 8 {
        '8'
    } else if d == 9 {
        '9'
    } else if d == 10 {
        'A'
    } else if d == 11 {
        'B'
    } else if d == 12 {
        'C'
    } else if d == 13 {
        'D'
    } else if d == 14 {
        'E'
    } else {
        'F'
    }
}

/// The numeric value of a hexadecimal digit character, either case.
pub open spec fn hex_value(c: char) -> Option<u8> {
    if c == '0' {
        Some(0u8)
    } else if c == '1' {
        Some(1u8)
    } else if c == '2' {
        Some(2u8)
    } else if c == '3' {
        Some(3u8)
    } else if c == '4' {
        Some(4u8)
    } else if c == '5' {
        Some(5u8)
    } else if c == '6' {
        Some(6u8)
    } else if c == '7' {
        Some(7u8)
    } else if c == '8' {
        Some(8u8)
    } else if c == '9' {
        Some(9u8)
    } else if c == 'A' || c == 'a' {
        Some(10u8)
    } else if c == 'B' || c == 'b' {
        Some(11u8)
    } else if c == 'C' || c == 'c' {
        Some(12u8)
    } else if c == 'D' || c == 'd' {
        Some(13u8)
    } else if c == 'E' || c == 'e' {
        Some(14u8)
    } else if c == 'F' || c == 'f' {
        Some(15u8)
    } else {
        None
    }
}

/// The encoding of one byte: itself when safe, else `%` and two hex digits.
pub open spec fn encode_byte(b: u8) -> Seq<char> {
    if is_safe_byte(b) {
        seq![b as char]
    } else {
        seq!['%', hex_digit(b as int / 16), hex_digit(b as int % 16)]
    }
}

/// The percent-encoding of a byte string.
pub open spec fn encode_bytes(bs: Seq<u8>) -> Seq<char>
    decreases bs.len(),
{
    if bs.len() == 0 {
        Seq::<char>::empty()
    } else {
        encode_byte(bs[0]) + encode_bytes(bs.drop_first())
    }
}

/// The percent-encoding of a character string: its UTF-8 bytes, encoded.
pub open spec fn percent_encoding_of(s: Seq<char>) -> Seq<char> {
    encode_bytes(encode_utf8(s))
}

/// The bytes denoted by a percent-encoded character string: `%XX` becomes
/// the byte `XX`, any other ASCII character becomes its own byte, and
/// anything else makes the string undecodable.
pub open spec fn decode_chars(s: Seq<char>) -> Option<Seq<u8>>
    decreases s.len(),
{
    if s.len() == 0 {
        Some(Seq::<u8>::empty())
    } else if s[0] == '%' {
        if s.len() >= 3 && hex_value(s[1]) is Some && hex_value(s[2]) is Some {
            match decode_chars(s.skip(3)) {
                Some(rest) => Some(
                    seq![
                        (16 * (hex_value(s[1])->0 as int) + (hex_value(s[2])->0 as int)) as u8,
                    ] + rest,
                ),
                None => None,
            }
        } else {
            None
        }
    } else if (s[0] as u32) < 128 {
        match decode_chars(s.drop_first()) {
            Some(rest) => Some(seq![((s[0] as u32) as u8)] + rest),
            None => None,
        }
    } else {
        None
    }
}

/// True for the bytes that survive encoding unescaped.
pub fn is_safe_byte_exec(b: u8) -> (r: bool)
    ensures
        r == is_safe_byte(b),
{
    (0x30 <= b && b <= 0x39) || (0x41 <= b && b <= 0x5a) || (0x61 <= b && b <= 0x7a) || b == 0x2d
        || b == 0x2e || b == 0x5f || b == 0x7e
}

/// The character for one hexadecimal digit, upper case.
pub fn hex_digit_char(d: u8) -> (c: char)
    requires
        d < 16,
    ensures
        c == hex_digit(d as int),
{
    match d {
        0 => '0',
        1 => '1',
        2 => '2',
        3 => '3',
        4 => '4',
        5 => '5',
        6 => '6',
        7 => '7',
        8 => '8',
        9 => '9',
        10 => 'A',
        11 => 'B',
        12 => 'C',
        13 => 'D',
        14 => 'E',
        _ => 'F',
    }
}

/// The numeric value of a hexadecimal digit character, either case.
pub fn hex_value_char(c: char) -> (r: Option<u8>)
    ensures
        r == hex_value(c),
{
    match c {
        '0' => Some(0),
        '1' => Some(1),
        '2' => Some(2),
        '3' => Some(3),
        '4' => Some(4),
        '5' => Some(5),
        '6' => Some(6),
        '7' => Some(7),
        '8' => Some(8),
        '9' => Some(9),
        'A' | 'a' => Some(10),
        'B' | 'b' => Some(11),
        'C' | 'c' => Some(12),
        'D' | 'd' => Some(13),
        'E' | 'e' => Some(14),
        'F' | 'f' => Some(15),
        _ => None,
    }
}

/// Encoding distributes over concatenation of byte strings.
pub proof fn lemma_encode_bytes_concat(xs: Seq<u8>, ys: Seq<u8>)
    ensures
        encode_bytes(xs + ys) == encode_bytes(xs) + encode_bytes(ys),
    decreases xs.len(),
{
    if xs.len() == 0 {
        assert(xs + ys =~= ys);
        assert(encode_bytes(xs) + encode_bytes(ys) =~= encode_bytes(ys));
    } else {
        lemma_encode_bytes_concat(xs.drop_first(), ys);
        assert((xs + ys).drop_first() =~= xs.drop_first() + ys);
        assert(encode_bytes(xs + ys) =~= encode_bytes(xs) + encode_bytes(ys));
    }
}

/// Encoding a single byte is the encoding of that byte.
pub proof fn lemma_encode_bytes_singleton(b: u8)
    ensures
        encode_bytes(seq![b]) == encode_byte(b),
{
    let single = seq![b];
    assert(single.len() == 1);
    assert(single[0] == b);
    assert(single.drop_first() =~= Seq::<u8>::empty());
    assert(encode_bytes(single) == encode_byte(b) + encode_bytes(Seq::<u8>::empty()));
    assert(encode_byte(b) + Seq::<char>::empty() =~= encode_byte(b));
}

/// Percent-encodes the UTF-8 bytes of a string.
pub fn percent_encode(s: &str) -> (r: String)
    ensures
        r@ == percent_encoding_of(s@),
{
    let bytes = s.as_bytes_vec();
    let mut out = String::new();
    let mut i: usize = 0;
    while i < bytes.len()
        invariant
            i <= bytes.len(),
            bytes@ == encode_utf8(s@),
            out@ == encode_bytes(bytes@.take(i as int)),
        decreases bytes.len() - i,
    {
        let b = bytes[i];
        if is_safe_byte_exec(b) {
            out.push(b as char);
        } else {
            out.push('%');
            out.push(hex_digit_char(b / 16));
            out.push(hex_digit_char(b % 16));
        }
        proof {
            assert(bytes@.take(i + 1) =~= bytes@.take(i as int) + seq![bytes@[i as int]]);
            lemma_encode_bytes_concat(bytes@.take(i as int), seq![bytes@[i as int]]);
            lemma_encode_bytes_singleton(bytes@[i as int]);
            assert(out@ =~= encode_bytes(bytes@.take(i + 1)));
        }
        i += 1;
    }
    proof {
        assert(bytes@.take(bytes@.len() as int) =~= bytes@);
    }
    out
}

/// Decodes a percent-encoded string back into bytes; `None` when the
/// string is not a well-formed encoding.
pub fn percent_decode(s: &str) -> (r: Option<Vec<u8>>)
    ensures
        match r {
            Some(v) => decode_chars(s@) == Some(v@),
            None => decode_chars(s@) is None,
        },
{
    let n = s.unicode_len();
    let mut out: Vec<u8> = Vec::new();
    let mut i: usize = 0;
    proof {
        assert(s@.skip(0) =~= s@);
        if decode_chars(s@) is Some {
            assert(Seq::<u8>::empty() + decode_chars(s@)->0 =~= decode_chars(s@)->0);
        }
    }
    while i < n
        invariant
            i <= n,
            n == s@.len(),
            match decode_chars(s@.skip(i as int)) {
                Some(rest) => decode_chars(s@) == Some(out@ + rest),
                None => decode_chars(s@) is None,
            },
        decreases n - i,
    {
        let c = s.get_char(i);
        proof {
            assert(s@.skip(i as int)[0] == s@[i as int]);
        }
        if c == '%' {
            if n - i < 3 {
                proof {
                    assert(s@.skip(i as int).len() < 3);
                }
                return None;
            }
            let hc = s.get_char(i + 1);
            let lc = s.get_char(i + 2);
            proof {
                assert(s@.skip(i as int)[1] == s@[i + 1]);
                assert(s@.skip(i as int)[2] == s@[i + 2]);
            }
            let h = hex_value_char(hc);
            let l = hex_value_char(lc);
            match (h, l) {
                (Some(hd), Some(ld)) => {
                    let ghost prev = out@;
                    out.push(16 * hd + ld);
                    proof {
                        assert(s@.skip(i as int).skip(3) =~= s@.skip(i + 3));
                        if decode_chars(s@.skip(i + 3)) is Some {
                            let rest = decode_chars(s@.skip(i + 3))->0;
                            assert(decode_chars(s@.skip(i as int)) == Some(
                                seq![(16 * (hd as int) + (ld as int)) as u8] + rest,
                            ));
                            assert(prev + (seq![(16 * (hd as int) + (ld as int)) as u8] + rest)
                                =~= out@ + rest);
                        }
                    }
                    i += 3;
                },
                _ => {
                    return None;
                },
            }
        } else if (c as u32) < 128 {
            out.push((c as u32) as u8);
            proof {
                assert(s@.skip(i as int).drop_first() =~= s@.skip(i + 1));
            }
            i += 1;
        } else {
            return None;
        }
    }
    proof {
        assert(s@.skip(n as int) =~= Seq::<char>::empty());
        assert(out@ + Seq::<u8>::empty() =~= out@);
    }
    Some(out)
}

/// Decoding undoes encoding on any byte string.
pub proof fn lemma_decode_encode_bytes(bs: Seq<u8>)
    ensures
        decode_chars(encode_bytes(bs)) == Some(bs),
    decreases bs.len(),
{
    if bs.len() == 0 {
    } else {
        let b = bs[0];
        let rest = bs.drop_first();
        lemma_decode_encode_bytes(rest);
        let e = encode_bytes(bs);
        if is_safe_byte(b) {
            assert(e[0] == (b as char));
            assert((b as char) as u32 == b as u32);
            assert(e[0] != '%');
            assert((e[0] as u32) < 128);
            assert(e.drop_first() =~= encode_bytes(rest));
            assert(seq![((e[0] as u32) as u8)] + rest =~= bs);
        } else {
            assert(e[0] == '%');
            assert(e[1] == hex_digit(b as int / 16));
            assert(e[2] == hex_digit(b as int % 16));
            assert(hex_value(hex_digit(b as int / 16)) == Some((b / 16) as u8));
            assert(hex_value(hex_digit(b as int % 16)) == Some((b % 16) as u8));
            assert(e.skip(3) =~= encode_bytes(rest));
            assert(16 * (b as int / 16) + (b as int % 16) == b as int);
            assert(seq![(16 * ((b / 16) as int) + ((b % 16) as int)) as u8] + rest =~= bs);
        }
    }
}

/// Round trip: percent-encoding any string and then percent-decoding it
/// yields exactly the UTF-8 bytes of the original string, and those bytes
/// decode back to the original characters.
pub proof fn lemma_percent_round_trip(s: Seq<char>)
    ensures
        decode_chars(percent_encoding_of(s)) == Some(encode_utf8(s)),
        decode_utf8(encode_utf8(s)) == s,
{
    lemma_decode_encode_bytes(encode_utf8(s));
    encode_utf8_decode_utf8(s);
}

} // verus!
