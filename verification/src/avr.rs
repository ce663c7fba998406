//! The hex-text frame format: a leading marker character, two hex digits per
//! payload byte, and a trailing marker character.

use vstd::prelude::*;

use crate::message::DecodeError;

verus! {

/// A character that is a hexadecimal digit.
pub open spec fn spec_is_hex_digit(c: char) -> bool {
    let u = c as u32;
    (48 <= u <= 57) || (65 <= u <= 70) || (97 <= u <= 102)
}

/// The value of a hexadecimal digit.
pub open spec fn spec_hex_value(c: char) -> u8
    recommends
        spec_is_hex_digit(c),
{
    let u = c as u32;
    if 48 <= u <= 57 {
        (u - 48) as u8
    } else if 65 <= u <= 70 {
        (u - 55) as u8
    } else {
        (u - 87) as u8
    }
}

/// The upper-case hexadecimal digit for a nibble.
pub open spec fn spec_hex_char(n: u8) -> char
    recommends
        n < 16,
{
    if n == 0 {
        '0'
    } else if n == 1 {
        '1'
    } else if n == 2 {
        '2'
    } else if n == 3 {
        '3'
    } else if n == 4 {
        '4'
    } else if n == 5 {
        '5'
    } else if n == 6 {
        '6'
    } else if n == 7 {
        '7'
    } else if n == 8 {
        '8'
    } else if n == 9 {
        '9'
    } else if n == 10 {
        'A'
    } else if n == 11 {
        'B'
    } else if n == 12 {
        'C'
    } else if n == 13 {
        'D'
    } else if n == 14 {
        'E'
    } else {
        'F'
    }
}

/// A hex-text frame is well formed when it holds at least the two marker
/// characters and an even number of hexadecimal digits between them.
pub open spec fn spec_avr_wellformed(s: Seq<char>) -> bool {
    &&& 2 <= s.len()
    &&& s.len() % 2 == 0
    &&& forall|i: int| 1 <= i < s.len() - 1 ==> spec_is_hex_digit(#[trigger] s[i])
}

/// The payload bytes of a well-formed frame: one byte per digit pair.
pub open spec fn spec_avr_bytes(s: Seq<char>) -> Seq<u8> {
    Seq::new(
        ((s.len() - 2) / 2) as nat,
        |i: int| (spec_hex_value(s[1 + 2 * i]) * 16 + spec_hex_value(s[2 + 2 * i])) as u8,
    )
}

/// What decoding a hex-text frame yields: its payload bytes, or nothing for
/// a malformed frame.
pub open spec fn spec_parse_avr(s: Seq<char>) -> Option<Seq<u8>> {
    if spec_avr_wellformed(s) {
        Some(spec_avr_bytes(s))
    } else {
        None
    }
}

/// The pairs of hexadecimal digits encoding a byte sequence, upper case.
pub open spec fn spec_hex_pairs(data: Seq<u8>) -> Seq<char> {
    Seq::new(
        (2 * data.len()) as nat,
        |i: int| if i % 2 == 0 {
            spec_hex_char(data[i / 2] / 16)
        } else {
            spec_hex_char(data[i / 2] % 16)
        },
    )
}

/// The hex-text encoding of a byte sequence, between the two markers.
pub open spec fn spec_format_avr(data: Seq<u8>) -> Seq<char> {
    seq!['*'] + spec_hex_pairs(data) + seq![';']
}

/// The value of one hexadecimal digit character, absent for any other
/// character.
fn hex_value(c: char) -> (r: Option<u8>)
    ensures
        match r {
            Some(v) => spec_is_hex_digit(c) && v == spec_hex_value(c),
            None => !spec_is_hex_digit(c),
        },
{
    let u = c as u32;
    if 48 <= u && u <= 57 {
        Some((u - 48) as u8)
    } else if 65 <= u && u <= 70 {
        Some((u - 55) as u8)
    } else if 97 <= u && u <= 102 {
        Some((u - 87) as u8)
    } else {
        None
    }
}

/// One nibble as an upper-case hexadecimal digit.
fn hex_digit_str(n: u8) -> (r: &'static str)
    requires
        n < 16,
    ensures
        r@ =~= seq![spec_hex_char(n)],
{
    proof {
        reveal_strlit("0");
        reveal_strlit("1");
        reveal_strlit("2");
        reveal_strlit("3");
        reveal_strlit("4");
        reveal_strlit("5");
        reveal_strlit("6");
        reveal_strlit("7");
        reveal_strlit("8");
        reveal_strlit("9");
        reveal_strlit("A");
        reveal_strlit("B");
        reveal_strlit("C");
        reveal_strlit("D");
        reveal_strlit("E");
        reveal_strlit("F");
    }
    match n {
        0 => "0",
        1 => "1",
        2 => "2",
        3 => "3",
        4 => "4",
        5 => "5",
        6 => "6",
        7 => "7",
        8 => "8",
        9 => "9",
        10 => "A",
        11 => "B",
        12 => "C",
        13 => "D",
        14 => "E",
        _ => "F",
    }
}

/// Decode a hex-text frame into its payload bytes.  The marker characters
/// are skipped, not inspected; a frame with fewer than two characters, an
/// odd number of payload characters, or a payload character that is no hex
/// digit is rejected.
pub fn parse_avr(frame: &str) -> (r: Result<Vec<u8>, DecodeError>)
    ensures
        match r {
            Ok(bytes) => spec_parse_avr(frame@) == Some(bytes@),
            Err(e) => spec_parse_avr(frame@) is None && e == DecodeError::MalformedHex,
        },
{
    let n = frame.unicode_len();
    if n < 2 || n % 2 != 0 {
        return Err(DecodeError::MalformedHex);
    }
    let mut bytes: Vec<u8> = Vec::new();
    let mut i: usize = 1;
    while i + 1 < n
        invariant
            frame@.len() == n,
            2 <= n,
            n % 2 == 0,
            i % 2 == 1,
            1 <= i <= n - 1,
            forall|j: int| 1 <= j < i ==> spec_is_hex_digit(#[trigger] frame@[j]),
            bytes@.len() == (i - 1) / 2,
            forall|k: int|
                0 <= k < bytes@.len() ==> #[trigger] bytes@[k] == (spec_hex_value(
                    frame@[1 + 2 * k],
                ) * 16 + spec_hex_value(frame@[2 + 2 * k])) as u8,
        decreases n - i,
    {
        let c1 = frame.get_char(i);
        let c2 = frame.get_char(i + 1);
        let v1 = match hex_value(c1) {
            Some(v) => v,
            None => {
                return Err(DecodeError::MalformedHex);
            },
        };
        let v2 = match hex_value(c2) {
            Some(v) => v,
            None => {
                return Err(DecodeError::MalformedHex);
            },
        };
        bytes.push(v1 * 16 + v2);
        i += 2;
    }
    proof {
        assert(spec_avr_wellformed(frame@));
        assert(bytes@ =~= spec_avr_bytes(frame@));
    }
    Ok(bytes)
}

/// Encode a byte sequence as a hex-text frame: the leading marker, two
/// upper-case hex digits per byte, and the trailing marker.
pub fn format_avr(data: &[u8]) -> (r: String)
    ensures
        r@ == spec_format_avr(data@),
{
    let mut r = String::new();
    r.append("*");
    proof {
        reveal_strlit("*");
        assert(r@ =~= seq!['*'] + spec_hex_pairs(data@.subrange(0, 0)));
    }
    let mut i: usize = 0;
    while i < data.len()
        invariant
            i <= data.len(),
            r@ == seq!['*'] + spec_hex_pairs(data@.subrange(0, i as int)),
        decreases data.len() - i,
    {
        let b = data[i];
        r.append(hex_digit_str(b / 16));
        r.append(hex_digit_str(b % 16));
        proof {
            assert(r@ =~= seq!['*'] + spec_hex_pairs(data@.subrange(0, i + 1)));
        }
        i += 1;
    }
    r.append(";");
    proof {
        reveal_strlit(";");
        assert(data@.subrange(0, data@.len() as int) =~= data@);
        assert(r@ =~= spec_format_avr(data@));
    }
    r
}

proof fn lemma_hex_char_value(n: u8)
    requires
        n < 16,
    ensures
        spec_is_hex_digit(spec_hex_char(n)),
        spec_hex_value(spec_hex_char(n)) == n,
{
}

/// Law: the hex-text encoding of any byte sequence, decoded back, yields
/// exactly the original bytes.
pub proof fn lemma_avr_round_trip(data: Seq<u8>)
    ensures
        spec_parse_avr(spec_format_avr(data)) == Some(data),
{
    let s = spec_format_avr(data);
    assert(s.len() == 2 * data.len() + 2);
    assert forall|i: int| 1 <= i < s.len() - 1 implies spec_is_hex_digit(#[trigger] s[i]) by {
        let j = i - 1;
        assert(s[i] == spec_hex_pairs(data)[j]);
        if j % 2 == 0 {
            lemma_hex_char_value(data[j / 2] / 16);
        } else {
            lemma_hex_char_value(data[j / 2] % 16);
        }
    }
    assert(spec_avr_wellformed(s));
    assert forall|k: int| 0 <= k < data.len() implies spec_avr_bytes(s)[k] == data[k] by {
        assert(s[1 + 2 * k] == spec_hex_pairs(data)[2 * k]);
        assert(s[2 + 2 * k] == spec_hex_pairs(data)[2 * k + 1]);
        assert((2 * k) % 2 == 0);
        assert((2 * k + 1) % 2 == 1);
        assert((2 * k) / 2 == k);
        assert((2 * k + 1) / 2 == k);
        lemma_hex_char_value(data[k] / 16);
        lemma_hex_char_value(data[k] % 16);
        assert(spec_avr_bytes(s)[k] == (data[k] / 16 * 16 + data[k] % 16) as u8);
        assert(data[k] / 16 * 16 + data[k] % 16 == data[k]) by {
            vstd::arithmetic::div_mod::lemma_fundamental_div_mod(data[k] as int, 16);
        }
    }
    assert(spec_avr_bytes(s) =~= data);
}

} // verus!
