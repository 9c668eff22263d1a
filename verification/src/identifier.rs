use vstd::prelude::*;

verus! {

use vstd::string::*;

use crate::error::{invalid_identifier_message, MediaError};

/// The character standing for a single hexadecimal digit value.
pub open spec fn hex_char_of(n: u8) -> char {
    if n == 0 {
        '0'
    } else if n == 1 {
        '1'
    } else if n == 2 {
        '2'
    } else if n == 3 {
        '3'
    } else if n == 4 {
        '4'
    } else if n == 5 {
        '5'
    } else if n == 6 {
        '6'
    } else if n == 7 {
        '7'
    } else if n == 8 {
        '8'
    } else if n == 9 {
        '9'
    } else if n == 10 {
        'a'
    } else if n == 11 {
        'b'
    } else if n == 12 {
        'c'
    } else if n == 13 {
        'd'
    } else if n == 14 {
        'e'
    } else {
        'f'
    }
}

/// The value of a hexadecimal digit character, in either letter case,
/// or nothing for any other character.
pub open spec fn hex_val_opt(c: char) -> Option<u8> {
    if c == '0' {
        Some(0u8)
    } else if c == '1' {
        Some(1u8)
    } else if c == '2' {
        Some(2u8)
    } else if c == '3' {
        Some(3u8)
    } else if c == '4' {
        Some(4u8)
    } else if c == '5' {
        Some(5u8)
    } else if c == '6' {
        Some(6u8)
    } else if c == '7' {
        Some(7u8)
    } else if c == '8' {
        Some(8u8)
    } else if c == '9' {
        Some(9u8)
    } else if c == 'a' || c == 'A' {
        Some(10u8)
    } else if c == 'b' || c == 'B' {
        Some(11u8)
    } else if c == 'c' || c == 'C' {
        Some(12u8)
    } else if c == 'd' || c == 'D' {
        Some(13u8)
    } else if c == 'e' || c == 'E' {
        Some(14u8)
    } else if c == 'f' || c == 'F' {
        Some(15u8)
    } else {
        None
    }
}

/// Whether a character is a hexadecimal digit, in either letter case.
pub open spec fn is_hex_digit(c: char) -> bool {
    hex_val_opt(c) is Some
}

/// The value of a hexadecimal digit character (zero on other characters).
pub open spec fn hex_val(c: char) -> u8 {
    match hex_val_opt(c) {
        Some(v) => v,
        None => 0,
    }
}

/// The high (even position) or low (odd position) nibble of the byte
/// that digit position `k` of the unbroken 32-digit form falls in.
pub open spec fn nibble_at(b: Seq<u8>, k: int) -> u8 {
    if k % 2 == 0 {
        (b[k / 2] as int / 16) as u8
    } else {
        (b[k / 2] as int % 16) as u8
    }
}

/// Whether position `p` of the canonical 36-character form holds a hyphen.
pub open spec fn is_hyphen_pos(p: int) -> bool {
    p == 8 || p == 13 || p == 18 || p == 23
}

/// How many hyphens of the canonical form lie strictly before position `p`.
pub open spec fn hyphens_before(p: int) -> int {
    (if p > 8 {
        1int
    } else {
        0int
    }) + (if p > 13 {
        1int
    } else {
        0int
    }) + (if p > 18 {
        1int
    } else {
        0int
    }) + (if p > 23 {
        1int
    } else {
        0int
    })
}

/// The position of hexadecimal digit `k` within the canonical form,
/// once the hyphens standing before it are counted in.
pub open spec fn digit_pos(k: int) -> int {
    k + (if k >= 8 {
        1int
    } else {
        0int
    }) + (if k >= 12 {
        1int
    } else {
        0int
    }) + (if k >= 16 {
        1int
    } else {
        0int
    }) + (if k >= 20 {
        1int
    } else {
        0int
    })
}

/// The canonical string form of a 16-byte identifier: 32 lowercase
/// hexadecimal digits broken into groups of 8, 4, 4, 4 and 12 by hyphens.
pub open spec fn canonical_of(b: Seq<u8>) -> Seq<char> {
    Seq::new(
        36,
        |p: int|
            if is_hyphen_pos(p) {
                '-'
            } else {
                hex_char_of(nibble_at(b, p - hyphens_before(p)))
            },
    )
}

/// Whether a string is a canonical identifier up to hexadecimal letter
/// case: 36 characters with hyphens at the group breaks and hexadecimal
/// digits everywhere else.
pub open spec fn is_canonical_id(s: Seq<char>) -> bool {
    &&& s.len() == 36
    &&& s[8] == '-'
    &&& s[13] == '-'
    &&& s[18] == '-'
    &&& s[23] == '-'
    &&& forall|k: int| 0 <= k < 32 ==> is_hex_digit(#[trigger] s[digit_pos(k)])
}

/// Byte `j` denoted by a canonical identifier string.
pub open spec fn byte_at(s: Seq<char>, j: int) -> u8 {
    (16 * hex_val(s[digit_pos(2 * j)]) + hex_val(s[digit_pos(2 * j + 1)])) as u8
}

/// The 16 bytes denoted by a canonical identifier string.
pub open spec fn bytes_of_canonical(s: Seq<char>) -> Seq<u8> {
    Seq::new(16, |j: int| byte_at(s, j))
}

/// How many characters of the canonical form stand before the digits of
/// byte `i`: two digits for each earlier byte, plus the hyphens already
/// emitted at that point.
pub open spec fn emitted_before(i: int) -> int {
    2 * i + (if i > 4 {
        1int
    } else {
        0int
    }) + (if i > 6 {
        1int
    } else {
        0int
    }) + (if i > 8 {
        1int
    } else {
        0int
    }) + (if i > 10 {
        1int
    } else {
        0int
    })
}

/// An opaque 128-bit media identifier, the sole externally visible
/// handle for a stored object. Minted once at ingestion and never reused.
#[derive(Clone)]
pub struct MediaId {
    bytes: Vec<u8>,
}

impl View for MediaId {
    type V = Seq<u8>;

    closed spec fn view(&self) -> Seq<u8> {
        self.bytes@
    }
}

impl MediaId {
    /// A well-formed identifier holds exactly 16 bytes.
    pub open spec fn wf(&self) -> bool {
        self@.len() == 16
    }

    /// Builds an identifier from its 16 raw bytes.
    pub fn from_bytes(bytes: Vec<u8>) -> (r: MediaId)
        requires
            bytes@.len() == 16,
        ensures
            r.wf(),
            r@ == bytes@,
    {
        MediaId { bytes }
    }

    /// Relies on bson::Uuid::new for a fresh random (version 4) UUID and
    /// on bson::Uuid::bytes for its 16-byte form. Nothing is promised of
    /// the value itself: it is random.
    #[verifier::external_body]
    fn fresh_uuid_bytes() -> (r: Vec<u8>)
        ensures
            r@.len() == 16,
    {
        bson::Uuid::new().bytes().to_vec()
    }

    /// Mints a fresh identifier.
    pub fn fresh() -> (r: MediaId)
        ensures
            r.wf(),
    {
        MediaId { bytes: Self::fresh_uuid_bytes() }
    }

    fn hex_char_str(n: u8) -> (r: &'static str)
        requires
            n < 16,
        ensures
            r@ == seq![hex_char_of(n)],
    {
        let r: &'static str = if n == 0 {
            "0"
        } else if n == 1 {
            "1"
        } else if n == 2 {
            "2"
        } else if n == 3 {
            "3"
        } else if n == 4 {
            "4"
        } else if n == 5 {
            "5"
        } else if n == 6 {
            "6"
        } else if n == 7 {
            "7"
        } else if n == 8 {
            "8"
        } else if n == 9 {
            "9"
        } else if n == 10 {
            "a"
        } else if n == 11 {
            "b"
        } else if n == 12 {
            "c"
        } else if n == 13 {
            "d"
        } else if n == 14 {
            "e"
        } else {
            "f"
        };
        proof {
            reveal_strlit("0");
            reveal_strlit("1");
            reveal_strlit("2");
            reveal_strlit("3");
            reveal_strlit("4");
            reveal_strlit("5");
            reveal_strlit("6");
            reveal_strlit("7");
            reveal_strlit("8");
            reveal_strlit("9");
            reveal_strlit("a");
            reveal_strlit("b");
            reveal_strlit("c");
            reveal_strlit("d");
            reveal_strlit("e");
            reveal_strlit("f");
            assert(r@ =~= seq![hex_char_of(n)]);
        }
        r
    }

    /// The canonical hyphenated string form of this identifier, used as
    /// the store listing prefix and as the stem of the storage key.
    pub fn hyphenated(&self) -> (r: String)
        requires
            self.wf(),
        ensures
            r@ == canonical_of(self@),
            r@.len() == 36,
    {
        let ghost c = canonical_of(self.bytes@);
        let mut out = String::new();
        assert(out@ =~= c.take(emitted_before(0)));
        for i in 0..16usize
            invariant
                self.bytes@.len() == 16,
                c == canonical_of(self.bytes@),
                out@ == c.take(emitted_before(i as int)),
        {
            let ghost base = emitted_before(i as int);
            if i == 4 || i == 6 || i == 8 || i == 10 {
                out.append("-");
                proof {
                    reveal_strlit("-");
                    assert(is_hyphen_pos(base));
                    assert(c[base] == '-');
                    assert(out@ =~= c.take(base + 1));
                }
            }
            let ghost adj: int = if i == 4 || i == 6 || i == 8 || i == 10 {
                1
            } else {
                0
            };
            let b = self.bytes[i];
            out.append(Self::hex_char_str(b / 16));
            out.append(Self::hex_char_str(b % 16));
            proof {
                let p = base + adj;
                assert(!is_hyphen_pos(p) && p - hyphens_before(p) == 2 * i);
                assert(!is_hyphen_pos(p + 1) && (p + 1) - hyphens_before(p + 1) == 2 * i + 1);
                assert(c[p] == hex_char_of(nibble_at(self.bytes@, 2 * i)));
                assert(c[p + 1] == hex_char_of(nibble_at(self.bytes@, 2 * i + 1)));
                assert(nibble_at(self.bytes@, 2 * i) == b / 16);
                assert(nibble_at(self.bytes@, 2 * i + 1) == b % 16);
                assert(emitted_before(i as int + 1) == p + 2);
                assert(out@ =~= c.take(emitted_before(i as int + 1)));
            }
        }
        proof {
            assert(c.take(emitted_before(16)) =~= c);
        }
        out
    }

    fn invalid_identifier_error() -> (r: MediaError)
        ensures
            r matches MediaError::Validation(m) && m@ == invalid_identifier_message(),
    {
        MediaError::Validation(String::from_str("invalid media identifier"))
    }

    fn hex_val_of_char(c: char) -> (r: Option<u8>)
        ensures
            r is Some <==> is_hex_digit(c),
            r matches Some(v) ==> v == hex_val(c) && v < 16,
    {
        if c == '0' {
            Some(0)
        } else if c == '1' {
            Some(1)
        } else if c == '2' {
            Some(2)
        } else if c == '3' {
            Some(3)
        } else if c == '4' {
            Some(4)
        } else if c == '5' {
            Some(5)
        } else if c == '6' {
            Some(6)
        } else if c == '7' {
            Some(7)
        } else if c == '8' {
            Some(8)
        } else if c == '9' {
            Some(9)
        } else if c == 'a' || c == 'A' {
            Some(10)
        } else if c == 'b' || c == 'B' {
            Some(11)
        } else if c == 'c' || c == 'C' {
            Some(12)
        } else if c == 'd' || c == 'D' {
            Some(13)
        } else if c == 'e' || c == 'E' {
            Some(14)
        } else if c == 'f' || c == 'F' {
            Some(15)
        } else {
            None
        }
    }

    /// Parses a canonical hyphenated identifier string, accepting
    /// hexadecimal digits in either letter case and nothing else.
    pub fn parse(s: &str) -> (r: Result<MediaId, MediaError>)
        ensures
            r matches Ok(id) ==> id.wf() && is_canonical_id(s@) && id@ == bytes_of_canonical(s@),
            r is Ok <==> is_canonical_id(s@),
            r matches Err(e) ==> e matches MediaError::Validation(m) && m@
                == invalid_identifier_message(),
    {
        let n = s.unicode_len();
        if n != 36 {
            return Err(Self::invalid_identifier_error());
        }
        if s.get_char(8) != '-' || s.get_char(13) != '-' || s.get_char(18) != '-' || s.get_char(23)
            != '-' {
            return Err(Self::invalid_identifier_error());
        }
        let mut bytes: Vec<u8> = Vec::new();
        for i in 0..16usize
            invariant
                s@.len() == 36,
                s@[8] == '-' && s@[13] == '-' && s@[18] == '-' && s@[23] == '-',
                bytes@.len() == i,
                forall|k: int| 0 <= k < 2 * i ==> is_hex_digit(#[trigger] s@[digit_pos(k)]),
                forall|j: int| 0 <= j < i ==> bytes@[j] == byte_at(s@, j),
        {
            let off: usize = if i < 4 {
                0
            } else if i < 6 {
                1
            } else if i < 8 {
                2
            } else if i < 10 {
                3
            } else {
                4
            };
            let p: usize = 2 * i + off;
            proof {
                assert(p == digit_pos(2 * i as int));
                assert(p + 1 == digit_pos(2 * i as int + 1));
            }
            let hi = match Self::hex_val_of_char(s.get_char(p)) {
                Some(v) => v,
                None => {
                    proof {
                        assert(!is_hex_digit(s@[digit_pos(2 * i as int)]));
                    }
                    return Err(Self::invalid_identifier_error());
                },
            };
            let lo = match Self::hex_val_of_char(s.get_char(p + 1)) {
                Some(v) => v,
                None => {
                    proof {
                        assert(!is_hex_digit(s@[digit_pos(2 * i as int + 1)]));
                    }
                    return Err(Self::invalid_identifier_error());
                },
            };
            bytes.push(16 * hi + lo);
            proof {
                assert(bytes@[i as int] == byte_at(s@, i as int));
            }
        }
        proof {
            assert(is_canonical_id(s@));
            assert(bytes@ =~= bytes_of_canonical(s@));
        }
        Ok(MediaId { bytes })
    }
}

/// Formatting and parsing are mutually inverse: the canonical string of
/// any 16-byte identifier is itself a canonical identifier string, and
/// it denotes exactly the bytes it was formatted from.
pub proof fn lemma_canonical_round_trip(b: Seq<u8>)
    requires
        b.len() == 16,
    ensures
        is_canonical_id(canonical_of(b)),
        bytes_of_canonical(canonical_of(b)) == b,
{
    let c = canonical_of(b);
    assert forall|n: u8| n < 16 implies is_hex_digit(hex_char_of(n)) && hex_val(hex_char_of(n))
        == n by {}
    assert forall|k: int| 0 <= k < 32 implies {
        &&& 0 <= digit_pos(k) < 36
        &&& !is_hyphen_pos(digit_pos(k))
        &&& digit_pos(k) - hyphens_before(digit_pos(k)) == k
    } by {}
    assert forall|k: int| 0 <= k < 32 implies nibble_at(b, k) < 16 by {
        assert(0 <= k / 2 < 16);
    }
    assert forall|k: int| 0 <= k < 32 implies is_hex_digit(#[trigger] c[digit_pos(k)]) by {
        assert(c[digit_pos(k)] == hex_char_of(nibble_at(b, k)));
    }
    assert(is_canonical_id(c));
    assert forall|j: int| 0 <= j < 16 implies bytes_of_canonical(c)[j] == b[j] by {
        assert(c[digit_pos(2 * j)] == hex_char_of(nibble_at(b, 2 * j)));
        assert(c[digit_pos(2 * j + 1)] == hex_char_of(nibble_at(b, 2 * j + 1)));
        assert(nibble_at(b, 2 * j) == (b[j] as int / 16) as u8);
        assert(nibble_at(b, 2 * j + 1) == (b[j] as int % 16) as u8);
        assert(16 * (b[j] as int / 16) + b[j] as int % 16 == b[j] as int);
    }
    assert(bytes_of_canonical(c) =~= b);
}

} // verus!
