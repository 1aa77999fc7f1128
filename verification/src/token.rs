//! Opaque token identifiers: 128-bit values rendered as hexadecimal
//! strings, either compact (32 digits) or hyphenated (36 characters,
//! hyphens after the 8th, 12th, 16th and 20th digit).

use vstd::prelude::*;

use crate::text::chars_to_string;

verus! {

/// True of the characters this library accepts as hexadecimal digits.
pub open spec fn is_hex_digit(c: char) -> bool {
    (48 <= c as u32 && c as u32 <= 57)  // '0'..='9'
    || (97 <= c as u32 && c as u32 <= 102)  // 'a'..='f'
    || (65 <= c as u32 && c as u32 <= 70)  // 'A'..='F'
}

/// The numeric value of a hexadecimal digit.
pub open spec fn hex_val_of(c: char) -> u8 {
    if 48 <= c as u32 && c as u32 <= 57 {
        (c as u32 - 48) as u8
    } else if 97 <= c as u32 && c as u32 <= 102 {
        (c as u32 - 87) as u8
    } else if 65 <= c as u32 && c as u32 <= 70 {
        (c as u32 - 55) as u8
    } else {
        0
    }
}

/// The lowercase hexadecimal digit for a value below 16.
pub open spec fn hex_char_of(n: u8) -> char {
    if n == 0 { '0' } else if n == 1 { '1' } else if n == 2 { '2' } else if n == 3 { '3' }
    else if n == 4 { '4' } else if n == 5 { '5' } else if n == 6 { '6' } else if n == 7 { '7' }
    else if n == 8 { '8' } else if n == 9 { '9' } else if n == 10 { 'a' } else if n == 11 { 'b' }
    else if n == 12 { 'c' } else if n == 13 { 'd' } else if n == 14 { 'e' } else { 'f' }
}

/// The hexadecimal digit at position `i` of the compact rendering of `b`:
/// the high nibble of each byte comes first.
pub open spec fn nibble_of(b: Seq<u8>, i: int) -> u8 {
    if i % 2 == 0 {
        b[i / 2] / 16
    } else {
        b[i / 2] % 16
    }
}

/// The compact (32 hexadecimal digits, no separators) rendering of a
/// 16-byte identifier.
pub open spec fn compact_of(b: Seq<u8>) -> Seq<char> {
    Seq::new(32, |i: int| hex_char_of(nibble_of(b, i)))
}

/// True at the four positions of the hyphenated rendering that hold a
/// hyphen.
pub open spec fn is_hyphen_pos(j: int) -> bool {
    j == 8 || j == 13 || j == 18 || j == 23
}

/// Maps a position of the hyphenated rendering to the position of the
/// same digit in the compact rendering.
pub open spec fn compact_pos(j: int) -> int {
    if j < 8 { j } else if j < 13 { j - 1 } else if j < 18 { j - 2 } else if j < 23 { j - 3 } else { j - 4 }
}

/// The canonical hyphenated (36 characters) rendering of a 16-byte
/// identifier.
pub open spec fn hyphenated_of(b: Seq<u8>) -> Seq<char> {
    Seq::new(36, |j: int| if is_hyphen_pos(j) { '-' } else { hex_char_of(nibble_of(b, compact_pos(j))) })
}

/// True of strings that are a well-formed compact identifier.
pub open spec fn valid_compact(s: Seq<char>) -> bool {
    &&& s.len() == 32
    &&& forall|i: int| 0 <= i < 32 ==> is_hex_digit(#[trigger] s[i])
}

/// True of strings that are a well-formed hyphenated identifier.
pub open spec fn valid_hyphenated(s: Seq<char>) -> bool {
    &&& s.len() == 36
    &&& forall|j: int| 0 <= j < 36 && is_hyphen_pos(j) ==> #[trigger] s[j] == '-'
    &&& forall|j: int| 0 <= j < 36 && !is_hyphen_pos(j) ==> is_hex_digit(#[trigger] s[j])
}

/// True of every string this library accepts as a token identifier.
pub open spec fn valid_token_text(s: Seq<char>) -> bool {
    valid_compact(s) || valid_hyphenated(s)
}

/// The 16 bytes denoted by 32 hexadecimal digits.
pub open spec fn bytes_of_hex(h: Seq<char>) -> Seq<u8> {
    Seq::new(16, |i: int| (hex_val_of(h[2 * i]) * 16 + hex_val_of(h[2 * i + 1])) as u8)
}

/// The digits of a hyphenated rendering, with the hyphens removed.
pub open spec fn strip_hyphens(s: Seq<char>) -> Seq<char> {
    Seq::new(32, |i: int| s[hyphenated_pos(i)])
}

/// Maps a position of the compact rendering to the position of the same
/// digit in the hyphenated rendering.
pub open spec fn hyphenated_pos(i: int) -> int {
    if i < 8 { i } else if i < 12 { i + 1 } else if i < 16 { i + 2 } else if i < 20 { i + 3 } else { i + 4 }
}

/// The identifier denoted by a well-formed token string.
pub open spec fn token_bytes_of(s: Seq<char>) -> Seq<u8> {
    if valid_compact(s) {
        bytes_of_hex(s)
    } else {
        bytes_of_hex(strip_hyphens(s))
    }
}

/// A 128-bit opaque token identifier, held as its 16 bytes.
#[derive(Debug, Clone)]
pub struct TokenId {
    pub bytes: Vec<u8>,
}

impl View for TokenId {
    type V = Seq<u8>;

    open spec fn view(&self) -> Seq<u8> {
        self.bytes@
    }
}

impl TokenId {
    /// A well-formed identifier holds exactly 16 bytes.
    pub open spec fn wf(&self) -> bool {
        self.bytes@.len() == 16
    }
}

/// The lowercase hexadecimal digit for a nibble.
fn hex_char(n: u8) -> (c: char)
    requires
        n < 16,
    ensures
        c == hex_char_of(n),
{
    if n == 0 { '0' } else if n == 1 { '1' } else if n == 2 { '2' } else if n == 3 { '3' }
    else if n == 4 { '4' } else if n == 5 { '5' } else if n == 6 { '6' } else if n == 7 { '7' }
    else if n == 8 { '8' } else if n == 9 { '9' } else if n == 10 { 'a' } else if n == 11 { 'b' }
    else if n == 12 { 'c' } else if n == 13 { 'd' } else if n == 14 { 'e' } else { 'f' }
}

/// Whether a character is a hexadecimal digit.
fn is_hex(c: char) -> (b: bool)
    ensures
        b == is_hex_digit(c),
{
    let u = c as u32;
    (48 <= u && u <= 57) || (97 <= u && u <= 102) || (65 <= u && u <= 70)
}

/// The numeric value of a hexadecimal digit.
fn hex_val(c: char) -> (v: u8)
    requires
        is_hex_digit(c),
    ensures
        v == hex_val_of(c),
{
    let u = c as u32;
    if 48 <= u && u <= 57 {
        (u - 48) as u8
    } else if 97 <= u && u <= 102 {
        (u - 87) as u8
    } else {
        (u - 55) as u8
    }
}

impl TokenId {
    /// The compact rendering: 32 lowercase hexadecimal digits.
    pub fn simple(&self) -> (s: String)
        requires
            self.wf(),
        ensures
            s@ == compact_of(self@),
    {
        let mut out: Vec<char> = Vec::new();
        let mut i: usize = 0;
        while i < 16
            invariant
                self.wf(),
                i <= 16,
                out@ == compact_of(self@).take(2 * i as int),
            decreases 16 - i,
        {
            let b = self.bytes[i];
            out.push(hex_char(b / 16));
            out.push(hex_char(b % 16));
            proof {
                assert(out@ =~= compact_of(self@).take(2 * (i + 1) as int));
            }
            i = i + 1;
        }
        proof {
            assert(out@ =~= compact_of(self@));
        }
        chars_to_string(&out)
    }

    /// The canonical hyphenated rendering: 36 characters.
    pub fn hyphenated(&self) -> (s: String)
        requires
            self.wf(),
        ensures
            s@ == hyphenated_of(self@),
    {
        let mut out: Vec<char> = Vec::new();
        let mut j: usize = 0;
        while j < 36
            invariant
                self.wf(),
                j <= 36,
                out@ == hyphenated_of(self@).take(j as int),
            decreases 36 - j,
        {
            if j == 8 || j == 13 || j == 18 || j == 23 {
                out.push('-');
            } else {
                let i = if j < 8 { j } else if j < 13 { j - 1 } else if j < 18 { j - 2 } else if j < 23 { j - 3 } else { j - 4 };
                let b = self.bytes[i / 2];
                let n = if i % 2 == 0 { b / 16 } else { b % 16 };
                out.push(hex_char(n));
            }
            proof {
                assert(out@ =~= hyphenated_of(self@).take(j + 1 as int));
            }
            j = j + 1;
        }
        proof {
            assert(out@ =~= hyphenated_of(self@));
        }
        chars_to_string(&out)
    }

    /// Parses a token string: either rendering is accepted, and exactly
    /// the well-formed strings parse.
    pub fn parse_str(s: &str) -> (r: Option<TokenId>)
        ensures
            r is Some <==> valid_token_text(s@),
            r is Some ==> r->0.wf() && r->0@ == token_bytes_of(s@),
    {
        let n = s.unicode_len();
        if n == 32 {
            parse_compact(s)
        } else if n == 36 {
            parse_hyphenated(s)
        } else {
            None
        }
    }
}

/// Parses the compact rendering.
fn parse_compact(s: &str) -> (r: Option<TokenId>)
    requires
        s@.len() == 32,
    ensures
        r is Some <==> valid_compact(s@),
        r is Some ==> r->0.wf() && r->0@ == bytes_of_hex(s@),
{
    let mut bytes: Vec<u8> = Vec::new();
    let mut i: usize = 0;
    while i < 16
        invariant
            s@.len() == 32,
            i <= 16,
            bytes@ == bytes_of_hex(s@).take(i as int),
            forall|k: int| 0 <= k < 2 * i ==> is_hex_digit(#[trigger] s@[k]),
        decreases 16 - i,
    {
        let c1 = s.get_char(2 * i);
        let c2 = s.get_char(2 * i + 1);
        if !is_hex(c1) || !is_hex(c2) {
            return None;
        }
        bytes.push(hex_val(c1) * 16 + hex_val(c2));
        proof {
            assert(bytes@ =~= bytes_of_hex(s@).take(i + 1 as int));
        }
        i = i + 1;
    }
    proof {
        assert(bytes@ =~= bytes_of_hex(s@));
    }
    Some(TokenId { bytes })
}

/// Parses the hyphenated rendering.
fn parse_hyphenated(s: &str) -> (r: Option<TokenId>)
    requires
        s@.len() == 36,
    ensures
        r is Some <==> valid_hyphenated(s@),
        r is Some ==> r->0.wf() && r->0@ == bytes_of_hex(strip_hyphens(s@)),
{
    if s.get_char(8) != '-' || s.get_char(13) != '-' || s.get_char(18) != '-' || s.get_char(23) != '-' {
        return None;
    }
    let mut bytes: Vec<u8> = Vec::new();
    let mut i: usize = 0;
    while i < 16
        invariant
            s@.len() == 36,
            i <= 16,
            bytes@ == bytes_of_hex(strip_hyphens(s@)).take(i as int),
            forall|k: int| 0 <= k < 2 * i ==> is_hex_digit(#[trigger] strip_hyphens(s@)[k]),
        decreases 16 - i,
    {
        let p1 = hyph_pos(2 * i);
        let p2 = hyph_pos(2 * i + 1);
        let c1 = s.get_char(p1);
        let c2 = s.get_char(p2);
        if !is_hex(c1) || !is_hex(c2) {
            proof {
                assert(!valid_hyphenated(s@)) by {
                    if !is_hex_digit(c1) {
                        assert(s@[hyphenated_pos(2 * i as int)] == c1);
                        assert(!is_hyphen_pos(hyphenated_pos(2 * i as int)));
                    } else {
                        assert(s@[hyphenated_pos(2 * i as int + 1)] == c2);
                        assert(!is_hyphen_pos(hyphenated_pos(2 * i as int + 1)));
                    }
                }
            }
            return None;
        }
        bytes.push(hex_val(c1) * 16 + hex_val(c2));
        proof {
            assert(strip_hyphens(s@)[2 * i as int] == c1);
            assert(strip_hyphens(s@)[2 * i as int + 1] == c2);
            assert(bytes@ =~= bytes_of_hex(strip_hyphens(s@)).take(i + 1 as int));
        }
        i = i + 1;
    }
    proof {
        assert(bytes@ =~= bytes_of_hex(strip_hyphens(s@)));
        assert(valid_hyphenated(s@)) by {
            assert forall|j: int| 0 <= j < 36 && !is_hyphen_pos(j) implies is_hex_digit(s@[j]) by {
                assert(s@[j] == strip_hyphens(s@)[compact_pos(j)]);
                assert(is_hex_digit(strip_hyphens(s@)[compact_pos(j)]));
            }
        }
    }
    Some(TokenId { bytes })
}

/// Relies on `uuid::Uuid::new_v4`: a freshly generated random
/// version-4 UUID, returned as its 16 bytes. Nothing is assumed of the
/// value beyond its length.
#[verifier::external_body]
fn fresh_id_bytes() -> (b: Vec<u8>)
    ensures
        b@.len() == 16,
{
    uuid::Uuid::new_v4().into_bytes().to_vec()
}

impl TokenId {
    /// A freshly generated random identifier.
    pub fn fresh() -> (t: TokenId)
        ensures
            t.wf(),
    {
        TokenId { bytes: fresh_id_bytes() }
    }
}

/// A hexadecimal digit denotes the value it was rendered from.
pub proof fn lemma_hex_digit_roundtrip(n: u8)
    requires
        n < 16,
    ensures
        is_hex_digit(hex_char_of(n)),
        hex_val_of(hex_char_of(n)) == n,
{
}

/// The compact rendering of an identifier is well formed and parses
/// back to the same identifier.
pub proof fn lemma_compact_roundtrip(b: Seq<u8>)
    requires
        b.len() == 16,
    ensures
        valid_compact(compact_of(b)),
        bytes_of_hex(compact_of(b)) == b,
{
    assert forall|i: int| 0 <= i < 32 implies is_hex_digit(#[trigger] compact_of(b)[i]) by {
        lemma_hex_digit_roundtrip(nibble_of(b, i));
    }
    assert forall|i: int| 0 <= i < 16 implies #[trigger] bytes_of_hex(compact_of(b))[i] == b[i] by {
        lemma_hex_digit_roundtrip(nibble_of(b, 2 * i));
        lemma_hex_digit_roundtrip(nibble_of(b, 2 * i + 1));
        assert(b[i] / 16 * 16 + b[i] % 16 == b[i]);
    }
    assert(bytes_of_hex(compact_of(b)) =~= b);
}

/// The hyphenated rendering of an identifier is well formed and parses
/// back to the same identifier.
pub proof fn lemma_hyphenated_roundtrip(b: Seq<u8>)
    requires
        b.len() == 16,
    ensures
        valid_hyphenated(hyphenated_of(b)),
        bytes_of_hex(strip_hyphens(hyphenated_of(b))) == b,
{
    lemma_compact_roundtrip(b);
    assert(strip_hyphens(hyphenated_of(b)) =~= compact_of(b));
}

/// Either rendering of an identifier is accepted as a token string and
/// denotes the identifier it was rendered from.
pub proof fn lemma_token_text_roundtrip(b: Seq<u8>)
    requires
        b.len() == 16,
    ensures
        valid_token_text(hyphenated_of(b)),
        token_bytes_of(hyphenated_of(b)) == b,
        valid_token_text(compact_of(b)),
        token_bytes_of(compact_of(b)) == b,
{
    lemma_compact_roundtrip(b);
    lemma_hyphenated_roundtrip(b);
}

/// The position in the hyphenated rendering of compact digit `i`.
fn hyph_pos(i: usize) -> (p: usize)
    requires
        i < 32,
    ensures
        p == hyphenated_pos(i as int),
        p < 36,
        !is_hyphen_pos(p as int),
{
    if i < 8 { i } else if i < 12 { i + 1 } else if i < 16 { i + 2 } else if i < 20 { i + 3 } else { i + 4 }
}

} // verus!
