//! Window-geometry persistence record and its codec.
//!
//! [`WindowSettings`] captures the optional outer position and inner size of
//! the window on shutdown and reproduces them on startup.  The record is
//! stored as one string in the key-value store: each field is either the
//! word `none` or sixteen fixed-width lowercase hex digits (two 32-bit
//! values), so encoding is deterministic and decoding is proved to invert it.

use vstd::arithmetic::div_mod::lemma_fundamental_div_mod;
use vstd::prelude::*;

verus! {

/// Window geometry captured on shutdown and applied on startup.
#[derive(Clone, Copy, Debug, PartialEq, Eq)]
pub struct WindowSettings {
    /// Outer position of the window in physical pixels.
    pub pos: Option<(i32, i32)>,
    /// Inner size of the window in physical pixels.
    pub size: Option<(u32, u32)>,
}

impl WindowSettings {
    /// Captures the current window geometry: the position if the platform
    /// reported one, and the inner size (always known).
    pub fn from_display(pos: Option<(i32, i32)>, size: (u32, u32)) -> (r: WindowSettings)
        ensures
            r.pos == pos,
            r.size == Some(size),
    {
        WindowSettings { pos, size: Some(size) }
    }

    /// The inner size to apply before the window is created, if one was
    /// captured.
    pub fn initialize_size(&self) -> (r: Option<(u32, u32)>)
        ensures
            r == self.size,
    {
        self.size
    }

    /// The outer position to apply after the window is created, if one was
    /// captured.
    pub fn restore_positions(&self) -> (r: Option<(i32, i32)>)
        ensures
            r == self.pos,
    {
        self.pos
    }
}

/// The sixteen lowercase hex digit characters, by value.
pub open spec fn spec_hex_char(d: int) -> char {
    if d == 0 {
        '0'
    } else if d == 1 {
        '1'
    } else if d == 2 {
        '2'
    } else if d == 3 {
        '3'
    } else if d == 4 {
        '4'
    } else if d == 5 {
        '5'
    } else if d == 6 {
        '6'
    } else if d == 7 {
        '7'
    } else if d == 8 {
        '8'
    } else if d == 9 {
        '9'
    } else if d == 10 {
        'a'
    } else if d == 11 {
        'b'
    } else if d == 12 {
        'c'
    } else if d == 13 {
        'd'
    } else if d == 14 {
        'e'
    } else {
        'f'
    }
}

/// The value of a hex digit character; 16 marks a non-digit.
pub open spec fn spec_hex_val(c: char) -> int {
    if c == '0' {
        0
    } else if c == '1' {
        1
    } else if c == '2' {
        2
    } else if c == '3' {
        3
    } else if c == '4' {
        4
    } else if c == '5' {
        5
    } else if c == '6' {
        6
    } else if c == '7' {
        7
    } else if c == '8' {
        8
    } else if c == '9' {
        9
    } else if c == 'a' {
        10
    } else if c == 'b' {
        11
    } else if c == 'c' {
        12
    } else if c == 'd' {
        13
    } else if c == 'e' {
        14
    } else if c == 'f' {
        15
    } else {
        16
    }
}

/// Whether a character is a lowercase hex digit.
pub open spec fn spec_is_hex(c: char) -> bool {
    spec_hex_val(c) < 16
}

/// Sixteen to the `w`.
pub open spec fn spec_pow16(w: nat) -> int
    decreases w,
{
    if w == 0 {
        1
    } else {
        16 * spec_pow16((w - 1) as nat)
    }
}

/// `n` written as `w` hex digits, most significant first.
pub open spec fn spec_hex_digits(n: int, w: nat) -> Seq<char>
    decreases w,
{
    if w == 0 {
        Seq::<char>::empty()
    } else {
        spec_hex_digits(n / 16, (w - 1) as nat) + seq![spec_hex_char(n % 16)]
    }
}

/// The value of a hex digit string, most significant first.
pub open spec fn spec_hex_parse(s: Seq<char>) -> int
    decreases s.len(),
{
    if s.len() == 0 {
        0
    } else {
        spec_hex_parse(s.drop_last()) * 16 + spec_hex_val(s.last())
    }
}

/// Powers of sixteen are positive.
proof fn lemma_pow16_pos(w: nat)
    ensures
        spec_pow16(w) >= 1,
    decreases w,
{
    if w > 0 {
        lemma_pow16_pos((w - 1) as nat);
    }
}

/// Powers of sixteen are monotone.
proof fn lemma_pow16_mono(a: nat, b: nat)
    requires
        a <= b,
    ensures
        spec_pow16(a) <= spec_pow16(b),
    decreases b,
{
    if a < b {
        lemma_pow16_mono(a, (b - 1) as nat);
        lemma_pow16_pos((b - 1) as nat);
    }
}

/// The concrete small powers of sixteen used by the codec.
proof fn lemma_pow16_values()
    ensures
        spec_pow16(7) == 0x1000_0000,
        spec_pow16(8) == 0x1_0000_0000,
{
    assert(spec_pow16(0) == 1);
    assert(spec_pow16(1) == 16);
    assert(spec_pow16(2) == 0x100);
    assert(spec_pow16(3) == 0x1000);
    assert(spec_pow16(4) == 0x1_0000);
    assert(spec_pow16(5) == 0x10_0000);
    assert(spec_pow16(6) == 0x100_0000);
    assert(spec_pow16(7) == 0x1000_0000);
    assert(spec_pow16(8) == 0x1_0000_0000);
}

/// Encoding then parsing a digit gives the digit back.
proof fn lemma_hex_char_val(d: int)
    requires
        0 <= d < 16,
    ensures
        spec_hex_val(spec_hex_char(d)) == d,
{
}

/// Every character of an encoded number is a hex digit, and the encoding
/// has exactly `w` characters.
proof fn lemma_hex_digits_shape(n: int, w: nat)
    requires
        n >= 0,
    ensures
        spec_hex_digits(n, w).len() == w,
        forall|k: int| 0 <= k < w ==> spec_is_hex(#[trigger] spec_hex_digits(n, w)[k]),
    decreases w,
{
    if w > 0 {
        lemma_hex_digits_shape(n / 16, (w - 1) as nat);
        lemma_hex_char_val(n % 16);
        let s = spec_hex_digits(n, w);
        let rest = spec_hex_digits(n / 16, (w - 1) as nat);
        assert forall|k: int| 0 <= k < w implies spec_is_hex(#[trigger] s[k]) by {
            if k < w - 1 {
                assert(s[k] == rest[k]);
            } else {
                assert(s[k] == spec_hex_char(n % 16));
            }
        }
    }
}

/// Parsing inverts encoding for values that fit in `w` digits.
proof fn lemma_hex_round_trip(n: int, w: nat)
    requires
        0 <= n < spec_pow16(w),
    ensures
        spec_hex_parse(spec_hex_digits(n, w)) == n,
    decreases w,
{
    if w == 0 {
    } else {
        let rest = spec_hex_digits(n / 16, (w - 1) as nat);
        lemma_fundamental_div_mod(n, 16);
        lemma_hex_digits_shape(n / 16, (w - 1) as nat);
        lemma_hex_round_trip(n / 16, (w - 1) as nat);
        lemma_hex_char_val(n % 16);
        assert(spec_hex_digits(n, w).drop_last() =~= rest);
        assert(spec_hex_digits(n, w).last() == spec_hex_char(n % 16));
    }
}

/// A parsed all-hex digit string is bounded by sixteen to its length.
proof fn lemma_hex_parse_bound(s: Seq<char>)
    requires
        forall|k: int| 0 <= k < s.len() ==> spec_is_hex(#[trigger] s[k]),
    ensures
        0 <= spec_hex_parse(s) < spec_pow16(s.len()),
    decreases s.len(),
{
    if s.len() > 0 {
        lemma_hex_parse_bound(s.drop_last());
        assert(spec_hex_val(s.last()) >= 0);
    }
}

/// The literal tag opening the position field.
pub open spec fn spec_pos_tag() -> Seq<char> {
    seq!['p', 'o', 's', '=']
}

/// The literal tag separating the fields.
pub open spec fn spec_sep_tag() -> Seq<char> {
    seq![';', 's', 'i', 'z', 'e', '=']
}

/// The literal word standing for an absent field.
pub open spec fn spec_none_tag() -> Seq<char> {
    seq!['n', 'o', 'n', 'e']
}

/// Whether `pat` occurs in `s` at offset `i`.
pub open spec fn spec_match_at(s: Seq<char>, i: int, pat: Seq<char>) -> bool {
    &&& 0 <= i
    &&& i + pat.len() <= s.len()
    &&& forall|k: int| 0 <= k < pat.len() ==> s[i + k] == pat[k]
}

/// Whether eight hex digits occur in `s` at offset `i`.
pub open spec fn spec_hex8_at(s: Seq<char>, i: int) -> bool {
    &&& 0 <= i
    &&& i + 8 <= s.len()
    &&& forall|k: int| i <= k < i + 8 ==> spec_is_hex(#[trigger] s[k])
}

/// The position field as raw 32-bit words.
pub open spec fn spec_pos_bits(p: Option<(i32, i32)>) -> Option<(u32, u32)> {
    match p {
        Some((x, y)) => Some((x as u32, y as u32)),
        None => None::<(u32, u32)>,
    }
}

/// An optional pair of 32-bit words: `none`, or sixteen hex digits.
pub open spec fn spec_encode_pair(p: Option<(u32, u32)>) -> Seq<char> {
    match p {
        None => spec_none_tag(),
        Some((a, b)) => spec_hex_digits(a as int, 8) + spec_hex_digits(b as int, 8),
    }
}

/// The full window-geometry record.
pub open spec fn spec_encode_settings(ws: WindowSettings) -> Seq<char> {
    spec_pos_tag() + spec_encode_pair(spec_pos_bits(ws.pos)) + spec_sep_tag() + spec_encode_pair(
        ws.size,
    )
}

/// Parses an optional pair at offset `i`: the word `none`, or sixteen hex
/// digits; yields the value and the offset after it.
pub open spec fn spec_parse_pair_at(s: Seq<char>, i: int) -> Option<(Option<(u32, u32)>, int)> {
    if spec_match_at(s, i, spec_none_tag()) {
        Some((None::<(u32, u32)>, i + 4))
    } else if spec_hex8_at(s, i) && spec_hex8_at(s, i + 8) {
        Some(
            (
                Some(
                    (
                        spec_hex_parse(s.subrange(i, i + 8)) as u32,
                        spec_hex_parse(s.subrange(i + 8, i + 16)) as u32,
                    ),
                ),
                i + 16,
            ),
        )
    } else {
        None::<(Option<(u32, u32)>, int)>
    }
}

/// Decodes a window-geometry record; `None` for anything the encoder could
/// not have produced.
pub open spec fn spec_decode_settings(s: Seq<char>) -> Option<WindowSettings> {
    if !spec_match_at(s, 0, spec_pos_tag()) {
        None::<WindowSettings>
    } else {
        match spec_parse_pair_at(s, 4) {
            None => None::<WindowSettings>,
            Some((pos_bits, i)) => if !spec_match_at(s, i, spec_sep_tag()) {
                None::<WindowSettings>
            } else {
                match spec_parse_pair_at(s, i + 6) {
                    None => None::<WindowSettings>,
                    Some((size, j)) => if j == s.len() {
                        Some(
                            (WindowSettings {
                                pos: match pos_bits {
                                    Some((a, b)) => Some((a as i32, b as i32)),
                                    None => None::<(i32, i32)>,
                                },
                                size,
                            }),
                        )
                    } else {
                        None::<WindowSettings>
                    },
                }
            },
        }
    }
}

/// One lowercase hex digit as a string slice.
fn hex_char_str(d: u32) -> (r: &'static str)
    requires
        d < 16,
    ensures
        r@ == seq![spec_hex_char(d as int)],
{
    let r: &'static str = match d {
        0 => "0",
        1 => "1",
        2 => "2",
        3 => "3",
        4 => "4",
        5 => "5",
        6 => "6",
        7 => "7",
        8 => "8",
        9 => "9",
        10 => "a",
        11 => "b",
        12 => "c",
        13 => "d",
        14 => "e",
        _ => "f",
    };
    proof {
        reveal_strlit("0");
        reveal_strlit("1");
        reveal_strlit("2");
        reveal_strlit("3");
        reveal_strlit("4");
        reveal_strlit("5");
        reveal_strlit("6");
        reveal_strlit("7");
        reveal_strlit("8");
        reveal_strlit("9");
        reveal_strlit("a");
        reveal_strlit("b");
        reveal_strlit("c");
        reveal_strlit("d");
        reveal_strlit("e");
        reveal_strlit("f");
        assert(r@ =~= seq![spec_hex_char(d as int)]);
    }
    r
}

/// The value of one character as a hex digit; 16 for a non-digit.
fn hex_val_of(c: char) -> (r: u32)
    ensures
        r == spec_hex_val(c),
{
    match c {
        '0' => 0,
        '1' => 1,
        '2' => 2,
        '3' => 3,
        '4' => 4,
        '5' => 5,
        '6' => 6,
        '7' => 7,
        '8' => 8,
        '9' => 9,
        'a' => 10,
        'b' => 11,
        'c' => 12,
        'd' => 13,
        'e' => 14,
        'f' => 15,
        _ => 16,
    }
}

/// Appends the eight-digit hex form of `n`.
fn push_hex8(out: &mut String, n: u32)
    ensures
        final(out)@ == old(out)@ + spec_hex_digits(n as int, 8),
{
    let q1 = n / 16;
    let q2 = q1 / 16;
    let q3 = q2 / 16;
    let q4 = q3 / 16;
    let q5 = q4 / 16;
    let q6 = q5 / 16;
    let q7 = q6 / 16;
    out.append(hex_char_str(q7 % 16));
    out.append(hex_char_str(q6 % 16));
    out.append(hex_char_str(q5 % 16));
    out.append(hex_char_str(q4 % 16));
    out.append(hex_char_str(q3 % 16));
    out.append(hex_char_str(q2 % 16));
    out.append(hex_char_str(q1 % 16));
    out.append(hex_char_str(n % 16));
    proof {
        assert(spec_hex_digits(q7 as int / 16, 0) =~= Seq::<char>::empty());
        assert(spec_hex_digits(q7 as int, 1) =~= seq![spec_hex_char(q7 as int % 16)]);
        assert(spec_hex_digits(q6 as int, 2) =~= spec_hex_digits(q7 as int, 1) + seq![
            spec_hex_char(q6 as int % 16),
        ]);
        assert(spec_hex_digits(q5 as int, 3) =~= spec_hex_digits(q6 as int, 2) + seq![
            spec_hex_char(q5 as int % 16),
        ]);
        assert(spec_hex_digits(q4 as int, 4) =~= spec_hex_digits(q5 as int, 3) + seq![
            spec_hex_char(q4 as int % 16),
        ]);
        assert(spec_hex_digits(q3 as int, 5) =~= spec_hex_digits(q4 as int, 4) + seq![
            spec_hex_char(q3 as int % 16),
        ]);
        assert(spec_hex_digits(q2 as int, 6) =~= spec_hex_digits(q3 as int, 5) + seq![
            spec_hex_char(q2 as int % 16),
        ]);
        assert(spec_hex_digits(q1 as int, 7) =~= spec_hex_digits(q2 as int, 6) + seq![
            spec_hex_char(q1 as int % 16),
        ]);
        assert(spec_hex_digits(n as int, 8) =~= spec_hex_digits(q1 as int, 7) + seq![
            spec_hex_char(n as int % 16),
        ]);
        assert(final(out)@ =~= old(out)@ + spec_hex_digits(n as int, 8));
    }
}

impl WindowSettings {
    /// Serializes the window geometry as the persistence record.
    pub fn to_record(&self) -> (r: String)
        ensures
            r@ == spec_encode_settings(*self),
    {
        let mut out = String::new();
        out.append("pos=");
        proof {
            reveal_strlit("pos=");
            assert("pos="@ =~= spec_pos_tag());
        }
        match self.pos {
            None => {
                out.append("none");
                proof {
                    reveal_strlit("none");
                    assert("none"@ =~= spec_none_tag());
                }
            },
            Some((x, y)) => {
                push_hex8(&mut out, x as u32);
                push_hex8(&mut out, y as u32);
            },
        }
        out.append(";size=");
        proof {
            reveal_strlit(";size=");
            assert(";size="@ =~= spec_sep_tag());
        }
        match self.size {
            None => {
                out.append("none");
                proof {
                    reveal_strlit("none");
                    assert("none"@ =~= spec_none_tag());
                }
            },
            Some((w, h)) => {
                push_hex8(&mut out, w);
                push_hex8(&mut out, h);
            },
        }
        proof {
            assert(out@ =~= spec_encode_settings(*self));
        }
        out
    }

    /// Parses a persistence record; `None` for anything [`Self::to_record`]
    /// could not have produced (a missing or damaged record falls back to
    /// defaults).
    pub fn from_record(s: &str) -> (r: Option<WindowSettings>)
        ensures
            r == spec_decode_settings(s@),
    {
        let n = s.unicode_len();
        if !match_tag(s, 0, TAG_POS) {
            return None;
        }
        let (pos_bits, i) = match parse_pair_at(s, 4) {
            Some(p) => p,
            None => {
                return None;
            },
        };
        if !match_tag(s, i, TAG_SEP) {
            return None;
        }
        let (size, j) = match parse_pair_at(s, i + 6) {
            Some(p) => p,
            None => {
                return None;
            },
        };
        if j != n {
            return None;
        }
        let pos = match pos_bits {
            Some((a, b)) => Some((a as i32, b as i32)),
            None => None,
        };
        Some(WindowSettings { pos, size })
    }
}

/// Selects the `pos=` tag in [`match_tag`].
const TAG_POS: u8 = 0;

/// Selects the `;size=` tag in [`match_tag`].
const TAG_SEP: u8 = 1;

/// The tag characters selected by `tag`.
pub open spec fn spec_tag_chars(tag: u8) -> Seq<char> {
    if tag == 0 {
        spec_pos_tag()
    } else {
        spec_sep_tag()
    }
}

/// Whether the selected tag occurs at offset `i`.
fn match_tag(s: &str, i: usize, tag: u8) -> (r: bool)
    ensures
        r == spec_match_at(s@, i as int, spec_tag_chars(tag)),
{
    let n = s.unicode_len();
    if tag == 0 {
        if n < 4 || i > n - 4 {
            return false;
        }
        let ok = s.get_char(i) == 'p' && s.get_char(i + 1) == 'o' && s.get_char(i + 2) == 's'
            && s.get_char(i + 3) == '=';
        proof {
            let pat = spec_pos_tag();
            if ok {
                assert forall|k: int| 0 <= k < pat.len() implies s@[i + k] == pat[k] by {
                    if k == 0 {
                    } else if k == 1 {
                    } else if k == 2 {
                    } else {
                        assert(k == 3);
                    }
                }
            } else {
                if spec_match_at(s@, i as int, pat) {
                    assert(s@[i as int + 0] == pat[0]);
                    assert(s@[i as int + 1] == pat[1]);
                    assert(s@[i as int + 2] == pat[2]);
                    assert(s@[i as int + 3] == pat[3]);
                }
            }
        }
        ok
    } else {
        if n < 6 || i > n - 6 {
            return false;
        }
        let ok = s.get_char(i) == ';' && s.get_char(i + 1) == 's' && s.get_char(i + 2) == 'i'
            && s.get_char(i + 3) == 'z' && s.get_char(i + 4) == 'e' && s.get_char(i + 5) == '=';
        proof {
            let pat = spec_sep_tag();
            if ok {
                assert forall|k: int| 0 <= k < pat.len() implies s@[i + k] == pat[k] by {
                    if k == 0 {
                    } else if k == 1 {
                    } else if k == 2 {
                    } else if k == 3 {
                    } else if k == 4 {
                    } else {
                        assert(k == 5);
                    }
                }
            } else {
                if spec_match_at(s@, i as int, pat) {
                    assert(s@[i as int + 0] == pat[0]);
                    assert(s@[i as int + 1] == pat[1]);
                    assert(s@[i as int + 2] == pat[2]);
                    assert(s@[i as int + 3] == pat[3]);
                    assert(s@[i as int + 4] == pat[4]);
                    assert(s@[i as int + 5] == pat[5]);
                }
            }
        }
        ok
    }
}

/// Whether the word `none` occurs at offset `i`.
fn match_none(s: &str, i: usize) -> (r: bool)
    ensures
        r == spec_match_at(s@, i as int, spec_none_tag()),
{
    let n = s.unicode_len();
    if n < 4 || i > n - 4 {
        return false;
    }
    let ok = s.get_char(i) == 'n' && s.get_char(i + 1) == 'o' && s.get_char(i + 2) == 'n'
        && s.get_char(i + 3) == 'e';
    proof {
        let pat = spec_none_tag();
        if ok {
            assert forall|k: int| 0 <= k < pat.len() implies s@[i + k] == pat[k] by {
                if k == 0 {
                } else if k == 1 {
                } else if k == 2 {
                } else {
                    assert(k == 3);
                }
            }
        } else {
            if spec_match_at(s@, i as int, pat) {
                assert(s@[i as int + 0] == pat[0]);
                assert(s@[i as int + 1] == pat[1]);
                assert(s@[i as int + 2] == pat[2]);
                assert(s@[i as int + 3] == pat[3]);
            }
        }
    }
    ok
}

/// Parses eight hex digits at offset `i`; `None` when any character is not
/// a hex digit.
fn parse_hex8(s: &str, i: usize) -> (r: Option<u32>)
    requires
        i + 8 <= s@.len() <= usize::MAX,
    ensures
        r is Some <==> spec_hex8_at(s@, i as int),
        r is Some ==> r->Some_0 == spec_hex_parse(s@.subrange(i as int, i as int + 8)),
{
    let mut val: u32 = 0;
    let mut k: usize = 0;
    while k < 8
        invariant
            k <= 8,
            i + 8 <= s@.len() <= usize::MAX,
            forall|j: int| i <= j < i + k ==> spec_is_hex(#[trigger] s@[j]),
            val == spec_hex_parse(s@.subrange(i as int, i as int + k as int)),
            val < spec_pow16(k as nat),
        decreases 8 - k,
    {
        let c = s.get_char(i + k);
        let v = hex_val_of(c);
        if v >= 16 {
            proof {
                assert(!spec_is_hex(s@[i as int + k as int]));
            }
            return None;
        }
        proof {
            lemma_pow16_mono(k as nat, 7);
            lemma_pow16_values();
            let pre = s@.subrange(i as int, i as int + k as int);
            let post = s@.subrange(i as int, i as int + k as int + 1);
            assert(post.drop_last() =~= pre);
            assert(post.last() == s@[i as int + k as int]);
        }
        val = val * 16 + v;
        k = k + 1;
        proof {
            assert forall|j: int| i <= j < i + k implies spec_is_hex(#[trigger] s@[j]) by {
                if j < i + k - 1 {
                } else {
                    assert(s@[j] == c);
                }
            }
        }
    }
    proof {
        assert(spec_hex8_at(s@, i as int));
    }
    Some(val)
}

/// Parses an optional pair at offset `i`: the word `none` or sixteen hex
/// digits, together with the offset after the field.
fn parse_pair_at(s: &str, i: usize) -> (r: Option<(Option<(u32, u32)>, usize)>)
    ensures
        match r {
            Some((p, j)) => spec_parse_pair_at(s@, i as int) == Some((p, j as int)),
            None => spec_parse_pair_at(s@, i as int) is None,
        },
{
    let n = s.unicode_len();
    if match_none(s, i) {
        return Some((None, i + 4));
    }
    if n < 16 || i > n - 16 {
        proof {
            assert(!spec_hex8_at(s@, i as int + 8));
        }
        return None;
    }
    let a = match parse_hex8(s, i) {
        Some(a) => a,
        None => {
            return None;
        },
    };
    let b = match parse_hex8(s, i + 8) {
        Some(b) => b,
        None => {
            return None;
        },
    };
    proof {
        assert(s@.subrange(i as int + 8, i as int + 8 + 8) =~= s@.subrange(
            i as int + 8,
            i as int + 16,
        ));
    }
    Some((Some((a, b)), i + 16))
}

/// Casting a 32-bit word to signed and back is the identity.
proof fn lemma_bits_round_trip(x: i32, u: u32)
    ensures
        (x as u32) as i32 == x,
        (u as i32) as u32 == u,
{
    assert((x as u32) as i32 == x) by (bit_vector);
    assert((u as i32) as u32 == u) by (bit_vector);
}

/// A hex field is never mistaken for the word `none`.
proof fn lemma_hex_not_none(s: Seq<char>, i: int)
    requires
        spec_hex8_at(s, i),
    ensures
        !spec_match_at(s, i, spec_none_tag()),
{
    if spec_match_at(s, i, spec_none_tag()) {
        assert(s[i] == 'n');
        assert(spec_is_hex(s[i]));
    }
}

/// Parsing an encoded pair at its offset yields the pair back and steps to
/// the offset after it.
proof fn lemma_parse_pair_of_encoding(s: Seq<char>, i: int, p: Option<(u32, u32)>)
    requires
        0 <= i,
        i + spec_encode_pair(p).len() <= s.len(),
        forall|k: int| 0 <= k < spec_encode_pair(p).len() ==> s[i + k] == spec_encode_pair(p)[k],
    ensures
        spec_parse_pair_at(s, i) == Some((p, i + spec_encode_pair(p).len())),
{
    match p {
        None => {
            assert(spec_match_at(s, i, spec_none_tag()));
        },
        Some((a, b)) => {
            let da = spec_hex_digits(a as int, 8);
            let db = spec_hex_digits(b as int, 8);
            lemma_hex_digits_shape(a as int, 8);
            lemma_hex_digits_shape(b as int, 8);
            assert forall|k: int| i <= k < i + 8 implies spec_is_hex(#[trigger] s[k]) by {
                assert(s[k] == spec_encode_pair(p)[k - i]);
                assert(spec_encode_pair(p)[k - i] == da[k - i]);
            }
            assert forall|k: int| i + 8 <= k < i + 16 implies spec_is_hex(#[trigger] s[k]) by {
                assert(s[k] == spec_encode_pair(p)[k - i]);
                assert(spec_encode_pair(p)[k - i] == db[k - i - 8]);
            }
            assert(spec_hex8_at(s, i));
            assert(spec_hex8_at(s, i + 8));
            lemma_hex_not_none(s, i);
            assert forall|k: int| 0 <= k < 8 implies s.subrange(i, i + 8)[k] == da[k] by {
                assert(s[i + k] == spec_encode_pair(p)[k]);
                assert(spec_encode_pair(p)[k] == da[k]);
            }
            assert(s.subrange(i, i + 8) =~= da);
            assert forall|k: int| 0 <= k < 8 implies s.subrange(i + 8, i + 16)[k] == db[k] by {
                assert(s[i + 8 + k] == spec_encode_pair(p)[8 + k]);
                assert(spec_encode_pair(p)[8 + k] == db[k]);
            }
            assert(s.subrange(i + 8, i + 16) =~= db);
            lemma_pow16_values();
            lemma_hex_round_trip(a as int, 8);
            lemma_hex_round_trip(b as int, 8);
        },
    }
}

/// Decoding inverts encoding: a captured window-geometry record, serialized
/// and reloaded, reproduces the same position and size.
pub proof fn lemma_settings_round_trip(ws: WindowSettings)
    ensures
        spec_decode_settings(spec_encode_settings(ws)) == Some(ws),
{
    let s = spec_encode_settings(ws);
    let e1 = spec_encode_pair(spec_pos_bits(ws.pos));
    let e2 = spec_encode_pair(ws.size);
    let i1 = 4 + e1.len() as int;
    assert(spec_match_at(s, 0, spec_pos_tag()));
    assert forall|k: int| 0 <= k < e1.len() implies s[4 + k] == e1[k] by {
        assert(s[4 + k] == (spec_pos_tag() + e1)[4 + k]);
    }
    lemma_parse_pair_of_encoding(s, 4, spec_pos_bits(ws.pos));
    assert(spec_match_at(s, i1, spec_sep_tag()));
    assert forall|k: int| 0 <= k < e2.len() implies s[i1 + 6 + k] == e2[k] by {
    }
    lemma_parse_pair_of_encoding(s, i1 + 6, ws.size);
    assert(i1 + 6 + e2.len() == s.len());
    match ws.pos {
        Some((x, y)) => {
            lemma_bits_round_trip(x, 0);
            lemma_bits_round_trip(y, 0);
        },
        None => {
        },
    }
}

} // verus!
