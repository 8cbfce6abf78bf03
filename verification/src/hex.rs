//! Exact encoded sRGB8 triples and their `#RRGGBB` text form.
use vstd::prelude::*;
use vstd::string::*;

verus! {

/// One encoded sRGB8 colour: three exact channel bytes.
#[derive(Debug, Clone, Copy, PartialEq, Eq, PartialOrd, Ord, Hash, Structural)]
pub struct Srgb8 {
    pub r: u8,
    pub g: u8,
    pub b: u8,
}

/// Value of one hexadecimal digit, either case.
pub open spec fn hex_digit_value(c: char) -> Option<u8> {
    if '0' <= c && c <= '9' {
        Some((c as u32 - '0' as u32) as u8)
    } else if 'a' <= c && c <= 'f' {
        Some((c as u32 - 'a' as u32 + 10) as u8)
    } else if 'A' <= c && c <= 'F' {
        Some((c as u32 - 'A' as u32 + 10) as u8)
    } else {
        None
    }
}

/// Upper-case hexadecimal digit of a nibble.
pub open spec fn hex_digit_char(n: u8) -> char {
    if n < 10 {
        ((n + '0' as u32) as u32) as char
    } else {
        ((n - 10 + 'A' as u32) as u32) as char
    }
}

/// The six digits of a hex colour: the text after an optional leading `#`.
pub open spec fn hex_body(s: Seq<char>) -> Seq<char> {
    if s.len() == 7 && s[0] == '#' {
        s.subrange(1, 7)
    } else {
        s
    }
}

/// Byte written by the two hex digits at `i` and `i + 1`.
pub open spec fn hex_pair(d: Seq<char>, i: int) -> u8 {
    (hex_digit_value(d[i]).unwrap() * 16 + hex_digit_value(d[i + 1]).unwrap()) as u8
}

/// The colour a hex text denotes: an optional `#` and exactly six
/// hexadecimal digits of either case; any other text denotes none.
pub open spec fn parse_hex_spec(s: Seq<char>) -> Option<Srgb8> {
    let d = hex_body(s);
    if d.len() == 6 && forall|i: int| 0 <= i < 6 ==> (#[trigger] hex_digit_value(d[i])).is_some() {
        Some(Srgb8 { r: hex_pair(d, 0), g: hex_pair(d, 2), b: hex_pair(d, 4) })
    } else {
        None
    }
}

/// Canonical text of a colour: `#` and six upper-case digits.
pub open spec fn hex_text(c: Srgb8) -> Seq<char> {
    seq![
        '#',
        hex_digit_char(c.r / 16),
        hex_digit_char(c.r % 16),
        hex_digit_char(c.g / 16),
        hex_digit_char(c.g % 16),
        hex_digit_char(c.b / 16),
        hex_digit_char(c.b % 16),
    ]
}

/// Whether two texts are equal.
pub fn str_eq(a: &str, b: &str) -> (equal: bool)
    ensures
        equal == (a@ == b@),
{
    let n = a.unicode_len();
    if n != b.unicode_len() {
        return false;
    }
    let mut i: usize = 0;
    while i < n
        invariant
            n == a@.len(),
            n == b@.len(),
            0 <= i <= n,
            forall|j: int| 0 <= j < i ==> a@[j] == b@[j],
        decreases n - i,
    {
        if a.get_char(i) != b.get_char(i) {
            return false;
        }
        i += 1;
    }
    assert(a@ =~= b@);
    true
}

fn digit_value(c: char) -> (value: Option<u8>)
    ensures
        value == hex_digit_value(c),
{
    if '0' <= c && c <= '9' {
        Some((c as u32 - '0' as u32) as u8)
    } else if 'a' <= c && c <= 'f' {
        Some((c as u32 - 'a' as u32 + 10) as u8)
    } else if 'A' <= c && c <= 'F' {
        Some((c as u32 - 'A' as u32 + 10) as u8)
    } else {
        None
    }
}

pub(crate) fn digit_text(n: u8) -> (text: &'static str)
    requires
        n < 16,
    ensures
        text@ == seq![hex_digit_char(n)],
{
    let text = match n {
        0 => "0",
        1 => "1",
        2 => "2",
        3 => "3",
        4 => "4",
        5 => "5",
        6 => "6",
        7 => "7",
        8 => "8",
        9 => "9",
        10 => "A",
        11 => "B",
        12 => "C",
        13 => "D",
        14 => "E",
        _ => "F",
    };
    proof {
        reveal_strlit("0");
        reveal_strlit("1");
        reveal_strlit("2");
        reveal_strlit("3");
        reveal_strlit("4");
        reveal_strlit("5");
        reveal_strlit("6");
        reveal_strlit("7");
        reveal_strlit("8");
        reveal_strlit("9");
        reveal_strlit("A");
        reveal_strlit("B");
        reveal_strlit("C");
        reveal_strlit("D");
        reveal_strlit("E");
        reveal_strlit("F");
        assert(text@ =~= seq![hex_digit_char(n)]);
    }
    text
}

impl Srgb8 {
    /// The colour with channels `[r, g, b]`.
    pub fn new(bytes: [u8; 3]) -> (color: Self)
        ensures
            color == (Srgb8 { r: bytes@[0], g: bytes@[1], b: bytes@[2] }),
    {
        Srgb8 { r: bytes[0], g: bytes[1], b: bytes[2] }
    }

    /// Channels as `[r, g, b]`.
    pub fn bytes(self) -> (bytes: [u8; 3])
        ensures
            bytes@ == seq![self.r, self.g, self.b],
    {
        let bytes = [self.r, self.g, self.b];
        assert(bytes@ =~= seq![self.r, self.g, self.b]);
        bytes
    }

    /// Canonical `#RRGGBB` text with upper-case digits.
    pub fn to_hex(self) -> (text: String)
        ensures
            text@ == hex_text(self),
    {
        let mut text = String::from_str("#");
        proof {
            reveal_strlit("#");
        }
        text.append(digit_text(self.r / 16));
        text.append(digit_text(self.r % 16));
        text.append(digit_text(self.g / 16));
        text.append(digit_text(self.g % 16));
        text.append(digit_text(self.b / 16));
        text.append(digit_text(self.b % 16));
        assert(text@ =~= hex_text(self));
        text
    }

    /// Parses `#RRGGBB` or `RRGGBB`, digits of either case; `None` for any
    /// other text.
    pub fn parse_hex(text: &str) -> (color: Option<Self>)
        ensures
            color == parse_hex_spec(text@),
    {
        let n = text.unicode_len();
        let start: usize = if n == 7 && text.get_char(0) == '#' {
            1
        } else {
            0
        };
        if n - start != 6 {
            return None;
        }
        let ghost d = hex_body(text@);
        assert(d =~= text@.subrange(start as int, n as int));
        let mut values: [u8; 6] = [0; 6];
        let mut i: usize = 0;
        while i < 6
            invariant
                n == text@.len(),
                d == text@.subrange(start as int, n as int),
                n - start == 6,
                0 <= i <= 6,
                forall|j: int| 0 <= j < i ==> hex_digit_value(#[trigger] d[j]) == Some(values@[j]),
            decreases 6 - i,
        {
            match digit_value(text.get_char(start + i)) {
                Some(v) => {
                    values[i] = v;
                },
                None => {
                    assert(hex_digit_value(d[i as int]).is_none());
                    return None;
                },
            }
            i += 1;
        }
        let color = Srgb8 {
            r: values[0] * 16 + values[1],
            g: values[2] * 16 + values[3],
            b: values[4] * 16 + values[5],
        };
        assert(forall|i: int| 0 <= i < 6 ==> (#[trigger] hex_digit_value(d[i])).is_some());
        Some(color)
    }
}

proof fn lemma_digit_round_trip(n: u8)
    requires
        n < 16,
    ensures
        hex_digit_value(hex_digit_char(n)) == Some(n),
{
}

/// The canonical text of a colour parses back to that colour.
pub proof fn lemma_hex_text_parses_back(color: Srgb8)
    ensures
        parse_hex_spec(hex_text(color)) == Some(color),
{
    let t = hex_text(color);
    let d = hex_body(t);
    assert(d =~= t.subrange(1, 7));
    lemma_digit_round_trip(color.r / 16);
    lemma_digit_round_trip(color.r % 16);
    lemma_digit_round_trip(color.g / 16);
    lemma_digit_round_trip(color.g % 16);
    lemma_digit_round_trip(color.b / 16);
    lemma_digit_round_trip(color.b % 16);
    assert(forall|i: int| 0 <= i < 6 ==> (#[trigger] hex_digit_value(d[i])).is_some());
}

/// Decimal text of a natural number, most significant digit first, without
/// leading zeros.
pub open spec fn decimal_text(n: nat) -> Seq<char>
    decreases n,
{
    if n < 10 {
        seq![hex_digit_char(n as u8)]
    } else {
        decimal_text(n / 10) + seq![hex_digit_char((n % 10) as u8)]
    }
}

/// Appends the decimal text of `n`.
pub fn append_decimal(out: &mut String, n: u64)
    ensures
        final(out)@ == old(out)@ + decimal_text(n as nat),
    decreases n,
{
    if n >= 10 {
        append_decimal(out, n / 10);
    }
    out.append(digit_text((n % 10) as u8));
    proof {
        if n < 10 {
            assert(old(out)@ + decimal_text(n as nat) =~= old(out)@ + seq![hex_digit_char((n % 10) as u8)]);
        } else {
            assert(old(out)@ + decimal_text(n as nat) =~= old(out)@ + decimal_text((n / 10) as nat) + seq![
                hex_digit_char((n % 10) as u8),
            ]);
        }
    }
}

} // verus!
