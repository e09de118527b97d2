//! The textual forms of input that callers hand over: `code:state` key presses
//! and click bytes.

use vstd::prelude::*;

verus! {

/// The value of `c` as a digit in base `radix` (10 or 16), if it is one.
pub open spec fn digit_value(c: char, radix: u32) -> Option<nat> {
    if '0' <= c && c <= '9' && (c as nat) - ('0' as nat) < radix {
        Some(((c as nat) - ('0' as nat)) as nat)
    } else if radix == 16 && 'a' <= c && c <= 'f' {
        Some(((c as nat) - ('a' as nat) + 10) as nat)
    } else if radix == 16 && 'A' <= c && c <= 'F' {
        Some(((c as nat) - ('A' as nat) + 10) as nat)
    } else {
        None
    }
}

/// The value of a string of digits in base `radix`; `None` if any is no digit.
pub open spec fn digits_value(s: Seq<char>, radix: u32) -> Option<nat>
    decreases s.len(),
{
    if s.len() == 0 {
        Some(0)
    } else {
        match (digits_value(s.drop_last(), radix), digit_value(s.last(), radix)) {
            (Some(v), Some(d)) => Some((v * radix + d) as nat),
            _ => None,
        }
    }
}

/// An unsigned number in base `radix` that is at most `max`: an optional `+`,
/// then at least one digit.
pub open spec fn unsigned_of(s: Seq<char>, radix: u32, max: u32) -> Option<nat> {
    let body = if s.len() > 0 && s[0] == '+' { s.drop_first() } else { s };
    if body.len() == 0 {
        None
    } else {
        match digits_value(body, radix) {
            Some(v) => if v <= max { Some(v) } else { None },
            None => None,
        }
    }
}

/// The position of the first `:` in `s`.
pub open spec fn colon_pos(s: Seq<char>) -> Option<int>
    decreases s.len(),
{
    if s.len() == 0 {
        None
    } else if s[0] == ':' {
        Some(0)
    } else {
        match colon_pos(s.drop_first()) {
            Some(p) => Some(p + 1),
            None => None,
        }
    }
}

/// The text of `s` up to its first `:`, or all of it.
pub open spec fn first_field(s: Seq<char>) -> Seq<char> {
    match colon_pos(s) {
        Some(p) => s.subrange(0, p),
        None => s,
    }
}

/// One key event given on the command line: a 0-based key code and 1 for a press
/// or 0 for a release.
#[derive(Clone, Copy, Debug, PartialEq, Eq, Structural)]
pub struct KeyPress {
    pub keycode: u32,
    pub pressed: u32,
}

#[derive(Clone, Copy, Debug, PartialEq, Eq, Structural)]
pub enum KeyPressError {
    /// The text before the first `:` is no decimal `u32`.
    InvalidKeycode,
    /// There is no `:`.
    MissingState,
    /// The text after the first `:`, up to the next one, is neither `0` nor `1`.
    InvalidState,
}

impl KeyPressError {
    pub fn message(&self) -> &'static str {
        match self {
            KeyPressError::InvalidKeycode => "Invalid keycode",
            KeyPressError::MissingState => "Missing pressed state",
            KeyPressError::InvalidState => "Pressed state must be 0 or 1",
        }
    }
}

/// What `code:state` means; fields after a second `:` are ignored.
pub open spec fn keypress_of(s: Seq<char>) -> Result<KeyPress, KeyPressError> {
    match unsigned_of(first_field(s), 10, u32::MAX) {
        None => Err(KeyPressError::InvalidKeycode),
        Some(code) => match colon_pos(s) {
            None => Err(KeyPressError::MissingState),
            Some(p) => {
                let st = first_field(s.subrange(p + 1, s.len() as int));
                if st == seq!['0'] {
                    Ok(KeyPress { keycode: code as u32, pressed: 0 })
                } else if st == seq!['1'] {
                    Ok(KeyPress { keycode: code as u32, pressed: 1 })
                } else {
                    Err(KeyPressError::InvalidState)
                }
            },
        },
    }
}

proof fn lemma_colon_pos(s: Seq<char>)
    ensures
        match colon_pos(s) {
            Some(p) => 0 <= p < s.len() && s[p] == ':' && forall|j: int| 0 <= j < p ==> s[j] != ':',
            None => forall|j: int| 0 <= j < s.len() ==> s[j] != ':',
        },
    decreases s.len(),
{
    if s.len() > 0 {
        lemma_colon_pos(s.drop_first());
        if s[0] != ':' {
            assert forall|j: int| 1 <= j < s.len() implies s[j] == s.drop_first()[j - 1] by {}
        }
    }
}

proof fn lemma_colon_pos_unique(s: Seq<char>, p: int)
    requires
        0 <= p < s.len(),
        s[p] == ':',
        forall|j: int| 0 <= j < p ==> s[j] != ':',
    ensures
        colon_pos(s) == Some(p),
{
    lemma_colon_pos(s);
    match colon_pos(s) {
        Some(q) => {
            if q < p {
                assert(s[q] != ':');
            } else if q > p {
                assert(s[p] != ':');
            }
        },
        None => {
            assert(s[p] != ':');
        },
    }
}

/// The first position at or after `from` and before `to` that holds `:`, or `to`.
fn find_colon(s: &str, from: usize, to: usize) -> (r: usize)
    requires
        from <= to <= s@.len(),
    ensures
        from <= r <= to,
        r < to ==> s@[r as int] == ':',
        forall|j: int| from <= j < r ==> s@[j] != ':',
{
    let mut i = from;
    while i < to
        invariant
            from <= i <= to <= s@.len(),
            forall|j: int| from <= j < i ==> s@[j] != ':',
        decreases to - i,
    {
        if s.get_char(i) == ':' {
            return i;
        }
        i = i + 1;
    }
    i
}

/// The digit value of `c` in base `radix` (10 or 16).
fn digit(c: char, radix: u32) -> (r: Option<u32>)
    requires
        radix == 10 || radix == 16,
    ensures
        match digit_value(c, radix) {
            Some(d) => r == Some(d as u32),
            None => r is None,
        },
        r matches Some(d) ==> d < radix,
{
    if '0' <= c && c <= '9' {
        Some(c as u32 - '0' as u32)
    } else if radix == 16 && 'a' <= c && c <= 'f' {
        Some(c as u32 - 'a' as u32 + 10)
    } else if radix == 16 && 'A' <= c && c <= 'F' {
        Some(c as u32 - 'A' as u32 + 10)
    } else {
        None
    }
}

/// The unsigned number in base `radix` that the characters from `lo` to `hi` of
/// `s` spell, if it is at most `max`.
fn parse_unsigned(s: &str, lo: usize, hi: usize, radix: u32, max: u32) -> (r: Option<u32>)
    requires
        lo <= hi <= s@.len(),
        radix == 10 || radix == 16,
    ensures
        match unsigned_of(s@.subrange(lo as int, hi as int), radix, max) {
            Some(v) => r == Some(v as u32),
            None => r is None,
        },
{
    let ghost whole = s@.subrange(lo as int, hi as int);
    let mut start = lo;
    if lo < hi && s.get_char(lo) == '+' {
        start = lo + 1;
    }
    let ghost body = s@.subrange(start as int, hi as int);
    assert(body =~= (if whole.len() > 0 && whole[0] == '+' { whole.drop_first() } else { whole }));
    if start == hi {
        return None;
    }
    let mut acc: u64 = 0;
    let mut over = false;
    let mut i = start;
    assert(s@.subrange(start as int, start as int) =~= Seq::<char>::empty());
    while i < hi
        invariant
            lo <= start <= i <= hi <= s@.len(),
            radix == 10 || radix == 16,
            whole == s@.subrange(lo as int, hi as int),
            body == s@.subrange(start as int, hi as int),
            body.len() > 0,
            body == (if whole.len() > 0 && whole[0] == '+' { whole.drop_first() } else { whole }),
            acc <= max,
            match digits_value(s@.subrange(start as int, i as int), radix) {
                Some(v) => (v <= max ==> acc == v && !over) && (v > max ==> over),
                None => false,
            },
        decreases hi - i,
    {
        let ghost prefix = s@.subrange(start as int, i as int);
        let ghost next = s@.subrange(start as int, i + 1);
        assert(next.drop_last() =~= prefix);
        let c = s.get_char(i);
        match digit(c, radix) {
            None => {
                proof {
                    assert(next.last() == c);
                    assert(s@.subrange(start as int, hi as int).subrange(0, (i - start) as int + 1) =~= next);
                    lemma_digits_none_extends(s@.subrange(start as int, hi as int), (i - start) as int + 1, radix);
                }
                return None;
            },
            Some(d) => {
                let ghost v = digits_value(prefix, radix)->0;
                if !over {
                    let n = acc * (radix as u64) + d as u64;
                    if n > max as u64 {
                        over = true;
                    } else {
                        acc = n;
                    }
                } else {
                    assert(v * radix + d > max) by (nonlinear_arith)
                        requires v > max, radix >= 1, d >= 0;
                }
            },
        }
        i = i + 1;
    }
    assert(s@.subrange(start as int, hi as int) =~= body);
    if over {
        None
    } else {
        Some(acc as u32)
    }
}

/// A string of digits whose prefix holds a non-digit has no value.
proof fn lemma_digits_none_extends(s: Seq<char>, n: int, radix: u32)
    requires
        0 <= n <= s.len(),
        digits_value(s.subrange(0, n), radix) is None,
    ensures
        digits_value(s, radix) is None,
    decreases s.len() - n,
{
    if n < s.len() {
        assert(s.subrange(0, n + 1).drop_last() =~= s.subrange(0, n));
        lemma_digits_none_extends(s, n + 1, radix);
    } else {
        assert(s.subrange(0, n) =~= s);
    }
}

/// Reads `code:state`, as the key command takes it.
pub fn parse_keypress(s: &str) -> (r: Result<KeyPress, KeyPressError>)
    ensures
        r == keypress_of(s@),
{
    let len = s.unicode_len();
    let first_colon = find_colon(s, 0, len);
    proof {
        lemma_colon_pos(s@);
        if first_colon < len {
            lemma_colon_pos_unique(s@, first_colon as int);
        }
        assert(first_field(s@) =~= s@.subrange(0, first_colon as int));
    }
    let code = match parse_unsigned(s, 0, first_colon, 10, u32::MAX) {
        None => {
            return Err(KeyPressError::InvalidKeycode);
        },
        Some(c) => c,
    };
    if first_colon == len {
        return Err(KeyPressError::MissingState);
    }
    let next_colon = find_colon(s, first_colon + 1, len);
    let ghost rest = s@.subrange(first_colon + 1, len as int);
    proof {
        lemma_colon_pos(rest);
        if next_colon < len {
            lemma_colon_pos_unique(rest, next_colon - first_colon - 1);
        }
        assert(first_field(rest) =~= s@.subrange(first_colon + 1, next_colon as int));
        reveal_strlit("0");
    }
    if next_colon - first_colon == 2 && s.get_char(first_colon + 1) == '0' {
        assert(first_field(rest) =~= seq!['0']);
        Ok(KeyPress { keycode: code, pressed: 0 })
    } else if next_colon - first_colon == 2 && s.get_char(first_colon + 1) == '1' {
        assert(first_field(rest) =~= seq!['1']);
        Ok(KeyPress { keycode: code, pressed: 1 })
    } else {
        assert(first_field(rest) != seq!['0'] && first_field(rest) != seq!['1']) by {
            if next_colon - first_colon == 2 {
                assert(first_field(rest)[0] == s@[first_colon + 1]);
            } else {
                assert(first_field(rest).len() != 1);
            }
        }
        Err(KeyPressError::InvalidState)
    }
}

/// What a click argument means: `0x` or `0X` and hexadecimal digits, or decimal
/// digits, for a byte.
pub open spec fn button_of(s: Seq<char>) -> Option<nat> {
    if s.len() >= 2 && s[0] == '0' && (s[1] == 'x' || s[1] == 'X') {
        unsigned_of(s.subrange(2, s.len() as int), 16, 255)
    } else {
        unsigned_of(s, 10, 255)
    }
}

/// Reads one click argument.
pub fn parse_button(s: &str) -> (r: Option<u8>)
    ensures
        match button_of(s@) {
            Some(v) => r == Some(v as u8),
            None => r is None,
        },
{
    let len = s.unicode_len();
    let hex = len >= 2 && s.get_char(0) == '0' && (s.get_char(1) == 'x' || s.get_char(1) == 'X');
    let v = if hex {
        parse_unsigned(s, 2, len, 16, 255)
    } else {
        assert(s@.subrange(0, len as int) =~= s@);
        parse_unsigned(s, 0, len, 10, 255)
    };
    match v {
        Some(b) => Some(b as u8),
        None => None,
    }
}

/// Base of the pointer button codes (the left button).
pub const BUTTON_BASE: u32 = 0x110;

/// What one click byte asks for: the button in its low four bits, a press when
/// bit 6 is set, a release when bit 7 is set, and a pause after it when neither is.
#[derive(Clone, Copy, Debug, PartialEq, Eq, Structural)]
pub struct ClickAction {
    pub button: u32,
    pub press: bool,
    pub release: bool,
    pub pause_after: bool,
}

pub fn click_action(b: u8) -> (r: ClickAction)
    ensures
        r.button == BUTTON_BASE + b % 16,
        r.press == ((b / 64) % 2 == 1),
        r.release == (b >= 128),
        r.pause_after == (b < 64),
{
    let low = (b & 0x0f) as u32;
    assert(b & 0x0f == b % 16) by (bit_vector);
    assert(low < 16 ==> low | 0x110u32 == low + 0x110u32) by (bit_vector);
    let press = b & 0x40 != 0;
    let release = b & 0x80 != 0;
    let pause_after = b & 0xC0 == 0;
    assert((b & 0x40 != 0) == ((b / 64) % 2 == 1)) by (bit_vector);
    assert((b & 0x80 != 0) == (b >= 128)) by (bit_vector);
    assert((b & 0xC0 == 0) == (b < 64)) by (bit_vector);
    ClickAction { button: low | BUTTON_BASE, press, release, pause_after }
}

/// What three bytes read from a raw terminal ask to type.
#[derive(Clone, Copy, Debug, PartialEq, Eq, Structural)]
pub enum TerminalInput {
    /// A key given by its 0-based code, typed without Shift.
    Key(u32),
    /// The character of the first byte, to be looked up in the keymap.
    Char(char),
    /// An escape sequence with no key.
    Ignored,
}

/// The 0-based key code of the cursor-block escape sequence `ESC [ b`, for `b` from
/// `A` to `L`: Up, Down, Right, Left, End and Home; the others have none.
pub open spec fn cursor_key(b: u8) -> Option<u32> {
    if b == 65 {
        Some(103u32)
    } else if b == 66 {
        Some(108u32)
    } else if b == 67 {
        Some(106u32)
    } else if b == 68 {
        Some(105u32)
    } else if b == 70 {
        Some(107u32)
    } else if b == 72 {
        Some(102u32)
    } else {
        None
    }
}

/// Reads three bytes from a raw terminal: `ESC [` and a letter from `A` to `L` is a
/// cursor-block key (or nothing), anything else types its first byte.
pub fn decode_terminal_input(b0: u8, b1: u8, b2: u8) -> (r: TerminalInput)
    ensures
        r == (if b0 == 27 && b1 == 91 && 65 <= b2 <= 76 {
            match cursor_key(b2) {
                Some(k) => TerminalInput::Key(k),
                None => TerminalInput::Ignored,
            }
        } else {
            TerminalInput::Char(b0 as char)
        }),
{
    if b0 == 27 && b1 == 91 && 65 <= b2 && b2 <= 76 {
        if b2 == 65 {
            TerminalInput::Key(103)
        } else if b2 == 66 {
            TerminalInput::Key(108)
        } else if b2 == 67 {
            TerminalInput::Key(106)
        } else if b2 == 68 {
            TerminalInput::Key(105)
        } else if b2 == 70 {
            TerminalInput::Key(107)
        } else if b2 == 72 {
            TerminalInput::Key(102)
        } else {
            TerminalInput::Ignored
        }
    } else {
        TerminalInput::Char(b0 as char)
    }
}

} // verus!
