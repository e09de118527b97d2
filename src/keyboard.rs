//! The keyboard's character table: what the key codes 8 to 255 of the keymap
//! produce without and with Shift, and the reverse lookup from a character to a
//! key. The modifier state itself is xkbcommon's; it reaches this library as a
//! serialized snapshot.
//!
//! Key codes of the keymap are 8-based; every code that leaves this module toward
//! a caller or a backend is 0-based.

use vstd::prelude::*;

verus! {

/// Distance between the keymap's key codes and the protocol's key codes.
pub const KEYCODE_OFFSET: u32 = 8;

/// Number of key codes that the table covers (8 to 255 inclusive).
pub const TABLE_LEN: usize = 248;

/// Highest key code of the table.
pub const LAST_KEYCODE: u32 = 255;

/// Protocol (0-based) key code of the left Shift key.
pub const SHIFT_KEY: u32 = 42;

#[derive(Clone, Copy, Debug, PartialEq, Eq, Structural)]
pub enum KeyDirection {
    Up,
    Down,
}

/// One key of the keymap: the character it produces without and with Shift.
#[derive(Clone, Copy, Debug)]
pub struct KeyEntry {
    pub plain: Option<char>,
    pub shifted: Option<char>,
}

/// The serialized modifier state (xkbcommon's depressed, latched and locked masks
/// and effective layout) that a native backend forwards after each key.
#[derive(Clone, Copy, Debug, PartialEq, Eq, Structural)]
pub struct ModifierSnapshot {
    pub depressed: u32,
    pub latched: u32,
    pub locked: u32,
    pub group: u32,
}

/// A key event as the caller sees it: a 0-based key code and a direction.
#[derive(Clone, Copy, Debug, PartialEq, Eq, Structural)]
pub struct KeyEvent {
    pub code: u32,
    pub direction: KeyDirection,
}

/// The character table of one keyboard.
pub struct KeyTable {
    table: Vec<KeyEntry>,
}

/// The first table position at or after `k` that produces `c`, without Shift
/// preferred over with Shift at each position, as a 0-based key code and whether
/// Shift is needed.
pub open spec fn lookup_from(table: Seq<KeyEntry>, c: char, k: int) -> Option<(u32, bool)>
    decreases table.len() - k,
{
    if k < 0 || k >= table.len() {
        None
    } else if table[k].plain == Some(c) {
        Some((k as u32, false))
    } else if table[k].shifted == Some(c) {
        Some((k as u32, true))
    } else {
        lookup_from(table, c, k + 1)
    }
}

/// The key events that type `c`: nothing when no key produces it; otherwise a press
/// and a release of its key, inside a press and a release of Shift where needed.
pub open spec fn events_for(found: Option<(u32, bool)>) -> Seq<KeyEvent> {
    match found {
        None => Seq::empty(),
        Some((k, false)) => seq![
            KeyEvent { code: k, direction: KeyDirection::Down },
            KeyEvent { code: k, direction: KeyDirection::Up },
        ],
        Some((k, true)) => seq![
            KeyEvent { code: SHIFT_KEY, direction: KeyDirection::Down },
            KeyEvent { code: k, direction: KeyDirection::Down },
            KeyEvent { code: k, direction: KeyDirection::Up },
            KeyEvent { code: SHIFT_KEY, direction: KeyDirection::Up },
        ],
    }
}

impl View for KeyTable {
    type V = Seq<KeyEntry>;

    closed spec fn view(&self) -> Seq<KeyEntry> {
        self.table@
    }
}

impl KeyTable {
    /// The table of a keymap, one entry for each key code from 8 to 255; `None`
    /// for a table of another size.
    pub fn from_table(table: Vec<KeyEntry>) -> (r: Option<KeyTable>)
        ensures
            table@.len() == TABLE_LEN <==> r is Some,
            r matches Some(t) ==> t@ == table@,
    {
        if table.len() == TABLE_LEN {
            Some(KeyTable { table })
        } else {
            None
        }
    }

    /// The lowest 0-based key code that produces `c`, and whether it needs Shift;
    /// at each code the key without Shift is tried first.
    pub fn reverse_lookup(&self, c: char) -> (r: Option<(u32, bool)>)
        ensures
            r == lookup_from(self@, c, 0),
    {
        let mut k: usize = 0;
        while k < self.table.len()
            invariant
                k <= self.table@.len(),
                lookup_from(self.table@, c, 0) == lookup_from(self.table@, c, k as int),
            decreases self.table@.len() - k,
        {
            let e = self.table[k];
            if e.plain == Some(c) {
                return Some((k as u32, false));
            }
            if e.shifted == Some(c) {
                return Some((k as u32, true));
            }
            k = k + 1;
        }
        None
    }

    /// The key events (0-based codes) that type `c`; none where no key produces it.
    pub fn key_events_for_char(&self, c: char) -> (r: Vec<KeyEvent>)
        ensures
            r@ == events_for(lookup_from(self@, c, 0)),
    {
        let found = self.reverse_lookup(c);
        let mut events: Vec<KeyEvent> = Vec::new();
        match found {
            None => {},
            Some((k, needs_shift)) => {
                if needs_shift {
                    events.push(KeyEvent { code: SHIFT_KEY, direction: KeyDirection::Down });
                }
                events.push(KeyEvent { code: k, direction: KeyDirection::Down });
                events.push(KeyEvent { code: k, direction: KeyDirection::Up });
                if needs_shift {
                    events.push(KeyEvent { code: SHIFT_KEY, direction: KeyDirection::Up });
                }
            },
        }
        assert(events@ =~= events_for(found));
        events
    }
}

proof fn lemma_lookup_from(table: Seq<KeyEntry>, c: char, start: int)
    requires
        0 <= start,
        table.len() <= u32::MAX,
    ensures
        match lookup_from(table, c, start) {
            Some((k, shifted)) => start <= k < table.len() && (if shifted {
                table[k as int].shifted == Some(c) && table[k as int].plain != Some(c)
            } else {
                table[k as int].plain == Some(c)
            }) && forall|j: int|
                start <= j < k ==> #[trigger] table[j].plain != Some(c) && table[j].shifted != Some(
                    c,
                ),
            None => forall|j: int|
                start <= j < table.len() ==> #[trigger] table[j].plain != Some(c)
                    && table[j].shifted != Some(c),
        },
    decreases table.len() - start,
{
    if start < table.len() {
        lemma_lookup_from(table, c, start + 1);
    }
}

/// Whatever the lookup reports produces the character: the key without Shift
/// when no Shift is reported, the key with Shift (and not without) otherwise, and
/// no lower key produces it at all. When it reports nothing, no key produces it.
pub proof fn lemma_lookup_consistent(table: Seq<KeyEntry>, c: char)
    requires
        table.len() == TABLE_LEN,
    ensures
        match lookup_from(table, c, 0) {
            Some((k, shifted)) => k < TABLE_LEN && (if shifted {
                table[k as int].shifted == Some(c) && table[k as int].plain != Some(c)
            } else {
                table[k as int].plain == Some(c)
            }) && forall|j: int|
                0 <= j < k ==> #[trigger] table[j].plain != Some(c) && table[j].shifted != Some(c),
            None => forall|j: int|
                0 <= j < TABLE_LEN ==> #[trigger] table[j].plain != Some(c) && table[j].shifted
                    != Some(c),
        },
{
    lemma_lookup_from(table, c, 0);
}

/// Looking up the character that key `k` (0-based) produces without Shift gives
/// back `k` with no Shift, provided no lower key produces the character.
pub proof fn lemma_lookup_round_trip(table: Seq<KeyEntry>, k: u32, c: char)
    requires
        table.len() == TABLE_LEN,
        k < TABLE_LEN,
        table[k as int].plain == Some(c),
        forall|j: int| 0 <= j < k ==> #[trigger] table[j].plain != Some(c) && table[j].shifted != Some(c),
    ensures
        lookup_from(table, c, 0) == Some((k, false)),
{
    lemma_lookup_from(table, c, 0);
}

/// A key that needs Shift for `c` is reported with Shift, provided no lower key
/// produces `c` and the key itself does not produce it without Shift.
pub proof fn lemma_lookup_shifted(table: Seq<KeyEntry>, k: u32, c: char)
    requires
        table.len() == TABLE_LEN,
        k < TABLE_LEN,
        table[k as int].shifted == Some(c),
        table[k as int].plain != Some(c),
        forall|j: int| 0 <= j < k ==> #[trigger] table[j].plain != Some(c) && table[j].shifted != Some(c),
    ensures
        lookup_from(table, c, 0) == Some((k, true)),
{
    lemma_lookup_from(table, c, 0);
}

} // verus!
