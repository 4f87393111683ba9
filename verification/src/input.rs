//! Script-supplied input names and input snapshots.
//!
//! The script names keys and mouse buttons by small ASCII keywords, compared
//! case-insensitively. Parsing is total: every string either maps to one of
//! the fixed names or is rejected, never anything else.

use vstd::prelude::*;
use vstd::string::StrSliceExecFns;

verus! {

/// A key the bridge can query: the fixed set the script may name.
#[derive(Clone, Copy, Debug, PartialEq, Eq, Structural)]
pub enum KeyName {
    Space,
    Left,
    Right,
    Up,
    Down,
}

/// A mouse button the bridge can query.
#[derive(Clone, Copy, Debug, PartialEq, Eq, Structural)]
pub enum MouseButtonName {
    Left,
    Right,
    Middle,
}

/// Whether `c` equals the lower-case keyword character `k`, folding an ASCII
/// upper-case letter (code 65 through 90) onto its lower-case form.
pub open spec fn char_matches_folded(c: char, k: char) -> bool {
    c == k || (65 <= c as int && c as int <= 90 && c as int + 32 == k as int)
}

/// Whether `s` is a case variant of the all-lower-case ASCII keyword `kw`.
pub open spec fn matches_keyword(s: Seq<char>, kw: Seq<char>) -> bool {
    s.len() == kw.len() && forall|i: int|
        0 <= i < s.len() ==> #[trigger] char_matches_folded(s[i], kw[i])
}

/// The key a string names, if any: a case-insensitive match against the
/// five supported key names.
pub open spec fn key_of(s: Seq<char>) -> Option<KeyName> {
    if matches_keyword(s, "space"@) {
        Some(KeyName::Space)
    } else if matches_keyword(s, "left"@) {
        Some(KeyName::Left)
    } else if matches_keyword(s, "right"@) {
        Some(KeyName::Right)
    } else if matches_keyword(s, "up"@) {
        Some(KeyName::Up)
    } else if matches_keyword(s, "down"@) {
        Some(KeyName::Down)
    } else {
        None
    }
}

/// The mouse button a string names, if any: a case-insensitive match
/// against the three supported button names.
pub open spec fn mouse_button_of(s: Seq<char>) -> Option<MouseButtonName> {
    if matches_keyword(s, "left"@) {
        Some(MouseButtonName::Left)
    } else if matches_keyword(s, "right"@) {
        Some(MouseButtonName::Right)
    } else if matches_keyword(s, "middle"@) {
        Some(MouseButtonName::Middle)
    } else {
        None
    }
}

/// ASCII case folding of one character, as a code point: an upper-case
/// ASCII letter folds onto its lower-case form, anything else onto itself.
pub open spec fn fold_code(c: char) -> int {
    if 65 <= c as int && c as int <= 90 {
        c as int + 32
    } else {
        c as int
    }
}

/// Being a case variant of a keyword without upper-case ASCII letters is
/// exactly folding onto it pointwise: the keyword matching above, which the
/// key and mouse-button queries are specified with, recognizes neither more
/// nor fewer strings than ASCII case folding equates with the keyword.
pub proof fn lemma_case_variant_is_folding(s: Seq<char>, kw: Seq<char>)
    requires
        forall|i: int| 0 <= i < kw.len() ==> !(65 <= (#[trigger] kw[i]) as int && kw[i] as int
            <= 90),
    ensures
        matches_keyword(s, kw) <==> (s.len() == kw.len() && forall|i: int|
            0 <= i < s.len() ==> #[trigger] fold_code(s[i]) == kw[i] as int),
{
    if matches_keyword(s, kw) {
        assert forall|i: int| 0 <= i < s.len() implies #[trigger] fold_code(s[i]) == kw[i] as int by {
            assert(char_matches_folded(s[i], kw[i]));
        }
    }
    if s.len() == kw.len() && (forall|i: int|
        0 <= i < s.len() ==> #[trigger] fold_code(s[i]) == kw[i] as int) {
        assert forall|i: int| 0 <= i < s.len() implies #[trigger] char_matches_folded(
            s[i],
            kw[i],
        ) by {
            assert(fold_code(s[i]) == kw[i] as int);
        }
    }
}

fn exec_char_matches(c: char, k: char) -> (r: bool)
    ensures
        r == char_matches_folded(c, k),
{
    let cu = c as u32;
    let ku = k as u32;
    cu == ku || (65 <= cu && cu <= 90 && cu + 32 == ku)
}

fn str_matches_keyword(s: &str, kw: &str) -> (r: bool)
    ensures
        r == matches_keyword(s@, kw@),
{
    let n = s.unicode_len();
    if n != kw.unicode_len() {
        return false;
    }
    let mut i: usize = 0;
    while i < n
        invariant
            n == s@.len(),
            n == kw@.len(),
            i <= n,
            forall|j: int| 0 <= j < i ==> #[trigger] char_matches_folded(s@[j], kw@[j]),
        decreases n - i,
    {
        if !exec_char_matches(s.get_char(i), kw.get_char(i)) {
            return false;
        }
        i += 1;
    }
    true
}

/// Parses a key name: exactly the case-insensitive variants of the five
/// supported names are accepted.
pub fn parse_key(s: &str) -> (r: Option<KeyName>)
    ensures
        r == key_of(s@),
{
    if str_matches_keyword(s, "space") {
        Some(KeyName::Space)
    } else if str_matches_keyword(s, "left") {
        Some(KeyName::Left)
    } else if str_matches_keyword(s, "right") {
        Some(KeyName::Right)
    } else if str_matches_keyword(s, "up") {
        Some(KeyName::Up)
    } else if str_matches_keyword(s, "down") {
        Some(KeyName::Down)
    } else {
        None
    }
}

/// Parses a mouse-button name: exactly the case-insensitive variants of the
/// three supported names are accepted.
pub fn parse_mouse_button(s: &str) -> (r: Option<MouseButtonName>)
    ensures
        r == mouse_button_of(s@),
{
    if str_matches_keyword(s, "left") {
        Some(MouseButtonName::Left)
    } else if str_matches_keyword(s, "right") {
        Some(MouseButtonName::Right)
    } else if str_matches_keyword(s, "middle") {
        Some(MouseButtonName::Middle)
    } else {
        None
    }
}

/// A snapshot of the pressed state of the supported keys, taken by the host
/// from the backend's keyboard state at the moment of a query.
#[derive(Clone, Copy, Debug, PartialEq, Eq, Structural)]
pub struct KeySnapshot {
    pub space: bool,
    pub left: bool,
    pub right: bool,
    pub up: bool,
    pub down: bool,
}

impl KeySnapshot {
    /// The pressed state this snapshot records for `k`.
    pub open spec fn spec_down(self, k: KeyName) -> bool {
        match k {
            KeyName::Space => self.space,
            KeyName::Left => self.left,
            KeyName::Right => self.right,
            KeyName::Up => self.up,
            KeyName::Down => self.down,
        }
    }

    /// Looks up the pressed state of `k`.
    pub fn is_down(&self, k: KeyName) -> (r: bool)
        ensures
            r == self.spec_down(k),
    {
        match k {
            KeyName::Space => self.space,
            KeyName::Left => self.left,
            KeyName::Right => self.right,
            KeyName::Up => self.up,
            KeyName::Down => self.down,
        }
    }
}

/// A snapshot of the mouse state, taken by the host from the backend at the
/// moment of a query: the pressed state of the supported buttons and the
/// cursor position, already widened to the script's integer range.
#[derive(Clone, Copy, Debug, PartialEq, Eq, Structural)]
pub struct MouseSnapshot {
    pub left: bool,
    pub right: bool,
    pub middle: bool,
    pub x: i64,
    pub y: i64,
}

impl MouseSnapshot {
    /// The pressed state this snapshot records for `b`.
    pub open spec fn spec_pressed(self, b: MouseButtonName) -> bool {
        match b {
            MouseButtonName::Left => self.left,
            MouseButtonName::Right => self.right,
            MouseButtonName::Middle => self.middle,
        }
    }

    /// Looks up the pressed state of `b`.
    pub fn is_pressed(&self, b: MouseButtonName) -> (r: bool)
        ensures
            r == self.spec_pressed(b),
    {
        match b {
            MouseButtonName::Left => self.left,
            MouseButtonName::Right => self.right,
            MouseButtonName::Middle => self.middle,
        }
    }
}

} // verus!
