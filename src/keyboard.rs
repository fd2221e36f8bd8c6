//! Keyboard classification: the set of pressed keys, the active modifiers,
//! key names, and what each key press or release calls for.
use vstd::prelude::*;
use crate::strings::{push_char, push_decimal, digits_of, digit_char};

verus! {

pub const VK_BACK: u32 = 0x08;
pub const VK_TAB: u32 = 0x09;
pub const VK_RETURN: u32 = 0x0d;
pub const VK_SHIFT: u32 = 0x10;
pub const VK_CONTROL: u32 = 0x11;
pub const VK_MENU: u32 = 0x12;
pub const VK_LWIN: u32 = 0x5b;
pub const VK_RWIN: u32 = 0x5c;
pub const VK_LSHIFT: u32 = 0xa0;
pub const VK_RSHIFT: u32 = 0xa1;
pub const VK_LCONTROL: u32 = 0xa2;
pub const VK_RCONTROL: u32 = 0xa3;
pub const VK_LMENU: u32 = 0xa4;
pub const VK_RMENU: u32 = 0xa5;
/// The '0' key, which with Ctrl alone places a marker.
pub const VK_MARKER: u32 = 0x30;

pub open spec fn is_ctrl(vk: u32) -> bool {
    vk == VK_CONTROL || vk == VK_LCONTROL || vk == VK_RCONTROL
}

pub open spec fn is_shift(vk: u32) -> bool {
    vk == VK_SHIFT || vk == VK_LSHIFT || vk == VK_RSHIFT
}

pub open spec fn is_alt(vk: u32) -> bool {
    vk == VK_MENU || vk == VK_LMENU || vk == VK_RMENU
}

pub open spec fn is_win(vk: u32) -> bool {
    vk == VK_LWIN || vk == VK_RWIN
}

pub open spec fn is_modifier(vk: u32) -> bool {
    is_ctrl(vk) || is_shift(vk) || is_alt(vk) || is_win(vk)
}

pub fn is_modifier_key(vk: u32) -> (r: bool)
    ensures
        r == is_modifier(vk),
{
    vk == VK_CONTROL || vk == VK_LCONTROL || vk == VK_RCONTROL || vk == VK_SHIFT || vk == VK_LSHIFT
        || vk == VK_RSHIFT || vk == VK_MENU || vk == VK_LMENU || vk == VK_RMENU || vk == VK_LWIN
        || vk == VK_RWIN
}

/// Which modifier groups are held in a set of pressed keys.
pub open spec fn has_ctrl(s: Set<u32>) -> bool {
    s.contains(VK_CONTROL) || s.contains(VK_LCONTROL) || s.contains(VK_RCONTROL)
}

pub open spec fn has_shift(s: Set<u32>) -> bool {
    s.contains(VK_SHIFT) || s.contains(VK_LSHIFT) || s.contains(VK_RSHIFT)
}

pub open spec fn has_alt(s: Set<u32>) -> bool {
    s.contains(VK_MENU) || s.contains(VK_LMENU) || s.contains(VK_RMENU)
}

pub open spec fn has_win(s: Set<u32>) -> bool {
    s.contains(VK_LWIN) || s.contains(VK_RWIN)
}

/// The names of the held modifier groups, in the order Ctrl, Shift, Alt, Win.
pub open spec fn modifier_names(s: Set<u32>) -> Seq<Seq<char>> {
    (if has_ctrl(s) {
        seq!["Ctrl"@]
    } else {
        Seq::empty()
    }) + (if has_shift(s) {
        seq!["Shift"@]
    } else {
        Seq::empty()
    }) + (if has_alt(s) {
        seq!["Alt"@]
    } else {
        Seq::empty()
    }) + (if has_win(s) {
        seq!["Win"@]
    } else {
        Seq::empty()
    })
}

pub open spec fn views(v: Seq<String>) -> Seq<Seq<char>> {
    v.map_values(|s: String| s@)
}

/// The keys currently held down, each once.
#[derive(Clone, Debug)]
pub struct PressedKeys {
    pub keys: Vec<u32>,
}

impl View for PressedKeys {
    type V = Set<u32>;

    open spec fn view(&self) -> Set<u32> {
        self.keys@.to_set()
    }
}

impl PressedKeys {
    pub open spec fn wf(&self) -> bool {
        self.keys@.no_duplicates()
    }

    pub fn new() -> (r: PressedKeys)
        ensures
            r.wf(),
            r@ == Set::<u32>::empty(),
    {
        let r = PressedKeys { keys: Vec::new() };
        assert(r@ =~= Set::<u32>::empty());
        r
    }

    fn position(&self, vk: u32) -> (r: Option<usize>)
        ensures
            match r {
                Some(i) => i < self.keys@.len() && self.keys@[i as int] == vk,
                None => !self.keys@.contains(vk),
            },
    {
        let mut i: usize = 0;
        while i < self.keys.len()
            invariant
                i <= self.keys@.len(),
                forall|j: int| 0 <= j < i ==> self.keys@[j] != vk,
            decreases self.keys@.len() - i,
        {
            if self.keys[i] == vk {
                return Some(i);
            }
            i = i + 1;
        }
        None
    }

    pub fn contains(&self, vk: u32) -> (r: bool)
        ensures
            r == self@.contains(vk),
    {
        self.position(vk).is_some()
    }

    /// Records a press; returns whether the key was already held.
    pub fn press(&mut self, vk: u32) -> (was_pressed: bool)
        requires
            old(self).wf(),
        ensures
            final(self).wf(),
            was_pressed == old(self)@.contains(vk),
            final(self)@ == old(self)@.insert(vk),
    {
        if self.position(vk).is_some() {
            assert(self@ =~= self@.insert(vk));
            return true;
        }
        let ghost before = self.keys@;
        self.keys.push(vk);
        proof {
            assert(self.keys@ == before.push(vk));
            assert forall|x: u32| self@.contains(x) <==> before.to_set().insert(vk).contains(x) by {
                if before.contains(x) {
                    let k = choose|k: int| 0 <= k < before.len() && before[k] == x;
                    assert(self.keys@[k] == x);
                }
                if x == vk {
                    assert(self.keys@[before.len() as int] == vk);
                }
                if self.keys@.contains(x) {
                    let k = choose|k: int| 0 <= k < self.keys@.len() && self.keys@[k] == x;
                    if k < before.len() {
                        assert(before[k] == x);
                    }
                }
            }
            assert(self@ =~= before.to_set().insert(vk));
        }
        false
    }

    /// Records a release.
    pub fn release(&mut self, vk: u32)
        requires
            old(self).wf(),
        ensures
            final(self).wf(),
            final(self)@ == old(self)@.remove(vk),
    {
        match self.position(vk) {
            Some(i) => {
                let ghost before = self.keys@;
                self.keys.remove(i);
                proof {
                    assert forall|x: u32| self@.contains(x) <==> before.to_set().remove(vk).contains(
                        x,
                    ) by {
                        if x != vk && before.contains(x) {
                            let k = choose|k: int| 0 <= k < before.len() && before[k] == x;
                            if k < i {
                                assert(self.keys@[k] == x);
                            } else {
                                assert(self.keys@[k - 1] == x);
                            }
                        }
                        if self.keys@.contains(x) {
                            let k = choose|k: int| 0 <= k < self.keys@.len() && self.keys@[k] == x;
                            if k < i {
                                assert(before[k] == x);
                            } else {
                                assert(before[k + 1] == x);
                            }
                        }
                    }
                    assert(self@ =~= before.to_set().remove(vk));
                }
            },
            None => {
                assert(self@ =~= self@.remove(vk));
            },
        }
    }

    pub fn has_ctrl(&self) -> (r: bool)
        ensures
            r == has_ctrl(self@),
    {
        self.contains(VK_CONTROL) || self.contains(VK_LCONTROL) || self.contains(VK_RCONTROL)
    }

    pub fn has_shift(&self) -> (r: bool)
        ensures
            r == has_shift(self@),
    {
        self.contains(VK_SHIFT) || self.contains(VK_LSHIFT) || self.contains(VK_RSHIFT)
    }

    pub fn has_alt(&self) -> (r: bool)
        ensures
            r == has_alt(self@),
    {
        self.contains(VK_MENU) || self.contains(VK_LMENU) || self.contains(VK_RMENU)
    }

    pub fn has_win(&self) -> (r: bool)
        ensures
            r == has_win(self@),
    {
        self.contains(VK_LWIN) || self.contains(VK_RWIN)
    }
}

/// The names of the modifier groups held down.
pub fn current_modifiers(pressed: &PressedKeys) -> (r: Vec<String>)
    ensures
        views(r@) == modifier_names(pressed@),
{
    let mut mods: Vec<String> = Vec::new();
    if pressed.has_ctrl() {
        mods.push(String::from_str("Ctrl"));
    }
    if pressed.has_shift() {
        mods.push(String::from_str("Shift"));
    }
    if pressed.has_alt() {
        mods.push(String::from_str("Alt"));
    }
    if pressed.has_win() {
        mods.push(String::from_str("Win"));
    }
    assert(views(mods@) =~= modifier_names(pressed@));
    mods
}

pub open spec fn hex_char(d: int) -> char {
    if d < 10 {
        digit_char(d)
    } else {
        (('A' as u32) + (d - 10)) as char
    }
}

/// Upper-case hexadecimal digits of `n`, most significant first.
pub open spec fn hex_of(n: nat) -> Seq<char>
    decreases n,
{
    if n < 16 {
        seq![hex_char(n as int)]
    } else {
        hex_of(n / 16).push(hex_char((n % 16) as int))
    }
}

fn push_hex(out: &mut String, n: u32)
    ensures
        final(out)@ == old(out)@ + hex_of(n as nat),
    decreases n,
{
    if n >= 16 {
        push_hex(out, n / 16);
    }
    let d = n % 16;
    let c = if d < 10 {
        (('0' as u8) + d as u8) as char
    } else {
        (('A' as u8) + (d - 10) as u8) as char
    };
    push_char(out, c);
    assert(final(out)@ =~= old(out)@ + hex_of(n as nat));
}

/// The display name of a virtual key.
pub open spec fn key_name(vk: u32) -> Seq<char> {
    if vk == 0x08 {
        "Backspace"@
    } else if vk == 0x09 {
        "Tab"@
    } else if vk == 0x0d {
        "Enter"@
    } else if vk == 0x1b {
        "Esc"@
    } else if vk == 0x20 {
        "Space"@
    } else if vk == 0x25 {
        "Left"@
    } else if vk == 0x26 {
        "Up"@
    } else if vk == 0x27 {
        "Right"@
    } else if vk == 0x28 {
        "Down"@
    } else if vk == 0x2e {
        "Delete"@
    } else if (0x30 <= vk <= 0x39) || (0x41 <= vk <= 0x5a) {
        seq![(vk as u8) as char]
    } else if 0x70 <= vk <= 0x7b {
        seq!['F'] + digits_of((vk - 0x6f) as nat)
    } else if vk < 16 {
        seq!['V', 'K', '_', '0'] + hex_of(vk as nat)
    } else {
        seq!['V', 'K', '_'] + hex_of(vk as nat)
    }
}

/// The display name of a virtual key: named keys, digits and letters as
/// themselves, F1 to F12, and `VK_` with at least two hex digits otherwise.
pub fn vk_to_name(vk: u32) -> (r: String)
    ensures
        r@ == key_name(vk),
{
    if vk == 0x08 {
        String::from_str("Backspace")
    } else if vk == 0x09 {
        String::from_str("Tab")
    } else if vk == 0x0d {
        String::from_str("Enter")
    } else if vk == 0x1b {
        String::from_str("Esc")
    } else if vk == 0x20 {
        String::from_str("Space")
    } else if vk == 0x25 {
        String::from_str("Left")
    } else if vk == 0x26 {
        String::from_str("Up")
    } else if vk == 0x27 {
        String::from_str("Right")
    } else if vk == 0x28 {
        String::from_str("Down")
    } else if vk == 0x2e {
        String::from_str("Delete")
    } else if (0x30 <= vk && vk <= 0x39) || (0x41 <= vk && vk <= 0x5a) {
        let mut s = String::new();
        push_char(&mut s, (vk as u8) as char);
        assert(s@ =~= seq![(vk as u8) as char]);
        s
    } else if 0x70 <= vk && vk <= 0x7b {
        let mut s = String::new();
        push_char(&mut s, 'F');
        push_decimal(&mut s, (vk - 0x6f) as u64);
        assert(s@ =~= seq!['F'] + digits_of((vk - 0x6f) as nat));
        s
    } else {
        let mut s = String::new();
        push_char(&mut s, 'V');
        push_char(&mut s, 'K');
        push_char(&mut s, '_');
        if vk < 16 {
            push_char(&mut s, '0');
        }
        push_hex(&mut s, vk);
        assert(s@ =~= key_name(vk));
        s
    }
}

/// Which raw key transitions are recorded.
#[derive(Clone, Copy, Debug, PartialEq, Eq, Structural)]
pub enum RawKeysMode {
    Down,
    Up,
    Both,
}

/// One low-level keyboard notification.
#[derive(Clone, Copy, Debug, PartialEq, Eq, Structural)]
pub struct KeyInput {
    pub vk: u32,
    pub scan_code: u32,
    pub is_down: bool,
    pub is_up: bool,
    pub injected: bool,
}

/// What a key notification calls for.
#[derive(Clone, Debug)]
pub struct KeyDecision {
    /// A press of a key already held.
    pub repeat: bool,
    /// The modifier groups held after the notification.
    pub modifiers: Vec<String>,
    /// A non-modifier key with at least one modifier held.
    pub chorded: bool,
    /// Emit a shortcut event.
    pub shortcut: bool,
    /// Ctrl+0 pressed: flush the text buffer and place a marker.
    pub marker: bool,
    /// The key may produce text, subject to the privacy gate.
    pub text_candidate: bool,
    /// Emit a raw key event.
    pub raw: bool,
}

/// How raw key events are recorded.
#[derive(Clone, Copy, Debug, PartialEq, Eq, Structural)]
pub struct RawKeyPolicy {
    pub capture_raw_keys: bool,
    pub mode: RawKeysMode,
    pub suppress_on_shortcut: bool,
}

/// The pressed set after a notification.
pub open spec fn pressed_after(s: Set<u32>, k: KeyInput) -> Set<u32> {
    if k.is_down {
        s.insert(k.vk)
    } else if k.is_up {
        s.remove(k.vk)
    } else {
        s
    }
}

impl KeyDecision {
    /// The decision for notification `k` with `s` held before it.
    pub open spec fn matches(&self, s: Set<u32>, k: KeyInput, p: RawKeyPolicy) -> bool {
        let after = pressed_after(s, k);
        let was = s.contains(k.vk);
        let chorded = !is_modifier(k.vk) && modifier_names(after).len() > 0;
        &&& k.is_down || k.is_up ==> {
            &&& views(self.modifiers@) == modifier_names(after)
            &&& self.repeat == (k.is_down && was)
            &&& self.chorded == chorded
            &&& self.shortcut == (k.is_down && chorded)
            &&& self.marker == (k.is_down && !was && k.vk == VK_MARKER && has_ctrl(after)
                && !has_alt(after) && !has_win(after) && !has_shift(after))
            &&& self.text_candidate == (k.is_down && !is_modifier(k.vk) && !has_ctrl(after)
                && !has_alt(after) && !has_win(after))
            &&& self.raw == (p.capture_raw_keys && ((k.is_down && p.mode != RawKeysMode::Up) || (
            k.is_up && p.mode != RawKeysMode::Down)) && !(p.suppress_on_shortcut && chorded))
        }
        &&& !(k.is_down || k.is_up) ==> !self.shortcut && !self.marker && !self.text_candidate
            && !self.raw
    }
}

/// Updates the pressed set with one notification and classifies it.
pub fn classify_key(pressed: &mut PressedKeys, k: KeyInput, p: RawKeyPolicy) -> (r: KeyDecision)
    requires
        old(pressed).wf(),
    ensures
        final(pressed).wf(),
        final(pressed)@ == pressed_after(old(pressed)@, k),
        r.matches(old(pressed)@, k, p),
{
    if !(k.is_down || k.is_up) {
        return KeyDecision {
            repeat: false,
            modifiers: Vec::new(),
            chorded: false,
            shortcut: false,
            marker: false,
            text_candidate: false,
            raw: false,
        };
    }
    let was_pressed = if k.is_down {
        pressed.press(k.vk)
    } else {
        let was = pressed.contains(k.vk);
        pressed.release(k.vk);
        was
    };
    let modifiers = current_modifiers(pressed);
    let is_mod = is_modifier_key(k.vk);
    let chorded = !is_mod && modifiers.len() > 0;
    let has_ctrl = pressed.has_ctrl();
    let has_shift = pressed.has_shift();
    let has_alt = pressed.has_alt();
    let has_win = pressed.has_win();
    proof {
        assert(views(modifiers@).len() == modifiers@.len());
    }
    let mode = p.mode;
    let raw_dir = (k.is_down && !matches!(mode, RawKeysMode::Up)) || (k.is_up && !matches!(
        mode,
        RawKeysMode::Down
    ));
    KeyDecision {
        repeat: k.is_down && was_pressed,
        modifiers,
        chorded,
        shortcut: k.is_down && chorded,
        marker: k.is_down && !was_pressed && k.vk == VK_MARKER && has_ctrl && !has_alt && !has_win
            && !has_shift,
        text_candidate: k.is_down && !is_mod && !has_ctrl && !has_alt && !has_win,
        raw: p.capture_raw_keys && raw_dir && !(p.suppress_on_shortcut && chorded),
    }
}

} // verus!
