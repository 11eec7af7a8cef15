//! Keyboard shortcuts of menu items.

use vstd::prelude::*;
use vstd::string::*;

verus! {

/// A keyboard shortcut: a key, and the modifiers held with it.
///
/// `cmd_or_ctrl` stands for the platform's main modifier: Command on macOS,
/// Control elsewhere.
#[derive(Clone, Copy, Debug, PartialEq, Eq, Structural)]
pub struct Accelerator {
    pub cmd_or_ctrl: bool,
    pub alt: bool,
    pub shift: bool,
    pub key: char,
}

/// Whether `c` names a key that a shortcut can end in: a capital letter or a
/// digit.
pub open spec fn is_key(c: char) -> bool {
    ('A' <= c && c <= 'Z') || ('0' <= c && c <= '9')
}

/// The shortcut of `key` with the platform's main modifier.
pub open spec fn primary(key: char) -> Accelerator {
    Accelerator { cmd_or_ctrl: true, alt: false, shift: false, key }
}

/// The shortcut of `key` with the platform's main modifier and Shift.
pub open spec fn primary_shift(key: char) -> Accelerator {
    Accelerator { cmd_or_ctrl: true, alt: false, shift: true, key }
}

/// The text of the modifiers of `a`, each followed by `+`.
pub open spec fn modifier_text(a: Accelerator) -> Seq<char> {
    (if a.cmd_or_ctrl {
        "CmdOrCtrl+"@
    } else {
        Seq::<char>::empty()
    }) + (if a.alt {
        "Alt+"@
    } else {
        Seq::<char>::empty()
    }) + (if a.shift {
        "Shift+"@
    } else {
        Seq::<char>::empty()
    })
}

/// `text` without `prefix` at its start, where it starts with it; else `text`.
pub open spec fn strip(text: Seq<char>, prefix: Seq<char>) -> Seq<char> {
    if prefix.is_prefix_of(text) {
        text.skip(prefix.len() as int)
    } else {
        text
    }
}

/// The shortcut that `text` spells, if it spells one: `CmdOrCtrl+` or not,
/// then `Alt+` or not, then `Shift+` or not, then exactly one key.
///
/// This is the one spelling that this library writes and reads. Window
/// systems take more: other names for the modifiers, any order, either case,
/// keys with names. Such a text spells no shortcut here.
pub open spec fn parse_text(text: Seq<char>) -> Option<Accelerator> {
    let after_main = strip(text, "CmdOrCtrl+"@);
    let after_alt = strip(after_main, "Alt+"@);
    let after_shift = strip(after_alt, "Shift+"@);
    if after_shift.len() == 1 && is_key(after_shift[0]) {
        Some(
            Accelerator {
                cmd_or_ctrl: "CmdOrCtrl+"@.is_prefix_of(text),
                alt: "Alt+"@.is_prefix_of(after_main),
                shift: "Shift+"@.is_prefix_of(after_alt),
                key: after_shift[0],
            },
        )
    } else {
        None
    }
}

/// Whether `text` starts with `prefix`.
fn starts_with(text: &str, prefix: &str) -> (yes: bool)
    ensures
        yes == prefix@.is_prefix_of(text@),
{
    let n = prefix.unicode_len();
    if text.unicode_len() < n {
        return false;
    }
    let mut i: usize = 0;
    while i < n
        invariant
            i <= n,
            n == prefix@.len(),
            n <= text@.len(),
            forall|k: int| 0 <= k < i ==> text@[k] == prefix@[k],
        decreases n - i,
    {
        if text.get_char(i) != prefix.get_char(i) {
            assert(text@.subrange(0, n as int)[i as int] != prefix@[i as int]);
            return false;
        }
        i += 1;
    }
    assert(prefix@ =~= text@.subrange(0, n as int));
    true
}

/// `text` without `prefix` at its start, where it starts with it.
fn without_prefix<'a>(text: &'a str, prefix: &str) -> (rest: &'a str)
    ensures
        rest@ == strip(text@, prefix@),
{
    if starts_with(text, prefix) {
        text.substring_char(prefix.unicode_len(), text.unicode_len())
    } else {
        text
    }
}

impl Accelerator {
    /// A shortcut is well formed when its key is a capital letter or a digit.
    pub open spec fn well_formed(self) -> bool {
        is_key(self.key)
    }

    /// The shortcut as the window system spells it: the modifiers in the
    /// order `CmdOrCtrl`, `Alt`, `Shift`, then the key, joined by `+`.
    pub open spec fn text(self) -> Seq<char> {
        modifier_text(self).push(self.key)
    }

    /// The key alone.
    pub fn plain(key: char) -> (a: Accelerator)
        ensures
            a == (Accelerator { cmd_or_ctrl: false, alt: false, shift: false, key }),
    {
        Accelerator { cmd_or_ctrl: false, alt: false, shift: false, key }
    }

    /// The key with the platform's main modifier.
    pub fn with_cmd_or_ctrl(key: char) -> (a: Accelerator)
        ensures
            a == primary(key),
    {
        Accelerator { cmd_or_ctrl: true, alt: false, shift: false, key }
    }

    /// The key with the platform's main modifier and Shift.
    pub fn with_cmd_or_ctrl_shift(key: char) -> (a: Accelerator)
        ensures
            a == primary_shift(key),
    {
        Accelerator { cmd_or_ctrl: true, alt: false, shift: true, key }
    }

    /// Reads a shortcut from its text. The text must be spelled exactly as
    /// [`Accelerator::render`] spells it; anything else is no shortcut, also
    /// where a window system would take it (`Ctrl+Q`, `CmdOrCtrl+n`, `F5`).
    pub fn parse(text: &str) -> (parsed: Option<Accelerator>)
        ensures
            parsed == parse_text(text@),
    {
        let cmd_or_ctrl = starts_with(text, "CmdOrCtrl+");
        let after_main = without_prefix(text, "CmdOrCtrl+");
        let alt = starts_with(after_main, "Alt+");
        let after_alt = without_prefix(after_main, "Alt+");
        let shift = starts_with(after_alt, "Shift+");
        let after_shift = without_prefix(after_alt, "Shift+");
        if after_shift.unicode_len() != 1 {
            return None;
        }
        let candidate = Accelerator { cmd_or_ctrl, alt, shift, key: after_shift.get_char(0) };
        if candidate.is_well_formed() {
            Some(candidate)
        } else {
            None
        }
    }

    /// Whether the shortcut is well formed.
    pub fn is_well_formed(&self) -> (ok: bool)
        ensures
            ok == self.well_formed(),
    {
        let c = self.key;
        ('A' <= c && c <= 'Z') || ('0' <= c && c <= '9')
    }

    /// The shortcut as the window system spells it, such as `CmdOrCtrl+Shift+N`.
    pub fn render(&self) -> (text: String)
        ensures
            text@ == self.text(),
    {
        let mut text = String::new();
        if self.cmd_or_ctrl {
            text.append("CmdOrCtrl+");
        }
        if self.alt {
            text.append("Alt+");
        }
        if self.shift {
            text.append("Shift+");
        }
        assert(text@ =~= modifier_text(*self));
        push_char(&mut text, self.key);
        text
    }
}

/// Reading what was rendered gives the shortcut back.
pub proof fn lemma_parse_rendered(a: Accelerator)
    requires
        a.well_formed(),
    ensures
        parse_text(a.text()) == Some(a),
{
    reveal_strlit("CmdOrCtrl+");
    reveal_strlit("Alt+");
    reveal_strlit("Shift+");
    let main = "CmdOrCtrl+"@;
    let alt = "Alt+"@;
    let shift = "Shift+"@;
    let key = seq![a.key];
    let from_shift = if a.shift { shift + key } else { key };
    let from_alt = if a.alt { alt + from_shift } else { from_shift };
    let whole = if a.cmd_or_ctrl { main + from_alt } else { from_alt };
    assert(a.text() =~= whole);
    assert(shift.is_prefix_of(from_shift) == a.shift && strip(from_shift, shift) =~= key) by {
        if a.shift {
            assert(from_shift.subrange(0, 6) =~= shift);
        }
    }
    assert(alt.is_prefix_of(from_alt) == a.alt && strip(from_alt, alt) =~= from_shift) by {
        if a.alt {
            assert(from_alt.subrange(0, 4) =~= alt);
        } else if alt.is_prefix_of(from_alt) {
            assert(from_alt.subrange(0, 4)[0] == from_alt[0]);
            assert(alt[0] == 'A');
        }
    }
    assert(main.is_prefix_of(whole) == a.cmd_or_ctrl && strip(whole, main) =~= from_alt) by {
        if a.cmd_or_ctrl {
            assert(whole.subrange(0, 10) =~= main);
        } else if main.is_prefix_of(whole) {
            assert(whole.subrange(0, 10)[0] == whole[0]);
            assert(whole.subrange(0, 10)[1] == whole[1]);
            assert(main[0] == 'C' && main[1] == 'm');
        }
    }
}

/// A text that spells a shortcut is the rendering of that shortcut, which is
/// well formed: no two texts spell the same shortcut.
pub proof fn lemma_render_parsed(text: Seq<char>)
    requires
        parse_text(text) is Some,
    ensures
        parse_text(text).unwrap().well_formed(),
        parse_text(text).unwrap().text() == text,
{
    let main = "CmdOrCtrl+"@;
    let alt = "Alt+"@;
    let shift = "Shift+"@;
    let after_main = strip(text, main);
    let after_alt = strip(after_main, alt);
    let after_shift = strip(after_alt, shift);
    let a = parse_text(text).unwrap();
    assert(after_shift =~= seq![a.key]);
    assert(after_alt =~= (if a.shift { shift } else { Seq::<char>::empty() }) + after_shift);
    assert(after_main =~= (if a.alt { alt } else { Seq::<char>::empty() }) + after_alt);
    assert(text =~= (if a.cmd_or_ctrl { main } else { Seq::<char>::empty() }) + after_main);
    assert(a.text() =~= text);
}

/// `String::push` of std, which appends one character to the end of the
/// string and leaves the rest as it was.
#[verifier::external_body]
fn push_char(text: &mut String, c: char)
    ensures
        final(text)@ == old(text)@.push(c),
{
    text.push(c);
}

} // verus!
