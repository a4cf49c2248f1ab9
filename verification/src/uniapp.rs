//! The configuration of an application window and its input events.
use vstd::prelude::*;
use crate::text::{append_str, append_string, string_of};

verus! {

/// The configuration of the window an application opens.
pub struct AppConfig {
    pub title: String,
    pub size: (u32, u32),
    pub vsync: bool,
    pub show_cursor: bool,
}

impl AppConfig {
    /// A window titled `title` of the given size, with vertical sync on and
    /// the cursor shown.
    pub fn new(title: String, size: (u32, u32)) -> (r: AppConfig)
        ensures
            r.title@ == title@,
            r.size == size,
            r.vsync,
            r.show_cursor,
    {
        AppConfig { title, size, vsync: true, show_cursor: true }
    }
}

/// A mouse click.
#[derive(Debug, Clone, Copy)]
pub struct ClickEvent;

/// A key pressed, with the modifiers held.
pub struct KeyDownEvent {
    pub code: String,
    pub shift: bool,
    pub alt: bool,
    pub ctrl: bool,
}

/// A character typed.
#[derive(Debug)]
pub struct KeyPressEvent {
    pub code: String,
}

/// A key released, with the modifiers held.
pub struct KeyUpEvent {
    pub code: String,
    pub shift: bool,
    pub alt: bool,
    pub ctrl: bool,
}

/// How a key event is shown: `shift`, `alt` and `ctrl` for the modifiers held
/// (empty for those not held), then the key code, separated by spaces.
pub open spec fn key_description(shift: bool, alt: bool, ctrl: bool, code: Seq<char>) -> Seq<char> {
    (if shift { "shift"@ } else { Seq::empty() }) + " "@ + (if alt { "alt"@ } else { Seq::empty() }) + " "@
        + (if ctrl { "ctrl"@ } else { Seq::empty() }) + " "@ + code
}

fn describe_key(shift: bool, alt: bool, ctrl: bool, code: &String) -> (r: String)
    ensures
        r@ == key_description(shift, alt, ctrl, code@),
{
    let mut v: Vec<char> = Vec::new();
    if shift {
        append_str(&mut v, "shift");
    }
    append_str(&mut v, " ");
    if alt {
        append_str(&mut v, "alt");
    }
    append_str(&mut v, " ");
    if ctrl {
        append_str(&mut v, "ctrl");
    }
    append_str(&mut v, " ");
    append_string(&mut v, code);
    assert(v@ =~= key_description(shift, alt, ctrl, code@));
    string_of(&v)
}

impl KeyDownEvent {
    /// The event as it is shown in logs.
    pub fn describe(&self) -> (r: String)
        ensures
            r@ == key_description(self.shift, self.alt, self.ctrl, self.code@),
    {
        describe_key(self.shift, self.alt, self.ctrl, &self.code)
    }
}

impl KeyUpEvent {
    /// The event as it is shown in logs.
    pub fn describe(&self) -> (r: String)
        ensures
            r@ == key_description(self.shift, self.alt, self.ctrl, self.code@),
    {
        describe_key(self.shift, self.alt, self.ctrl, &self.code)
    }
}

} // verus!
