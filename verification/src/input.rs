//! Keyboard keys and pointer buttons, as raw platform scan codes.
//!
//! The numeric values follow the platform's input-event ABI, which the
//! backend delivers unchanged.  A [`Key`] or [`Button`] only ever holds a
//! code of the known vocabulary; an event carrying any other code is
//! dropped by the dispatcher rather than guessed at.

use vstd::prelude::*;

verus! {

/// Whether `code` is a keyboard key of the known vocabulary: the
/// platform's key codes up to and including 248, except the codes 55, 84
/// and 195 through 199, which that range leaves unassigned.
pub open spec fn known_key_code(code: u32) -> bool {
    code <= 248 && code != 55 && code != 84 && !(195 <= code <= 199)
}

/// A keyboard key, identified by its platform scan code.
#[derive(Debug, Clone, Copy, PartialEq, Eq, Structural, Hash)]
pub struct Key {
    code: u32,
}

impl Key {
    /// The platform scan code of this key.
    pub closed spec fn spec_code(self) -> u32 {
        self.code
    }

    /// Decodes a raw scan code; `None` for a code outside the known
    /// vocabulary.
    pub fn from_u32(code: u32) -> (r: Option<Key>)
        ensures
            r.is_some() <==> known_key_code(code),
            r matches Some(k) ==> k.spec_code() == code,
    {
        if code <= 248 && code != 55 && code != 84 && !(195 <= code && code <= 199) {
            Some(Key { code })
        } else {
            None
        }
    }

    /// Returns the platform scan code of this key.
    pub fn code(self) -> (r: u32)
        ensures
            r == self.spec_code(),
    {
        self.code
    }
}

/// Whether `code` is a pointer button of the known vocabulary: the
/// platform's button codes 272 through 279 (left, right, middle, side,
/// extra, forward, back, task).
pub open spec fn known_button_code(code: u32) -> bool {
    272 <= code <= 279
}

/// A pointer button, identified by its platform code.
#[derive(Debug, Clone, Copy, PartialEq, Eq, Structural, Hash)]
pub struct Button {
    code: u32,
}

impl Button {
    /// The platform code of this button.
    pub closed spec fn spec_code(self) -> u32 {
        self.code
    }

    /// Decodes a raw button code; `None` for a code outside the known
    /// vocabulary.
    pub fn from_u32(code: u32) -> (r: Option<Button>)
        ensures
            r.is_some() <==> known_button_code(code),
            r matches Some(b) ==> b.spec_code() == code,
    {
        if 272 <= code && code <= 279 {
            Some(Button { code })
        } else {
            None
        }
    }

    /// Returns the platform code of this button.
    pub fn code(self) -> (r: u32)
        ensures
            r == self.spec_code(),
    {
        self.code
    }
}

/// The platform code of the left pointer button.
pub const BUTTON_LEFT: u32 = 272;

/// The platform code of the right pointer button.
pub const BUTTON_RIGHT: u32 = 273;

/// The platform code of the middle pointer button.
pub const BUTTON_MIDDLE: u32 = 274;

} // verus!
