//! What the drawing of the command center takes from the core: the kinds
//! of its icons and fonts, and the shortening of names that are too long
//! for a card.

use vstd::prelude::*;
use vstd::utf8::{decode_utf8, encode_utf8, is_char_boundary};

verus! {

#[derive(Debug, Clone, Copy, PartialEq, Eq, Structural)]
pub enum FontWeight {
    Regular,
    Medium,
    Bold,
}

#[derive(Debug, Clone, Copy, PartialEq, Eq, Structural)]
pub enum Icon {
    Search,
    /// percent, charging
    Battery(u8, bool),
    Clock,
    Cpu,
    Memory,
    App,
    Window,
    Close,
}

/// The three dots that stand for what was cut off.
pub open spec fn ellipsis() -> Seq<char> {
    seq!['.', '.', '.']
}

/// The text `s` cut down to `max_len` bytes: `s` itself where it is no
/// longer, else its first `max_len - 3` bytes and three dots.
pub open spec fn truncated(s: Seq<char>, max_len: int) -> Seq<char> {
    if encode_utf8(s).len() <= max_len {
        s
    } else {
        decode_utf8(encode_utf8(s).subrange(0, max_len - 3)) + ellipsis()
    }
}

/// Cuts `s` down to `max_len` bytes. A text that is longer must leave
/// room for the three dots, and the cut must not fall inside a character.
pub fn truncate_string(s: &str, max_len: usize) -> (text: String)
    requires
        s.len() > max_len ==> max_len >= 3 && is_char_boundary(
            encode_utf8(s@),
            (max_len - 3) as int,
        ),
    ensures
        text@ == truncated(s@, max_len as int),
{
    let bytes = s.as_bytes();
    if bytes.len() <= max_len {
        s.to_owned()
    } else {
        let (head, _) = s.split_at(max_len - 3);
        proof {
            reveal_strlit("...");
            vstd::utf8::encode_utf8_decode_utf8(head@);
        }
        head.to_owned().concat("...")
    }
}

} // verus!
