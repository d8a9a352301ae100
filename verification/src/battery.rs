//! The state of the battery, as the kernel's text files tell it.
//!
//! The files are read elsewhere. What comes here is the text of each, in
//! the order in which the batteries are asked, or nothing for a file that
//! could not be read.

use vstd::prelude::*;
use crate::text::{chars_of, has_prefix, trim, trimmed};

verus! {

/// Charge that is told while none can be read, in percent.
pub const DEFAULT_BATTERY_PERCENT: u8 = 100;

/// Whether the battery is taken to charge while nothing can be read.
pub const DEFAULT_BATTERY_CHARGING: bool = false;

/// Whether `c` is one of the ten digits.
pub open spec fn is_digit(c: char) -> bool {
    0x30 <= (c as u32) <= 0x39
}

/// The number that the digits `digits` write.
pub open spec fn decimal_value(digits: Seq<char>) -> int
    decreases digits.len(),
{
    if digits.len() == 0 {
        0
    } else {
        decimal_value(digits.drop_last()) * 10 + ((digits.last() as u32) - 0x30)
    }
}

/// Whether `text` is made of digits, and of one at least.
pub open spec fn all_digits(text: Seq<char>) -> bool {
    text.len() > 0 && forall|i: int| 0 <= i < text.len() ==> is_digit(#[trigger] text[i])
}

/// The number from 0 to 255 that `text` writes: digits, at least one, after
/// a `+` or after nothing. Any other text writes none.
pub open spec fn parsed_u8(text: Seq<char>) -> Option<u8> {
    let digits = if text.len() > 0 && text[0] == '+' {
        text.skip(1)
    } else {
        text
    };
    if all_digits(digits) && decimal_value(digits) <= 255 {
        Some(decimal_value(digits) as u8)
    } else {
        None
    }
}

/// The word that the status file holds while the battery charges.
pub open spec fn charging_word() -> Seq<char> {
    seq!['C', 'h', 'a', 'r', 'g', 'i', 'n', 'g']
}

/// The charge in percent: that of the first file whose text, without the
/// white space round it, writes a number from 0 to 255.
pub open spec fn battery_percent(files: Seq<Option<Seq<char>>>) -> Option<u8>
    decreases files.len(),
{
    if files.len() == 0 {
        None
    } else {
        match files[0] {
            Some(text) => if parsed_u8(trim(text)) is Some {
                parsed_u8(trim(text))
            } else {
                battery_percent(files.skip(1))
            },
            None => battery_percent(files.skip(1)),
        }
    }
}

/// Whether the battery charges: whether the first file that could be read
/// holds the word `Charging`, white space round it apart.
pub open spec fn battery_charging(files: Seq<Option<Seq<char>>>) -> Option<bool>
    decreases files.len(),
{
    if files.len() == 0 {
        None
    } else {
        match files[0] {
            Some(text) => Some(trim(text) == charging_word()),
            None => battery_charging(files.skip(1)),
        }
    }
}

/// The texts of `files` as sequences of characters.
pub open spec fn texts(files: Seq<Option<String>>) -> Seq<Option<Seq<char>>> {
    files.map_values(|file: Option<String>| text_of(file))
}

/// The text of `file` as a sequence of characters.
pub open spec fn text_of(file: Option<String>) -> Option<Seq<char>> {
    match file {
        Some(text) => Some(text@),
        None => None,
    }
}

/// Reads a number from 0 to 255.
pub fn parse_u8(text: &Vec<char>) -> (number: Option<u8>)
    ensures
        number == parsed_u8(text@),
{
    let from: usize = if text.len() > 0 && text[0] == '+' {
        1
    } else {
        0
    };
    if from >= text.len() {
        return None;
    }
    let ghost digits = text@.skip(from as int);
    let mut value: u32 = 0;
    let mut i: usize = from;
    while i < text.len()
        invariant
            from <= i <= text.len(),
            digits == text@.skip(from as int),
            digits == if text@.len() > 0 && text@[0] == '+' {
                text@.skip(1)
            } else {
                text@
            },
            forall|k: int| 0 <= k < i - from ==> is_digit(#[trigger] digits[k]),
            value <= 256,
            decimal_value(digits.take(i - from)) >= 0,
            if decimal_value(digits.take(i - from)) <= 255 {
                value == decimal_value(digits.take(i - from))
            } else {
                value == 256
            },
        decreases text.len() - i,
    {
        let code: u32 = text[i] as u32;
        if code < 0x30 || code > 0x39 {
            assert(!is_digit(digits[i - from]));
            return None;
        }
        assert(digits.take(i - from + 1).drop_last() == digits.take(i - from));
        if value < 256 {
            value = value * 10 + (code - 0x30);
            if value > 255 {
                value = 256;
            }
        }
        i = i + 1;
    }
    assert(digits.take(i - from) == digits);
    if value > 255 {
        None
    } else {
        Some(value as u8)
    }
}

/// Read battery percentage from the texts of the capacity files.
pub fn read_battery_percent(files: &Vec<Option<String>>) -> (percent: Option<u8>)
    ensures
        percent == battery_percent(texts(files@)),
{
    let mut i: usize = 0;
    assert(texts(files@).skip(0) == texts(files@));
    while i < files.len()
        invariant
            i <= files.len(),
            battery_percent(texts(files@)) == battery_percent(texts(files@).skip(i as int)),
        decreases files.len() - i,
    {
        assert(texts(files@).skip(i as int).skip(1) == texts(files@).skip(i as int + 1));
        if let Some(content) = &files[i] {
            let text = chars_of(content.as_str());
            let number = parse_u8(&trimmed(&text));
            if number.is_some() {
                return number;
            }
        }
        i = i + 1;
    }
    None
}

/// Check if battery is charging, from the texts of the status files.
pub fn read_battery_charging(files: &Vec<Option<String>>) -> (charging: Option<bool>)
    ensures
        charging == battery_charging(texts(files@)),
{
    let mut i: usize = 0;
    assert(texts(files@).skip(0) == texts(files@));
    while i < files.len()
        invariant
            i <= files.len(),
            battery_charging(texts(files@)) == battery_charging(texts(files@).skip(i as int)),
        decreases files.len() - i,
    {
        assert(texts(files@).skip(i as int).skip(1) == texts(files@).skip(i as int + 1));
        if let Some(content) = &files[i] {
            let text = trimmed(&chars_of(content.as_str()));
            let word: Vec<char> = vec!['C', 'h', 'a', 'r', 'g', 'i', 'n', 'g'];
            let same = text.len() == word.len() && has_prefix(&text, &word);
            assert(text@.len() == word@.len() ==> text@.subrange(0, word@.len() as int) == text@);
            return Some(same);
        }
        i = i + 1;
    }
    None
}

/// What is told of the battery.
#[derive(Debug, Clone, Copy, PartialEq, Eq, Structural)]
pub struct BatteryInfo {
    pub percent: u8,
    pub charging: bool,
}

/// The state of the battery by the texts of the capacity files and of the
/// status files. What cannot be read is taken to be a full battery that
/// does not charge.
pub fn battery_info(capacity: &Vec<Option<String>>, status: &Vec<Option<String>>) -> (info:
    BatteryInfo)
    ensures
        info.percent == match battery_percent(texts(capacity@)) {
            Some(percent) => percent,
            None => DEFAULT_BATTERY_PERCENT,
        },
        info.charging == match battery_charging(texts(status@)) {
            Some(charging) => charging,
            None => DEFAULT_BATTERY_CHARGING,
        },
{
    BatteryInfo {
        percent: match read_battery_percent(capacity) {
            Some(percent) => percent,
            None => DEFAULT_BATTERY_PERCENT,
        },
        charging: match read_battery_charging(status) {
            Some(charging) => charging,
            None => DEFAULT_BATTERY_CHARGING,
        },
    }
}

} // verus!
