//! The tray's commands and its icon: three rising bars on a transparent
//! 32x32 RGBA canvas.

use vstd::prelude::*;

verus! {

/// What the tray asks the panel to do.
#[derive(Clone, Copy, Debug, PartialEq, Eq)]
pub enum Command {
    Show,
    Refresh,
    Quit,
}

/// The menu item ids of the tray menu.
pub open spec fn menu_command(id: Seq<char>) -> Option<Command> {
    if id == "aiu-show"@ {
        Some(Command::Show)
    } else if id == "aiu-refresh"@ {
        Some(Command::Refresh)
    } else if id == "aiu-quit"@ {
        Some(Command::Quit)
    } else {
        None
    }
}

/// The command a tray menu item stands for; other menu events are ignored.
pub fn command_for_menu_id(id: &str) -> (r: Option<Command>)
    ensures
        r == menu_command(id@),
{
    let id = String::from_str(id);
    if id == String::from_str("aiu-show") {
        Some(Command::Show)
    } else if id == String::from_str("aiu-refresh") {
        Some(Command::Refresh)
    } else if id == String::from_str("aiu-quit") {
        Some(Command::Quit)
    } else {
        None
    }
}

/// A click on the tray icon shows the window when it is a released left
/// click and the left button does not open the menu instead.
pub fn command_for_click(left_released: bool, menu_on_left_click: bool) -> (r: Option<Command>)
    ensures
        r == (if left_released && !menu_on_left_click { Some(Command::Show) } else { None::<Command> }),
{
    if left_released && !menu_on_left_click {
        Some(Command::Show)
    } else {
        None
    }
}

/// The icon's width and height in pixels.
pub const ICON_SIZE: u32 = 32;

/// Whether pixel (x, y) lies on one of the three bars, each six pixels wide
/// and ending at row 28: from x = 4 rising from row 18, from x = 13 from
/// row 10, from x = 22 from row 4.
pub open spec fn on_bar(x: int, y: int) -> bool {
    ||| (4 <= x < 10 && 18 <= y < 28)
    ||| (13 <= x < 19 && 10 <= y < 28)
    ||| (22 <= x < 28 && 4 <= y < 28)
}

/// Channel `c` (red, green, blue, alpha) of the bar colour.
pub open spec fn bar_channel(c: int) -> u8 {
    if c == 0 { 133 } else if c == 1 { 203 } else if c == 2 { 193 } else { 255 }
}

/// Byte `i` of the row-major RGBA icon.
pub open spec fn icon_byte(i: int) -> u8 {
    let p = i / 4;
    if on_bar(p % 32, p / 32) { bar_channel(i % 4) } else { 0 }
}

/// The tray icon's RGBA pixels, row by row.
pub fn icon_pixels() -> (r: Vec<u8>)
    ensures
        r@.len() == 32 * 32 * 4,
        forall|i: int| 0 <= i < r@.len() ==> r@[i] == icon_byte(i),
{
    let mut pixels: Vec<u8> = Vec::new();
    let mut i: usize = 0;
    while i < 4096
        invariant
            i <= 4096,
            pixels@.len() == i,
            forall|j: int| 0 <= j < i ==> pixels@[j] == icon_byte(j),
        decreases 4096 - i,
    {
        let p = i / 4;
        let x = p % 32;
        let y = p / 32;
        let c = i % 4;
        let on = (4 <= x && x < 10 && 18 <= y && y < 28)
            || (13 <= x && x < 19 && 10 <= y && y < 28)
            || (22 <= x && x < 28 && 4 <= y && y < 28);
        let byte: u8 = if !on {
            0
        } else if c == 0 {
            133
        } else if c == 1 {
            203
        } else if c == 2 {
            193
        } else {
            255
        };
        pixels.push(byte);
        i = i + 1;
    }
    pixels
}

} // verus!
