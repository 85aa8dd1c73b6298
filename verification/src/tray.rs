//! The tray: its icon, drawn as pixels, and its menu.
use vstd::prelude::*;
use crate::text::str_eq;

verus! {

/// The icon's width and height in pixels.
pub const ICON_SIZE: usize = 64;

/// The icon is a dark green disc of radius 28 around the centre (32, 32), with
/// a light microphone cross on it: a vertical bar 11 pixels wide and 37 high,
/// and a horizontal bar 35 wide and 7 high.
pub open spec fn in_disc(x: int, y: int) -> bool {
    let dx = x - 32;
    let dy = y - 32;
    dx * dx + dy * dy < 784
}

pub open spec fn abs(v: int) -> int {
    if v < 0 {
        -v
    } else {
        v
    }
}

pub open spec fn in_microphone(x: int, y: int) -> bool {
    let dx = x - 32;
    let dy = y - 32;
    &&& in_disc(x, y)
    &&& (abs(dx) < 6 && abs(dy) < 19) || (abs(dy) < 4 && abs(dx) < 18)
}

/// Channel `c` (red, green, blue, alpha) of the pixel at column `x`, row `y`.
pub open spec fn icon_channel(x: int, y: int, c: int) -> u8 {
    let rgba: (u8, u8, u8, u8) = if in_microphone(x, y) {
        (249, 251, 245, 255)
    } else if in_disc(x, y) {
        (24, 61, 54, 255)
    } else {
        (0, 0, 0, 0)
    };
    if c == 0 {
        rgba.0
    } else if c == 1 {
        rgba.1
    } else if c == 2 {
        rgba.2
    } else {
        rgba.3
    }
}

/// Byte `i` of the icon's RGBA pixels, stored row by row.
pub open spec fn icon_byte(i: int) -> u8 {
    let p = i / 4;
    icon_channel(p % 64, p / 64, i % 4)
}

proof fn lemma_icon_index(x: int, y: int, c: int)
    requires
        0 <= x < 64,
        0 <= y < 64,
        0 <= c < 4,
    ensures
        (4 * (64 * y + x) + c) / 4 == 64 * y + x,
        (4 * (64 * y + x) + c) % 4 == c,
        (64 * y + x) % 64 == x,
        (64 * y + x) / 64 == y,
{
    assert((4 * (64 * y + x) + c) / 4 == 64 * y + x) by (nonlinear_arith)
        requires
            0 <= x < 64,
            0 <= y < 64,
            0 <= c < 4,
    ;
    assert((4 * (64 * y + x) + c) % 4 == c) by (nonlinear_arith)
        requires
            0 <= x < 64,
            0 <= y < 64,
            0 <= c < 4,
    ;
    assert((64 * y + x) % 64 == x) by (nonlinear_arith)
        requires
            0 <= x < 64,
            0 <= y < 64,
    ;
    assert((64 * y + x) / 64 == y) by (nonlinear_arith)
        requires
            0 <= x < 64,
            0 <= y < 64,
    ;
}

fn pixel(x: i32, y: i32) -> (rgba: (u8, u8, u8, u8))
    requires
        0 <= x < 64,
        0 <= y < 64,
    ensures
        rgba.0 == icon_channel(x as int, y as int, 0),
        rgba.1 == icon_channel(x as int, y as int, 1),
        rgba.2 == icon_channel(x as int, y as int, 2),
        rgba.3 == icon_channel(x as int, y as int, 3),
{
    let dx: i32 = x - 32;
    let dy: i32 = y - 32;
    assert(0 <= dx * dx <= 1024 && 0 <= dy * dy <= 1024) by (nonlinear_arith)
        requires
            -32 <= dx < 32,
            -32 <= dy < 32,
    ;
    let inside = dx * dx + dy * dy < 784;
    let adx: i32 = if dx < 0 {
        -dx
    } else {
        dx
    };
    let ady: i32 = if dy < 0 {
        -dy
    } else {
        dy
    };
    let mic = inside && ((adx < 6 && ady < 19) || (ady < 4 && adx < 18));
    if mic {
        (249, 251, 245, 255)
    } else if inside {
        (24, 61, 54, 255)
    } else {
        (0, 0, 0, 0)
    }
}

/// The tray icon's pixels: 64 by 64, RGBA, row by row.
pub fn tray_icon_rgba() -> (v: Vec<u8>)
    ensures
        v@.len() == 64 * 64 * 4,
        forall|i: int| 0 <= i < v@.len() ==> #[trigger] v@[i] == icon_byte(i),
{
    let mut v: Vec<u8> = Vec::new();
    let mut y: i32 = 0;
    while y < 64
        invariant
            0 <= y <= 64,
            v@.len() == 256 * y,
            forall|i: int| 0 <= i < v@.len() ==> #[trigger] v@[i] == icon_byte(i),
        decreases 64 - y,
    {
        let mut x: i32 = 0;
        while x < 64
            invariant
                0 <= y < 64,
                0 <= x <= 64,
                v@.len() == 256 * y + 4 * x,
                forall|i: int| 0 <= i < v@.len() ==> #[trigger] v@[i] == icon_byte(i),
            decreases 64 - x,
        {
            let rgba = pixel(x, y);
            let ghost base = v@.len() as int;
            proof {
                lemma_icon_index(x as int, y as int, 0);
                lemma_icon_index(x as int, y as int, 1);
                lemma_icon_index(x as int, y as int, 2);
                lemma_icon_index(x as int, y as int, 3);
            }
            v.push(rgba.0);
            v.push(rgba.1);
            v.push(rgba.2);
            v.push(rgba.3);
            assert(v@[base] == icon_byte(base));
            assert(v@[base + 1] == icon_byte(base + 1));
            assert(v@[base + 2] == icon_byte(base + 2));
            assert(v@[base + 3] == icon_byte(base + 3));
            x = x + 1;
        }
        y = y + 1;
    }
    v
}

pub const SETTINGS_ITEM: &'static str = "settings";

pub const QUIT_ITEM: &'static str = "quit";

/// What choosing a tray menu item does.
#[derive(Debug, PartialEq, Eq, Structural, Clone, Copy)]
pub enum MenuCommand {
    /// Show and focus the settings window.
    ShowSettings,
    /// Quit the application.
    Quit,
    /// Nothing.
    Ignore,
}

/// The command of the menu item with id `id`.
pub open spec fn menu_command_for(id: Seq<char>) -> MenuCommand {
    if id == SETTINGS_ITEM@ {
        MenuCommand::ShowSettings
    } else if id == QUIT_ITEM@ {
        MenuCommand::Quit
    } else {
        MenuCommand::Ignore
    }
}

/// The command of the menu item with id `id`.
pub fn menu_command(id: &str) -> (c: MenuCommand)
    ensures
        c == menu_command_for(id@),
{
    if str_eq(id, SETTINGS_ITEM) {
        MenuCommand::ShowSettings
    } else if str_eq(id, QUIT_ITEM) {
        MenuCommand::Quit
    } else {
        MenuCommand::Ignore
    }
}


/// The icon's pixels: transparent outside the disc of radius 28 around
/// (32, 32), opaque inside; every pixel is transparent black, the disc's dark
/// green (24, 61, 54) or the microphone's light colour (249, 251, 245); and
/// the picture is symmetric about the centre lines.
pub proof fn law_icon_pixels(x: int, y: int)
    requires
        0 <= x < 64,
        0 <= y < 64,
    ensures
        icon_channel(x, y, 3) == 0 <==> (x - 32) * (x - 32) + (y - 32) * (y - 32) >= 784,
        icon_channel(x, y, 3) == 0 ==> icon_channel(x, y, 0) == 0 && icon_channel(x, y, 1) == 0
            && icon_channel(x, y, 2) == 0,
        icon_channel(x, y, 3) != 0 ==> icon_channel(x, y, 3) == 255 && ((icon_channel(x, y, 0) == 24
            && icon_channel(x, y, 1) == 61 && icon_channel(x, y, 2) == 54) || (icon_channel(x, y, 0) == 249
            && icon_channel(x, y, 1) == 251 && icon_channel(x, y, 2) == 245)),
        x > 0 ==> forall|c: int| 0 <= c < 4 ==> #[trigger] icon_channel(x, y, c) == icon_channel(64 - x, y, c),
        y > 0 ==> forall|c: int| 0 <= c < 4 ==> #[trigger] icon_channel(x, y, c) == icon_channel(x, 64 - y, c),
{
    assert((64 - x - 32) * (64 - x - 32) == (x - 32) * (x - 32)) by (nonlinear_arith);
    assert((64 - y - 32) * (64 - y - 32) == (y - 32) * (y - 32)) by (nonlinear_arith);
}

/// The menu's items by id: `settings` shows the settings, `quit` quits, any
/// other id does nothing.
pub proof fn law_menu_items(id: Seq<char>)
    ensures
        id == "settings"@ ==> menu_command_for(id) == MenuCommand::ShowSettings,
        id == "quit"@ ==> menu_command_for(id) == MenuCommand::Quit,
        id != "settings"@ && id != "quit"@ ==> menu_command_for(id) == MenuCommand::Ignore,
{
    reveal_strlit("settings");
    reveal_strlit("quit");
    assert("settings"@.len() != "quit"@.len());
}


/// The menu item ids, word for word.
pub proof fn law_tray_texts()
    ensures
        SETTINGS_ITEM@ == "settings"@,
        QUIT_ITEM@ == "quit"@,
{
}

} // verus!
