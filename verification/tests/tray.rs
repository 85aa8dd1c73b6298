use whispr::tray::{menu_command, tray_icon_rgba, MenuCommand};

fn float_pixel(x: usize, y: usize) -> [u8; 4] {
    let dx = x as f32 - 32.0;
    let dy = y as f32 - 32.0;
    let inside = (dx * dx + dy * dy).sqrt() < 28.0;
    let mic = inside && ((dx.abs() < 6.0 && dy.abs() < 19.0) || (dy.abs() < 4.0 && dx.abs() < 18.0));
    if mic {
        [249, 251, 245, 255]
    } else if inside {
        [24, 61, 54, 255]
    } else {
        [0, 0, 0, 0]
    }
}

#[test]
fn icon_has_64_by_64_rgba_pixels() {
    assert_eq!(tray_icon_rgba().len(), 64 * 64 * 4);
}

#[test]
fn icon_matches_the_drawing_in_floating_point() {
    let v = tray_icon_rgba();
    for y in 0..64 {
        for x in 0..64 {
            let i = (y * 64 + x) * 4;
            assert_eq!(&v[i..i + 4], &float_pixel(x, y), "pixel {} {}", x, y);
        }
    }
}

#[test]
fn icon_centre_is_microphone_and_corner_is_clear() {
    let v = tray_icon_rgba();
    let centre = (32 * 64 + 32) * 4;
    assert_eq!(&v[centre..centre + 4], &[249, 251, 245, 255]);
    assert_eq!(&v[0..4], &[0, 0, 0, 0]);
    let disc = (32 * 64 + 10) * 4;
    assert_eq!(&v[disc..disc + 4], &[24, 61, 54, 255]);
}

#[test]
fn menu_items_map_to_commands() {
    assert_eq!(menu_command("settings"), MenuCommand::ShowSettings);
    assert_eq!(menu_command("quit"), MenuCommand::Quit);
    assert_eq!(menu_command("Quit"), MenuCommand::Ignore);
    assert_eq!(menu_command(""), MenuCommand::Ignore);
}
