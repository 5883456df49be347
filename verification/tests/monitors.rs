use screencap::macos;
use screencap::macos::monitor::DisplayMode;
use screencap::windows;
use screencap::windows::monitor::VirtualScreen;
use screencap::Error;

type Quartz = macos::monitor::Monitor;
type Win = windows::monitor::Monitor;

fn quartz(index: u32, display: u32) -> (u32, u32) {
    (index, display)
}

fn win(index: u32, h_monitor: isize) -> (u32, isize) {
    (index, h_monitor)
}

fn q(monitor: Quartz) -> (u32, u32) {
    (monitor.index, monitor.display)
}

fn w(monitor: Win) -> (u32, isize) {
    (monitor.index, monitor.h_monitor)
}

fn quartz_all(active: &[u32], main: u32) -> Vec<(u32, u32)> {
    Quartz::all(Some(active), main).unwrap().into_iter().map(q).collect()
}

fn win_all(handles: &[isize], primary: isize) -> Vec<(u32, isize)> {
    Win::all(Some(handles), primary).unwrap().into_iter().map(w).collect()
}

#[test]
fn displays_are_numbered_with_the_main_display_first() {
    let all = quartz_all(&[5, 9, 3], 9);
    assert_eq!(all, vec![quartz(0, 9), quartz(1, 5), quartz(2, 3)]);
}

#[test]
fn the_main_display_keeps_place_zero_when_it_is_listed_first() {
    let all = quartz_all(&[9, 5, 3], 9);
    assert_eq!(all, vec![quartz(0, 9), quartz(1, 5), quartz(2, 3)]);
}

#[test]
fn a_single_display_is_monitor_zero() {
    assert_eq!(quartz_all(&[7], 7), vec![quartz(0, 7)]);
}

#[test]
fn no_active_display_is_no_monitor_and_no_error() {
    assert_eq!(quartz_all(&[], 7), vec![]);
    assert!(Quartz::all(Some(&[]), 7).is_ok());
}

#[test]
fn index_zero_is_the_main_display_for_every_listing() {
    let listings: [&[u32]; 4] = [&[1], &[1, 2], &[2, 1], &[3, 2, 1, 4]];
    for active in listings {
        let all = quartz_all(active, 1);
        assert_eq!(all[0], quartz(0, 1));
        assert_eq!(all.len(), active.len());
        for (place, monitor) in all.iter().enumerate() {
            assert_eq!(monitor.0 as usize, place);
        }
    }
}

#[test]
fn the_primary_display_is_found_where_a_display_is_active() {
    assert_eq!(Quartz::primary(Some(&[4, 8]), 8).map(q), Ok(quartz(0, 8)));
    assert_eq!(Quartz::primary(Some(&[]), 8).map(q), Err(Error::NotFound));
}

#[test]
fn a_display_is_found_by_its_number() {
    let active = [5u32, 9, 3];
    assert_eq!(Quartz::from_index(0, Some(&active), 9).map(q), Ok(quartz(0, 9)));
    assert_eq!(Quartz::from_index(1, Some(&active), 9).map(q), Ok(quartz(1, 5)));
    assert_eq!(Quartz::from_index(2, Some(&active), 9).map(q), Ok(quartz(2, 3)));
    assert_eq!(Quartz::from_index(3, Some(&active), 9).map(q), Err(Error::NotFound));
    assert_eq!(Quartz::from_index(u32::MAX, Some(&active), 9).map(q), Err(Error::NotFound));
}

#[test]
fn from_index_agrees_with_all() {
    let active = [11u32, 12, 13, 14];
    for main in active {
        let all = quartz_all(&active, main);
        for index in 0..6u32 {
            let found = Quartz::from_index(index, Some(&active), main).map(q);
            match all.get(index as usize) {
                Some(monitor) => assert_eq!(found, Ok(*monitor)),
                None => assert_eq!(found, Err(Error::NotFound)),
            }
        }
    }
}

#[test]
fn a_quartz_monitor_hands_out_its_fields() {
    let monitor = Quartz { index: 2, display: 77 };
    assert_eq!(monitor.index(), 2);
    assert_eq!(monitor.display(), 77);
}

#[test]
fn the_size_of_a_display_is_its_mode_in_pixels() {
    let mode = DisplayMode { width: 1440, height: 900, pixel_width: 2880, pixel_height: 1800 };
    assert_eq!(Quartz { index: 0, display: 1 }.size(Some(mode)), Ok((2880, 1800)));
}

#[test]
fn a_display_without_a_mode_has_no_size() {
    assert_eq!(Quartz { index: 0, display: 1 }.size(None), Err(Error::NotFound));
}

#[test]
fn a_size_beyond_32_bits_keeps_its_low_bits() {
    let mode = DisplayMode {
        width: 1,
        height: 1,
        pixel_width: (1u64 << 32) + 5,
        pixel_height: u64::MAX,
    };
    assert_eq!(Quartz { index: 0, display: 1 }.size(Some(mode)), Ok((5, u32::MAX)));
}

#[test]
fn monitors_are_numbered_with_the_primary_first() {
    let all = win_all(&[0x30, 0x10, 0x20], 0x10);
    assert_eq!(all, vec![win(0, 0x10), win(1, 0x30), win(2, 0x20)]);
    assert_eq!(win_all(&[], 0x10), vec![]);
}

#[test]
fn the_primary_monitor_needs_a_valid_handle() {
    assert_eq!(Win::primary(0x10).map(w), Ok(win(0, 0x10)));
    assert_eq!(Win::primary(0).map(w), Err(Error::NotFound));
    assert_eq!(Win::primary(-1).map(w), Err(Error::NotFound));
    assert_eq!(Win::primary(-2).map(w), Ok(win(0, -2)));
}

#[test]
fn a_monitor_is_found_by_its_number() {
    let handles = [0x30isize, 0x10, 0x20];
    assert_eq!(Win::from_index(0, Some(&handles), 0x10).map(w), Ok(win(0, 0x10)));
    assert_eq!(Win::from_index(1, Some(&handles), 0x10).map(w), Ok(win(1, 0x30)));
    assert_eq!(Win::from_index(2, Some(&handles), 0x10).map(w), Ok(win(2, 0x20)));
    assert_eq!(Win::from_index(3, Some(&handles), 0x10).map(w), Err(Error::NotFound));
    assert_eq!(Win::from_index(0, Some(&[]), 0x10).map(w), Err(Error::NotFound));
}

#[test]
fn a_windows_monitor_hands_out_its_fields() {
    let monitor = Win { index: 1, h_monitor: 0x44 };
    assert_eq!(monitor.index(), 1);
    assert_eq!(monitor.h_monitor(), 0x44);
}

fn utf16(text: &str) -> Vec<u16> {
    text.encode_utf16().collect()
}

#[test]
fn a_device_name_ends_at_the_first_nul() {
    let mut field = utf16("\\\\.\\DISPLAY1");
    field.resize(32, 0);
    let name = Win::device_name_units(&field);
    assert_eq!(name, &utf16("\\\\.\\DISPLAY1")[..]);
    assert_eq!(String::from_utf16_lossy(name), "\\\\.\\DISPLAY1");
}

#[test]
fn a_device_name_ignores_what_follows_the_nul() {
    let field = [65u16, 66, 0, 67, 0, 0];
    assert_eq!(Win::device_name_units(&field), &[65, 66]);
}

#[test]
fn a_device_name_without_a_nul_fills_the_field() {
    let field = [65u16, 66, 67];
    assert_eq!(Win::device_name_units(&field), &[65, 66, 67]);
    assert_eq!(Win::device_name_units(&[]), &[] as &[u16]);
    assert_eq!(Win::device_name_units(&[0, 65]), &[] as &[u16]);
}

#[test]
fn a_wide_device_name_ends_in_one_nul() {
    let wide = Win::device_name_wide(&utf16("DISPLAY1"));
    let mut expected = utf16("DISPLAY1");
    expected.push(0);
    assert_eq!(wide, expected);
    assert_eq!(Win::device_name_wide(&[]), vec![0]);
}

#[test]
fn the_virtual_screen_has_the_size_the_system_reports() {
    let screen = VirtualScreen::new().unwrap();
    assert_eq!(screen.size(3840, 1080), Ok((3840, 1080)));
    assert_eq!(screen.size(1, 1), Ok((1, 1)));
    assert_eq!(screen.size(i32::MAX, i32::MAX), Ok((i32::MAX as u32, i32::MAX as u32)));
}

#[test]
fn a_virtual_screen_without_extent_is_an_error() {
    let screen = VirtualScreen::new().unwrap();
    assert_eq!(screen.size(0, 1080), Err(Error::Resource));
    assert_eq!(screen.size(1920, 0), Err(Error::Resource));
    assert_eq!(screen.size(-1, -1), Err(Error::Resource));
    assert_eq!(screen.rect(0, 0, 0, 0), Err(Error::Resource));
}

#[test]
fn the_virtual_screen_may_start_left_of_the_primary_monitor() {
    let screen = VirtualScreen::new().unwrap();
    assert_eq!(screen.rect(-1920, -200, 3840, 1280), Ok((-1920, -200, 3840, 1280)));
}

#[test]
fn a_failed_enumeration_is_an_error() {
    assert_eq!(Quartz::all(None, 1), Err(Error::Enumeration));
    assert_eq!(Quartz::primary(None, 1), Err(Error::Enumeration));
    assert_eq!(Quartz::from_index(0, None, 1), Err(Error::Enumeration));
    assert_eq!(Win::all(None, 0x10), Err(Error::Enumeration));
    assert_eq!(Win::from_index(0, None, 0x10), Err(Error::Enumeration));
}

#[test]
fn a_monitor_is_known_by_its_handle_and_not_by_its_place() {
    assert_eq!(Quartz { index: 0, display: 7 }, Quartz { index: 3, display: 7 });
    assert_ne!(Quartz { index: 0, display: 7 }, Quartz { index: 0, display: 8 });
    assert_eq!(Win { index: 1, h_monitor: 0x10 }, Win { index: 0, h_monitor: 0x10 });
    assert_ne!(Win { index: 1, h_monitor: 0x10 }, Win { index: 1, h_monitor: 0x20 });
}

#[test]
fn a_monitor_keeps_its_identity_when_the_numbering_shifts() {
    let before = Win::all(Some(&[0x10, 0x20, 0x30]), 0x10).unwrap();
    let after = Win::all(Some(&[0x20, 0x30, 0x10]), 0x20).unwrap();
    assert_eq!(before[1], after[0]);
    assert_eq!((before[1].index, after[0].index), (1, 0));
}
