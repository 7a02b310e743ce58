use vt::{
    blank_timer_sequence, clear_sequence, console_path, device_path, parse_blank_timer, path_for,
    written_for, Request, VtNumber,
};

#[test]
fn device_path_ends_in_the_number() {
    assert_eq!(device_path(0), "/dev/tty0");
    assert_eq!(device_path(7), "/dev/tty7");
    assert_eq!(device_path(10), "/dev/tty10");
    assert_eq!(device_path(63), "/dev/tty63");
    assert_eq!(device_path(2147483647), "/dev/tty2147483647");
}

#[test]
fn device_path_of_a_negative_number_has_its_sign() {
    assert_eq!(device_path(-1), "/dev/tty-1");
    assert_eq!(device_path(i32::MIN), "/dev/tty-2147483648");
}

#[test]
fn device_path_is_what_formatting_gives() {
    for number in [0, 1, 9, 10, 11, 99, 100, 101, 4096, 65535, 1000000, -7, -10, -100] {
        assert_eq!(device_path(number), format!("/dev/tty{}", number));
    }
}

#[test]
fn clear_sequence_homes_the_cursor_and_erases() {
    assert_eq!(clear_sequence(), "\x1b[H\x1b[J");
    assert_eq!(clear_sequence().as_bytes(), [0x1b, 0x5b, 0x48, 0x1b, 0x5b, 0x4a]);
}

#[test]
fn blank_timer_sequence_holds_the_seconds() {
    assert_eq!(blank_timer_sequence(0), "\x1b[9;0]");
    assert_eq!(blank_timer_sequence(1), "\x1b[9;1]");
    assert_eq!(blank_timer_sequence(600), "\x1b[9;600]");
    assert_eq!(blank_timer_sequence(u32::MAX), "\x1b[9;4294967295]");
}

#[test]
fn blank_timer_is_read_as_the_kernel_prints_it() {
    assert_eq!(parse_blank_timer("0\n"), Some(0));
    assert_eq!(parse_blank_timer("600\n"), Some(600));
    assert_eq!(parse_blank_timer("4294967295\n"), Some(u32::MAX));
}

#[test]
fn blank_timer_is_read_without_the_space_around_it() {
    assert_eq!(parse_blank_timer("  42"), Some(42));
    assert_eq!(parse_blank_timer("42 \t\r\n"), Some(42));
    assert_eq!(parse_blank_timer("\u{a0}42\u{3000}"), Some(42));
    assert_eq!(parse_blank_timer("\u{2003}7\u{85}"), Some(7));
}

#[test]
fn blank_timer_may_have_a_plus_sign_and_leading_zeros() {
    assert_eq!(parse_blank_timer("+5"), Some(5));
    assert_eq!(parse_blank_timer("007"), Some(7));
    assert_eq!(parse_blank_timer(" +0010 "), Some(10));
}

#[test]
fn text_that_is_no_number_states_no_timer() {
    assert_eq!(parse_blank_timer(""), None);
    assert_eq!(parse_blank_timer("   \n"), None);
    assert_eq!(parse_blank_timer("+"), None);
    assert_eq!(parse_blank_timer("-1"), None);
    assert_eq!(parse_blank_timer("++1"), None);
    assert_eq!(parse_blank_timer("+ 1"), None);
    assert_eq!(parse_blank_timer("12a"), None);
    assert_eq!(parse_blank_timer("1 2"), None);
    assert_eq!(parse_blank_timer("0x10"), None);
    assert_eq!(parse_blank_timer("1_000"), None);
    assert_eq!(parse_blank_timer("٣"), None);
}

#[test]
fn timer_beyond_32_bits_states_no_timer() {
    assert_eq!(parse_blank_timer("4294967296"), None);
    assert_eq!(parse_blank_timer("99999999999999999999999999"), None);
}

#[test]
fn blank_timer_is_read_as_the_standard_library_reads_it() {
    let texts = [
        "0", "1\n", " 17 ", "+3", "-3", "", " ", "+", "4294967295", "4294967296", "00000000001",
        "12 34", "\t9\n", "9\u{200a}", "9\u{200b}", "a", "1e3", "١٢٣",
    ];
    for text in texts {
        assert_eq!(parse_blank_timer(text), text.trim().parse::<u32>().ok(), "{:?}", text);
    }
}

#[test]
fn written_timer_reads_back() {
    for seconds in [0, 1, 9, 10, 60, 600, 86400, u32::MAX] {
        let sequence = blank_timer_sequence(seconds);
        let digits = &sequence[4..sequence.len() - 1];
        assert_eq!(parse_blank_timer(digits), Some(seconds));
    }
}

#[test]
fn requests_that_write_have_their_text() {
    assert_eq!(written_for(Request::ClearScreen(3)), Some("\x1b[H\x1b[J".to_string()));
    assert_eq!(written_for(Request::SetBlankTimer(3, 1)), Some("\x1b[9;1]".to_string()));
    assert_eq!(written_for(Request::SetBlankTimer(3, 0)), Some("\x1b[9;0]".to_string()));
}

#[test]
fn requests_that_do_not_write_have_no_text() {
    assert_eq!(written_for(Request::Blank(3)), None);
    assert_eq!(written_for(Request::OpenDevice(3)), None);
    assert_eq!(written_for(Request::FirstFree), None);
    assert_eq!(written_for(Request::ReadBlankTimer), None);
}

#[test]
fn console_is_at_its_fixed_path() {
    assert_eq!(console_path(), "/dev/console");
}

#[test]
fn requests_that_open_a_file_have_its_path() {
    assert_eq!(path_for(Request::OpenDevice(12)), Some("/dev/tty12".to_string()));
    assert_eq!(path_for(Request::OpenDevice(-1)), Some("/dev/tty-1".to_string()));
    assert_eq!(
        path_for(Request::ReadBlankTimer),
        Some("/sys/module/kernel/parameters/consoleblank".to_string())
    );
}

#[test]
fn requests_that_open_no_file_have_no_path() {
    assert_eq!(path_for(Request::CloseDevice(12)), None);
    assert_eq!(path_for(Request::LoadAttributes(12)), None);
    assert_eq!(path_for(Request::GetState), None);
}

#[test]
fn number_is_written_in_decimal() {
    assert_eq!(VtNumber::new(0).unwrap().to_text(), "0");
    assert_eq!(VtNumber::new(63).unwrap().to_text(), "63");
    assert_eq!(VtNumber::new(i32::MAX).unwrap().to_text(), "2147483647");
}
