use telnet_bbs::input_interface::{Events, UserInterface};
use telnet_bbs::terminal::{
    disable_line_mode, enable_line_mode, enable_secret_mode, output_goodbye_message, InputMode,
    TerminalState,
};
use telnet_bbs::text::{blank, decimal_string, same_text};

fn padded(bytes: &[u8]) -> Vec<u8> {
    let mut buffer = vec![0u8; 30];
    buffer[..bytes.len()].copy_from_slice(bytes);
    buffer
}

#[test]
fn key_table_maps_each_code() {
    assert_eq!(Events::from_int(3), Events::Exit);
    assert_eq!(Events::from_int(13), Events::Enter);
    assert_eq!(Events::from_int(14), Events::CntrlN);
    assert_eq!(Events::from_int(17), Events::CntrlQ);
    assert_eq!(Events::from_int(65), Events::UpArrow);
    assert_eq!(Events::from_int(66), Events::DownArrow);
    assert_eq!(Events::from_int(99), Events::KeyC);
    assert_eq!(Events::from_int(104), Events::KeyH);
    assert_eq!(Events::from_int(110), Events::KeyN);
    assert_eq!(Events::from_int(114), Events::KeyR);
    assert_eq!(Events::from_int(115), Events::KeyS);
    assert_eq!(Events::from_int(0), Events::Unknown);
    assert_eq!(Events::from_int(67), Events::Unknown);
    assert_eq!(Events::from_int(-1), Events::Unknown);
}

#[test]
fn escape_sequences_decode_by_third_byte() {
    assert_eq!(UserInterface::get_user_event(&padded(&[27, 91, 65])), Events::UpArrow);
    assert_eq!(UserInterface::get_user_event(&padded(&[27, 91, 66])), Events::DownArrow);
    assert_eq!(UserInterface::get_user_event(&padded(&[27, 91, 115])), Events::KeyS);
    assert_eq!(UserInterface::get_user_event(&padded(&[27, 91, 67])), Events::Unknown);
}

#[test]
fn standalone_bytes_decode() {
    assert_eq!(UserInterface::get_user_event(&padded(&[13])), Events::Enter);
    assert_eq!(UserInterface::get_user_event(&padded(&[9])), Events::TAB);
    assert_eq!(UserInterface::get_user_event(&padded(&[27])), Events::NavigateView);
    assert_eq!(UserInterface::get_user_event(&padded(&[127])), Events::BackSpace);
    assert_eq!(UserInterface::get_user_event(&padded(&[32])), Events::SpaceBar);
    assert_eq!(UserInterface::get_user_event(&padded(&[3])), Events::Exit);
    assert_eq!(UserInterface::get_user_event(&padded(&[17])), Events::CntrlQ);
    assert_eq!(UserInterface::get_user_event(&padded(&[14])), Events::CntrlN);
    assert_eq!(UserInterface::get_user_event(&padded(&[b'h'])), Events::KeyH);
    assert_eq!(UserInterface::get_user_event(&padded(&[65])), Events::UpArrow);
    assert_eq!(UserInterface::get_user_event(&padded(&[66])), Events::DownArrow);
    assert_eq!(UserInterface::get_user_event(&padded(&[b'x'])), Events::Unknown);
    assert_eq!(UserInterface::get_user_event(&padded(&[])), Events::Unknown);
}

#[test]
fn short_frames_read_as_zero_padded() {
    assert_eq!(UserInterface::get_user_event(&[]), Events::Unknown);
    assert_eq!(UserInterface::get_user_event(&[27]), Events::NavigateView);
    assert_eq!(UserInterface::get_user_event(&[27, 91]), Events::Unknown);
    assert_eq!(UserInterface::get_user_event(&[13]), Events::Enter);
}

#[test]
fn clean_buffer_strips_nul_and_white_space() {
    assert_eq!(UserInterface::clean_buffer(&padded(b"alice")), "alice");
    assert_eq!(UserInterface::clean_buffer(&padded(b"  alice \r\n")), "alice");
    assert_eq!(UserInterface::clean_buffer(&[0, b'a', 0, b'b', 0]), "ab");
    assert_eq!(UserInterface::clean_buffer(&padded(b"two words")), "two words");
    assert_eq!(UserInterface::clean_buffer(&padded(b"")), "");
    assert_eq!(UserInterface::clean_buffer(&padded(b" \t\r\n")), "");
}

#[test]
fn clean_buffer_is_identity_on_clean_ascii() {
    for text in ["pw1", "hello, world!", "a", "x y z"] {
        assert_eq!(UserInterface::clean_buffer(text.as_bytes()), text);
        assert_eq!(UserInterface::clean_buffer(&padded(text.as_bytes())), text);
    }
}

#[test]
fn clean_buffer_rejects_invalid_encoding() {
    assert_eq!(UserInterface::clean_buffer(&padded(&[b'a', 0xff, b'b'])), "");
    assert_eq!(UserInterface::clean_buffer(&padded(&[0xc3])), "");
}

#[test]
fn clean_buffer_decodes_utf8_and_trims_unicode_space() {
    let text = "\u{00a0}\u{2003}h\u{e9}llo\u{3000}";
    assert_eq!(UserInterface::clean_buffer(text.as_bytes()), "h\u{e9}llo");
}

#[test]
fn typed_keys_then_backspaces_leave_an_empty_line() {
    let mut session = UserInterface::new();
    session.set_secret_input_mode();
    let keys = ["s", "3", "c", "r", "!", "t"];
    for key in keys {
        session.handle_input_event(&key.to_string(), &Events::Unknown);
    }
    session.handle_input_event(&" ".to_string(), &Events::SpaceBar);
    assert_eq!(session.get_user_input(), "s3cr!t ");
    for _ in 0..keys.len() + 1 {
        session.handle_input_event(&String::new(), &Events::BackSpace);
    }
    assert_eq!(session.get_user_input(), "");
    session.handle_input_event(&String::new(), &Events::BackSpace);
    assert_eq!(session.get_user_input(), "");
}

#[test]
fn input_line_keeps_printable_ascii_only() {
    let mut session = UserInterface::new();
    session.handle_input_event(&"a\u{7f}b\tc\u{e9}~!".to_string(), &Events::Unknown);
    assert_eq!(session.get_user_input(), "abc~!");
    session.handle_input_event(&"zzz".to_string(), &Events::Enter);
    session.handle_input_event(&"zzz".to_string(), &Events::Exit);
    assert_eq!(session.get_user_input(), "abc~!");
    session.handle_input_event(&"ignored".to_string(), &Events::SpaceBar);
    assert_eq!(session.get_user_input(), "abc~! ");
    session.handle_input_event(&"h".to_string(), &Events::KeyH);
    assert_eq!(session.get_user_input(), "abc~! h");
}

#[test]
fn control_sequences_are_the_three_presets() {
    assert_eq!(InputMode::Navigation.control_sequence(), vec![255, 251, 1, 255, 251, 3]);
    assert_eq!(InputMode::LineInput.control_sequence(), vec![255, 252, 1, 255, 252, 3]);
    assert_eq!(InputMode::SecretLineInput.control_sequence(), vec![255, 251, 1, 255, 252, 3]);
    assert_eq!(disable_line_mode(), vec![255, 251, 1, 255, 251, 3]);
    assert_eq!(enable_line_mode(), vec![255, 252, 1, 255, 252, 3]);
    assert_eq!(enable_secret_mode(), vec![255, 251, 1, 255, 252, 3]);
}

#[test]
fn control_sequence_twice_is_as_once() {
    let starts = [
        TerminalState { echo: false, line_buffering: false },
        TerminalState { echo: true, line_buffering: false },
        TerminalState { echo: false, line_buffering: true },
        TerminalState { echo: true, line_buffering: true },
    ];
    let modes = [InputMode::Navigation, InputMode::LineInput, InputMode::SecretLineInput];
    for start in starts {
        for mode in modes {
            let bytes = mode.control_sequence();
            let once = start.receive(&bytes);
            let twice = once.receive(&bytes);
            assert_eq!(once, twice);
        }
    }
    let any = TerminalState { echo: true, line_buffering: false };
    assert_eq!(
        any.receive(&InputMode::Navigation.control_sequence()),
        TerminalState { echo: false, line_buffering: false }
    );
    assert_eq!(
        any.receive(&InputMode::LineInput.control_sequence()),
        TerminalState { echo: true, line_buffering: true }
    );
    assert_eq!(
        any.receive(&InputMode::SecretLineInput.control_sequence()),
        TerminalState { echo: false, line_buffering: true }
    );
}

#[test]
fn terminal_ignores_bytes_outside_commands() {
    let start = TerminalState { echo: true, line_buffering: true };
    assert_eq!(start.receive(b"hello"), start);
    assert_eq!(start.receive(&[255, 251]), start);
    assert_eq!(start.receive(&[255, 253, 1]), start);
    assert_eq!(
        start.receive(&[b'x', 255, 251, 1, b'y']),
        TerminalState { echo: false, line_buffering: true }
    );
}

#[test]
fn session_mode_switch_twice_is_as_once() {
    let mut session = UserInterface::new();
    session.set_input_mode(true);
    assert!(session.is_in_input_mode());
    session.set_input_mode(true);
    assert_eq!(session.get_input_mode(), InputMode::LineInput);
    session.set_secret_input_mode();
    session.set_secret_input_mode();
    assert_eq!(session.get_input_mode(), InputMode::SecretLineInput);
    session.set_input_mode(false);
    session.set_input_mode(false);
    assert_eq!(session.get_input_mode(), InputMode::Navigation);
    assert!(!session.is_in_input_mode());
}

#[test]
fn goodbye_is_the_farewell_text() {
    assert_eq!(output_goodbye_message(), b"\x1b[1;32mGoodbye!\x1b[0m\r\n\r\n".to_vec());
}

#[test]
fn decimal_notation() {
    assert_eq!(decimal_string(0), "0");
    assert_eq!(decimal_string(7), "7");
    assert_eq!(decimal_string(10), "10");
    assert_eq!(decimal_string(2323), "2323");
    assert_eq!(decimal_string(-1), "-1");
    assert_eq!(decimal_string(i64::MAX), "9223372036854775807");
    assert_eq!(decimal_string(i64::MIN), "-9223372036854775808");
}

#[test]
fn blank_and_same_text() {
    assert!(blank(""));
    assert!(blank(" \t\r\n"));
    assert!(!blank(" a "));
    assert!(same_text("online", "online"));
    assert!(!same_text("online", "offline"));
    assert!(!same_text("", "x"));
}
