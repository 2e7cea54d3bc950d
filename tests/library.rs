use xaml_island::{
    action_for, check_status, child_bounds, creation_outcome, fetch_failure, handled_result,
    initial_island_bounds, loop_step, registration_outcome, status_value, wide_nul, Bounds,
    ErrorKind, LoopStep, MessageAction, PlatformError, Rect, RoInit, APARTMENT_TYPE,
    CHILD_CLASS_NAME, WM_CREATE, WM_DESTROY, WM_QUIT, WM_SIZE,
};

#[test]
fn wide_nul_of_ascii_name() {
    let expected: Vec<u16> = vec![
        0x43, 0x68, 0x69, 0x6C, 0x64, 0x57, 0x43, 0x6C, 0x61, 0x73, 0x73, 0,
    ];
    assert_eq!(wide_nul(CHILD_CLASS_NAME), expected);
}

#[test]
fn wide_nul_of_empty_name_is_only_the_terminator() {
    assert_eq!(wide_nul(""), vec![0u16]);
}

#[test]
fn wide_nul_matches_std_encoding() {
    let s = "xaml-island \u{e9}\u{20ac}\u{1F600}\u{10FFFF}";
    let mut expected: Vec<u16> = s.encode_utf16().collect();
    expected.push(0);
    assert_eq!(wide_nul(s), expected);
}

#[test]
fn wide_nul_uses_surrogate_pairs_above_the_basic_plane() {
    assert_eq!(wide_nul("\u{1F600}"), vec![0xD83D, 0xDE00, 0]);
    assert_eq!(wide_nul("\u{10000}"), vec![0xD800, 0xDC00, 0]);
    assert_eq!(wide_nul("\u{FFFF}"), vec![0xFFFF, 0]);
}

#[test]
fn success_codes_pass_values_through() {
    assert_eq!(check_status(0), Ok(()));
    assert_eq!(check_status(1), Ok(()));
    assert_eq!(check_status(0x7FFF_FFFF), Ok(()));
    assert_eq!(status_value(0, 42isize), Ok(42));
}

#[test]
fn failing_codes_become_status_errors() {
    let e = PlatformError { kind: ErrorKind::Status, code: 0x8000_4005 };
    assert_eq!(check_status(0x8000_4005), Err(e));
    assert_eq!(status_value(0x8000_0000, 7isize), Err(PlatformError {
        kind: ErrorKind::Status,
        code: 0x8000_0000,
    }));
    assert_eq!(e.description(), "Platform call failed");
}

#[test]
fn runtime_token_only_on_success() {
    assert!(RoInit::multi_threaded(0).is_ok());
    assert!(RoInit::multi_threaded(1).is_ok());
    let err = RoInit::multi_threaded(0x8001_0106).unwrap_err();
    assert_eq!(err, PlatformError { kind: ErrorKind::Status, code: 0x8001_0106 });
    assert_eq!(APARTMENT_TYPE, 0);
}

#[test]
fn registration_fails_on_zero_atom() {
    assert_eq!(registration_outcome(0xC001, 5), Ok(()));
    let err = registration_outcome(0, 1410).unwrap_err();
    assert_eq!(err, PlatformError { kind: ErrorKind::RegisterClass, code: 1410 });
    assert_eq!(err.description(), "Failed to register Window class");
}

#[test]
fn creation_fails_on_null_handle() {
    assert_eq!(creation_outcome(0x1234, 0), Ok(0x1234));
    assert_eq!(creation_outcome(-8, 0), Ok(-8));
    let err = creation_outcome(0, 1407).unwrap_err();
    assert_eq!(err, PlatformError { kind: ErrorKind::CreateWindow, code: 1407 });
    assert_eq!(err.description(), "Failed to create Window");
    let negative = creation_outcome(0, -1).unwrap_err();
    assert_eq!(negative.code, 0xFFFF_FFFF);
}

#[test]
fn island_starts_at_fixed_size() {
    assert_eq!(initial_island_bounds(), Bounds { x: 0, y: 0, width: 800, height: 200 });
}

#[test]
fn child_fills_client_area() {
    let client = Rect { left: 0, top: 0, right: 640, bottom: 480 };
    assert_eq!(child_bounds(&client), Bounds { x: 0, y: 0, width: 640, height: 480 });
    let offset = Rect { left: 10, top: 20, right: 300, bottom: 150 };
    assert_eq!(child_bounds(&offset), Bounds { x: 0, y: 0, width: 300, height: 150 });
}

#[test]
fn messages_map_to_actions() {
    assert_eq!(action_for(WM_DESTROY), MessageAction::Quit { exit_code: 0 });
    assert_eq!(action_for(WM_SIZE), MessageAction::FitChild);
    assert_eq!(action_for(WM_CREATE), MessageAction::CreateChild);
    assert_eq!(action_for(0x000F), MessageAction::PassThrough);
    assert_eq!(action_for(WM_QUIT), MessageAction::PassThrough);
}

#[test]
fn handled_messages_return_zero() {
    assert_eq!(handled_result(MessageAction::FitChild), Some(0));
    assert_eq!(handled_result(MessageAction::CreateChild), Some(0));
    assert_eq!(handled_result(MessageAction::Quit { exit_code: 0 }), Some(0));
    assert_eq!(handled_result(MessageAction::PassThrough), None);
}

#[test]
fn message_loop_stops_on_quit_or_zero() {
    assert_eq!(loop_step(1, WM_SIZE), LoopStep::Dispatch);
    assert_eq!(loop_step(7, 0x000F), LoopStep::Dispatch);
    assert_eq!(loop_step(0, WM_SIZE), LoopStep::Stop);
    assert_eq!(loop_step(0, WM_QUIT), LoopStep::Stop);
    assert_eq!(loop_step(1, WM_QUIT), LoopStep::Stop);
    assert_eq!((WM_CREATE, WM_DESTROY, WM_SIZE, WM_QUIT), (1, 2, 5, 0x12));
}

#[test]
fn terminator_is_the_only_zero_without_nul_characters() {
    let r = wide_nul("Hello World from Xaml Island!");
    assert_eq!(r.iter().filter(|u| **u == 0).count(), 1);
    assert_eq!(r.last(), Some(&0));
    let with_nul = wide_nul("a\0b");
    assert_eq!(with_nul, vec![0x61, 0, 0x62, 0]);
}

#[test]
fn failed_fetch_ends_the_loop_with_the_os_error() {
    assert_eq!(loop_step(-1, 0x000F), LoopStep::Fail);
    assert_eq!(loop_step(-1, WM_QUIT), LoopStep::Fail);
    let err = fetch_failure(1400);
    assert_eq!(err, PlatformError { kind: ErrorKind::FetchMessage, code: 1400 });
    assert_eq!(err.description(), "Failed to fetch a window message");
}
