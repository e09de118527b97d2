use whydotool::error::InputError;
use whydotool::session::{
    Phase, PortalRequest, PortalResponse, RemoteDesktopBuilder, SessionNegotiation, SessionStep,
};
use whydotool::token::SessionToken;

fn ok(handle: Option<&str>, streams: Vec<u32>) -> PortalResponse {
    PortalResponse { code: 0, session_handle: handle.map(|h| h.to_string()), streams }
}

fn status(code: u32) -> PortalResponse {
    PortalResponse { code, session_handle: None, streams: vec![] }
}

const HANDLE: &str = "/org/freedesktop/portal/desktop/session/1_1/whydotool_abc";

#[test]
fn builder_starts_empty_and_sets_each_flag() {
    let b = RemoteDesktopBuilder::new();
    assert!(!b.enable_keyboard && !b.enable_pointer && !b.enable_screencast);
    assert_eq!(RemoteDesktopBuilder::default(), b);
    let b = b.keyboard(true).pointer(true).screencast(true);
    assert!(b.enable_keyboard && b.enable_pointer && b.enable_screencast);
    let b = b.pointer(false);
    assert!(b.enable_keyboard && !b.enable_pointer && b.enable_screencast);
}

#[test]
fn device_mask_is_requested_and_available() {
    let both = RemoteDesktopBuilder::new().keyboard(true).pointer(true);
    assert_eq!(both.device_mask(3), 3);
    assert_eq!(both.device_mask(1), 1);
    assert_eq!(both.device_mask(2), 2);
    assert_eq!(both.device_mask(4), 0);
    assert_eq!(RemoteDesktopBuilder::new().pointer(true).device_mask(7), 2);
    assert_eq!(RemoteDesktopBuilder::new().keyboard(true).device_mask(7), 1);
}

#[test]
fn keyboard_session_reaches_ready() {
    let mut n = SessionNegotiation::begin(RemoteDesktopBuilder::new().keyboard(true), 3);
    match n.on_response(ok(Some(HANDLE), vec![])) {
        SessionStep::Send(PortalRequest::SelectDevices { session_handle, types }) => {
            assert_eq!(session_handle, HANDLE);
            assert_eq!(types, 1);
        }
        other => panic!("unexpected {other:?}"),
    }
    match n.on_response(status(0)) {
        SessionStep::Send(PortalRequest::Start { session_handle, devices }) => {
            assert_eq!(session_handle, HANDLE);
            assert_eq!(devices, 1);
        }
        other => panic!("unexpected {other:?}"),
    }
    match n.on_response(status(0)) {
        SessionStep::Ready(s) => {
            assert_eq!(s.session_handle, HANDLE);
            assert_eq!(s.device_mask, 1);
            assert!(!s.screencast);
        }
        other => panic!("unexpected {other:?}"),
    }
    assert_eq!(n.phase, Phase::Ready);
    assert!(matches!(n.on_response(status(0)), SessionStep::Finished));
}

#[test]
fn screencast_selects_sources_before_start() {
    let b = RemoteDesktopBuilder::new().pointer(true).screencast(true);
    let mut n = SessionNegotiation::begin(b, 3);
    assert!(matches!(
        n.on_response(ok(Some(HANDLE), vec![])),
        SessionStep::Send(PortalRequest::SelectDevices { types: 2, .. })
    ));
    assert!(matches!(
        n.on_response(status(0)),
        SessionStep::Send(PortalRequest::SelectSources { types: 1, multiple: true, .. })
    ));
    assert!(matches!(
        n.on_response(status(0)),
        SessionStep::Send(PortalRequest::Start { devices: 2, .. })
    ));
    match n.on_response(ok(None, vec![57, 58])) {
        SessionStep::Ready(s) => {
            assert_eq!(s.streams, vec![57, 58]);
            assert!(s.screencast);
        }
        other => panic!("unexpected {other:?}"),
    }
}

#[test]
fn start_rejected_ends_the_session() {
    let mut n = SessionNegotiation::begin(RemoteDesktopBuilder::new().pointer(true), 2);
    n.on_response(ok(Some(HANDLE), vec![]));
    n.on_response(status(0));
    assert!(matches!(n.on_response(status(1)), SessionStep::Failed(InputError::SessionRejected)));
    assert_eq!(n.phase, Phase::Failed);
    assert!(matches!(n.on_response(status(0)), SessionStep::Finished));
}

#[test]
fn no_offered_device_fails_at_selection() {
    let mut n = SessionNegotiation::begin(RemoteDesktopBuilder::new().keyboard(true), 2);
    assert!(matches!(
        n.on_response(ok(Some(HANDLE), vec![])),
        SessionStep::Failed(InputError::NoSupportedDevices)
    ));
}

#[test]
fn missing_session_handle_is_malformed() {
    let mut n = SessionNegotiation::begin(RemoteDesktopBuilder::new().keyboard(true), 1);
    assert!(matches!(n.on_response(ok(None, vec![])), SessionStep::Failed(InputError::MalformedResponse)));
}

#[test]
fn session_handle_must_be_an_object_path() {
    for bad in ["", "session", "/a/", "//", "/a//b", "/a-b", "/é"] {
        let mut n = SessionNegotiation::begin(RemoteDesktopBuilder::new().keyboard(true), 1);
        assert!(
            matches!(n.on_response(ok(Some(bad), vec![])), SessionStep::Failed(InputError::MalformedResponse)),
            "{bad:?}"
        );
    }
    for good in ["/", "/a", "/org/freedesktop/portal/desktop/session/1_42/t0"] {
        let mut n = SessionNegotiation::begin(RemoteDesktopBuilder::new().keyboard(true), 1);
        assert!(
            matches!(n.on_response(ok(Some(good), vec![])), SessionStep::Send(PortalRequest::SelectDevices { .. })),
            "{good:?}"
        );
    }
}

#[test]
fn rejected_session_creation() {
    let mut n = SessionNegotiation::begin(RemoteDesktopBuilder::new().keyboard(true), 1);
    assert!(matches!(n.on_response(status(2)), SessionStep::Failed(InputError::SessionRejected)));
}

#[test]
fn random_token_has_prefix_and_ten_alphanumerics() {
    let t = SessionToken::default();
    let s = t.as_str();
    assert_eq!(s.len(), 20);
    assert!(s.starts_with("whydotool_"));
    assert!(s[10..].chars().all(|c| c.is_ascii_alphanumeric()));
}

#[test]
fn token_from_suffix() {
    assert_eq!(SessionToken::from_suffix("Ab3").as_str(), "whydotool_Ab3");
    assert_eq!(SessionToken::from_suffix("").as_str(), "whydotool_");
}
