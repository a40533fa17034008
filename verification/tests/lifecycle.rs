use popup_core::buffer::SelectionBuffer;
use popup_core::config::WindowConfig;
use popup_core::errors::WindowError;
use popup_core::geometry::CursorReading;
use popup_core::geometry::DisplayBounds;
use popup_core::lifecycle::CloseRequests;
use popup_core::lifecycle::Session;
use popup_core::lifecycle::ToggleAction;
use popup_core::lifecycle::WindowEvent;
use popup_core::lifecycle::WindowRegistry;
use popup_core::lifecycle::WindowSlot;
use popup_core::lifecycle::on_lose_focus;
use popup_core::lifecycle::persistent_window;
use popup_core::lifecycle::popclip_window;
use popup_core::lifecycle::toggle_window;
use popup_core::lifecycle::translate_window;
use popup_core::placement::Platform;
use popup_core::placement::WindowRole;

fn reading() -> CursorReading {
    CursorReading {
        x: 300,
        y: 400,
        display: DisplayBounds { width: 1920, height: 1080 },
        scale_percent: 100,
    }
}

fn no_config() -> WindowConfig {
    WindowConfig { window_width: None, window_height: None }
}

fn open(session: &mut Session, role: WindowRole) {
    let r = toggle_window(
        &mut session.registry,
        role,
        session.platform,
        &session.config,
        Some(reading()),
    );
    assert!(matches!(r, Ok(ToggleAction::CreateWindow(_))));
    session.registry.confirm_created(role);
}

#[test]
fn toggle_opens_then_closes() {
    // Idempotent toggle: two invocations with no intervening focus loss
    // leave the role absent and the window count back at zero.
    let mut session = Session::new(Platform::Linux, no_config());
    let first = persistent_window(&mut session).unwrap();
    match first {
        ToggleAction::CreateWindow(plan) => {
            assert_eq!(plan.label, "persistent");
            session.registry.confirm_created(WindowRole::Persistent);
        }
        ToggleAction::CloseWindow => panic!("first toggle must create"),
    }
    assert!(session.registry.get_window(WindowRole::Persistent));
    let second = persistent_window(&mut session).unwrap();
    assert!(matches!(second, ToggleAction::CloseWindow));
    assert!(!session.registry.get_window(WindowRole::Persistent));
    assert!(!session.registry.get_window(WindowRole::Translator));
    assert!(!session.registry.get_window(WindowRole::Popclip));
}

#[test]
fn toggle_each_role_independently() {
    let mut session = Session::new(Platform::Windows, no_config());
    open(&mut session, WindowRole::Translator);
    open(&mut session, WindowRole::Popclip);
    assert!(session.registry.get_window(WindowRole::Translator));
    assert!(session.registry.get_window(WindowRole::Popclip));
    assert!(!session.registry.get_window(WindowRole::Persistent));
    let r = toggle_window(
        &mut session.registry,
        WindowRole::Translator,
        session.platform,
        &no_config(),
        None,
    );
    assert!(matches!(r, Ok(ToggleAction::CloseWindow)));
    assert!(!session.registry.get_window(WindowRole::Translator));
    assert!(session.registry.get_window(WindowRole::Popclip));
}

#[test]
fn focus_loss_closes_both_transient_windows() {
    // translator, popclip and persistent all open; one focus-loss event.
    let mut session = Session::new(Platform::MacOs, no_config());
    open(&mut session, WindowRole::Translator);
    open(&mut session, WindowRole::Popclip);
    open(&mut session, WindowRole::Persistent);
    let r = on_lose_focus(&mut session.registry, &WindowEvent::Focused(false));
    assert_eq!(r, CloseRequests { close_translator: true, close_popclip: true });
    assert!(!session.registry.get_window(WindowRole::Translator));
    assert!(!session.registry.get_window(WindowRole::Popclip));
    assert!(session.registry.get_window(WindowRole::Persistent));
}

#[test]
fn focus_loss_with_nothing_open_is_not_an_error() {
    let mut registry = WindowRegistry::new();
    let r = on_lose_focus(&mut registry, &WindowEvent::Focused(false));
    assert_eq!(r, CloseRequests { close_translator: false, close_popclip: false });
    assert!(!registry.get_window(WindowRole::Translator));
}

#[test]
fn gaining_focus_closes_nothing() {
    let mut registry = WindowRegistry {
        translator: WindowSlot::Present { focus_listener: true },
        persistent: WindowSlot::Absent,
        popclip: WindowSlot::Present { focus_listener: true },
    };
    let r = on_lose_focus(&mut registry, &WindowEvent::Focused(true));
    assert_eq!(r, CloseRequests { close_translator: false, close_popclip: false });
    assert!(registry.get_window(WindowRole::Translator));
    assert!(registry.get_window(WindowRole::Popclip));
    let r = on_lose_focus(&mut registry, &WindowEvent::Other);
    assert_eq!(r, CloseRequests { close_translator: false, close_popclip: false });
    assert!(registry.get_window(WindowRole::Popclip));
}

#[test]
fn buffer_ordering_for_popclip() {
    // After popclip_window("hello") returns, the content load reads "hello".
    let mut session = Session::new(Platform::Linux, no_config());
    let r = popclip_window(&mut session, String::from("hello"), Some(reading()));
    assert!(matches!(r, Ok(ToggleAction::CreateWindow(_))));
    assert_eq!(session.buffer.read_text(), "hello");
}

#[test]
fn buffer_is_fully_replaced() {
    let mut buffer = SelectionBuffer::new();
    assert_eq!(buffer.read_text(), "");
    buffer.set_text(String::from("a long earlier selection"));
    buffer.set_text(String::from("x"));
    assert_eq!(buffer.read_text(), "x");
}

#[test]
fn translate_stores_selection_before_toggling() {
    let mut session = Session::new(Platform::Linux, no_config());
    let r = translate_window(&mut session, Some(String::from("bonjour")), Some(reading()));
    match r.unwrap() {
        ToggleAction::CreateWindow(plan) => {
            assert_eq!(plan.label, "translator");
            assert_eq!(plan.title, "Translator");
        }
        ToggleAction::CloseWindow => panic!("translator was absent"),
    }
    assert_eq!(session.buffer.read_text(), "bonjour");
}

#[test]
fn translate_without_selection_fails_and_changes_nothing() {
    let mut session = Session::new(Platform::Linux, no_config());
    let r = translate_window(&mut session, None, Some(reading()));
    assert_eq!(r.err(), Some(WindowError::SelectionCapture));
    assert_eq!(session.buffer.read_text(), "");
    assert!(!session.registry.get_window(WindowRole::Translator));
}

#[test]
fn locator_failure_aborts_open_but_keeps_text() {
    // The buffer is written before the toggle, as the trigger sequence does.
    let mut session = Session::new(Platform::Windows, no_config());
    let r = popclip_window(&mut session, String::from("kept"), None);
    assert_eq!(r.err(), Some(WindowError::Locator));
    assert!(!session.registry.get_window(WindowRole::Popclip));
    assert_eq!(session.buffer.read_text(), "kept");
}

#[test]
fn error_descriptions() {
    assert_eq!(WindowError::Locator.describe(), "cursor location query failed");
    assert_eq!(WindowError::SelectionCapture.describe(), "selection capture failed");
    assert_eq!(WindowError::WindowOperation.describe(), "host window operation failed");
    assert_ne!(WindowError::Locator, WindowError::WindowOperation);
}
