use emoji_panel::bootstrap::Bootstrap;
use emoji_panel::bootstrap::LogConfig;
use emoji_panel::bootstrap::LogLevel;
use emoji_panel::bootstrap::LoggingOutcome;
use emoji_panel::bootstrap::Phase;
use emoji_panel::bootstrap::StartupError;
use emoji_panel::bootstrap::emoji_picker_command_name;
use emoji_panel::platform::PanelInvoker;
use emoji_panel::platform::PanelOutcome;
use emoji_panel::platform::Platform;
use emoji_panel::registry::CommandRegistry;
use emoji_panel::registry::Operation;

#[test]
fn registry_holds_exactly_the_picker_command() {
    let mut b = Bootstrap::create(false);
    let r = b.finish_setup(LoggingOutcome::NotRequested);
    assert!(r.is_ok());
    assert_eq!(b.phase, Phase::Ready);
    assert_eq!(b.registry.len(), 1);
    assert_eq!(
        b.registry.lookup(&emoji_picker_command_name()),
        Some(Operation::OpenCharacterPicker)
    );
    assert_eq!(b.registry.lookup(&"open_settings".to_string()), None);
}

#[test]
fn command_name_is_fixed() {
    assert_eq!(emoji_picker_command_name(), "open_emoji_picker".to_string());
}

#[test]
fn noop_on_unsupported_platforms() {
    for platform in [Platform::Windows, Platform::Linux, Platform::Other] {
        let mut invoker = PanelInvoker::new(platform);
        let before = invoker;
        for _ in 0..3 {
            assert_eq!(invoker.invoke(), PanelOutcome::NoOp);
            assert_eq!(invoker, before);
        }
    }
}

#[test]
fn repeated_calls_on_supported_platform_are_idempotent() {
    let mut invoker = PanelInvoker::new(Platform::MacOs);
    let before = invoker;
    assert_eq!(invoker.invoke(), PanelOutcome::PaletteRequested);
    assert_eq!(invoker.invoke(), PanelOutcome::PaletteRequested);
    assert_eq!(invoker, before);
    assert_eq!(invoker.invoke(), PanelOutcome::PaletteRequested);
}

#[test]
fn debug_build_attaches_logging_at_info() {
    let b = Bootstrap::create(true);
    assert_eq!(b.logging_request(), Some(LogConfig { level: LogLevel::Info }));
    let mut b = b;
    let r = b.finish_setup(LoggingOutcome::Attached);
    assert!(r.is_ok());
    assert!(b.logging_attached);
    assert_eq!(b.phase, Phase::Ready);
}

#[test]
fn release_build_attaches_no_logging() {
    let b = Bootstrap::create(false);
    assert_eq!(b.logging_request(), None);
    let mut b = b;
    let r = b.finish_setup(LoggingOutcome::NotRequested);
    assert!(r.is_ok());
    assert!(!b.logging_attached);
    assert_eq!(b.phase, Phase::Ready);
}

#[test]
fn both_branches_populate_the_registry_identically() {
    let mut debug_build = Bootstrap::create(true);
    debug_build.finish_setup(LoggingOutcome::Attached).unwrap();
    let mut release_build = Bootstrap::create(false);
    release_build.finish_setup(LoggingOutcome::NotRequested).unwrap();

    assert_eq!(debug_build.registry.len(), release_build.registry.len());
    let name = emoji_picker_command_name();
    assert_eq!(
        debug_build.registry.lookup(&name),
        release_build.registry.lookup(&name)
    );
    assert_eq!(
        debug_build.registry.lookup(&name),
        Some(Operation::OpenCharacterPicker)
    );
}

#[test]
fn failed_logging_attachment_aborts_before_registration() {
    let mut b = Bootstrap::create(true);
    let r = b.finish_setup(LoggingOutcome::AttachFailed);
    assert_eq!(r, Err(StartupError::LoggingInit));
    assert_eq!(b.phase, Phase::Failed);
    assert_eq!(b.registry.len(), 0);
    assert!(!b.logging_attached);
    assert_eq!(b.registry.lookup(&emoji_picker_command_name()), None);
}

#[test]
fn event_loop_takes_over_with_setup_intact() {
    let mut b = Bootstrap::create(false);
    b.finish_setup(LoggingOutcome::NotRequested).unwrap();
    b.start_event_loop();
    assert_eq!(b.phase, Phase::Running);
    assert_eq!(b.registry.len(), 1);
    assert_eq!(
        b.registry.lookup(&emoji_picker_command_name()),
        Some(Operation::OpenCharacterPicker)
    );
}

#[test]
fn dispatch_triggers_the_invoker_on_the_supported_platform() {
    let mut b = Bootstrap::create(false);
    b.finish_setup(LoggingOutcome::NotRequested).unwrap();
    let mut invoker = PanelInvoker::new(Platform::MacOs);
    let out = b.dispatch(&emoji_picker_command_name(), &mut invoker);
    assert_eq!(out, Some(PanelOutcome::PaletteRequested));
    assert_eq!(invoker, PanelInvoker::new(Platform::MacOs));
}

#[test]
fn dispatch_is_a_noop_elsewhere_and_for_unknown_names() {
    let mut b = Bootstrap::create(false);
    b.finish_setup(LoggingOutcome::NotRequested).unwrap();
    let mut invoker = PanelInvoker::new(Platform::Linux);
    let out = b.dispatch(&emoji_picker_command_name(), &mut invoker);
    assert_eq!(out, Some(PanelOutcome::NoOp));
    let none = b.dispatch(&"open_settings".to_string(), &mut invoker);
    assert_eq!(none, None);
}

#[test]
fn registry_registration_is_ordered_and_observable() {
    let mut reg = CommandRegistry::new();
    assert_eq!(reg.len(), 0);
    assert_eq!(reg.lookup(&"open_emoji_picker".to_string()), None);
    reg.register("open_emoji_picker".to_string(), Operation::OpenCharacterPicker);
    assert_eq!(reg.len(), 1);
    assert_eq!(
        reg.lookup(&"open_emoji_picker".to_string()),
        Some(Operation::OpenCharacterPicker)
    );
}

#[test]
fn startup_errors_describe_themselves() {
    assert_eq!(
        StartupError::AppConstruction.describe(),
        "error while building the application".to_string()
    );
    assert_eq!(
        StartupError::LoggingInit.describe(),
        "error while attaching the logging facility".to_string()
    );
    assert_eq!(
        StartupError::EventLoop.describe(),
        "error while running tauri application".to_string()
    );
}
