use standclock::{Platform, StartupStep, cache_purge_required, greet, startup_sequence};

#[test]
fn greet_formats_the_name() {
    assert_eq!(greet("World"), "Hello, World! You've been greeted from Rust!");
    assert_eq!(greet(""), "Hello, ! You've been greeted from Rust!");
}

#[test]
fn cache_purge_is_linux_only() {
    assert!(cache_purge_required(Platform::Linux));
    assert!(!cache_purge_required(Platform::MacOs));
    assert!(!cache_purge_required(Platform::Windows));
    assert!(!cache_purge_required(Platform::Android));
    assert!(!cache_purge_required(Platform::Ios));
}

#[test]
fn startup_steps_are_ordered() {
    let steps = startup_sequence();
    assert_eq!(
        steps,
        vec![
            StartupStep::OpenAndMigrateStore,
            StartupStep::RegisterPlatformIntegrations,
            StartupStep::ExposeCommandSurface,
        ]
    );
}
