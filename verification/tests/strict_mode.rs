use pausa::strict_mode::system_lock_manager::validate_emergency_hotkey;
use pausa::strict_mode::{StrictModeConfig, StrictModeOrchestrator, SystemLockManager};

#[test]
fn test_emergency_hotkey_validation() {
    let result = validate_emergency_hotkey("");
    assert!(result.is_err());

    let result = validate_emergency_hotkey("A");
    assert!(result.is_err());

    let result = validate_emergency_hotkey("Cmd+Shift+E");
    assert!(result.is_ok());

    let result = validate_emergency_hotkey("Cmd+Q");
    assert!(result.is_err());
}

#[test]
fn emergency_hotkey_messages() {
    assert_eq!(
        validate_emergency_hotkey("").unwrap_err(),
        "Emergency hotkey combination cannot be empty"
    );
    assert_eq!(
        validate_emergency_hotkey("Alt+F4").unwrap_err(),
        "Cannot use system shortcut 'Alt+F4' as emergency key"
    );
}

#[test]
fn lock_manager_registers_valid_hotkeys_only() {
    let mut m = SystemLockManager::new();
    assert!(!m.is_locked());
    assert!(m.register_emergency_hotkey("Cmd+Q".to_string()).is_err());
    assert_eq!(m.get_emergency_hotkey(), None);
    m.register_emergency_hotkey("Ctrl+Shift+X".to_string()).unwrap();
    assert_eq!(m.get_emergency_hotkey(), Some("Ctrl+Shift+X".to_string()));
    m.unregister_emergency_hotkey().unwrap();
    assert_eq!(m.get_emergency_hotkey(), None);
}

#[test]
fn orchestrator_activation() {
    let mut o = StrictModeOrchestrator::new(StrictModeConfig::default());
    assert!(!o.is_active());
    o.activate().unwrap();
    assert!(o.is_active());
    o.deactivate().unwrap();
    assert!(!o.is_active());
}
