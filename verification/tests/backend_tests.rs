use rust_clip::backend::{
    Backend, BackendAction, MSG_CONFIG_SAVED, MSG_IDENTITY_CORRUPT, MSG_JOINED, MSG_JOIN_FAILED,
    MSG_NEW_IDENTITY, MSG_NO_IDENTITY, MSG_PAUSED, MSG_RESUMED, MSG_STARTED,
};
use rust_clip::identity::{IdentityError, RingIdentity};
use rust_clip::config::AppConfig;
use rust_clip::events::{CoreEvent, LogEntry, LogLevel, UiCommand};

const PHRASE: &str =
    "abandon abandon abandon abandon abandon abandon abandon abandon abandon abandon abandon about";

fn config(name: &str) -> AppConfig {
    AppConfig {
        device_name: name.to_string(),
        notifications_enabled: true,
        auto_start: false,
        language: "en".to_string(),
    }
}

fn assert_log(action: &BackendAction, level: LogLevel, message: &str) {
    match action {
        BackendAction::Log(entry) => {
            assert_eq!(entry.level, level);
            assert_eq!(entry.message, message);
            assert_eq!(entry.timestamp.len(), 8);
        }
        other => panic!("{:?}", other),
    }
}

#[test]
fn pause_is_passed_on_and_reported() {
    let mut backend = Backend::new(config("A"));
    let actions = backend.on_command(UiCommand::SetPaused(true));
    assert_eq!(actions.len(), 3);
    assert!(matches!(actions[0], BackendAction::SetPaused(true)));
    assert!(matches!(actions[1], BackendAction::StateChanged { running: false }));
    assert_log(&actions[2], LogLevel::Info, MSG_PAUSED);
    let actions = backend.on_command(UiCommand::SetPaused(false));
    assert!(matches!(actions[0], BackendAction::SetPaused(false)));
    assert!(matches!(actions[1], BackendAction::StateChanged { running: true }));
    assert_log(&actions[2], LogLevel::Info, MSG_RESUMED);
}

#[test]
fn new_configuration_is_saved_and_a_new_name_restarts_the_services() {
    let mut backend = Backend::new(config("Old Name"));
    let mut same_name = config("Old Name");
    same_name.notifications_enabled = false;
    same_name.language = "it".to_string();
    let actions = backend.on_command(UiCommand::UpdateConfig(same_name));
    assert_eq!(actions.len(), 1);
    match &actions[0] {
        BackendAction::SaveConfig(saved) => {
            assert_eq!(saved.device_name, "Old Name");
            assert!(!saved.notifications_enabled);
            assert_eq!(saved.language, "it");
        }
        other => panic!("{:?}", other),
    }
    assert_eq!(backend.config().language, "it");

    let actions = backend.on_command(UiCommand::UpdateConfig(config("New Name")));
    assert_eq!(actions.len(), 2);
    assert!(matches!(&actions[0], BackendAction::SaveConfig(saved) if saved.device_name == "New Name"));
    assert!(matches!(actions[1], BackendAction::RestartServices));
    assert_eq!(backend.config().device_name, "New Name");
    assert!(config("a").restart_needed(&config("b")));
    assert!(!config("a").restart_needed(&config("a")));
}

#[test]
fn saved_configuration_is_reported_only_where_it_went_well() {
    let backend = Backend::new(config("A"));
    assert_log(&backend.on_config_saved(true).unwrap(), LogLevel::Info, MSG_CONFIG_SAVED);
    assert!(backend.on_config_saved(false).is_none());
}

#[test]
fn joining_a_ring_stores_the_identity_of_the_phrase() {
    let mut backend = Backend::new(config("A"));
    let actions = backend.on_command(UiCommand::JoinRing(PHRASE.to_string()));
    assert_eq!(actions.len(), 2);
    match &actions[0] {
        BackendAction::StoreIdentity(identity) => {
            assert_eq!(identity.mnemonic, PHRASE);
            assert_eq!(identity.get_ble_magic_bytes(), [0x66, 0xc2, 0x28, 0xf9]);
        }
        other => panic!("{:?}", other),
    }
    assert_log(&actions[1], LogLevel::Success, MSG_JOINED);

    let actions = backend.on_command(UiCommand::JoinRing("not a phrase".to_string()));
    assert_eq!(actions.len(), 1);
    assert_log(&actions[0], LogLevel::Error, MSG_JOIN_FAILED);
    assert_eq!(backend.config().device_name, "A");
}

#[test]
fn new_identity_quit_and_start() {
    let mut backend = Backend::new(config("A"));
    let actions = backend.on_command(UiCommand::GenerateNewIdentity);
    assert_eq!(actions.len(), 2);
    assert!(matches!(actions[0], BackendAction::CreateIdentity));
    assert_log(&actions[1], LogLevel::Success, MSG_NEW_IDENTITY);
    let actions = backend.on_command(UiCommand::Quit);
    assert_eq!(actions.len(), 1);
    assert!(matches!(actions[0], BackendAction::Exit));
    assert_log(&backend.on_started(), LogLevel::Success, MSG_STARTED);
}

#[test]
fn start_without_a_stored_identity_makes_one() {
    let backend = Backend::new(config("A"));
    let actions = backend.on_identity_load(None);
    assert_eq!(actions.len(), 2);
    assert_log(&actions[0], LogLevel::Warn, MSG_NO_IDENTITY);
    assert!(matches!(actions[1], BackendAction::CreateIdentity));
}

#[test]
fn start_with_a_stored_identity_reports_it() {
    let backend = Backend::new(config("A"));
    let identity = RingIdentity::from_mnemonic(PHRASE).unwrap();
    let actions = backend.on_identity_load(Some(Ok(identity.clone())));
    assert_eq!(actions.len(), 1);
    match &actions[0] {
        BackendAction::IdentityLoaded(loaded) => {
            assert_eq!(loaded.mnemonic, identity.mnemonic);
            assert_eq!(loaded.shared_secret, identity.shared_secret);
            assert_eq!(loaded.discovery_id, identity.discovery_id);
        }
        other => panic!("unexpected action {:?}", other),
    }
}

#[test]
fn start_with_an_unreadable_identity_stops_and_makes_none() {
    let backend = Backend::new(config("A"));
    for reason in [IdentityError::IdentityCorrupt, IdentityError::InvalidPhrase] {
        let actions = backend.on_identity_load(Some(Err(reason)));
        assert_eq!(actions.len(), 2);
        assert_log(&actions[0], LogLevel::Error, MSG_IDENTITY_CORRUPT);
        assert!(matches!(actions[1], BackendAction::Abort));
        assert!(!actions.iter().any(|a| matches!(
            a,
            BackendAction::CreateIdentity | BackendAction::StoreIdentity(_)
        )));
    }
}

#[test]
fn stored_identity_of_another_machine_stops_the_start() {
    let identity = RingIdentity::from_mnemonic(PHRASE).unwrap();
    let here = RingIdentity::get_machine_key("machine-here");
    let there = RingIdentity::get_machine_key("machine-there");
    let file = RingIdentity::seal_store(identity.mnemonic.as_bytes(), &there, &[7u8; 12]).unwrap();
    let outcome = RingIdentity::open_store(&file, &here).map(|_| identity);
    assert!(matches!(outcome, Err(IdentityError::IdentityCorrupt)));
    let actions = Backend::new(config("A")).on_identity_load(Some(outcome));
    assert_log(&actions[0], LogLevel::Error, MSG_IDENTITY_CORRUPT);
    assert!(matches!(actions[1], BackendAction::Abort));
}

#[test]
fn log_entry_is_informational_and_stamped_with_the_time_of_day() {
    let entry = LogEntry::new("something happened");
    assert_eq!(entry.level, LogLevel::Info);
    assert_eq!(entry.message, "something happened");
    let stamp: Vec<char> = entry.timestamp.chars().collect();
    assert_eq!(stamp.len(), 8);
    assert_eq!((stamp[2], stamp[5]), (':', ':'));
    assert!(stamp.iter().enumerate().all(|(i, c)| i == 2 || i == 5 || c.is_ascii_digit()));
    let stamped = LogEntry::stamped("12:34:56".to_string(), LogLevel::Warn, "w");
    assert_eq!(stamped.timestamp, "12:34:56");
    assert_eq!(stamped.level, LogLevel::Warn);
    let copy = stamped.clone();
    assert_eq!(copy.message, "w");
    let event = CoreEvent::Log(copy);
    assert!(matches!(event, CoreEvent::Log(_)));
}

#[test]
fn fresh_configuration_is_named_after_the_host() {
    let named = AppConfig::for_host(Some("workstation".to_string()));
    assert_eq!(named.device_name, "workstation");
    assert!(named.notifications_enabled);
    assert!(!named.auto_start);
    assert_eq!(named.language, "en");
    let unnamed = AppConfig::for_host(None);
    assert_eq!(unnamed.device_name, "RustClip Device");
    let here = AppConfig::default();
    assert!(here.notifications_enabled);
    assert!(!here.auto_start);
    assert_eq!(here.language, "en");
    let copy = here.clone();
    assert_eq!(copy.device_name, here.device_name);
}

#[test]
fn log_entry_is_stamped_with_the_time_of_day_of_a_reading() {
    // 2023-11-14 22:13:20 UTC
    let entry = LogEntry::timed(Some(1_700_000_000), LogLevel::Error, "e");
    assert_eq!(entry.timestamp, "22:13:20");
    assert_eq!(entry.level, LogLevel::Error);
    assert_eq!(entry.message, "e");
    assert_eq!(LogEntry::timed(Some(0), LogLevel::Info, "").timestamp, "00:00:00");
    assert_eq!(LogEntry::timed(Some(86_399), LogLevel::Info, "").timestamp, "23:59:59");
    assert_eq!(LogEntry::timed(Some(86_400 + 3_600 + 61), LogLevel::Info, "").timestamp, "01:01:01");
}

#[test]
fn log_entry_without_a_reading_has_no_stamp() {
    assert_eq!(LogEntry::timed(None, LogLevel::Warn, "w").timestamp, "");
    assert_eq!(LogEntry::timed(Some(u64::MAX), LogLevel::Warn, "w").timestamp, "");
    assert_eq!(LogEntry::timed(Some(1 << 62), LogLevel::Warn, "w").message, "w");
    assert_eq!(LogEntry::timed(Some(1 << 62), LogLevel::Warn, "w").timestamp, "");
}
