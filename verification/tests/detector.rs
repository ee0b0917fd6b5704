//! Meeting detection, detector settings, notifications and the tokenizer.

use maity_core::detector_settings::{
    action_label, decide_detection, get_monitored_apps_status, AppAction, DetectionReaction,
    MeetingDetectorSettings, MonitoredApps,
};
use maity_core::meetings::{
    any_meeting_process, get_browser_processes, get_process_patterns, match_meetings_in,
    matches_app, MeetingApp, ProcessMonitor,
};
use maity_core::notifications::{
    Notification, NotificationPriority, NotificationTimeout, NotificationType,
};
use maity_core::sysread::ProcessEntry;
use maity_core::tokenizer::SimpleTokenizer;

#[test]
fn test_meeting_app_display_name() {
    assert_eq!(MeetingApp::Zoom.display_name(), "Zoom");
    assert_eq!(MeetingApp::MicrosoftTeams.display_name(), "Microsoft Teams");
    assert_eq!(MeetingApp::GoogleMeet.display_name(), "Google Meet");
}

#[test]
fn test_process_monitor_creation() {
    let monitor = ProcessMonitor::new();
    assert!(monitor.detection_history().is_empty());
}

#[test]
fn test_default_settings() {
    let settings = MeetingDetectorSettings::default();
    assert!(settings.enabled);
    assert!(!settings.auto_record);
    assert!(settings.show_detection_notification);
    assert_eq!(settings.check_interval_seconds, 5);
}

#[test]
fn test_monitored_apps_default() {
    let apps = MonitoredApps::default();
    assert!(apps.zoom);
    assert!(apps.microsoft_teams);
    assert!(apps.google_meet);
    assert!(!apps.discord);
}

#[test]
fn test_app_action() {
    let mut settings = MeetingDetectorSettings::default();
    settings.set_app_action(MeetingApp::Zoom, AppAction::AutoRecord);

    assert_eq!(
        settings.get_app_action(&MeetingApp::Zoom),
        AppAction::AutoRecord
    );
    assert_eq!(
        settings.get_app_action(&MeetingApp::MicrosoftTeams),
        AppAction::AlwaysAsk
    );
}

#[test]
fn replacing_an_app_choice_keeps_one_entry() {
    let mut settings = MeetingDetectorSettings::default();
    settings.set_app_action(MeetingApp::Zoom, AppAction::AutoRecord);
    settings.set_app_action(MeetingApp::Webex, AppAction::Ignore);
    settings.set_app_action(MeetingApp::Zoom, AppAction::Ignore);
    assert_eq!(settings.app_choices.len(), 2, "the earlier choice for the app is replaced");
    assert_eq!(settings.get_app_action(&MeetingApp::Zoom), AppAction::Ignore);
    assert_eq!(settings.get_app_action(&MeetingApp::Webex), AppAction::Ignore);
}

#[test]
fn icon_names_cover_every_app() {
    assert_eq!(MeetingApp::Zoom.icon_name(), "zoom");
    assert_eq!(MeetingApp::Webex.icon_name(), "webex");
    assert_eq!(MeetingApp::Unknown("Jitsi".to_string()).icon_name(), "unknown");
    assert_eq!(MeetingApp::Unknown("Jitsi".to_string()).display_name(), "Jitsi");
}

#[test]
fn process_matching_follows_the_pattern_table() {
    let patterns = get_process_patterns();
    assert_eq!(patterns.len(), 7);
    assert_eq!(patterns[0].process_names[0], "zoom.exe");
    assert!(get_browser_processes().contains(&"firefox"));

    assert!(matches_app("zoom.us", &MeetingApp::Zoom));
    assert!(matches_app("caphost.exe", &MeetingApp::Zoom));
    assert!(!matches_app("notepad.exe", &MeetingApp::Zoom));
    assert!(matches_app("ms-teams.exe", &MeetingApp::MicrosoftTeams));
    // Google Meet is browser-only: no process name matches it
    assert!(!matches_app("meet.google.com", &MeetingApp::GoogleMeet));
}

#[test]
fn matching_in_a_process_table_is_case_insensitive() {
    let entries = vec![
        ProcessEntry { pid: 10, name: "Zoom.us".to_string() },
        ProcessEntry { pid: 11, name: "notepad.exe".to_string() },
        ProcessEntry { pid: 12, name: "Slack.exe".to_string() },
    ];
    let when = "2025-03-01 10:00".to_string();
    let found = match_meetings_in(&entries, 1700000000, &when);
    assert_eq!(found.len(), 2);
    assert_eq!(found[0].pid, 10);
    assert_eq!(found[0].process_name, "Zoom.us");
    assert_eq!(found[0].suggested_name, "Zoom - 2025-03-01 10:00");
    assert_eq!(found[0].detected_at, 1700000000);
    assert_eq!(found[1].pid, 12);
    assert_eq!(found[1].suggested_name, "Slack Huddle - 2025-03-01 10:00");
    assert!(any_meeting_process(&entries));

    let quiet = vec![ProcessEntry { pid: 1, name: "init".to_string() }];
    assert!(!any_meeting_process(&quiet));
    assert!(match_meetings_in(&quiet, 0, &when).is_empty());
}

#[test]
fn monitor_reports_each_pid_once() {
    let mut monitor = ProcessMonitor::new();
    monitor.ignore_pid(42);
    assert_eq!(monitor.detection_history(), &vec![42]);
    monitor.clear_detection_history();
    assert!(monitor.detection_history().is_empty());
}

#[test]
fn detection_decision_honours_settings() {
    let mut settings = MeetingDetectorSettings::default();
    assert_eq!(
        decide_detection(&settings, &MeetingApp::Zoom),
        Some(DetectionReaction::Ask)
    );
    // casual chat apps are not monitored by default
    assert_eq!(decide_detection(&settings, &MeetingApp::Discord), None);
    settings.set_app_action(MeetingApp::Zoom, AppAction::AutoRecord);
    assert_eq!(
        decide_detection(&settings, &MeetingApp::Zoom),
        Some(DetectionReaction::AutoRecord)
    );
    settings.set_app_action(MeetingApp::Zoom, AppAction::Ignore);
    assert_eq!(decide_detection(&settings, &MeetingApp::Zoom), None);
    settings.enabled = false;
    assert_eq!(decide_detection(&settings, &MeetingApp::Webex), None);
}

#[test]
fn monitored_apps_status_lists_the_table() {
    let mut settings = MeetingDetectorSettings::default();
    settings.set_app_action(MeetingApp::Skype, AppAction::Ignore);
    let rows = get_monitored_apps_status(&settings);
    assert_eq!(rows.len(), 7);
    assert_eq!(rows[0].id, "zoom");
    assert_eq!(rows[0].name, "Zoom");
    assert!(rows[0].enabled);
    assert_eq!(rows[0].action, "always_ask");
    assert_eq!(rows[5].id, "discord");
    assert!(!rows[5].enabled);
    assert_eq!(rows[6].id, "skype");
    assert_eq!(rows[6].action, "ignore");
    assert_eq!(action_label(AppAction::AutoRecord), "auto_record");
}

#[test]
fn notification_builders_fill_expected_fields() {
    let n = Notification::new(
        "Maity".to_string(),
        "cuerpo".to_string(),
        NotificationType::Test,
    );
    assert_eq!(n.title, "Maity");
    assert_eq!(n.body, "cuerpo");
    assert!(matches!(n.priority, NotificationPriority::Normal));
    assert!(matches!(n.timeout, NotificationTimeout::Default));
    assert!(n.sound);
    assert!(n.actions.is_empty());
    assert!(n.id.is_none());

    let n = n
        .with_priority(NotificationPriority::Critical)
        .with_timeout(NotificationTimeout::Seconds(9))
        .with_sound(false)
        .with_icon("icon.png".to_string())
        .with_id("n-1".to_string());
    assert!(matches!(n.priority, NotificationPriority::Critical));
    assert!(matches!(n.timeout, NotificationTimeout::Seconds(9)));
    assert!(!n.sound);
    assert_eq!(n.icon.as_deref(), Some("icon.png"));
    assert_eq!(n.id.as_deref(), Some("n-1"));
}

#[test]
fn recording_notifications_match_their_wording() {
    let started = Notification::recording_started(Some("Junta semanal".to_string()));
    assert_eq!(started.title, "Maity");
    assert_eq!(started.body, "Grabación iniciada para la reunión: Junta semanal");
    assert!(matches!(started.priority, NotificationPriority::High));
    assert!(matches!(started.timeout, NotificationTimeout::Seconds(5)));

    let stopped = Notification::recording_stopped();
    assert_eq!(stopped.body, "La grabación ha sido detenida y guardada");
    assert!(matches!(stopped.timeout, NotificationTimeout::Seconds(3)));

    assert_eq!(
        Notification::recording_paused().body,
        "La grabación ha sido pausada"
    );
    assert_eq!(
        Notification::recording_resumed().body,
        "La grabación ha sido reanudada"
    );

    let reminder = Notification::meeting_reminder(15, Some("Retro".to_string()));
    assert_eq!(reminder.body, "La reunión 'Retro' comienza en 15 minutos");
    assert!(matches!(
        reminder.notification_type,
        NotificationType::MeetingReminder(15)
    ));

    let complete = Notification::transcription_complete(None);
    assert_eq!(complete.body, "La transcripción ha sido completada");

    let error = Notification::system_error("sin espacio".to_string());
    assert_eq!(error.title, "Error de Maity");
    assert!(matches!(error.timeout, NotificationTimeout::Never));
    assert!(matches!(error.priority, NotificationPriority::Critical));

    let test = Notification::test_notification();
    assert!(matches!(test.notification_type, NotificationType::Test));
}

#[test]
fn tokenizer_decodes_and_maps_markers() {
    let tokenizer = SimpleTokenizer::new(vec![
        (1, "<s>".to_string()),
        (2, "Hola".to_string()),
        (3, "\u{120}mundo".to_string()),
        (4, "</s>".to_string()),
        (5, "\u{2581}otra".to_string()),
        (6, "\u{10a}".to_string()),
    ]);
    assert_eq!(tokenizer.vocab_size(), 6);
    let text = tokenizer.decode(&vec![1, 2, 3, 4], true);
    assert_eq!(text, "Hola mundo", "special tokens skipped, word marker mapped to a space");
    let raw = tokenizer.decode(&vec![2, 5, 6], false);
    assert_eq!(raw, "Hola otra\n");
    let with_specials = tokenizer.decode(&vec![1, 2], false);
    assert_eq!(with_specials, "<s>Hola");
    // unknown ids are skipped rather than failing
    assert_eq!(tokenizer.decode(&vec![99, 2], true), "Hola");
}
