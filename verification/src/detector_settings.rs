//! Meeting-detector configuration: which apps are monitored, what to do when
//! one is detected, and the per-app choices the user has saved.

use vstd::prelude::*;
use crate::meetings::{clone_app, spec_app_eq, spec_display_name, DetectedMeeting, MeetingApp};

verus! {

/// What to do when a monitored app is detected.
#[derive(Clone, Copy, Debug, PartialEq, Eq, Structural)]
pub enum AppAction {
    /// Always ask the user.
    AlwaysAsk,
    /// Start recording without asking.
    AutoRecord,
    /// Ignore this app.
    Ignore,
}

/// The user's saved choice for one app.
#[derive(Clone, Debug)]
pub struct AppChoice {
    pub app: MeetingApp,
    pub action: AppAction,
}

/// Which meeting apps to monitor.
#[derive(Clone, Copy, Debug, PartialEq, Eq, Structural)]
pub struct MonitoredApps {
    pub zoom: bool,
    pub microsoft_teams: bool,
    pub google_meet: bool,
    pub webex: bool,
    pub slack: bool,
    pub discord: bool,
    pub skype: bool,
}

/// Whether `apps` monitors `app`; unknown apps are never monitored.
pub open spec fn spec_is_monitored(apps: MonitoredApps, app: MeetingApp) -> bool {
    match app {
        MeetingApp::Zoom => apps.zoom,
        MeetingApp::MicrosoftTeams => apps.microsoft_teams,
        MeetingApp::GoogleMeet => apps.google_meet,
        MeetingApp::Webex => apps.webex,
        MeetingApp::Slack => apps.slack,
        MeetingApp::Discord => apps.discord,
        MeetingApp::Skype => apps.skype,
        MeetingApp::Unknown(_) => false,
    }
}

impl MonitoredApps {
    /// Whether this configuration monitors `app`.
    pub fn is_monitored(&self, app: &MeetingApp) -> (r: bool)
        ensures
            r == spec_is_monitored(*self, *app),
    {
        match app {
            MeetingApp::Zoom => self.zoom,
            MeetingApp::MicrosoftTeams => self.microsoft_teams,
            MeetingApp::GoogleMeet => self.google_meet,
            MeetingApp::Webex => self.webex,
            MeetingApp::Slack => self.slack,
            MeetingApp::Discord => self.discord,
            MeetingApp::Skype => self.skype,
            MeetingApp::Unknown(_) => false,
        }
    }
}

impl Default for MonitoredApps {
    /// Work-meeting apps on by default; casual chat apps off.
    fn default() -> (r: Self)
        ensures
            r == (MonitoredApps {
                zoom: true,
                microsoft_teams: true,
                google_meet: true,
                webex: true,
                slack: false,
                discord: false,
                skype: true,
            }),
    {
        MonitoredApps {
            zoom: true,
            microsoft_teams: true,
            google_meet: true,
            webex: true,
            slack: false,
            discord: false,
            skype: true,
        }
    }
}

/// Settings of the meeting detector.
#[derive(Clone, Debug)]
pub struct MeetingDetectorSettings {
    /// Whether detection runs at all.
    pub enabled: bool,
    /// Whether a detection starts recording without asking.
    pub auto_record: bool,
    /// Seconds before auto-recording starts, so the user can cancel.
    pub auto_record_delay_seconds: u32,
    /// Whether a detection shows a notification.
    pub show_detection_notification: bool,
    /// Which apps to monitor.
    pub monitored_apps: MonitoredApps,
    /// Seconds between detection polls.
    pub check_interval_seconds: u32,
    /// Whether per-app choices are remembered.
    pub remember_choices: bool,
    /// The remembered per-app choices.
    pub app_choices: Vec<AppChoice>,
}

impl Default for MeetingDetectorSettings {
    /// Detection on, auto-record off, notifications on, a five-second poll.
    fn default() -> (r: Self)
        ensures
            r.enabled,
            !r.auto_record,
            r.auto_record_delay_seconds == 5,
            r.show_detection_notification,
            r.monitored_apps == (MonitoredApps {
                zoom: true,
                microsoft_teams: true,
                google_meet: true,
                webex: true,
                slack: false,
                discord: false,
                skype: true,
            }),
            r.check_interval_seconds == 5,
            r.remember_choices,
            r.app_choices@.len() == 0,
    {
        MeetingDetectorSettings {
            enabled: true,
            auto_record: false,
            auto_record_delay_seconds: 5,
            show_detection_notification: true,
            monitored_apps: MonitoredApps::default(),
            check_interval_seconds: 5,
            remember_choices: true,
            app_choices: Vec::new(),
        }
    }
}

/// The first saved choice for `app`, if any.
pub open spec fn spec_choice_action(choices: Seq<AppChoice>, app: MeetingApp) -> Option<AppAction>
    decreases choices.len(),
{
    if choices.len() == 0 {
        None
    } else if spec_app_eq(choices[0].app, app) {
        Some(choices[0].action)
    } else {
        spec_choice_action(choices.drop_first(), app)
    }
}

/// The saved choices with every choice for `app` removed, order kept.
pub open spec fn spec_remove_choices_for(choices: Seq<AppChoice>, app: MeetingApp) -> Seq<
    AppChoice,
>
    decreases choices.len(),
{
    if choices.len() == 0 {
        Seq::empty()
    } else {
        let rest = spec_remove_choices_for(choices.drop_first(), app);
        if spec_app_eq(choices[0].app, app) {
            rest
        } else {
            seq![choices[0]] + rest
        }
    }
}

/// The action the settings give for `app`: the saved choice where one exists,
/// otherwise auto-record or ask by the global flag.
pub open spec fn spec_app_action(s: MeetingDetectorSettings, app: MeetingApp) -> AppAction {
    match spec_choice_action(s.app_choices@, app) {
        Some(action) => action,
        None => if s.auto_record {
            AppAction::AutoRecord
        } else {
            AppAction::AlwaysAsk
        },
    }
}

impl MeetingDetectorSettings {
    /// The action to take for `app`.
    pub fn get_app_action(&self, app: &MeetingApp) -> (r: AppAction)
        ensures
            r == spec_app_action(*self, *app),
    {
        let n = self.app_choices.len();
        let mut i: usize = 0;
        proof {
            assert(self.app_choices@.skip(0) =~= self.app_choices@);
        }
        while i < n
            invariant
                n == self.app_choices@.len(),
                i <= n,
                spec_choice_action(self.app_choices@, *app) == spec_choice_action(
                    self.app_choices@.skip(i as int),
                    *app,
                ),
            decreases n - i,
        {
            proof {
                assert(self.app_choices@.skip(i as int)[0] == self.app_choices@[i as int]);
                assert(self.app_choices@.skip(i as int).drop_first() =~= self.app_choices@.skip(
                    i as int + 1));
            }
            if self.app_choices[i].app == *app {
                return self.app_choices[i].action;
            }
            i = i + 1;
        }
        proof {
            assert(self.app_choices@.skip(n as int) =~= Seq::<AppChoice>::empty());
        }
        if self.auto_record {
            AppAction::AutoRecord
        } else {
            AppAction::AlwaysAsk
        }
    }

    /// Save the action for `app`: any earlier choice for the same app is
    /// removed, then the new choice appended.
    pub fn set_app_action(&mut self, app: MeetingApp, action: AppAction)
        ensures
            final(self).app_choices@ == spec_remove_choices_for(
                old(self).app_choices@,
                app,
            ).push(AppChoice { app, action }),
            final(self).enabled == old(self).enabled,
            final(self).auto_record == old(self).auto_record,
            final(self).auto_record_delay_seconds == old(self).auto_record_delay_seconds,
            final(self).show_detection_notification == old(self).show_detection_notification,
            final(self).monitored_apps == old(self).monitored_apps,
            final(self).check_interval_seconds == old(self).check_interval_seconds,
            final(self).remember_choices == old(self).remember_choices,
    {
        let ghost all = self.app_choices@;
        let n = self.app_choices.len();
        let mut kept: Vec<AppChoice> = Vec::new();
        let mut i: usize = 0;
        proof {
            assert(all.skip(0) =~= all);
            assert(kept@ + spec_remove_choices_for(all.skip(0), app) =~= spec_remove_choices_for(
                all,
                app,
            ));
        }
        while i < n
            invariant
                n == self.app_choices@.len(),
                all == self.app_choices@,
                i <= n,
                spec_remove_choices_for(all, app) == kept@ + spec_remove_choices_for(
                    all.skip(i as int),
                    app,
                ),
            decreases n - i,
        {
            proof {
                assert(all.skip(i as int)[0] == all[i as int]);
                assert(all.skip(i as int).drop_first() =~= all.skip(i as int + 1));
            }
            if !(self.app_choices[i].app == app) {
                let ghost kept_before = kept@;
                kept.push(AppChoice {
                    app: clone_app(&self.app_choices[i].app),
                    action: self.app_choices[i].action,
                });
                proof {
                    assert(spec_remove_choices_for(all.skip(i as int), app) == seq![
                        all[i as int],
                    ] + spec_remove_choices_for(all.skip(i as int + 1), app));
                    assert(kept@ =~= kept_before.push(all[i as int]));
                    assert(kept@ + spec_remove_choices_for(all.skip(i as int + 1), app)
                        =~= kept_before + spec_remove_choices_for(all.skip(i as int), app));
                }
            } else {
                proof {
                    assert(spec_remove_choices_for(all.skip(i as int), app)
                        == spec_remove_choices_for(all.skip(i as int + 1), app));
                }
            }
            i = i + 1;
        }
        proof {
            assert(all.skip(n as int) =~= Seq::<AppChoice>::empty());
            assert(kept@ + Seq::<AppChoice>::empty() =~= kept@);
        }
        kept.push(AppChoice { app, action });
        self.app_choices = kept;
    }
}

/// The label of an action, as the host layer shows it.
pub fn action_label(action: AppAction) -> (r: String)
    ensures
        action == AppAction::AlwaysAsk ==> r@ == "always_ask"@,
        action == AppAction::AutoRecord ==> r@ == "auto_record"@,
        action == AppAction::Ignore ==> r@ == "ignore"@,
{
    match action {
        AppAction::AlwaysAsk => String::from_str("always_ask"),
        AppAction::AutoRecord => String::from_str("auto_record"),
        AppAction::Ignore => String::from_str("ignore"),
    }
}

/// One monitored app's status, for display.
#[derive(Clone, Debug)]
pub struct MonitoredAppStatus {
    pub id: String,
    pub name: String,
    pub enabled: bool,
    pub action: String,
}

/// Whether a status row is the one for `app` under the given settings.
pub open spec fn spec_status_row(
    row: MonitoredAppStatus,
    s: MeetingDetectorSettings,
    app: MeetingApp,
    id: Seq<char>,
) -> bool {
    &&& row.id@ == id
    &&& row.name@ == spec_display_name(app)
    &&& row.enabled == spec_is_monitored(s.monitored_apps, app)
    &&& spec_app_action(s, app) == AppAction::AlwaysAsk ==> row.action@ == "always_ask"@
    &&& spec_app_action(s, app) == AppAction::AutoRecord ==> row.action@ == "auto_record"@
    &&& spec_app_action(s, app) == AppAction::Ignore ==> row.action@ == "ignore"@
}

/// The status of every monitored app under the given settings, in table
/// order.
pub fn get_monitored_apps_status(settings: &MeetingDetectorSettings) -> (r: Vec<
    MonitoredAppStatus,
>)
    ensures
        r@.len() == 7,
        spec_status_row(r@[0], *settings, MeetingApp::Zoom, "zoom"@),
        spec_status_row(r@[1], *settings, MeetingApp::MicrosoftTeams, "microsoft_teams"@),
        spec_status_row(r@[2], *settings, MeetingApp::GoogleMeet, "google_meet"@),
        spec_status_row(r@[3], *settings, MeetingApp::Webex, "webex"@),
        spec_status_row(r@[4], *settings, MeetingApp::Slack, "slack"@),
        spec_status_row(r@[5], *settings, MeetingApp::Discord, "discord"@),
        spec_status_row(r@[6], *settings, MeetingApp::Skype, "skype"@),
{
    let mut rows: Vec<MonitoredAppStatus> = Vec::new();
    rows.push(MonitoredAppStatus {
        id: String::from_str("zoom"),
        name: String::from_str("Zoom"),
        enabled: settings.monitored_apps.zoom,
        action: action_label(settings.get_app_action(&MeetingApp::Zoom)),
    });
    rows.push(MonitoredAppStatus {
        id: String::from_str("microsoft_teams"),
        name: String::from_str("Microsoft Teams"),
        enabled: settings.monitored_apps.microsoft_teams,
        action: action_label(settings.get_app_action(&MeetingApp::MicrosoftTeams)),
    });
    rows.push(MonitoredAppStatus {
        id: String::from_str("google_meet"),
        name: String::from_str("Google Meet"),
        enabled: settings.monitored_apps.google_meet,
        action: action_label(settings.get_app_action(&MeetingApp::GoogleMeet)),
    });
    rows.push(MonitoredAppStatus {
        id: String::from_str("webex"),
        name: String::from_str("Webex"),
        enabled: settings.monitored_apps.webex,
        action: action_label(settings.get_app_action(&MeetingApp::Webex)),
    });
    rows.push(MonitoredAppStatus {
        id: String::from_str("slack"),
        name: String::from_str("Slack Huddle"),
        enabled: settings.monitored_apps.slack,
        action: action_label(settings.get_app_action(&MeetingApp::Slack)),
    });
    rows.push(MonitoredAppStatus {
        id: String::from_str("discord"),
        name: String::from_str("Discord"),
        enabled: settings.monitored_apps.discord,
        action: action_label(settings.get_app_action(&MeetingApp::Discord)),
    });
    rows.push(MonitoredAppStatus {
        id: String::from_str("skype"),
        name: String::from_str("Skype"),
        enabled: settings.monitored_apps.skype,
        action: action_label(settings.get_app_action(&MeetingApp::Skype)),
    });
    rows
}

/// A detection handed to the host layer, with the decided reaction.
#[derive(Clone, Debug)]
pub struct MeetingDetectedEvent {
    pub meeting: DetectedMeeting,
    /// "ask" or "auto_record".
    pub action: String,
}

/// Commands the detector loop accepts.
#[derive(Debug)]
pub enum DetectorCommand {
    /// Start monitoring for meetings.
    Start,
    /// Stop monitoring.
    Stop,
    /// Replace the settings.
    UpdateSettings(MeetingDetectorSettings),
    /// The user's answer to a detection.
    UserResponse { pid: u32, action: UserResponseAction },
    /// Check for meetings now.
    CheckNow,
}

/// The user's answer to a meeting detection.
#[derive(Clone, Debug)]
pub enum UserResponseAction {
    /// Start recording under this meeting name.
    StartRecording { meeting_name: String },
    /// Ignore this meeting.
    Ignore,
    /// Ignore this app from now on.
    IgnoreAlways,
    /// Auto-record this app from now on.
    AutoRecordAlways,
}

/// What the detector does for one detected app.
#[derive(Clone, Copy, Debug, PartialEq, Eq, Structural)]
pub enum DetectionReaction {
    /// Ask the user.
    Ask,
    /// Start recording without asking.
    AutoRecord,
}

/// Decide the reaction to a detected app: nothing while detection is off or
/// the app is not monitored or set to ignore; otherwise ask or auto-record by
/// the app's action.
pub fn decide_detection(settings: &MeetingDetectorSettings, app: &MeetingApp) -> (r: Option<
    DetectionReaction,
>)
    ensures
        !settings.enabled ==> r is None,
        settings.enabled && !spec_is_monitored(settings.monitored_apps, *app) ==> r is None,
        settings.enabled && spec_is_monitored(settings.monitored_apps, *app) ==> {
            &&& (spec_app_action(*settings, *app) == AppAction::AutoRecord ==> r == Some(
                DetectionReaction::AutoRecord,
            ))
            &&& (spec_app_action(*settings, *app) == AppAction::AlwaysAsk ==> r == Some(
                DetectionReaction::Ask,
            ))
            &&& (spec_app_action(*settings, *app) == AppAction::Ignore ==> r is None)
        },
{
    if !settings.enabled {
        return None;
    }
    if !settings.monitored_apps.is_monitored(app) {
        return None;
    }
    match settings.get_app_action(app) {
        AppAction::AutoRecord => Some(DetectionReaction::AutoRecord),
        AppAction::AlwaysAsk => Some(DetectionReaction::Ask),
        AppAction::Ignore => None,
    }
}

} // verus!
