//! Meeting detection: which running processes belong to meeting applications,
//! which applications are monitored, and what to do when one is found.
//!
//! The process table is a machine reading; the matching rules and the
//! decision per detected meeting are exact.

use vstd::prelude::*;
use crate::sysread::{process_entries, refresh_process_table, ProcessEntry};
use crate::textmatch::{contains_sub, lower_of, spec_contains, to_lowercase_string};

verus! {

/// The meeting applications the detector knows.
#[derive(Clone, Debug)]
pub enum MeetingApp {
    Zoom,
    MicrosoftTeams,
    GoogleMeet,
    Webex,
    Slack,
    Discord,
    Skype,
    Unknown(String),
}

/// Equality of meeting apps: same variant, and for unknown apps the same
/// name.
pub open spec fn spec_app_eq(a: MeetingApp, b: MeetingApp) -> bool {
    match (a, b) {
        (MeetingApp::Zoom, MeetingApp::Zoom) => true,
        (MeetingApp::MicrosoftTeams, MeetingApp::MicrosoftTeams) => true,
        (MeetingApp::GoogleMeet, MeetingApp::GoogleMeet) => true,
        (MeetingApp::Webex, MeetingApp::Webex) => true,
        (MeetingApp::Slack, MeetingApp::Slack) => true,
        (MeetingApp::Discord, MeetingApp::Discord) => true,
        (MeetingApp::Skype, MeetingApp::Skype) => true,
        (MeetingApp::Unknown(x), MeetingApp::Unknown(y)) => x@ == y@,
        _ => false,
    }
}

impl PartialEq for MeetingApp {
    fn eq(&self, other: &Self) -> (r: bool) {
        match (self, other) {
            (MeetingApp::Zoom, MeetingApp::Zoom) => true,
            (MeetingApp::MicrosoftTeams, MeetingApp::MicrosoftTeams) => true,
            (MeetingApp::GoogleMeet, MeetingApp::GoogleMeet) => true,
            (MeetingApp::Webex, MeetingApp::Webex) => true,
            (MeetingApp::Slack, MeetingApp::Slack) => true,
            (MeetingApp::Discord, MeetingApp::Discord) => true,
            (MeetingApp::Skype, MeetingApp::Skype) => true,
            (MeetingApp::Unknown(x), MeetingApp::Unknown(y)) => *x == *y,
            _ => false,
        }
    }
}

impl vstd::std_specs::cmp::PartialEqSpecImpl for MeetingApp {
    open spec fn obeys_eq_spec() -> bool {
        true
    }

    open spec fn eq_spec(&self, other: &MeetingApp) -> bool {
        spec_app_eq(*self, *other)
    }
}

/// The display name of a meeting app.
pub open spec fn spec_display_name(app: MeetingApp) -> Seq<char> {
    match app {
        MeetingApp::Zoom => "Zoom"@,
        MeetingApp::MicrosoftTeams => "Microsoft Teams"@,
        MeetingApp::GoogleMeet => "Google Meet"@,
        MeetingApp::Webex => "Webex"@,
        MeetingApp::Slack => "Slack Huddle"@,
        MeetingApp::Discord => "Discord"@,
        MeetingApp::Skype => "Skype"@,
        MeetingApp::Unknown(name) => name@,
    }
}

impl MeetingApp {
    /// The display name of the app.
    pub fn display_name(&self) -> (r: &str)
        ensures
            r@ == spec_display_name(*self),
    {
        match self {
            MeetingApp::Zoom => "Zoom",
            MeetingApp::MicrosoftTeams => "Microsoft Teams",
            MeetingApp::GoogleMeet => "Google Meet",
            MeetingApp::Webex => "Webex",
            MeetingApp::Slack => "Slack Huddle",
            MeetingApp::Discord => "Discord",
            MeetingApp::Skype => "Skype",
            MeetingApp::Unknown(name) => name.as_str(),
        }
    }

    /// The icon name of the app, for display.
    pub fn icon_name(&self) -> (r: &str)
        ensures
            self is Zoom ==> r@ == "zoom"@,
            self is MicrosoftTeams ==> r@ == "teams"@,
            self is GoogleMeet ==> r@ == "meet"@,
            self is Webex ==> r@ == "webex"@,
            self is Slack ==> r@ == "slack"@,
            self is Discord ==> r@ == "discord"@,
            self is Skype ==> r@ == "skype"@,
            self is Unknown ==> r@ == "unknown"@,
    {
        match self {
            MeetingApp::Zoom => "zoom",
            MeetingApp::MicrosoftTeams => "teams",
            MeetingApp::GoogleMeet => "meet",
            MeetingApp::Webex => "webex",
            MeetingApp::Slack => "slack",
            MeetingApp::Discord => "discord",
            MeetingApp::Skype => "skype",
            MeetingApp::Unknown(_) => "unknown",
        }
    }
}

/// A meeting application found running.
#[derive(Clone, Debug)]
pub struct DetectedMeeting {
    pub app: MeetingApp,
    pub pid: u32,
    pub process_name: String,
    pub window_title: Option<String>,
    pub suggested_name: String,
    pub detected_at: u64,
}

/// Process patterns of one meeting app: process names it runs under, and
/// browser URL fragments of its web version.
pub struct ProcessPattern {
    pub app: MeetingApp,
    pub process_names: Vec<&'static str>,
    pub browser_patterns: Vec<&'static str>,
}

/// The apps the pattern table lists, in table order.
pub open spec fn spec_pattern_apps() -> Seq<MeetingApp> {
    seq![
        MeetingApp::Zoom,
        MeetingApp::MicrosoftTeams,
        MeetingApp::GoogleMeet,
        MeetingApp::Webex,
        MeetingApp::Slack,
        MeetingApp::Discord,
        MeetingApp::Skype,
    ]
}

/// The lowercase process names that identify each app.
pub open spec fn spec_pattern_names(app: MeetingApp) -> Seq<Seq<char>> {
    match app {
        MeetingApp::Zoom => seq!["zoom.exe"@, "zoom"@, "zoomit.exe"@, "zoom.us"@, "caphost.exe"@],
        MeetingApp::MicrosoftTeams => seq![
            "teams.exe"@,
            "ms-teams.exe"@,
            "msteams.exe"@,
            "microsoft teams"@,
            "teams"@,
        ],
        MeetingApp::GoogleMeet => seq![],
        MeetingApp::Webex => seq![
            "webexmta.exe"@,
            "ciscowebexstart.exe"@,
            "atmgr.exe"@,
            "webex.exe"@,
            "webex"@,
        ],
        MeetingApp::Slack => seq!["slack.exe"@, "slack"@],
        MeetingApp::Discord => seq!["discord.exe"@, "discord"@],
        MeetingApp::Skype => seq!["skype.exe"@, "skypeapp.exe"@, "skype"@],
        MeetingApp::Unknown(_) => seq![],
    }
}

/// The process names that identify `app`, for matching.
pub fn pattern_names_for(app: &MeetingApp) -> (r: Vec<&'static str>)
    ensures
        r.deep_view() == spec_pattern_names(*app),
{
    let names: Vec<&'static str> = match app {
        MeetingApp::Zoom => vec!["zoom.exe", "zoom", "zoomit.exe", "zoom.us", "caphost.exe"],
        MeetingApp::MicrosoftTeams => vec![
            "teams.exe",
            "ms-teams.exe",
            "msteams.exe",
            "microsoft teams",
            "teams",
        ],
        MeetingApp::GoogleMeet => Vec::new(),
        MeetingApp::Webex => vec![
            "webexmta.exe",
            "ciscowebexstart.exe",
            "atmgr.exe",
            "webex.exe",
            "webex",
        ],
        MeetingApp::Slack => vec!["slack.exe", "slack"],
        MeetingApp::Discord => vec!["discord.exe", "discord"],
        MeetingApp::Skype => vec!["skype.exe", "skypeapp.exe", "skype"],
        MeetingApp::Unknown(_) => Vec::new(),
    };
    proof {
        assert(names.deep_view() =~= spec_pattern_names(*app));
    }
    names
}

/// The pattern table: every known app with its process names and browser
/// fragments.
pub fn get_process_patterns() -> (r: Vec<ProcessPattern>)
    ensures
        r@.len() == spec_pattern_apps().len(),
        forall|i: int|
            0 <= i < r@.len() ==> spec_app_eq(#[trigger] r@[i].app, spec_pattern_apps()[i]),
        forall|i: int|
            0 <= i < r@.len() ==> #[trigger] r@[i].process_names.deep_view()
                == spec_pattern_names(spec_pattern_apps()[i]),
{
    let mut patterns: Vec<ProcessPattern> = Vec::new();
    patterns.push(ProcessPattern {
        app: MeetingApp::Zoom,
        process_names: pattern_names_for(&MeetingApp::Zoom),
        browser_patterns: vec!["zoom.us/j/", "zoom.us/wc/"],
    });
    patterns.push(ProcessPattern {
        app: MeetingApp::MicrosoftTeams,
        process_names: pattern_names_for(&MeetingApp::MicrosoftTeams),
        browser_patterns: vec!["teams.microsoft.com", "teams.live.com"],
    });
    patterns.push(ProcessPattern {
        app: MeetingApp::GoogleMeet,
        process_names: pattern_names_for(&MeetingApp::GoogleMeet),
        browser_patterns: vec!["meet.google.com"],
    });
    patterns.push(ProcessPattern {
        app: MeetingApp::Webex,
        process_names: pattern_names_for(&MeetingApp::Webex),
        browser_patterns: vec!["webex.com"],
    });
    patterns.push(ProcessPattern {
        app: MeetingApp::Slack,
        process_names: pattern_names_for(&MeetingApp::Slack),
        browser_patterns: vec!["app.slack.com/huddle"],
    });
    patterns.push(ProcessPattern {
        app: MeetingApp::Discord,
        process_names: pattern_names_for(&MeetingApp::Discord),
        browser_patterns: vec!["discord.com/channels"],
    });
    patterns.push(ProcessPattern {
        app: MeetingApp::Skype,
        process_names: pattern_names_for(&MeetingApp::Skype),
        browser_patterns: vec!["web.skype.com"],
    });
    patterns
}

/// Browser process names checked for web-based meetings.
pub fn get_browser_processes() -> (r: Vec<&'static str>)
    ensures
        r.deep_view() == seq![
            "chrome.exe"@,
            "msedge.exe"@,
            "firefox.exe"@,
            "brave.exe"@,
            "opera.exe"@,
            "vivaldi.exe"@,
            "chromium.exe"@,
            "google chrome"@,
            "microsoft edge"@,
            "firefox"@,
            "brave browser"@,
            "safari"@,
        ],
{
    let names: Vec<&'static str> = vec![
        "chrome.exe",
        "msedge.exe",
        "firefox.exe",
        "brave.exe",
        "opera.exe",
        "vivaldi.exe",
        "chromium.exe",
        "google chrome",
        "microsoft edge",
        "firefox",
        "brave browser",
        "safari",
    ];
    proof {
        assert(names.deep_view() =~= seq![
            "chrome.exe"@,
            "msedge.exe"@,
            "firefox.exe"@,
            "brave.exe"@,
            "opera.exe"@,
            "vivaldi.exe"@,
            "chromium.exe"@,
            "google chrome"@,
            "microsoft edge"@,
            "firefox"@,
            "brave browser"@,
            "safari"@,
        ]);
    }
    names
}

/// Whether a lowercased process name identifies `app`.
pub open spec fn spec_matches_app(app: MeetingApp, lowered_name: Seq<char>) -> bool {
    exists|j: int|
        0 <= j < spec_pattern_names(app).len() && spec_contains(
            lowered_name,
            #[trigger] spec_pattern_names(app)[j],
        )
}

/// Whether the lowercased process name `lowered` identifies `app`.
pub fn matches_app(lowered: &str, app: &MeetingApp) -> (r: bool)
    ensures
        r == spec_matches_app(*app, lowered@),
{
    let names = pattern_names_for(app);
    let n = names.len();
    let mut j: usize = 0;
    proof {
        assert(names.deep_view().len() == names@.len());
    }
    while j < n
        invariant
            n == names@.len(),
            names.deep_view() == spec_pattern_names(*app),
            names.deep_view().len() == names@.len(),
            forall|k: int|
                0 <= k < j ==> !spec_contains(lowered@, #[trigger] names.deep_view()[k]),
        decreases n - j,
    {
        proof {
            assert(names.deep_view()[j as int] == names@[j as int]@);
        }
        if contains_sub(lowered, names[j]) {
            return true;
        }
        j = j + 1;
    }
    false
}

/// Per-session record of which process ids were already reported.
pub struct ProcessMonitor {
    system: sysinfo::System,
    previously_detected: Vec<u32>,
}

impl ProcessMonitor {
    /// Process ids already reported, not yet seen to exit.
    pub closed spec fn spec_previously_detected(self) -> Seq<u32> {
        self.previously_detected@
    }

    /// A monitor with an empty detection history.
    pub fn new() -> (r: Self)
        ensures
            r.spec_previously_detected().len() == 0,
    {
        ProcessMonitor { system: sysinfo::System::new(), previously_detected: Vec::new() }
    }

    /// Refresh the process table and report meeting processes that were not
    /// reported before. What the table holds is machine state; every reported
    /// meeting is new — its pid was not in the history — and joins the
    /// history.
    pub fn detect_meetings(&mut self, now_s: u64, when_label: &String) -> (r: Vec<
        DetectedMeeting,
    >)
        ensures
            forall|k: int|
                0 <= k < r@.len() ==> !old(self).spec_previously_detected().contains(
                    #[trigger] r@[k].pid,
                ),
            forall|k: int|
                0 <= k < r@.len() ==> final(self).spec_previously_detected().contains(
                    #[trigger] r@[k].pid,
                ),
            forall|k: int|
                0 <= k < r@.len() ==> (#[trigger] r@[k].detected_at) == now_s,
    {
        refresh_process_table(&mut self.system);
        let entries = process_entries(&self.system);
        let all = match_meetings_in(&entries, now_s, when_label);

        let mut fresh: Vec<DetectedMeeting> = Vec::new();
        let n = all.len();
        let mut i: usize = 0;
        while i < n
            invariant
                n == all@.len(),
                forall|k: int|
                    0 <= k < all@.len() ==> (#[trigger] all@[k].detected_at) == now_s,
                forall|k: int|
                    0 <= k < fresh@.len() ==> !old(self).spec_previously_detected().contains(
                        #[trigger] fresh@[k].pid,
                    ),
                forall|k: int|
                    0 <= k < fresh@.len() ==> self.spec_previously_detected().contains(
                        #[trigger] fresh@[k].pid,
                    ),
                forall|k: int|
                    0 <= k < fresh@.len() ==> (#[trigger] fresh@[k].detected_at) == now_s,
                forall|p: u32|
                    old(self).spec_previously_detected().contains(p)
                        ==> self.spec_previously_detected().contains(p),
            decreases n - i,
        {
            let pid = all[i].pid;
            if !contains_u32(&self.previously_detected, pid) {
                let ghost before = self.previously_detected@;
                self.previously_detected.push(pid);
                proof {
                    assert forall|p: u32| before.contains(p) implies self
                        .previously_detected@.contains(p) by {
                        let w = choose|w: int| 0 <= w < before.len() && before[w] == p;
                        assert(self.previously_detected@[w] == p);
                    }
                    assert(self.previously_detected@[before.len() as int] == pid);
                }
                fresh.push(all[i].clone_meeting());
            }
            i = i + 1;
        }
        fresh
    }

    /// Refresh the process table and answer whether any known meeting app is
    /// running. A machine reading: nothing further is promised.
    pub fn is_meeting_active(&mut self) -> (r: bool)
        ensures
            final(self).spec_previously_detected() == old(self).spec_previously_detected(),
    {
        refresh_process_table(&mut self.system);
        let entries = process_entries(&self.system);
        any_meeting_process(&entries)
    }

    /// Refresh the process table and report every running meeting app,
    /// whether or not it was reported before.
    pub fn get_active_meetings(&mut self, now_s: u64, when_label: &String) -> (r: Vec<
        DetectedMeeting,
    >)
        ensures
            final(self).spec_previously_detected() == old(self).spec_previously_detected(),
            forall|k: int|
                0 <= k < r@.len() ==> (#[trigger] r@[k].detected_at) == now_s,
    {
        refresh_process_table(&mut self.system);
        let entries = process_entries(&self.system);
        match_meetings_in(&entries, now_s, when_label)
    }

    /// Forget every reported detection, so current meetings are reported
    /// again.
    pub fn clear_detection_history(&mut self)
        ensures
            final(self).spec_previously_detected().len() == 0,
    {
        self.previously_detected.clear();
    }

    /// The process ids already reported.
    pub fn detection_history(&self) -> (r: &Vec<u32>)
        ensures
            r@ == self.spec_previously_detected(),
    {
        &self.previously_detected
    }

    /// Treat `pid` as already reported, so it is not reported again.
    pub fn ignore_pid(&mut self, pid: u32)
        ensures
            final(self).spec_previously_detected() == old(
                self,
            ).spec_previously_detected().push(pid),
    {
        self.previously_detected.push(pid);
    }
}

/// Whether the vector holds `x`.
fn contains_u32(v: &Vec<u32>, x: u32) -> (r: bool)
    ensures
        r == v@.contains(x),
{
    let n = v.len();
    let mut i: usize = 0;
    while i < n
        invariant
            n == v@.len(),
            forall|k: int| 0 <= k < i ==> v@[k] != x,
        decreases n - i,
    {
        if v[i] == x {
            return true;
        }
        i = i + 1;
    }
    false
}

impl DetectedMeeting {
    /// A copy of this detection.
    pub fn clone_meeting(&self) -> (r: Self)
        ensures
            spec_app_eq(r.app, self.app),
            r.pid == self.pid,
            r.process_name@ == self.process_name@,
            r.window_title is Some <==> self.window_title is Some,
            (r.window_title matches Some(t) ==> self.window_title matches Some(u) && t@ == u@),
            r.suggested_name@ == self.suggested_name@,
            r.detected_at == self.detected_at,
    {
        DetectedMeeting {
            app: clone_app(&self.app),
            pid: self.pid,
            process_name: self.process_name.clone(),
            window_title: match &self.window_title {
                Some(t) => Some(t.clone()),
                None => None,
            },
            suggested_name: self.suggested_name.clone(),
            detected_at: self.detected_at,
        }
    }
}

/// A copy of a meeting app value.
pub fn clone_app(app: &MeetingApp) -> (r: MeetingApp)
    ensures
        r == *app,
        spec_app_eq(r, *app),
{
    match app {
        MeetingApp::Zoom => MeetingApp::Zoom,
        MeetingApp::MicrosoftTeams => MeetingApp::MicrosoftTeams,
        MeetingApp::GoogleMeet => MeetingApp::GoogleMeet,
        MeetingApp::Webex => MeetingApp::Webex,
        MeetingApp::Slack => MeetingApp::Slack,
        MeetingApp::Discord => MeetingApp::Discord,
        MeetingApp::Skype => MeetingApp::Skype,
        MeetingApp::Unknown(name) => MeetingApp::Unknown(name.clone()),
    }
}

/// A reported detection is justified by some process entry: same pid and
/// name, and the app's patterns match the lowered name.
pub open spec fn spec_reported(m: DetectedMeeting, entries: Seq<ProcessEntry>) -> bool {
    exists|e: int|
        0 <= e < entries.len() && m.pid == entries[e].pid && m.process_name@
            == (#[trigger] entries[e].name)@ && spec_matches_app(
            m.app,
            lower_of(entries[e].name@),
        )
}

/// A detection stamped as this scan stamps them: detected now, no window
/// title, and the suggested name built from the app and the time label.
pub open spec fn spec_stamped(m: DetectedMeeting, now_s: u64, when: Seq<char>) -> bool {
    &&& m.detected_at == now_s
    &&& m.window_title is None
    &&& m.suggested_name@ == spec_display_name(m.app) + " - "@ + when
}

/// Whether `found` already reports `app` running as `entry`.
pub open spec fn spec_covered(
    found: Seq<DetectedMeeting>,
    entry: ProcessEntry,
    app: MeetingApp,
) -> bool {
    exists|k: int|
        0 <= k < found.len() && (#[trigger] found[k].pid) == entry.pid && spec_app_eq(
            found[k].app,
            app,
        )
}

/// Reporting more meetings never uncovers one already reported.
proof fn lemma_covered_push(
    found: Seq<DetectedMeeting>,
    m: DetectedMeeting,
    entry: ProcessEntry,
    app: MeetingApp,
)
    requires
        spec_covered(found, entry, app),
    ensures
        spec_covered(found.push(m), entry, app),
{
    let k = choose|k: int|
        0 <= k < found.len() && (#[trigger] found[k].pid) == entry.pid && spec_app_eq(
            found[k].app,
            app,
        );
    assert(found.push(m)[k].pid == entry.pid);
}

/// Match every process entry against the pattern table: one detection per
/// (entry, app) pair whose lowercase process name carries one of the app's
/// pattern names. `when_label` is the formatted local time used in the
/// suggested meeting name.
#[verifier::rlimit(40)]
pub fn match_meetings_in(entries: &Vec<ProcessEntry>, now_s: u64, when_label: &String) -> (r:
    Vec<DetectedMeeting>)
    ensures
        forall|k: int| 0 <= k < r@.len() ==> spec_reported(#[trigger] r@[k], entries@),
        forall|k: int| 0 <= k < r@.len() ==> spec_stamped(#[trigger] r@[k], now_s, when_label@),
        // completeness: every entry whose lowered name matches a known app is
        // reported for that app
        forall|e: int, a: int|
            0 <= e < entries@.len() && 0 <= a < spec_pattern_apps().len() && spec_matches_app(
                #[trigger] spec_pattern_apps()[a],
                lower_of((#[trigger] entries@[e]).name@),
            ) ==> spec_covered(r@, entries@[e], spec_pattern_apps()[a]),
{
    let mut found: Vec<DetectedMeeting> = Vec::new();
    let n = entries.len();
    let mut e: usize = 0;
    while e < n
        invariant
            n == entries@.len(),
            forall|k: int| 0 <= k < found@.len() ==> spec_reported(#[trigger] found@[k], entries@),
            forall|k: int|
                0 <= k < found@.len() ==> spec_stamped(#[trigger] found@[k], now_s, when_label@),
            forall|e2: int, a2: int|
                0 <= e2 < e && 0 <= a2 < spec_pattern_apps().len() && spec_matches_app(
                    #[trigger] spec_pattern_apps()[a2],
                    lower_of((#[trigger] entries@[e2]).name@),
                ) ==> spec_covered(found@, entries@[e2], spec_pattern_apps()[a2]),
        decreases n - e,
    {
        let lowered = to_lowercase_string(entries[e].name.as_str());
        let apps: Vec<MeetingApp> = vec![
            MeetingApp::Zoom,
            MeetingApp::MicrosoftTeams,
            MeetingApp::GoogleMeet,
            MeetingApp::Webex,
            MeetingApp::Slack,
            MeetingApp::Discord,
            MeetingApp::Skype,
        ];
        let m = apps.len();
        let mut a: usize = 0;
        proof {
            assert forall|k: int| 0 <= k < apps@.len() implies #[trigger] apps@[k]
                == spec_pattern_apps()[k] by {}
        }
        while a < m
            invariant
                m == apps@.len(),
                apps@.len() == spec_pattern_apps().len(),
                0 <= e < entries@.len(),
                lowered@ == lower_of(entries@[e as int].name@),
                forall|k: int|
                    0 <= k < apps@.len() ==> #[trigger] apps@[k] == spec_pattern_apps()[k],
                forall|k: int|
                    0 <= k < found@.len() ==> spec_reported(#[trigger] found@[k], entries@),
                forall|k: int|
                    0 <= k < found@.len() ==> spec_stamped(
                        #[trigger] found@[k],
                        now_s,
                        when_label@,
                    ),
                forall|e2: int, a2: int|
                    0 <= e2 < e && 0 <= a2 < spec_pattern_apps().len() && spec_matches_app(
                        #[trigger] spec_pattern_apps()[a2],
                        lower_of((#[trigger] entries@[e2]).name@),
                    ) ==> spec_covered(found@, entries@[e2], spec_pattern_apps()[a2]),
                forall|a2: int|
                    0 <= a2 < a && spec_matches_app(
                        #[trigger] spec_pattern_apps()[a2],
                        lower_of(entries@[e as int].name@),
                    ) ==> spec_covered(found@, entries@[e as int], spec_pattern_apps()[a2]),
            decreases m - a,
        {
            if matches_app(lowered.as_str(), &apps[a]) {
                let app = clone_app(&apps[a]);
                proof {
                    lemma_app_eq_same_patterns(app, apps@[a as int]);
                }
                let mut suggested = String::new();
                suggested.append(app.display_name());
                suggested.append(" - ");
                suggested.append(when_label.as_str());
                proof {
                    assert(suggested@ =~= spec_display_name(app) + " - "@ + when_label@);
                }
                let meeting = DetectedMeeting {
                    app,
                    pid: entries[e].pid,
                    process_name: entries[e].name.clone(),
                    window_title: None,
                    suggested_name: suggested,
                    detected_at: now_s,
                };
                let ghost pre = found@;
                found.push(meeting);
                proof {
                    let k = found@.len() - 1;
                    assert(spec_reported(found@[k], entries@)) by {
                        assert(0 <= e < entries@.len() && found@[k].pid
                            == entries@[e as int].pid && found@[k].process_name@
                            == (entries@[e as int].name)@ && spec_matches_app(
                            found@[k].app,
                            lower_of(entries@[e as int].name@),
                        ));
                    }
                    assert(spec_stamped(found@[k], now_s, when_label@));
                    // earlier coverage survives the push
                    assert forall|e2: int, a2: int|
                        0 <= e2 < e && 0 <= a2 < spec_pattern_apps().len()
                            && spec_matches_app(
                            #[trigger] spec_pattern_apps()[a2],
                            lower_of((#[trigger] entries@[e2]).name@),
                        ) implies spec_covered(found@, entries@[e2], spec_pattern_apps()[a2]) by {
                        lemma_covered_push(
                            pre,
                            found@.last(),
                            entries@[e2],
                            spec_pattern_apps()[a2],
                        );
                        assert(found@ =~= pre.push(found@.last()));
                    }
                    assert forall|a2: int|
                        0 <= a2 < a && spec_matches_app(
                            #[trigger] spec_pattern_apps()[a2],
                            lower_of(entries@[e as int].name@),
                        ) implies spec_covered(found@, entries@[e as int], spec_pattern_apps()[a2]) by {
                        lemma_covered_push(
                            pre,
                            found@.last(),
                            entries@[e as int],
                            spec_pattern_apps()[a2],
                        );
                        assert(found@ =~= pre.push(found@.last()));
                    }
                    // the pair just matched is covered by the new report
                    assert(spec_covered(found@, entries@[e as int], spec_pattern_apps()[a as int])) by {
                        let k = found@.len() - 1;
                        assert(found@[k].pid == entries@[e as int].pid && spec_app_eq(
                            found@[k].app,
                            spec_pattern_apps()[a as int],
                        ));
                    }
                }
            }
            a = a + 1;
        }
        e = e + 1;
    }
    found
}

/// Equal apps have the same pattern names and the same display name.
pub proof fn lemma_app_eq_same_patterns(a: MeetingApp, b: MeetingApp)
    requires
        spec_app_eq(a, b),
    ensures
        spec_pattern_names(a) == spec_pattern_names(b),
        spec_display_name(a) == spec_display_name(b),
{
}

/// Whether any process entry carries a known meeting app's pattern.
pub fn any_meeting_process(entries: &Vec<ProcessEntry>) -> (r: bool)
    ensures
        r == exists|e: int, a: int|
            0 <= e < entries@.len() && 0 <= a < spec_pattern_apps().len() && spec_matches_app(
                #[trigger] spec_pattern_apps()[a],
                lower_of(#[trigger] entries@[e].name@),
            ),
{
    let n = entries.len();
    let mut e: usize = 0;
    while e < n
        invariant
            n == entries@.len(),
            forall|w: int, a: int|
                0 <= w < e && 0 <= a < spec_pattern_apps().len() ==> !spec_matches_app(
                    #[trigger] spec_pattern_apps()[a],
                    lower_of(#[trigger] entries@[w].name@),
                ),
        decreases n - e,
    {
        let lowered = to_lowercase_string(entries[e].name.as_str());
        let apps: Vec<MeetingApp> = vec![
            MeetingApp::Zoom,
            MeetingApp::MicrosoftTeams,
            MeetingApp::GoogleMeet,
            MeetingApp::Webex,
            MeetingApp::Slack,
            MeetingApp::Discord,
            MeetingApp::Skype,
        ];
        let m = apps.len();
        let mut a: usize = 0;
        while a < m
            invariant
                m == apps@.len(),
                apps@.len() == spec_pattern_apps().len(),
                0 <= e < entries@.len(),
                lowered@ == lower_of(entries@[e as int].name@),
                forall|k: int|
                    0 <= k < apps@.len() ==> spec_app_eq(
                        #[trigger] apps@[k],
                        spec_pattern_apps()[k],
                    ),
                forall|k: int|
                    0 <= k < a ==> !spec_matches_app(
                        #[trigger] spec_pattern_apps()[k],
                        lower_of(entries@[e as int].name@),
                    ),
            decreases m - a,
        {
            if matches_app(lowered.as_str(), &apps[a]) {
                proof {
                    lemma_app_eq_same_patterns(apps@[a as int], spec_pattern_apps()[a as int]);
                }
                return true;
            }
            proof {
                lemma_app_eq_same_patterns(apps@[a as int], spec_pattern_apps()[a as int]);
            }
            a = a + 1;
        }
        e = e + 1;
    }
    false
}

} // verus!
