//! Desktop notification payloads and the builders for the notifications the
//! recorder sends.

use vstd::prelude::*;

verus! {

/// What a notification is about.
#[derive(Clone, Debug)]
pub enum NotificationType {
    RecordingStarted,
    RecordingStopped,
    RecordingPaused,
    RecordingResumed,
    TranscriptionComplete,
    /// Minutes until the meeting starts.
    MeetingReminder(u64),
    SystemError(String),
    Test,
}

/// Urgency of a notification.
#[derive(Clone, Copy, Debug, PartialEq, Eq, Structural)]
pub enum NotificationPriority {
    Low,
    Normal,
    High,
    Critical,
}

/// How long a notification stays visible.
#[derive(Clone, Copy, Debug, PartialEq, Eq, Structural)]
pub enum NotificationTimeout {
    Never,
    Seconds(u64),
    Default,
}

/// What kind of control an action renders as.
#[derive(Clone, Copy, Debug, PartialEq, Eq, Structural)]
pub enum NotificationActionType {
    Button,
    Reply,
}

/// One action offered on a notification.
#[derive(Clone, Debug)]
pub struct NotificationAction {
    pub id: String,
    pub title: String,
    pub action_type: NotificationActionType,
}

/// A desktop notification.
#[derive(Clone, Debug)]
pub struct Notification {
    pub id: Option<String>,
    pub title: String,
    pub body: String,
    pub notification_type: NotificationType,
    pub priority: NotificationPriority,
    pub timeout: NotificationTimeout,
    pub icon: Option<String>,
    pub sound: bool,
    pub actions: Vec<NotificationAction>,
}

impl Notification {
    /// A notification with the defaults: normal priority, default timeout,
    /// sound on, no id, icon or actions.
    pub fn new(title: String, body: String, notification_type: NotificationType) -> (r: Self)
        ensures
            r.id is None,
            r.title == title,
            r.body == body,
            r.notification_type == notification_type,
            r.priority == NotificationPriority::Normal,
            r.timeout == NotificationTimeout::Default,
            r.icon is None,
            r.sound,
            r.actions@.len() == 0,
    {
        Notification {
            id: None,
            title,
            body,
            notification_type,
            priority: NotificationPriority::Normal,
            timeout: NotificationTimeout::Default,
            icon: None,
            sound: true,
            actions: Vec::new(),
        }
    }

    /// The same notification at the given priority.
    pub fn with_priority(self, priority: NotificationPriority) -> (r: Self)
        ensures
            r == (Notification { priority, ..self }),
    {
        let mut n = self;
        n.priority = priority;
        n
    }

    /// The same notification with the given timeout.
    pub fn with_timeout(self, timeout: NotificationTimeout) -> (r: Self)
        ensures
            r == (Notification { timeout, ..self }),
    {
        let mut n = self;
        n.timeout = timeout;
        n
    }

    /// The same notification with sound on or off.
    pub fn with_sound(self, sound: bool) -> (r: Self)
        ensures
            r == (Notification { sound, ..self }),
    {
        let mut n = self;
        n.sound = sound;
        n
    }

    /// The same notification with the given icon.
    pub fn with_icon(self, icon: String) -> (r: Self)
        ensures
            r == (Notification { icon: Some(icon), ..self }),
    {
        let mut n = self;
        n.icon = Some(icon);
        n
    }

    /// The same notification under the given id.
    pub fn with_id(self, id: String) -> (r: Self)
        ensures
            r == (Notification { id: Some(id), ..self }),
    {
        let mut n = self;
        n.id = Some(id);
        n
    }

    /// The same notification with one more action.
    pub fn add_action(self, action: NotificationAction) -> (r: Self)
        ensures
            r.actions@ == self.actions@.push(action),
            r.id == self.id,
            r.title == self.title,
            r.body == self.body,
            r.notification_type == self.notification_type,
            r.priority == self.priority,
            r.timeout == self.timeout,
            r.icon == self.icon,
            r.sound == self.sound,
    {
        let mut n = self;
        n.actions.push(action);
        n
    }

    /// Recording has started, named after the meeting where one was given.
    pub fn recording_started(meeting_name: Option<String>) -> (r: Self)
        ensures
            r.title@ == "Maity"@,
            meeting_name matches Some(name) ==> r.body@
                == "Grabación iniciada para la reunión: "@ + name@,
            meeting_name is None ==> r.body@
                == "La grabación ha iniciado. Por favor informa a los demás participantes que estás grabando."@,
            r.notification_type is RecordingStarted,
            r.priority == NotificationPriority::High,
            r.timeout == NotificationTimeout::Seconds(5),
    {
        let body = match meeting_name {
            Some(name) => {
                let mut b = String::from_str("Grabación iniciada para la reunión: ");
                b.append(name.as_str());
                b
            },
            None => String::from_str(
                "La grabación ha iniciado. Por favor informa a los demás participantes que estás grabando."),
        };
        Notification::new(String::from_str("Maity"), body, NotificationType::RecordingStarted)
            .with_priority(NotificationPriority::High)
            .with_timeout(NotificationTimeout::Seconds(5))
    }

    /// Recording has stopped and was saved.
    pub fn recording_stopped() -> (r: Self)
        ensures
            r.title@ == "Maity"@,
            r.body@ == "La grabación ha sido detenida y guardada"@,
            r.notification_type is RecordingStopped,
            r.priority == NotificationPriority::Normal,
            r.timeout == NotificationTimeout::Seconds(3),
    {
        Notification::new(
            String::from_str("Maity"),
            String::from_str("La grabación ha sido detenida y guardada"),
            NotificationType::RecordingStopped,
        ).with_priority(NotificationPriority::Normal).with_timeout(NotificationTimeout::Seconds(3))
    }

    /// Recording was paused.
    pub fn recording_paused() -> (r: Self)
        ensures
            r.title@ == "Maity"@,
            r.body@ == "La grabación ha sido pausada"@,
            r.notification_type is RecordingPaused,
            r.priority == NotificationPriority::Normal,
            r.timeout == NotificationTimeout::Seconds(3),
    {
        Notification::new(
            String::from_str("Maity"),
            String::from_str("La grabación ha sido pausada"),
            NotificationType::RecordingPaused,
        ).with_priority(NotificationPriority::Normal).with_timeout(NotificationTimeout::Seconds(3))
    }

    /// Recording was resumed.
    pub fn recording_resumed() -> (r: Self)
        ensures
            r.title@ == "Maity"@,
            r.body@ == "La grabación ha sido reanudada"@,
            r.notification_type is RecordingResumed,
            r.priority == NotificationPriority::Normal,
            r.timeout == NotificationTimeout::Seconds(3),
    {
        Notification::new(
            String::from_str("Maity"),
            String::from_str("La grabación ha sido reanudada"),
            NotificationType::RecordingResumed,
        ).with_priority(NotificationPriority::Normal).with_timeout(NotificationTimeout::Seconds(3))
    }

    /// Transcription finished, with the file where one was written.
    pub fn transcription_complete(file_path: Option<String>) -> (r: Self)
        ensures
            r.title@ == "Maity"@,
            file_path matches Some(path) ==> r.body@
                == "Transcripción completada y guardada en: "@ + path@,
            file_path is None ==> r.body@ == "La transcripción ha sido completada"@,
            r.notification_type is TranscriptionComplete,
            r.priority == NotificationPriority::Normal,
            r.timeout == NotificationTimeout::Seconds(5),
    {
        let body = match file_path {
            Some(path) => {
                let mut b = String::from_str("Transcripción completada y guardada en: ");
                b.append(path.as_str());
                b
            },
            None => String::from_str("La transcripción ha sido completada"),
        };
        Notification::new(String::from_str("Maity"), body, NotificationType::TranscriptionComplete)
            .with_priority(NotificationPriority::Normal)
            .with_timeout(NotificationTimeout::Seconds(5))
    }

    /// A meeting starts soon.
    pub fn meeting_reminder(minutes_until: u64, meeting_title: Option<String>) -> (r: Self)
        ensures
            r.title@ == "Maity"@,
            meeting_title matches Some(title) ==> r.body@ == "La reunión '"@ + title@
                + "' comienza en "@ + crate::strutil::spec_u64_digits(minutes_until as int)
                + " minutos"@,
            meeting_title is None ==> r.body@ == "La reunión comienza en "@
                + crate::strutil::spec_u64_digits(minutes_until as int) + " minutos"@,
            r.notification_type == NotificationType::MeetingReminder(minutes_until),
            r.priority == NotificationPriority::High,
            r.timeout == NotificationTimeout::Seconds(10),
    {
        let body = match meeting_title {
            Some(title) => {
                let mut b = String::from_str("La reunión '");
                b.append(title.as_str());
                b.append("' comienza en ");
                b.append(crate::strutil::u64_to_string(minutes_until).as_str());
                b.append(" minutos");
                b
            },
            None => {
                let mut b = String::from_str("La reunión comienza en ");
                b.append(crate::strutil::u64_to_string(minutes_until).as_str());
                b.append(" minutos");
                b
            },
        };
        Notification::new(
            String::from_str("Maity"),
            body,
            NotificationType::MeetingReminder(minutes_until),
        ).with_priority(NotificationPriority::High).with_timeout(NotificationTimeout::Seconds(10))
    }

    /// A system error, shown until dismissed.
    pub fn system_error(error: String) -> (r: Self)
        ensures
            r.title@ == "Error de Maity"@,
            r.body@ == error@,
            r.notification_type matches NotificationType::SystemError(e) && e@ == error@,
            r.priority == NotificationPriority::Critical,
            r.timeout == NotificationTimeout::Never,
    {
        Notification::new(
            String::from_str("Error de Maity"),
            error.clone(),
            NotificationType::SystemError(error),
        ).with_priority(NotificationPriority::Critical).with_timeout(NotificationTimeout::Never)
    }

    /// The notification used to test the delivery path.
    pub fn test_notification() -> (r: Self)
        ensures
            r.title@ == "Maity"@,
            r.body@
                == "Esta es una notificación de prueba para verificar que el sistema funciona correctamente"@,
            r.notification_type is Test,
            r.priority == NotificationPriority::Normal,
            r.timeout == NotificationTimeout::Seconds(5),
    {
        Notification::new(
            String::from_str("Maity"),
            String::from_str(
                "Esta es una notificación de prueba para verificar que el sistema funciona correctamente"),
            NotificationType::Test,
        ).with_priority(NotificationPriority::Normal).with_timeout(NotificationTimeout::Seconds(5))
    }
}

impl Default for NotificationPriority {
    /// The default priority is `Normal`.
    fn default() -> (r: Self)
        ensures
            r == NotificationPriority::Normal,
    {
        NotificationPriority::Normal
    }
}

impl Default for NotificationTimeout {
    /// The default timeout is the platform's.
    fn default() -> (r: Self)
        ensures
            r == NotificationTimeout::Default,
    {
        NotificationTimeout::Default
    }
}

} // verus!
