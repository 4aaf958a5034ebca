//! UI-agnostic notifications emitted by the core.
use vstd::prelude::*;

verus! {

/// The severity of a notification.
#[derive(Debug, Clone, Copy, PartialEq, Eq, Structural)]
pub enum NotificationLevel {
    Info,
    Warning,
    Critical,
}

/// A notification payload; the receiver may be a tray, a dashboard, or a terminal.
#[derive(Debug, Clone)]
pub struct UiNotification {
    pub level: NotificationLevel,
    /// Short headline.
    pub title: String,
    /// Human-readable detail.
    pub message: String,
    /// Buttons the UI may render; empty when no action is needed.
    pub action_buttons: Vec<String>,
    /// Set when the permission check waits for the user; the UI sends it back to resolve the decision.
    pub confirmation_id: Option<String>,
}

/// The texts of a list of strings.
pub open spec fn texts(v: Seq<String>) -> Seq<Seq<char>> {
    v.map_values(|s: String| s@)
}

/// The texts of a list of string slices.
pub open spec fn str_texts(v: Seq<&str>) -> Seq<Seq<char>> {
    v.map_values(|s: &str| s@)
}

/// Owned copies of a list of string slices.
pub fn owned_strings(v: &Vec<&str>) -> (r: Vec<String>)
    ensures
        texts(r@) == str_texts(v@),
{
    let mut r: Vec<String> = Vec::new();
    let mut i: usize = 0;
    while i < v.len()
        invariant
            i <= v.len(),
            r@.len() == i,
            forall|k: int| 0 <= k < i ==> #[trigger] r@[k]@ == v@[k]@,
        decreases v.len() - i,
    {
        r.push(String::from_str(v[i]));
        i = i + 1;
    }
    assert(texts(r@) =~= str_texts(v@));
    r
}

impl UiNotification {
    /// The notification's content, as plain values.
    pub open spec fn has(
        self,
        level: NotificationLevel,
        title: Seq<char>,
        message: Seq<char>,
        buttons: Seq<Seq<char>>,
    ) -> bool {
        &&& self.level == level
        &&& self.title@ == title
        &&& self.message@ == message
        &&& texts(self.action_buttons@) == buttons
        &&& self.confirmation_id is None
    }

    /// An informational notification with no buttons.
    pub fn info(title: &str, message: &str) -> (r: Self)
        ensures
            r.has(NotificationLevel::Info, title@, message@, Seq::empty()),
    {
        let r = UiNotification {
            level: NotificationLevel::Info,
            title: String::from_str(title),
            message: String::from_str(message),
            action_buttons: Vec::new(),
            confirmation_id: None,
        };
        assert(texts(r.action_buttons@) =~= Seq::empty());
        r
    }

    /// A warning offering the given buttons.
    pub fn warning(title: &str, message: &str, actions: Vec<&str>) -> (r: Self)
        ensures
            r.has(NotificationLevel::Warning, title@, message@, str_texts(actions@)),
    {
        UiNotification {
            level: NotificationLevel::Warning,
            title: String::from_str(title),
            message: String::from_str(message),
            action_buttons: owned_strings(&actions),
            confirmation_id: None,
        }
    }

    /// A critical alert offering the given buttons.
    pub fn critical(title: &str, message: &str, actions: Vec<&str>) -> (r: Self)
        ensures
            r.has(NotificationLevel::Critical, title@, message@, str_texts(actions@)),
    {
        UiNotification {
            level: NotificationLevel::Critical,
            title: String::from_str(title),
            message: String::from_str(message),
            action_buttons: owned_strings(&actions),
            confirmation_id: None,
        }
    }
}

} // verus!
