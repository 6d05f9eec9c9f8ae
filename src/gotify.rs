use vstd::prelude::*;

use crate::alertmanager::{Alert, Annotation, Priority};
use crate::config::Gotify;

verus! {

/// The priority a notification gets when the alert gives none that can be read.
pub const DEFAULT_PRIORITY: isize = 5;

/// A message in the gateway's schema. Every field always holds a value.
#[derive(Clone, Debug)]
pub struct Notification {
    pub title: String,
    pub message: String,
    pub priority: isize,
}

/// The contents of a notification.
pub struct NotificationView {
    pub title: Seq<char>,
    pub message: Seq<char>,
    pub priority: isize,
}

impl View for Notification {
    type V = NotificationView;

    open spec fn view(&self) -> NotificationView {
        NotificationView { title: self.title@, message: self.message@, priority: self.priority }
    }
}

impl Default for Notification {
    /// An empty title, an empty message and the default priority.
    fn default() -> (r: Notification)
        ensures
            r.title@ == Seq::<char>::empty(),
            r.message@ == Seq::<char>::empty(),
            r.priority == DEFAULT_PRIORITY,
    {
        Notification { title: String::new(), message: String::new(), priority: DEFAULT_PRIORITY }
    }
}

pub open spec fn is_decimal_digit(c: char) -> bool {
    '0' <= c && c <= '9'
}

/// A non-empty run of ASCII decimal digits.
pub open spec fn is_digit_run(s: Seq<char>) -> bool {
    s.len() > 0 && forall|i: int| 0 <= i < s.len() ==> is_decimal_digit(#[trigger] s[i])
}

/// The value of a run of decimal digits, most significant first.
pub open spec fn digits_value(s: Seq<char>) -> int
    decreases s.len(),
{
    if s.len() == 0 {
        0
    } else {
        digits_value(s.drop_last()) * 10 + (s.last() as int - '0' as int)
    }
}

/// The integer that a text writes in decimal: an optional `+` or `-` sign
/// followed by at least one digit, and nothing else.
pub open spec fn decimal_integer(s: Seq<char>) -> Option<int> {
    if s.len() > 0 && s[0] == '-' && is_digit_run(s.drop_first()) {
        Some(-digits_value(s.drop_first()))
    } else if s.len() > 0 && s[0] == '+' && is_digit_run(s.drop_first()) {
        Some(digits_value(s.drop_first()))
    } else if is_digit_run(s) {
        Some(digits_value(s))
    } else {
        None
    }
}

/// What parsing a text as an `isize` gives: the integer it writes, when that fits.
pub open spec fn parsed_isize(s: Seq<char>) -> Option<isize> {
    match decimal_integer(s) {
        Some(v) => if isize::MIN <= v <= isize::MAX {
            Some(v as isize)
        } else {
            None
        },
        None => None,
    }
}

/// Relies on `<isize as FromStr>::from_str` (through `str::parse`): an optional
/// sign followed by decimal digits parses to its value when that fits in an
/// `isize`; any other text, the empty one included, is an error.
#[verifier::external_body]
fn parse_isize(s: &str) -> (r: Option<isize>)
    ensures
        r == parsed_isize(s@),
{
    s.parse::<isize>().ok()
}

/// The text of an optional field, or the empty text when it is absent.
pub open spec fn text_or_empty(t: Option<String>) -> Seq<char> {
    match t {
        Some(s) => s@,
        None => Seq::empty(),
    }
}

/// The priority that a hint gives: a number as it is, a text when it parses
/// as an integer, and the default otherwise.
pub open spec fn priority_of(p: Option<Priority>) -> isize {
    match p {
        Some(Priority::Number(n)) => n,
        Some(Priority::Text(t)) => match parsed_isize(t@) {
            Some(n) => n,
            None => DEFAULT_PRIORITY,
        },
        None => DEFAULT_PRIORITY,
    }
}

/// The notification that an alert's annotations give.
pub open spec fn notification_for(a: Annotation) -> NotificationView {
    NotificationView {
        title: text_or_empty(a.title),
        message: text_or_empty(a.description),
        priority: priority_of(a.priority),
    }
}

/// Maps an alert to the notification sent for it. Absent annotations take
/// their defaults, and a priority that does not parse is replaced by the
/// default: the mapping never fails.
pub fn gen_notification(alert: Alert) -> (r: Notification)
    ensures
        r@ == notification_for(alert.annotations),
{
    let mut notify = Notification::default();
    let annotations = alert.annotations;
    if let Some(title) = annotations.title {
        notify.title = title;
    }
    if let Some(description) = annotations.description {
        notify.message = description;
    }
    match annotations.priority {
        Some(Priority::Number(n)) => {
            notify.priority = n;
        },
        Some(Priority::Text(t)) => {
            if let Some(n) = parse_isize(t.as_str()) {
                notify.priority = n;
            }
        },
        None => {},
    }
    notify
}

/// An alert without annotations gives an empty title, an empty message and
/// the default priority.
pub proof fn lemma_bare_alert_gives_defaults(a: Annotation)
    requires
        a.title is None,
        a.description is None,
        a.priority is None,
    ensures
        notification_for(a) == (NotificationView {
            title: Seq::empty(),
            message: Seq::empty(),
            priority: 5,
        }),
{
}

/// The gateway's message endpoint: `{uri}/message?token={token}`.
pub open spec fn message_url_of(uri: Seq<char>, token: Seq<char>) -> Seq<char> {
    uri + "/message?token="@ + token
}

/// The address a notification is posted to.
pub fn message_url(gotify: &Gotify) -> (r: String)
    ensures
        r@ == message_url_of(gotify.uri@, gotify.token@),
{
    let mut url = gotify.uri.clone();
    url.append("/message?token=");
    url.append(gotify.token.as_str());
    url
}

} // verus!
