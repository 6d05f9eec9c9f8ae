use vstd::prelude::*;

verus! {

/// One batch of alerts, as pushed by the alert manager.
pub struct Payload {
    pub alerts: Vec<Alert>,
}

/// One firing or resolved alert.
pub struct Alert {
    pub status: String,
    pub labels: Label,
    pub annotations: Annotation,
}

/// A priority hint as the alert source writes it: a number or a text.
pub enum Priority {
    Number(isize),
    Text(String),
}

/// Free-form, optional descriptions of an alert.
pub struct Annotation {
    pub title: Option<String>,
    pub description: Option<String>,
    pub priority: Option<Priority>,
}

/// The labels that identify an alert.
pub struct Label {
    pub alertname: String,
    pub job: String,
    pub instance: String,
}

} // verus!
