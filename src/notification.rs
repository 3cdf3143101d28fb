use vstd::prelude::*;

verus! {

/// A notification for the user interface: a title and an optional message.
#[derive(Debug, Clone)]
pub struct NotificationPayload {
    pub title: String,
    pub message: Option<String>,
}

impl NotificationPayload {
    /// A payload of `title` and `message`.
    pub fn new(title: String, message: Option<String>) -> (r: NotificationPayload)
        ensures
            r.title == title,
            r.message == message,
    {
        NotificationPayload { title, message }
    }
}

} // verus!
