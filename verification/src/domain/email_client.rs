use vstd::prelude::*;

use crate::domain::email::Email;

verus! {

/// One message handed to a notifier, as a mathematical value.
pub struct Message {
    pub recipient: Seq<char>,
    pub subject: Seq<char>,
    pub content: Seq<char>,
}

/// The messages that a notifier has taken for delivery, the oldest first.
pub type Outbox = Seq<Message>;

/// What `EmailClient::send_email` may do to the messages `pre` that a
/// notifier has taken: on success it has taken `message` too; on failure it
/// may or may not have.
pub open spec fn send_email_post(
    pre: Outbox,
    message: Message,
    post: Outbox,
    r: Result<(), String>,
) -> bool {
    match r {
        Ok(()) => post == pre.push(message),
        Err(_) => post == pre || post == pre.push(message),
    }
}

/// Delivers messages out of band. `Err` carries the reason a delivery
/// failed.
pub trait EmailClient {
    /// The messages that the notifier has taken for delivery.
    spec fn outbox(&self) -> Outbox;

    /// Whether every delivery succeeds. A notifier says so only if it can
    /// keep the promise; by default it does not.
    open spec fn reliable(&self) -> bool {
        false
    }

    fn send_email(&mut self, recipient: &Email, subject: &str, content: &str) -> (r: Result<
        (),
        String,
    >)
        ensures
            send_email_post(
                old(self).outbox(),
                (Message { recipient: recipient@, subject: subject@, content: content@ }),
                final(self).outbox(),
                r,
            ),
            final(self).reliable() == old(self).reliable(),
            old(self).reliable() ==> r is Ok,
    ;
}

} // verus!
