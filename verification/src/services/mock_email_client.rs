use vstd::prelude::*;

use crate::domain::email::Email;
use crate::domain::email_client::{EmailClient, Message, Outbox};

verus! {

/// One message that the mock notifier was asked to send.
#[derive(Debug)]
pub struct SentEmail {
    pub recipient: String,
    pub subject: String,
    pub content: String,
}

impl View for SentEmail {
    type V = Message;

    open spec fn view(&self) -> Message {
        Message { recipient: self.recipient@, subject: self.subject@, content: self.content@ }
    }
}

/// A notifier that delivers nothing, keeps what it was asked to send, and
/// always reports success.
#[derive(Debug)]
pub struct MockEmailClient {
    pub sent: Vec<SentEmail>,
}

impl MockEmailClient {
    /// A notifier that has been asked for nothing yet.
    pub fn new() -> (r: Self)
        ensures
            r.outbox() == Outbox::empty(),
    {
        let r = MockEmailClient { sent: Vec::new() };
        assert(r.outbox() =~= Outbox::empty());
        r
    }
}

impl Default for MockEmailClient {
    fn default() -> (r: Self)
        ensures
            r.outbox() == Outbox::empty(),
    {
        MockEmailClient::new()
    }
}

impl EmailClient for MockEmailClient {
    open spec fn outbox(&self) -> Outbox {
        Seq::new(self.sent@.len(), |i: int| self.sent@[i]@)
    }

    /// Every delivery succeeds, since none is made.
    open spec fn reliable(&self) -> bool {
        true
    }

    fn send_email(&mut self, recipient: &Email, subject: &str, content: &str) -> (r: Result<
        (),
        String,
    >) {
        let email = SentEmail {
            recipient: recipient.to_string(),
            subject: subject.to_owned(),
            content: content.to_owned(),
        };
        self.sent.push(email);
        assert(self.outbox() =~= old(self).outbox().push(
            (Message { recipient: recipient@, subject: subject@, content: content@ }),
        ));
        Ok(())
    }
}

} // verus!
