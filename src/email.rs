//! An outgoing email, as handed to the email gateway.
use vstd::prelude::*;

verus! {

/// One message for one recipient.
#[derive(Debug, Clone)]
pub struct EmailMessage {
    pub recipient: String,
    pub subject: String,
    pub html_body: String,
    pub text_body: String,
}

pub struct MessageView {
    pub recipient: Seq<char>,
    pub subject: Seq<char>,
    pub html_body: Seq<char>,
    pub text_body: Seq<char>,
}

impl View for EmailMessage {
    type V = MessageView;

    open spec fn view(&self) -> MessageView {
        MessageView {
            recipient: self.recipient@,
            subject: self.subject@,
            html_body: self.html_body@,
            text_body: self.text_body@,
        }
    }
}

} // verus!
