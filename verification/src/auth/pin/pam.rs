//! The PAM conversation that answers the password prompt with the PIN.

use vstd::prelude::*;

use super::enforce::SERVICE_NAME;

verus! {

/// Holds the PIN until PAM asks for it; it is handed over at most once.
pub struct PinConversation {
    pin: Option<String>,
}

impl View for PinConversation {
    type V = Option<Seq<char>>;

    closed spec fn view(&self) -> Option<Seq<char>> {
        match self.pin {
            Some(p) => Some(p@),
            None => None,
        }
    }
}

impl PinConversation {
    pub fn new(pin: String) -> (c: PinConversation)
        ensures
            c@ == Some(pin@),
    {
        PinConversation { pin: Some(pin) }
    }

    /// Answers a masked (password) prompt: the PIN the first time, nothing
    /// afterwards, which PAM treats as a conversation error.
    pub fn masked_prompt(&mut self) -> (answer: Option<String>)
        ensures
            match answer {
                Some(p) => old(self)@ == Some(p@),
                None => old(self)@ is None,
            },
            final(self)@ is None,
    {
        self.pin.take()
    }
}

/// The error text when the PAM transaction for the service cannot be set
/// up; `detail` is PAM's own description.
pub fn setup_failure(detail: &str) -> (m: String)
    ensures
        m@ == "PAM setup for service '"@ + SERVICE_NAME@ + "' failed: "@ + detail@,
{
    let mut m = String::from_str("PAM setup for service '");
    m.append(SERVICE_NAME);
    m.append("' failed: ");
    m.append(detail);
    m
}

/// The error text when PAM rejects the PIN; `detail` is PAM's own
/// description.
pub fn authentication_failure(detail: &str) -> (m: String)
    ensures
        m@ == "authentication failed: "@ + detail@,
{
    let mut m = String::from_str("authentication failed: ");
    m.append(detail);
    m
}

} // verus!
