//! The mailer: a value without data that groups the welcome operations.

use vstd::prelude::*;

verus! {

/// A mailer. It carries no data, so any two mailers are equal.
pub struct Mailer;

impl Mailer {
    /// Makes a mailer.
    pub fn new() -> (mailer: Mailer)
        ensures
            mailer == Mailer,
        no_unwind
    {
        Mailer
    }

    /// Sends the welcome message: hands the work to [`Mailer::send_email`] and does
    /// nothing else. It cannot fail, returns nothing and changes nothing.
    pub fn send_welcome_message(&self)
        no_unwind
    {
        self.send_email();
    }

    /// Delivers an email. Delivery is left empty: nothing is sent, nothing can fail.
    fn send_email(&self)
        no_unwind
    {
    }
}

} // verus!
