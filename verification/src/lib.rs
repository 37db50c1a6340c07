//! A startup sequence: it greets through a [`mailer::Mailer`], reports one line of
//! text, and ends. What it reports goes to a list of lines that the caller owns, so
//! that every effect of a run can be read off the list.

pub mod callbacks;
pub mod mailer;
pub mod startup;
