//! The startup sequence, and the model of what it writes.
//!
//! Output is modelled as the lines written so far, oldest first. A run receives that
//! list and extends it; printing the lines is left to the caller.

use vstd::prelude::*;

use crate::callbacks::global_callback;
use crate::mailer::Mailer;

verus! {

/// The sentence that a run reports.
pub open spec fn notification_text() -> Seq<char> {
    "it has been a success"@
}

/// The lines written once a run has ended, given the lines `before` it: the same
/// lines, followed by the notification as one more line.
pub open spec fn output_after_run(before: Seq<Seq<char>>) -> Seq<Seq<char>> {
    before.push(notification_text())
}

/// What a run adds to the lines `before` it: all that follows them once it has ended.
pub open spec fn added_by_run(before: Seq<Seq<char>>) -> Seq<Seq<char>> {
    output_after_run(before).skip(before.len() as int)
}

/// The notification is a single line: it has 21 characters, none of them a line break.
pub proof fn lemma_notification_is_one_line()
    ensures
        notification_text().len() == 21,
        forall|i: int| 0 <= i < notification_text().len() ==> notification_text()[i] != '\n',
{
    reveal_strlit("it has been a success");
}

/// A run leaves every earlier line in its place and adds exactly one line, the
/// notification text.
pub proof fn lemma_run_adds_one_line(before: Seq<Seq<char>>)
    ensures
        output_after_run(before).len() == before.len() + 1,
        output_after_run(before).take(before.len() as int) == before,
        added_by_run(before) == seq![notification_text()],
{
}

/// Runs share no state: whatever two runs start from, each adds the same single line.
/// In particular a second run, started on what the first left, adds again what the
/// first added.
pub proof fn lemma_runs_add_the_same_line(first: Seq<Seq<char>>, second: Seq<Seq<char>>)
    ensures
        added_by_run(first) == added_by_run(second),
        added_by_run(output_after_run(first)) == added_by_run(first),
{
    lemma_run_adds_one_line(first);
    lemma_run_adds_one_line(second);
    lemma_run_adds_one_line(output_after_run(first));
}

/// Runs the startup sequence once.
///
/// In order: fixes the notification text; builds the notification callback, which
/// keeps that text and hands it out as a line when called; makes a [`Mailer`] and
/// sends the welcome message; calls the notification callback and writes its line to
/// `output`; calls [`global_callback`].
///
/// Every line that was in `output` stays where it was, and exactly one line is added
/// at the end: the notification text. The mailer and the closing callback add nothing.
pub fn run(output: &mut Vec<String>)
    ensures
        final(output).deep_view() == output_after_run(old(output).deep_view()),
{
    let contextual_variable = "it has been a success";
    let notification_callback = || -> (line: String)
        ensures
            line@ == contextual_variable@,
        { contextual_variable.to_owned() };

    let mailer = Mailer::new();
    mailer.send_welcome_message();

    let line = notification_callback();
    output.push(line);
    global_callback();
}

} // verus!
