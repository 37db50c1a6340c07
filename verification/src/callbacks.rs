//! Free callbacks. Neither takes, returns or changes anything.

use vstd::prelude::*;

verus! {

/// The callback that closes the startup sequence. It does nothing and cannot fail.
pub fn global_callback()
    no_unwind
{
}

/// A handler that nothing registers and that the startup sequence never calls.
/// It does nothing and cannot fail.
pub fn on_sent_should_be_ignored()
    no_unwind
{
}

} // verus!
