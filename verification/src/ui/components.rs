//! Small display helpers shared by the screens.

use vstd::prelude::*;

use crate::text::{dec_rep, u64_to_dec_string};

verus! {

/// Renders a timestamp, given as whole seconds since the Unix epoch,
/// or the unknown marker when the clock could not be read.
pub fn format_system_time(epoch_seconds: Option<u64>) -> (text: String)
    ensures
        match epoch_seconds {
            Some(seconds) => text@ == dec_rep(seconds as nat) + "s"@,
            None => text@ == "desconhecido"@,
        },
{
    match epoch_seconds {
        Some(seconds) => {
            let mut text = u64_to_dec_string(seconds);
            text.append("s");
            text
        },
        None => "desconhecido".to_owned(),
    }
}

} // verus!
