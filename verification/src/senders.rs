use crate::structures::NameOutput;
use vstd::prelude::*;

verus! {

/// The name the server introduces itself with to every client.
pub fn student_name_reply() -> (out: NameOutput)
    ensures
        out.student_name@ == "Yusupov"@,
{
    NameOutput { student_name: String::from_str("Yusupov") }
}

} // verus!
