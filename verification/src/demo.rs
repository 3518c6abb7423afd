//! The language feature walkthrough's small computations: the values it
//! builds and the messages it prints, separated from the printing itself.

use vstd::prelude::*;
use vstd::string::*;

verus! {

/// A sample account record, as built by the walkthrough.
pub struct User {
    pub username: String,
    pub email: String,
    pub sign_in_count: u64,
    pub active: bool,
}

/// The state of a sample account.
pub enum AccountStatus {
    Active,
    Inactive,
    Locked,
}

/// Returns the string whose ownership the walkthrough hands back to its caller.
pub fn give_ownership() -> (s: String)
    ensures
        s@ == "returning ownership"@,
{
    String::from_str("returning ownership")
}

/// The line printed for each account status.
pub fn status_label(status: &AccountStatus) -> (s: String)
    ensures
        status is Active ==> s@ == "  Account is active"@,
        status is Inactive ==> s@ == "  Account is inactive"@,
        status is Locked ==> s@ == "  Account is locked"@,
{
    match status {
        AccountStatus::Active => String::from_str("  Account is active"),
        AccountStatus::Inactive => String::from_str("  Account is inactive"),
        AccountStatus::Locked => String::from_str("  Account is locked"),
    }
}

/// The vector the walkthrough builds: five numbers, then one more pushed.
pub fn demo_vector() -> (v: Vec<i32>)
    ensures
        v@ == seq![1i32, 2i32, 3i32, 4i32, 5i32, 6i32],
{
    let mut v: Vec<i32> = Vec::new();
    v.push(1);
    v.push(2);
    v.push(3);
    v.push(4);
    v.push(5);
    v.push(6);
    proof {
        assert(v@ =~= seq![1i32, 2i32, 3i32, 4i32, 5i32, 6i32]);
    }
    v
}

} // verus!
