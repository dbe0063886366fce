use vstd::prelude::*;

pub mod poll;
pub mod stream;
pub mod task;

verus! {

/// A registration of native entry points into the host runtime's classes.
pub enum Registration {
    /// The wake-callback class.
    Task,
    /// The future and stream bridge classes.
    Future,
}

/// The registrations that library initialisation performs, in order; the
/// first one that fails stops the rest.
pub fn init() -> (r: Vec<Registration>)
    ensures
        r@ == seq![Registration::Task, Registration::Future],
{
    let mut r: Vec<Registration> = Vec::new();
    r.push(Registration::Task);
    r.push(Registration::Future);
    proof {
        assert(r@ =~= seq![Registration::Task, Registration::Future]);
    }
    r
}

} // verus!
