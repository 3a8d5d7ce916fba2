//! What task listeners have been told.
use vstd::prelude::*;

use crate::service::task_manager::{Task, TaskError};

verus! {

/// Something that a listener is told.
pub enum Notice {
    /// A task as it is after a change.
    Updated(Task),
    /// An error that does not stop its task.
    Reported(TaskError),
}

/// The record of what listeners have been told. Nothing but the call of a listener adds to it, so that
/// what it says has been said.
pub struct Told {
    log: Ghost<Seq<Notice>>,
}

impl Told {
    /// The notices, oldest first.
    pub closed spec fn log(&self) -> Seq<Notice> {
        self.log@
    }

    /// A record without notices.
    pub fn new() -> (r: Self)
        ensures
            r.log() == Seq::<Notice>::empty(),
    {
        Told { log: Ghost(Seq::empty()) }
    }
}

} // verus!
