//! Keeping a host in step with the resources of a cluster.

pub mod links;
pub mod status;

use vstd::prelude::*;

verus! {

/// When a resource is looked at again.
#[derive(Clone, Copy, Debug, PartialEq, Eq, Structural)]
pub enum Action {
    /// Once it changes.
    AwaitChange,
    /// After a number of seconds, or once it changes.
    Requeue(u64),
}

/// A host looks after the resources that name it.
pub fn is_for_host(resource_host: &String, host_name: &String) -> (r: bool)
    ensures
        r == (resource_host@ == host_name@),
{
    *resource_host == *host_name
}

/// When a resource is looked at again after looking at it went wrong.
pub fn error_policy() -> (r: Action)
    ensures
        r == Action::Requeue(2),
{
    Action::Requeue(2)
}

/// The number of instances that an actor should have. A negative number of
/// replicas stands for the number without a sign that has the same bits, and
/// asks for more than any machine can run.
pub open spec fn replicas_wanted(replicas: i32) -> int {
    if replicas >= 0 {
        replicas as int
    } else {
        usize::MAX + 1 + replicas
    }
}

/// The number of instances that an actor should have.
pub fn replica_count(replicas: i32) -> (r: usize)
    ensures
        r == replicas_wanted(replicas),
{
    if replicas >= 0 {
        replicas as usize
    } else {
        let below: u32 = (-(replicas + 1)) as u32;
        usize::MAX - below as usize
    }
}

/// What is done after removing an actor.
pub fn after_removing_actor(removed: bool) -> (r: Action)
    ensures
        r == if removed {
            Action::AwaitChange
        } else {
            Action::Requeue(60)
        },
{
    if removed {
        Action::AwaitChange
    } else {
        Action::Requeue(60)
    }
}

/// What is done after stopping a provider.
pub fn after_stopping_provider(stopped: bool) -> (r: Action)
    ensures
        r == if stopped {
            Action::AwaitChange
        } else {
            Action::Requeue(10)
        },
{
    if stopped {
        Action::AwaitChange
    } else {
        Action::Requeue(10)
    }
}

/// Whether a host may go on that could not enter itself into the cluster. It
/// may where the cluster says that it is entered already.
pub fn may_go_on(reason: &Option<String>) -> (r: bool)
    ensures
        r == (reason matches Some(text) && text@ == "AlreadyExists"@),
{
    match reason {
        Some(text) => *text == "AlreadyExists".to_owned(),
        None => false,
    }
}

/// As many instances are wanted as replicas are asked for, and where that number
/// is negative, so many fewer than there are numbers in a machine word.
pub proof fn replicas_are_counted(replicas: i32)
    ensures
        replicas >= 0 ==> replicas_wanted(replicas) == replicas,
        replicas < 0 ==> replicas_wanted(replicas) - replicas == usize::MAX + 1,
{
}

} // verus!
