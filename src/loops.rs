use vstd::prelude::*;
use crate::discovery::{disposed, DiscoveryView};
use crate::error::StoreFault;
use crate::status::LifecycleStatus;

verus! {

/// What a background loop does next.
#[derive(Clone, Copy, Debug, PartialEq, Eq, Structural)]
pub enum LoopAction {
    Continue,
    Exit,
}

/// What one receive from a server stream produced.
#[derive(Clone, Copy, Debug, PartialEq, Eq, Structural)]
pub enum StreamItem {
    Message,
    Failure,
    End,
}

/// What the keep-alive sender does next.
#[derive(Clone, Copy, Debug, PartialEq, Eq, Structural)]
pub enum RenewAction {
    /// Send a renewal for this lease.
    Renew(u64),
    /// Wait this many seconds before the next iteration.
    Sleep(u64),
    Exit,
}

pub open spec fn poll_spec(status: LifecycleStatus) -> LoopAction {
    if status == LifecycleStatus::Active {
        LoopAction::Continue
    } else {
        LoopAction::Exit
    }
}

pub open spec fn receive_spec(item: StreamItem) -> LoopAction {
    if item == StreamItem::Message {
        LoopAction::Continue
    } else {
        LoopAction::Exit
    }
}

/// Check made at the top of every iteration of every background loop: go on
/// while active, leave once stopped.
pub fn poll(status: LifecycleStatus) -> (r: LoopAction)
    ensures
        r == poll_spec(status),
{
    if status.is_active() {
        LoopAction::Continue
    } else {
        LoopAction::Exit
    }
}

/// After a receive on the watch stream or the renewal acknowledgements: a
/// message keeps the loop going; an error or the end of the stream ends it.
pub fn after_receive(item: StreamItem) -> (r: LoopAction)
    ensures
        r == receive_spec(item),
{
    match item {
        StreamItem::Message => LoopAction::Continue,
        _ => LoopAction::Exit,
    }
}

/// Top of an iteration of the keep-alive sender.
pub fn renewal_due(status: LifecycleStatus, lease: u64) -> (r: RenewAction)
    ensures
        status == LifecycleStatus::Active ==> r == RenewAction::Renew(lease),
        status == LifecycleStatus::Stopped ==> r == RenewAction::Exit,
{
    match poll(status) {
        LoopAction::Continue => RenewAction::Renew(lease),
        LoopAction::Exit => RenewAction::Exit,
    }
}

/// After a renewal: wait the interval on success; give up on failure and let
/// the lease expire.
pub fn after_renewal(renewal: Result<(), StoreFault>, keep_alive_sec: u64) -> (r: RenewAction)
    ensures
        renewal is Ok ==> r == RenewAction::Sleep(keep_alive_sec),
        renewal is Err ==> r == RenewAction::Exit,
{
    match renewal {
        Ok(()) => RenewAction::Sleep(keep_alive_sec),
        Err(_) => RenewAction::Exit,
    }
}

/// After disposal every background loop leaves at its next check.
pub proof fn lemma_disposed_loops_exit(v: DiscoveryView)
    ensures
        poll_spec(disposed(v).0) == LoopAction::Exit,
{
}

} // verus!
