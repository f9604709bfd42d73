//! The verified core of an `io_uring` runtime: socket-address images, the
//! completion table of the poller, the task scheduler, the state machines of
//! the I/O futures, and the progress of whole-buffer reads and writes.
pub mod addr;
pub mod poller;
pub mod proactor;
pub mod ops;
pub mod traits;

pub use addr::SockAddr;
pub use ops::{ReadFuture, ReadState, RecvFromFuture, RecvFromState, SendToFuture, SendToState, WriteFuture, WriteState};
pub use proactor::Proactor;
pub use traits::{IoBuf, IoBufMut};

use vstd::prelude::*;

verus! {

/// Spawns a task on the proactor; it is queued to be polled in the next
/// round. The handle lets other tasks wait for it to finish (`Proactor::join`).
pub fn spawn<T>(proactor: &mut proactor::Proactor<T>, task: T) -> (handle: proactor::JoinHandle)
    requires
        old(proactor).wf(),
        old(proactor).view().next_id < u64::MAX,
    ensures
        final(proactor).wf(),
        handle.spec_id() == old(proactor).view().next_id,
        !old(proactor).view().tasks.contains_key(handle.spec_id()),
        final(proactor).view() == proactor::spawn_spec(old(proactor).view(), task),
{
    let id = proactor.spawn(task);
    proactor::JoinHandle::new(id)
}

} // verus!
