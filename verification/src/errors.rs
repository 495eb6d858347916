use vstd::prelude::*;

verus! {

/// Why a bridge operation failed.
///
/// `Allocation`: the operating system could not provide a pty or one of its
/// stream endpoints. `Spawn`: the child executable could not be launched.
/// `Io`: a write or flush against the pty failed, typically because the child
/// has exited and the device was torn down. `Resize`: the window-size update
/// was rejected because the handle is no longer valid. `SinkDisconnected`:
/// the event consumer has gone away.
#[derive(Clone, Copy, Debug, PartialEq, Eq, Structural)]
pub enum BridgeError {
    Allocation,
    Spawn,
    Io,
    Resize,
    SinkDisconnected,
}

} // verus!
