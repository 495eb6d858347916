use vstd::prelude::*;

use std::io::Read;
use std::io::Write;

use crate::errors::BridgeError;
use crate::size::PtySize;

verus! {

/// The command to launch: `portable_pty::CommandBuilder`, carried opaquely.
#[verifier::external_type_specification]
#[verifier::external_body]
pub struct ExCommandBuilder(portable_pty::CommandBuilder);

/// The controller ("master") side of a pseudo-terminal: it yields the
/// stream endpoints and the resize operation.
#[verifier::external_body]
pub struct PtyHandle {
    inner: Box<dyn portable_pty::MasterPty + Send>,
}

/// The subordinate ("slave") side of a pseudo-terminal: the child process
/// is spawned onto it. It is consumed — and its descriptor released — by
/// the spawn, so that the controller side sees end-of-stream once the
/// child is gone.
#[verifier::external_body]
pub struct SlaveHandle {
    inner: Box<dyn portable_pty::SlavePty + Send>,
}

/// The spawned child process descriptor. The bridge owns it so that the
/// child's resources live exactly as long as the bridge; it is released on
/// drop.
#[verifier::external_body]
pub struct ChildHandle {
    inner: Box<dyn portable_pty::Child + Send + Sync>,
}

/// The controller-side read endpoint; the output relay is its only user.
#[verifier::external_body]
pub struct PtyReader {
    inner: Box<dyn Read + Send>,
}

/// The controller-side write endpoint; the bridge's write path is its only
/// user.
#[verifier::external_body]
pub struct PtyWriter {
    inner: Box<dyn Write + Send>,
}

/// The bytes this reader handle has handed out so far, oldest first. What
/// the child writes is outside the model, so nothing pins the values; each
/// read only appends what it returned.
pub uninterp spec fn reader_delivered(r: PtyReader) -> Seq<u8>;

/// Whether this reader handle has observed the end of the stream: a read
/// that returned zero bytes or an error.
pub uninterp spec fn reader_done(r: PtyReader) -> bool;

/// The window dimensions the kernel holds for this pty: what `openpty`
/// established and the last successful resize replaced.
pub uninterp spec fn pty_dims(p: PtyHandle) -> PtySize;

/// The bytes accepted through this writer handle so far, oldest first.
pub uninterp spec fn writer_written(w: PtyWriter) -> Seq<u8>;

/// The program a command will launch (its first argument vector entry).
pub uninterp spec fn builder_program(b: portable_pty::CommandBuilder) -> Seq<char>;

/// The environment a command will launch with, as a key-to-value map. A
/// freshly built command inherits an unspecified base environment, so only
/// the effect of explicit overrides is ever known.
pub uninterp spec fn builder_env(b: portable_pty::CommandBuilder) -> Map<Seq<char>, Seq<char>>;

/// Relies on `portable_pty::CommandBuilder::new`: the builder's argument
/// vector starts as exactly `[program]`; its environment starts from a base
/// environment this model leaves unspecified.
#[verifier::external_body]
pub(crate) fn command_new(program: &str) -> (b: portable_pty::CommandBuilder)
    ensures
        builder_program(b) == program@,
{
    portable_pty::CommandBuilder::new(program)
}

/// Relies on `portable_pty::CommandBuilder::env`: overrides one environment
/// variable, keyed verbatim on case-sensitive platforms, leaving the
/// program untouched.
#[verifier::external_body]
pub(crate) fn command_env(b: &mut portable_pty::CommandBuilder, key: &str, value: &str)
    ensures
        builder_env(*final(b)) == builder_env(*old(b)).insert(key@, value@),
        builder_program(*final(b)) == builder_program(*old(b)),
{
    b.env(key, value);
}

/// Relies on `portable_pty::native_pty_system` and `PtySystem::openpty`:
/// allocates a fresh pty pair whose kernel window size is set to `size`;
/// failure means the operating system could not provide one.
#[verifier::external_body]
pub(crate) fn open_pty(size: PtySize) -> (r: Result<(PtyHandle, SlaveHandle), BridgeError>)
    ensures
        r matches Ok(p) ==> pty_dims(p.0) == size,
        r matches Err(e) ==> e == BridgeError::Allocation,
{
    let ps = portable_pty::PtySize {
        rows: size.rows,
        cols: size.cols,
        pixel_width: size.pixel_width,
        pixel_height: size.pixel_height,
    };
    match portable_pty::native_pty_system().openpty(ps) {
        Ok(pair) => Ok((PtyHandle { inner: pair.master }, SlaveHandle { inner: pair.slave })),
        Err(_) => Err(BridgeError::Allocation),
    }
}

/// Relies on `portable_pty::SlavePty::spawn_command`: launches the command
/// on the subordinate side; failure means the executable is missing or
/// cannot be executed. Consumes the subordinate side either way: from here
/// on only the child holds it, so its exit is observable as end-of-stream.
#[verifier::external_body]
pub(crate) fn spawn_child(
    slave: SlaveHandle,
    cmd: portable_pty::CommandBuilder,
) -> (r: Result<ChildHandle, BridgeError>)
    ensures
        r matches Err(e) ==> e == BridgeError::Spawn,
{
    match slave.inner.spawn_command(cmd) {
        Ok(child) => Ok(ChildHandle { inner: child }),
        Err(_) => Err(BridgeError::Spawn),
    }
}

/// Relies on `portable_pty::MasterPty::try_clone_reader`: a fresh read
/// endpoint for the controller side, which has delivered nothing yet and
/// has not observed the end of the stream.
#[verifier::external_body]
pub(crate) fn clone_reader(pty: &PtyHandle) -> (r: Result<PtyReader, BridgeError>)
    ensures
        r matches Ok(rd) ==> reader_delivered(rd) == Seq::<u8>::empty() && !reader_done(rd),
        r matches Err(e) ==> e == BridgeError::Allocation,
{
    match pty.inner.try_clone_reader() {
        Ok(rd) => Ok(PtyReader { inner: rd }),
        Err(_) => Err(BridgeError::Allocation),
    }
}

/// Relies on `portable_pty::MasterPty::take_writer`: the one write endpoint
/// for the controller side, which has accepted nothing yet.
#[verifier::external_body]
pub(crate) fn take_writer(pty: &PtyHandle) -> (r: Result<PtyWriter, BridgeError>)
    ensures
        r matches Ok(w) ==> writer_written(w) == Seq::<u8>::empty(),
        r matches Err(e) ==> e == BridgeError::Allocation,
{
    match pty.inner.take_writer() {
        Ok(w) => Ok(PtyWriter { inner: w }),
        Err(_) => Err(BridgeError::Allocation),
    }
}

/// Relies on `portable_pty::MasterPty::resize`: one window-size ioctl
/// against the pty. On success the kernel's dimensions are exactly `size`
/// and the child is signalled; on failure (the handle is no longer valid)
/// the kernel applied nothing, so the dimensions stand as they were.
#[verifier::external_body]
pub(crate) fn resize_pty(pty: &mut PtyHandle, size: PtySize) -> (r: Result<(), BridgeError>)
    ensures
        r is Ok ==> pty_dims(*final(pty)) == size,
        r matches Err(e) ==> e == BridgeError::Resize && pty_dims(*final(pty)) == pty_dims(
            *old(pty),
        ),
{
    let ps = portable_pty::PtySize {
        rows: size.rows,
        cols: size.cols,
        pixel_width: size.pixel_width,
        pixel_height: size.pixel_height,
    };
    match pty.inner.resize(ps) {
        Ok(()) => Ok(()),
        Err(_) => Err(BridgeError::Resize),
    }
}

/// Relies on `std::io::Read::read`: a successful read of `n > 0` bytes
/// hands out exactly those bytes; zero bytes mean end-of-stream, and a read
/// error is treated the same way, so both come back as `None` and mark the
/// reader done.
#[verifier::external_body]
pub(crate) fn read_chunk(r: &mut PtyReader) -> (chunk: Option<Vec<u8>>)
    ensures
        chunk matches Some(d) ==> {
            &&& 1 <= d@.len() <= 1024
            &&& reader_delivered(*final(r)) == reader_delivered(*old(r)) + d@
        },
        chunk is None ==> reader_delivered(*final(r)) == reader_delivered(*old(r))
            && reader_done(*final(r)),
{
    let mut buf: [u8; 1024] = [0; 1024];
    match r.inner.read(&mut buf) {
        Ok(n) if n > 0 => Some(buf[..n].to_vec()),
        _ => None,
    }
}

/// Relies on `std::io::Write::write`: a successful write consumed some
/// prefix of `buf`, at most `buf.len()` bytes, and appends exactly that
/// prefix to the stream. A blocking write on a pty descriptor transfers at
/// least one byte or fails, so a non-empty buffer never comes back with a
/// count of zero; and std documents that when an error is returned no
/// bytes were written.
#[verifier::external_body]
pub(crate) fn write_bytes(w: &mut PtyWriter, buf: &[u8]) -> (r: Result<usize, BridgeError>)
    ensures
        r matches Ok(n) ==> {
            &&& n <= buf@.len()
            &&& buf@.len() > 0 ==> 1 <= n
            &&& writer_written(*final(w)) == writer_written(*old(w)) + buf@.take(n as int)
        },
        r matches Err(e) ==> e == BridgeError::Io && writer_written(*final(w)) == writer_written(
            *old(w),
        ),
{
    match w.inner.write(buf) {
        Ok(n) => Ok(n),
        Err(_) => Err(BridgeError::Io),
    }
}

/// Relies on `std::io::Write::flush`: pushes buffered bytes toward the
/// device without consuming new ones.
#[verifier::external_body]
pub(crate) fn flush_writer(w: &mut PtyWriter) -> (r: Result<(), BridgeError>)
    ensures
        writer_written(*final(w)) == writer_written(*old(w)),
        r matches Err(e) ==> e == BridgeError::Io,
{
    match w.inner.flush() {
        Ok(()) => Ok(()),
        Err(_) => Err(BridgeError::Io),
    }
}

} // verus!
