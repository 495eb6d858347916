use vstd::prelude::*;

use crate::errors::BridgeError;
use crate::events::ProcessEvent;
use crate::pty::ChildHandle;
use crate::pty::PtyHandle;
use crate::pty::PtyWriter;
use crate::pty::builder_env;
use crate::pty::builder_program;
use crate::pty::clone_reader;
use crate::pty::command_env;
use crate::pty::command_new;
use crate::pty::open_pty;
use crate::pty::pty_dims;
use crate::pty::reader_delivered;
use crate::pty::reader_done;
use crate::pty::resize_pty;
use crate::pty::spawn_child;
use crate::pty::take_writer;
use crate::pty::write_bytes;
use crate::pty::flush_writer;
use crate::pty::writer_written;
use crate::relay::RelayTask;
use crate::sink::EventSender;
use crate::sink::event_channel;
use crate::sink::sink_closed;
use crate::sink::sink_sent;
use crate::size::PtySize;
use vstd::slice::slice_subrange;

verus! {

/// What a bridge is built from: the initial terminal size and the sink the
/// relay will deliver events through.
pub struct ProcessOptions {
    pub size: PtySize,
    pub web: EventSender,
}

/// A child process attached to a pseudo-terminal.
///
/// The bridge exclusively owns the pty's controller side, the child
/// descriptor and the controller-side write endpoint; the read endpoint
/// goes to the one relay task created alongside it. The subordinate side
/// is released to the child at construction, so the relay's read returns
/// end-of-stream once the child exits. `write` and `resize` stay valid for
/// the bridge's whole lifetime; dropping the bridge releases the pty and
/// so ends the relay's reads.
pub struct Process {
    pty: PtyHandle,
    child: ChildHandle,
    writer: PtyWriter,
}

impl Process {
    /// The bytes this bridge has accepted through `write` so far, oldest
    /// first.
    pub closed spec fn written(self) -> Seq<u8> {
        writer_written(self.writer)
    }

    /// The window dimensions the kernel currently holds for this bridge's
    /// pty.
    pub closed spec fn dims(self) -> PtySize {
        pty_dims(self.pty)
    }

    /// Opens a pty sized to `options.size`, spawns `command` on its
    /// subordinate side, and takes the two controller-side endpoints.
    /// Returns the bridge together with the one relay task for it; nothing
    /// has flowed yet through either endpoint. Construction is atomic:
    /// on error (`Allocation` if the operating system refuses a pty or an
    /// endpoint, `Spawn` if the child cannot be launched) no bridge and no
    /// relay task exist.
    pub fn new(command: portable_pty::CommandBuilder, options: ProcessOptions) -> (r: Result<
        (Process, RelayTask),
        BridgeError,
    >)
        requires
            options.size.valid(),
        ensures
            r matches Ok(p) ==> {
                &&& p.0.written() == Seq::<u8>::empty()
                &&& p.0.dims() == options.size
                &&& reader_delivered(p.1.reader) == Seq::<u8>::empty()
                &&& !reader_done(p.1.reader)
                &&& sink_sent(p.1.sink) == sink_sent(options.web)
                &&& sink_closed(p.1.sink) == sink_closed(options.web)
            },
            r matches Err(e) ==> e == BridgeError::Allocation || e == BridgeError::Spawn,
    {
        let (pty, slave) = match open_pty(options.size) {
            Ok(p) => p,
            Err(e) => { return Err(e); },
        };
        let child = match spawn_child(slave, command) {
            Ok(c) => c,
            Err(e) => { return Err(e); },
        };
        let reader = match clone_reader(&pty) {
            Ok(rd) => rd,
            Err(e) => { return Err(e); },
        };
        let writer = match take_writer(&pty) {
            Ok(w) => w,
            Err(e) => { return Err(e); },
        };
        let process = Process { pty, child, writer };
        let task = RelayTask { reader, sink: options.web };
        Ok((process, task))
    }

    /// Updates the pty's window dimensions; safe at any point in the
    /// bridge's lifetime. On success the kernel's dimensions for the pty
    /// are exactly `size`. Failure means the underlying handle is no
    /// longer valid (the child exited and the device was torn down); it is
    /// reported, never fatal, and leaves the dimensions as they were. The
    /// bridge's input stream is untouched either way.
    pub fn resize(&mut self, size: PtySize) -> (r: Result<(), BridgeError>)
        requires
            size.valid(),
        ensures
            r is Ok ==> final(self).dims() == size,
            r matches Err(e) ==> e == BridgeError::Resize && final(self).dims() == old(
                self,
            ).dims(),
            final(self).written() == old(self).written(),
    {
        resize_pty(&mut self.pty, size)
    }

    /// Forwards `buf` verbatim to the child's terminal input: no framing,
    /// no interpretation. A successful call accepts some non-empty prefix
    /// of `buf` — when `buf` itself is non-empty — `n` bytes long, and
    /// appends exactly that prefix, contiguously, in one span, to the
    /// bridge's input stream. A failed call (the child is gone and the
    /// device was torn down) appends nothing. Exclusive access through
    /// `&mut self` is what serializes concurrent callers.
    pub fn write(&mut self, buf: &[u8]) -> (r: Result<usize, BridgeError>)
        ensures
            r matches Ok(n) ==> {
                &&& n <= buf@.len()
                &&& buf@.len() > 0 ==> 1 <= n
                &&& final(self).written() == old(self).written() + buf@.take(n as int)
            },
            r matches Err(e) ==> e == BridgeError::Io && final(self).written() == old(
                self,
            ).written(),
            final(self).dims() == old(self).dims(),
    {
        write_bytes(&mut self.writer, buf)
    }

    /// Forwards the whole of `buf` to the child's terminal input, writing
    /// as many times as the device needs. On success exactly `buf` has
    /// been appended, contiguously, to the bridge's input stream; on
    /// failure some prefix of `buf` was appended before the device
    /// rejected the rest.
    pub fn write_all(&mut self, buf: &[u8]) -> (r: Result<(), BridgeError>)
        ensures
            r is Ok ==> final(self).written() == old(self).written() + buf@,
            r matches Err(e) ==> e == BridgeError::Io && exists|k: int|
                0 <= k <= buf@.len() && final(self).written() == old(self).written()
                    + buf@.take(k),
            final(self).dims() == old(self).dims(),
    {
        let mut off: usize = 0;
        while off < buf.len()
            invariant
                off <= buf.len(),
                self.written() == old(self).written() + buf@.take(off as int),
                self.dims() == old(self).dims(),
            decreases buf.len() - off,
        {
            let rest = slice_subrange(buf, off, buf.len());
            match write_bytes(&mut self.writer, rest) {
                Ok(n) => {
                    proof {
                        assert(buf@.take(off as int) + buf@.subrange(off as int, buf@.len() as int)
                            .take(n as int) =~= buf@.take(off + n as int));
                        assert(old(self).written() + buf@.take(off as int) + buf@.subrange(
                            off as int,
                            buf@.len() as int,
                        ).take(n as int) =~= old(self).written() + buf@.take(off + n as int));
                    }
                    off = off + n;
                },
                Err(e) => {
                    proof {
                        assert(0 <= off as int <= buf@.len());
                    }
                    return Err(e);
                },
            }
        }
        proof {
            assert(buf@.take(buf@.len() as int) =~= buf@);
        }
        Ok(())
    }

    /// Pushes buffered input toward the child without accepting new bytes.
    pub fn flush(&mut self) -> (r: Result<(), BridgeError>)
        ensures
            final(self).written() == old(self).written(),
            final(self).dims() == old(self).dims(),
            r matches Err(e) ==> e == BridgeError::Io,
    {
        flush_writer(&mut self.writer)
    }
}

/// Builds the command for a session: the given program, launched with the
/// terminal identification the child's own terminal-aware libraries need.
/// `TERM` advertises a 256-color terminal, `COLOR` the true-color
/// capability, and `TERM_PROGRAM` identifies the host.
pub fn prepare_command(program: &str) -> (cmd: portable_pty::CommandBuilder)
    ensures
        builder_program(cmd) == program@,
        builder_env(cmd).contains_key("COLOR"@) && builder_env(cmd)["COLOR"@] == "1"@,
        builder_env(cmd).contains_key("TERM"@) && builder_env(cmd)["TERM"@]
            == "xterm-256color"@,
        builder_env(cmd).contains_key("TERM_PROGRAM"@) && builder_env(cmd)["TERM_PROGRAM"@]
            == "tm-switcher-host"@,
{
    let mut cmd = command_new(program);
    command_env(&mut cmd, "COLOR", "1");
    command_env(&mut cmd, "TERM", "xterm-256color");
    command_env(&mut cmd, "TERM_PROGRAM", "tm-switcher-host");
    proof {
        reveal_strlit("COLOR");
        reveal_strlit("TERM");
        reveal_strlit("TERM_PROGRAM");
        assert("COLOR"@.len() == 5);
        assert("TERM"@.len() == 4);
        assert("TERM_PROGRAM"@.len() == 12);
        assert("COLOR"@ != "TERM"@);
        assert("COLOR"@ != "TERM_PROGRAM"@);
        assert("TERM"@ != "TERM_PROGRAM"@);
    }
    cmd
}

/// Begins a session: creates a fresh event channel, constructs the bridge
/// and its relay task over it, and hands the channel's receiving end to
/// the caller for the consumer. On error no session exists at all.
pub fn begin(command: portable_pty::CommandBuilder, size: PtySize) -> (r: Result<
    (Process, RelayTask, std::sync::mpsc::Receiver<ProcessEvent>),
    BridgeError,
>)
    requires
        size.valid(),
    ensures
        r matches Ok(s) ==> {
            &&& s.0.written() == Seq::<u8>::empty()
            &&& s.0.dims() == size
            &&& reader_delivered(s.1.reader) == Seq::<u8>::empty()
            &&& !reader_done(s.1.reader)
            &&& sink_sent(s.1.sink) == Seq::<ProcessEvent>::empty()
            &&& !sink_closed(s.1.sink)
        },
        r matches Err(e) ==> e == BridgeError::Allocation || e == BridgeError::Spawn,
{
    let (web, receiver) = event_channel();
    match Process::new(command, ProcessOptions { size, web }) {
        Ok((process, task)) => Ok((process, task, receiver)),
        Err(e) => Err(e),
    }
}

/// Input written by separate `write` calls never interleaves: however two
/// calls follow one another, the first call's bytes `a` and the second's
/// `b` each occupy one contiguous span of the bridge's input stream, in
/// call order, after whatever stood before them.
pub proof fn lemma_writes_contiguous(pre: Seq<u8>, a: Seq<u8>, b: Seq<u8>)
    ensures
        ((pre + a) + b).subrange(0, pre.len() as int) == pre,
        ((pre + a) + b).subrange(pre.len() as int, (pre.len() + a.len()) as int) == a,
        ((pre + a) + b).subrange(
            (pre.len() + a.len()) as int,
            ((pre + a) + b).len() as int,
        ) == b,
{
    assert(((pre + a) + b).subrange(0, pre.len() as int) =~= pre);
    assert(((pre + a) + b).subrange(pre.len() as int, (pre.len() + a.len()) as int) =~= a);
    assert(((pre + a) + b).subrange((pre.len() + a.len()) as int, ((pre + a) + b).len() as int)
        =~= b);
}

} // verus!
