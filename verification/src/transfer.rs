//! Streaming a tar archive between the runner pod and a local file.
//!
//! A backup reads `tar cf - -C /data .` from the pod and writes it to the
//! local file; a restore reads the local file and feeds it to
//! `tar xf - -C /data`. Either way the data moves in chunks of at most
//! `CHUNK_SIZE` bytes, so the whole volume is never held in memory. The
//! caller performs each `TransferAction` and reports back what happened.

use vstd::prelude::*;
use vstd::string::*;
use crate::error::MigrationError;
use crate::exec::{ExecRequest, texts_are, push_text};
use crate::text::{decimal, push_decimal};

verus! {

/// The largest chunk moved at once: 64 KiB.
pub const CHUNK_SIZE: usize = 65536;

/// Which way the data goes.
#[derive(Clone, Copy, Debug, PartialEq, Eq, Structural)]
pub enum Direction {
    /// From the PVC to a local file.
    Backup,
    /// From a local file into the PVC.
    Restore,
}

pub open spec fn direction_word(d: Direction) -> Seq<char> {
    match d {
        Direction::Backup => "backup"@,
        Direction::Restore => "restore"@,
    }
}

/// The word for `d`: `backup` or `restore`.
pub fn direction_name(d: Direction) -> (s: &'static str)
    ensures
        s@ == direction_word(d),
{
    match d {
        Direction::Backup => "backup",
        Direction::Restore => "restore",
    }
}

/// The `tar` run in the pod: for a backup it writes an archive of `/data` to
/// its standard output; for a restore it extracts one from its standard input
/// into `/data`. No compression, so that any busybox `tar` will do.
pub fn tar_request(d: Direction) -> (r: ExecRequest)
    ensures
        d == Direction::Backup ==> texts_are(
            r.command@,
            seq!["tar"@, "cf"@, "-"@, "-C"@, "/data"@, "."@],
        ) && !r.stdin,
        d == Direction::Restore ==> texts_are(
            r.command@,
            seq!["tar"@, "xf"@, "-"@, "-C"@, "/data"@],
        ) && r.stdin,
        r.stdout,
        r.stderr,
{
    let mut command: Vec<String> = Vec::new();
    push_text(&mut command, "tar");
    match d {
        Direction::Backup => {
            push_text(&mut command, "cf");
            push_text(&mut command, "-");
            push_text(&mut command, "-C");
            push_text(&mut command, "/data");
            push_text(&mut command, ".");
            ExecRequest { command, stdin: false, stdout: true, stderr: true }
        },
        Direction::Restore => {
            push_text(&mut command, "xf");
            push_text(&mut command, "-");
            push_text(&mut command, "-C");
            push_text(&mut command, "/data");
            ExecRequest { command, stdin: true, stdout: true, stderr: true }
        },
    }
}

/// The message shown when all the data has moved.
pub open spec fn completion_text(d: Direction, transferred: nat) -> Seq<char> {
    direction_word(d) + " complete ("@ + decimal(transferred) + " bytes)"@
}

/// `backup complete (N bytes)` or `restore complete (N bytes)`.
pub fn completion_message(d: Direction, transferred: u64) -> (s: String)
    ensures
        s@ == completion_text(d, transferred as nat),
{
    let mut s = String::from_str(direction_name(d));
    s.append(" complete (");
    push_decimal(&mut s, transferred);
    s.append(" bytes)");
    s
}

/// Where a transfer stands.
#[derive(Clone, Copy, Debug, PartialEq, Eq, Structural)]
pub enum TransferPhase {
    /// Chunks are being read and written.
    Streaming,
    /// The input is exhausted; the output is being flushed (backup) or the
    /// pod's standard input closed (restore).
    Closing,
    /// Waiting for `tar` in the pod to exit.
    AwaitingExit,
    /// Done.
    Finished,
}

/// What happened since the last action.
#[derive(Debug, PartialEq, Eq)]
pub enum TransferEvent {
    /// A read returned this many bytes; zero means the input is exhausted.
    Read(usize),
    /// The output was flushed, or the pod's standard input closed.
    Closed,
    /// `tar` in the pod exited: successfully, or with this error.
    Exited(Result<(), String>),
}

/// What to do next.
#[derive(Debug, PartialEq, Eq)]
pub enum TransferAction {
    /// Write the chunk just read (this many bytes) and read the next one.
    Write(usize),
    /// Flush the output (backup), or close the pod's standard input
    /// (restore): without an end of input the remote `tar` never exits.
    Close,
    /// Show `completion` and wait for `tar` to exit.
    AwaitExit { completion: String },
    /// Stop: the number of bytes moved, or why the transfer failed.
    Finish(Result<u64, MigrationError>),
}

/// A transfer in progress.
#[derive(Debug, PartialEq, Eq)]
pub struct Transfer {
    pub direction: Direction,
    /// Bytes moved so far.
    pub transferred: u64,
    pub phase: TransferPhase,
}

/// The events that a transfer in state `t` expects: a read of at most one
/// chunk while streaming (whose count still fits in a `u64`), the close
/// after it, then the exit of `tar`.
pub open spec fn accepts(t: Transfer, ev: TransferEvent) -> bool {
    match ev {
        TransferEvent::Read(n) => t.phase == TransferPhase::Streaming && n <= CHUNK_SIZE
            && t.transferred + n <= u64::MAX,
        TransferEvent::Closed => t.phase == TransferPhase::Closing,
        TransferEvent::Exited(_) => t.phase == TransferPhase::AwaitingExit,
    }
}

/// One step of a transfer: from `pre`, on `ev`, to `post`, doing `act`.
pub open spec fn transfer_step(
    pre: Transfer,
    ev: TransferEvent,
    post: Transfer,
    act: TransferAction,
) -> bool {
    &&& post.direction == pre.direction
    &&& match ev {
        TransferEvent::Read(n) => if n == 0 {
            &&& post.phase == TransferPhase::Closing
            &&& post.transferred == pre.transferred
            &&& act == TransferAction::Close
        } else {
            &&& post.phase == TransferPhase::Streaming
            &&& post.transferred == pre.transferred + n
            &&& act == TransferAction::Write(n)
        },
        TransferEvent::Closed => {
            &&& post.phase == TransferPhase::AwaitingExit
            &&& post.transferred == pre.transferred
            &&& act matches TransferAction::AwaitExit { completion }
            &&& completion@ == completion_text(pre.direction, pre.transferred as nat)
        },
        TransferEvent::Exited(r) => {
            &&& post.phase == TransferPhase::Finished
            &&& post.transferred == pre.transferred
            &&& act == match r {
                Ok(()) => TransferAction::Finish(Ok(pre.transferred)),
                Err(detail) => TransferAction::Finish(
                    Err(MigrationError::TarFailed { detail }),
                ),
            }
        },
    }
}

impl Transfer {
    /// A transfer in direction `direction` that has moved nothing yet.
    pub fn new(direction: Direction) -> (t: Transfer)
        ensures
            t.direction == direction,
            t.transferred == 0,
            t.phase == TransferPhase::Streaming,
    {
        Transfer { direction, transferred: 0, phase: TransferPhase::Streaming }
    }

    /// Takes in what happened and says what to do next.
    pub fn step(&mut self, ev: TransferEvent) -> (act: TransferAction)
        requires
            accepts(*old(self), ev),
        ensures
            transfer_step(*old(self), ev, *final(self), act),
    {
        match ev {
            TransferEvent::Read(n) => {
                if n == 0 {
                    self.phase = TransferPhase::Closing;
                    TransferAction::Close
                } else {
                    self.transferred = self.transferred + n as u64;
                    TransferAction::Write(n)
                }
            },
            TransferEvent::Closed => {
                self.phase = TransferPhase::AwaitingExit;
                TransferAction::AwaitExit {
                    completion: completion_message(self.direction, self.transferred),
                }
            },
            TransferEvent::Exited(r) => {
                self.phase = TransferPhase::Finished;
                match r {
                    Ok(()) => TransferAction::Finish(Ok(self.transferred)),
                    Err(detail) => TransferAction::Finish(
                        Err(MigrationError::TarFailed { detail }),
                    ),
                }
            },
        }
    }
}

/// The sum of the chunk sizes.
pub open spec fn chunk_total(chunks: Seq<usize>) -> int
    decreases chunks.len(),
{
    if chunks.len() == 0 {
        0
    } else {
        chunk_total(chunks.drop_last()) + chunks.last()
    }
}

/// Law: while data keeps coming, every chunk read is written, in order, and
/// the count of bytes moved grows by exactly the size of each chunk.
pub proof fn law_every_byte_counted(
    states: Seq<Transfer>,
    chunks: Seq<usize>,
    acts: Seq<TransferAction>,
)
    requires
        states.len() == chunks.len() + 1,
        acts.len() == chunks.len(),
        states[0].phase == TransferPhase::Streaming,
        forall|i: int| 0 <= i < chunks.len() ==> #[trigger] chunks[i] > 0,
        forall|i: int|
            0 <= i < chunks.len() ==> transfer_step(
                #[trigger] states[i],
                TransferEvent::Read(chunks[i]),
                states[i + 1],
                acts[i],
            ),
    ensures
        states.last().phase == TransferPhase::Streaming,
        states.last().direction == states[0].direction,
        states.last().transferred == states[0].transferred + chunk_total(chunks),
        forall|i: int| 0 <= i < chunks.len() ==> #[trigger] acts[i] == TransferAction::Write(chunks[i]),
    decreases chunks.len(),
{
    if chunks.len() > 0 {
        let k = chunks.len() - 1;
        assert(chunks[k] > 0);
        assert(transfer_step(states[k], TransferEvent::Read(chunks[k]), states[k + 1], acts[k]));
        law_every_byte_counted(states.drop_last(), chunks.drop_last(), acts.drop_last());
        assert forall|i: int| 0 <= i < chunks.len() implies #[trigger] acts[i] == TransferAction::Write(chunks[i]) by {
            assert(chunks[i] > 0);
            assert(transfer_step(states[i], TransferEvent::Read(chunks[i]), states[i + 1], acts[i]));
        }
    }
}

/// Law: `tar` is only waited for once the input has ended and the output
/// has been flushed or the pod's standard input closed, and the completion
/// message then reports the bytes moved.
pub proof fn law_exit_awaited_after_close(
    pre: Transfer,
    ev: TransferEvent,
    post: Transfer,
    act: TransferAction,
)
    requires
        accepts(pre, ev),
        transfer_step(pre, ev, post, act),
        act is AwaitExit,
    ensures
        pre.phase == TransferPhase::Closing,
        ev == TransferEvent::Closed,
        act->completion@ == completion_text(pre.direction, pre.transferred as nat),
{
}

/// Law: a transfer ends in success, with the count of bytes moved, exactly
/// when `tar` exits successfully; an unsuccessful exit is reported with its
/// error.
pub proof fn law_finish_follows_exit(
    pre: Transfer,
    r: Result<(), String>,
    post: Transfer,
    act: TransferAction,
)
    requires
        transfer_step(pre, TransferEvent::Exited(r), post, act),
    ensures
        r is Ok <==> act == TransferAction::Finish(Ok(pre.transferred)),
        r matches Err(detail) ==> act == TransferAction::Finish(
            Err(MigrationError::TarFailed { detail }),
        ),
{
}

/// Law: no chunk written is larger than the buffer of `CHUNK_SIZE` bytes, so
/// the volume's content is never held in memory as a whole.
pub proof fn law_writes_fit_the_buffer(
    pre: Transfer,
    ev: TransferEvent,
    post: Transfer,
    act: TransferAction,
)
    requires
        accepts(pre, ev),
        transfer_step(pre, ev, post, act),
    ensures
        act matches TransferAction::Write(n) ==> 0 < n <= CHUNK_SIZE,
{
}

/// Law: in either direction and after any number of bytes, the end of the
/// input (a read of zero bytes) never ends the transfer: it asks for the
/// output to be flushed or the pod's standard input closed, and keeps the
/// byte count.
pub proof fn law_end_of_input_closes(pre: Transfer, post: Transfer, act: TransferAction)
    requires
        accepts(pre, TransferEvent::Read(0)),
        transfer_step(pre, TransferEvent::Read(0), post, act),
    ensures
        act == TransferAction::Close,
        post.phase == TransferPhase::Closing,
        post.transferred == pre.transferred,
        post.direction == pre.direction,
{
}

/// Law: a transfer finishes only on the exit of `tar`, never before it has
/// been waited for.
pub proof fn law_finish_only_on_exit(
    pre: Transfer,
    ev: TransferEvent,
    post: Transfer,
    act: TransferAction,
)
    requires
        accepts(pre, ev),
        transfer_step(pre, ev, post, act),
        act is Finish,
    ensures
        ev is Exited,
        pre.phase == TransferPhase::AwaitingExit,
{
}

} // verus!
