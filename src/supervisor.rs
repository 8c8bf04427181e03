//! Supervision of the backend sidecar process.
use vstd::prelude::*;

verus! {

/// File name of the sidecar executable, which sits beside the shell's own
/// executable.
pub open spec fn backend_filename_spec(is_windows: bool) -> Seq<char> {
    if is_windows {
        "python_backend.exe"@
    } else {
        "python_backend"@
    }
}

/// The sidecar's file name on the given platform family: with the `.exe`
/// suffix on Windows, without it elsewhere.
pub fn backend_filename(is_windows: bool) -> (r: &'static str)
    ensures
        r@ == backend_filename_spec(is_windows),
{
    if is_windows {
        "python_backend.exe"
    } else {
        "python_backend"
    }
}

/// The two output streams of the sidecar that are relayed to the log.
#[derive(Clone, Copy, Debug, PartialEq, Eq, Structural)]
pub enum BackendStream {
    Stdout,
    Stderr,
}

/// The tag put before each relayed line, which tells the streams apart.
pub open spec fn log_prefix_spec(stream: BackendStream) -> Seq<char> {
    match stream {
        BackendStream::Stdout => "[backend] "@,
        BackendStream::Stderr => "[backend-err] "@,
    }
}

/// A line of the sidecar's output as it is written to the log.
pub open spec fn log_line_spec(stream: BackendStream, line: Seq<char>) -> Seq<char> {
    log_prefix_spec(stream) + line
}

/// A logged line tells which stream it came from and what the line was: no
/// two different (stream, line) pairs are logged the same way.
pub proof fn lemma_log_line_identifies_source(
    s1: BackendStream,
    l1: Seq<char>,
    s2: BackendStream,
    l2: Seq<char>,
)
    requires
        log_line_spec(s1, l1) == log_line_spec(s2, l2),
    ensures
        s1 == s2,
        l1 == l2,
{
    reveal_strlit("[backend] ");
    reveal_strlit("[backend-err] ");
    let p1 = log_prefix_spec(s1);
    let p2 = log_prefix_spec(s2);
    let m = log_line_spec(s1, l1);
    // the tags differ in their ninth character: ']' against '-'
    assert(m[8] == p1[8]);
    assert(m[8] == log_line_spec(s2, l2)[8]);
    assert(log_line_spec(s2, l2)[8] == p2[8]);
    assert(s1 == s2);
    assert(l1 =~= m.subrange(p1.len() as int, m.len() as int));
    assert(l2 =~= m.subrange(p1.len() as int, m.len() as int));
}

impl BackendStream {
    /// The tag put before each line of this stream.
    pub fn log_prefix(&self) -> (r: &'static str)
        ensures
            r@ == log_prefix_spec(*self),
    {
        match self {
            BackendStream::Stdout => "[backend] ",
            BackendStream::Stderr => "[backend-err] ",
        }
    }

    /// One line read from this stream, tagged for the log.
    pub fn log_line(&self, line: &str) -> (r: String)
        ensures
            r@ == log_line_spec(*self, line@),
    {
        let mut out = String::from_str(self.log_prefix());
        out.append(line);
        out
    }
}

/// Where the sidecar stands in its lifecycle.
#[derive(Clone, Copy, Debug, PartialEq, Eq, Structural)]
pub enum BackendPhase {
    NotStarted,
    Running,
    StartupFailed,
    Terminated,
}

/// What a [`BackendSlot`] holds: the phase, and the process handle while the
/// sidecar runs.
pub struct SlotView<H> {
    pub phase: BackendPhase,
    pub handle: Option<H>,
}

/// A slot holds a handle exactly while the sidecar runs.
pub open spec fn slot_wf<H>(v: SlotView<H>) -> bool {
    v.handle is Some <==> v.phase == BackendPhase::Running
}

/// The slot after a spawn attempt from `NotStarted`.
pub open spec fn after_spawn<H, E>(spawned: Result<H, E>) -> SlotView<H> {
    match spawned {
        Ok(h) => SlotView { phase: BackendPhase::Running, handle: Some(h) },
        Err(_) => SlotView { phase: BackendPhase::StartupFailed, handle: None },
    }
}

/// The slot after shutdown: emptied, and a running sidecar counts as
/// terminated.
pub open spec fn after_shutdown<H>(v: SlotView<H>) -> SlotView<H> {
    SlotView {
        phase: if v.phase == BackendPhase::Running {
            BackendPhase::Terminated
        } else {
            v.phase
        },
        handle: None,
    }
}

/// The handle that shutdown hands out to be killed, if any.
pub open spec fn shutdown_target<H>(v: SlotView<H>) -> Option<H> {
    v.handle
}

/// The one place that owns the sidecar's process handle: filled once at
/// startup and emptied once at shutdown, so at most one handle is ever live.
pub struct BackendSlot<H> {
    phase: BackendPhase,
    handle: Option<H>,
}

impl<H> View for BackendSlot<H> {
    type V = SlotView<H>;

    closed spec fn view(&self) -> SlotView<H> {
        SlotView { phase: self.phase, handle: self.handle }
    }
}

impl<H> BackendSlot<H> {
    /// A handle is held exactly while the sidecar runs.
    #[verifier::type_invariant]
    spec fn inv(self) -> bool {
        slot_wf(self@)
    }

    /// An empty slot, before any spawn attempt.
    pub fn new() -> (r: Self)
        ensures
            r@ == (SlotView::<H> { phase: BackendPhase::NotStarted, handle: None }),
    {
        BackendSlot { phase: BackendPhase::NotStarted, handle: None }
    }

    /// The current phase.
    pub fn phase(&self) -> (r: BackendPhase)
        ensures
            r == self@.phase,
    {
        self.phase
    }

    /// Whether the slot holds a live handle, that is, whether the sidecar runs.
    pub fn is_running(&self) -> (r: bool)
        ensures
            r == (self@.handle is Some),
            r == (self@.phase == BackendPhase::Running),
    {
        proof {
            use_type_invariant(self);
        }
        self.handle.is_some()
    }

    /// Records the outcome of spawning the sidecar. A handle is stored and the
    /// sidecar counts as running; a spawn error is handed back, the slot stays
    /// empty, and startup is to be aborted.
    pub fn record_spawn<E>(&mut self, spawned: Result<H, E>) -> (r: Result<(), E>)
        requires
            old(self)@.phase == BackendPhase::NotStarted,
        ensures
            final(self)@ == after_spawn(spawned),
            match spawned {
                Ok(_) => r is Ok,
                Err(e) => r == Err::<(), E>(e),
            },
    {
        match spawned {
            Ok(h) => {
                *self = BackendSlot { phase: BackendPhase::Running, handle: Some(h) };
                Ok(())
            },
            Err(e) => {
                *self = BackendSlot { phase: BackendPhase::StartupFailed, handle: None };
                Err(e)
            },
        }
    }

    /// Takes the handle out for termination. The slot is left empty, so a
    /// later call hands out nothing and nothing is killed twice.
    pub fn take_for_shutdown(&mut self) -> (r: Option<H>)
        ensures
            r == shutdown_target(old(self)@),
            final(self)@ == after_shutdown(old(self)@),
    {
        proof {
            use_type_invariant(&*self);
        }
        let phase = if let BackendPhase::Running = self.phase {
            BackendPhase::Terminated
        } else {
            self.phase
        };
        let mut taken = BackendSlot { phase, handle: None };
        core::mem::swap(self, &mut taken);
        taken.handle
    }
}

/// Shutdown empties the slot for good: after it, a second shutdown hands out
/// no handle and changes nothing.
pub proof fn lemma_second_shutdown_is_noop<H>(v: SlotView<H>)
    ensures
        shutdown_target(after_shutdown(v)) is None,
        after_shutdown(after_shutdown(v)) == after_shutdown(v),
        slot_wf(after_shutdown(v)),
        v.phase == BackendPhase::Running ==> after_shutdown(v).phase == BackendPhase::Terminated,
{
}

/// A sidecar that was spawned is handed out for killing by the first shutdown,
/// and by that one only.
pub proof fn lemma_spawned_handle_killed_once<H, E>(h: H)
    ensures
        shutdown_target(after_spawn::<H, E>(Ok(h))) == Some(h),
        shutdown_target(after_shutdown(after_spawn::<H, E>(Ok(h)))) is None,
        after_shutdown(after_spawn::<H, E>(Ok(h))).phase == BackendPhase::Terminated,
{
}

} // verus!
