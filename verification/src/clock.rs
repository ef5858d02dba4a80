//! The frame clock: decides on every timer tick whether the interpreter
//! advances by one display frame, and keeps track of faults and pauses.
//!
//! The clock performs no work itself. The host's timer calls
//! [`FrameClock::on_timer_tick`], carries out the action it returns, and hands
//! the interpreter's answer to [`FrameClock::on_frame_result`].

use vstd::prelude::*;
use crate::pause::PauseArbiter;

verus! {

/// Milliseconds between two timer ticks: sixteen, for about sixty frames a
/// second. The clock does not measure time; the host's timer keeps this pace.
pub const TICK_INTERVAL_MS: u32 = 16;

/// What the clock is doing.
#[derive(Clone, Copy, Debug, PartialEq, Eq, Structural)]
pub enum ClockState {
    /// No program has been loaded yet.
    Idle,
    /// A program is loaded and has not failed.
    Running,
    /// The program failed; nothing advances until another one is loaded.
    Faulted,
}

/// What the host does on a timer tick.
#[derive(Clone, Copy, Debug, PartialEq, Eq, Structural)]
pub enum TickAction {
    /// Advance the interpreter by exactly one display frame, report the
    /// outcome to the clock, then redraw.
    AdvanceThenRedraw,
    /// Leave the interpreter alone and redraw.
    RedrawOnly,
}

/// Why the interpreter stopped in the middle of a program.
#[derive(Debug, PartialEq, Eq)]
pub struct FaultReason {
    /// The text shown to the user.
    pub message: String,
}

/// What became of the file that the user chose, as the host found it.
#[derive(Clone, Copy, Debug, PartialEq, Eq, Structural)]
pub enum FileProbe {
    /// The file could not be opened.
    Inaccessible,
    /// The file was opened, but its metadata could not be read.
    MetadataUnreadable,
    /// The path names a directory.
    Directory,
    /// The interpreter did not accept the file's bytes as a program.
    Rejected,
    /// The interpreter holds the file's bytes as its program.
    Loaded,
}

/// Why a chosen file did not become the running program.
#[derive(Clone, Copy, Debug, PartialEq, Eq, Structural)]
pub enum OpenError {
    /// The file could not be opened.
    Inaccessible,
    /// The file's metadata could not be read.
    MetadataUnreadable,
    /// The path names a directory. This is no failure to show: the file
    /// chooser is to descend into that directory.
    IsDirectory,
    /// The interpreter did not accept the file's bytes as a program.
    Rejected,
}

impl OpenError {
    /// The text shown to the user for this error; `None` for the one error
    /// that is not shown.
    pub open spec fn message_text(self) -> Option<Seq<char>> {
        match self {
            OpenError::Inaccessible => Some("The file could not be opened"@),
            OpenError::MetadataUnreadable => Some("The file's metadata could be read"@),
            OpenError::IsDirectory => None,
            OpenError::Rejected => Some("The file could not be read"@),
        }
    }

    /// The text shown to the user for this error; `None` for a directory,
    /// which redirects the file chooser and shows nothing.
    pub fn message(&self) -> (text: Option<&'static str>)
        ensures
            match text {
                Some(t) => self.message_text() == Some(t@),
                None => self.message_text().is_none(),
            },
    {
        match self {
            OpenError::Inaccessible => Some("The file could not be opened"),
            OpenError::MetadataUnreadable => Some("The file's metadata could be read"),
            OpenError::IsDirectory => None,
            OpenError::Rejected => Some("The file could not be read"),
        }
    }
}

/// The error that a probe stands for, if it stands for one.
pub open spec fn error_of_probe(probe: FileProbe) -> Option<OpenError> {
    match probe {
        FileProbe::Inaccessible => Some(OpenError::Inaccessible),
        FileProbe::MetadataUnreadable => Some(OpenError::MetadataUnreadable),
        FileProbe::Directory => Some(OpenError::IsDirectory),
        FileProbe::Rejected => Some(OpenError::Rejected),
        FileProbe::Loaded => None,
    }
}

/// The clock as contracts see it: its state and the number of pauses held.
pub ghost struct ClockModel {
    pub state: ClockState,
    pub depth: nat,
}

impl ClockModel {
    /// The pause that the clock holds on its own account: one while no
    /// program is running, none while one is.
    pub open spec fn own_holds(self) -> nat {
        if self.state == ClockState::Running {
            0
        } else {
            1
        }
    }

    /// The pauses that requesters other than the clock hold.
    pub open spec fn requested_holds(self) -> int {
        self.depth - self.own_holds()
    }

    /// Whether a timer tick advances the interpreter.
    pub open spec fn runnable(self) -> bool {
        self.depth == 0
    }

    /// The model after a program has been loaded.
    pub open spec fn after_load(self) -> ClockModel {
        ClockModel { state: ClockState::Running, depth: (self.depth - self.own_holds()) as nat }
    }

    /// The model after the interpreter reported a fault.
    pub open spec fn after_fault(self) -> ClockModel {
        ClockModel { state: ClockState::Faulted, depth: self.depth + 1 }
    }
}

/// A fault followed by the load of another program leaves a running clock
/// where it was: the pause taken at the fault is given back at the load, and
/// the pauses of other requesters are untouched throughout.
pub proof fn lemma_fault_then_load_is_neutral(m: ClockModel)
    requires
        m.state == ClockState::Running,
    ensures
        m.after_fault().after_load() == m,
        m.after_fault().requested_holds() == m.requested_holds(),
        !m.after_fault().runnable(),
{
}

/// Loading a program takes away one pause exactly if the clock held its own,
/// that is, if it was idle or faulted; on a running clock it changes nothing.
pub proof fn lemma_load_releases_own_pause_only(m: ClockModel)
    requires
        m.depth >= m.own_holds(),
    ensures
        m.after_load().state == ClockState::Running,
        m.state != ClockState::Running ==> m.after_load().depth == m.depth - 1,
        m.state == ClockState::Running ==> m.after_load() == m,
        m.after_load().requested_holds() == m.requested_holds(),
{
}

/// The frame clock with the pauses that hold it back. While the clock is idle or
/// faulted it holds one pause on its own account, so that it cannot run
/// before a program is loaded, whatever other requesters do.
pub struct FrameClock {
    state: ClockState,
    arbiter: PauseArbiter,
}

impl View for FrameClock {
    type V = ClockModel;

    closed spec fn view(&self) -> ClockModel {
        ClockModel { state: self.state, depth: self.arbiter.depth() }
    }
}

impl FrameClock {
    /// The clock's invariant: while it is idle or faulted, its own pause is
    /// among those held. Every clock that this module hands out satisfies it.
    pub closed spec fn wf(&self) -> bool {
        self.state != ClockState::Running ==> self.arbiter.depth() >= 1
    }

    /// A clock that has not advanced any frame yet: running if a program is
    /// already loaded, idle otherwise. An idle clock holds its own pause.
    pub fn new(program_loaded: bool) -> (clock: FrameClock)
        ensures
            clock.wf(),
            clock@.state == if program_loaded {
                ClockState::Running
            } else {
                ClockState::Idle
            },
            clock@.depth == clock@.own_holds(),
    {
        let mut arbiter = PauseArbiter::new();
        if program_loaded {
            FrameClock { state: ClockState::Running, arbiter }
        } else {
            arbiter.request_pause();
            FrameClock { state: ClockState::Idle, arbiter }
        }
    }

    /// A clock that is not running is paused, and the pauses of other
    /// requesters come on top of its own.
    pub proof fn lemma_halted_clock_is_paused(&self)
        requires
            self.wf(),
        ensures
            self@.depth >= self@.own_holds(),
            self@.requested_holds() >= 0,
            self@.runnable() ==> self@.state == ClockState::Running,
    {
    }

    /// The state of the clock.
    pub fn state(&self) -> (s: ClockState)
        ensures
            s == self@.state,
    {
        self.state
    }

    /// The number of pauses held, the clock's own included.
    pub fn pause_depth(&self) -> (d: u64)
        ensures
            d == self@.depth,
    {
        self.arbiter.pause_depth()
    }

    /// Whether at least one pause is held.
    pub fn is_paused(&self) -> (paused: bool)
        ensures
            paused == !self@.runnable(),
    {
        self.arbiter.is_paused()
    }

    /// The number of pauses that requesters other than the clock hold.
    pub fn requested_holds(&self) -> (n: u64)
        requires
            self.wf(),
        ensures
            n == self@.requested_holds(),
    {
        match self.state {
            ClockState::Running => self.arbiter.pause_depth(),
            _ => self.arbiter.pause_depth() - 1,
        }
    }

    /// Registers a pause for a requester, such as a file chooser that opens.
    pub fn request_pause(&mut self)
        requires
            old(self).wf(),
            old(self)@.depth < u64::MAX,
        ensures
            final(self).wf(),
            final(self)@.state == old(self)@.state,
            final(self)@.depth == old(self)@.depth + 1,
    {
        self.arbiter.request_pause();
    }

    /// Gives back the pause of a requester. The clock's own pause is not the
    /// caller's to release: a requester must hold one.
    pub fn release_pause(&mut self)
        requires
            old(self).wf(),
            old(self)@.requested_holds() > 0,
        ensures
            final(self).wf(),
            final(self)@.state == old(self)@.state,
            final(self)@.depth == old(self)@.depth - 1,
    {
        self.arbiter.release_pause();
    }

    /// Decides what a timer tick does: the interpreter advances by one frame
    /// exactly if no pause is held, which is never the case while the clock
    /// is idle or faulted. The surface is redrawn either way.
    pub fn on_timer_tick(&self) -> (action: TickAction)
        requires
            self.wf(),
        ensures
            action == if self@.runnable() {
                TickAction::AdvanceThenRedraw
            } else {
                TickAction::RedrawOnly
            },
            self@.state != ClockState::Running ==> action == TickAction::RedrawOnly,
    {
        if self.arbiter.is_paused() {
            TickAction::RedrawOnly
        } else {
            TickAction::AdvanceThenRedraw
        }
    }

    /// Takes the interpreter's answer to the advance that the last tick asked
    /// for. A completed frame changes nothing. A fault stops the clock: it
    /// becomes faulted, takes a pause of its own, and hands the reason back
    /// to be shown to the user.
    pub fn on_frame_result(&mut self, result: Result<(), FaultReason>) -> (report: Option<FaultReason>)
        requires
            old(self).wf(),
            old(self)@.runnable(),
        ensures
            final(self).wf(),
            match result {
                Ok(_) => final(self)@ == old(self)@ && report.is_none(),
                Err(reason) => final(self)@ == old(self)@.after_fault() && report == Some(reason),
            },
    {
        match result {
            Ok(_) => None,
            Err(reason) => {
                self.arbiter.request_pause();
                self.state = ClockState::Faulted;
                Some(reason)
            },
        }
    }

    /// Records that a program has been loaded: the clock runs, and if it was
    /// idle or faulted it gives back its own pause. The pauses of other
    /// requesters stay.
    pub fn program_loaded(&mut self)
        requires
            old(self).wf(),
        ensures
            final(self).wf(),
            final(self)@ == old(self)@.after_load(),
            final(self)@.requested_holds() == old(self)@.requested_holds(),
    {
        match self.state {
            ClockState::Running => {},
            _ => {
                self.arbiter.release_pause();
                self.state = ClockState::Running;
            },
        }
    }

    /// Takes what the host found of the file that the user chose. Only a
    /// loaded program changes the clock, as `program_loaded` does; every
    /// other finding is returned as its error and leaves the clock as it was.
    pub fn on_file_chosen(&mut self, probe: FileProbe) -> (outcome: Result<(), OpenError>)
        requires
            old(self).wf(),
        ensures
            final(self).wf(),
            match error_of_probe(probe) {
                None => outcome.is_ok() && final(self)@ == old(self)@.after_load(),
                Some(e) => outcome == Err::<(), OpenError>(e) && final(self)@ == old(self)@,
            },
    {
        match probe {
            FileProbe::Inaccessible => Err(OpenError::Inaccessible),
            FileProbe::MetadataUnreadable => Err(OpenError::MetadataUnreadable),
            FileProbe::Directory => Err(OpenError::IsDirectory),
            FileProbe::Rejected => Err(OpenError::Rejected),
            FileProbe::Loaded => {
                self.program_loaded();
                Ok(())
            },
        }
    }
}

} // verus!
