//! The session loop's decision core: what one received datagram does to
//! the session, and which signal the outside observer gets.
//!
//! The loop around it — receiving datagrams, rendering glyphs, logging,
//! forwarding signals to a window — lives outside the library; every
//! decision lives here.

use vstd::prelude::*;

verus! {

use crate::bitmap::Bitmap;
use crate::command_executor::{
    glyph_views, glyphs_ok_for, spec_execute, CommandExecutionContext, ExecutionResult,
};
use crate::commands::TypedCommand;
use crate::decode::DecodeError;

/// Whether the session still accepts commands. `Terminated` is
/// absorbing: once reached, nothing executes any more.
#[derive(Debug, Clone, Copy, PartialEq, Eq, Structural)]
pub enum SessionState {
    Running,
    Terminated,
}

/// The two signals the session sends its observer: a command was
/// applied (the display changed and a redraw is due), or the session is
/// ending.
#[derive(Debug, Clone, Copy, PartialEq, Eq, Structural)]
pub enum ObserverEvent {
    CommandApplied,
    SessionEnding,
}

/// A running session: the lifecycle state plus the framebuffer the
/// commands execute against.
pub struct Session {
    pub state: SessionState,
    pub context: CommandExecutionContext,
}

impl Session {
    pub open spec fn wf(&self) -> bool {
        self.context.wf()
    }

    pub fn new(context: CommandExecutionContext) -> (r: Session)
        requires
            context.wf(),
        ensures
            r.wf(),
            r.state == SessionState::Running,
            r.context == context,
    {
        Session { state: SessionState::Running, context }
    }

    /// Reacts to one decoded datagram, in strict receipt order.
    ///
    /// A terminated session executes nothing and changes nothing. A
    /// datagram that failed to decode is discarded and the session
    /// continues; the caller may log it. A decoded command executes
    /// exactly as [`spec_execute`] says: on `Success` the observer is
    /// told a command was applied, on `Failure` the session simply
    /// continues (partial writes stay, as the command contracts state),
    /// and on `Shutdown` the session terminates and the observer is
    /// told it is ending.
    pub fn apply(
        &mut self,
        decoded: &Result<TypedCommand, DecodeError>,
        glyphs: &Vec<Option<Bitmap>>,
    ) -> (r: Option<ObserverEvent>)
        requires
            old(self).wf(),
            *decoded matches Ok(cmd) ==> cmd.wf() && glyphs_ok_for(cmd, glyphs@),
        ensures
            final(self).wf(),
            final(self).context.cp437_font == old(self).context.cp437_font,
            old(self).state == SessionState::Terminated ==> *final(self) == *old(self) && r
                is None,
            old(self).state == SessionState::Running && *decoded is Err ==> *final(self) == *old(
                self,
            ) && r is None,
            old(self).state == SessionState::Running ==> (*decoded matches Ok(cmd) ==> {
                let out = spec_execute(
                    cmd,
                    old(self).context.display@,
                    old(self).context.luma@,
                    old(self).context.cp437_font.tile_views(),
                    glyph_views(glyphs@),
                );
                &&& final(self).context.display@ == out.0
                &&& final(self).context.luma@ == out.1
                &&& out.2 == ExecutionResult::Success ==> final(self).state
                    == SessionState::Running && r == Some(ObserverEvent::CommandApplied)
                &&& out.2 == ExecutionResult::Failure ==> final(self).state
                    == SessionState::Running && r is None
                &&& out.2 == ExecutionResult::Shutdown ==> final(self).state
                    == SessionState::Terminated && r == Some(ObserverEvent::SessionEnding)
            }),
    {
        match self.state {
            SessionState::Terminated => {
                return None;
            },
            SessionState::Running => {},
        }
        match decoded {
            Err(_) => None,
            Ok(cmd) => {
                match cmd.execute(&mut self.context, glyphs) {
                    ExecutionResult::Success => Some(ObserverEvent::CommandApplied),
                    ExecutionResult::Failure => None,
                    ExecutionResult::Shutdown => {
                        self.state = SessionState::Terminated;
                        Some(ObserverEvent::SessionEnding)
                    },
                }
            },
        }
    }
}

} // verus!
