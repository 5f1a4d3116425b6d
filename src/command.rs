use vstd::prelude::*;

use crate::app::App;
use crate::clock::clock_now;
use crate::model::AppModel;
use crate::session::SessionType;

verus! {

/// What a keystroke asks of the tracker.
#[derive(Clone, Copy, Debug, PartialEq, Eq, Structural)]
pub enum AppCommand {
    EnterRestMode,
    EnterFocusMode,
    Pause,
    Quit,
}

pub open spec fn quit_word() -> Seq<char> {
    seq!['q', 'u', 'i', 't']
}

/// The last four characters of `s` (all of it when shorter).
pub open spec fn last_four(s: Seq<char>) -> Seq<char> {
    if s.len() > 4 {
        s.subrange(s.len() - 4, s.len() as int)
    } else {
        s
    }
}

/// The command for key `c`, given the recent characters `typed` (ending with
/// `c`): the word `quit` ends the program; `f`, `r` and `p` pick focus, rest
/// and pause; any other key asks nothing.
pub open spec fn command_for(typed: Seq<char>, c: char) -> Option<AppCommand> {
    if typed == quit_word() {
        Some(AppCommand::Quit)
    } else if c == 'f' {
        Some(AppCommand::EnterFocusMode)
    } else if c == 'r' {
        Some(AppCommand::EnterRestMode)
    } else if c == 'p' {
        Some(AppCommand::Pause)
    } else {
        None
    }
}

/// The state the tracker is left in by `command` at `now`.
pub open spec fn apply_spec(m: AppModel, command: AppCommand, now: u64) -> AppModel {
    match command {
        AppCommand::EnterRestMode => m.change_session_type_spec(SessionType::Rest, now),
        AppCommand::EnterFocusMode => m.change_session_type_spec(SessionType::Focus, now),
        AppCommand::Pause => m.toggle_pause_spec(now),
        AppCommand::Quit => m,
    }
}

/// Turns typed characters into commands, remembering the last four so that
/// the word `quit` can be recognised.
pub struct AppCommandCreator {
    previously_typed_chars: Vec<char>,
}

impl View for AppCommandCreator {
    type V = Seq<char>;

    closed spec fn view(&self) -> Seq<char> {
        self.previously_typed_chars@
    }
}

impl AppCommandCreator {
    pub open spec fn wf(&self) -> bool {
        self@.len() <= 4
    }

    pub fn new() -> (r: AppCommandCreator)
        ensures
            r@ == Seq::<char>::empty(),
            r.wf(),
    {
        AppCommandCreator { previously_typed_chars: Vec::new() }
    }

    /// Records the typed character `c` and returns the command it completes.
    pub fn get_app_command_from_char(&mut self, c: char) -> (r: Option<AppCommand>)
        requires
            old(self).wf(),
        ensures
            final(self)@ == last_four(old(self)@.push(c)),
            final(self).wf(),
            r == command_for(final(self)@, c),
    {
        self.previously_typed_chars.push(c);
        if self.previously_typed_chars.len() > 4 {
            self.previously_typed_chars.remove(0);
        }
        proof {
            let p = old(self)@.push(c);
            if p.len() > 4 {
                assert(self@ =~= p.subrange(p.len() - 4, p.len() as int));
            }
        }
        let typed = &self.previously_typed_chars;
        let is_quit = typed.len() == 4 && typed[0] == 'q' && typed[1] == 'u' && typed[2] == 'i'
            && typed[3] == 't';
        proof {
            if is_quit {
                assert(self@ =~= quit_word());
            }
        }
        if is_quit {
            Some(AppCommand::Quit)
        } else if c == 'f' {
            Some(AppCommand::EnterFocusMode)
        } else if c == 'r' {
            Some(AppCommand::EnterRestMode)
        } else if c == 'p' {
            Some(AppCommand::Pause)
        } else {
            None
        }
    }
}

impl App {
    /// Carries out `command` at `now`; returns whether the program keeps
    /// running, which is false for `Quit` alone.
    pub fn handle_command_at(&mut self, command: AppCommand, now: u64) -> (keep_running: bool)
        requires
            old(self).wf(),
        ensures
            final(self)@ == apply_spec(old(self)@, command, now),
            final(self).wf(),
            keep_running == (command != AppCommand::Quit),
    {
        match command {
            AppCommand::EnterRestMode => self.change_session_type_at(SessionType::Rest, now),
            AppCommand::EnterFocusMode => self.change_session_type_at(SessionType::Focus, now),
            AppCommand::Pause => self.toggle_pause_at(now),
            AppCommand::Quit => {
                return false;
            },
        }
        true
    }

    /// Carries out `command` at the current time; returns whether the program
    /// keeps running, which is false for `Quit` alone.
    pub fn handle_command(&mut self, command: AppCommand) -> (keep_running: bool)
        requires
            old(self).wf(),
        ensures
            exists|now: u64| final(self)@ == #[trigger] apply_spec(old(self)@, command, now),
            final(self).wf(),
            keep_running == (command != AppCommand::Quit),
    {
        let now = clock_now();
        self.handle_command_at(command, now)
    }
}

impl Default for AppCommandCreator {
    fn default() -> (r: AppCommandCreator)
        ensures
            r@ == Seq::<char>::empty(),
    {
        AppCommandCreator::new()
    }
}

} // verus!
