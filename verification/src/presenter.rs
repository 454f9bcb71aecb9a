//! The rules of the presentation side that need no window: which entry of
//! the tray menu asks for what, when a number typed into a dialog counts,
//! which message a finished dialog sends, and which reminder is to be
//! acknowledged once it is dismissed.

use crate::message::Message;
use crate::scheduler::Event;
use crate::time::{Span, NANOS_PER_MINUTE};
use vstd::prelude::*;
use vstd::string::*;

verus! {

/// What an entry of the tray menu asks for.
#[derive(Clone, Copy, Debug, PartialEq, Eq, Structural)]
pub enum MenuCommand {
    /// Ask the user for how long to pause, then pause.
    PauseReminders,
    /// Ask the user for a new interval, then set it.
    SetInterval,
    /// Have the notifier log its state.
    PrintDebug,
    /// Leave the program.
    Quit,
}

/// The id of the menu entry of each command.
pub open spec fn menu_id_text(command: MenuCommand) -> Seq<char> {
    match command {
        MenuCommand::PauseReminders => "pause"@,
        MenuCommand::SetInterval => "interval"@,
        MenuCommand::PrintDebug => "debug_log"@,
        MenuCommand::Quit => "quit"@,
    }
}

/// The command that a menu entry's id names; `None` for an id that is no
/// entry's.
pub open spec fn menu_command_of(id: Seq<char>) -> Option<MenuCommand> {
    if id == "pause"@ {
        Some(MenuCommand::PauseReminders)
    } else if id == "interval"@ {
        Some(MenuCommand::SetInterval)
    } else if id == "debug_log"@ {
        Some(MenuCommand::PrintDebug)
    } else if id == "quit"@ {
        Some(MenuCommand::Quit)
    } else {
        None
    }
}

/// Each command is named by the id of its own entry.
pub proof fn law_menu_id_names_its_command(command: MenuCommand)
    ensures
        menu_command_of(menu_id_text(command)) == Some(command),
{
    reveal_strlit("pause");
    reveal_strlit("interval");
    reveal_strlit("debug_log");
    reveal_strlit("quit");
    assert("pause"@.len() == 5 && "interval"@.len() == 8 && "debug_log"@.len() == 9 && "quit"@.len()
        == 4);
}

/// Whether a command needs a number of minutes from the user before it can
/// be carried out.
pub open spec fn asks_for_minutes(command: MenuCommand) -> bool {
    command is PauseReminders || command is SetInterval
}

/// The event that a command sends to the scheduler, given the span that the
/// user entered where one was asked for. A command whose dialog was
/// cancelled sends nothing, and quitting sends nothing.
pub open spec fn event_for(command: MenuCommand, answer: Option<nat>) -> Option<Event> {
    match (command, answer) {
        (MenuCommand::PauseReminders, Some(span)) => Some(Event::PauseReminders(span)),
        (MenuCommand::SetInterval, Some(span)) => Some(Event::SetInterval(span)),
        (MenuCommand::PrintDebug, _) => Some(Event::PrintDebug),
        _ => None,
    }
}

/// How a dialog that asks for a number of minutes ended.
#[derive(Clone, Copy, Debug, PartialEq, Eq, Structural)]
pub enum DialogOutcome {
    /// The dialog could not be shown.
    Failed,
    /// The user confirmed this many minutes.
    Confirmed(u32),
    /// The user closed or cancelled the dialog.
    Dismissed,
}

/// The span that a dialog's outcome asks for: the confirmed minutes, and
/// nothing where it failed or was dismissed.
pub open spec fn span_of_outcome(outcome: DialogOutcome) -> Option<nat> {
    match outcome {
        DialogOutcome::Confirmed(minutes) => Some(minutes as nat * NANOS_PER_MINUTE as nat),
        _ => None,
    }
}

/// Whether two texts are the same.
fn same_text(a: &str, b: &str) -> (same: bool)
    ensures
        same == (a@ == b@),
{
    let x = a.as_bytes();
    let y = b.as_bytes();
    proof {
        vstd::utf8::encode_utf8_decode_utf8(a@);
        vstd::utf8::encode_utf8_decode_utf8(b@);
    }
    if x.len() != y.len() {
        return false;
    }
    let mut i: usize = 0;
    while i < x.len()
        invariant
            i <= x.len(),
            x.len() == y.len(),
            x@ == vstd::utf8::encode_utf8(a@),
            y@ == vstd::utf8::encode_utf8(b@),
            forall|k: int| 0 <= k < i ==> x@[k] == y@[k],
        decreases x.len() - i,
    {
        if x[i] != y[i] {
            return false;
        }
        i += 1;
    }
    assert(x@ =~= y@);
    true
}

impl MenuCommand {
    /// The id of this command's menu entry.
    pub fn id(&self) -> (id: &'static str)
        ensures
            id@ == menu_id_text(*self),
    {
        match self {
            MenuCommand::PauseReminders => "pause",
            MenuCommand::SetInterval => "interval",
            MenuCommand::PrintDebug => "debug_log",
            MenuCommand::Quit => "quit",
        }
    }

    /// The command that the menu entry with this id asks for, if any.
    pub fn from_id(id: &str) -> (command: Option<MenuCommand>)
        ensures
            command == menu_command_of(id@),
    {
        if same_text(id, "pause") {
            Some(MenuCommand::PauseReminders)
        } else if same_text(id, "interval") {
            Some(MenuCommand::SetInterval)
        } else if same_text(id, "debug_log") {
            Some(MenuCommand::PrintDebug)
        } else if same_text(id, "quit") {
            Some(MenuCommand::Quit)
        } else {
            None
        }
    }

    /// Whether the user is asked for a number of minutes first.
    pub fn needs_minutes(&self) -> (needed: bool)
        ensures
            needed == asks_for_minutes(*self),
    {
        match self {
            MenuCommand::PauseReminders => true,
            MenuCommand::SetInterval => true,
            _ => false,
        }
    }

    /// The message to send to the notifier for this command. `answer` is
    /// what the user entered where the command asks for minutes, and `None`
    /// where the dialog did not end with a confirmed number.
    pub fn message(&self, answer: Option<Span>) -> (message: Option<Message>)
        ensures
            match message {
                Some(message) => event_for(
                    *self,
                    match answer {
                        Some(span) => Some(span@),
                        None => None,
                    },
                ) == Some(message@),
                None => event_for(
                    *self,
                    match answer {
                        Some(span) => Some(span@),
                        None => None,
                    },
                ) is None,
            },
    {
        match self {
            MenuCommand::PauseReminders => match answer {
                Some(span) => Some(Message::PauseReminders(span)),
                None => None,
            },
            MenuCommand::SetInterval => match answer {
                Some(span) => Some(Message::SetInterval(span)),
                None => None,
            },
            MenuCommand::PrintDebug => Some(Message::PrintDebug),
            MenuCommand::Quit => None,
        }
    }
}

/// Whether the number in a dialog's input counts when the user confirms:
/// it has to be a number, and not zero. Returns the minutes to hand on, and
/// `None` where the confirmation is to be ignored.
pub fn entered_minutes(is_number: bool, value: u32) -> (minutes: Option<u32>)
    ensures
        minutes == (if is_number && value != 0 {
            Some(value)
        } else {
            None
        }),
{
    if !is_number || value == 0 {
        None
    } else {
        Some(value)
    }
}

impl DialogOutcome {
    /// The span that the user asked for, if the dialog was confirmed.
    pub fn span(&self) -> (span: Option<Span>)
        ensures
            match span {
                Some(span) => span_of_outcome(*self) == Some(span@),
                None => span_of_outcome(*self) is None,
            },
    {
        match self {
            DialogOutcome::Confirmed(minutes) => Some(Span::from_minutes(*minutes as u64)),
            _ => None,
        }
    }
}

/// The reminder that is on screen, if any: the one to acknowledge when the
/// user dismisses it.
#[derive(Clone, Copy, Debug, PartialEq, Eq)]
pub struct ShownBreak {
    id: Option<u128>,
}

impl View for ShownBreak {
    type V = Option<u128>;

    closed spec fn view(&self) -> Option<u128> {
        self.id
    }
}

impl ShownBreak {
    /// No reminder is on screen.
    pub fn none() -> (shown: ShownBreak)
        ensures
            shown@ is None,
    {
        ShownBreak { id: None }
    }

    /// The id of the reminder on screen, if any.
    pub fn id(&self) -> (id: Option<u128>)
        ensures
            id == self@,
    {
        self.id
    }

    /// The reminder with this id is put on screen.
    pub fn show(&mut self, id: u128)
        ensures
            final(self)@ == Some(id),
    {
        self.id = Some(id);
    }

    /// The reminder on screen was dismissed: returns the acknowledgement to
    /// send to the notifier, and nothing where no reminder was on screen.
    /// Afterwards none is on screen, so nothing is acknowledged twice.
    pub fn finish(&mut self) -> (message: Option<Message>)
        ensures
            final(self)@ is None,
            message == (match old(self)@ {
                Some(id) => Some(Message::EndBreak(id)),
                None => None,
            }),
    {
        let shown = self.id;
        self.id = None;
        match shown {
            Some(id) => Some(Message::EndBreak(id)),
            None => None,
        }
    }
}

} // verus!
