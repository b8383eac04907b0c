use crate::date::Date;
use crate::db::Write;
use vstd::prelude::*;

verus! {

/// Where the conversation of one chat stands.
#[derive(Clone, Copy, Debug, PartialEq, Eq, Structural)]
pub enum State {
    /// No question is pending.
    Start,
    /// Waiting for the birthdate of a new record.
    ReceiveBirthday,
    /// Waiting for the reminder time of a new record born on `birthday`.
    ReceiveSendTime { birthday: Date },
    /// Waiting for a new reminder time.
    UpdateRemindTime,
    /// Waiting for a new birthdate.
    UpdateBirthdate,
}

impl State {
    pub open spec fn wf(self) -> bool {
        match self {
            State::ReceiveSendTime { birthday } => birthday.wf(),
            _ => true,
        }
    }
}

impl Default for State {
    fn default() -> (r: State)
        ensures
            r == State::Start,
    {
        State::Start
    }
}

/// The commands that the bot understands.
#[derive(Clone, Copy, Debug, PartialEq, Eq, Structural)]
pub enum Command {
    Start,
    ChangeRemindTime,
    ChangeBirthdate,
    DeactivateBot,
}

/// A message that arrives in a chat.
#[derive(Clone, Debug)]
pub enum Incoming {
    Command(Command),
    Text(String),
    /// A message without text (a sticker, a photo).
    Other,
}

/// The text of a message, read as the kind of value that the conversation waits for.
#[derive(Clone, Copy, Debug, PartialEq, Eq)]
pub enum Parsed<T> {
    NotText,
    Invalid,
    Valid(T),
}

/// The keyboard that goes with the replies.
#[derive(Clone, Copy, Debug, PartialEq, Eq, Structural)]
pub enum Keyboard {
    /// Leave the chat's keyboard as it is.
    Keep,
    /// Offer one button per hour of the day, "00:00" to "23:00".
    Hours,
    /// Take the keyboard away.
    Remove,
}

/// What one incoming message leads to. Where `write` is set, it is stored first; when
/// storing fails, the state stays and the one reply is `NOT_SAVED`.
pub struct Action {
    pub write: Option<Write>,
    /// The next state; `None` keeps the current one.
    pub next: Option<State>,
    pub messages: Vec<String>,
    pub keyboard: Keyboard,
}

pub struct ActionView {
    pub write: Option<Write>,
    pub next: Option<State>,
    pub messages: Seq<Seq<char>>,
    pub keyboard: Keyboard,
}

impl View for Action {
    type V = ActionView;

    open spec fn view(&self) -> ActionView {
        ActionView {
            write: self.write,
            next: self.next,
            messages: self.messages@.map_values(|m: String| m@),
            keyboard: self.keyboard,
        }
    }
}

} // verus!
