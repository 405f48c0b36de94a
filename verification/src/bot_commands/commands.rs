use vstd::prelude::*;
use crate::bot_commands::states::{AddStickerState, MyStickersState, State, StealStickerSetState};

verus! {

/// What the bot can be told to do.
#[derive(Debug, Clone, Copy, PartialEq, Eq, Structural)]
pub enum Command {
    Start,
    Help,
    Source,
    Src,
    Cancel,
    StealPack,
    AddStickers,
    Done,
    MyStickers,
}

/// What came in from a private chat.
#[derive(Debug, Clone, Copy, PartialEq, Eq, Structural)]
pub enum Update {
    /// A text message; `command` is the command it gives, if it gives one
    /// that the bot knows.
    Text { command: Option<Command> },
    /// A message that holds a sticker.
    Sticker,
    /// A message that holds neither text nor a sticker.
    Other,
    /// A press of a button below a message of the bot.
    CallbackQuery,
}

/// The parts of the bot that deal with updates.
#[derive(Debug, Clone, Copy, PartialEq, Eq, Structural)]
pub enum Handler {
    Start,
    Source,
    Cancel,
    AddStickers,
    GetStolenStickerSet,
    GetStickersToAdd,
    AddStickersToUserOwnedStickerSet,
    StealStickerSet,
    GetStickerSetName,
    CreateNewStickerSet,
    MyStickers,
    ProcessButton,
    ProcessNonSticker,
}

/// Whether a conversation at `state` waits for a sticker.
pub open spec fn awaits_sticker(state: State) -> bool {
    state == State::Steal(StealStickerSetState::StealStickerSetName) || state == State::Add(
        AddStickerState::GetStolenStickerSet,
    ) || state == State::Add(AddStickerState::GetStickersToAdd)
}

/// The handler of a text message that gives `command`, in a conversation
/// at `state`.
///
/// Outside any command everything is answered with the greeting, but for
/// what another handler is there for. The commands that begin or end
/// something work at every step. The command that ends the collecting of
/// stickers counts only there; anywhere else it is a text like any other.
pub open spec fn text_handler(state: State, command: Option<Command>) -> Option<Handler> {
    match command {
        Some(Command::Source) | Some(Command::Src) => Some(Handler::Source),
        Some(Command::Cancel) => Some(Handler::Cancel),
        Some(Command::AddStickers) => Some(Handler::AddStickers),
        Some(Command::StealPack) => Some(Handler::StealStickerSet),
        Some(Command::MyStickers) => Some(Handler::MyStickers),
        Some(Command::Help) => Some(Handler::Start),
        Some(Command::Start) => Some(Handler::Start),
        _ => if state == State::Idle {
            Some(Handler::Start)
        } else if command == Some(Command::Done) && state == State::Add(
            AddStickerState::GetStickersToAdd,
        ) {
            Some(Handler::AddStickersToUserOwnedStickerSet)
        } else if state == State::Steal(StealStickerSetState::CreateNewStickerSet) {
            Some(Handler::CreateNewStickerSet)
        } else if awaits_sticker(state) {
            Some(Handler::ProcessNonSticker)
        } else {
            None
        },
    }
}

/// The handler of `update` in a conversation at `state`, if any deals with
/// it.
pub open spec fn handler_for(state: State, update: Update) -> Option<Handler> {
    match update {
        Update::Text { command } => text_handler(state, command),
        Update::Sticker => match state {
            State::Idle => Some(Handler::Start),
            State::Add(AddStickerState::GetStolenStickerSet) => Some(Handler::GetStolenStickerSet),
            State::Add(AddStickerState::GetStickersToAdd) => Some(Handler::GetStickersToAdd),
            State::Steal(StealStickerSetState::StealStickerSetName) => Some(
                Handler::GetStickerSetName,
            ),
            _ => None,
        },
        Update::Other => if state == State::Idle {
            Some(Handler::Start)
        } else if awaits_sticker(state) {
            Some(Handler::ProcessNonSticker)
        } else {
            None
        },
        Update::CallbackQuery => if state == State::List(
            MyStickersState::EditStickerSetsListMessage,
        ) {
            Some(Handler::ProcessButton)
        } else {
            None
        },
    }
}

/// What a command is called.
pub open spec fn name_of(command: Command) -> Seq<char> {
    match command {
        Command::Start => "start"@,
        Command::Help => "help"@,
        Command::Source => "source"@,
        Command::Src => "src"@,
        Command::Cancel => "cancel"@,
        Command::StealPack => "stealpack"@,
        Command::AddStickers => "addstickers"@,
        Command::Done => "done"@,
        Command::MyStickers => "mystickers"@,
    }
}

/// What the list of commands says of a command, for the commands that are
/// on the list.
pub open spec fn description_of(command: Command) -> Option<Seq<char>> {
    match command {
        Command::Help => Some("Show help message"@),
        Command::Source => Some("Show the source of the bot"@),
        Command::Src => Some("Show the source of the bot"@),
        Command::StealPack => Some("Steal sticker pack"@),
        Command::AddStickers => Some("Add stickers to a sticker pack stolen by this bot"@),
        Command::MyStickers => Some("List of your stolen stickers"@),
        Command::Cancel => Some("Cancel last command"@),
        _ => None,
    }
}

impl Command {
    /// What the command is called.
    pub fn name(&self) -> (name: &'static str)
        ensures
            name@ == name_of(*self),
    {
        match self {
            Command::Start => "start",
            Command::Help => "help",
            Command::Source => "source",
            Command::Src => "src",
            Command::Cancel => "cancel",
            Command::StealPack => "stealpack",
            Command::AddStickers => "addstickers",
            Command::Done => "done",
            Command::MyStickers => "mystickers",
        }
    }

    /// What the list of commands says of the command; `None` for a command
    /// that is not put on the list.
    pub fn description(&self) -> (description: Option<&'static str>)
        ensures
            description is Some == description_of(*self) is Some,
            description is Some ==> description->0@ == description_of(*self)->0,
    {
        match self {
            Command::Help => Some("Show help message"),
            Command::Source => Some("Show the source of the bot"),
            Command::Src => Some("Show the source of the bot"),
            Command::StealPack => Some("Steal sticker pack"),
            Command::AddStickers => Some("Add stickers to a sticker pack stolen by this bot"),
            Command::MyStickers => Some("List of your stolen stickers"),
            Command::Cancel => Some("Cancel last command"),
            _ => None,
        }
    }

    /// The commands that are put on the list of the bot's commands, in the
    /// order of the list.
    pub fn listed() -> (commands: [Command; 7])
        ensures
            commands@ == seq![
                Command::Help,
                Command::Source,
                Command::Src,
                Command::StealPack,
                Command::AddStickers,
                Command::Cancel,
                Command::MyStickers,
            ],
            forall|i: int| 0 <= i < 7 ==> description_of(#[trigger] commands@[i]) is Some,
    {
        let commands: [Command; 7] = [
            Command::Help,
            Command::Source,
            Command::Src,
            Command::StealPack,
            Command::AddStickers,
            Command::Cancel,
            Command::MyStickers,
        ];
        assert(commands@ =~= seq![
            Command::Help,
            Command::Source,
            Command::Src,
            Command::StealPack,
            Command::AddStickers,
            Command::Cancel,
            Command::MyStickers,
        ]);
        commands
    }

    /// The command called `name`, if the bot knows one of that name.
    pub fn from_name(name: &str) -> (command: Option<Command>)
        ensures
            command == if name@ == "start"@ {
                Some(Command::Start)
            } else if name@ == "help"@ {
                Some(Command::Help)
            } else if name@ == "source"@ {
                Some(Command::Source)
            } else if name@ == "src"@ {
                Some(Command::Src)
            } else if name@ == "cancel"@ {
                Some(Command::Cancel)
            } else if name@ == "stealpack"@ {
                Some(Command::StealPack)
            } else if name@ == "addstickers"@ {
                Some(Command::AddStickers)
            } else if name@ == "done"@ {
                Some(Command::Done)
            } else if name@ == "mystickers"@ {
                Some(Command::MyStickers)
            } else {
                None
            },
    {
        let name: String = String::from_str(name);
        if name == String::from_str("start") {
            Some(Command::Start)
        } else if name == String::from_str("help") {
            Some(Command::Help)
        } else if name == String::from_str("source") {
            Some(Command::Source)
        } else if name == String::from_str("src") {
            Some(Command::Src)
        } else if name == String::from_str("cancel") {
            Some(Command::Cancel)
        } else if name == String::from_str("stealpack") {
            Some(Command::StealPack)
        } else if name == String::from_str("addstickers") {
            Some(Command::AddStickers)
        } else if name == String::from_str("done") {
            Some(Command::Done)
        } else if name == String::from_str("mystickers") {
            Some(Command::MyStickers)
        } else {
            None
        }
    }
}

/// Whether a conversation at `state` waits for a sticker.
fn is_awaiting_sticker(state: State) -> (awaits: bool)
    ensures
        awaits == awaits_sticker(state),
{
    match state {
        State::Steal(StealStickerSetState::StealStickerSetName) => true,
        State::Add(AddStickerState::GetStolenStickerSet) => true,
        State::Add(AddStickerState::GetStickersToAdd) => true,
        _ => false,
    }
}

/// Choose the handler of `update` in a conversation at `state`.
pub fn dispatch(state: State, update: Update) -> (handler: Option<Handler>)
    ensures
        handler == handler_for(state, update),
{
    match update {
        Update::Text { command } => match command {
            Some(Command::Source) | Some(Command::Src) => Some(Handler::Source),
            Some(Command::Cancel) => Some(Handler::Cancel),
            Some(Command::AddStickers) => Some(Handler::AddStickers),
            Some(Command::StealPack) => Some(Handler::StealStickerSet),
            Some(Command::MyStickers) => Some(Handler::MyStickers),
            Some(Command::Help) => Some(Handler::Start),
            Some(Command::Start) => Some(Handler::Start),
            _ => {
                let done: bool = match command {
                    Some(Command::Done) => true,
                    _ => false,
                };
                match state {
                    State::Idle => Some(Handler::Start),
                    State::Add(AddStickerState::GetStickersToAdd) => if done {
                        Some(Handler::AddStickersToUserOwnedStickerSet)
                    } else {
                        Some(Handler::ProcessNonSticker)
                    },
                    State::Steal(StealStickerSetState::CreateNewStickerSet) => Some(
                        Handler::CreateNewStickerSet,
                    ),
                    _ => if is_awaiting_sticker(state) {
                        Some(Handler::ProcessNonSticker)
                    } else {
                        None
                    },
                }
            },
        },
        Update::Sticker => match state {
            State::Idle => Some(Handler::Start),
            State::Add(AddStickerState::GetStolenStickerSet) => Some(Handler::GetStolenStickerSet),
            State::Add(AddStickerState::GetStickersToAdd) => Some(Handler::GetStickersToAdd),
            State::Steal(StealStickerSetState::StealStickerSetName) => Some(
                Handler::GetStickerSetName,
            ),
            _ => None,
        },
        Update::Other => match state {
            State::Idle => Some(Handler::Start),
            _ => if is_awaiting_sticker(state) {
                Some(Handler::ProcessNonSticker)
            } else {
                None
            },
        },
        Update::CallbackQuery => match state {
            State::List(MyStickersState::EditStickerSetsListMessage) => Some(
                Handler::ProcessButton,
            ),
            _ => None,
        },
    }
}

} // verus!
