use vstd::prelude::*;
use crate::domain::entities::sticker::Sticker;

verus! {

/// Steps of the command that copies a pack.
#[derive(Debug, Clone, Copy, PartialEq, Eq, Structural)]
pub enum StealStickerSetState {
    /// Waiting for a sticker of the pack to copy.
    StealStickerSetName,
    /// Waiting for the title of the new pack.
    CreateNewStickerSet,
}

impl StealStickerSetState {
    pub fn as_str(&self) -> (name: &'static str)
        ensures
            name@ == match *self {
                StealStickerSetState::StealStickerSetName => "steal_sticker_set_name"@,
                StealStickerSetState::CreateNewStickerSet => "create_new_sticker_set"@,
            },
    {
        match self {
            StealStickerSetState::StealStickerSetName => "steal_sticker_set_name",
            StealStickerSetState::CreateNewStickerSet => "create_new_sticker_set",
        }
    }
}

/// Steps of the command that adds stickers to a pack of the user.
#[derive(Debug, Clone, Copy, PartialEq, Eq, Structural)]
pub enum AddStickerState {
    /// Waiting for a sticker of the pack to add to.
    GetStolenStickerSet,
    /// Collecting the stickers to add.
    GetStickersToAdd,
}

impl AddStickerState {
    pub fn as_str(&self) -> (name: &'static str)
        ensures
            name@ == match *self {
                AddStickerState::GetStolenStickerSet => "get_stolen_sticker_set"@,
                AddStickerState::GetStickersToAdd => "get_stickers_to_add"@,
            },
    {
        match self {
            AddStickerState::GetStolenStickerSet => "get_stolen_sticker_set",
            AddStickerState::GetStickersToAdd => "get_stickers_to_add",
        }
    }
}

/// The step of the command that lists the user's packs, and the names under
/// which that command keeps its values.
#[derive(Debug, Clone, Copy, PartialEq, Eq, Structural)]
pub enum MyStickersState {
    /// The list is shown and its page buttons are live.
    EditStickerSetsListMessage,
    StickerSetsListInlineKeyboardMarkup,
    PreviousCallbackQuery,
    PagesNumber,
}

impl MyStickersState {
    pub fn as_str(&self) -> (name: &'static str)
        ensures
            name@ == match *self {
                MyStickersState::EditStickerSetsListMessage => "edit_sticker_sets_list_message"@,
                MyStickersState::StickerSetsListInlineKeyboardMarkup =>
                    "sticker_sets_list_inline_keyboard_markup"@,
                MyStickersState::PreviousCallbackQuery => "previous_callback_query"@,
                MyStickersState::PagesNumber => "pages_number"@,
            },
    {
        match self {
            MyStickersState::EditStickerSetsListMessage => "edit_sticker_sets_list_message",
            MyStickersState::StickerSetsListInlineKeyboardMarkup => {
                "sticker_sets_list_inline_keyboard_markup"
            },
            MyStickersState::PreviousCallbackQuery => "previous_callback_query",
            MyStickersState::PagesNumber => "pages_number",
        }
    }
}

/// Where a conversation stands: in no command, or at a step of one.
#[derive(Debug, Clone, Copy, PartialEq, Eq, Structural)]
pub enum State {
    Idle,
    Steal(StealStickerSetState),
    Add(AddStickerState),
    List(MyStickersState),
}

/// Whose conversation it is: one user in one chat. Each subject has a
/// conversation of its own, which is changed by one command at a time.
#[derive(Debug, Clone, Copy, PartialEq, Eq, Hash, Structural)]
pub struct Subject {
    pub chat_id: i64,
    pub user_id: i64,
}

/// A message that the bot has sent, by which it can be edited or deleted.
#[derive(Debug, Clone, Copy, PartialEq, Eq, Structural)]
pub struct MessageRef {
    pub chat_id: i64,
    pub message_id: i64,
}

/// The pack that the user chose to add stickers to.
#[derive(Debug, Clone, PartialEq, Eq)]
pub struct StolenSet {
    pub name: String,
    pub title: String,
}

/// What the command that copies a pack remembers between messages.
#[derive(Debug, Clone, PartialEq, Eq)]
pub struct StealContext {
    /// Name of the pack to copy, once the user has shown it.
    pub steal_sticker_set_name: Option<String>,
}

/// What the command that adds stickers remembers between messages.
#[derive(Debug, Clone, PartialEq, Eq)]
pub struct AddContext {
    /// The pack to add to, once the user has shown it and owns it.
    pub stolen_sticker_set: Option<StolenSet>,
    /// The stickers collected so far, in the order in which they came.
    pub stickers_to_add: Vec<Sticker>,
}

/// What the list of packs remembers between presses of its buttons.
#[derive(Debug, Clone, PartialEq, Eq)]
pub struct ListContext {
    /// The message that holds the list.
    pub message: Option<MessageRef>,
    /// Number of pages of the list.
    pub pages_number: Option<u32>,
    /// What the button pressed last carried.
    pub previous_callback_query: Option<String>,
}

/// The values of the command that a conversation is in.
#[derive(Debug, Clone, PartialEq, Eq)]
pub enum Context {
    Empty,
    Steal(StealContext),
    Add(AddContext),
    List(ListContext),
}

/// One user's conversation with the bot in one chat.
#[derive(Debug, Clone, PartialEq, Eq)]
pub struct Conversation {
    pub state: State,
    pub context: Context,
}

/// A conversation in which no command is under way and nothing is remembered.
pub open spec fn idle() -> Conversation {
    Conversation { state: State::Idle, context: Context::Empty }
}

impl Conversation {
    /// A conversation that has not begun.
    pub fn new() -> (conversation: Self)
        ensures
            conversation == idle(),
    {
        Conversation { state: State::Idle, context: Context::Empty }
    }

    /// End whatever command is under way and forget its values.
    pub fn finish(&mut self)
        ensures
            *final(self) == idle(),
    {
        self.state = State::Idle;
        self.context = Context::Empty;
    }
}

} // verus!
