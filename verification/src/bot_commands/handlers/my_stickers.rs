use vstd::prelude::*;
use crate::bot_commands::handlers::common::{
    after_send, finish_after_send, says, Call, Finish, HandlerError, InlineKeyboardButton,
    Outcome, Reply, Step,
};
use crate::bot_commands::states::{
    idle, Context, Conversation, ListContext, MessageRef, MyStickersState, State,
};
use crate::domain::entities::set::StickerSet;
use crate::domain::entities::sticker::same_text;
use crate::stickers::common::{checked_pages_number, page_count_of, pages_number};
use crate::stickers::constants::{PAGE_BUTTONS_PER_ROW, STICKER_SETS_NUMBER_PER_PAGE};
use crate::stickers::numbers::{decimal, decimal_string, decimal_value, parse_decimal};
use crate::stickers::texts::{current_page_message, is_page_in_list, page_in_list, page_text};

verus! {

/// The user has no pack to list.
#[derive(Debug, Clone)]
pub struct GetButtonsError {
    message: String,
}

pub const NO_STOLEN_PACKS: &'static str =
    "You don't have a single stolen sticker pack. Steal any sticker pack using the /stealpack command and it will appear in this list.";

impl GetButtonsError {
    pub closed spec fn spec_message(&self) -> Seq<char> {
        self.message@
    }

    pub fn new(message: String) -> (error: Self)
        ensures
            error.spec_message() == message@,
    {
        Self { message }
    }

    pub fn message(&self) -> (message: &String)
        ensures
            message@ == self.spec_message(),
    {
        &self.message
    }

    /// The error in words.
    pub fn to_text(&self) -> (text: String)
        ensures
            text@ == "Error occurded while getting buttons: "@ + self.spec_message(),
    {
        let mut text: String = String::from_str("Error occurded while getting buttons: ");
        text.append(self.message.as_str());
        text
    }
}

/// What the button of page `page` shows: the first button of a row is
/// written in lower case.
pub open spec fn button_label(page: nat) -> Seq<char> {
    if (page - 1) % (PAGE_BUTTONS_PER_ROW as int) == 0 {
        "page "@ + decimal(page)
    } else {
        "Page "@ + decimal(page)
    }
}

/// Whether `button` is the button of page `page`: it shows the page's
/// label and carries the page's number.
pub open spec fn is_page_button(button: InlineKeyboardButton, page: nat) -> bool {
    button.text@ == button_label(page) && button.callback_data@ == decimal(page)
}

/// How many buttons stand in row `row` of a keyboard of `pages` buttons.
pub open spec fn row_length(pages: nat, row: int) -> int {
    if pages - PAGE_BUTTONS_PER_ROW * row >= PAGE_BUTTONS_PER_ROW {
        PAGE_BUTTONS_PER_ROW as int
    } else {
        pages - PAGE_BUTTONS_PER_ROW * row
    }
}

/// Whether `rows` is the keyboard for `pages` pages: one button for each
/// page, in order, five to a row, the last row holding what is left.
pub open spec fn is_keyboard(rows: Seq<Vec<InlineKeyboardButton>>, pages: nat) -> bool {
    &&& rows.len() == (pages + PAGE_BUTTONS_PER_ROW - 1) / (PAGE_BUTTONS_PER_ROW as int)
    &&& forall|row: int|
        0 <= row < rows.len() ==> (#[trigger] rows[row])@.len() == row_length(pages, row)
    &&& forall|row: int, column: int|
        0 <= row < rows.len() && 0 <= column < rows[row]@.len() ==> is_page_button(
            #[trigger] rows[row]@[column],
            (PAGE_BUTTONS_PER_ROW * row + column + 1) as nat,
        )
}

/// The button of page `page`.
fn page_button(page: u32) -> (button: InlineKeyboardButton)
    requires
        page >= 1,
    ensures
        is_page_button(button, page as nat),
{
    let number: String = decimal_string(page as u64);
    let mut text: String = if (page - 1) % PAGE_BUTTONS_PER_ROW == 0 {
        String::from_str("page ")
    } else {
        String::from_str("Page ")
    };
    text.append(number.as_str());
    InlineKeyboardButton { text, callback_data: number }
}

/// The keyboard with one button for each of `pages` pages.
pub fn page_buttons(pages: u32) -> (rows: Vec<Vec<InlineKeyboardButton>>)
    ensures
        is_keyboard(rows@, pages as nat),
{
    let mut rows: Vec<Vec<InlineKeyboardButton>> = Vec::new();
    let mut done: u32 = 0;
    while done < pages
        invariant
            done <= pages,
            done == PAGE_BUTTONS_PER_ROW * rows@.len() || done == pages,
            done < pages ==> done == PAGE_BUTTONS_PER_ROW * rows@.len(),
            rows@.len() == (done + PAGE_BUTTONS_PER_ROW - 1) / (PAGE_BUTTONS_PER_ROW as int),
            forall|row: int|
                0 <= row < rows@.len() ==> (#[trigger] rows@[row])@.len() == row_length(
                    pages as nat,
                    row,
                ),
            forall|row: int, column: int|
                0 <= row < rows@.len() && 0 <= column < rows@[row]@.len() ==> is_page_button(
                    #[trigger] rows@[row]@[column],
                    (PAGE_BUTTONS_PER_ROW * row + column + 1) as nat,
                ),
        decreases pages - done,
    {
        let mut row: Vec<InlineKeyboardButton> = Vec::new();
        let mut column: u32 = 0;
        while column < PAGE_BUTTONS_PER_ROW && column < pages - done
            invariant
                done < pages,
                column <= PAGE_BUTTONS_PER_ROW,
                column <= pages - done,
                row@.len() == column,
                forall|c: int|
                    0 <= c < column ==> is_page_button(#[trigger] row@[c], (done + c + 1) as nat),
            decreases PAGE_BUTTONS_PER_ROW - column,
        {
            row.push(page_button(done + column + 1));
            column = column + 1;
        }
        let ghost index: int = rows@.len() as int;
        assert(row@.len() == row_length(pages as nat, index));
        rows.push(row);
        done = done + column;
        assert(rows@[index]@ == row@);
    }
    rows
}

/// Count the pages of `list` and make the keyboard with their buttons. A
/// user without packs gets the error that says so.
pub fn get_buttons(list: &[StickerSet], sticker_sets_number_per_page: usize) -> (buttons: Result<
    (u32, Vec<Vec<InlineKeyboardButton>>),
    GetButtonsError,
>)
    requires
        sticker_sets_number_per_page > 0,
        page_count_of(list@.len(), sticker_sets_number_per_page as nat) <= u32::MAX,
    ensures
        buttons is Err == (list@.len() == 0),
        buttons is Err ==> buttons->Err_0.spec_message() == NO_STOLEN_PACKS@,
        buttons is Ok ==> buttons->Ok_0.0 == page_count_of(
            list@.len(),
            sticker_sets_number_per_page as nat,
        ) && is_keyboard(buttons->Ok_0.1@, buttons->Ok_0.0 as nat),
{
    if list.len() == 0 {
        return Err(GetButtonsError::new(String::from_str(NO_STOLEN_PACKS)));
    }
    let page_count: u32 = pages_number(list.len(), sticker_sets_number_per_page);
    Ok((page_count, page_buttons(page_count)))
}

/// Showing the first page of the user's packs: how far it has come.
#[derive(Debug)]
pub enum MyStickers {
    /// Waiting for the database to list the user's packs.
    AwaitSets,
    /// Waiting for the list to be sent.
    AwaitMessage { pages_number: u32 },
    /// Waiting for the last message to be sent.
    Closing,
    Over,
}

/// Begin the command that lists the user's packs: whatever went on before
/// is over, and the bot reads the packs of `user_id` from the database.
pub fn my_stickers_handler(conversation: &mut Conversation, user_id: i64) -> (begun: (
    MyStickers,
    Step,
))
    ensures
        *final(conversation) == idle(),
        begun.0 is AwaitSets,
        begun.1 == Step::Call(Call::GetSets { tg_id: user_id }),
{
    conversation.finish();
    (MyStickers::AwaitSets, Step::Call(Call::GetSets { tg_id: user_id }))
}

/// Whether `reply` shows page `page` of `pages` of the list `list`, with
/// the keyboard of all pages.
pub open spec fn shows_page(reply: Reply, page: int, pages: int, list: Seq<StickerSet>) -> bool {
    &&& reply matches Reply::PacksPage { text, buttons }
    &&& text@ == page_text(page, pages, STICKER_SETS_NUMBER_PER_PAGE as int, list)
    &&& is_keyboard(buttons@, pages as nat)
}

/// Whether a list of `len` packs has no more pages than the bot can count.
pub open spec fn countable(len: nat) -> bool {
    page_count_of(len, STICKER_SETS_NUMBER_PER_PAGE as nat) <= u32::MAX
}

/// A list of `len > 0` packs in pages of `per_page` has its first page
/// within the list.
proof fn lemma_first_page_in_list(len: nat, per_page: nat)
    requires
        per_page > 0,
        len > 0,
    ensures
        page_count_of(len, per_page) >= 1,
        page_count_of(len, per_page) != 1 ==> per_page <= len,
{
    crate::stickers::common::lemma_pages_partition(len, per_page);
    let pages: int = page_count_of(len, per_page) as int;
    if pages != 1 {
        assert(crate::stickers::common::page_begin(1, per_page as int) == 0);
        assert(1 <= 1 <= pages);
        assert(crate::stickers::common::page_end(1, pages, len as int, per_page as int) <= len);
    }
}

impl MyStickers {
    /// Whether `after`, `step` and the conversation `now` are what follows
    /// `self` and the conversation `before` once `outcome` has come in.
    ///
    /// A user without packs is told so. Any other gets the first page of
    /// the list with its page buttons, and once that message is sent the
    /// conversation remembers the message and the number of pages, and no
    /// button pressed before.
    pub open spec fn follows(
        self,
        before: Conversation,
        outcome: Outcome,
        after: Self,
        now: Conversation,
        step: Step,
    ) -> bool {
        match self {
            MyStickers::AwaitSets => now == before && match outcome {
                Outcome::Sets(list) => if list@.len() == 0 {
                    after is Closing && says(step, Reply::NoStolenPacks)
                } else if countable(list@.len()) {
                    &&& after matches MyStickers::AwaitMessage { pages_number }
                    &&& pages_number == page_count_of(
                        list@.len(),
                        STICKER_SETS_NUMBER_PER_PAGE as nat,
                    )
                    &&& step matches Step::Call(Call::SendMessage { reply, quote })
                    &&& !quote
                    &&& shows_page(reply, 1, pages_number as int, list@)
                } else {
                    after is Over && step == Step::Finish(
                        Finish::Failed(HandlerError::ListTooLong),
                    )
                },
                Outcome::Unavailable(error) => after is Over && step == Step::Finish(
                    Finish::Failed(HandlerError::Repository(error)),
                ),
                Outcome::Stored(Err(error)) => after is Over && step == Step::Finish(
                    Finish::Failed(HandlerError::Database(error)),
                ),
                _ => after is Over && step == Step::Finish(
                    Finish::Failed(HandlerError::UnexpectedOutcome),
                ),
            },
            MyStickers::AwaitMessage { pages_number } => match outcome {
                Outcome::Sent(message) => {
                    &&& now.state == State::List(MyStickersState::EditStickerSetsListMessage)
                    &&& now.context == Context::List(
                        ListContext {
                            message: Some(message),
                            pages_number: Some(pages_number),
                            previous_callback_query: None,
                        },
                    )
                    &&& after is Over
                    &&& step == Step::Finish(Finish::Handled)
                },
                _ => now == before && after is Over && step == Step::Finish(
                    finish_after_send(outcome),
                ),
            },
            MyStickers::Closing => now == before && after is Over && step == Step::Finish(
                finish_after_send(outcome),
            ),
            MyStickers::Over => now == before && after is Over && step == Step::Finish(
                Finish::Failed(HandlerError::UnexpectedOutcome),
            ),
        }
    }

    /// Take in what came of the latest call and say what to do next.
    pub fn resume(self, conversation: &mut Conversation, outcome: Outcome) -> (next: (
        MyStickers,
        Step,
    ))
        ensures
            self.follows(*old(conversation), outcome, next.0, *final(conversation), next.1),
    {
        match self {
            MyStickers::AwaitSets => match outcome {
                Outcome::Sets(list) => {
                    if list.len() == 0 {
                        return (
                            MyStickers::Closing,
                            Step::Call(
                                Call::SendMessage { reply: Reply::NoStolenPacks, quote: false },
                            ),
                        );
                    }
                    let pages: u32 = match checked_pages_number(
                        list.len(),
                        STICKER_SETS_NUMBER_PER_PAGE,
                    ) {
                        Some(pages) => pages,
                        None => {
                            return (
                                MyStickers::Over,
                                Step::Finish(Finish::Failed(HandlerError::ListTooLong)),
                            );
                        },
                    };
                    proof {
                        lemma_first_page_in_list(
                            list@.len(),
                            STICKER_SETS_NUMBER_PER_PAGE as nat,
                        );
                    }
                    let text: String = current_page_message(
                        1,
                        pages,
                        STICKER_SETS_NUMBER_PER_PAGE,
                        &list,
                    );
                    let buttons: Vec<Vec<InlineKeyboardButton>> = page_buttons(pages);
                    (
                        MyStickers::AwaitMessage { pages_number: pages },
                        Step::Call(
                            Call::SendMessage {
                                reply: Reply::PacksPage { text, buttons },
                                quote: false,
                            },
                        ),
                    )
                },
                Outcome::Unavailable(error) => (
                    MyStickers::Over,
                    Step::Finish(Finish::Failed(HandlerError::Repository(error))),
                ),
                Outcome::Stored(Err(error)) => (
                    MyStickers::Over,
                    Step::Finish(Finish::Failed(HandlerError::Database(error))),
                ),
                _ => (
                    MyStickers::Over,
                    Step::Finish(Finish::Failed(HandlerError::UnexpectedOutcome)),
                ),
            },
            MyStickers::AwaitMessage { pages_number } => match outcome {
                Outcome::Sent(message) => {
                    conversation.context = Context::List(
                        ListContext {
                            message: Some(message),
                            pages_number: Some(pages_number),
                            previous_callback_query: None,
                        },
                    );
                    conversation.state = State::List(MyStickersState::EditStickerSetsListMessage);
                    (MyStickers::Over, Step::Finish(Finish::Handled))
                },
                _ => (MyStickers::Over, Step::Finish(after_send(outcome))),
            },
            MyStickers::Closing => (MyStickers::Over, Step::Finish(after_send(outcome))),
            MyStickers::Over => (
                MyStickers::Over,
                Step::Finish(Finish::Failed(HandlerError::UnexpectedOutcome)),
            ),
        }
    }
}


/// Answering a press of a page button: how far it has come.
#[derive(Debug)]
pub enum ProcessButton {
    /// Waiting for the database to list the user's packs.
    AwaitSets { page: usize, pages_number: u32, message: MessageRef },
    /// Waiting for the list to be edited.
    AwaitEdit,
    /// Waiting for the last message to be sent.
    Closing,
    Over,
}

/// The page that a button's `data` names: the number it writes, if it
/// writes one that the machine can hold.
pub open spec fn page_named(data: Seq<char>) -> Option<usize> {
    match decimal_value(data) {
        Some(page) => if page <= usize::MAX {
            Some(page as usize)
        } else {
            None
        },
        None => None,
    }
}

/// `context` with `data` noted as what the button pressed last carried.
pub open spec fn noted(context: ListContext, data: Seq<char>, now: Conversation, state: State) -> bool {
    &&& now.state == state
    &&& now.context matches Context::List(kept)
    &&& kept.message == context.message
    &&& kept.pages_number == context.pages_number
    &&& kept.previous_callback_query matches Some(previous)
    &&& previous@ == data
}

/// Whether `task`, `step` and the conversation `now` are how the bot
/// answers a press of a button that carried `data`, pressed by `user_id`
/// in the conversation `before`.
///
/// A press that carries nothing is answered with an apology, and one in a
/// conversation that shows no list breaks off. A press that carries what
/// the press before it carried changes nothing and asks for nothing. Any
/// other is noted in the conversation, and changes nothing else; then, if
/// it names a page, and the list has more than one page, the bot reads
/// the user's packs to show that page.
pub open spec fn begins(
    before: Conversation,
    data: Option<String>,
    user_id: i64,
    task: ProcessButton,
    now: Conversation,
    step: Step,
) -> bool {
    match (data, before.context) {
        (None, _) => now == before && task is Closing && says(step, Reply::CallbackFailed),
        (Some(data), Context::List(context)) => if same_text(
            context.previous_callback_query,
            Some(data),
        ) {
            now == before && task is Over && step == Step::Finish(Finish::Handled)
        } else {
            &&& noted(context, data@, now, before.state)
            &&& match (page_named(data@), context.pages_number, context.message) {
                (None, _, _) => task is Over && step == Step::Finish(
                    Finish::Failed(HandlerError::InvalidCallback),
                ),
                (Some(_), None, _) => task is Over && step == Step::Finish(
                    Finish::Failed(HandlerError::MissingValue("pages_number")),
                ),
                (Some(page), Some(pages_number), message) => if pages_number == 1 {
                    task is Over && step == Step::Finish(Finish::Handled)
                } else {
                    match message {
                        None => task is Over && step == Step::Finish(
                            Finish::Failed(
                                HandlerError::MissingValue("edit_sticker_sets_list_message"),
                            ),
                        ),
                        Some(message) => task == (ProcessButton::AwaitSets {
                            page,
                            pages_number,
                            message,
                        }) && step == Step::Call(Call::GetSets { tg_id: user_id }),
                    }
                },
            }
        },
        (Some(_), _) => now == before && task is Over && step == Step::Finish(
            Finish::Failed(HandlerError::MissingValue("pages_number")),
        ),
    }
}

/// Answer a press of a page button.
pub fn process_button(conversation: &mut Conversation, data: Option<String>, user_id: i64) -> (begun: (
    ProcessButton,
    Step,
))
    ensures
        begins(*old(conversation), data, user_id, begun.0, *final(conversation), begun.1),
{
    let data: String = match data {
        Some(data) => data,
        None => {
            return (
                ProcessButton::Closing,
                Step::Call(Call::SendMessage { reply: Reply::CallbackFailed, quote: false }),
            );
        },
    };
    match &mut conversation.context {
        Context::List(context) => {
            let repeated: bool = match &context.previous_callback_query {
                Some(previous) => *previous == data,
                None => false,
            };
            if repeated {
                return (ProcessButton::Over, Step::Finish(Finish::Handled));
            }
            let named: Option<u64> = parse_decimal(data.as_str());
            context.previous_callback_query = Some(data);
            let page: usize = match named {
                Some(page) => {
                    if page > usize::MAX as u64 {
                        return (
                            ProcessButton::Over,
                            Step::Finish(Finish::Failed(HandlerError::InvalidCallback)),
                        );
                    }
                    page as usize
                },
                None => {
                    return (
                        ProcessButton::Over,
                        Step::Finish(Finish::Failed(HandlerError::InvalidCallback)),
                    );
                },
            };
            let pages_number: u32 = match context.pages_number {
                Some(pages_number) => pages_number,
                None => {
                    return (
                        ProcessButton::Over,
                        Step::Finish(Finish::Failed(HandlerError::MissingValue("pages_number"))),
                    );
                },
            };
            if pages_number == 1 {
                return (ProcessButton::Over, Step::Finish(Finish::Handled));
            }
            match context.message {
                Some(message) => (
                    ProcessButton::AwaitSets { page, pages_number, message },
                    Step::Call(Call::GetSets { tg_id: user_id }),
                ),
                None => (
                    ProcessButton::Over,
                    Step::Finish(
                        Finish::Failed(
                            HandlerError::MissingValue("edit_sticker_sets_list_message"),
                        ),
                    ),
                ),
            }
        },
        _ => (
            ProcessButton::Over,
            Step::Finish(Finish::Failed(HandlerError::MissingValue("pages_number"))),
        ),
    }
}

impl ProcessButton {
    /// Whether `after` and `step` are what follows `self` once `outcome`
    /// has come in.
    ///
    /// With the user's packs read, the message that holds the list is
    /// edited to show the page that the button named, with the keyboard of
    /// all pages; a page that lies outside the list breaks the command
    /// off instead.
    pub open spec fn follows(self, outcome: Outcome, after: Self, step: Step) -> bool {
        match self {
            ProcessButton::AwaitSets { page, pages_number, message } => match outcome {
                Outcome::Sets(list) => if page_in_list(
                    page as int,
                    pages_number as int,
                    STICKER_SETS_NUMBER_PER_PAGE as int,
                    list@.len() as int,
                ) {
                    &&& after is AwaitEdit
                    &&& step matches Step::Call(Call::EditMessage { message: edited, reply })
                    &&& edited == message
                    &&& shows_page(reply, page as int, pages_number as int, list@)
                } else {
                    after is Over && step == Step::Finish(
                        Finish::Failed(HandlerError::InvalidCallback),
                    )
                },
                Outcome::Unavailable(error) => after is Over && step == Step::Finish(
                    Finish::Failed(HandlerError::Repository(error)),
                ),
                Outcome::Stored(Err(error)) => after is Over && step == Step::Finish(
                    Finish::Failed(HandlerError::Database(error)),
                ),
                _ => after is Over && step == Step::Finish(
                    Finish::Failed(HandlerError::UnexpectedOutcome),
                ),
            },
            ProcessButton::AwaitEdit => after is Over && step == Step::Finish(
                finish_after_send(outcome),
            ),
            ProcessButton::Closing => after is Over && step == Step::Finish(
                finish_after_send(outcome),
            ),
            ProcessButton::Over => after is Over && step == Step::Finish(
                Finish::Failed(HandlerError::UnexpectedOutcome),
            ),
        }
    }

    /// Take in what came of the latest call and say what to do next.
    pub fn resume(self, outcome: Outcome) -> (next: (ProcessButton, Step))
        ensures
            self.follows(outcome, next.0, next.1),
    {
        match self {
            ProcessButton::AwaitSets { page, pages_number, message } => match outcome {
                Outcome::Sets(list) => {
                    if is_page_in_list(
                        page,
                        pages_number,
                        STICKER_SETS_NUMBER_PER_PAGE,
                        list.len(),
                    ) {
                        let text: String = current_page_message(
                            page,
                            pages_number,
                            STICKER_SETS_NUMBER_PER_PAGE,
                            &list,
                        );
                        let buttons: Vec<Vec<InlineKeyboardButton>> = page_buttons(pages_number);
                        (
                            ProcessButton::AwaitEdit,
                            Step::Call(
                                Call::EditMessage {
                                    message,
                                    reply: Reply::PacksPage { text, buttons },
                                },
                            ),
                        )
                    } else {
                        (
                            ProcessButton::Over,
                            Step::Finish(Finish::Failed(HandlerError::InvalidCallback)),
                        )
                    }
                },
                Outcome::Unavailable(error) => (
                    ProcessButton::Over,
                    Step::Finish(Finish::Failed(HandlerError::Repository(error))),
                ),
                Outcome::Stored(Err(error)) => (
                    ProcessButton::Over,
                    Step::Finish(Finish::Failed(HandlerError::Database(error))),
                ),
                _ => (
                    ProcessButton::Over,
                    Step::Finish(Finish::Failed(HandlerError::UnexpectedOutcome)),
                ),
            },
            ProcessButton::AwaitEdit => (ProcessButton::Over, Step::Finish(after_send(outcome))),
            ProcessButton::Closing => (ProcessButton::Over, Step::Finish(after_send(outcome))),
            ProcessButton::Over => (
                ProcessButton::Over,
                Step::Finish(Finish::Failed(HandlerError::UnexpectedOutcome)),
            ),
        }
    }
}

/// A button pressed twice in a row is answered once. Let a conversation
/// show a list, and let the same button be pressed twice, with nothing in
/// between. Then the first press changes nothing of the conversation but
/// what it remembers as pressed last, and the second press changes nothing
/// at all and asks for no outside work: no packs are read, no message is
/// edited.
pub proof fn lemma_repeated_press_is_ignored(
    before: Conversation,
    data: String,
    user_id: i64,
    first_task: ProcessButton,
    between: Conversation,
    first_step: Step,
    second_task: ProcessButton,
    after: Conversation,
    second_step: Step,
)
    requires
        before.context is List,
        begins(before, Some(data), user_id, first_task, between, first_step),
        begins(between, Some(data), user_id, second_task, after, second_step),
    ensures
        between.state == before.state,
        between.context matches Context::List(kept) && kept.message
            == before.context->List_0.message && kept.pages_number
            == before.context->List_0.pages_number,
        after == between,
        second_task is Over,
        second_step == Step::Finish(Finish::Handled),
{
}

} // verus!
