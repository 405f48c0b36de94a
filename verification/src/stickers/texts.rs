use vstd::prelude::*;
use crate::domain::entities::set::StickerSet;
use crate::stickers::common::{get_page_begin_and_end, page_begin, page_end};
use crate::stickers::constants::TELEGRAM_STICKER_SET_URL;
use crate::stickers::numbers::{decimal, decimal_string};

verus! {

/// `text` as a link to `url`, in Telegram's HTML.
pub open spec fn link_html(text: Seq<char>, url: Seq<char>) -> Seq<char> {
    "<a href=\""@ + url + "\">"@ + text + "</a>"@
}

/// `text` in fixed-width type, in Telegram's HTML.
pub open spec fn code_html(text: Seq<char>) -> Seq<char> {
    "<code>"@ + text + "</code>"@
}

/// `text` in bold type, in Telegram's HTML.
pub open spec fn bold_html(text: Seq<char>) -> Seq<char> {
    "<b>"@ + text + "</b>"@
}

/// Wraps `text` in a bold tag by `telers::utils::text::html_bold`, which
/// writes the opening tag, the text as it is, and the closing tag.
#[verifier::external_body]
pub(crate) fn html_bold(text: &str) -> (html: String)
    ensures
        html@ == bold_html(text@),
{
    telers::utils::text::html_bold(text)
}

/// Wraps `text` in a link to `url` by `telers::utils::text::html_text_link`,
/// which writes the opening tag with the address in double quotes, the text
/// as it is, and the closing tag; it escapes nothing.
#[verifier::external_body]
pub(crate) fn html_text_link(text: &str, url: &str) -> (html: String)
    ensures
        html@ == link_html(text@, url@),
{
    telers::utils::text::html_text_link(text, url)
}

/// Wraps `text` in a code tag by `telers::utils::text::html_code`, which
/// writes the opening tag, the text as it is, and the closing tag.
#[verifier::external_body]
pub(crate) fn html_code(text: &str) -> (html: String)
    ensures
        html@ == code_html(text@),
{
    telers::utils::text::html_code(text)
}

pub const STOLEN_BEFORE_LINK: &'static str = "\n        Now you have your own sticker pack ";

pub const STOLEN_BEFORE_ORIGINAL: &'static str =
    "! You can add stickers to this pack using command /addstickers! (original: ";

pub const STOLEN_BEFORE_NAME: &'static str =
    ")\n\nIf you want to update your new sticker pack, use official Telegram bot @Stickers, which does an excellent job of managing sticker packs. (the name of your new sticker pack to handle it in @Stickers bot: ";

pub const STOLEN_END: &'static str = ")\n        ";

pub const START_BEFORE_NAME: &'static str = "\n    Hello, ";

pub const START_AFTER_NAME: &'static str =
    "! This is bot to steal stickers!\nList of commands you can use:\n/help - Show this message\n/source or /src - Show source code of the bot\n/cancel - Cancel last command\n/stealpack - Steal sticker pack\n/addstickers - Add sticker to a sticker pack stolen by this bot\n/mystickers - List of your stolen stickers\n";

pub const PAGE_BEFORE_NUMBER: &'static str = "List of your stickers (";

pub const PAGE_AFTER_NUMBER: &'static str = " page):\n";

pub const PAGE_SEPARATOR: &'static str = " | ";

/// What the bot says when it has copied a pack: the new pack as a link,
/// the original as a link, and the new pack's name in fixed-width type.
pub fn sticker_set_message(
    sticker_set_title: &str,
    sticker_set_name: &str,
    sticker_set_link: &str,
    other_sticker_set_title: &str,
    other_sticker_set_link: &str,
) -> (message: String)
    ensures
        message@ == STOLEN_BEFORE_LINK@ + link_html(sticker_set_title@, sticker_set_link@)
            + STOLEN_BEFORE_ORIGINAL@ + link_html(
            other_sticker_set_title@,
            other_sticker_set_link@,
        ) + STOLEN_BEFORE_NAME@ + code_html(sticker_set_name@) + STOLEN_END@,
{
    let mut message: String = String::from_str(STOLEN_BEFORE_LINK);
    message.append(html_text_link(sticker_set_title, sticker_set_link).as_str());
    message.append(STOLEN_BEFORE_ORIGINAL);
    message.append(html_text_link(other_sticker_set_title, other_sticker_set_link).as_str());
    message.append(STOLEN_BEFORE_NAME);
    message.append(html_code(sticker_set_name).as_str());
    message.append(STOLEN_END);
    message
}

/// The greeting, with the list of commands.
pub fn start_message(username: &str) -> (message: String)
    ensures
        message@ == START_BEFORE_NAME@ + username@ + START_AFTER_NAME@,
{
    let mut message: String = String::from_str(START_BEFORE_NAME);
    message.append(username);
    message.append(START_AFTER_NAME);
    message
}

/// One pack in the list: its title as a link to the pack, and the
/// separator.
pub open spec fn list_entry(set: StickerSet) -> Seq<char> {
    link_html(set.title@, TELEGRAM_STICKER_SET_URL@ + set.short_name@) + PAGE_SEPARATOR@
}

/// The entries of the packs from `begin` up to, not including, `end`, one
/// after the other.
pub open spec fn list_entries(list: Seq<StickerSet>, begin: int, end: int) -> Seq<char>
    decreases end - begin,
{
    if begin >= end {
        Seq::<char>::empty()
    } else {
        list_entries(list, begin, end - 1) + list_entry(list[end - 1])
    }
}

/// The text of one page of the list of packs: the heading with the page's
/// number, then the packs of that page.
pub open spec fn page_text(
    current_page: int,
    pages_number: int,
    sets_number_per_page: int,
    list: Seq<StickerSet>,
) -> Seq<char> {
    PAGE_BEFORE_NUMBER@ + decimal(current_page as nat) + PAGE_AFTER_NUMBER@ + list_entries(
        list,
        page_begin(current_page, sets_number_per_page),
        page_end(current_page, pages_number, list.len() as int, sets_number_per_page),
    )
}

/// Whether page `current_page` of `pages_number` lies within a list of
/// `len` packs shown `sets_number_per_page` to a page, and can be computed
/// in machine numbers.
pub open spec fn page_in_list(
    current_page: int,
    pages_number: int,
    sets_number_per_page: int,
    len: int,
) -> bool {
    &&& 1 <= current_page
    &&& sets_number_per_page * current_page <= usize::MAX
    &&& page_end(current_page, pages_number, len, sets_number_per_page) <= len
}

/// Whether page `current_page` lies within the list, as [`page_in_list`]
/// says.
pub fn is_page_in_list(
    current_page: usize,
    pages_number: u32,
    sets_number_per_page: usize,
    len: usize,
) -> (inside: bool)
    ensures
        inside == page_in_list(
            current_page as int,
            pages_number as int,
            sets_number_per_page as int,
            len as int,
        ),
{
    if current_page < 1 {
        return false;
    }
    let product: Option<usize> = sets_number_per_page.checked_mul(current_page);
    match product {
        None => false,
        Some(end) => {
            if current_page == pages_number as usize {
                true
            } else {
                assert(sets_number_per_page * (current_page - 1) + sets_number_per_page
                    == sets_number_per_page * current_page) by (nonlinear_arith);
                end <= len
            }
        },
    }
}

/// The text of page `current_page` of the list of packs.
pub fn current_page_message(
    current_page: usize,
    pages_number: u32,
    sets_number_per_page: usize,
    list: &Vec<StickerSet>,
) -> (message: String)
    requires
        page_in_list(
            current_page as int,
            pages_number as int,
            sets_number_per_page as int,
            list@.len() as int,
        ),
    ensures
        message@ == page_text(
            current_page as int,
            pages_number as int,
            sets_number_per_page as int,
            list@,
        ),
{
    assert(sets_number_per_page * (current_page - 1) <= sets_number_per_page * current_page)
        by (nonlinear_arith)
        requires
            current_page >= 1,
    ;
    let (begin_page_index, end_page_index) = get_page_begin_and_end(
        current_page,
        pages_number,
        list.len(),
        sets_number_per_page,
    );

    let mut sticker_sets_page: String = String::from_str(PAGE_BEFORE_NUMBER);
    sticker_sets_page.append(decimal_string(current_page as u64).as_str());
    sticker_sets_page.append(PAGE_AFTER_NUMBER);
    let ghost heading: Seq<char> = sticker_sets_page@;
    if begin_page_index >= end_page_index {
        assert(sticker_sets_page@ =~= heading + Seq::<char>::empty());
        return sticker_sets_page;
    }
    let mut i: usize = begin_page_index;
    assert(sticker_sets_page@ =~= heading + list_entries(
        list@,
        begin_page_index as int,
        i as int,
    ));
    while i < end_page_index
        invariant
            begin_page_index <= i <= end_page_index <= list@.len(),
            sticker_sets_page@ == heading + list_entries(
                list@,
                begin_page_index as int,
                i as int,
            ),
        decreases end_page_index - i,
    {
        let sticker_set_name: &str = list[i].short_name.as_str();
        let sticker_set_title: &str = list[i].title.as_str();

        let mut sticker_set_link: String = String::from_str(TELEGRAM_STICKER_SET_URL);
        sticker_set_link.append(sticker_set_name);

        let sticker_set: String = html_text_link(sticker_set_title, sticker_set_link.as_str());

        let ghost before: Seq<char> = sticker_sets_page@;
        sticker_sets_page.append(sticker_set.as_str());
        sticker_sets_page.append(PAGE_SEPARATOR);
        proof {
            assert(list_entries(list@, begin_page_index as int, i + 1) == list_entries(
                list@,
                begin_page_index as int,
                i as int,
            ) + list_entry(list@[i as int]));
            assert(sticker_sets_page@ =~= before + list_entry(list@[i as int]));
            assert(sticker_sets_page@ =~= heading + list_entries(
                list@,
                begin_page_index as int,
                i + 1,
            ));
        }
        i = i + 1;
    }
    sticker_sets_page
}

} // verus!
