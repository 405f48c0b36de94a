use vstd::prelude::*;
use vstd::arithmetic::div_mod::{lemma_fundamental_div_mod, lemma_div_pos_is_pos};
use crate::domain::entities::sticker::{format_of, format_text, Sticker};
use crate::stickers::constants::{
    CHARSET, CHARSET_WITHOUT_NUMS, CREATED_BY_MARKER, TELEGRAM_STICKER_SET_URL,
};

verus! {

/// Whether `text` ends with `suffix`.
pub open spec fn ends_with(text: Seq<char>, suffix: Seq<char>) -> bool {
    suffix.len() <= text.len() && text.subrange(text.len() - suffix.len(), text.len() as int)
        == suffix
}

/// The ending that marks a pack as made by the bot called `bot_username`.
pub open spec fn created_by_suffix(bot_username: Seq<char>) -> Seq<char> {
    CREATED_BY_MARKER@ + bot_username
}

/// Whether `name` is a pack name as the bot called `bot_username` makes
/// them: one letter, then `length - 1` letters or digits, then the bot's
/// ending.
pub open spec fn is_generated_name(name: Seq<char>, length: nat, bot_username: Seq<char>) -> bool {
    &&& length >= 1
    &&& name.len() == length + created_by_suffix(bot_username).len()
    &&& CHARSET_WITHOUT_NUMS@.contains(name[0])
    &&& forall|i: int| 1 <= i < length ==> CHARSET@.contains(#[trigger] name[i])
    &&& name.subrange(length as int, name.len() as int) == created_by_suffix(bot_username)
}

/// Draws `length` characters from `charset`, each independently at random,
/// by `random_string::generate`. That function panics on an empty charset,
/// and it reserves room for `length` bytes, which the standard library
/// refuses for more than `isize::MAX`. Otherwise it returns exactly
/// `length` characters, every one of them a character of `charset`; which
/// ones differs from call to call.
#[verifier::external_body]
fn generate(length: usize, charset: &str) -> (text: String)
    requires
        charset@.len() > 0,
        length <= isize::MAX,
    ensures
        text@.len() == length,
        forall|i: int| 0 <= i < length ==> charset@.contains(#[trigger] text@[i]),
{
    random_string::generate(length, charset)
}

/// Return the format of the first sticker of the list, as Telegram names it.
pub fn sticker_format(stickers: &[Sticker]) -> (format: Option<String>)
    ensures
        format is Some == (stickers@.len() > 0),
        format is Some ==> format->0@ == format_text(format_of(stickers@[0])),
{
    if stickers.len() == 0 {
        None
    } else {
        Some(String::from_str(stickers[0].format().as_str()))
    }
}

/// Generate a new random sticker set name for a pack of the bot called
/// `bot_username`, and the link under which Telegram shows that pack.
pub fn generate_sticker_set_name_and_link(length: usize, bot_username: &str) -> (names: (
    String,
    String,
))
    requires
        1 <= length <= isize::MAX,
    ensures
        is_generated_name(names.0@, length as nat, bot_username@),
        names.1@ == TELEGRAM_STICKER_SET_URL@ + names.0@,
{
    proof {
        reveal_strlit("abcdefghijklmnopqrstuvwxyzABCDEFGHIJKLMNOPQRSTUVWXYZ");
        reveal_strlit("abcdefghijklmnopqrstuvwxyzABCDEFGHIJKLMNOPQRSTUVWXYZ1234567890");
    }
    let set_name_prefix: String = generate(1, CHARSET_WITHOUT_NUMS);
    let set_name_body: String = generate(length - 1, CHARSET);
    let mut set_name: String = set_name_prefix;
    set_name.append(set_name_body.as_str());
    let ghost random_part: Seq<char> = set_name@;
    set_name.append(CREATED_BY_MARKER);
    set_name.append(bot_username);
    proof {
        assert(set_name@ =~= random_part + created_by_suffix(bot_username@));
        assert(set_name@.subrange(length as int, set_name@.len() as int) =~= created_by_suffix(
            bot_username@,
        ));
        assert(set_name@[0] == set_name_prefix@[0]);
        assert forall|i: int| 1 <= i < length implies CHARSET@.contains(
            #[trigger] set_name@[i],
        ) by {
            assert(set_name@[i] == set_name_body@[i - 1]);
        }
    }
    let mut set_link: String = String::from_str(TELEGRAM_STICKER_SET_URL);
    set_link.append(set_name.as_str());

    (set_name, set_link)
}

/// Whether the pack called `set_name` was made by the bot called
/// `bot_username`: Telegram lets a bot change only packs whose name ends
/// with its own ending.
pub fn set_created_by(set_name: &str, bot_username: &str) -> (created: bool)
    ensures
        created == ends_with(set_name@, created_by_suffix(bot_username@)),
{
    let mut suffix: String = String::from_str(CREATED_BY_MARKER);
    suffix.append(bot_username);
    let name_len: usize = set_name.unicode_len();
    let suffix_len: usize = suffix.as_str().unicode_len();
    if suffix_len > name_len {
        return false;
    }
    let tail: String = String::from_str(set_name.substring_char(name_len - suffix_len, name_len));
    tail == suffix
}

/// Every name that the bot generates is one that it recognises as its own.
pub proof fn lemma_generated_name_is_created_by(
    name: Seq<char>,
    length: nat,
    bot_username: Seq<char>,
)
    requires
        is_generated_name(name, length, bot_username),
    ensures
        ends_with(name, created_by_suffix(bot_username)),
{
}

/// Number of pages that `len` entries fill when a page holds `per_page`.
pub open spec fn page_count_of(len: nat, per_page: nat) -> nat {
    if per_page == 0 {
        0
    } else {
        ((len + per_page - 1) / (per_page as int)) as nat
    }
}

/// Index of the first entry on page `page`; pages count from one.
pub open spec fn page_begin(page: int, per_page: int) -> int {
    per_page * (page - 1)
}

/// Index one past the last entry on page `page`: the last page ends with the
/// list, every other page is full.
pub open spec fn page_end(page: int, pages: int, len: int, per_page: int) -> int {
    if page == pages {
        len
    } else {
        page_begin(page, per_page) + per_page
    }
}

/// Return begin and end of the given page of a list of `list_len` entries.
pub fn get_page_begin_and_end(
    current_page: usize,
    pages_number: u32,
    list_len: usize,
    sticker_sets_number_per_page: usize,
) -> (bounds: (usize, usize))
    requires
        1 <= current_page,
        sticker_sets_number_per_page * (current_page - 1) <= usize::MAX,
        current_page != pages_number ==> sticker_sets_number_per_page * current_page
            <= usize::MAX,
    ensures
        bounds.0 == page_begin(current_page as int, sticker_sets_number_per_page as int),
        bounds.1 == page_end(
            current_page as int,
            pages_number as int,
            list_len as int,
            sticker_sets_number_per_page as int,
        ),
{
    assert(sticker_sets_number_per_page * (current_page - 1) + sticker_sets_number_per_page
        == sticker_sets_number_per_page * current_page) by (nonlinear_arith);
    let begin_page_index: usize = sticker_sets_number_per_page * (current_page - 1);

    let end_page_index: usize = if current_page == pages_number as usize {
        list_len
    } else {
        begin_page_index + sticker_sets_number_per_page
    };

    (begin_page_index, end_page_index)
}


/// With `q` full pages and `r < per_page` further entries, the page count is
/// `q`, plus one if there is a remainder.
proof fn lemma_page_count_split(q: nat, r: nat, per_page: nat)
    requires
        per_page > 0,
        r < per_page,
    ensures
        page_count_of(q * per_page + r, per_page) == if r == 0 {
            q
        } else {
            q + 1
        },
{
    let d: int = per_page as int;
    let x: int = q * per_page + r + per_page - 1;
    lemma_fundamental_div_mod(x, d);
    let k: int = x / d;
    let m: int = x % d;
    assert(x == d * k + m);
    assert(0 <= m < d);
    if r == 0 {
        assert(d * k + m == d * q + d - 1) by (nonlinear_arith)
            requires
                x == d * k + m,
                x == q * d + 0 + d - 1,
        ;
        assert(k == q) by (nonlinear_arith)
            requires
                d * k + m == d * q + d - 1,
                0 <= m < d,
                d > 0,
        ;
    } else {
        assert(d * k + m == d * (q + 1) + (r - 1)) by (nonlinear_arith)
            requires
                x == d * k + m,
                x == q * d + r + d - 1,
        ;
        assert(k == q + 1) by (nonlinear_arith)
            requires
                d * k + m == d * (q + 1) + (r - 1),
                0 <= m < d,
                0 <= r - 1 < d,
                d > 0,
        ;
    }
}

/// Number of pages needed to list `list_len` entries, `per_page` to a page.
pub fn pages_number(list_len: usize, per_page: usize) -> (pages: u32)
    requires
        per_page > 0,
        page_count_of(list_len as nat, per_page as nat) <= u32::MAX,
    ensures
        pages == page_count_of(list_len as nat, per_page as nat),
{
    let full: usize = list_len / per_page;
    let rest: usize = list_len % per_page;
    proof {
        lemma_fundamental_div_mod(list_len as int, per_page as int);
        assert(per_page * full == full * per_page) by (nonlinear_arith);
        lemma_page_count_split(full as nat, rest as nat, per_page as nat);
    }
    if rest == 0 {
        full as u32
    } else {
        (full + 1) as u32
    }
}

/// Number of pages needed to list `list_len` entries, `per_page` to a page,
/// where that number can be held.
pub fn checked_pages_number(list_len: usize, per_page: usize) -> (pages: Option<u32>)
    requires
        per_page > 0,
    ensures
        pages is Some == (page_count_of(list_len as nat, per_page as nat) <= u32::MAX),
        pages is Some ==> pages->0 == page_count_of(list_len as nat, per_page as nat),
{
    let full: usize = list_len / per_page;
    let rest: usize = list_len % per_page;
    proof {
        lemma_fundamental_div_mod(list_len as int, per_page as int);
        assert(per_page * full == full * per_page) by (nonlinear_arith);
        lemma_page_count_split(full as nat, rest as nat, per_page as nat);
    }
    let extra: usize = if rest == 0 {
        0
    } else {
        1
    };
    if full > u32::MAX as usize - extra {
        None
    } else {
        Some((full + extra) as u32)
    }
}

/// The pages of a list cover it exactly. For a list of `len` entries shown
/// `per_page` to a page, the pages numbered one to the page count each hold
/// at least one entry, the first begins at index zero, each ends where the
/// next begins, the last ends with the list, and every index of the list lies
/// on the one page `index / per_page + 1` and on no other.
pub proof fn lemma_pages_partition(len: nat, per_page: nat)
    requires
        per_page > 0,
    ensures
        (page_count_of(len, per_page) == 0) == (len == 0),
        page_count_of(len, per_page) > 0 ==> page_begin(1, per_page as int) == 0,
        page_count_of(len, per_page) > 0 ==> page_end(
            page_count_of(len, per_page) as int,
            page_count_of(len, per_page) as int,
            len as int,
            per_page as int,
        ) == len,
        forall|page: int|
            1 <= page <= page_count_of(len, per_page) ==> 0 <= #[trigger] page_begin(
                page,
                per_page as int,
            ) < page_end(page, page_count_of(len, per_page) as int, len as int, per_page as int)
                <= len,
        forall|page: int|
            1 <= page < page_count_of(len, per_page) ==> page_end(
                page,
                page_count_of(len, per_page) as int,
                len as int,
                per_page as int,
            ) == #[trigger] page_begin(page + 1, per_page as int),
        forall|index: int, page: int|
            0 <= index < len && 1 <= page <= page_count_of(len, per_page) ==> ((
            #[trigger] page_begin(page, per_page as int) <= index < page_end(
                page,
                page_count_of(len, per_page) as int,
                len as int,
                per_page as int,
            )) <==> page == #[trigger] (index / (per_page as int)) + 1),
{
    let d: int = per_page as int;
    let n: int = len as int;
    let pages: int = page_count_of(len, per_page) as int;
    lemma_fundamental_div_mod(n, d);
    let q: int = n / d;
    let r: int = n % d;
    assert(0 <= q) by {
        lemma_div_pos_is_pos(n, d);
    }
    assert(n == q * d + r) by (nonlinear_arith)
        requires
            n == d * q + r,
    ;
    lemma_page_count_split(q as nat, r as nat, per_page);
    assert(pages == if r == 0 {
        q
    } else {
        q + 1
    });
    // Every page but the last is full; the last holds what is left.
    assert(pages > 0 ==> d * (pages - 1) < n && n <= d * pages) by (nonlinear_arith)
        requires
            n == q * d + r,
            0 <= r < d,
            0 <= q,
            pages == if r == 0 {
                q
            } else {
                q + 1
            },
    ;
    assert forall|page: int| 1 <= page <= pages implies 0 <= #[trigger] page_begin(page, d)
        < page_end(page, pages, n, d) <= n by {
        assert(0 <= d * (page - 1)) by (nonlinear_arith)
            requires
                1 <= page,
                d > 0,
        ;
        if page != pages {
            assert(d * (page - 1) + d <= d * (pages - 1)) by (nonlinear_arith)
                requires
                    page < pages,
                    d > 0,
            ;
        }
    }
    assert forall|page: int| 1 <= page < pages implies page_end(page, pages, n, d)
        == #[trigger] page_begin(page + 1, d) by {
        assert(d * (page - 1) + d == d * (page + 1 - 1)) by (nonlinear_arith);
    }
    assert forall|index: int, page: int| 0 <= index < n && 1 <= page <= pages implies ((
    #[trigger] page_begin(page, d) <= index < page_end(page, pages, n, d)) <==> page
        == #[trigger] (index / d) + 1) by {
        lemma_fundamental_div_mod(index, d);
        let iq: int = index / d;
        let ir: int = index % d;
        assert(index == d * iq + ir);
        let begin: int = d * (page - 1);
        if page == iq + 1 {
            assert(begin <= index);
            if page != pages {
                assert(index < begin + d);
            }
        } else if page < iq + 1 {
            // The page ends at or before the index.
            assert(begin + d <= d * iq) by (nonlinear_arith)
                requires
                    begin == d * (page - 1),
                    page <= iq,
                    d > 0,
            ;
            if page == pages {
                // The last page reaches the end of the list, which lies past the index.
                assert(d * pages <= d * iq) by (nonlinear_arith)
                    requires
                        pages <= iq,
                        d > 0,
                ;
                assert(false);
            }
        } else {
            assert(d * (iq + 1) <= begin) by (nonlinear_arith)
                requires
                    begin == d * (page - 1),
                    iq + 1 <= page - 1,
                    d > 0,
            ;
            assert(d * (iq + 1) == d * iq + d) by (nonlinear_arith);
        }
    }
}

} // verus!
