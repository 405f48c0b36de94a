use steal_stickers_bot::domain::entities::set::StickerSet;
use steal_stickers_bot::stickers::common::{
    checked_pages_number, generate_sticker_set_name_and_link, get_page_begin_and_end,
    pages_number, set_created_by, sticker_format,
};
use steal_stickers_bot::domain::entities::sticker::{Sticker, StickerFormat};
use steal_stickers_bot::stickers::numbers::{decimal_string, parse_decimal, signed_decimal_string};
use steal_stickers_bot::stickers::texts::{
    current_page_message, is_page_in_list, start_message, sticker_set_message,
};

#[test]
fn sticker_format_test() {
    let (generated_name, generated_link) = generate_sticker_set_name_and_link(15, "your_bot");

    assert!(!generated_name.contains("t.me/addstickers/"));
    assert!(
        generated_link.contains("t.me/addstickers/") && generated_link.contains(&generated_name)
    );

    assert_eq!(
        generated_link.len(),
        generated_name.len() + "t.me/addstickers/".len()
    )
}

#[test]
fn get_page_begin_and_end_test() {
    let (begin_index, end_index) = get_page_begin_and_end(1, 2, 97, 50);

    assert_eq!(begin_index, 0);
    assert_eq!(end_index, 50);

    let (begin_index, end_index) = get_page_begin_and_end(4, 4, 176, 50);

    assert_eq!(begin_index, 150);
    assert_eq!(end_index, 176);
}

#[test]
fn current_page_message_test() {
    let mut list = Vec::new();
    for i in 0..5 {
        list.push(StickerSet {
            tg_id: i,
            short_name: format!("short_name{i}"),
            title: format!("title{i}"),
        });
    }

    let message = current_page_message(1, 1, 50, &list);

    assert_eq!(
        message.as_str(),
        "List of your stickers (1 page):\n\
        <a href=\"t.me/addstickers/short_name0\">title0</a> \
        | <a href=\"t.me/addstickers/short_name1\">title1</a> \
        | <a href=\"t.me/addstickers/short_name2\">title2</a> \
        | <a href=\"t.me/addstickers/short_name3\">title3</a> \
        | <a href=\"t.me/addstickers/short_name4\">title4</a> \
        | "
    );
}

#[test]
fn second_page_lists_the_rest() {
    let mut list = Vec::new();
    for i in 0..3 {
        list.push(StickerSet {
            tg_id: 7,
            short_name: format!("n{i}"),
            title: format!("t{i}"),
        });
    }
    assert!(is_page_in_list(2, 2, 2, list.len()));
    let message = current_page_message(2, 2, 2, &list);
    assert_eq!(
        message,
        "List of your stickers (2 page):\n<a href=\"t.me/addstickers/n2\">t2</a> | "
    );
}

#[test]
fn page_outside_the_list_is_recognised() {
    assert!(!is_page_in_list(0, 2, 50, 97));
    assert!(is_page_in_list(1, 2, 50, 97));
    assert!(is_page_in_list(2, 2, 50, 97));
    assert!(!is_page_in_list(2, 3, 50, 97));
    assert!(!is_page_in_list(usize::MAX, 3, 50, 97));
    assert!(is_page_in_list(1, 1, 50, 0));
}

#[test]
fn pages_cover_the_list_exactly() {
    let len = 97;
    let per_page = 50;
    let pages = pages_number(len, per_page);
    assert_eq!(pages, 2);
    let mut seen = vec![0; len];
    for page in 1..=pages as usize {
        let (begin, end) = get_page_begin_and_end(page, pages, len, per_page);
        assert!(begin < end && end <= len);
        for index in begin..end {
            seen[index] += 1;
            assert_eq!(index / per_page + 1, page);
        }
    }
    assert!(seen.iter().all(|count| *count == 1));
}

#[test]
fn page_count_rounds_up() {
    assert_eq!(pages_number(0, 50), 0);
    assert_eq!(pages_number(1, 50), 1);
    assert_eq!(pages_number(50, 50), 1);
    assert_eq!(pages_number(51, 50), 2);
    assert_eq!(pages_number(176, 50), 4);
    assert_eq!(checked_pages_number(176, 50), Some(4));
    assert_eq!(checked_pages_number(usize::MAX, 1), None);
    assert_eq!(checked_pages_number(u32::MAX as usize, 1), Some(u32::MAX));
}

#[test]
fn numbers_are_written_and_read_back() {
    assert_eq!(decimal_string(0), "0");
    assert_eq!(decimal_string(7), "7");
    assert_eq!(decimal_string(120), "120");
    assert_eq!(decimal_string(u64::MAX), "18446744073709551615");
    assert_eq!(signed_decimal_string(-15), "-15");
    assert_eq!(signed_decimal_string(i64::MIN), "-9223372036854775808");
    assert_eq!(signed_decimal_string(42), "42");
    assert_eq!(parse_decimal("120"), Some(120));
    assert_eq!(parse_decimal("007"), Some(7));
    assert_eq!(parse_decimal("18446744073709551615"), Some(u64::MAX));
    assert_eq!(parse_decimal("18446744073709551616"), None);
    assert_eq!(parse_decimal(""), None);
    assert_eq!(parse_decimal("+1"), None);
    assert_eq!(parse_decimal("12a"), None);
    for n in [0u64, 9, 10, 99, 100, 4096] {
        assert_eq!(parse_decimal(&decimal_string(n)), Some(n));
    }
}

#[test]
fn generated_names_have_the_promised_shape() {
    for _ in 0..50 {
        let (name, link) = generate_sticker_set_name_and_link(11, "my_bot");
        assert_eq!(name.chars().count(), 11 + "_by_my_bot".len());
        assert!(name.chars().next().unwrap().is_ascii_alphabetic());
        assert!(name.chars().take(11).all(|c| c.is_ascii_alphanumeric()));
        assert!(name.ends_with("_by_my_bot"));
        assert_eq!(link, format!("t.me/addstickers/{name}"));
        assert!(set_created_by(&name, "my_bot"));
        assert!(!set_created_by(&name, "other_bot"));
    }
    let (shortest, _) = generate_sticker_set_name_and_link(1, "b");
    assert_eq!(shortest.len(), 1 + "_by_b".len());
}

#[test]
fn generated_names_differ() {
    let (first, _) = generate_sticker_set_name_and_link(11, "my_bot");
    let mut differs = false;
    for _ in 0..20 {
        let (next, _) = generate_sticker_set_name_and_link(11, "my_bot");
        differs = differs || next != first;
    }
    assert!(differs);
}

#[test]
fn packs_of_other_bots_are_not_recognised() {
    assert!(set_created_by("abc_by_my_bot", "my_bot"));
    assert!(set_created_by("_by_my_bot", "my_bot"));
    assert!(!set_created_by("by_my_bot", "my_bot"));
    assert!(!set_created_by("abc_by_my_bot2", "my_bot"));
    assert!(!set_created_by("abc_by_my_bo", "my_bot"));
    assert!(!set_created_by("", "my_bot"));
}

fn sticker(file_id: &str, animated: bool, video: bool) -> Sticker {
    Sticker {
        file_id: file_id.to_owned(),
        set_name: None,
        emoji: Some("😀".to_owned()),
        is_animated: animated,
        is_video: video,
    }
}

#[test]
fn format_is_that_of_the_first_sticker() {
    assert_eq!(sticker_format(&[]), None);
    assert_eq!(
        sticker_format(&[sticker("a", false, false), sticker("b", true, false)]),
        Some("static".to_owned())
    );
    assert_eq!(
        sticker_format(&[sticker("a", true, true)]),
        Some("animated".to_owned())
    );
    assert_eq!(
        sticker_format(&[sticker("a", false, true)]),
        Some("video".to_owned())
    );
    let input = sticker("file", false, true).to_input();
    assert_eq!(input.file_id, "file");
    assert_eq!(input.format, StickerFormat::Video);
    assert_eq!(input.emoji_list, vec!["😀".to_owned()]);
    let mut plain = sticker("file", false, false);
    plain.emoji = None;
    assert!(plain.to_input().emoji_list.is_empty());
}

#[test]
fn texts_are_exact() {
    assert_eq!(
        start_message("Ann"),
        "\n    Hello, Ann! This is bot to steal stickers!\n\
        List of commands you can use:\n\
        /help - Show this message\n\
        /source or /src - Show source code of the bot\n\
        /cancel - Cancel last command\n\
        /stealpack - Steal sticker pack\n\
        /addstickers - Add sticker to a sticker pack stolen by this bot\n\
        /mystickers - List of your stolen stickers\n"
    );
    assert_eq!(
        sticker_set_message("New", "new_by_bot", "t.me/addstickers/new_by_bot", "Old", "t.me/addstickers/old"),
        "\n        Now you have your own sticker pack <a href=\"t.me/addstickers/new_by_bot\">New</a>! \
        You can add stickers to this pack using command /addstickers! \
        (original: <a href=\"t.me/addstickers/old\">Old</a>)\n\nIf you want to update your new sticker pack, use official Telegram \
        bot @Stickers, which does an excellent job of managing sticker packs. \
        (the name of your new sticker pack to handle it in @Stickers bot: <code>new_by_bot</code>)\n        "
    );
}
