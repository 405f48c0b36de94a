use vstd::prelude::*;

verus! {

/// A sticker as a user sent it to the bot.
#[derive(Debug, Clone, PartialEq, Eq)]
pub struct Sticker {
    /// Telegram's handle of the sticker's file.
    pub file_id: String,
    /// Name of the pack that the sticker belongs to, if it belongs to one.
    pub set_name: Option<String>,
    /// Emoji that the sticker stands for, if any.
    pub emoji: Option<String>,
    pub is_animated: bool,
    pub is_video: bool,
}

/// The three kinds of sticker files.
#[derive(Debug, Clone, Copy, PartialEq, Eq, Structural)]
pub enum StickerFormat {
    Static,
    Animated,
    Video,
}

/// A sticker as it is handed to Telegram to be put into a pack.
#[derive(Debug, Clone, PartialEq, Eq)]
pub struct InputSticker {
    pub file_id: String,
    pub format: StickerFormat,
    pub emoji_list: Vec<String>,
}

/// What Telegram calls a format.
pub open spec fn format_text(format: StickerFormat) -> Seq<char> {
    match format {
        StickerFormat::Static => "static"@,
        StickerFormat::Animated => "animated"@,
        StickerFormat::Video => "video"@,
    }
}

/// The format of a sticker: animated before video, static where it is neither.
pub open spec fn format_of(sticker: Sticker) -> StickerFormat {
    if sticker.is_animated {
        StickerFormat::Animated
    } else if sticker.is_video {
        StickerFormat::Video
    } else {
        StickerFormat::Static
    }
}

/// Whether `input` is `sticker` made ready for a pack: the same file, the
/// sticker's own format, and its emoji, if it has one, as the only entry of
/// the emoji list.
pub open spec fn is_input_of(input: InputSticker, sticker: Sticker) -> bool {
    &&& input.file_id@ == sticker.file_id@
    &&& input.format == format_of(sticker)
    &&& match sticker.emoji {
        Some(emoji) => input.emoji_list@.len() == 1 && input.emoji_list@[0]@ == emoji@,
        None => input.emoji_list@.len() == 0,
    }
}

impl StickerFormat {
    pub fn as_str(&self) -> (text: &'static str)
        ensures
            text@ == format_text(*self),
    {
        match self {
            StickerFormat::Static => "static",
            StickerFormat::Animated => "animated",
            StickerFormat::Video => "video",
        }
    }
}

impl Sticker {
    /// The format in which the sticker's file is stored.
    pub fn format(&self) -> (format: StickerFormat)
        ensures
            format == format_of(*self),
    {
        if self.is_animated {
            StickerFormat::Animated
        } else if self.is_video {
            StickerFormat::Video
        } else {
            StickerFormat::Static
        }
    }

    /// The sticker made ready to be put into a pack.
    pub fn to_input(&self) -> (input: InputSticker)
        ensures
            is_input_of(input, *self),
    {
        let mut emoji_list: Vec<String> = Vec::new();
        match &self.emoji {
            Some(emoji) => {
                emoji_list.push(emoji.clone());
            },
            None => {},
        }
        InputSticker { file_id: self.file_id.clone(), format: self.format(), emoji_list }
    }
}

/// Whether two optional texts read the same.
pub open spec fn same_text(a: Option<String>, b: Option<String>) -> bool {
    match (a, b) {
        (Some(x), Some(y)) => x@ == y@,
        (None, None) => true,
        _ => false,
    }
}

} // verus!
