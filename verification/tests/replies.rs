use steal_stickers_bot::bot_commands::handlers::common::Reply;

#[test]
fn replies_read_as_written() {
    assert_eq!(
        Reply::Stealing { title: "T".to_owned() }.text(),
        "Stealing sticker pack with name `T` for you..\n(stealing sticker packs \
        containing more than 50 stickers can take up to a several minutes due to some internal limitations)"
    );
    assert_eq!(
        Reply::PackCapacity { length: 118, remaining: 2 }.text(),
        "Total length of this sticker pack = 118. This means you can add a maximum of 2 stickers, \
        otherwise you will get error because the maximum size of a sticker pack in current time = 120 stickers."
    );
    assert_eq!(
        Reply::PackFull.text(),
        "Sorry, but this sticker pack contains 120 stickers! :(\n\
        You cant add more stickers, because the maximum size of a sticker pack in current time = 120 \
        stickers. Try send another pack(or delete some stickers from this sticker pack)."
    );
    assert_eq!(
        Reply::LimitReached.text(),
        "Please, use command /done to add stickers (or /cancel if for some reason you change your \
        mind about adding them), because the sum of the current stickers in the sticker pack \
        and the stickers you want to add to it has reached 120! All next stickers (if you continue sending) \
        will be ignored!"
    );
    assert_eq!(
        Reply::NotOwner.text(),
        "You are not the owner of this sticker pack! Please, send <b>your stolen</b> sticker pack \
        or steal this sticker pack using command /stealpack."
    );
    assert_eq!(
        Reply::NotStolenByThisBot.text(),
        "This sticker pack wasnt stolen by this bot, which means i cant add stickers to it according to Telegram rules! \
        Please, send <b>your stolen</b> sticker pack or steal this sticker pack using command /stealpack."
    );
    assert_eq!(
        Reply::SendYourStolenPack.text(),
        "Send me <b>your stolen</b> sticker pack, in which you want to add stickers. You can see all your \
        stolen stickers, using command /mystickers (if you don't have the sticker packs stolen by this bot, first use the command /stealpack)."
    );
    assert_eq!(
        Reply::NotAllAdded.text(),
        "Error occurded while adding stickers, <b>but some stickers was added</b>! Due to an error, not all stickers have been added :("
    );
    assert_eq!(
        Reply::StickersAdded { title: "Mine".to_owned(), name: "mine_by_bot".to_owned() }.text(),
        "This sticker(s) was added into <a href=\"t.me/addstickers/mine_by_bot\">Mine</a>!"
    );
    assert_eq!(
        Reply::Source.text(),
        "Source code of the bot <a href=\"github.com/neocim/steal_stickers_bot\">here!</a>"
    );
    assert_eq!(
        Reply::PartlyStolen {
            title: "New".to_owned(),
            name: "new_by_bot".to_owned(),
            link: "t.me/addstickers/new_by_bot".to_owned(),
            original_title: "Old".to_owned(),
            original_link: "t.me/addstickers/old".to_owned(),
        }
        .text(),
        "Error occurded while creating new sticker pack <a href=\"t.me/addstickers/new_by_bot\">New</a> \
        (original <a href=\"t.me/addstickers/old\">Old</a>), <b>but sticker pack was created</b>! \n\
        Due to an error, not all stickers have been stolen :( \
        (you can delete this sticker pack if you want using the /delpack command in official Telegram bot @Stickers. \
        Name of this sticker pack: <code>new_by_bot</code>)"
    );
    assert!(Reply::Stolen {
        title: "New".to_owned(),
        name: "new_by_bot".to_owned(),
        link: "l".to_owned(),
        original_title: "Old".to_owned(),
        original_link: "o".to_owned(),
    }
    .text()
    .contains("<a href=\"l\">New</a>! You can add"));
    assert!(Reply::Start { first_name: "Ann".to_owned() }.text().starts_with("\n    Hello, Ann!"));
    assert_eq!(Reply::LastCommandCanceled.text(), "Last command was canceled.");
    assert_eq!(Reply::SendSticker.text(), "Please, send me a sticker.");
    assert_eq!(
        Reply::AddingStickers.text(),
        "Done! Trying to add that sticker(s) to your sticker pack..\n\
        (if you have sent a lot of stickers, it may take up to a few minutes to add them)"
    );
    assert_eq!(
        Reply::PacksPage { text: "page".to_owned(), buttons: Vec::new() }.text(),
        "page"
    );
    assert!(Reply::NoStolenPacks.text().starts_with("You don't have a single stolen sticker pack."));
}

#[test]
fn html_is_asked_for_where_it_is_written() {
    assert!(Reply::Source.is_html());
    assert!(Reply::NotOwner.is_html());
    assert!(Reply::NotAllAdded.is_html());
    assert!(Reply::PacksPage { text: String::new(), buttons: Vec::new() }.is_html());
    assert!(!Reply::PackFull.is_html());
    assert!(!Reply::Start { first_name: String::new() }.is_html());
    assert!(!Reply::Stealing { title: String::new() }.is_html());
    for reply in [
        Reply::Source,
        Reply::NotOwner,
        Reply::NotStolenByThisBot,
        Reply::SendYourStolenPack,
        Reply::NotAllAdded,
        Reply::PackFull,
        Reply::CreateFailed,
        Reply::EnterNewTitle,
    ] {
        assert_eq!(reply.is_html(), reply.text().contains('<'));
    }
}
