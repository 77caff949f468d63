use oleg::db::{caption_needs_write, cached_caption, function_row, function_row_from_check, record_message, DBMessage, MessageExt, MessageInfo};

fn info(text: Option<&str>, caption: Option<&str>, photo: Option<&str>) -> MessageInfo {
    MessageInfo {
        chat_id: -100,
        msg_id: 7,
        sender_id: Some(55),
        sender_name: Some("Ann Lee".to_owned()),
        reply_id: Some(3),
        photo_file_id: photo.map(|s| s.to_owned()),
        text: text.map(|s| s.to_owned()),
        caption: caption.map(|s| s.to_owned()),
    }
}

#[test]
fn text_or_caption_prefers_text() {
    assert_eq!(info(Some("t"), Some("c"), None).text_or_caption(), Some("t"));
    assert_eq!(info(None, Some("c"), None).text_or_caption(), Some("c"));
    assert_eq!(info(None, None, None).text_or_caption(), None);
}

#[test]
fn record_message_copies_fields() {
    let m = record_message("sd_q", &info(None, Some("a cat"), Some("FILE1")));
    assert_eq!(m.chat_id, -100);
    assert_eq!(m.msg_id, 7);
    assert_eq!(m.cause, "sd_q");
    assert_eq!(m.sender_id, Some(55));
    assert_eq!(m.reply_id, Some(3));
    assert_eq!(m.file_id.as_deref(), Some("FILE1"));
    assert_eq!(m.sender.as_deref(), Some("Ann Lee"));
    assert_eq!(m.text.as_deref(), Some("a cat"));
    assert!(m.function_req.is_none() && m.function_res.is_none());
}

#[test]
fn captions_are_written_once() {
    assert!(caption_needs_write(&Err(())));
    assert!(caption_needs_write(&Ok(None)));
    assert!(!caption_needs_write(&Ok(Some("a dog".to_owned()))));
    assert_eq!(cached_caption(Ok(Some("a dog".to_owned()))), Some("a dog".to_owned()));
    assert_eq!(cached_caption(Ok(None)), None);
    assert_eq!(cached_caption(Err(())), None);
}

fn cause_of(m: &Option<DBMessage>) -> Option<String> {
    m.as_ref().map(|m| m.cause.clone())
}

#[test]
fn function_rows_by_name_pattern() {
    let req = function_row(1, 2, "get_time", Some("{}".to_owned()), None);
    assert_eq!(cause_of(&req), Some("oleg_a".to_owned()));
    let req = req.unwrap();
    assert_eq!(req.function_req.as_ref().map(|f| (f.name.clone(), f.args.clone())), Some(("get_time".to_owned(), "{}".to_owned())));
    assert!(req.function_res.is_none());

    let res = function_row(1, 2, "search-web_2", None, Some("result".to_owned()));
    assert_eq!(cause_of(&res), Some("oleg_f".to_owned()));
    assert_eq!(res.unwrap().function_res.map(|f| (f.name, f.res)), Some(("search-web_2".to_owned(), "result".to_owned())));

    assert!(function_row(1, 2, "bad name", None, None).is_none());
    assert!(function_row(1, 2, "", None, None).is_none());
    assert!(function_row(1, 2, &"a".repeat(65), None, None).is_none());
    assert!(function_row(1, 2, &"a".repeat(64), None, None).is_some());
    assert!(function_row_from_check(false, 1, 2, "x", None, None).is_none());
}
