use oleg::command::{
    continues_dialog, is_oleg_caption, parse_translate, plain_route, rm_target, what_source, CommandParseError,
    PlainRoute, WhatSource,
};
use oleg::db::MessageInfo;
use oleg::fmt::Formatter;
use oleg::services::{
    is_supported_currency, BingSearch, CurrencyExchangeRate, GoogleTranslate, SdDraw, SdDrawError, SdWhat,
    TranslateError, WebPage,
};
use oleg::settings::Settings;

fn settings(list: Vec<i64>, message: Option<&str>) -> Settings {
    Settings {
        bot_token: String::new(),
        oleg_prompt: String::new(),
        oleg_memory_size: 10,
        openai_token: String::new(),
        bing_api_key: String::new(),
        google_service_account_json: String::new(),
        sd_timeout: 60,
        sd_timeout_list: list,
        sd_timeout_message: message.map(|m| Formatter::parse(m).ok().unwrap()),
        sd_url: "http://sd".to_owned(),
    }
}

const SEC: u64 = 1_000_000_000;

#[test]
fn sd_pause_applies_to_listed_chats() {
    let s = settings(vec![5], Some("wait {}s"));
    let mut d = SdDraw::new();
    assert!(d.check_timeout(5, 100 * SEC, &s).is_ok());
    assert_eq!(d.check_timeout(5, 110 * SEC + 1, &s), Err("wait 50s".to_owned()));
    // a refusal does not restart the pause
    assert_eq!(d.check_timeout(5, 159 * SEC, &s), Err("wait 1s".to_owned()));
    assert!(d.check_timeout(5, 160 * SEC, &s).is_ok());
    assert_eq!(d.check_timeout(5, 161 * SEC, &s), Err("wait 59s".to_owned()));
    // other chats are never paused
    assert!(d.check_timeout(6, 100 * SEC, &s).is_ok());
    assert!(d.check_timeout(6, 100 * SEC, &s).is_ok());
    let s2 = settings(vec![5], None);
    assert_eq!(d.check_timeout(5, 162 * SEC, &s2), Err("Stable diffusion timeout message is missing".to_owned()));
}

#[test]
fn sd_requests() {
    assert_eq!(SdDraw::prompt("a cat"), "(masterpiece, best quality), a cat");
    assert_eq!(SdDraw::txt2img_url("http://sd"), "http://sd/sdapi/v1/txt2img");
    assert_eq!(SdDraw::decode_first_image(&vec!["aGk=".to_owned(), "x".to_owned()]).ok(), Some(b"hi".to_vec()));
    assert!(matches!(SdDraw::decode_first_image(&vec![]), Err(SdDrawError::EmptyResponse)));
    assert!(matches!(SdDraw::decode_first_image(&vec!["!!".to_owned()]), Err(SdDrawError::InvalidBase64(_))));
    assert_eq!(SdWhat::interrogate_url("http://sd"), "http://sd/sdapi/v1/interrogate");
    let body = SdWhat::request_for_image(&b"hi".to_vec());
    assert_eq!(body.model, "clip");
    assert_eq!(body.image, "data:image/png;base64,aGk=");
    for (bytes, encoded) in [(&b""[..], ""), (b"f", "Zg=="), (b"fo", "Zm8="), (b"foo", "Zm9v"), (b"foob", "Zm9vYg=="), (&[0xff, 0xfe, 0x3e][..], "//4+")] {
        assert_eq!(SdWhat::request_for_image(&bytes.to_vec()).image, format!("data:image/png;base64,{encoded}"));
    }
    assert_eq!(SdWhat::file_id(None).err().map(|e| e.message()), Some("No photo to interrogate"));
    assert_eq!(SdWhat::file_id(Some("F".to_owned())).ok(), Some("F".to_owned()));
}

#[test]
fn currencies() {
    for c in ["USD", "EUR", "UAH", "RUB", "CNY"] {
        assert!(is_supported_currency(c));
    }
    assert!(!is_supported_currency("GBP"));
    assert!(!is_supported_currency("usd"));
    let p = CurrencyExchangeRate::query_params("EUR");
    assert_eq!(p, vec![("base".to_owned(), "EUR".to_owned())]);
}

#[test]
fn search_results() {
    let page = |u: &str| WebPage { url: u.to_owned(), snippet: None };
    let top = BingSearch::top_pages(vec![page("a"), page("b"), page("c"), page("d")]).unwrap();
    assert_eq!(top.iter().map(|p| p.url.as_str()).collect::<Vec<_>>(), vec!["a", "b", "c"]);
    assert!(BingSearch::top_pages(vec![page("a"), page("b")]).is_none());
    let with_snippet = WebPage { url: "u\"1".to_owned(), snippet: Some("s\n".to_owned()) };
    assert_eq!(
        BingSearch::result_text(vec![with_snippet, page("b"), page("c"), page("d")]).as_deref(),
        Some("[{\"url\":\"u\\\"1\",\"snippet\":\"s\\n\"},{\"url\":\"b\",\"snippet\":null},{\"url\":\"c\",\"snippet\":null}]")
    );
    assert!(BingSearch::result_text(vec![page("a")]).is_none());
    let odd = WebPage { url: "\u{1}\t\\/é\u{7f}".to_owned(), snippet: None };
    let text = BingSearch::result_text(vec![odd, page("b"), page("c")]).unwrap();
    assert!(text.starts_with("[{\"url\":\"\\u0001\\t\\\\/é\u{7f}\",\"snippet\":null}"), "{}", text);
    assert_eq!(BingSearch::query_params("rust")[0], ("q".to_owned(), "rust".to_owned()));
}

#[test]
fn translations() {
    let r = GoogleTranslate::request("en", "hola", "proj");
    assert_eq!(r.parent, "projects/proj");
    assert_eq!(r.contents, vec!["hola".to_owned()]);
    assert_eq!(r.target_language_code, "en");
    assert_eq!(GoogleTranslate::pick_translation(None), Err(TranslateError::OutputEmpty));
    assert_eq!(GoogleTranslate::pick_translation(Some(vec![])), Err(TranslateError::NoTranslations));
    assert_eq!(GoogleTranslate::pick_translation(Some(vec![None, Some("x".to_owned())])), Err(TranslateError::NoText));
    assert_eq!(GoogleTranslate::pick_translation(Some(vec![Some("hi".to_owned()), None])), Ok("hi".to_owned()));
    assert_eq!(TranslateError::NoText.message(), "no text was translated");
}

#[test]
fn translate_arguments() {
    match parse_translate("de good morning".to_owned()) {
        Ok((l, t)) => assert_eq!((l.as_str(), t.as_str()), ("de", "good morning")),
        Err(_) => panic!(),
    }
    match parse_translate("de".to_owned()) {
        Err(CommandParseError::TooFewArguments { expected, found, message }) => {
            assert_eq!((expected, found, message.as_str()), (2, 1, ""))
        }
        Ok(_) => panic!(),
    }
}

fn info(reply: Option<i32>, text: Option<&str>, caption: Option<&str>) -> MessageInfo {
    MessageInfo {
        chat_id: 4,
        msg_id: 9,
        sender_id: None,
        sender_name: None,
        reply_id: reply,
        photo_file_id: None,
        text: text.map(|s| s.to_owned()),
        caption: caption.map(|s| s.to_owned()),
    }
}

#[test]
fn plain_messages() {
    assert!(is_oleg_caption("/oleg"));
    assert!(is_oleg_caption("/oleg what"));
    assert!(is_oleg_caption("/oleg\u{3000}what"));
    assert!(!is_oleg_caption("/olegwhat"));
    assert!(!is_oleg_caption("/ole"));
    assert!(matches!(plain_route(&info(Some(3), Some("hi"), None)), PlainRoute::LookUpReply { chat_id: 4, msg_id: 3 }));
    assert!(matches!(plain_route(&info(Some(3), None, None)), PlainRoute::LookUpReply { .. }));
    assert!(matches!(plain_route(&info(Some(3), Some("/quote"), None)), PlainRoute::Store));
    assert!(matches!(plain_route(&info(Some(3), None, Some("/oleg hi"))), PlainRoute::LookUpReply { .. }));
    assert!(matches!(plain_route(&info(None, None, Some("/oleg hi"))), PlainRoute::Oleg));
    assert!(matches!(plain_route(&info(None, Some("/oleg hi"), None)), PlainRoute::Store));
    assert!(continues_dialog(Some("oleg_a")));
    assert!(!continues_dialog(Some("sd_q")));
    assert!(!continues_dialog(None));
    assert_eq!(what_source(true, true), WhatSource::Message);
    assert_eq!(what_source(false, true), WhatSource::Reply);
    assert_eq!(what_source(false, false), WhatSource::Message);
    assert_eq!(rm_target(true), WhatSource::Reply);
    assert_eq!(rm_target(false), WhatSource::Message);
}
