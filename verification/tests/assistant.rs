use oleg::db::{DBMessage, FunctionReq, FunctionRes};
use oleg::oleg::{
    build_conversation, chat_message, CallArgs, completion_error_text, completion_step, function_outcome, reply_text,
    role_for_cause, ChatRole, CompletionStep, FunctionCallReq, LoopAction, OlegFunction, OlegLoop, TurnEvent,
    TurnOutcome, MAX_TURNS, turn_event,
};
use oleg::oleg_command::{function_descs, outcome_text, Ban, Draw, GetTime, INVALID_TIMEZONE, TRANSLATE_FAILED};

fn msg(cause: &str, sender: Option<&str>, text: Option<&str>) -> DBMessage {
    DBMessage {
        chat_id: 1,
        msg_id: 1,
        cause: cause.to_owned(),
        sender_id: None,
        reply_id: None,
        file_id: None,
        function_req: None,
        function_res: None,
        sender: sender.map(|s| s.to_owned()),
        text: text.map(|s| s.to_owned()),
    }
}

#[test]
fn roles_by_cause() {
    assert_eq!(role_for_cause("oleg_a"), ChatRole::Assistant);
    assert_eq!(role_for_cause("oleg_f"), ChatRole::Function);
    assert_eq!(role_for_cause("sd_q"), ChatRole::User);
    assert_eq!(role_for_cause(""), ChatRole::User);
}

#[test]
fn user_messages_name_their_sender() {
    let c = chat_message(&msg("", Some("Ann"), Some("/oleg   what is this  ")));
    assert_eq!(c.role, ChatRole::User);
    assert_eq!(c.content.as_deref(), Some("Ann: what is this"));
    let c = chat_message(&msg("oleg_q", Some("Bob"), Some(" hello ")));
    assert_eq!(c.content.as_deref(), Some("Bob:  hello "));
    assert!(c.name.is_none() && c.function_call.is_none());
}

#[test]
fn function_messages() {
    let mut a = msg("oleg_a", None, None);
    a.function_req = Some(FunctionReq { name: "search".to_owned(), args: "{\"query\":\"x\"}".to_owned() });
    let c = chat_message(&a);
    assert_eq!(c.role, ChatRole::Assistant);
    assert!(c.content.is_none());
    assert_eq!(c.name.as_deref(), Some("search"));
    let call = c.function_call.unwrap();
    assert_eq!((call.name.as_str(), call.arguments.as_str()), ("search", "{\"query\":\"x\"}"));

    let mut f = msg("oleg_f", None, None);
    f.function_res = Some(FunctionRes { name: "search".to_owned(), res: "found".to_owned() });
    let c = chat_message(&f);
    assert_eq!(c.role, ChatRole::Function);
    assert_eq!(c.content.as_deref(), Some("found"));
    assert_eq!(c.name.as_deref(), Some("search"));
}

#[test]
fn conversation_starts_with_prompt() {
    let thread = vec![msg("", Some("Ann"), Some("hi")), msg("oleg_a", None, Some("hello"))];
    let conv = build_conversation("be nice", &thread).unwrap();
    assert_eq!(conv.len(), 3);
    assert_eq!(conv[0].role, ChatRole::System);
    assert_eq!(conv[0].content.as_deref(), Some("be nice"));
    assert_eq!(conv[1].content.as_deref(), Some("Ann: hi"));
    assert_eq!(conv[2].role, ChatRole::Assistant);
    assert_eq!(conv[2].content.as_deref(), Some("hello"));
    assert!(build_conversation("p", &vec![msg("", None, Some("anonymous"))]).is_none());
    assert!(build_conversation("p", &vec![msg("", None, None)]).is_some());
}

#[test]
fn completions() {
    match completion_step(Some("Cat.\n###ID###\n{\"file_id\":1}".to_owned()), None) {
        CompletionStep::Reply(t) => assert_eq!(t, "Cat.\n"),
        _ => panic!("expected a reply"),
    }
    assert_eq!(reply_text("plain"), "plain");
    let call = FunctionCallReq { name: "ban".to_owned(), arguments: "{}".to_owned() };
    match completion_step(None, Some(call)) {
        CompletionStep::Call(f) => assert_eq!(f.name, "ban"),
        _ => panic!("expected a call"),
    }
    match completion_step(None, None) {
        CompletionStep::Fail(e) => assert_eq!(e, "Empty response"),
        _ => panic!("expected a failure"),
    }
    assert_eq!(completion_error_text("timeout"), "Completion error:\ntimeout");
}

#[test]
fn function_calls_read_json_arguments() {
    match OlegFunction::from_call("get_time", "{\"offset_hours\": 3, \"offset_minutes\": -30}") {
        OlegFunction::GetTime { offset_h, offset_m } => assert_eq!((offset_h, offset_m), (3, -30)),
        _ => panic!(),
    }
    match OlegFunction::from_call("get_time", "not json") {
        OlegFunction::GetTime { offset_h, offset_m } => assert_eq!((offset_h, offset_m), (0, 0)),
        _ => panic!(),
    }
    match OlegFunction::from_call("get_time", "{\"offset_hours\": 4294967298}") {
        OlegFunction::GetTime { offset_h, .. } => assert_eq!(offset_h, 4294967298i64 as i32),
        _ => panic!(),
    }
    match OlegFunction::from_call("draw", "{\"description\": \"a cat\", \"nsfw\": true}") {
        OlegFunction::Draw { description, nsfw } => assert_eq!((description.as_str(), nsfw), ("a cat", true)),
        _ => panic!(),
    }
    match OlegFunction::from_call("draw", "{\"description\": 5, \"nsfw\": \"yes\"}") {
        OlegFunction::Draw { description, nsfw } => assert_eq!((description.as_str(), nsfw), ("", false)),
        _ => panic!(),
    }
    match OlegFunction::from_call("translate", "{\"text\": \"hola\", \"to_language\": \"en\"}") {
        OlegFunction::Translate { to_language, text } => assert_eq!((to_language.as_str(), text.as_str()), ("en", "hola")),
        _ => panic!(),
    }
    match OlegFunction::from_call("recognize", "{\"file_id\": \"F\"}") {
        OlegFunction::Recognize { file_id } => assert_eq!(file_id, "F"),
        _ => panic!(),
    }
    match OlegFunction::from_call("search", "{\"query\": \"rust\"}") {
        OlegFunction::Search { query } => assert_eq!(query, "rust"),
        _ => panic!(),
    }
    match OlegFunction::from_call("exchange_rates", "[1,2]") {
        OlegFunction::ExchangeRates { base } => assert_eq!(base, ""),
        _ => panic!(),
    }
    assert!(matches!(OlegFunction::from_call("ban", ""), OlegFunction::Ban));
    assert!(matches!(OlegFunction::from_call("fly", "{}"), OlegFunction::Unknown));
}

#[test]
fn function_outcomes() {
    assert!(matches!(function_outcome(Some(1), Some("r".to_owned())), TurnOutcome::FunctionResult(r) if r == "r"));
    assert!(matches!(function_outcome(Some(1), None), TurnOutcome::Answer(Some(1))));
    assert!(matches!(function_outcome::<i32>(None, None), TurnOutcome::Answer(None)));
    assert!(matches!(turn_event(TurnOutcome::Answer(Some(2))), TurnEvent::Answered(2)));
    assert!(matches!(turn_event::<i32>(TurnOutcome::Answer(None)), TurnEvent::Continue));
    assert!(matches!(turn_event::<i32>(TurnOutcome::FunctionResult("r".to_owned())), TurnEvent::Continue));
}

#[test]
fn loop_asks_at_most_five_times() {
    let (mut l, first) = OlegLoop::start();
    assert!(matches!(first, LoopAction::Ask));
    let mut asks = 1;
    loop {
        match l.next::<u8>(TurnEvent::Continue) {
            LoopAction::Ask => asks += 1,
            LoopAction::Finish(None) => break,
            _ => panic!(),
        }
    }
    assert_eq!(asks, MAX_TURNS);
    let (mut l, _) = OlegLoop::start();
    assert!(matches!(l.next(TurnEvent::Answered(3)), LoopAction::Finish(Some(3))));
    assert!(matches!(l.next::<u8>(TurnEvent::Failed("e".to_owned())), LoopAction::ReportError(e) if e == "e"));
}

#[test]
fn descriptions() {
    let all = function_descs();
    let names: Vec<&str> = all.iter().map(|d| d.name.as_str()).collect();
    assert_eq!(names, vec!["get_time", "translate", "draw", "recognize", "search", "exchange_rates"]);
    let d = Draw::desc();
    assert_eq!(d.params[1].note_key, "nsfw");
    assert_eq!(d.required, vec!["description".to_owned(), "nsfw".to_owned()]);
    assert_eq!(Ban::desc().description, "Restrict user for bad behaviour");
    assert!(Ban::desc().params.is_empty());
    assert_eq!(Ban::reply_text(), "/ban");
}

#[test]
fn outcomes_and_time_offsets() {
    assert_eq!(outcome_text(Ok("hi".to_owned()), TRANSLATE_FAILED), "hi");
    assert_eq!(outcome_text(Err("boom".to_owned()), TRANSLATE_FAILED), "Failed to translate:\nboom");
    assert_eq!(GetTime::offset_secs(3, 30), Some(3 * 3600 + 30 * 60));
    assert_eq!(GetTime::offset_secs(-23, -59), Some(-(23 * 3600 + 59 * 60)));
    assert_eq!(GetTime::offset_secs(24, 0), None);
    assert_eq!(GetTime::offset_secs(i32::MAX, 0), None);
    assert_eq!(GetTime::answer(3, 30, 0).as_deref(), Some("{\"date\":\"1970-01-01\",\"time\":\"03:30:00\"}"));
    assert_eq!(GetTime::answer(-1, 0, 1_700_000_000).as_deref(), Some("{\"date\":\"2023-11-14\",\"time\":\"21:13:20\"}"));
    assert_eq!(GetTime::answer(24, 0, 0).as_deref(), Some("Invalid timezone"));
    assert_eq!(GetTime::answer(0, 0, i64::MAX), None);
    assert_eq!(INVALID_TIMEZONE, "Invalid timezone");
}

#[test]
fn call_arguments_are_read_then_dispatched() {
    let args = CallArgs::read("{\"query\": \"q\", \"offset_hours\": -2, \"nsfw\": false, \"base\": 3}");
    assert_eq!(args.query.as_deref(), Some("q"));
    assert_eq!(args.offset_hours, Some(-2));
    assert_eq!(args.nsfw, Some(false));
    assert_eq!(args.base, None);
    assert_eq!(args.text, None);
    let none = CallArgs {
        offset_hours: None,
        offset_minutes: Some(15),
        to_language: None,
        text: None,
        description: None,
        nsfw: None,
        file_id: None,
        query: None,
        base: Some("USD".to_owned()),
    };
    match OlegFunction::from_args("exchange_rates", none) {
        OlegFunction::ExchangeRates { base } => assert_eq!(base, "USD"),
        _ => panic!(),
    }
    let args = CallArgs::read("{}");
    assert!(matches!(OlegFunction::from_args("get_time", args), OlegFunction::GetTime { offset_h: 0, offset_m: 0 }));
}
