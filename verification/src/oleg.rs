//! The assistant: the conversation it is shown, what its completions lead to, the functions
//! it may call, and how many times it is asked for one message.

use vstd::prelude::*;
use crate::db::{opt_view, DBMessage, MessageRecord};
use crate::text::{concat, equals, split_once, split_once_spec, strip_prefix, trim, trimmed, has_prefix};
use crate::thread::BOT_COMMAND_PREFIX;

verus! {

/// Who speaks in a conversation with the assistant.
#[derive(Debug, Clone, Copy, PartialEq, Eq, Structural)]
pub enum ChatRole {
    System,
    User,
    Assistant,
    Function,
}

/// A function call that the assistant asks for.
pub struct FunctionCallReq {
    pub name: String,
    pub arguments: String,
}

/// One message of a conversation with the assistant.
pub struct ChatMessage {
    pub role: ChatRole,
    pub content: Option<String>,
    pub name: Option<String>,
    pub function_call: Option<FunctionCallReq>,
}

/// A conversation message as values.
pub struct ChatView {
    pub role: ChatRole,
    pub content: Option<Seq<char>>,
    pub name: Option<Seq<char>>,
    /// Function name and arguments.
    pub function_call: Option<(Seq<char>, Seq<char>)>,
}

impl View for ChatMessage {
    type V = ChatView;

    open spec fn view(&self) -> ChatView {
        ChatView {
            role: self.role,
            content: opt_view(self.content),
            name: opt_view(self.name),
            function_call: match self.function_call {
                Some(f) => Some((f.name@, f.arguments@)),
                None => None,
            },
        }
    }
}

/// The role of a stored message: the assistant's answers (`oleg_a`), function results
/// (`oleg_f`), and everything else the users'.
pub open spec fn role_spec(cause: Seq<char>) -> ChatRole {
    if cause == "oleg_a"@ {
        ChatRole::Assistant
    } else if cause == "oleg_f"@ {
        ChatRole::Function
    } else {
        ChatRole::User
    }
}

/// The role of a stored message (see [`role_spec`]).
pub fn role_for_cause(cause: &str) -> (res: ChatRole)
    ensures
        res == role_spec(cause@),
{
    if equals(cause, "oleg_a") {
        ChatRole::Assistant
    } else if equals(cause, "oleg_f") {
        ChatRole::Function
    } else {
        ChatRole::User
    }
}

/// What a user's message says to the assistant: a command loses its command word and the
/// white space around the rest; any other text stays as it is.
pub open spec fn user_words(text: Seq<char>) -> Seq<char> {
    if has_prefix(text, BOT_COMMAND_PREFIX@) {
        trimmed(text.subrange(BOT_COMMAND_PREFIX@.len() as int, text.len() as int))
    } else {
        text
    }
}

/// A stored message can be shown to the assistant: a user's message with text names its sender.
pub open spec fn showable(r: MessageRecord) -> bool {
    role_spec(r.cause) == ChatRole::User && r.text is Some ==> r.sender is Some
}

/// How a stored message is shown to the assistant.
pub open spec fn chat_view_of(r: MessageRecord) -> ChatView {
    let role = role_spec(r.cause);
    ChatView {
        role,
        content: match role {
            ChatRole::User => match r.text {
                Some(t) => Some(r.sender->0 + ": "@ + user_words(t)),
                None => None,
            },
            ChatRole::Function => match r.function_res {
                Some(f) => Some(f.1),
                None => None,
            },
            _ => r.text,
        },
        name: match r.function_req {
            Some(f) => Some(f.0),
            None => match r.function_res {
                Some(f) => Some(f.0),
                None => None,
            },
        },
        function_call: r.function_req,
    }
}

/// Shows a stored message to the assistant (see [`chat_view_of`]).
pub fn chat_message(m: &DBMessage) -> (res: ChatMessage)
    requires
        showable(m@),
    ensures
        res@ == chat_view_of(m@),
{
    let role = role_for_cause(m.cause.as_str());
    let content = match role {
        ChatRole::User => match &m.text {
            Some(t) => {
                let words = match strip_prefix(t.as_str(), BOT_COMMAND_PREFIX) {
                    Some(rest) => trim(rest.as_str()),
                    None => t.clone(),
                };
                let sender = match &m.sender {
                    Some(s) => s.clone(),
                    None => String::new(),
                };
                let head = concat(sender.as_str(), ": ");
                Some(concat(head.as_str(), words.as_str()))
            },
            None => None,
        },
        ChatRole::Function => match &m.function_res {
            Some(f) => Some(f.res.clone()),
            None => None,
        },
        _ => crate::db::clone_opt(&m.text),
    };
    let name = match &m.function_req {
        Some(f) => Some(f.name.clone()),
        None => match &m.function_res {
            Some(f) => Some(f.name.clone()),
            None => None,
        },
    };
    let function_call = match &m.function_req {
        Some(f) => Some(FunctionCallReq { name: f.name.clone(), arguments: f.args.clone() }),
        None => None,
    };
    ChatMessage { role, content, name, function_call }
}

/// Whether a stored message can be shown (see [`showable`]).
pub fn is_showable(m: &DBMessage) -> (res: bool)
    ensures
        res == showable(m@),
{
    let role = role_for_cause(m.cause.as_str());
    !(matches!(role, ChatRole::User) && m.text.is_some()) || m.sender.is_some()
}

/// The conversation shown to the assistant: the system prompt, then the thread.
pub open spec fn conversation_spec(prompt: Seq<char>, thread: Seq<MessageRecord>) -> Seq<ChatView> {
    seq![ChatView { role: ChatRole::System, content: Some(prompt), name: None, function_call: None }]
        + thread.map_values(|r: MessageRecord| chat_view_of(r))
}

/// Builds the conversation shown to the assistant from its prompt and a thread, oldest first;
/// `None` when a user's message in the thread has text but no sender.
pub fn build_conversation(prompt: &str, thread: &Vec<DBMessage>) -> (res: Option<Vec<ChatMessage>>)
    ensures
        match res {
            Some(v) => (forall|i: int| 0 <= i < thread@.len() ==> showable(#[trigger] thread@[i]@))
                && v@.map_values(|c: ChatMessage| c@) == conversation_spec(
                prompt@,
                thread@.map_values(|m: DBMessage| m@),
            ),
            None => exists|i: int| 0 <= i < thread@.len() && !showable(#[trigger] thread@[i]@),
        },
{
    let mut out: Vec<ChatMessage> = Vec::new();
    out.push(
        ChatMessage { role: ChatRole::System, content: Some(prompt.to_owned()), name: None, function_call: None },
    );
    let ghost records = thread@.map_values(|m: DBMessage| m@);
    let mut i: usize = 0;
    while i < thread.len()
        invariant
            i <= thread.len(),
            records == thread@.map_values(|m: DBMessage| m@),
            forall|j: int| 0 <= j < i ==> showable(#[trigger] thread@[j]@),
            out@.map_values(|c: ChatMessage| c@) == conversation_spec(
                prompt@,
                records.subrange(0, i as int),
            ),
        decreases thread.len() - i,
    {
        if !is_showable(&thread[i]) {
            return None;
        }
        let c = chat_message(&thread[i]);
        let ghost before = out@.map_values(|c: ChatMessage| c@);
        out.push(c);
        proof {
            assert(records.subrange(0, i + 1) =~= records.subrange(0, i as int).push(thread@[i as int]@));
            assert(out@.map_values(|c: ChatMessage| c@) =~= before.push(chat_view_of(thread@[i as int]@)));
            assert(conversation_spec(prompt@, records.subrange(0, i + 1)) =~= conversation_spec(
                prompt@,
                records.subrange(0, i as int),
            ).push(chat_view_of(thread@[i as int]@)));
        }
        i = i + 1;
    }
    proof {
        assert(records.subrange(0, i as int) =~= records);
    }
    Some(out)
}

/// The marker after which the assistant's text carries ids not meant for the chat.
pub open spec fn id_marker() -> Seq<char> {
    "###ID###"@
}

/// What a completion leads to.
pub enum CompletionStep {
    /// Send this text to the chat.
    Reply(String),
    /// Call this function.
    Call(FunctionCallReq),
    /// Report this error.
    Fail(String),
}

/// The part of the assistant's text that is sent: what stands before the first `###ID###`.
pub open spec fn reply_text_spec(text: Seq<char>) -> Seq<char> {
    match split_once_spec(text, id_marker()) {
        Some((before, _)) => before,
        None => text,
    }
}

/// The part of the assistant's text that is sent (see [`reply_text_spec`]).
pub fn reply_text(text: &str) -> (res: String)
    ensures
        res@ == reply_text_spec(text@),
{
    match split_once(text, "###ID###") {
        Some((before, _)) => before,
        None => text.to_owned(),
    }
}

/// What the assistant's answer leads to: its text is sent when it has one; else the function
/// it asks for is called; else the answer is an error.
pub fn completion_step(content: Option<String>, function_call: Option<FunctionCallReq>) -> (res: CompletionStep)
    ensures
        match content {
            Some(t) => res matches CompletionStep::Reply(r) && r@ == reply_text_spec(t@),
            None => match function_call {
                Some(f) => res matches CompletionStep::Call(g) && g.name@ == f.name@ && g.arguments@
                    == f.arguments@,
                None => res matches CompletionStep::Fail(e) && e@ == "Empty response"@,
            },
        },
{
    match content {
        Some(t) => CompletionStep::Reply(reply_text(t.as_str())),
        None => match function_call {
            Some(f) => CompletionStep::Call(f),
            None => CompletionStep::Fail("Empty response".to_owned()),
        },
    }
}

/// The error text when the completion request itself failed.
pub fn completion_error_text(err: &str) -> (res: String)
    ensures
        res@ == "Completion error:\n"@ + err@,
{
    concat("Completion error:\n", err)
}

/// What `serde_json` finds for `key` in the JSON object `json`, when it is a string; `None`
/// when the text is not JSON, not an object, or the member is missing or not a string.
pub uninterp spec fn json_member_str(json: Seq<char>, key: Seq<char>) -> Option<Seq<char>>;

/// As [`json_member_str`], for a member that is an integer representable as `i64`.
pub uninterp spec fn json_member_i64(json: Seq<char>, key: Seq<char>) -> Option<i64>;

/// As [`json_member_str`], for a member that is a boolean.
pub uninterp spec fn json_member_bool(json: Seq<char>, key: Seq<char>) -> Option<bool>;

/// Parses `json` with `serde_json::from_str` into a `serde_json::Value` and reads the string
/// member `key` of the object. The contract says only that the answer is a function of the two
/// strings.
#[verifier::external_body]
fn json_str_arg(json: &str, key: &str) -> (res: Option<String>)
    ensures
        opt_view(res) == json_member_str(json@, key@),
{
    match serde_json::from_str::<serde_json::Value>(json) {
        Ok(serde_json::Value::Object(map)) => match map.get(key) {
            Some(serde_json::Value::String(s)) => Some(s.clone()),
            _ => None,
        },
        _ => None,
    }
}

/// Parses `json` with `serde_json::from_str` and reads the member `key` of the object with
/// `serde_json::Number::as_i64`. The contract says only that the answer is a function of the
/// two strings.
#[verifier::external_body]
fn json_i64_arg(json: &str, key: &str) -> (res: Option<i64>)
    ensures
        res == json_member_i64(json@, key@),
{
    match serde_json::from_str::<serde_json::Value>(json) {
        Ok(serde_json::Value::Object(map)) => match map.get(key) {
            Some(serde_json::Value::Number(n)) => n.as_i64(),
            _ => None,
        },
        _ => None,
    }
}

/// Parses `json` with `serde_json::from_str` and reads the boolean member `key` of the object.
/// The contract says only that the answer is a function of the two strings.
#[verifier::external_body]
fn json_bool_arg(json: &str, key: &str) -> (res: Option<bool>)
    ensures
        res == json_member_bool(json@, key@),
{
    match serde_json::from_str::<serde_json::Value>(json) {
        Ok(serde_json::Value::Object(map)) => match map.get(key) {
            Some(serde_json::Value::Bool(b)) => Some(*b),
            _ => None,
        },
        _ => None,
    }
}

pub open spec fn str_or_empty(o: Option<Seq<char>>) -> Seq<char> {
    match o {
        Some(s) => s,
        None => Seq::<char>::empty(),
    }
}

/// A function that the assistant may call, with its arguments.
pub enum OlegFunction {
    GetTime { offset_h: i32, offset_m: i32 },
    Translate { to_language: String, text: String },
    Draw { description: String, nsfw: bool },
    Ban,
    Recognize { file_id: String },
    Search { query: String },
    ExchangeRates { base: String },
    /// A name that the bot does not know.
    Unknown,
}

/// A function call as values.
pub enum OlegFunctionView {
    GetTime { offset_h: i32, offset_m: i32 },
    Translate { to_language: Seq<char>, text: Seq<char> },
    Draw { description: Seq<char>, nsfw: bool },
    Ban,
    Recognize { file_id: Seq<char> },
    Search { query: Seq<char> },
    ExchangeRates { base: Seq<char> },
    Unknown,
}

impl View for OlegFunction {
    type V = OlegFunctionView;

    open spec fn view(&self) -> OlegFunctionView {
        match self {
            OlegFunction::GetTime { offset_h, offset_m } => OlegFunctionView::GetTime {
                offset_h: *offset_h,
                offset_m: *offset_m,
            },
            OlegFunction::Translate { to_language, text } => OlegFunctionView::Translate {
                to_language: to_language@,
                text: text@,
            },
            OlegFunction::Draw { description, nsfw } => OlegFunctionView::Draw {
                description: description@,
                nsfw: *nsfw,
            },
            OlegFunction::Ban => OlegFunctionView::Ban,
            OlegFunction::Recognize { file_id } => OlegFunctionView::Recognize { file_id: file_id@ },
            OlegFunction::Search { query } => OlegFunctionView::Search { query: query@ },
            OlegFunction::ExchangeRates { base } => OlegFunctionView::ExchangeRates { base: base@ },
            OlegFunction::Unknown => OlegFunctionView::Unknown,
        }
    }
}

/// The arguments a function call may carry, as read from its JSON text; `None` where an
/// argument is missing or of another type.
pub struct CallArgs {
    pub offset_hours: Option<i64>,
    pub offset_minutes: Option<i64>,
    pub to_language: Option<String>,
    pub text: Option<String>,
    pub description: Option<String>,
    pub nsfw: Option<bool>,
    pub file_id: Option<String>,
    pub query: Option<String>,
    pub base: Option<String>,
}

/// The arguments of a call as values.
pub struct CallArgsView {
    pub offset_hours: Option<i64>,
    pub offset_minutes: Option<i64>,
    pub to_language: Option<Seq<char>>,
    pub text: Option<Seq<char>>,
    pub description: Option<Seq<char>>,
    pub nsfw: Option<bool>,
    pub file_id: Option<Seq<char>>,
    pub query: Option<Seq<char>>,
    pub base: Option<Seq<char>>,
}

impl View for CallArgs {
    type V = CallArgsView;

    open spec fn view(&self) -> CallArgsView {
        CallArgsView {
            offset_hours: self.offset_hours,
            offset_minutes: self.offset_minutes,
            to_language: opt_view(self.to_language),
            text: opt_view(self.text),
            description: opt_view(self.description),
            nsfw: self.nsfw,
            file_id: opt_view(self.file_id),
            query: opt_view(self.query),
            base: opt_view(self.base),
        }
    }
}

/// What `serde_json` reads from a call's JSON arguments.
pub open spec fn call_args_of(json: Seq<char>) -> CallArgsView {
    CallArgsView {
        offset_hours: json_member_i64(json, "offset_hours"@),
        offset_minutes: json_member_i64(json, "offset_minutes"@),
        to_language: json_member_str(json, "to_language"@),
        text: json_member_str(json, "text"@),
        description: json_member_str(json, "description"@),
        nsfw: json_member_bool(json, "nsfw"@),
        file_id: json_member_str(json, "file_id"@),
        query: json_member_str(json, "query"@),
        base: json_member_str(json, "base"@),
    }
}

impl CallArgs {
    /// Reads the arguments of a call from its JSON text.
    pub fn read(json: &str) -> (res: CallArgs)
        ensures
            res@ == call_args_of(json@),
    {
        CallArgs {
            offset_hours: json_i64_arg(json, "offset_hours"),
            offset_minutes: json_i64_arg(json, "offset_minutes"),
            to_language: json_str_arg(json, "to_language"),
            text: json_str_arg(json, "text"),
            description: json_str_arg(json, "description"),
            nsfw: json_bool_arg(json, "nsfw"),
            file_id: json_str_arg(json, "file_id"),
            query: json_str_arg(json, "query"),
            base: json_str_arg(json, "base"),
        }
    }
}

/// Which function a call names and what its arguments give, each missing or mistyped argument
/// taken as empty, zero or false; integer offsets are cut to `i32` as `as` does.
pub open spec fn function_spec(name: Seq<char>, args: CallArgsView) -> OlegFunctionView {
    if name == "get_time"@ {
        OlegFunctionView::GetTime {
            offset_h: (match args.offset_hours {
                Some(v) => v,
                None => 0,
            }) as i32,
            offset_m: (match args.offset_minutes {
                Some(v) => v,
                None => 0,
            }) as i32,
        }
    } else if name == "translate"@ {
        OlegFunctionView::Translate {
            to_language: str_or_empty(args.to_language),
            text: str_or_empty(args.text),
        }
    } else if name == "draw"@ {
        OlegFunctionView::Draw {
            description: str_or_empty(args.description),
            nsfw: match args.nsfw {
                Some(b) => b,
                None => false,
            },
        }
    } else if name == "ban"@ {
        OlegFunctionView::Ban
    } else if name == "recognize"@ {
        OlegFunctionView::Recognize { file_id: str_or_empty(args.file_id) }
    } else if name == "search"@ {
        OlegFunctionView::Search { query: str_or_empty(args.query) }
    } else if name == "exchange_rates"@ {
        OlegFunctionView::ExchangeRates { base: str_or_empty(args.base) }
    } else {
        OlegFunctionView::Unknown
    }
}

fn or_empty(o: Option<String>) -> (res: String)
    ensures
        res@ == str_or_empty(opt_view(o)),
{
    match o {
        Some(s) => s,
        None => String::new(),
    }
}

impl OlegFunction {
    /// Which function a call names, with its arguments (see [`function_spec`]).
    pub fn from_args(name: &str, args: CallArgs) -> (res: OlegFunction)
        ensures
            res@ == function_spec(name@, args@),
    {
        if equals(name, "get_time") {
            let h = match args.offset_hours {
                Some(v) => v,
                None => 0,
            };
            let m = match args.offset_minutes {
                Some(v) => v,
                None => 0,
            };
            OlegFunction::GetTime { offset_h: h as i32, offset_m: m as i32 }
        } else if equals(name, "translate") {
            OlegFunction::Translate { to_language: or_empty(args.to_language), text: or_empty(args.text) }
        } else if equals(name, "draw") {
            let nsfw = match args.nsfw {
                Some(b) => b,
                None => false,
            };
            OlegFunction::Draw { description: or_empty(args.description), nsfw }
        } else if equals(name, "ban") {
            OlegFunction::Ban
        } else if equals(name, "recognize") {
            OlegFunction::Recognize { file_id: or_empty(args.file_id) }
        } else if equals(name, "search") {
            OlegFunction::Search { query: or_empty(args.query) }
        } else if equals(name, "exchange_rates") {
            OlegFunction::ExchangeRates { base: or_empty(args.base) }
        } else {
            OlegFunction::Unknown
        }
    }

    /// Reads a function call of the assistant: its name and its JSON arguments.
    pub fn from_call(name: &str, args: &str) -> (res: OlegFunction)
        ensures
            res@ == function_spec(name@, call_args_of(args@)),
    {
        Self::from_args(name, CallArgs::read(args))
    }
}

/// What one turn with the assistant gave.
pub enum TurnOutcome<M> {
    /// The turn ended with this message in the chat, or with none.
    Answer(Option<M>),
    /// A function answered; its answer is stored and the assistant is asked again.
    FunctionResult(String),
}

/// What a function call leads to: when the function answered with text, that answer is stored
/// for the assistant and it is asked again; else the message the function sent ends the turn.
pub fn function_outcome<M>(answer: Option<M>, response: Option<String>) -> (res: TurnOutcome<M>)
    ensures
        match response {
            Some(r) => res matches TurnOutcome::FunctionResult(s) && s == r,
            None => res == TurnOutcome::Answer(answer),
        },
{
    match response {
        Some(r) => TurnOutcome::FunctionResult(r),
        None => TurnOutcome::Answer(answer),
    }
}

/// How many times the assistant is asked for one message at most.
pub const MAX_TURNS: u32 = 5;

/// What the conversation loop does next.
pub enum LoopAction<M> {
    /// Ask the assistant (again).
    Ask,
    /// Stop, with the last message the assistant sent, if any.
    Finish(Option<M>),
    /// Send this error text to the chat, then stop with the message that sent it.
    ReportError(String),
}

/// What a turn of the conversation gave.
pub enum TurnEvent<M> {
    /// The assistant's turn ended with this message in the chat.
    Answered(M),
    /// The turn ended with no message in the chat (a function answered, or nothing was sent);
    /// the assistant is asked again.
    Continue,
    /// The turn failed with this error text.
    Failed(String),
}

/// Counts the turns of one conversation with the assistant.
pub struct OlegLoop {
    turns: u32,
}

impl OlegLoop {
    /// How many times the assistant has been asked.
    pub closed spec fn turns(&self) -> nat {
        self.turns as nat
    }

    pub open spec fn inv(&self) -> bool {
        self.turns() <= MAX_TURNS
    }

    /// Starts a conversation: the assistant is asked once.
    pub fn start() -> (res: (OlegLoop, LoopAction<()>))
        ensures
            res.0.turns() == 1,
            res.0.inv(),
            res.1 is Ask,
    {
        (OlegLoop { turns: 1 }, LoopAction::Ask)
    }

    /// What follows a turn: a message or an error ends the conversation; a turn without a
    /// message makes the assistant be asked again, unless it was asked `MAX_TURNS` times already.
    pub fn next<M>(&mut self, event: TurnEvent<M>) -> (res: LoopAction<M>)
        requires
            old(self).inv(),
        ensures
            final(self).inv(),
            match event {
                TurnEvent::Answered(m) => res == LoopAction::Finish(Some(m)) && final(self).turns()
                    == old(self).turns(),
                TurnEvent::Failed(e) => res == LoopAction::<M>::ReportError(e) && final(self).turns()
                    == old(self).turns(),
                TurnEvent::Continue => if old(self).turns() < MAX_TURNS {
                    res is Ask && final(self).turns() == old(self).turns() + 1
                } else {
                    res == LoopAction::<M>::Finish(None) && final(self).turns() == old(self).turns()
                },
            },
    {
        match event {
            TurnEvent::Answered(m) => LoopAction::Finish(Some(m)),
            TurnEvent::Failed(e) => LoopAction::ReportError(e),
            TurnEvent::Continue => {
                if self.turns < MAX_TURNS {
                    self.turns = self.turns + 1;
                    LoopAction::Ask
                } else {
                    LoopAction::Finish(None)
                }
            },
        }
    }
}

/// What a turn's outcome is for the loop: a message in the chat ends the conversation; a
/// function's answer, or no message at all, asks again.
pub fn turn_event<M>(outcome: TurnOutcome<M>) -> (res: TurnEvent<M>)
    ensures
        match outcome {
            TurnOutcome::Answer(Some(m)) => res == TurnEvent::Answered(m),
            _ => res is Continue,
        },
{
    match outcome {
        TurnOutcome::Answer(Some(m)) => TurnEvent::Answered(m),
        _ => TurnEvent::Continue,
    }
}

/// How many more times the assistant is asked, from `turns` asks so far, when the turns that
/// follow end as `events` says (`true`: the turn left no message, so the assistant is asked
/// again; `false`: the turn ended the conversation), as `OlegLoop::next` decides.
pub open spec fn asks_in(turns: nat, events: Seq<bool>) -> nat
    decreases events.len(),
{
    if events.len() == 0 || !events[0] {
        0
    } else if turns < MAX_TURNS {
        1 + asks_in(turns + 1, events.drop_first())
    } else {
        0
    }
}

/// The assistant is asked at most `MAX_TURNS` times for one message, whatever the turns give.
pub proof fn law_turns_bounded(turns: nat, events: Seq<bool>)
    requires
        turns <= MAX_TURNS,
    ensures
        turns + asks_in(turns, events) <= MAX_TURNS,
    decreases events.len(),
{
    if events.len() > 0 && events[0] && turns < MAX_TURNS {
        law_turns_bounded(turns + 1, events.drop_first());
    }
}

/// The conversation is the system prompt followed by one entry for every thread message, in
/// order: nothing is left out, added or moved.
pub proof fn law_conversation_one_entry_each(prompt: Seq<char>, thread: Seq<MessageRecord>)
    ensures
        conversation_spec(prompt, thread).len() == thread.len() + 1,
        conversation_spec(prompt, thread)[0] == (ChatView {
            role: ChatRole::System,
            content: Some(prompt),
            name: None,
            function_call: None,
        }),
        forall|i: int|
            0 <= i < thread.len() ==> #[trigger] conversation_spec(prompt, thread)[i + 1]
                == chat_view_of(thread[i]),
{
    let c = conversation_spec(prompt, thread);
    assert forall|i: int| 0 <= i < thread.len() implies #[trigger] c[i + 1] == chat_view_of(
        thread[i],
    ) by {
        assert(c[i + 1] == thread.map_values(|r: MessageRecord| chat_view_of(r))[i]);
    }
}

/// How each thread message is shown: a function result (cause `oleg_f`) as the function's
/// turn with the function's answer and name; the assistant's call (cause `oleg_a`) as the
/// assistant's turn with the call; any other message with text as the user's turn, the sender's
/// name, a colon and a space before its words.
pub proof fn law_chat_view_roles(r: MessageRecord)
    ensures
        r.cause == "oleg_f"@ ==> chat_view_of(r).role == ChatRole::Function && chat_view_of(r).content
            == (match r.function_res {
            Some(f) => Some(f.1),
            None => None,
        }),
        r.cause == "oleg_a"@ ==> chat_view_of(r).role == ChatRole::Assistant && chat_view_of(r).content
            == r.text && chat_view_of(r).function_call == r.function_req,
        r.cause != "oleg_a"@ && r.cause != "oleg_f"@ && r.text is Some ==> chat_view_of(r).role
            == ChatRole::User && chat_view_of(r).content == Some(
            r.sender->0 + ": "@ + user_words(r.text->0),
        ),
        r.function_req is None ==> chat_view_of(r).name == match r.function_res {
            Some(f) => Some(f.0),
            None => None,
        },
{
    reveal_strlit("oleg_a");
    reveal_strlit("oleg_f");
    assert("oleg_a"@[5] != "oleg_f"@[5]);
}

/// Every argument read from a call's JSON is the member of the same name.
pub proof fn law_call_args_by_name(json: Seq<char>)
    ensures
        call_args_of(json).offset_hours == json_member_i64(json, "offset_hours"@),
        call_args_of(json).offset_minutes == json_member_i64(json, "offset_minutes"@),
        call_args_of(json).to_language == json_member_str(json, "to_language"@),
        call_args_of(json).text == json_member_str(json, "text"@),
        call_args_of(json).description == json_member_str(json, "description"@),
        call_args_of(json).nsfw == json_member_bool(json, "nsfw"@),
        call_args_of(json).file_id == json_member_str(json, "file_id"@),
        call_args_of(json).query == json_member_str(json, "query"@),
        call_args_of(json).base == json_member_str(json, "base"@),
{
}

} // verus!
