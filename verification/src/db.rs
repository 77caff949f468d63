//! The records that the bot keeps of a chat: messages, captions of photos, and the function
//! calls of the assistant. The storage itself is the application's; these are its rules.

use vstd::prelude::*;

verus! {

/// A function that the assistant asked to call, with its JSON arguments.
pub struct FunctionReq {
    pub name: String,
    pub args: String,
}

/// What a function call answered.
pub struct FunctionRes {
    pub name: String,
    pub res: String,
}

/// A stored message, or a stored function call shown as a message.
pub struct DBMessage {
    pub chat_id: i64,
    pub msg_id: i32,
    pub cause: String,
    pub sender_id: Option<u64>,
    pub reply_id: Option<i32>,
    pub file_id: Option<String>,
    pub function_req: Option<FunctionReq>,
    pub function_res: Option<FunctionRes>,
    pub sender: Option<String>,
    pub text: Option<String>,
}

/// The view of an optional string.
pub open spec fn opt_view(o: Option<String>) -> Option<Seq<char>> {
    match o {
        Some(s) => Some(s@),
        None => None,
    }
}

/// A stored message as values.
pub struct MessageRecord {
    pub chat_id: i64,
    pub msg_id: i32,
    pub cause: Seq<char>,
    pub sender_id: Option<u64>,
    pub reply_id: Option<i32>,
    pub file_id: Option<Seq<char>>,
    /// Function name and arguments.
    pub function_req: Option<(Seq<char>, Seq<char>)>,
    /// Function name and answer.
    pub function_res: Option<(Seq<char>, Seq<char>)>,
    pub sender: Option<Seq<char>>,
    pub text: Option<Seq<char>>,
}

impl View for DBMessage {
    type V = MessageRecord;

    open spec fn view(&self) -> MessageRecord {
        MessageRecord {
            chat_id: self.chat_id,
            msg_id: self.msg_id,
            cause: self.cause@,
            sender_id: self.sender_id,
            reply_id: self.reply_id,
            file_id: opt_view(self.file_id),
            function_req: match self.function_req {
                Some(f) => Some((f.name@, f.args@)),
                None => None,
            },
            function_res: match self.function_res {
                Some(f) => Some((f.name@, f.res@)),
                None => None,
            },
            sender: opt_view(self.sender),
            text: opt_view(self.text),
        }
    }
}

/// Copies an optional string.
pub fn clone_opt(o: &Option<String>) -> (res: Option<String>)
    ensures
        opt_view(res) == opt_view(*o),
{
    match o {
        Some(s) => Some(s.clone()),
        None => None,
    }
}

impl Clone for FunctionReq {
    fn clone(&self) -> (res: Self)
        ensures
            res.name@ == self.name@,
            res.args@ == self.args@,
    {
        FunctionReq { name: self.name.clone(), args: self.args.clone() }
    }
}

impl Clone for FunctionRes {
    fn clone(&self) -> (res: Self)
        ensures
            res.name@ == self.name@,
            res.res@ == self.res@,
    {
        FunctionRes { name: self.name.clone(), res: self.res.clone() }
    }
}

impl Clone for DBMessage {
    fn clone(&self) -> (res: Self)
        ensures
            res@ == self@,
    {
        DBMessage {
            chat_id: self.chat_id,
            msg_id: self.msg_id,
            cause: self.cause.clone(),
            sender_id: self.sender_id,
            reply_id: self.reply_id,
            file_id: clone_opt(&self.file_id),
            function_req: match &self.function_req {
                Some(f) => Some(f.clone()),
                None => None,
            },
            function_res: match &self.function_res {
                Some(f) => Some(f.clone()),
                None => None,
            },
            sender: clone_opt(&self.sender),
            text: clone_opt(&self.text),
        }
    }
}

/// What the bot reads of an incoming chat message.
pub struct MessageInfo {
    pub chat_id: i64,
    pub msg_id: i32,
    /// The sender's user id.
    pub sender_id: Option<u64>,
    /// The sender's full name.
    pub sender_name: Option<String>,
    /// The id of the message that this one answers.
    pub reply_id: Option<i32>,
    /// The file id of the largest size of the attached photo.
    pub photo_file_id: Option<String>,
    pub text: Option<String>,
    pub caption: Option<String>,
}

/// The text of a message, or its caption when it has no text.
pub open spec fn text_or_caption_spec(m: MessageInfo) -> Option<Seq<char>> {
    match m.text {
        Some(t) => Some(t@),
        None => opt_view(m.caption),
    }
}

/// Access to what a message says.
pub trait MessageExt {
    /// The text of the message, or its caption when it has no text.
    fn text_or_caption(&self) -> Option<&str>;
}

impl MessageExt for MessageInfo {
    fn text_or_caption(&self) -> (res: Option<&str>)
        ensures
            match res {
                Some(t) => text_or_caption_spec(*self) == Some(t@),
                None => text_or_caption_spec(*self) is None,
            },
    {
        match &self.text {
            Some(t) => Some(t.as_str()),
            None => match &self.caption {
                Some(c) => Some(c.as_str()),
                None => None,
            },
        }
    }
}

/// The row that storing `msg` with `cause` writes.
pub open spec fn record_spec(cause: Seq<char>, msg: MessageInfo) -> MessageRecord {
    MessageRecord {
        chat_id: msg.chat_id,
        msg_id: msg.msg_id,
        cause: cause,
        sender_id: msg.sender_id,
        reply_id: msg.reply_id,
        file_id: opt_view(msg.photo_file_id),
        function_req: None,
        function_res: None,
        sender: opt_view(msg.sender_name),
        text: text_or_caption_spec(msg),
    }
}

/// The row that storing a message writes: who sent it, what it answers, its photo and its
/// text or caption, under the given cause.
pub fn record_message(cause: &str, msg: &MessageInfo) -> (res: DBMessage)
    ensures
        res@ == record_spec(cause@, *msg),
{
    let text = match msg.text_or_caption() {
        Some(t) => Some(t.to_owned()),
        None => None,
    };
    DBMessage {
        chat_id: msg.chat_id,
        msg_id: msg.msg_id,
        cause: cause.to_owned(),
        sender_id: msg.sender_id,
        reply_id: msg.reply_id,
        file_id: clone_opt(&msg.photo_file_id),
        function_req: None,
        function_res: None,
        sender: clone_opt(&msg.sender_name),
        text,
    }
}

/// Whether a caption is to be written for a photo, given what the caption table holds for it:
/// `Err(())` when it holds no row, `Ok(None)` when the row has no caption yet. A caption once
/// written is never replaced.
pub fn caption_needs_write(existing: &Result<Option<String>, ()>) -> (res: bool)
    ensures
        res == !(existing matches Ok(Some(_))),
{
    match existing {
        Ok(Some(_)) => false,
        _ => true,
    }
}

/// The caption that a lookup yields for reuse: only a written caption counts.
pub fn cached_caption(existing: Result<Option<String>, ()>) -> (res: Option<String>)
    ensures
        match existing {
            Ok(Some(c)) => res == Some(c),
            _ => res is None,
        },
{
    match existing {
        Ok(Some(c)) => Some(c),
        _ => None,
    }
}

/// Names that a function may have to be passed to the assistant.
pub const FUNCTION_NAME_PATTERN: &'static str = "^[a-zA-Z0-9_-]{1,64}$";

/// What `regex::Regex::is_match` answers for a pattern and a text; `None` when the pattern
/// does not compile.
pub uninterp spec fn regex_match_result(pattern: Seq<char>, text: Seq<char>) -> Option<bool>;

/// A character that a function name may hold: an ASCII letter or digit, `_` or `-`.
pub open spec fn is_name_char(c: char) -> bool {
    ('a' <= c && c <= 'z') || ('A' <= c && c <= 'Z') || ('0' <= c && c <= '9') || c == '_' || c
        == '-'
}

/// What `^[a-zA-Z0-9_-]{1,64}$` matches: 1 to 64 characters, each a name character.
pub open spec fn valid_function_name(s: Seq<char>) -> bool {
    1 <= s.len() <= 64 && forall|i: int| 0 <= i < s.len() ==> is_name_char(#[trigger] s[i])
}

/// Compiles `pattern` with `regex::Regex::new` and, when it compiles, tests `text` with
/// `Regex::is_match`. In general the contract says only that the answer is a function of the
/// two strings; for the pattern `^[a-zA-Z0-9_-]{1,64}$` it says what the regex syntax documents:
/// the pattern compiles, and it matches a text of 1 to 64 characters from the class, anchored at
/// both ends (`$` matches only at the end of the text when multi-line mode is off).
#[verifier::external_body]
fn regex_is_match(pattern: &str, text: &str) -> (res: Option<bool>)
    ensures
        res == regex_match_result(pattern@, text@),
        pattern@ == "^[a-zA-Z0-9_-]{1,64}$"@ ==> res == Some(valid_function_name(text@)),
{
    match regex::Regex::new(pattern) {
        Ok(re) => Some(re.is_match(text)),
        Err(_) => None,
    }
}

/// What a stored function call becomes in a thread, given whether its name passed the check:
/// `None` when it did not; a request makes it the assistant's turn (`oleg_a`), an answer alone
/// a function's turn (`oleg_f`).
pub open spec fn function_row_spec(
    name_ok: bool,
    chat_id: i64,
    msg_id: i32,
    name: Seq<char>,
    req: Option<Seq<char>>,
    res: Option<Seq<char>>,
) -> Option<MessageRecord> {
    if !name_ok {
        None
    } else {
        Some(
            MessageRecord {
                chat_id,
                msg_id,
                cause: if req is Some {
                    "oleg_a"@
                } else {
                    "oleg_f"@
                },
                sender_id: None,
                reply_id: None,
                file_id: None,
                function_req: match req {
                    Some(r) => Some((name, r)),
                    None => None,
                },
                function_res: match res {
                    Some(r) => Some((name, r)),
                    None => None,
                },
                sender: None,
                text: None,
            },
        )
    }
}

/// Makes a row of the function table into a thread message, given whether its name is valid.
pub fn function_row_from_check(
    name_ok: bool,
    chat_id: i64,
    msg_id: i32,
    name: &str,
    req: Option<String>,
    res: Option<String>,
) -> (out: Option<DBMessage>)
    ensures
        match out {
            Some(m) => function_row_spec(name_ok, chat_id, msg_id, name@, opt_view(req), opt_view(res))
                == Some(m@),
            None => function_row_spec(name_ok, chat_id, msg_id, name@, opt_view(req), opt_view(res))
                is None,
        },
{
    if !name_ok {
        return None;
    }
    let cause = if req.is_some() {
        "oleg_a".to_owned()
    } else {
        "oleg_f".to_owned()
    };
    let function_req = match req {
        Some(r) => Some(FunctionReq { name: name.to_owned(), args: r }),
        None => None,
    };
    let function_res = match res {
        Some(r) => Some(FunctionRes { name: name.to_owned(), res: r }),
        None => None,
    };
    Some(
        DBMessage {
            chat_id,
            msg_id,
            cause,
            sender_id: None,
            reply_id: None,
            file_id: None,
            function_req,
            function_res,
            sender: None,
            text: None,
        },
    )
}

/// Makes a row of the function table into a thread message: rows whose name does not match
/// `^[a-zA-Z0-9_-]{1,64}$` (see [`valid_function_name`]) are skipped.
pub fn function_row(
    chat_id: i64,
    msg_id: i32,
    name: &str,
    req: Option<String>,
    res: Option<String>,
) -> (out: Option<DBMessage>)
    ensures
        match out {
            Some(m) => function_row_spec(
                valid_function_name(name@),
                chat_id,
                msg_id,
                name@,
                opt_view(req),
                opt_view(res),
            ) == Some(m@),
            None => function_row_spec(
                valid_function_name(name@),
                chat_id,
                msg_id,
                name@,
                opt_view(req),
                opt_view(res),
            ) is None,
        },
{
    let checked = regex_is_match(FUNCTION_NAME_PATTERN, name);
    let name_ok = match checked {
        Some(ok) => ok,
        None => false,
    };
    function_row_from_check(name_ok, chat_id, msg_id, name, req, res)
}

} // verus!
