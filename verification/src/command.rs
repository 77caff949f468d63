//! The chat commands, the arguments of `/translate`, and how a message that is no command is
//! handled.

use vstd::prelude::*;
use crate::db::{MessageExt, MessageInfo, text_or_caption_spec};
use crate::text::{equals, has_prefix, is_white_space, is_white_space_char, split_once, split_once_spec, starts_with, to_chars};

verus! {

/// The commands the bot answers.
pub enum BotCommand {
    /// Show the list of commands.
    Help,
    /// Remove a message the bot sent.
    Rm,
    /// Make an image from a description.
    Sd { description: String },
    /// Describe a photo.
    What,
    /// Translate a text.
    Translate { to_language: String, text: String },
    /// Ask the assistant.
    Oleg,
}

/// Why the arguments of a command did not parse.
pub enum CommandParseError {
    TooFewArguments { expected: usize, found: usize, message: String },
}

/// The arguments of `/translate`: the language, then a space, then the text.
pub fn parse_translate(input: String) -> (res: Result<(String, String), CommandParseError>)
    ensures
        match split_once_spec(input@, " "@) {
            Some((lang, text)) => res matches Ok(p) && p.0@ == lang && p.1@ == text,
            None => res matches Err(CommandParseError::TooFewArguments { expected, found, message })
                && expected == 2 && found == 1 && message@.len() == 0,
        },
{
    match split_once(input.as_str(), " ") {
        Some((lang, text)) => Ok((lang, text)),
        None => Err(
            CommandParseError::TooFewArguments { expected: 2, found: 1, message: String::new() },
        ),
    }
}

/// A `/translate` argument made of a language without spaces, a space, and a text parses
/// into that language and that text.
pub proof fn law_translate_args_split(lang: Seq<char>, text: Seq<char>)
    requires
        !lang.contains(' '),
    ensures
        split_once_spec(lang + " "@ + text, " "@) == Some((lang, text)),
{
    let s = lang + " "@ + text;
    let p = " "@;
    assert(p =~= seq![' ']) by {
        reveal_strlit(" ");
    }
    crate::text::lemma_find_spec(s, p);
    assert(crate::text::occurs_at(s, p, lang.len() as int)) by {
        assert(s.subrange(lang.len() as int, lang.len() + 1int) =~= p);
    }
    assert forall|j: int| 0 <= j < lang.len() implies !crate::text::occurs_at(s, p, j) by {
        if crate::text::occurs_at(s, p, j) {
            assert(s.subrange(j, j + 1)[0] == p[0]);
            assert(lang[j] == ' ');
        }
    }
    assert(s.subrange(0, lang.len() as int) =~= lang);
    assert(s.subrange(lang.len() + 1int, s.len() as int) =~= text);
}

/// A caption that calls the assistant: `/oleg` alone, or followed by white space.
pub open spec fn is_oleg_caption_spec(caption: Seq<char>) -> bool {
    has_prefix(caption, "/oleg"@) && (caption.len() == 5 || (caption.len() > 5 && is_white_space(
        caption[5],
    )))
}

/// Whether a photo's caption calls the assistant (see [`is_oleg_caption_spec`]).
pub fn is_oleg_caption(caption: &str) -> (res: bool)
    ensures
        res == is_oleg_caption_spec(caption@),
{
    proof {
        reveal_strlit("/oleg");
    }
    if !starts_with(caption, "/oleg") {
        return false;
    }
    let cs = to_chars(caption);
    cs.len() == 5 || (cs.len() > 5 && is_white_space_char(cs[5]))
}

/// What is done with a message that is no command.
pub enum PlainRoute {
    /// Look up the message it answers; if the assistant wrote it, the assistant answers.
    LookUpReply { chat_id: i64, msg_id: i32 },
    /// The assistant answers.
    Oleg,
    /// The message is only stored.
    Store,
}

/// How a message that is no command is handled: an answer to another message, unless its text
/// starts with `/q`, continues a conversation with the assistant if the assistant wrote that
/// message; a photo captioned with `/oleg` calls the assistant; anything else is stored.
pub open spec fn plain_route_spec(msg: MessageInfo) -> PlainRoute {
    match msg.reply_id {
        Some(r) => match text_or_caption_spec(msg) {
            Some(t) if has_prefix(t, "/q"@) => PlainRoute::Store,
            _ => PlainRoute::LookUpReply { chat_id: msg.chat_id, msg_id: r },
        },
        None => match msg.caption {
            Some(c) if is_oleg_caption_spec(c@) => PlainRoute::Oleg,
            _ => PlainRoute::Store,
        },
    }
}

/// How a message that is no command is handled (see [`plain_route_spec`]).
pub fn plain_route(msg: &MessageInfo) -> (res: PlainRoute)
    ensures
        res == plain_route_spec(*msg),
{
    match msg.reply_id {
        Some(r) => {
            let quoted = match msg.text_or_caption() {
                Some(t) => starts_with(t, "/q"),
                None => false,
            };
            if quoted {
                PlainRoute::Store
            } else {
                PlainRoute::LookUpReply { chat_id: msg.chat_id, msg_id: r }
            }
        },
        None => match &msg.caption {
            Some(c) => if is_oleg_caption(c.as_str()) {
                PlainRoute::Oleg
            } else {
                PlainRoute::Store
            },
            None => PlainRoute::Store,
        },
    }
}

/// Whether an answer to a stored message continues a conversation: the stored message is the
/// assistant's (cause `oleg_a`).
pub fn continues_dialog(cause: Option<&str>) -> (res: bool)
    ensures
        res == match cause {
            Some(c) => c@ == "oleg_a"@,
            None => false,
        },
{
    match cause {
        Some(c) => equals(c, "oleg_a"),
        None => false,
    }
}

/// Which message `/what` describes.
#[derive(Debug, Clone, Copy, PartialEq, Eq, Structural)]
pub enum WhatSource {
    /// The command's own message.
    Message,
    /// The message it answers.
    Reply,
}

/// Which message `/what` describes: its own when it has a photo, else the one it answers,
/// else its own.
pub fn what_source(has_photo: bool, has_reply: bool) -> (res: WhatSource)
    ensures
        res == (if !has_photo && has_reply {
            WhatSource::Reply
        } else {
            WhatSource::Message
        }),
{
    if has_photo {
        WhatSource::Message
    } else if has_reply {
        WhatSource::Reply
    } else {
        WhatSource::Message
    }
}

/// Which message `/rm` removes: the one it answers, else its own.
pub fn rm_target(has_reply: bool) -> (res: WhatSource)
    ensures
        res == (if has_reply {
            WhatSource::Reply
        } else {
            WhatSource::Message
        }),
{
    if has_reply {
        WhatSource::Reply
    } else {
        WhatSource::Message
    }
}

/// The cause under which an `/sd` request is stored.
pub const CAUSE_SD_QUESTION: &'static str = "sd_q";

/// The cause under which a question to the assistant is stored.
pub const CAUSE_OLEG_QUESTION: &'static str = "oleg_q";

/// The cause under which the assistant's answer is stored.
pub const CAUSE_OLEG_ANSWER: &'static str = "oleg_a";

} // verus!
