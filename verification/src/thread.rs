//! Collecting the thread that a message belongs to, for the assistant's memory.
//!
//! The thread is read from storage step by step: the message itself, then the chain of messages
//! it answers, then older messages of the chat, each with the replies they answer, until the
//! limit is reached. The storage is the application's; [`ThreadUnwinder`] decides what to read
//! next from what was read so far, and [`ThreadUnwinder::finish`] gives the thread, oldest first.

use vstd::prelude::*;
use crate::db::{clone_opt, opt_view, DBMessage, MessageExt, MessageInfo, MessageRecord, text_or_caption_spec};
use crate::text::{concat, has_prefix, is_white_space, lemma_trimmed_empty, strip_prefix, trim, trimmed};

verus! {

/// The command that addresses the assistant.
pub const BOT_COMMAND_PREFIX: &'static str = "/oleg";

/// Whether a text belongs in the assistant's memory: a command must say something after
/// the command word, any other text must not be empty.
pub open spec fn keeps_text_spec(t: Seq<char>) -> bool {
    if has_prefix(t, BOT_COMMAND_PREFIX@) {
        trimmed(t.subrange(BOT_COMMAND_PREFIX@.len() as int, t.len() as int)).len() > 0
    } else {
        t.len() > 0
    }
}

/// Whether a text belongs in the assistant's memory (see [`keeps_text_spec`]).
pub fn keeps_thread_text(text: &str) -> (res: bool)
    ensures
        res == keeps_text_spec(text@),
{
    match strip_prefix(text, BOT_COMMAND_PREFIX) {
        Some(command) => trim(command.as_str()).unicode_len() > 0,
        None => text.unicode_len() > 0,
    }
}

/// A message's text as the assistant sees it: with the id of its photo appended after a
/// `###ID###` line, then trimmed.
pub open spec fn text_with_id_spec(file_id: Option<Seq<char>>, text: Seq<char>) -> Seq<char> {
    trimmed(
        match file_id {
            Some(f) => text + "\n###ID###\n{\"file_id\":"@ + f + "}"@,
            None => text,
        },
    )
}

/// A message's text as the assistant sees it (see [`text_with_id_spec`]).
pub fn text_with_id(file_id: Option<&str>, text: &str) -> (res: String)
    ensures
        res@ == text_with_id_spec(
            match file_id {
                Some(f) => Some(f@),
                None => None,
            },
            text@,
        ),
{
    match file_id {
        Some(f) => {
            let a = concat(text, "\n###ID###\n{\"file_id\":");
            let b = concat(a.as_str(), f);
            let c = concat(b.as_str(), "}");
            trim(c.as_str())
        },
        None => trim(text),
    }
}

/// What the unwinder asks the storage for next.
pub enum UnwindRequest {
    /// The function calls stored for a message, newest first; answer with `on_functions`.
    Functions { chat_id: i64, msg_id: i32 },
    /// One stored message; answer with `on_message`.
    Message { chat_id: i64, msg_id: i32 },
    /// Start reading the messages of the chat older than `before`, newest first, and give the
    /// first of them; answer with `on_row`.
    OlderMessages { chat_id: i64, before: i32 },
    /// The next of the older messages; answer with `on_row`.
    NextOlder,
    /// The thread is complete; take it with `finish`.
    Done,
}

/// What is done once the pending message and its function calls are in the thread.
#[derive(Clone, Copy)]
pub enum After {
    /// Go on along the chain of replies.
    Replies,
    /// Go on with the next older message.
    NextRow,
    /// Read the message that the older message answers, if any, then go on.
    RowReply(Option<i32>),
}

/// What the unwinder waits for.
pub enum Stage {
    AwaitFunctions { pending: DBMessage, then: After },
    AwaitReply,
    AwaitRow,
    AwaitRowReply,
    Finished,
}

/// The stage as values.
pub enum StageView {
    AwaitFunctions { pending: MessageRecord, then: After },
    AwaitReply,
    AwaitRow,
    AwaitRowReply,
    Finished,
}

pub open spec fn stage_view(s: Stage) -> StageView {
    match s {
        Stage::AwaitFunctions { pending, then } => StageView::AwaitFunctions { pending: pending@, then },
        Stage::AwaitReply => StageView::AwaitReply,
        Stage::AwaitRow => StageView::AwaitRow,
        Stage::AwaitRowReply => StageView::AwaitRowReply,
        Stage::Finished => StageView::Finished,
    }
}

/// The records of a list of stored messages.
pub open spec fn records(v: Seq<DBMessage>) -> Seq<MessageRecord> {
    v.map_values(|m: DBMessage| m@)
}

/// A stored message with its text replaced by the text the assistant sees.
pub open spec fn with_seen_text(r: MessageRecord) -> MessageRecord {
    MessageRecord {
        text: Some(
            text_with_id_spec(
                r.file_id,
                match r.text {
                    Some(t) => t,
                    None => Seq::<char>::empty(),
                },
            ),
        ),
        ..r
    }
}

/// The record of the incoming message itself, with the text the assistant sees.
pub open spec fn incoming_record(msg: MessageInfo, text: Seq<char>) -> MessageRecord {
    MessageRecord {
        chat_id: msg.chat_id,
        msg_id: msg.msg_id,
        cause: Seq::<char>::empty(),
        sender_id: msg.sender_id,
        reply_id: msg.reply_id,
        file_id: opt_view(msg.photo_file_id),
        function_req: None,
        function_res: None,
        sender: opt_view(msg.sender_name),
        text: Some(text),
    }
}

/// Collects the thread of a message step by step.
pub struct ThreadUnwinder {
    chat_id: i64,
    limit: usize,
    msg_id: i32,
    reply_id: Option<i32>,
    messages: Vec<DBMessage>,
    stage: Stage,
    /// For each collected entry, whether it came from the function table.
    from_functions: Ghost<Seq<bool>>,
}

/// Where the unwinder goes along the reply chain: the next reply while the thread is below the
/// limit, else the older messages before the last one reached.
pub open spec fn replies_next(
    chat_id: i64,
    limit: usize,
    len: nat,
    msg_id: i32,
    reply_id: Option<i32>,
) -> (StageView, UnwindRequest) {
    match reply_id {
        Some(r) if len < limit => (StageView::AwaitReply, UnwindRequest::Message { chat_id, msg_id: r }),
        _ => (StageView::AwaitRow, UnwindRequest::OlderMessages { chat_id, before: msg_id }),
    }
}

/// Where the unwinder goes once a pending message is placed.
pub open spec fn after_next(
    then: After,
    chat_id: i64,
    limit: usize,
    len: nat,
    msg_id: i32,
    reply_id: Option<i32>,
) -> (StageView, UnwindRequest) {
    match then {
        After::Replies => replies_next(chat_id, limit, len, msg_id, reply_id),
        After::NextRow => (StageView::AwaitRow, UnwindRequest::NextOlder),
        After::RowReply(Some(r)) => (StageView::AwaitRowReply, UnwindRequest::Message { chat_id, msg_id: r }),
        After::RowReply(None) => (StageView::AwaitRow, UnwindRequest::NextOlder),
    }
}

/// What the unwinder does with a message it read: keep it, with its function calls, when its
/// text passes the filter, and go on as `then` says; else go on as `skipped` says.
pub open spec fn consider(
    r: MessageRecord,
    then: After,
    skipped: After,
    chat_id: i64,
    limit: usize,
    len: nat,
    msg_id: i32,
    reply_id: Option<i32>,
) -> (StageView, UnwindRequest) {
    let seen = with_seen_text(r);
    if keeps_text_spec(seen.text->0) {
        (
            StageView::AwaitFunctions { pending: seen, then },
            UnwindRequest::Functions { chat_id: r.chat_id, msg_id: r.msg_id },
        )
    } else {
        after_next(skipped, chat_id, limit, len, msg_id, reply_id)
    }
}

impl ThreadUnwinder {
    pub closed spec fn chat_id(&self) -> i64 {
        self.chat_id
    }

    pub closed spec fn limit(&self) -> usize {
        self.limit
    }

    /// The id of the last message reached along the reply chain.
    pub closed spec fn msg_id(&self) -> i32 {
        self.msg_id
    }

    /// The id of the message that the last one reached answers.
    pub closed spec fn reply_id(&self) -> Option<i32> {
        self.reply_id
    }

    /// The entries collected so far, newest first.
    pub closed spec fn collected(&self) -> Seq<MessageRecord> {
        records(self.messages@)
    }

    /// For each collected entry, whether it came from the function table.
    pub closed spec fn from_functions(&self) -> Seq<bool> {
        self.from_functions@
    }

    pub closed spec fn stage(&self) -> StageView {
        stage_view(self.stage)
    }

    /// Every collected message that did not come from the function table has a text that the
    /// filter keeps.
    pub open spec fn inv(&self) -> bool {
        &&& self.from_functions().len() == self.collected().len()
        &&& forall|i: int|
            0 <= i < self.collected().len() && !self.from_functions()[i] ==> {
                &&& (#[trigger] self.collected()[i]).text is Some
                &&& keeps_text_spec(self.collected()[i].text->0)
            }
        &&& self.stage() matches StageView::AwaitFunctions { pending, .. } ==> pending.text is Some
            && keeps_text_spec(pending.text->0)
        &&& self.stage() is AwaitReply ==> self.reply_id() is Some
    }

    fn replies_next_exec(&mut self) -> (req: UnwindRequest)
        requires
            old(self).inv(),
        ensures
            final(self).inv(),
            (final(self).stage(), req) == replies_next(
                old(self).chat_id(),
                old(self).limit(),
                old(self).collected().len(),
                old(self).msg_id(),
                old(self).reply_id(),
            ),
            final(self).collected() == old(self).collected(),
            final(self).from_functions() == old(self).from_functions(),
            final(self).chat_id() == old(self).chat_id(),
            final(self).limit() == old(self).limit(),
            final(self).msg_id() == old(self).msg_id(),
            final(self).reply_id() == old(self).reply_id(),
    {
        match self.reply_id {
            Some(r) if self.messages.len() < self.limit => {
                self.stage = Stage::AwaitReply;
                UnwindRequest::Message { chat_id: self.chat_id, msg_id: r }
            },
            _ => {
                self.stage = Stage::AwaitRow;
                UnwindRequest::OlderMessages { chat_id: self.chat_id, before: self.msg_id }
            },
        }
    }

    fn after_next_exec(&mut self, then: After) -> (req: UnwindRequest)
        requires
            old(self).inv(),
        ensures
            final(self).inv(),
            (final(self).stage(), req) == after_next(
                then,
                old(self).chat_id(),
                old(self).limit(),
                old(self).collected().len(),
                old(self).msg_id(),
                old(self).reply_id(),
            ),
            final(self).collected() == old(self).collected(),
            final(self).from_functions() == old(self).from_functions(),
            final(self).chat_id() == old(self).chat_id(),
            final(self).limit() == old(self).limit(),
            final(self).msg_id() == old(self).msg_id(),
            final(self).reply_id() == old(self).reply_id(),
    {
        match then {
            After::Replies => self.replies_next_exec(),
            After::NextRow => {
                self.stage = Stage::AwaitRow;
                UnwindRequest::NextOlder
            },
            After::RowReply(Some(r)) => {
                self.stage = Stage::AwaitRowReply;
                UnwindRequest::Message { chat_id: self.chat_id, msg_id: r }
            },
            After::RowReply(None) => {
                self.stage = Stage::AwaitRow;
                UnwindRequest::NextOlder
            },
        }
    }

    /// Gives a stored message the text the assistant sees.
    fn seen(m: DBMessage) -> (res: DBMessage)
        ensures
            res@ == with_seen_text(m@),
    {
        let text = match &m.text {
            Some(t) => t.clone(),
            None => String::new(),
        };
        let seen_text = match &m.file_id {
            Some(f) => text_with_id(Some(f.as_str()), text.as_str()),
            None => text_with_id(None, text.as_str()),
        };
        DBMessage { text: Some(seen_text), ..m }
    }

    fn consider_exec(&mut self, m: DBMessage, then: After, skipped: After) -> (req: UnwindRequest)
        requires
            old(self).inv(),
        ensures
            final(self).inv(),
            (final(self).stage(), req) == consider(
                m@,
                then,
                skipped,
                old(self).chat_id(),
                old(self).limit(),
                old(self).collected().len(),
                old(self).msg_id(),
                old(self).reply_id(),
            ),
            final(self).collected() == old(self).collected(),
            final(self).from_functions() == old(self).from_functions(),
            final(self).chat_id() == old(self).chat_id(),
            final(self).limit() == old(self).limit(),
            final(self).msg_id() == old(self).msg_id(),
            final(self).reply_id() == old(self).reply_id(),
    {
        let seen = Self::seen(m);
        let keep = match &seen.text {
            Some(t) => keeps_thread_text(t.as_str()),
            None => false,
        };
        if keep {
            let chat_id = seen.chat_id;
            let msg_id = seen.msg_id;
            self.stage = Stage::AwaitFunctions { pending: seen, then };
            UnwindRequest::Functions { chat_id, msg_id }
        } else {
            self.after_next_exec(skipped)
        }
    }

    /// Starts collecting the thread of `msg`, keeping at most about `limit` messages.
    pub fn new(msg: &MessageInfo, limit: usize) -> (res: (ThreadUnwinder, UnwindRequest))
        ensures
            res.0.inv(),
            res.0.chat_id() == msg.chat_id,
            res.0.limit() == limit,
            res.0.msg_id() == msg.msg_id,
            res.0.reply_id() == msg.reply_id,
            res.0.collected() == Seq::<MessageRecord>::empty(),
            (res.0.stage(), res.1) == match text_or_caption_spec(*msg) {
                Some(t) => {
                    let seen = text_with_id_spec(opt_view(msg.photo_file_id), t);
                    if keeps_text_spec(seen) {
                        (
                            StageView::AwaitFunctions {
                                pending: incoming_record(*msg, seen),
                                then: After::Replies,
                            },
                            UnwindRequest::Functions { chat_id: msg.chat_id, msg_id: msg.msg_id },
                        )
                    } else {
                        replies_next(msg.chat_id, limit, 0, msg.msg_id, msg.reply_id)
                    }
                },
                None => replies_next(msg.chat_id, limit, 0, msg.msg_id, msg.reply_id),
            },
    {
        let mut u = ThreadUnwinder {
            chat_id: msg.chat_id,
            limit,
            msg_id: msg.msg_id,
            reply_id: msg.reply_id,
            messages: Vec::new(),
            stage: Stage::AwaitRow,
            from_functions: Ghost(Seq::empty()),
        };
        proof {
            assert(records(u.messages@) =~= Seq::<MessageRecord>::empty());
        }
        let req = match msg.text_or_caption() {
            Some(t) => {
                let seen = match &msg.photo_file_id {
                    Some(f) => text_with_id(Some(f.as_str()), t),
                    None => text_with_id(None, t),
                };
                if keeps_thread_text(seen.as_str()) {
                    let pending = DBMessage {
                        chat_id: msg.chat_id,
                        msg_id: msg.msg_id,
                        cause: String::new(),
                        sender_id: msg.sender_id,
                        reply_id: msg.reply_id,
                        file_id: clone_opt(&msg.photo_file_id),
                        function_req: None,
                        function_res: None,
                        sender: clone_opt(&msg.sender_name),
                        text: Some(seen),
                    };
                    u.stage = Stage::AwaitFunctions { pending, then: After::Replies };
                    UnwindRequest::Functions { chat_id: msg.chat_id, msg_id: msg.msg_id }
                } else {
                    u.replies_next_exec()
                }
            },
            None => u.replies_next_exec(),
        };
        (u, req)
    }

    /// Whether the unwinder waits for the function calls of a message.
    pub fn awaits_functions(&self) -> (res: bool)
        ensures
            res == self.stage() is AwaitFunctions,
    {
        match self.stage {
            Stage::AwaitFunctions { .. } => true,
            _ => false,
        }
    }

    /// Whether the unwinder waits for one stored message.
    pub fn awaits_message(&self) -> (res: bool)
        ensures
            res == (self.stage() is AwaitReply || self.stage() is AwaitRowReply),
    {
        match self.stage {
            Stage::AwaitReply | Stage::AwaitRowReply => true,
            _ => false,
        }
    }

    /// Whether the unwinder waits for an older message.
    pub fn awaits_row(&self) -> (res: bool)
        ensures
            res == self.stage() is AwaitRow,
    {
        match self.stage {
            Stage::AwaitRow => true,
            _ => false,
        }
    }

    /// Whether the thread is complete.
    pub fn is_finished(&self) -> (res: bool)
        ensures
            res == self.stage() is Finished,
    {
        match self.stage {
            Stage::Finished => true,
            _ => false,
        }
    }

    /// Takes the function calls of the pending message: they enter the thread, then the message.
    pub fn on_functions(&mut self, functions: Vec<DBMessage>) -> (req: UnwindRequest)
        requires
            old(self).inv(),
            old(self).stage() is AwaitFunctions,
        ensures
            final(self).inv(),
            final(self).chat_id() == old(self).chat_id(),
            final(self).limit() == old(self).limit(),
            final(self).msg_id() == old(self).msg_id(),
            final(self).reply_id() == old(self).reply_id(),
            ({
                let pending = old(self).stage()->AwaitFunctions_pending;
                let then = old(self).stage()->AwaitFunctions_then;
                let collected = old(self).collected() + records(functions@) + seq![pending];
                &&& final(self).collected() == collected
                &&& (final(self).stage(), req) == after_next(
                    then,
                    old(self).chat_id(),
                    old(self).limit(),
                    collected.len(),
                    old(self).msg_id(),
                    old(self).reply_id(),
                )
            }),
    {
        let mut stage = Stage::AwaitRow;
        std::mem::swap(&mut stage, &mut self.stage);
        match stage {
            Stage::AwaitFunctions { pending, then } => {
                let ghost old_marks = self.from_functions@;
                let ghost old_msgs = records(self.messages@);
                let ghost pending_view = pending@;
                let mut functions = functions;
                let ghost fs = records(functions@);
                let n = functions.len();
                self.messages.append(&mut functions);
                self.messages.push(pending);
                proof {
                    self.from_functions = Ghost(
                        old_marks + Seq::new(n as nat, |i: int| true) + seq![false],
                    );
                    assert(records(self.messages@) =~= old_msgs + fs + seq![pending_view]);
                    let c = records(self.messages@);
                    assert forall|i: int|
                        0 <= i < c.len() && !self.from_functions@[i] implies (#[trigger] c[i]).text
                        is Some && keeps_text_spec(c[i].text->0) by {
                        if i < old_msgs.len() {
                            assert(c[i] == old_msgs[i]);
                            assert(self.from_functions@[i] == old_marks[i]);
                        } else if i < old_msgs.len() + n {
                            assert(self.from_functions@[i]);
                        } else {
                            assert(c[i] == pending_view);
                        }
                    }
                }
                self.after_next_exec(then)
            },
            _ => {
                proof {
                    assert(false);
                }
                UnwindRequest::Done
            },
        }
    }

    /// Takes a stored message that was asked for, or `None` when storage has no such message.
    pub fn on_message(&mut self, message: Option<DBMessage>) -> (req: UnwindRequest)
        requires
            old(self).inv(),
            old(self).stage() is AwaitReply || old(self).stage() is AwaitRowReply,
        ensures
            final(self).inv(),
            final(self).chat_id() == old(self).chat_id(),
            final(self).limit() == old(self).limit(),
            final(self).collected() == old(self).collected(),
            final(self).from_functions() == old(self).from_functions(),
            old(self).stage() is AwaitRowReply ==> {
                &&& final(self).msg_id() == old(self).msg_id()
                &&& final(self).reply_id() == old(self).reply_id()
                &&& (final(self).stage(), req) == match message {
                    None => (StageView::AwaitRow, UnwindRequest::NextOlder),
                    Some(m) => consider(
                        m@,
                        After::NextRow,
                        After::NextRow,
                        old(self).chat_id(),
                        old(self).limit(),
                        old(self).collected().len(),
                        old(self).msg_id(),
                        old(self).reply_id(),
                    ),
                }
            },
            old(self).stage() is AwaitReply ==> match message {
                None => {
                    &&& final(self).msg_id() == old(self).msg_id()
                    &&& final(self).reply_id() == old(self).reply_id()
                    &&& (final(self).stage(), req) == (
                        StageView::AwaitRow,
                        UnwindRequest::OlderMessages {
                            chat_id: old(self).chat_id(),
                            before: old(self).msg_id(),
                        },
                    )
                },
                Some(m) => {
                    &&& old(self).reply_id() is Some
                    &&& final(self).msg_id() == old(self).reply_id()->0
                    &&& final(self).reply_id() == m.reply_id
                    &&& (final(self).stage(), req) == consider(
                        m@,
                        After::Replies,
                        After::Replies,
                        old(self).chat_id(),
                        old(self).limit(),
                        old(self).collected().len(),
                        final(self).msg_id(),
                        final(self).reply_id(),
                    )
                },
            },
    {
        let in_chain = match self.stage {
            Stage::AwaitReply => true,
            _ => false,
        };
        if in_chain {
            match message {
                None => {
                    self.stage = Stage::AwaitRow;
                    UnwindRequest::OlderMessages { chat_id: self.chat_id, before: self.msg_id }
                },
                Some(m) => {
                    self.stage = Stage::AwaitRow;
                    self.msg_id = match self.reply_id {
                        Some(r) => r,
                        None => self.msg_id,
                    };
                    self.reply_id = m.reply_id;
                    self.consider_exec(m, After::Replies, After::Replies)
                },
            }
        } else {
            match message {
                None => {
                    self.stage = Stage::AwaitRow;
                    UnwindRequest::NextOlder
                },
                Some(m) => self.consider_exec(m, After::NextRow, After::NextRow),
            }
        }
    }

    /// Takes the next older message of the chat, or `None` when there is none left.
    pub fn on_row(&mut self, row: Option<DBMessage>) -> (req: UnwindRequest)
        requires
            old(self).inv(),
            old(self).stage() is AwaitRow,
        ensures
            final(self).inv(),
            final(self).chat_id() == old(self).chat_id(),
            final(self).limit() == old(self).limit(),
            final(self).msg_id() == old(self).msg_id(),
            final(self).reply_id() == old(self).reply_id(),
            final(self).collected() == old(self).collected(),
            final(self).from_functions() == old(self).from_functions(),
            (final(self).stage(), req) == match row {
                None => (StageView::Finished, UnwindRequest::Done),
                Some(m) => if old(self).collected().len() >= old(self).limit() {
                    (StageView::Finished, UnwindRequest::Done)
                } else {
                    consider(
                        m@,
                        After::RowReply(m.reply_id),
                        After::NextRow,
                        old(self).chat_id(),
                        old(self).limit(),
                        old(self).collected().len(),
                        old(self).msg_id(),
                        old(self).reply_id(),
                    )
                },
            },
    {
        match row {
            None => {
                self.stage = Stage::Finished;
                UnwindRequest::Done
            },
            Some(m) => {
                if self.messages.len() >= self.limit {
                    self.stage = Stage::Finished;
                    UnwindRequest::Done
                } else {
                    let reply = m.reply_id;
                    self.consider_exec(m, After::RowReply(reply), After::NextRow)
                }
            },
        }
    }

    /// The collected thread, oldest first.
    pub fn finish(self) -> (res: Vec<DBMessage>)
        requires
            self.inv(),
            self.stage() is Finished,
        ensures
            records(res@) == self.collected().reverse(),
            forall|i: int|
                0 <= i < res@.len() && !self.from_functions().reverse()[i] ==> {
                    &&& (#[trigger] res@[i])@.text is Some
                    &&& keeps_text_spec(res@[i]@.text->0)
                },
    {
        let mut out: Vec<DBMessage> = Vec::new();
        let mut msgs = self.messages;
        let ghost all = records(msgs@);
        while msgs.len() > 0
            invariant
                all.len() == records(out@).len() + records(msgs@).len(),
                records(msgs@) == all.subrange(0, records(msgs@).len() as int),
                records(out@) == all.subrange(records(msgs@).len() as int, all.len() as int).reverse(),
            decreases msgs.len(),
        {
            let ghost before = records(msgs@);
            let ghost before_out = records(out@);
            let m = msgs.pop().unwrap();
            out.push(m);
            proof {
                assert(records(msgs@) =~= before.drop_last());
                assert(records(out@) =~= before_out.push(before.last()));
                assert(records(out@) =~= all.subrange(records(msgs@).len() as int, all.len() as int).reverse());
                assert(records(msgs@) =~= all.subrange(0, records(msgs@).len() as int));
            }
        }
        proof {
            assert(all.subrange(0, all.len() as int) =~= all);
            let marks = self.from_functions();
            assert forall|i: int|
                0 <= i < out@.len() && !marks.reverse()[i] implies (#[trigger] out@[i])@.text is Some
                && keeps_text_spec(out@[i]@.text->0) by {
                let j = all.len() - 1 - i;
                assert(records(out@)[i] == out@[i]@);
                assert(all.reverse()[i] == all[j]);
                assert(marks.reverse()[i] == marks[j]);
                assert(self.collected()[j] == all[j]);
            }
        }
        out
    }
}

/// A text that is no `/oleg` command is kept in the assistant's memory exactly when it is not
/// empty; an `/oleg` command is kept exactly when something other than white space follows the
/// command word.
pub proof fn law_filter_keeps(t: Seq<char>)
    ensures
        !has_prefix(t, "/oleg"@) ==> (keeps_text_spec(t) <==> t.len() > 0),
        has_prefix(t, "/oleg"@) ==> (keeps_text_spec(t) <==> exists|i: int|
            5 <= i < t.len() && !is_white_space(#[trigger] t[i])),
{
    reveal_strlit("/oleg");
    assert(BOT_COMMAND_PREFIX@ == "/oleg"@);
    if has_prefix(t, "/oleg"@) {
        let rest = t.subrange(5, t.len() as int);
        lemma_trimmed_empty(rest);
        if exists|i: int| 5 <= i < t.len() && !is_white_space(#[trigger] t[i]) {
            let i = choose|i: int| 5 <= i < t.len() && !is_white_space(#[trigger] t[i]);
            assert(rest[i - 5] == t[i]);
        } else {
            assert forall|j: int| 0 <= j < rest.len() implies is_white_space(#[trigger] rest[j]) by {
                assert(rest[j] == t[j + 5]);
            }
        }
    }
}

/// Along the reply chain, the unwinder asks for the next message of the chain exactly when the
/// message reached answers another one and fewer entries than the limit are collected; it asks
/// for that message of the same chat. Otherwise it turns to the older messages of the chat,
/// before the last message reached.
pub proof fn law_reply_chain_within_limit(
    chat_id: i64,
    limit: usize,
    len: nat,
    msg_id: i32,
    reply_id: Option<i32>,
)
    ensures
        replies_next(chat_id, limit, len, msg_id, reply_id).1 is Message <==> (reply_id is Some && len
            < limit),
        replies_next(chat_id, limit, len, msg_id, reply_id).1 matches UnwindRequest::Message {
            chat_id: c,
            msg_id: m,
        } ==> c == chat_id && Some(m) == reply_id,
        !(reply_id is Some && len < limit) ==> replies_next(chat_id, limit, len, msg_id, reply_id).1
            == (UnwindRequest::OlderMessages { chat_id, before: msg_id }),
{
}

/// A message that is read is kept, pending its function calls, exactly when the text the
/// assistant would see passes the filter; that text is the stored text (empty when there is
/// none) with its photo's id, trimmed, and every other field stays as stored. A kept message's
/// function calls are asked for by its own chat and id.
pub proof fn law_consider_keeps_filtered(
    r: MessageRecord,
    then: After,
    skipped: After,
    chat_id: i64,
    limit: usize,
    len: nat,
    msg_id: i32,
    reply_id: Option<i32>,
)
    ensures
        ({
            let t = text_with_id_spec(
                r.file_id,
                match r.text {
                    Some(x) => x,
                    None => Seq::<char>::empty(),
                },
            );
            let out = consider(r, then, skipped, chat_id, limit, len, msg_id, reply_id);
            &&& keeps_text_spec(t) ==> out.1 == (UnwindRequest::Functions {
                chat_id: r.chat_id,
                msg_id: r.msg_id,
            }) && out.0 == (StageView::AwaitFunctions {
                pending: MessageRecord { text: Some(t), ..r },
                then,
            })
            &&& !keeps_text_spec(t) ==> out == after_next(
                skipped,
                chat_id,
                limit,
                len,
                msg_id,
                reply_id,
            )
        }),
{
}

/// After a message is placed or skipped, the next older message is asked for, or first the
/// message that an older one answers, or the reply chain is followed on.
pub proof fn law_after_next(chat_id: i64, limit: usize, len: nat, msg_id: i32, reply_id: Option<i32>, r: i32)
    ensures
        after_next(After::NextRow, chat_id, limit, len, msg_id, reply_id).1 is NextOlder,
        after_next(After::RowReply(None), chat_id, limit, len, msg_id, reply_id).1 is NextOlder,
        after_next(After::RowReply(Some(r)), chat_id, limit, len, msg_id, reply_id).1 == (
        UnwindRequest::Message { chat_id, msg_id: r }),
        after_next(After::Replies, chat_id, limit, len, msg_id, reply_id) == replies_next(
            chat_id,
            limit,
            len,
            msg_id,
            reply_id,
        ),
{
}

/// The entry for the incoming message carries what the message says of itself: its chat, id,
/// sender and sender's name, what it answers and its photo, with the text the assistant sees;
/// it is no function call and has no cause.
pub proof fn law_incoming_entry(msg: MessageInfo, text: Seq<char>)
    ensures
        incoming_record(msg, text).chat_id == msg.chat_id,
        incoming_record(msg, text).msg_id == msg.msg_id,
        incoming_record(msg, text).sender_id == msg.sender_id,
        incoming_record(msg, text).sender == opt_view(msg.sender_name),
        incoming_record(msg, text).reply_id == msg.reply_id,
        incoming_record(msg, text).file_id == opt_view(msg.photo_file_id),
        incoming_record(msg, text).text == Some(text),
        incoming_record(msg, text).cause.len() == 0,
        incoming_record(msg, text).function_req is None,
        incoming_record(msg, text).function_res is None,
{
}

} // verus!
