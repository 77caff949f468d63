use oleg::db::{DBMessage, MessageInfo};
use oleg::thread::{keeps_thread_text, text_with_id, ThreadUnwinder, UnwindRequest};

fn stored(msg_id: i32, reply_id: Option<i32>, text: Option<&str>, file_id: Option<&str>) -> DBMessage {
    DBMessage {
        chat_id: 1,
        msg_id,
        cause: String::new(),
        sender_id: Some(9),
        reply_id,
        file_id: file_id.map(|s| s.to_owned()),
        function_req: None,
        function_res: None,
        sender: Some("U".to_owned()),
        text: text.map(|s| s.to_owned()),
    }
}

struct Store {
    messages: Vec<DBMessage>,
    functions: Vec<DBMessage>,
}

impl Store {
    fn message(&self, id: i32) -> Option<DBMessage> {
        self.messages.iter().find(|m| m.msg_id == id).cloned()
    }
    fn functions(&self, id: i32) -> Vec<DBMessage> {
        self.functions.iter().filter(|m| m.msg_id == id).cloned().collect()
    }
    fn older(&self, before: i32) -> Vec<DBMessage> {
        let mut v: Vec<DBMessage> = self.messages.iter().filter(|m| m.msg_id < before).cloned().collect();
        v.sort_by(|a, b| b.msg_id.cmp(&a.msg_id));
        v
    }
}

fn unwind(store: &Store, msg: &MessageInfo, limit: usize) -> Vec<DBMessage> {
    let (mut u, mut req) = ThreadUnwinder::new(msg, limit);
    let mut rows: Vec<DBMessage> = vec![];
    loop {
        req = match req {
            UnwindRequest::Functions { msg_id, .. } => u.on_functions(store.functions(msg_id)),
            UnwindRequest::Message { msg_id, .. } => u.on_message(store.message(msg_id)),
            UnwindRequest::OlderMessages { before, .. } => {
                rows = store.older(before);
                rows.reverse();
                u.on_row(rows.pop())
            }
            UnwindRequest::NextOlder => u.on_row(rows.pop()),
            UnwindRequest::Done => break,
        };
    }
    u.finish()
}

fn ids(v: &[DBMessage]) -> Vec<i32> {
    v.iter().map(|m| m.msg_id).collect()
}

fn incoming(text: &str, reply: Option<i32>) -> MessageInfo {
    MessageInfo {
        chat_id: 1,
        msg_id: 10,
        sender_id: Some(9),
        sender_name: Some("U".to_owned()),
        reply_id: reply,
        photo_file_id: None,
        text: Some(text.to_owned()),
        caption: None,
    }
}

#[test]
fn filter_keeps_commands_with_words() {
    assert!(keeps_thread_text("hello"));
    assert!(!keeps_thread_text(""));
    assert!(!keeps_thread_text("/oleg"));
    assert!(!keeps_thread_text("/oleg   "));
    assert!(keeps_thread_text("/oleg what time is it"));
}

#[test]
fn text_with_id_appends_photo_id() {
    assert_eq!(text_with_id(Some("F1"), " look "), "look \n###ID###\n{\"file_id\":F1}");
    assert_eq!(text_with_id(None, "  plain \n"), "plain");
    assert_eq!(text_with_id(Some("F2"), ""), "###ID###\n{\"file_id\":F2}");
}

#[test]
fn reply_chain_then_older_messages() {
    let store = Store {
        messages: vec![
            stored(1, None, Some("old one"), None),
            stored(2, None, Some(""), None),
            stored(5, Some(3), Some("answer to 3"), None),
            stored(3, None, Some("question"), Some("PHOTO")),
            stored(4, None, Some("/oleg"), None),
        ],
        functions: vec![],
    };
    let out = unwind(&store, &incoming("/oleg hi", Some(5)), 10);
    // chain: 10 -> 5 -> 3, then older than 3: 2 (filtered out), 1
    assert_eq!(ids(&out), vec![1, 3, 5, 10]);
    assert_eq!(out[1].text.as_deref(), Some("question\n###ID###\n{\"file_id\":PHOTO}"));
}

#[test]
fn limit_stops_reading() {
    let store = Store {
        messages: (1..10).map(|i| stored(i, None, Some("m"), None)).collect(),
        functions: vec![],
    };
    let out = unwind(&store, &incoming("q", None), 3);
    assert_eq!(ids(&out), vec![8, 9, 10]);
    let out = unwind(&store, &incoming("q", None), 0);
    assert_eq!(ids(&out), vec![10]);
}

#[test]
fn older_rows_bring_their_replies_and_functions() {
    let mut f = stored(8, None, None, None);
    f.cause = "oleg_f".to_owned();
    let store = Store {
        messages: vec![stored(8, Some(2), Some("row"), None), stored(2, None, Some("its question"), None)],
        functions: vec![f],
    };
    let out = unwind(&store, &incoming("", None), 10);
    // the incoming message is empty and skipped; row 8 with its function, then its reply 2,
    // then the older row 2 again
    assert_eq!(ids(&out), vec![2, 2, 8, 8]);
    assert_eq!(out[2].cause, "");
    assert_eq!(out[3].cause, "oleg_f");
}
