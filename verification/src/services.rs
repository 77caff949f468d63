//! The services behind the commands: web search, exchange rates, translation, image
//! generation and image description. The requests are the application's; what goes into them
//! and what is made of their answers is decided here.

use vstd::prelude::*;
use base64::Engine;
use crate::db::opt_view;
use crate::settings::{SdId, Settings};
use crate::text::{concat, decimal, decimal_string, equals};

verus! {

broadcast use vstd::std_specs::hash::group_hash_axioms;

/// Web search through Bing.
pub struct BingSearch;

/// One search result.
pub struct WebPage {
    pub url: String,
    pub snippet: Option<String>,
}

/// How many search results are shown.
pub const SHOWN_RESULTS: usize = 3;

impl BingSearch {
    /// The endpoint that is queried.
    pub fn endpoint() -> (res: &'static str)
        ensures
            res@ == "https://api.bing.microsoft.com/v7.0/search"@,
    {
        "https://api.bing.microsoft.com/v7.0/search"
    }

    /// The query parameters of a search.
    pub fn query_params(query: &str) -> (res: Vec<(String, String)>)
        ensures
            res@.len() == 2,
            res@[0].0@ == "q"@ && res@[0].1@ == query@,
            res@[1].0@ == "textFormat"@ && res@[1].1@ == "HTML"@,
    {
        vec![("q".to_owned(), query.to_owned()), ("textFormat".to_owned(), "HTML".to_owned())]
    }

    /// The results that are shown: the first three; `None` when there are fewer.
    pub fn top_pages(pages: Vec<WebPage>) -> (res: Option<Vec<WebPage>>)
        ensures
            match res {
                Some(top) => pages@.len() >= SHOWN_RESULTS && top@ == pages@.subrange(0, SHOWN_RESULTS as int),
                None => pages@.len() < SHOWN_RESULTS,
            },
    {
        if pages.len() < SHOWN_RESULTS {
            return None;
        }
        let mut pages = pages;
        let ghost all = pages@;
        pages.truncate(SHOWN_RESULTS);
        assert(pages@ =~= all.subrange(0, SHOWN_RESULTS as int));
        Some(pages)
    }
}

/// How `serde_json` writes one character inside a string literal: `"` and `\` behind a
/// backslash, backspace, tab, line feed, form feed and carriage return as `\b`, `\t`, `\n`,
/// `\f`, `\r`, other characters below U+0020 as `\u00` and two lower-case hex digits,
/// anything else as it is.
pub open spec fn json_char(c: char) -> Seq<char> {
    let u = c as u32;
    if c == '"' {
        seq!['\\', '"']
    } else if c == '\\' {
        seq!['\\', '\\']
    } else if u == 0x08 {
        seq!['\\', 'b']
    } else if u == 0x09 {
        seq!['\\', 't']
    } else if u == 0x0a {
        seq!['\\', 'n']
    } else if u == 0x0c {
        seq!['\\', 'f']
    } else if u == 0x0d {
        seq!['\\', 'r']
    } else if u < 0x20 {
        seq!['\\', 'u', '0', '0', "0123456789abcdef"@[(u / 16) as int], "0123456789abcdef"@[(u % 16) as int]]
    } else {
        seq![c]
    }
}

/// The characters of a string, each written as [`json_char`] writes it.
pub open spec fn json_chars(s: Seq<char>) -> Seq<char>
    decreases s.len(),
{
    if s.len() == 0 {
        Seq::<char>::empty()
    } else {
        json_chars(s.drop_last()) + json_char(s.last())
    }
}

/// What `serde_json::to_string` writes for a string: the JSON string literal.
pub open spec fn json_string(s: Seq<char>) -> Seq<char> {
    seq!['"'] + json_chars(s) + seq!['"']
}

/// `serde_json::to_string` of a `&str`: its JSON string literal, escaped by the `ESCAPE` table
/// and `write_char_escape` of serde_json's `ser.rs`. Writing a string into memory does not fail.
#[verifier::external_body]
fn json_quote(s: &str) -> (res: String)
    ensures
        res@ == json_string(s@),
{
    match serde_json::to_string(s) {
        Ok(quoted) => quoted,
        Err(_) => String::new(),
    }
}

/// The JSON object of one search result, as serde writes a struct with the fields `url` and
/// `snippet`.
pub open spec fn page_json(p: WebPage) -> Seq<char> {
    "{\"url\":"@ + json_string(p.url@) + ",\"snippet\":"@ + match p.snippet {
        Some(s) => json_string(s@),
        None => "null"@,
    } + "}"@
}

/// The JSON array of the three results shown.
pub open spec fn results_json(a: WebPage, b: WebPage, c: WebPage) -> Seq<char> {
    "["@ + page_json(a) + ","@ + page_json(b) + ","@ + page_json(c) + "]"@
}

fn page_text(p: &WebPage) -> (res: String)
    ensures
        res@ == page_json(*p),
{
    let s = concat("{\"url\":", json_quote(p.url.as_str()).as_str());
    let s = concat(s.as_str(), ",\"snippet\":");
    let s = match &p.snippet {
        Some(snippet) => concat(s.as_str(), json_quote(snippet.as_str()).as_str()),
        None => concat(s.as_str(), "null"),
    };
    concat(s.as_str(), "}")
}

impl BingSearch {
    /// The text a search answers: the first three results as a JSON array; `None` when there
    /// are fewer.
    pub fn result_text(pages: Vec<WebPage>) -> (res: Option<String>)
        ensures
            match res {
                Some(t) => pages@.len() >= SHOWN_RESULTS && t@ == results_json(pages@[0], pages@[1], pages@[2]),
                None => pages@.len() < SHOWN_RESULTS,
            },
    {
        match Self::top_pages(pages) {
            None => None,
            Some(top) => {
                let s = concat("[", page_text(&top[0]).as_str());
                let s = concat(s.as_str(), ",");
                let s = concat(s.as_str(), page_text(&top[1]).as_str());
                let s = concat(s.as_str(), ",");
                let s = concat(s.as_str(), page_text(&top[2]).as_str());
                Some(concat(s.as_str(), "]"))
            },
        }
    }
}

/// Exchange rates through exchangerate.host.
pub struct CurrencyExchangeRate;

/// The currencies whose rates are reported.
pub open spec fn supported_currency(c: Seq<char>) -> bool {
    c == "USD"@ || c == "EUR"@ || c == "UAH"@ || c == "RUB"@ || c == "CNY"@
}

/// Whether a currency's rate is reported: USD, EUR, UAH, RUB and CNY are.
pub fn is_supported_currency(currency: &str) -> (res: bool)
    ensures
        res == supported_currency(currency@),
{
    equals(currency, "USD") || equals(currency, "EUR") || equals(currency, "UAH") || equals(
        currency,
        "RUB",
    ) || equals(currency, "CNY")
}

impl CurrencyExchangeRate {
    /// The endpoint that is queried.
    pub fn endpoint() -> (res: &'static str)
        ensures
            res@ == "https://api.exchangerate.host/latest"@,
    {
        "https://api.exchangerate.host/latest"
    }

    /// The query parameters for rates against `base`.
    pub fn query_params(base: &str) -> (res: Vec<(String, String)>)
        ensures
            res@.len() == 1,
            res@[0].0@ == "base"@ && res@[0].1@ == base@,
    {
        vec![("base".to_owned(), base.to_owned())]
    }
}

/// Translation through Google Cloud Translation.
pub struct GoogleTranslate;

/// Why a translation gave no text.
#[derive(Debug, Clone, Copy, PartialEq, Eq, Structural)]
pub enum TranslateError {
    /// The answer holds no list of translations.
    OutputEmpty,
    /// The list of translations is empty.
    NoTranslations,
    /// The first translation has no text.
    NoText,
}

impl TranslateError {
    /// The error's text.
    pub fn message(&self) -> (res: &'static str)
        ensures
            res@ == match *self {
                TranslateError::OutputEmpty => "output is empty"@,
                TranslateError::NoTranslations => "output is non empty but contains no translations"@,
                TranslateError::NoText => "no text was translated"@,
            },
    {
        match self {
            TranslateError::OutputEmpty => "output is empty",
            TranslateError::NoTranslations => "output is non empty but contains no translations",
            TranslateError::NoText => "no text was translated",
        }
    }
}

/// A translation request.
pub struct TranslateRequest {
    pub contents: Vec<String>,
    pub target_language_code: String,
    pub parent: String,
}

impl GoogleTranslate {
    /// The request that translates `text` to `to_language` within the project `project_id`.
    pub fn request(to_language: &str, text: &str, project_id: &str) -> (res: TranslateRequest)
        ensures
            res.contents@.len() == 1,
            res.contents@[0]@ == text@,
            res.target_language_code@ == to_language@,
            res.parent@ == "projects/"@ + project_id@,
    {
        TranslateRequest {
            contents: vec![text.to_owned()],
            target_language_code: to_language.to_owned(),
            parent: concat("projects/", project_id),
        }
    }

    /// The translated text of an answer: the text of its first translation. `translations`
    /// holds the text of each translation of the answer, `None` where it has none.
    pub fn pick_translation(translations: Option<Vec<Option<String>>>) -> (res: Result<String, TranslateError>)
        ensures
            match translations {
                None => res == Err::<String, TranslateError>(TranslateError::OutputEmpty),
                Some(ts) => if ts@.len() == 0 {
                    res == Err::<String, TranslateError>(TranslateError::NoTranslations)
                } else {
                    match ts@[0] {
                        Some(t) => res matches Ok(r) && r@ == t@,
                        None => res == Err::<String, TranslateError>(TranslateError::NoText),
                    }
                },
            },
    {
        match translations {
            None => Err(TranslateError::OutputEmpty),
            Some(mut ts) => {
                if ts.len() == 0 {
                    Err(TranslateError::NoTranslations)
                } else {
                    match ts.swap_remove(0) {
                        Some(t) => Ok(t),
                        None => Err(TranslateError::NoText),
                    }
                }
            },
        }
    }
}

/// The standard base64 alphabet.
pub open spec fn base64_alphabet() -> Seq<char> {
    "ABCDEFGHIJKLMNOPQRSTUVWXYZabcdefghijklmnopqrstuvwxyz0123456789+/"@
}

/// The character of a 6-bit value.
pub open spec fn b64(v: int) -> char {
    base64_alphabet()[v]
}

/// What `base64`'s standard engine encodes `bytes` to: each group of three bytes as four
/// characters of six bits each, and a last group of one or two bytes padded with `=` to four.
pub open spec fn base64_encoding(bytes: Seq<u8>) -> Seq<char>
    decreases bytes.len(),
{
    if bytes.len() == 0 {
        Seq::<char>::empty()
    } else if bytes.len() == 1 {
        let a = bytes[0] as int;
        seq![b64(a / 4), b64((a % 4) * 16), '=', '=']
    } else if bytes.len() == 2 {
        let a = bytes[0] as int;
        let b = bytes[1] as int;
        seq![b64(a / 4), b64((a % 4) * 16 + b / 16), b64((b % 16) * 4), '=']
    } else {
        let a = bytes[0] as int;
        let b = bytes[1] as int;
        let c = bytes[2] as int;
        seq![b64(a / 4), b64((a % 4) * 16 + b / 16), b64((b % 16) * 4 + c / 64), b64(c % 64)]
            + base64_encoding(bytes.subrange(3, bytes.len() as int))
    }
}

/// What `base64`'s standard engine decodes `text` to; `None` when it is not valid base64.
pub uninterp spec fn base64_decoding(text: Seq<char>) -> Option<Seq<u8>>;

/// `base64::DecodeError`.
#[verifier::external_type_specification]
#[verifier::external_body]
pub struct ExDecodeError(base64::DecodeError);

/// `Engine::encode` of `base64::engine::general_purpose::STANDARD` (standard alphabet, with
/// padding). It panics only when the encoded length overflows `usize`, which the bound on the
/// input rules out.
#[verifier::external_body]
fn base64_encode(bytes: &[u8]) -> (res: String)
    requires
        bytes@.len() <= usize::MAX / 2,
    ensures
        res@ == base64_encoding(bytes@),
{
    base64::engine::general_purpose::STANDARD.encode(bytes)
}

/// `Engine::decode` of `base64::engine::general_purpose::STANDARD`. The contract says only that
/// the outcome is a function of the text; which error comes is not stated.
#[verifier::external_body]
fn base64_decode(text: &str) -> (res: Result<Vec<u8>, base64::DecodeError>)
    ensures
        res is Ok <==> base64_decoding(text@) is Some,
        res matches Ok(v) ==> v@ == base64_decoding(text@)->0,
{
    base64::engine::general_purpose::STANDARD.decode(text)
}

/// Image generation through a Stable Diffusion web API, with a per-chat pause between requests.
pub struct SdDraw {
    /// When each chat last got an image request accepted, in nanoseconds of a clock that the
    /// application keeps.
    timeouts: std::collections::HashMap<i64, u64>,
}

/// Why an image could not be made.
pub enum SdDrawError {
    /// The chat must wait; the text says how long.
    Timeout(String),
    /// The answer holds no image.
    EmptyResponse,
    /// The image is not valid base64.
    InvalidBase64(base64::DecodeError),
}

/// Whole seconds from `then` to `now`, zero when `now` is earlier.
pub open spec fn elapsed_secs(then: u64, now: u64) -> int {
    if now >= then {
        (now - then) / 1_000_000_000
    } else {
        0
    }
}

/// The decision on an image request of `chat` at `now`: `Some(seconds left)` when the chat is
/// on the timeout list and its last accepted request is less than `timeout` seconds old, else
/// `None` (accepted).
pub open spec fn sd_wait(
    last: Map<i64, u64>,
    chat: i64,
    now: u64,
    timeout: u64,
    list: Seq<SdId>,
) -> Option<int> {
    if last.contains_key(chat) && list.contains(chat) && elapsed_secs(last[chat], now) < timeout {
        Some(timeout - elapsed_secs(last[chat], now))
    } else {
        None
    }
}

/// The text that tells a chat to wait `left` seconds: the configured format string with the
/// number in place of its `{}`, or a fixed text when none is configured.
pub open spec fn timeout_text(message: Option<(Seq<char>, Seq<char>)>, left: nat) -> Seq<char> {
    match message {
        Some(parts) => parts.0 + decimal(left) + parts.1,
        None => "Stable diffusion timeout message is missing"@,
    }
}

impl View for SdDraw {
    type V = Map<i64, u64>;

    closed spec fn view(&self) -> Map<i64, u64> {
        self.timeouts@
    }
}

/// Whether `id` is in `list`.
pub fn contains_id(list: &Vec<SdId>, id: SdId) -> (res: bool)
    ensures
        res == list@.contains(id),
{
    let mut i: usize = 0;
    while i < list.len()
        invariant
            i <= list.len(),
            forall|j: int| 0 <= j < i ==> list@[j] != id,
        decreases list.len() - i,
    {
        if list[i] == id {
            return true;
        }
        i = i + 1;
    }
    false
}

impl SdDraw {
    /// No chat has made a request yet.
    pub fn new() -> (res: SdDraw)
        ensures
            res@ == Map::<i64, u64>::empty(),
    {
        SdDraw { timeouts: std::collections::HashMap::new() }
    }

    /// Decides on an image request of `chat_id` at `now` (nanoseconds of the application's
    /// clock): refused with the waiting text while the chat's pause lasts, leaving the record as
    /// it is; else accepted, and `now` becomes the chat's last accepted request.
    pub fn check_timeout(&mut self, chat_id: i64, now: u64, settings: &Settings) -> (res: Result<(), String>)
        ensures
            match sd_wait(old(self)@, chat_id, now, settings.sd_timeout, settings.sd_timeout_list@) {
                Some(left) => final(self)@ == old(self)@ && (res matches Err(text) && text@
                    == timeout_text(
                    match settings.sd_timeout_message {
                        Some(f) => Some(f@),
                        None => None,
                    },
                    left as nat,
                )),
                None => final(self)@ == old(self)@.insert(chat_id, now) && res is Ok,
            },
    {
        let last = self.timeouts.get(&chat_id);
        match last {
            Some(then) => {
                let then = *then;
                let elapsed: u64 = if now >= then {
                    (now - then) / 1_000_000_000
                } else {
                    0
                };
                if contains_id(&settings.sd_timeout_list, chat_id) && elapsed < settings.sd_timeout {
                    let left = settings.sd_timeout - elapsed;
                    let text = match &settings.sd_timeout_message {
                        Some(f) => f.format(decimal_string(left).as_str()),
                        None => "Stable diffusion timeout message is missing".to_owned(),
                    };
                    return Err(text);
                }
            },
            None => {},
        }
        self.timeouts.insert(chat_id, now);
        Ok(())
    }

    /// The prompt sent for an image, from the translated description.
    pub fn prompt(translated: &str) -> (res: String)
        ensures
            res@ == "(masterpiece, best quality), "@ + translated@,
    {
        concat("(masterpiece, best quality), ", translated)
    }

    /// The endpoint that makes images from text.
    pub fn txt2img_url(sd_url: &str) -> (res: String)
        ensures
            res@ == sd_url@ + "/sdapi/v1/txt2img"@,
    {
        concat(sd_url, "/sdapi/v1/txt2img")
    }

    /// The image of an answer: the first image, decoded from base64.
    pub fn decode_first_image(images: &Vec<String>) -> (res: Result<Vec<u8>, SdDrawError>)
        ensures
            images@.len() == 0 ==> res matches Err(SdDrawError::EmptyResponse),
            images@.len() > 0 ==> match base64_decoding(images@[0]@) {
                Some(bytes) => res matches Ok(v) && v@ == bytes,
                None => res matches Err(SdDrawError::InvalidBase64(_)),
            },
    {
        if images.len() == 0 {
            return Err(SdDrawError::EmptyResponse);
        }
        match base64_decode(images[0].as_str()) {
            Ok(v) => Ok(v),
            Err(e) => Err(SdDrawError::InvalidBase64(e)),
        }
    }
}

/// A request to a chat whose pause lasts is refused, and leaves the record unchanged: so a
/// chat on the list stays refused until its pause is over, however often it asks.
pub proof fn law_refusal_keeps_record(
    last: Map<i64, u64>,
    chat: i64,
    now: u64,
    later: u64,
    timeout: u64,
    list: Seq<SdId>,
)
    requires
        sd_wait(last, chat, now, timeout, list) is Some,
        now <= later,
        last[chat] <= now,
        elapsed_secs(last[chat], later) < timeout,
    ensures
        sd_wait(last, chat, later, timeout, list) is Some,
{
}

/// After a chat on the list gets a request accepted at `t`, its requests within `timeout`
/// seconds are refused, told how many seconds are left.
pub proof fn law_accept_starts_pause(
    last: Map<i64, u64>,
    chat: i64,
    t: u64,
    later: u64,
    timeout: u64,
    list: Seq<SdId>,
)
    requires
        list.contains(chat),
        t <= later,
        elapsed_secs(t, later) < timeout,
    ensures
        sd_wait(last.insert(chat, t), chat, later, timeout, list) == Some(
            timeout - elapsed_secs(t, later),
        ),
{
}

/// A chat that is not on the timeout list is never refused.
pub proof fn law_unlisted_never_waits(
    last: Map<i64, u64>,
    chat: i64,
    now: u64,
    timeout: u64,
    list: Seq<SdId>,
)
    requires
        !list.contains(chat),
    ensures
        sd_wait(last, chat, now, timeout, list) is None,
{
}

/// A request made once the pause is over is accepted.
pub proof fn law_pause_ends(
    last: Map<i64, u64>,
    chat: i64,
    now: u64,
    timeout: u64,
    list: Seq<SdId>,
)
    requires
        last.contains_key(chat),
        elapsed_secs(last[chat], now) >= timeout,
    ensures
        sd_wait(last, chat, now, timeout, list) is None,
{
}

/// Image description through the Stable Diffusion web API.
pub struct SdWhat;

/// The body of an image description request.
pub struct InterrogateBody {
    pub model: String,
    pub image: String,
}

/// Why an image could not be described before any request was made.
#[derive(Debug, Clone, Copy, PartialEq, Eq, Structural)]
pub enum SdWhatError {
    NoPhoto,
}

impl SdWhatError {
    pub fn message(&self) -> (res: &'static str)
        ensures
            res@ == "No photo to interrogate"@,
    {
        "No photo to interrogate"
    }
}

impl SdWhat {
    /// The photo to describe; an error when there is none.
    pub fn file_id(file_id: Option<String>) -> (res: Result<String, SdWhatError>)
        ensures
            match file_id {
                Some(f) => res == Ok::<String, SdWhatError>(f),
                None => res == Err::<String, SdWhatError>(SdWhatError::NoPhoto),
            },
    {
        match file_id {
            Some(f) => Ok(f),
            None => Err(SdWhatError::NoPhoto),
        }
    }

    /// The endpoint that describes images.
    pub fn interrogate_url(sd_url: &str) -> (res: String)
        ensures
            res@ == sd_url@ + "/sdapi/v1/interrogate"@,
    {
        concat(sd_url, "/sdapi/v1/interrogate")
    }

    /// The request body for an image already encoded in base64.
    pub fn request_body(encoded_image: &str) -> (res: InterrogateBody)
        ensures
            res.model@ == "clip"@,
            res.image@ == "data:image/png;base64,"@ + encoded_image@,
    {
        InterrogateBody {
            model: "clip".to_owned(),
            image: concat("data:image/png;base64,", encoded_image),
        }
    }

    /// The request body for an image, encoded in base64 here.
    pub fn request_for_image(image: &Vec<u8>) -> (res: InterrogateBody)
        requires
            image@.len() <= usize::MAX / 2,
        ensures
            res.model@ == "clip"@,
            res.image@ == "data:image/png;base64,"@ + base64_encoding(image@),
    {
        let encoded = base64_encode(image.as_slice());
        Self::request_body(encoded.as_str())
    }
}

} // verus!
