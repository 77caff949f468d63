//! The functions that the assistant may call: how each is described to it, and what each
//! answers from what it got.

use vstd::prelude::*;
use std::fmt::Write;
use crate::text::concat;

verus! {

/// One parameter of a function described to the assistant: its name, its JSON type, and a note
/// under `note_key` (`description` for every parameter but `draw`'s `nsfw`, whose note stands
/// under the key `nsfw`).
pub struct ParamDef {
    pub name: String,
    pub kind: String,
    pub note_key: String,
    pub note: String,
}

/// A function described to the assistant.
pub struct FunctionDef {
    pub name: String,
    pub description: String,
    pub params: Vec<ParamDef>,
    pub required: Vec<String>,
}

/// A parameter as values: name, type, note key, note.
pub type ParamView = (Seq<char>, Seq<char>, Seq<char>, Seq<char>);

/// A function description as values.
pub struct FunctionDefView {
    pub name: Seq<char>,
    pub description: Seq<char>,
    pub params: Seq<ParamView>,
    pub required: Seq<Seq<char>>,
}

impl View for ParamDef {
    type V = ParamView;

    open spec fn view(&self) -> ParamView {
        (self.name@, self.kind@, self.note_key@, self.note@)
    }
}

impl View for FunctionDef {
    type V = FunctionDefView;

    open spec fn view(&self) -> FunctionDefView {
        FunctionDefView {
            name: self.name@,
            description: self.description@,
            params: self.params@.map_values(|p: ParamDef| p@),
            required: self.required@.map_values(|s: String| s@),
        }
    }
}

fn param(name: &str, kind: &str, note_key: &str, note: &str) -> (res: ParamDef)
    ensures
        res@ == (name@, kind@, note_key@, note@),
{
    ParamDef {
        name: name.to_owned(),
        kind: kind.to_owned(),
        note_key: note_key.to_owned(),
        note: note.to_owned(),
    }
}

fn def(name: &str, description: &str, params: Vec<ParamDef>, required: Vec<String>) -> (res: FunctionDef)
    ensures
        res@ == (FunctionDefView {
            name: name@,
            description: description@,
            params: params@.map_values(|p: ParamDef| p@),
            required: required@.map_values(|s: String| s@),
        }),
{
    FunctionDef { name: name.to_owned(), description: description.to_owned(), params, required }
}

pub open spec fn get_time_desc() -> FunctionDefView {
    FunctionDefView {
        name: "get_time"@,
        description: "Get current time"@,
        params: seq![
            ("offset_hours"@, "integer"@, "description"@, "UTC time offset in hours"@),
            ("offset_minutes"@, "integer"@, "description"@, "UTC time offset in minutes"@),
        ],
        required: seq!["offset_hours"@, "offset_minutes"@],
    }
}

pub open spec fn translate_desc() -> FunctionDefView {
    FunctionDefView {
        name: "translate"@,
        description: "Translate text"@,
        params: seq![
            ("to_language"@, "string"@, "description"@, "BCP-47 language code"@),
            ("text"@, "string"@, "description"@, "Text to translate"@),
        ],
        required: seq!["text"@, "to_language"@],
    }
}

pub open spec fn draw_desc() -> FunctionDefView {
    FunctionDefView {
        name: "draw"@,
        description: "Draw image"@,
        params: seq![
            ("description"@, "string"@, "description"@, "Description of an image"@),
            ("nsfw"@, "boolean"@, "nsfw"@, "Is description NSFW or not"@),
        ],
        required: seq!["description"@, "nsfw"@],
    }
}

pub open spec fn ban_desc() -> FunctionDefView {
    FunctionDefView {
        name: "ban"@,
        description: "Restrict user for bad behaviour"@,
        params: Seq::empty(),
        required: Seq::empty(),
    }
}

pub open spec fn recognize_desc() -> FunctionDefView {
    FunctionDefView {
        name: "recognize"@,
        description: "Recognize image"@,
        params: seq![("file_id"@, "string"@, "description"@, "File id"@)],
        required: seq!["file_id"@],
    }
}

pub open spec fn search_desc() -> FunctionDefView {
    FunctionDefView {
        name: "search"@,
        description: "Web search"@,
        params: seq![("query"@, "string"@, "description"@, "Web search query"@)],
        required: seq!["query"@],
    }
}

pub open spec fn exchange_rates_desc() -> FunctionDefView {
    FunctionDefView {
        name: "exchange_rates"@,
        description: "Get exchange rates"@,
        params: seq![
            ("base"@, "string"@, "description"@, "Base currency in format e.g. USD, EUR"@),
        ],
        required: seq!["base"@],
    }
}

/// Tells the current time at a UTC offset.
pub struct GetTime;

/// Translates text.
pub struct Translate;

/// Draws an image.
pub struct Draw;

/// Restricts a user.
pub struct Ban;

/// Tells what a photo shows.
pub struct Recognize;

/// Searches the web.
pub struct Search;

/// Tells exchange rates.
pub struct ExchangeRates;

impl GetTime {
    pub fn desc() -> (res: FunctionDef)
        ensures
            res@ == get_time_desc(),
    {
        let params = vec![
            param("offset_hours", "integer", "description", "UTC time offset in hours"),
            param("offset_minutes", "integer", "description", "UTC time offset in minutes"),
        ];
        let required = vec!["offset_hours".to_owned(), "offset_minutes".to_owned()];
        let res = def("get_time", "Get current time", params, required);
        proof {
            assert(res@.params =~= get_time_desc().params);
            assert(res@.required =~= get_time_desc().required);
        }
        res
    }
}

impl Translate {
    pub fn desc() -> (res: FunctionDef)
        ensures
            res@ == translate_desc(),
    {
        let params = vec![
            param("to_language", "string", "description", "BCP-47 language code"),
            param("text", "string", "description", "Text to translate"),
        ];
        let required = vec!["text".to_owned(), "to_language".to_owned()];
        let res = def("translate", "Translate text", params, required);
        proof {
            assert(res@.params =~= translate_desc().params);
            assert(res@.required =~= translate_desc().required);
        }
        res
    }
}

impl Draw {
    pub fn desc() -> (res: FunctionDef)
        ensures
            res@ == draw_desc(),
    {
        let params = vec![
            param("description", "string", "description", "Description of an image"),
            param("nsfw", "boolean", "nsfw", "Is description NSFW or not"),
        ];
        let required = vec!["description".to_owned(), "nsfw".to_owned()];
        let res = def("draw", "Draw image", params, required);
        proof {
            assert(res@.params =~= draw_desc().params);
            assert(res@.required =~= draw_desc().required);
        }
        res
    }
}

impl Ban {
    pub fn desc() -> (res: FunctionDef)
        ensures
            res@ == ban_desc(),
    {
        let res = def("ban", "Restrict user for bad behaviour", Vec::new(), Vec::new());
        proof {
            assert(res@.params =~= ban_desc().params);
            assert(res@.required =~= ban_desc().required);
        }
        res
    }

    /// What the bot answers in the chat to restrict a user.
    pub fn reply_text() -> (res: &'static str)
        ensures
            res@ == "/ban"@,
    {
        "/ban"
    }
}

impl Recognize {
    pub fn desc() -> (res: FunctionDef)
        ensures
            res@ == recognize_desc(),
    {
        let params = vec![param("file_id", "string", "description", "File id")];
        let required = vec!["file_id".to_owned()];
        let res = def("recognize", "Recognize image", params, required);
        proof {
            assert(res@.params =~= recognize_desc().params);
            assert(res@.required =~= recognize_desc().required);
        }
        res
    }
}

impl Search {
    pub fn desc() -> (res: FunctionDef)
        ensures
            res@ == search_desc(),
    {
        let params = vec![param("query", "string", "description", "Web search query")];
        let required = vec!["query".to_owned()];
        let res = def("search", "Web search", params, required);
        proof {
            assert(res@.params =~= search_desc().params);
            assert(res@.required =~= search_desc().required);
        }
        res
    }
}

impl ExchangeRates {
    pub fn desc() -> (res: FunctionDef)
        ensures
            res@ == exchange_rates_desc(),
    {
        let params = vec![param("base", "string", "description", "Base currency in format e.g. USD, EUR")];
        let required = vec!["base".to_owned()];
        let res = def("exchange_rates", "Get exchange rates", params, required);
        proof {
            assert(res@.params =~= exchange_rates_desc().params);
            assert(res@.required =~= exchange_rates_desc().required);
        }
        res
    }
}

/// The functions offered to the assistant, in the order they are offered.
pub open spec fn offered_functions() -> Seq<FunctionDefView> {
    seq![
        get_time_desc(),
        translate_desc(),
        draw_desc(),
        recognize_desc(),
        search_desc(),
        exchange_rates_desc(),
    ]
}

/// The descriptions of the functions offered to the assistant.
pub fn function_descs() -> (res: Vec<FunctionDef>)
    ensures
        res@.map_values(|d: FunctionDef| d@) == offered_functions(),
{
    let res = vec![
        GetTime::desc(),
        Translate::desc(),
        Draw::desc(),
        Recognize::desc(),
        Search::desc(),
        ExchangeRates::desc(),
    ];
    proof {
        assert(res@.map_values(|d: FunctionDef| d@) =~= offered_functions());
    }
    res
}

/// The text that a function gives the assistant: its result, or the failure text followed by
/// the error.
pub open spec fn outcome_text_spec(result: Result<Seq<char>, Seq<char>>, failure: Seq<char>) -> Seq<char> {
    match result {
        Ok(text) => text,
        Err(err) => failure + err,
    }
}

/// The text that a function gives the assistant (see [`outcome_text_spec`]).
pub fn outcome_text(result: Result<String, String>, failure: &str) -> (res: String)
    ensures
        res@ == outcome_text_spec(
            match result {
                Ok(t) => Ok(t@),
                Err(e) => Err(e@),
            },
            failure@,
        ),
{
    match result {
        Ok(text) => text,
        Err(err) => concat(failure, err.as_str()),
    }
}

/// The failure text of a translation.
pub const TRANSLATE_FAILED: &'static str = "Failed to translate:\n";

/// The failure text of a web search.
pub const SEARCH_FAILED: &'static str = "Web search failed:\n";

/// The failure text of an exchange rate lookup.
pub const EXCHANGE_RATES_FAILED: &'static str = "Get exchange rates failed:\n";

/// The answer of `get_time` when the offset is out of range.
pub const INVALID_TIMEZONE: &'static str = "Invalid timezone";

/// `chrono::FixedOffset::east_opt` followed by `FixedOffset::local_minus_utc`: the offset of
/// `secs` seconds east of UTC, which exists exactly when `secs` lies strictly between -86400
/// and 86400, and then holds `secs`, as chrono's source shows.
#[verifier::external_body]
fn fixed_offset_east(secs: i32) -> (res: Option<i32>)
    ensures
        res == (if -86_400 < secs < 86_400 {
            Some(secs)
        } else {
            None
        }),
{
    match chrono::FixedOffset::east_opt(secs) {
        Some(offset) => Some(offset.local_minus_utc()),
        None => None,
    }
}

/// The offset in seconds that `get_time` is asked for.
pub open spec fn offset_seconds(offset_h: i32, offset_m: i32) -> int {
    offset_h * 3600 + offset_m * 60
}

/// The offset that `get_time` tells the time at: `None` when it is not a valid UTC offset.
pub open spec fn offset_secs_spec(offset_h: i32, offset_m: i32) -> Option<i32> {
    if -86_400 < offset_seconds(offset_h, offset_m) < 86_400 {
        Some(offset_seconds(offset_h, offset_m) as i32)
    } else {
        None
    }
}

/// The `chrono` format pattern of `get_time`'s answer: a JSON object with the date and time.
pub const TIME_PATTERN: &'static str = "{\"date\":\"%Y-%m-%d\",\"time\":\"%H:%M:%S\"}";

/// What `chrono` writes for the UTC instant `utc_secs` (seconds since 1970) at the offset
/// `offset_secs` with the format `pattern`; `None` when it cannot.
pub uninterp spec fn time_text(utc_secs: i64, offset_secs: i32, pattern: Seq<char>) -> Option<Seq<char>>;

/// `chrono::DateTime::from_timestamp(utc_secs, 0)`, moved to `FixedOffset::east_opt(offset_secs)`
/// with `with_timezone`, and written with `format(pattern)`. `from_timestamp` gives nothing when
/// the day count `utc_secs / 86400 + 719163` is out of the range of `i32`, as its source shows;
/// which other instants and patterns give nothing is not stated.
#[verifier::external_body]
fn format_time_at(utc_secs: i64, offset_secs: i32, pattern: &str) -> (res: Option<String>)
    requires
        -86_400 < offset_secs < 86_400,
    ensures
        crate::db::opt_view(res) == time_text(utc_secs, offset_secs, pattern@),
        !(i32::MIN <= utc_secs / 86_400 + 719_163 <= i32::MAX) ==> res is None,
{
    let offset = match chrono::FixedOffset::east_opt(offset_secs) {
        Some(o) => o,
        None => return None,
    };
    let utc = match chrono::DateTime::from_timestamp(utc_secs, 0) {
        Some(t) => t,
        None => return None,
    };
    let mut out = String::new();
    match write!(out, "{}", utc.with_timezone(&offset).format(pattern)) {
        Ok(()) => Some(out),
        Err(_) => None,
    }
}

impl GetTime {
    /// The UTC offset in seconds to tell the time at, or `None` when it is out of range (the
    /// answer is then [`INVALID_TIMEZONE`]).
    pub fn offset_secs(offset_h: i32, offset_m: i32) -> (res: Option<i32>)
        ensures
            res == offset_secs_spec(offset_h, offset_m),
    {
        let secs: i64 = offset_h as i64 * 3600 + offset_m as i64 * 60;
        if i32::MIN as i64 <= secs && secs <= i32::MAX as i64 {
            fixed_offset_east(secs as i32)
        } else {
            None
        }
    }

    /// The answer of `get_time` at the UTC instant `utc_secs`: the date and time at the offset
    /// asked for, as [`TIME_PATTERN`] writes them, or [`INVALID_TIMEZONE`] when the offset is out
    /// of range; `None` when the instant cannot be written.
    pub fn answer(offset_h: i32, offset_m: i32, utc_secs: i64) -> (res: Option<String>)
        ensures
            match offset_secs_spec(offset_h, offset_m) {
                Some(secs) => crate::db::opt_view(res) == time_text(utc_secs, secs, TIME_PATTERN@),
                None => res matches Some(t) && t@ == INVALID_TIMEZONE@,
            },
    {
        match Self::offset_secs(offset_h, offset_m) {
            Some(secs) => format_time_at(utc_secs, secs, TIME_PATTERN),
            None => Some(INVALID_TIMEZONE.to_owned()),
        }
    }
}

} // verus!
