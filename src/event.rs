//! Event records: one unit of work against a project, built from user input
//! and a fresh timestamp and identifier, and rendered as a JSON object.
use vstd::prelude::*;
use crate::cli::{EventAddCommand, EventCommand, EventSubcommand};
use crate::date::{DisplayDate, parsed_date, parse_display_date, today_local, get_current_timestamp};
use crate::text::{int_text, push_int_text};

verus! {

#[verifier::external_type_specification]
#[verifier::external_body]
pub struct ExJsonError(serde_json::Error);

/// Marks a message or project the user did not give, as distinct from an
/// empty one.
pub open spec fn missing_text() -> Seq<char> {
    "NULL"@
}

/// The given text, or the marker for a missing one.
pub open spec fn text_or_missing(s: Option<Seq<char>>) -> Seq<char> {
    match s {
        Some(t) => t,
        None => missing_text(),
    }
}

pub open spec fn opt_view(s: &Option<String>) -> Option<Seq<char>> {
    match s {
        Some(t) => Some(t@),
        None => None,
    }
}

/// A lowercase hexadecimal digit.
pub open spec fn hex_char(n: nat) -> char {
    if n < 10 { crate::text::digit_char(n) }
    else if n == 10 { 'a' }
    else if n == 11 { 'b' }
    else if n == 12 { 'c' }
    else if n == 13 { 'd' }
    else if n == 14 { 'e' }
    else { 'f' }
}

/// How serde_json writes one character inside a string literal: quote and
/// backslash escaped, the named escapes for backspace, tab, line feed, form
/// feed and carriage return, `\u00XX` for the other control characters,
/// and any other character as itself.
pub open spec fn json_escaped_char(c: char) -> Seq<char> {
    let n = c as u32;
    if c == '"' { seq!['\\', '"'] }
    else if c == '\\' { seq!['\\', '\\'] }
    else if n == 8 { seq!['\\', 'b'] }
    else if n == 9 { seq!['\\', 't'] }
    else if n == 10 { seq!['\\', 'n'] }
    else if n == 12 { seq!['\\', 'f'] }
    else if n == 13 { seq!['\\', 'r'] }
    else if n < 32 { seq!['\\', 'u', '0', '0', hex_char((n / 16) as nat), hex_char((n % 16) as nat)] }
    else { seq![c] }
}

/// The escaped characters of `s`, in order.
pub open spec fn json_escaped(s: Seq<char>) -> Seq<char>
    decreases s.len(),
{
    if s.len() == 0 {
        Seq::empty()
    } else {
        json_escaped(s.drop_last()) + json_escaped_char(s.last())
    }
}

/// What serde_json writes for a string: the escaped text between quotes.
pub open spec fn json_text(s: Seq<char>) -> Seq<char> {
    seq!['"'] + json_escaped(s) + seq!['"']
}

/// Relies on `serde_json::to_string` on a `&str`: the JSON string literal,
/// escaped by serde_json's escape table and `write_char_escape`. Serializing
/// a string into serde_json's in-memory buffer cannot fail.
#[verifier::external_body]
fn json_string(s: &str) -> (r: Result<String, serde_json::Error>)
    ensures
        r is Ok,
        r matches Ok(t) ==> t@ == json_text(s@),
{
    serde_json::to_string(s)
}

/// Appends the JSON string literal of `s` to `out`.
fn push_json_string(out: &mut String, s: &str)
    ensures
        final(out)@ == old(out)@ + json_text(s@),
{
    match json_string(s) {
        Ok(t) => out.append(t.as_str()),
        Err(_) => {
            proof { assert(false); }
        },
    }
}

pub open spec fn is_lower_hex(c: char) -> bool {
    ('0' <= c && c <= '9') || ('a' <= c && c <= 'f')
}

/// Relies on uuid's `Uuid::new_v4().to_simple().to_string()`: a random
/// identifier, written as 32 lowercase hexadecimal digits.
#[verifier::external_body]
fn new_id_text() -> (r: String)
    ensures
        r@.len() == 32,
        forall|i: int| 0 <= i < r@.len() ==> is_lower_hex(#[trigger] r@[i]),
{
    uuid::Uuid::new_v4().to_simple().to_string()
}

/// Why an event record could not be built.
#[derive(Debug, Clone, PartialEq, Eq)]
pub enum EventError {
    /// The date the user gave is not in the `DD-Mon-YY` form.
    InvalidDate(String),
}

/// The record's fields as mathematical values.
pub struct EventView {
    pub timestamp: int,
    pub message: Seq<char>,
    pub project: Seq<char>,
    pub display_date: Seq<char>,
    pub id: Seq<char>,
}

/// The JSON object of a staged record: its five fields, in order, with no
/// whitespace.
#[verifier::opaque]
pub open spec fn event_json(e: EventView) -> Seq<char> {
    "{\"timestamp\":"@ + int_text(e.timestamp)
        + ",\"message\":"@ + json_text(e.message)
        + ",\"project\":"@ + json_text(e.project)
        + ",\"now_str\":"@ + json_text(e.display_date)
        + ",\"uuid\":"@ + json_text(e.id)
        + "}"@
}

/// One unit of work: when it was staged, what was done, for which project,
/// the day it is attributed to, and a random identifier.
#[derive(Debug, Clone)]
pub struct Event {
    timestamp: i64,
    message: String,
    project: String,
    now_str: String,
    uuid: String,
}

/// The given text, or `"NULL"` when none was given.
pub fn handle_default_strings(message: &Option<String>) -> (r: String)
    ensures
        r@ == text_or_missing(opt_view(message)),
{
    match message {
        Some(msg) => msg.clone(),
        None => {
            proof { reveal_strlit("NULL"); }
            String::from_str("NULL")
        },
    }
}

/// The display date of a record from what chrono parsed of the date the
/// user gave: that date in the display form, or an error naming the text.
pub fn display_date_from(parsed: Option<DisplayDate>, given: &String) -> (r: Result<String, EventError>)
    requires
        parsed matches Some(d) ==> d.valid(),
    ensures
        match parsed {
            Some(d) => r matches Ok(t) && t@ == d.text(),
            None => r matches Err(EventError::InvalidDate(g)) && g@ == given@,
        },
{
    match parsed {
        Some(d) => Ok(d.to_text()),
        None => Err(EventError::InvalidDate(given.clone())),
    }
}

/// A display date that was settled on, and whether it was today's date put
/// in for a missing one (the user should be warned of that).
#[derive(Debug, Clone, PartialEq, Eq)]
pub struct ResolvedDate {
    pub text: String,
    pub defaulted: bool,
}

/// Settles the display date: today's when none is given, else the given one
/// as parsed in the `DD-Mon-YY` form.
pub fn resolve_display_date(date: &Option<String>, today: &DisplayDate) -> (r: Result<ResolvedDate, EventError>)
    requires
        today.valid(),
    ensures
        match date {
            None => r matches Ok(rd) && rd.text@ == today.text() && rd.defaulted,
            Some(s) => match parsed_date(s@) {
                Some(p) => r matches Ok(rd) && !rd.defaulted
                    && rd.text@ == crate::date::display_text(p.0, p.1, p.2),
                None => r matches Err(EventError::InvalidDate(g)) && g@ == s@,
            },
        },
{
    match date {
        None => Ok(ResolvedDate { text: today.to_text(), defaulted: true }),
        Some(s) => {
            let parsed = parse_display_date(s.as_str());
            match display_date_from(parsed, s) {
                Ok(t) => Ok(ResolvedDate { text: t, defaulted: false }),
                Err(e) => Err(e),
            }
        },
    }
}

/// Settles the display date of a new record: today's local date when none
/// is given, else the given one, which must be in the display form.
pub fn parse_command_line_date(dt: &Option<String>) -> (r: Result<ResolvedDate, EventError>)
    ensures
        match dt {
            None => r matches Ok(rd) && rd.defaulted
                && exists|d: DisplayDate| d.valid() && rd.text@ == d.text(),
            Some(s) => match parsed_date(s@) {
                Some(p) => r matches Ok(rd) && !rd.defaulted
                    && rd.text@ == crate::date::display_text(p.0, p.1, p.2),
                None => r matches Err(EventError::InvalidDate(g)) && g@ == s@,
            },
        },
{
    let today = today_local();
    resolve_display_date(dt, &today)
}

/// What building a record from an add command gives: an error exactly when
/// the given date does not parse; else a record with that date (or a valid
/// today, marked as defaulted, when none is given), the given message and
/// project or the marker, and a 32-digit lowercase hex identifier.
pub open spec fn built_as_asked(args: &EventAddCommand, r: Result<AddedEvent, EventError>) -> bool {
    &&& match args.date {
        Some(s) => match parsed_date(s@) {
            Some(p) => r matches Ok(a) && !a.date_defaulted
                && a.event@.display_date == crate::date::display_text(p.0, p.1, p.2),
            None => r matches Err(EventError::InvalidDate(g)) && g@ == s@,
        },
        None => r matches Ok(a) && a.date_defaulted
            && exists|d: DisplayDate| d.valid() && a.event@.display_date == d.text(),
    }
    &&& r matches Ok(a) ==> {
        &&& a.event@.message == text_or_missing(opt_view(&args.message))
        &&& a.event@.project == text_or_missing(opt_view(&args.project))
        &&& a.event@.id.len() == 32
        &&& forall|i: int| 0 <= i < 32 ==> is_lower_hex(#[trigger] a.event@.id[i])
    }
}

/// A freshly built record, and whether its date was defaulted to today.
#[derive(Debug, Clone)]
pub struct AddedEvent {
    pub event: Event,
    pub date_defaulted: bool,
}

/// What an event command asks of the program.
#[derive(Debug, Clone)]
pub enum EventAction {
    /// Stage this record.
    Stage(AddedEvent),
    /// Unstage the record with this identifier: not available yet.
    Unstage(String),
}

impl Event {
    pub closed spec fn view(&self) -> EventView {
        EventView {
            timestamp: self.timestamp as int,
            message: self.message@,
            project: self.project@,
            display_date: self.now_str@,
            id: self.uuid@,
        }
    }

    /// Builds a record; a missing message or project becomes `"NULL"`.
    pub fn new(
        timestamp: i64,
        id: String,
        display_date: String,
        message: &Option<String>,
        project: &Option<String>,
    ) -> (r: Event)
        ensures
            r@.timestamp == timestamp as int,
            r@.id == id@,
            r@.display_date == display_date@,
            r@.message == text_or_missing(opt_view(message)),
            r@.project == text_or_missing(opt_view(project)),
    {
        Event {
            timestamp,
            message: handle_default_strings(message),
            project: handle_default_strings(project),
            now_str: display_date,
            uuid: id,
        }
    }

    /// Builds a record from an add command: the current UTC second, a fresh
    /// identifier, and the date settled as in `resolve_display_date`.
    pub fn create(args: &EventAddCommand) -> (r: Result<AddedEvent, EventError>)
        ensures
            built_as_asked(args, r),
    {
        match parse_command_line_date(&args.date) {
            Err(e) => Err(e),
            Ok(rd) => {
                let timestamp = get_current_timestamp();
                let id = new_id_text();
                let event = Event::new(timestamp, id, rd.text, &args.message, &args.project);
                Ok(AddedEvent { event, date_defaulted: rd.defaulted })
            },
        }
    }

    pub fn timestamp(&self) -> (r: i64)
        ensures
            r as int == self@.timestamp,
    {
        self.timestamp
    }

    pub fn message(&self) -> (r: &str)
        ensures
            r@ == self@.message,
    {
        self.message.as_str()
    }

    pub fn project(&self) -> (r: &str)
        ensures
            r@ == self@.project,
    {
        self.project.as_str()
    }

    pub fn display_date(&self) -> (r: &str)
        ensures
            r@ == self@.display_date,
    {
        self.now_str.as_str()
    }

    pub fn id(&self) -> (r: &str)
        ensures
            r@ == self@.id,
    {
        self.uuid.as_str()
    }

    /// The first eight characters of the identifier, or all of it when shorter.
    pub fn short_id(&self) -> (r: String)
        ensures
            self@.id.len() >= 8 ==> r@ == self@.id.subrange(0, 8),
            self@.id.len() < 8 ==> r@ == self@.id,
    {
        let n: usize = self.uuid.as_str().unicode_len();
        let k: usize = if n < 8 { n } else { 8 };
        let s = self.uuid.as_str().substring_char(0, k);
        assert(self@.id.subrange(0, self@.id.len() as int) =~= self@.id);
        s.to_string()
    }

    /// The record as a JSON object, in the form of `event_json`.
    pub fn to_json(&self) -> (r: String)
        ensures
            r@ == event_json(self@),
    {
        let mut out = String::from_str("{\"timestamp\":");
        push_int_text(&mut out, self.timestamp);
        out.append(",\"message\":");
        push_json_string(&mut out, self.message.as_str());
        out.append(",\"project\":");
        push_json_string(&mut out, self.project.as_str());
        out.append(",\"now_str\":");
        push_json_string(&mut out, self.now_str.as_str());
        out.append(",\"uuid\":");
        push_json_string(&mut out, self.uuid.as_str());
        out.append("}");
        proof { reveal(event_json); }
        out
    }
}

/// What an event command asks for: a new record to stage, or an unstage
/// request, which is not available yet.
pub fn execute(args: &EventCommand) -> (r: Result<EventAction, EventError>)
    ensures
        args.command matches EventSubcommand::Add(a) ==> match r {
            Ok(EventAction::Stage(ae)) => built_as_asked(&a, Ok(ae)),
            Ok(EventAction::Unstage(_)) => false,
            Err(e) => built_as_asked(&a, Err(e)),
        },
        args.command matches EventSubcommand::Unstage(u) ==> (r matches Ok(EventAction::Unstage(id)) && id@ == u.id@),
{
    match &args.command {
        EventSubcommand::Add(a) => match Event::create(a) {
            Ok(ae) => Ok(EventAction::Stage(ae)),
            Err(e) => Err(e),
        },
        EventSubcommand::Unstage(u) => Ok(EventAction::Unstage(u.id.clone())),
    }
}

} // verus!
