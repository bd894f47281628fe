//! Rows of the ledger and the values they stand for.
//!
//! Only a few columns may be empty, and which ones depends on the type and
//! the state. A row that breaks those rules is refused with a named error
//! rather than read into something it does not say: letting it through would
//! corrupt the ledger quietly.

use vstd::prelude::*;

use crate::content::{Content, ContentType};
use crate::item::{Item, ItemId};
use crate::source::{Exclude, ExcludeId, Monitoring, PersonId, Source, SourceId};
use crate::state::{from_columns, ReleaseReference, State, StateName};
use crate::timestamp::{moment_read, reads_as, rfc3339_reading, rfc3339_text, Timestamp, EARLIEST, LATEST};
use crate::url::{self, item_outcome, source_outcome, NormalizedUrl};

verus! {

/// A row that cannot be read as what it stands for.
#[derive(Debug, Clone, PartialEq, Eq)]
pub enum RowError {
    UnknownContentType { id: i64, value: String },
    UnknownState { id: i64, value: String },
    /// The type needs the column, but it is empty.
    MissingColumn { id: i64, content_type: ContentType, column: &'static str },
    /// The type has no such column, but it holds a value.
    UnexpectedColumn { id: i64, content_type: ContentType, column: &'static str },
    /// Only a released item carries a reference.
    ReferenceWithoutRelease { id: i64, state: StateName },
    /// Only a held item, or one being transcribed toward holding, carries a
    /// deadline.
    DeadlineWithoutHold { id: i64, state: StateName },
    /// A held item without its deadline.
    MissingDeadline { id: i64 },
    UnnormalizedUrl { id: i64, column: &'static str, value: String },
    BadTimestamp { id: i64, column: &'static str, value: String },
    UnnormalizedSourceUrl { id: i64, value: String },
    BadSourceTimestamp { id: i64, value: String },
    /// Only one end of a watching period is set, or it does not end after
    /// it starts.
    BadPeriod { id: i64 },
    OutOfRange { table: &'static str, id: i64, column: &'static str, value: i64 },
    UnknownExcludeType { id: i64, value: String },
}

/// One `item` row as it is stored.
#[derive(Debug, Clone, PartialEq, Eq)]
pub struct ItemRow {
    pub id: i64,
    pub source_id: i64,
    pub url: String,
    pub content_type: String,
    pub published_at: String,
    pub scheduled_start_at: Option<String>,
    pub state: String,
    pub state_since: String,
    pub hold_until: Option<String>,
    pub title: Option<String>,
    pub body: Option<String>,
    pub in_reply_to_url: Option<String>,
    pub quoted_url: Option<String>,
    pub release_reference: Option<String>,
}

/// One `source` row as it is stored.
#[derive(Debug, Clone, PartialEq, Eq)]
pub struct SourceRow {
    pub id: i64,
    pub person_id: i64,
    pub url: String,
    pub enabled: i64,
    pub created_at: String,
    pub hold_days: Option<i64>,
    pub priority: i64,
    pub monitor_from: Option<String>,
    pub monitor_until: Option<String>,
}

/// One `exclude` row as it is stored.
#[derive(Debug, Clone, PartialEq, Eq)]
pub struct ExcludeRow {
    pub id: i64,
    pub source_id: Option<i64>,
    pub content_type: String,
    pub enabled: i64,
}

/// The columns a value writes that may be empty.
#[derive(Debug, Clone, PartialEq, Eq)]
pub struct ItemColumns {
    pub title: Option<String>,
    pub body: Option<String>,
    pub in_reply_to_url: Option<String>,
    pub quoted_url: Option<String>,
    pub hold_until: Option<String>,
    pub release_reference: Option<String>,
}

/// The view of an optional text.
pub open spec fn opt(s: Option<String>) -> Option<Seq<char>> {
    match s {
        Some(t) => Some(t@),
        None => None,
    }
}

/// Whether a stored text is already the canonical URL of an item.
pub open spec fn canonical_item(value: Seq<char>) -> bool {
    item_outcome(value) matches Ok((c, _)) && c == value
}

/// Whether a stored link column stands for a link, and for which.
pub open spec fn link_read(column: Option<String>, link: Option<NormalizedUrl>) -> bool {
    match column {
        None => link is None,
        Some(v) => link matches Some(u) && u.text() == v@,
    }
}

/// A stored item URL, which must be canonical already: a text that is not
/// was edited by hand or written under other rules, and reading it in a new
/// form would disagree with the ledger's unique key.
pub fn normalized(id: i64, column: &'static str, value: &str) -> (r: Result<NormalizedUrl, RowError>)
    ensures
        canonical_item(value@) ==> (r matches Ok(u) && u.text() == value@),
        !canonical_item(value@) ==> (r matches Err(RowError::UnnormalizedUrl { id: i, column: c, value: v })
            && i == id && c == column && v@ == value@),
{
    match url::normalize_item(value) {
        Ok((canonical, _)) => {
            if crate::text::same(canonical.as_str(), value) {
                Ok(canonical)
            } else {
                Err(RowError::UnnormalizedUrl { id, column, value: value.to_owned() })
            }
        },
        Err(_) => Err(RowError::UnnormalizedUrl { id, column, value: value.to_owned() }),
    }
}

/// A stored date and time.
pub fn timestamp(id: i64, column: &'static str, value: &str) -> (r: Result<Timestamp, RowError>)
    ensures
        rfc3339_reading(value@) is Some <==> r is Ok,
        r matches Ok(t) ==> reads_as(value@, t),
        r matches Ok(t) ==> held_range(t),
        r matches Err(e) ==> e matches RowError::BadTimestamp { id: i, column: c, value: v } && i
            == id && c == column && v@ == value@,
{
    match Timestamp::parse(value) {
        Ok(t) => Ok(t),
        Err(_) => Err(RowError::BadTimestamp { id, column, value: value.to_owned() }),
    }
}

/// A stored count that must be positive and fit in 32 bits, if stored.
pub fn positive(value: Option<i64>, table: &'static str, id: i64, column: &'static str) -> (r:
    Result<Option<u32>, RowError>)
    ensures
        value is None ==> r == Ok::<Option<u32>, RowError>(None),
        value matches Some(v) ==> (if 1 <= v <= u32::MAX {
            r == Ok::<Option<u32>, RowError>(Some(v as u32))
        } else {
            r matches Err(RowError::OutOfRange { table: t, id: i, column: c, value: w }) && t
                == table && i == id && c == column && w == v
        }),
{
    match value {
        None => Ok(None),
        Some(v) => {
            if 1 <= v && v <= 4294967295 {
                Ok(Some(v as u32))
            } else {
                Err(RowError::OutOfRange { table, id, column, value: v })
            }
        },
    }
}

/// The content a row stands for, given its type: a media type needs a
/// title and has neither a body nor links; a post needs a body, has no
/// title, and its links, if any, must be canonical.
pub fn content_from_row(row: &ItemRow, content_type: ContentType) -> (r: Result<Content, RowError>)
    ensures
        match content_type.media_type_of() {
            Some(m) => if row.title is None {
                r matches Err(RowError::MissingColumn { id, content_type: t, column })
                    && id == row.id && t == content_type && column@ == "title"@
            } else if row.body is Some {
                r matches Err(RowError::UnexpectedColumn { id, content_type: t, column })
                    && id == row.id && t == content_type && column@ == "body"@
            } else if row.in_reply_to_url is Some {
                r matches Err(RowError::UnexpectedColumn { id, content_type: t, column })
                    && id == row.id && t == content_type && column@ == "in_reply_to_url"@
            } else if row.quoted_url is Some {
                r matches Err(RowError::UnexpectedColumn { id, content_type: t, column })
                    && id == row.id && t == content_type && column@ == "quoted_url"@
            } else {
                r matches Ok(Content::Media { media_type, title }) && media_type == m && title@
                    == row.title->0@
            },
            None => if row.body is None {
                r matches Err(RowError::MissingColumn { id, content_type: t, column })
                    && id == row.id && t == content_type && column@ == "body"@
            } else if row.title is Some {
                r matches Err(RowError::UnexpectedColumn { id, content_type: t, column })
                    && id == row.id && t == content_type && column@ == "title"@
            } else if row.in_reply_to_url is Some && !canonical_item(row.in_reply_to_url->0@) {
                r matches Err(RowError::UnnormalizedUrl { id, column, value })
                    && id == row.id && column@ == "in_reply_to_url"@ && value@
                    == row.in_reply_to_url->0@
            } else if row.quoted_url is Some && !canonical_item(row.quoted_url->0@) {
                r matches Err(RowError::UnnormalizedUrl { id, column, value })
                    && id == row.id && column@ == "quoted_url"@ && value@ == row.quoted_url->0@
            } else {
                r matches Ok(Content::Post { body, in_reply_to, quoted }) && body@ == row.body->0@
                    && link_read(row.in_reply_to_url, in_reply_to) && link_read(
                    row.quoted_url,
                    quoted,
                )
            },
        },
{
    let id = row.id;
    match content_type.media_type() {
        Some(media_type) => {
            let title = match &row.title {
                Some(t) => t.clone(),
                None => {
                    return Err(RowError::MissingColumn { id, content_type, column: "title" });
                },
            };
            if row.body.is_some() {
                return Err(RowError::UnexpectedColumn { id, content_type, column: "body" });
            }
            if row.in_reply_to_url.is_some() {
                return Err(
                    RowError::UnexpectedColumn { id, content_type, column: "in_reply_to_url" },
                );
            }
            if row.quoted_url.is_some() {
                return Err(RowError::UnexpectedColumn { id, content_type, column: "quoted_url" });
            }
            Ok(Content::Media { media_type, title })
        },
        None => {
            let body = match &row.body {
                Some(b) => b.clone(),
                None => {
                    return Err(RowError::MissingColumn { id, content_type, column: "body" });
                },
            };
            if row.title.is_some() {
                return Err(RowError::UnexpectedColumn { id, content_type, column: "title" });
            }
            let in_reply_to = match &row.in_reply_to_url {
                None => None,
                Some(v) => match normalized(id, "in_reply_to_url", v.as_str()) {
                    Ok(u) => Some(u),
                    Err(e) => return Err(e),
                },
            };
            let quoted = match &row.quoted_url {
                None => None,
                Some(v) => match normalized(id, "quoted_url", v.as_str()) {
                    Ok(u) => Some(u),
                    Err(e) => return Err(e),
                },
            };
            Ok(Content::Post { body, in_reply_to, quoted })
        },
    }
}

/// Whether a timestamp lies in the range the library holds.
pub open spec fn held_range(t: Timestamp) -> bool {
    EARLIEST <= t.instant() <= LATEST && -86400 < t.offset_secs() < 86400
}

/// Whether a stored date and time reads as the given instant and offset.
pub open spec fn time_read(value: Seq<char>, t: Timestamp) -> bool {
    reads_as(value, t)
}

/// Whether a state is what its name, deadline and reference columns say.
pub open spec fn state_read(row: ItemRow, s: State, n: StateName) -> bool {
    &&& s.name_of() == n
    &&& match row.hold_until {
        Some(h) => s.deadline_of() matches Some(t) && time_read(h@, t),
        None => s.deadline_of() is None,
    }
    &&& match row.release_reference {
        Some(x) => s.reference_of() matches Some(rr) && rr.text() == x@,
        None => s.reference_of() is None,
    }
}

/// The state a row stands for: its name, then the columns the name allows.
pub fn state_from_row(row: &ItemRow) -> (r: Result<State, RowError>)
    ensures
        (forall|n: StateName| #[trigger] n.name() != row.state@) ==> (r matches Err(
            RowError::UnknownState { id, value },
        ) && id == row.id && value@ == row.state@),
        forall|n: StateName|
            #[trigger] n.name() == row.state@ ==> (if row.release_reference is Some && n
                != StateName::Released {
                r matches Err(RowError::ReferenceWithoutRelease { id, state }) && id == row.id
                    && state == n
            } else if row.hold_until is Some && rfc3339_reading(row.hold_until->0@) is None {
                r matches Err(RowError::BadTimestamp { id, column, value }) && id == row.id
                    && column@ == "hold_until"@ && value@ == row.hold_until->0@
            } else if row.hold_until is Some && n != StateName::Transcribing && n
                != StateName::Holding {
                r matches Err(RowError::DeadlineWithoutHold { id, state }) && id == row.id && state
                    == n
            } else if row.hold_until is None && n == StateName::Holding {
                r matches Err(RowError::MissingDeadline { id }) && id == row.id
            } else {
                r matches Ok(s) && state_read(*row, s, n)
            }),
        r matches Ok(s) ==> (s.deadline_of() matches Some(t) ==> held_range(t)),
{
    let id = row.id;
    let name = match StateName::parse(row.state.as_str()) {
        Ok(n) => n,
        Err(_) => return Err(RowError::UnknownState { id, value: row.state.clone() }),
    };
    assert forall|n: StateName| #[trigger] n.name() == row.state@ implies n == name by {
        crate::state::lemma_state_names_are_distinct(n, name);
    }
    if name != StateName::Released && row.release_reference.is_some() {
        return Err(RowError::ReferenceWithoutRelease { id, state: name });
    }
    let deadline = match &row.hold_until {
        None => None,
        Some(h) => match timestamp(id, "hold_until", h.as_str()) {
            Ok(t) => Some(t),
            Err(e) => return Err(e),
        },
    };
    let reference = match &row.release_reference {
        None => None,
        Some(x) => Some(ReleaseReference::new(x.clone())),
    };
    if deadline.is_some() && name != StateName::Transcribing && name != StateName::Holding {
        return Err(RowError::DeadlineWithoutHold { id, state: name });
    }
    let state = match name {
        StateName::Waiting => State::Waiting,
        StateName::Acquiring => State::Acquiring,
        StateName::Transcribing => State::Transcribing {
            hold: match deadline {
                Some(t) => crate::state::Hold::Until(t),
                None => crate::state::Hold::NoDeadline,
            },
        },
        StateName::Holding => match deadline {
            Some(t) => State::Holding { until: t },
            None => return Err(RowError::MissingDeadline { id }),
        },
        StateName::Kept => State::Kept,
        StateName::Discarded => State::Discarded,
        StateName::Released => State::Released { reference },
        StateName::Deleted => State::Deleted,
        StateName::Error => State::Error,
    };
    Ok(state)
}

/// Whether a row's nullable content columns fit its type.
pub open spec fn content_ok(row: ItemRow, t: ContentType) -> bool {
    match t.media_type_of() {
        Some(_) => row.title is Some && row.body is None && row.in_reply_to_url is None
            && row.quoted_url is None,
        None => row.body is Some && row.title is None && (row.in_reply_to_url is Some
            ==> canonical_item(row.in_reply_to_url->0@)) && (row.quoted_url is Some
            ==> canonical_item(row.quoted_url->0@)),
    }
}

/// Whether a row's state columns fit its state's name.
pub open spec fn state_ok(row: ItemRow, n: StateName) -> bool {
    &&& !(row.release_reference is Some && n != StateName::Released)
    &&& row.hold_until is Some ==> rfc3339_reading(row.hold_until->0@) is Some && (n
        == StateName::Transcribing || n == StateName::Holding)
    &&& !(row.hold_until is None && n == StateName::Holding)
}

/// Whether a whole `item` row reads as an item.
pub open spec fn item_row_ok(row: ItemRow) -> bool {
    &&& exists|t: ContentType| #[trigger] t.name() == row.content_type@ && content_ok(row, t)
    &&& exists|n: StateName| #[trigger] n.name() == row.state@ && state_ok(row, n)
    &&& canonical_item(row.url@)
    &&& rfc3339_reading(row.published_at@) is Some
    &&& row.scheduled_start_at is Some ==> rfc3339_reading(row.scheduled_start_at->0@) is Some
    &&& rfc3339_reading(row.state_since@) is Some
}

/// The item an `item` row stands for.
pub fn item_from_row(row: &ItemRow) -> (r: Result<Item, RowError>)
    ensures
        r is Ok <==> item_row_ok(*row),
        (forall|t: ContentType| #[trigger] t.name() != row.content_type@) ==> (r matches Err(
            RowError::UnknownContentType { id, value },
        ) && id == row.id && value@ == row.content_type@),
        r matches Ok(item) ==> {
            &&& item.id.value() == row.id
            &&& item.source_id.value() == row.source_id
            &&& item.content.content_type_of().name() == row.content_type@
            &&& item.url.text() == row.url@
            &&& time_read(row.published_at@, item.published_at)
            &&& match row.scheduled_start_at {
                Some(v) => item.scheduled_start_at matches Some(t) && time_read(v@, t),
                None => item.scheduled_start_at is None,
            }
            &&& state_read(*row, item.state, item.state.name_of())
            &&& item.state.name_of().name() == row.state@
            &&& time_read(row.state_since@, item.state_since)
        },
{
    let id = row.id;
    let content_type = match ContentType::parse(row.content_type.as_str()) {
        Ok(t) => t,
        Err(_) => {
            return Err(RowError::UnknownContentType { id, value: row.content_type.clone() });
        },
    };
    assert forall|t: ContentType| #[trigger] t.name() == row.content_type@ implies t
        == content_type by {
        crate::content::lemma_names_are_distinct(t, content_type);
    }
    let content = match content_from_row(row, content_type) {
        Ok(c) => c,
        Err(e) => return Err(e),
    };
    let state = match state_from_row(row) {
        Ok(s) => s,
        Err(e) => return Err(e),
    };
    let url = match normalized(id, "url", row.url.as_str()) {
        Ok(u) => u,
        Err(e) => return Err(e),
    };
    let published_at = match timestamp(id, "published_at", row.published_at.as_str()) {
        Ok(t) => t,
        Err(e) => return Err(e),
    };
    let scheduled_start_at = match &row.scheduled_start_at {
        None => None,
        Some(v) => match timestamp(id, "scheduled_start_at", v.as_str()) {
            Ok(t) => Some(t),
            Err(e) => return Err(e),
        },
    };
    let state_since = match timestamp(id, "state_since", row.state_since.as_str()) {
        Ok(t) => t,
        Err(e) => return Err(e),
    };
    Ok(Item {
        id: ItemId::new(id),
        source_id: SourceId::new(row.source_id),
        url,
        published_at,
        scheduled_start_at,
        state,
        state_since,
        content,
    })
}

/// Whether a stored text is already the canonical URL of a source.
pub open spec fn canonical_source(value: Seq<char>) -> bool {
    source_outcome(value) matches Ok(c) && c == value
}

/// Whether a whole `source` row reads as a source.
pub open spec fn source_row_ok(row: SourceRow) -> bool {
    &&& canonical_source(row.url@)
    &&& rfc3339_reading(row.created_at@) is Some
    &&& row.hold_days matches Some(d) ==> 1 <= d <= u32::MAX
    &&& 0 <= row.priority <= u32::MAX
    &&& row.monitor_from is Some ==> rfc3339_reading(row.monitor_from->0@) is Some
    &&& row.monitor_until is Some ==> rfc3339_reading(row.monitor_until->0@) is Some
    &&& (row.monitor_from is Some) == (row.monitor_until is Some)
    &&& row.monitor_from is Some ==> moment_read(row.monitor_from->0@) < moment_read(
        row.monitor_until->0@,
    )
}

/// Whether a `source` row's URL is canonical and its creation time reads.
pub open spec fn source_head_ok(row: SourceRow) -> bool {
    canonical_source(row.url@) && rfc3339_reading(row.created_at@) is Some
}

/// Whether a `source` row's hold days, when stored, are positive and fit in
/// 32 bits.
pub open spec fn source_hold_days_ok(row: SourceRow) -> bool {
    row.hold_days matches Some(d) ==> 1 <= d <= u32::MAX
}

/// Whether a `source` row's hold days and priority fit what they count.
pub open spec fn source_counts_ok(row: SourceRow) -> bool {
    source_hold_days_ok(row) && 0 <= row.priority <= u32::MAX
}

/// Whether the start of a `source` row's watching period reads, when stored.
pub open spec fn source_from_ok(row: SourceRow) -> bool {
    row.monitor_from matches Some(v) ==> rfc3339_reading(v@) is Some
}

/// Whether the end of a `source` row's watching period reads, when stored.
pub open spec fn source_until_ok(row: SourceRow) -> bool {
    row.monitor_until matches Some(v) ==> rfc3339_reading(v@) is Some
}

/// Whether a `source` row's watching period has both ends or neither, and
/// ends after it starts.
pub open spec fn source_period_ok(row: SourceRow) -> bool {
    &&& (row.monitor_from is Some) == (row.monitor_until is Some)
    &&& row.monitor_from is Some ==> moment_read(row.monitor_from->0@) < moment_read(
        row.monitor_until->0@,
    )
}

/// The source a `source` row stands for.
pub fn source_from_row(row: &SourceRow) -> (r: Result<Source, RowError>)
    ensures
        r is Ok <==> source_row_ok(*row),
        !canonical_source(row.url@) ==> (r matches Err(RowError::UnnormalizedSourceUrl { id, value })
            && id == row.id && value@ == row.url@),
        canonical_source(row.url@) && rfc3339_reading(row.created_at@) is None ==> (r matches Err(
            RowError::BadSourceTimestamp { id, value },
        ) && id == row.id && value@ == row.created_at@),
        source_head_ok(*row) && row.hold_days is Some && !(1 <= row.hold_days->0 <= u32::MAX) ==> (
        r matches Err(RowError::OutOfRange { table, id, column, value }) && table == "source" && id
            == row.id && column == "hold_days" && value == row.hold_days->0),
        source_head_ok(*row) && source_hold_days_ok(*row) && !(0 <= row.priority <= u32::MAX)
            ==> (r matches Err(RowError::OutOfRange { table, id, column, value }) && table
            == "source" && id == row.id && column == "priority" && value == row.priority),
        source_head_ok(*row) && source_counts_ok(*row) && !source_from_ok(*row) ==> (
        r matches Err(RowError::BadTimestamp { id, column, value }) && id == row.id && column
            == "monitor_from" && value@ == row.monitor_from->0@),
        source_head_ok(*row) && source_counts_ok(*row) && source_from_ok(*row)
            && !source_until_ok(*row) ==> (r matches Err(RowError::BadTimestamp { id, column, value })
            && id == row.id && column == "monitor_until" && value@ == row.monitor_until->0@),
        source_head_ok(*row) && source_counts_ok(*row) && source_from_ok(*row)
            && source_until_ok(*row) && !source_period_ok(*row) ==> r == Err::<Source, RowError>(
            RowError::BadPeriod { id: row.id },
        ),
        r matches Ok(src) ==> {
            &&& src.id.value() == row.id
            &&& src.person_id.value() == row.person_id
            &&& src.url.text() == row.url@
            &&& src.enabled == (row.enabled != 0)
            &&& time_read(row.created_at@, src.created_at)
            &&& match row.hold_days {
                Some(d) => src.hold_days == Some(d as u32),
                None => src.hold_days is None,
            }
            &&& src.priority == row.priority
            &&& match src.monitoring {
                Monitoring::Continuous => row.monitor_from is None && row.monitor_until is None,
                Monitoring::Period { from, until } => row.monitor_from is Some && time_read(
                    row.monitor_from->0@,
                    from,
                ) && row.monitor_until is Some && time_read(row.monitor_until->0@, until),
            }
        },
{
    let id = row.id;
    let url = match url::normalize_source(row.url.as_str()) {
        Ok(u) => {
            if crate::text::same(u.as_str(), row.url.as_str()) {
                u
            } else {
                return Err(RowError::UnnormalizedSourceUrl { id, value: row.url.clone() });
            }
        },
        Err(_) => return Err(RowError::UnnormalizedSourceUrl { id, value: row.url.clone() }),
    };
    let created_at = match Timestamp::parse(row.created_at.as_str()) {
        Ok(t) => t,
        Err(_) => return Err(RowError::BadSourceTimestamp { id, value: row.created_at.clone() }),
    };
    let hold_days = match positive(row.hold_days, "source", id, "hold_days") {
        Ok(d) => d,
        Err(e) => return Err(e),
    };
    if row.priority < 0 || row.priority > 4294967295 {
        return Err(
            RowError::OutOfRange { table: "source", id, column: "priority", value: row.priority },
        );
    }
    let priority = row.priority as u32;
    let from = match &row.monitor_from {
        None => None,
        Some(v) => match timestamp(id, "monitor_from", v.as_str()) {
            Ok(t) => Some(t),
            Err(e) => return Err(e),
        },
    };
    let until = match &row.monitor_until {
        None => None,
        Some(v) => match timestamp(id, "monitor_until", v.as_str()) {
            Ok(t) => Some(t),
            Err(e) => return Err(e),
        },
    };
    let monitoring = match Monitoring::new(from, until) {
        Ok(m) => m,
        Err(_) => return Err(RowError::BadPeriod { id }),
    };
    Ok(Source {
        id: SourceId::new(id),
        person_id: PersonId::new(row.person_id),
        url,
        enabled: row.enabled != 0,
        created_at,
        hold_days,
        priority,
        monitoring,
    })
}

/// The exclusion an `exclude` row stands for.
pub fn exclude_from_row(row: &ExcludeRow) -> (r: Result<Exclude, RowError>)
    ensures
        r is Ok <==> exists|t: ContentType| #[trigger] t.name() == row.content_type@,
        r matches Err(e) ==> e matches RowError::UnknownExcludeType { id, value } && id == row.id
            && value@ == row.content_type@,
        r matches Ok(x) ==> {
            &&& x.id.value() == row.id
            &&& match row.source_id {
                Some(s) => x.source_id matches Some(t) && t.value() == s,
                None => x.source_id is None,
            }
            &&& x.content_type.name() == row.content_type@
            &&& x.enabled == (row.enabled != 0)
        },
{
    let content_type = match ContentType::parse(row.content_type.as_str()) {
        Ok(t) => t,
        Err(_) => {
            return Err(
                RowError::UnknownExcludeType { id: row.id, value: row.content_type.clone() },
            );
        },
    };
    let source_id = match row.source_id {
        Some(s) => Some(SourceId::new(s)),
        None => None,
    };
    Ok(Exclude { id: ExcludeId::new(row.id), source_id, content_type, enabled: row.enabled != 0 })
}

/// The nullable columns a content and a state are written as.
pub fn columns_of(content: &Content, state: &State) -> (r: ItemColumns)
    ensures
        match content {
            Content::Media { title, .. } => opt(r.title) == Some(title@) && r.body is None
                && r.in_reply_to_url is None && r.quoted_url is None,
            Content::Post { body, in_reply_to, quoted } => r.title is None && opt(r.body) == Some(
                body@,
            ) && link_read(r.in_reply_to_url, *in_reply_to) && link_read(r.quoted_url, *quoted),
        },
        match state.deadline_of() {
            Some(t) => r.hold_until matches Some(h) && h@ == rfc3339_text(
                t.instant() as i64,
                t.offset_secs() as i32,
                t.nanos(),
            ),
            None => r.hold_until is None,
        },
        match state.reference_of() {
            Some(x) => opt(r.release_reference) == Some(x.text()),
            None => r.release_reference is None,
        },
{
    let (title, body, in_reply_to_url, quoted_url) = match content {
        Content::Media { title, .. } => (Some(title.clone()), None, None, None),
        Content::Post { body, in_reply_to, quoted } => (
            None,
            Some(body.clone()),
            match in_reply_to {
                Some(u) => Some(u.as_str().to_owned()),
                None => None,
            },
            match quoted {
                Some(u) => Some(u.as_str().to_owned()),
                None => None,
            },
        ),
    };
    let hold_until = match state.hold_until() {
        Some(t) => Some(t.to_text()),
        None => None,
    };
    let release_reference = match state.release_reference() {
        Some(x) => Some(x.as_str().to_owned()),
        None => None,
    };
    ItemColumns { title, body, in_reply_to_url, quoted_url, hold_until, release_reference }
}

/// A state as plain values: its name, its deadline, its reference's text.
pub open spec fn state_key(s: State) -> (StateName, Option<Timestamp>, Option<Seq<char>>) {
    (
        s.name_of(),
        s.deadline_of(),
        match s.reference_of() {
            Some(x) => Some(x.text()),
            None => None,
        },
    )
}

/// The state columns written for a state read back as that state: a row
/// whose name, deadline and reference columns are those of `s`, with the
/// deadline written as text that reads back as itself, passes the column
/// rules, and the only state it can read as is `s`.
pub proof fn lemma_state_columns_read_back(row: ItemRow, s: State, read: State)
    requires
        row.state@ == s.name_of().name(),
        match s.deadline_of() {
            Some(t) => row.hold_until matches Some(h) && time_read(h@, t) && held_range(t),
            None => row.hold_until is None,
        },
        match s.reference_of() {
            Some(x) => opt(row.release_reference) == Some(x.text()),
            None => row.release_reference is None,
        },
        state_read(row, read, s.name_of()),
        read.deadline_of() matches Some(t) ==> held_range(t),
    ensures
        state_ok(row, s.name_of()),
        state_key(read) == state_key(s),
{
    match (s.deadline_of(), read.deadline_of()) {
        (Some(t), Some(u)) => {
            crate::timestamp::lemma_same_reading_same_timestamp(t, u);
        },
        _ => {},
    }
}

} // verus!
