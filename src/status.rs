use vstd::prelude::*;

use crate::json::{as_string, as_u64, as_usize, field, get_field, read_field, str_of, text, u64_of, usize_of, Json, JsonNumber};
use crate::settings::{decode_settings, settings_of, SettingsUpdate, SettingsView};

verus! {

/// What an update does.
#[derive(Debug, Clone)]
pub enum UpdateType {
    ClearAll,
    Customs,
    DocumentsAddition { number: usize },
    DocumentsPartial { number: usize },
    DocumentsDeletion { number: usize },
    Settings { settings: SettingsUpdate },
}

/// What an `UpdateType` stands for.
pub enum UpdateTypeView {
    ClearAll,
    Customs,
    DocumentsAddition { number: usize },
    DocumentsPartial { number: usize },
    DocumentsDeletion { number: usize },
    Settings { settings: SettingsView },
}

impl View for UpdateType {
    type V = UpdateTypeView;

    open spec fn view(&self) -> UpdateTypeView {
        match self {
            UpdateType::ClearAll => UpdateTypeView::ClearAll,
            UpdateType::Customs => UpdateTypeView::Customs,
            UpdateType::DocumentsAddition { number } => UpdateTypeView::DocumentsAddition { number: *number },
            UpdateType::DocumentsPartial { number } => UpdateTypeView::DocumentsPartial { number: *number },
            UpdateType::DocumentsDeletion { number } => UpdateTypeView::DocumentsDeletion { number: *number },
            UpdateType::Settings { settings } => UpdateTypeView::Settings { settings: settings@ },
        }
    }
}

/// The status of an update that the server has processed.
#[derive(Debug, Clone)]
pub struct ProcessedStatus {
    pub update_id: u64,
    pub update_type: UpdateType,
    pub error: Option<String>,
    /// The time it took, in seconds, as the server wrote it.
    pub duration: JsonNumber,
    pub enqueued_at: String,
    pub processed_at: String,
}

/// What a `ProcessedStatus` stands for.
pub struct ProcessedView {
    pub update_id: u64,
    pub update_type: UpdateTypeView,
    pub error: Option<Seq<char>>,
    pub duration: JsonNumber,
    pub enqueued_at: Seq<char>,
    pub processed_at: Seq<char>,
}

impl View for ProcessedStatus {
    type V = ProcessedView;

    open spec fn view(&self) -> ProcessedView {
        ProcessedView {
            update_id: self.update_id,
            update_type: self.update_type@,
            error: match self.error {
                Some(e) => Some(e@),
                None => None,
            },
            duration: self.duration,
            enqueued_at: self.enqueued_at@,
            processed_at: self.processed_at@,
        }
    }
}

/// The status of an update that waits in the server's queue.
#[derive(Debug, Clone)]
pub struct EnqueuedStatus {
    pub update_id: u64,
    pub update_type: UpdateType,
    pub enqueued_at: String,
}

/// What an `EnqueuedStatus` stands for.
pub struct EnqueuedView {
    pub update_id: u64,
    pub update_type: UpdateTypeView,
    pub enqueued_at: Seq<char>,
}

impl View for EnqueuedStatus {
    type V = EnqueuedView;

    open spec fn view(&self) -> EnqueuedView {
        EnqueuedView {
            update_id: self.update_id,
            update_type: self.update_type@,
            enqueued_at: self.enqueued_at@,
        }
    }
}

/// The status of an update: processed, which is final, or still enqueued.
#[derive(Debug, Clone)]
pub enum Status {
    Processed(ProcessedStatus),
    Enqueued(EnqueuedStatus),
}

/// What a `Status` stands for.
pub enum StatusView {
    Processed(ProcessedView),
    Enqueued(EnqueuedView),
}

impl View for Status {
    type V = StatusView;

    open spec fn view(&self) -> StatusView {
        match self {
            Status::Processed(p) => StatusView::Processed(p@),
            Status::Enqueued(e) => StatusView::Enqueued(e@),
        }
    }
}

/// Why a status could not be had.
#[derive(Debug, Clone, Copy, PartialEq, Eq)]
pub enum Error {
    /// The server's response is neither a processed nor an enqueued status.
    InvalidServerResponse,
}

// Reading a status.

/// The count of documents that an update type carries.
pub open spec fn count_of(value: Json) -> Option<usize> {
    read_field(value, "number"@, |j: Json| usize_of(j))
}

/// An update type read from a value: an object whose member `name` names the
/// kind, with the count of documents in `number` or the settings update in
/// `settings` where the kind carries one.
pub open spec fn update_type_of(value: Json) -> Option<UpdateTypeView> {
    match read_field(value, "name"@, |j: Json| str_of(j)) {
        Some(name) => if name == "ClearAll"@ {
            Some(UpdateTypeView::ClearAll)
        } else if name == "Customs"@ {
            Some(UpdateTypeView::Customs)
        } else if name == "DocumentsAddition"@ {
            match count_of(value) {
                Some(n) => Some(UpdateTypeView::DocumentsAddition { number: n }),
                None => None,
            }
        } else if name == "DocumentsPartial"@ {
            match count_of(value) {
                Some(n) => Some(UpdateTypeView::DocumentsPartial { number: n }),
                None => None,
            }
        } else if name == "DocumentsDeletion"@ {
            match count_of(value) {
                Some(n) => Some(UpdateTypeView::DocumentsDeletion { number: n }),
                None => None,
            }
        } else if name == "Settings"@ {
            match read_field(value, "settings"@, |j: Json| settings_of(j)) {
                Some(s) => Some(UpdateTypeView::Settings { settings: s }),
                None => None,
            }
        } else {
            None
        },
        None => None,
    }
}

/// A value read as a number.
pub open spec fn number_of(value: Json) -> Option<JsonNumber> {
    match value {
        Json::Number(n) => Some(n),
        _ => None,
    }
}

/// The error message of a processed status: none where the member `error` is
/// absent or null.
pub open spec fn error_of(value: Json) -> Option<Option<Seq<char>>> {
    match field(value, "error"@) {
        None => Some(None),
        Some(Json::Null) => Some(None),
        Some(Json::Str(s)) => Some(Some(s@)),
        _ => None,
    }
}

/// A processed status read from a value.
pub open spec fn processed_of(value: Json) -> Option<ProcessedView> {
    let id = read_field(value, "updateId"@, |j: Json| u64_of(j));
    let ty = read_field(value, "type"@, |j: Json| update_type_of(j));
    let error = error_of(value);
    let duration = read_field(value, "duration"@, |j: Json| number_of(j));
    let enqueued = read_field(value, "enqueuedAt"@, |j: Json| str_of(j));
    let processed = read_field(value, "processedAt"@, |j: Json| str_of(j));
    if id is Some && ty is Some && error is Some && duration is Some && enqueued is Some && processed is Some {
        Some(
            ProcessedView {
                update_id: id->0,
                update_type: ty->0,
                error: error->0,
                duration: duration->0,
                enqueued_at: enqueued->0,
                processed_at: processed->0,
            },
        )
    } else {
        None
    }
}

/// An enqueued status read from a value.
pub open spec fn enqueued_of(value: Json) -> Option<EnqueuedView> {
    let id = read_field(value, "updateId"@, |j: Json| u64_of(j));
    let ty = read_field(value, "type"@, |j: Json| update_type_of(j));
    let enqueued = read_field(value, "enqueuedAt"@, |j: Json| str_of(j));
    if id is Some && ty is Some && enqueued is Some {
        Some(EnqueuedView { update_id: id->0, update_type: ty->0, enqueued_at: enqueued->0 })
    } else {
        None
    }
}

/// The status that a response of the server gives: processed where it reads
/// as a processed status, else enqueued where it reads as an enqueued one.
pub open spec fn status_of(value: Json) -> Option<StatusView> {
    match processed_of(value) {
        Some(p) => Some(StatusView::Processed(p)),
        None => match enqueued_of(value) {
            Some(e) => Some(StatusView::Enqueued(e)),
            None => None,
        },
    }
}

fn decode_count(value: &Json) -> (r: Option<usize>)
    ensures
        r == count_of(*value),
{
    match get_field(value, "number") {
        Some(j) => as_usize(j),
        None => None,
    }
}

/// Reads an update type.
pub fn decode_update_type(value: &Json) -> (r: Option<UpdateType>)
    ensures
        match r {
            Some(t) => update_type_of(*value) == Some(t@),
            None => update_type_of(*value) is None,
        },
{
    let name = match get_field(value, "name") {
        Some(j) => match as_string(j) {
            Some(s) => s,
            None => return None,
        },
        None => return None,
    };
    if name == text("ClearAll") {
        Some(UpdateType::ClearAll)
    } else if name == text("Customs") {
        Some(UpdateType::Customs)
    } else if name == text("DocumentsAddition") {
        match decode_count(value) {
            Some(n) => Some(UpdateType::DocumentsAddition { number: n }),
            None => None,
        }
    } else if name == text("DocumentsPartial") {
        match decode_count(value) {
            Some(n) => Some(UpdateType::DocumentsPartial { number: n }),
            None => None,
        }
    } else if name == text("DocumentsDeletion") {
        match decode_count(value) {
            Some(n) => Some(UpdateType::DocumentsDeletion { number: n }),
            None => None,
        }
    } else if name == text("Settings") {
        match get_field(value, "settings") {
            Some(j) => match decode_settings(j) {
                Some(s) => Some(UpdateType::Settings { settings: s }),
                None => None,
            },
            None => None,
        }
    } else {
        None
    }
}

fn decode_update_id(value: &Json) -> (r: Option<u64>)
    ensures
        r == read_field(*value, "updateId"@, |j: Json| u64_of(j)),
{
    match get_field(value, "updateId") {
        Some(j) => as_u64(j),
        None => None,
    }
}

fn decode_type_field(value: &Json) -> (r: Option<UpdateType>)
    ensures
        match r {
            Some(t) => read_field(*value, "type"@, |j: Json| update_type_of(j)) == Some(t@),
            None => read_field(*value, "type"@, |j: Json| update_type_of(j)) is None,
        },
{
    match get_field(value, "type") {
        Some(j) => decode_update_type(j),
        None => None,
    }
}

fn decode_text_field(value: &Json, key: &str) -> (r: Option<String>)
    ensures
        match r {
            Some(s) => read_field(*value, key@, |j: Json| str_of(j)) == Some(s@),
            None => read_field(*value, key@, |j: Json| str_of(j)) is None,
        },
{
    match get_field(value, key) {
        Some(j) => as_string(j),
        None => None,
    }
}

/// Reads a processed status.
pub fn decode_processed(value: &Json) -> (r: Option<ProcessedStatus>)
    ensures
        match r {
            Some(p) => processed_of(*value) == Some(p@),
            None => processed_of(*value) is None,
        },
{
    let update_id = match decode_update_id(value) {
        Some(n) => n,
        None => return None,
    };
    let update_type = match decode_type_field(value) {
        Some(t) => t,
        None => return None,
    };
    let error = match get_field(value, "error") {
        None => None,
        Some(Json::Null) => None,
        Some(Json::Str(s)) => Some(s.clone()),
        Some(_) => return None,
    };
    let duration = match get_field(value, "duration") {
        Some(Json::Number(n)) => *n,
        _ => return None,
    };
    let enqueued_at = match decode_text_field(value, "enqueuedAt") {
        Some(s) => s,
        None => return None,
    };
    let processed_at = match decode_text_field(value, "processedAt") {
        Some(s) => s,
        None => return None,
    };
    Some(ProcessedStatus { update_id, update_type, error, duration, enqueued_at, processed_at })
}

/// Reads an enqueued status.
pub fn decode_enqueued(value: &Json) -> (r: Option<EnqueuedStatus>)
    ensures
        match r {
            Some(e) => enqueued_of(*value) == Some(e@),
            None => enqueued_of(*value) is None,
        },
{
    let update_id = match decode_update_id(value) {
        Some(n) => n,
        None => return None,
    };
    let update_type = match decode_type_field(value) {
        Some(t) => t,
        None => return None,
    };
    let enqueued_at = match decode_text_field(value, "enqueuedAt") {
        Some(s) => s,
        None => return None,
    };
    Some(EnqueuedStatus { update_id, update_type, enqueued_at })
}

/// Classifies a response of the server: a processed status where it reads as
/// one, else an enqueued status where it reads as one, else an invalid
/// response.
pub fn decode_status(value: &Json) -> (r: Result<Status, Error>)
    ensures
        match r {
            Ok(s) => status_of(*value) == Some(s@),
            Err(e) => status_of(*value) is None && e == Error::InvalidServerResponse,
        },
{
    match decode_processed(value) {
        Some(p) => Ok(Status::Processed(p)),
        None => match decode_enqueued(value) {
            Some(e) => Ok(Status::Enqueued(e)),
            None => Err(Error::InvalidServerResponse),
        },
    }
}

// What holds of every response.

/// A response with an update id, an update type, a duration, and the times at
/// which the update was enqueued and processed is a processed status that
/// keeps each of those values as it is.
pub proof fn lemma_processed_response(
    value: Json,
    id: u64,
    update_type: UpdateTypeView,
    error: Option<Seq<char>>,
    duration: JsonNumber,
    enqueued_at: Seq<char>,
    processed_at: Seq<char>,
)
    requires
        read_field(value, "updateId"@, |j: Json| u64_of(j)) == Some(id),
        read_field(value, "type"@, |j: Json| update_type_of(j)) == Some(update_type),
        error_of(value) == Some(error),
        field(value, "duration"@) == Some(Json::Number(duration)),
        read_field(value, "enqueuedAt"@, |j: Json| str_of(j)) == Some(enqueued_at),
        read_field(value, "processedAt"@, |j: Json| str_of(j)) == Some(processed_at),
    ensures
        status_of(value) == Some(
            StatusView::Processed(
                ProcessedView { update_id: id, update_type, error, duration, enqueued_at, processed_at },
            ),
        ),
{
}

/// A response with an update id, an update type and the time at which the
/// update was enqueued, and no duration or no time of processing, is an
/// enqueued status that keeps each of those values as it is.
pub proof fn lemma_enqueued_response(value: Json, id: u64, update_type: UpdateTypeView, enqueued_at: Seq<char>)
    requires
        read_field(value, "updateId"@, |j: Json| u64_of(j)) == Some(id),
        read_field(value, "type"@, |j: Json| update_type_of(j)) == Some(update_type),
        read_field(value, "enqueuedAt"@, |j: Json| str_of(j)) == Some(enqueued_at),
        field(value, "duration"@) is None || field(value, "processedAt"@) is None,
    ensures
        status_of(value) == Some(StatusView::Enqueued(EnqueuedView { update_id: id, update_type, enqueued_at })),
{
}

/// A response without an update id is no status at all, so that its
/// classification fails with an invalid response.
pub proof fn lemma_response_without_id(value: Json)
    requires
        field(value, "updateId"@) is None,
    ensures
        status_of(value) is None,
{
}

} // verus!
