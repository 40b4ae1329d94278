//! Loading the companion extension into a freshly started browser over its
//! debugging pipe.
//!
//! One request is sent, and the stream of what the browser writes back is
//! scanned for the response to it. Messages on this pipe are JSON texts, each
//! followed by a single zero byte.

use vstd::prelude::*;
use vstd::utf8::encode_utf8;
use crate::json::Json;
use crate::json::JsonValue;
use crate::json::json_of_text;
use crate::json::json_string_literal;
use crate::json::lemma_literal_holds_no_zero;
use crate::json::lemma_plain_text_is_quoted_as_it_is;
use crate::json::needs_escape;
use crate::json::parse_json;
use crate::json::quote_json;
use crate::messaging::string_member;
use crate::text::append_bytes;
use crate::text::lemma_utf8_holds_no_zero_byte;

verus! {

/// The `id` of the one request that the loader sends.
pub const LOAD_REQUEST_ID: u64 = 1;

/// How long the loader waits before it sends the request, in milliseconds.
pub const STARTUP_DELAY_MS: u64 = 2_000;

/// How long the loader waits for the response once the request is sent.
pub const LOAD_DEADLINE_SECS: u64 = 10;

/// How long the loader sleeps when the pipe has nothing to read.
pub const POLL_INTERVAL_MS: u64 = 100;

/// How many bytes the loader asks of the pipe at once.
pub const READ_CHUNK_LEN: usize = 8192;

/// The descriptor on which the browser reads requests.
pub const BROWSER_REQUEST_FD: i32 = 3;

/// The descriptor on which the browser writes responses.
pub const BROWSER_RESPONSE_FD: i32 = 4;

/// What the browser answered to the request.
#[derive(Debug)]
pub enum LoadOutcome {
    /// The extension is loaded; `"?"` stands for an identifier that the
    /// response does not give.
    Loaded { extension_id: String },
    /// The browser refused; `"unknown"` stands for a reason that the
    /// response does not give.
    Rejected { message: String },
}

/// The mathematical value of a [`LoadOutcome`].
pub enum LoadOutcomeView {
    Loaded { extension_id: Seq<char> },
    Rejected { message: Seq<char> },
}

impl View for LoadOutcome {
    type V = LoadOutcomeView;

    open spec fn view(&self) -> LoadOutcomeView {
        match self {
            LoadOutcome::Loaded { extension_id } => LoadOutcomeView::Loaded {
                extension_id: extension_id@,
            },
            LoadOutcome::Rejected { message } => LoadOutcomeView::Rejected { message: message@ },
        }
    }
}

/// The text of the request that loads the unpacked extension at `path`.
pub open spec fn request_text(path: Seq<char>) -> Seq<char> {
    "{\"id\":1,\"method\":\"Extensions.loadUnpacked\",\"params\":{\"path\":"@
        + json_string_literal(path) + "}}"@
}

/// For a path without a character that JSON escapes, the request holds the
/// path as it is, between double quotes.
pub proof fn lemma_request_for_plain_path(path: Seq<char>)
    requires
        forall|i: int| 0 <= i < path.len() ==> !needs_escape(#[trigger] path[i]),
    ensures
        request_text(path) == "{\"id\":1,\"method\":\"Extensions.loadUnpacked\",\"params\":{\"path\":"@
            + seq!['"'] + path + seq!['"'] + "}}"@,
{
    lemma_plain_text_is_quoted_as_it_is(path);
    let prefix = "{\"id\":1,\"method\":\"Extensions.loadUnpacked\",\"params\":{\"path\":"@;
    assert(prefix + (seq!['"'] + path + seq!['"']) + "}}"@ == prefix + seq!['"'] + path + seq![
        '"',
    ] + "}}"@);
}

/// The request holds one zero byte, the one that ends it, whatever the
/// path: a zero character in the path is written as an escape. So the
/// browser finds the end of the request where it is.
pub proof fn lemma_request_ends_at_its_only_zero(path: Seq<char>)
    ensures
        request_bytes(path).len() > 0,
        request_bytes(path).last() == 0,
        forall|j: int|
            0 <= j < request_bytes(path).len() - 1 ==> (#[trigger] request_bytes(path)[j]) != 0,
{
    let prefix = "{\"id\":1,\"method\":\"Extensions.loadUnpacked\",\"params\":{\"path\":"@;
    let literal = json_string_literal(path);
    let suffix = "}}"@;
    let text = request_text(path);
    reveal_strlit("{\"id\":1,\"method\":\"Extensions.loadUnpacked\",\"params\":{\"path\":");
    reveal_strlit("}}");
    lemma_literal_holds_no_zero(path);
    assert forall|i: int| 0 <= i < text.len() implies (#[trigger] text[i]) != '\0' by {
        if i < prefix.len() {
            assert(text[i] == prefix[i]);
        } else if i < prefix.len() + literal.len() {
            assert(text[i] == literal[i - prefix.len()]);
        } else {
            assert(text[i] == suffix[i - prefix.len() - literal.len()]);
        }
    }
    lemma_utf8_holds_no_zero_byte(text);
}

/// The request as it goes onto the pipe: its text, then the zero byte.
pub open spec fn request_bytes(path: Seq<char>) -> Seq<u8> {
    encode_utf8(request_text(path)).push(0u8)
}

/// The request that loads the unpacked extension at `extension_path`, as it
/// goes onto the pipe.
pub fn load_request(extension_path: &str) -> (request: Vec<u8>)
    ensures
        request@ == request_bytes(extension_path@),
{
    let mut text = String::from_str(
        "{\"id\":1,\"method\":\"Extensions.loadUnpacked\",\"params\":{\"path\":",
    );
    let quoted = quote_json(extension_path);
    text.append(quoted.as_str());
    text.append("}}");
    let mut request = text.as_str().as_bytes_vec();
    request.push(0u8);
    request
}

/// What one message of the browser means for the request: the outcome if the
/// message is the response to it, `None` for any other traffic.
///
/// The response is the message whose `id` is the number 1. It carries a
/// `result` or, failing that, an `error`; a message with that `id` and
/// neither is passed over like the others.
pub open spec fn outcome_of_response(response: JsonValue) -> Option<LoadOutcomeView> {
    if response.member("id"@) == Some(JsonValue::UInt(LOAD_REQUEST_ID)) {
        match response.member("result"@) {
            Some(result) => Some(
                LoadOutcomeView::Loaded {
                    extension_id: match string_member(result, "id"@) {
                        Some(id) => id,
                        None => "?"@,
                    },
                },
            ),
            None => match response.member("error"@) {
                Some(error) => Some(
                    LoadOutcomeView::Rejected {
                        message: match string_member(error, "message"@) {
                            Some(message) => message,
                            None => "unknown"@,
                        },
                    },
                ),
                None => None,
            },
        }
    } else {
        None
    }
}

/// What one message of the browser means for the request.
pub fn response_outcome(response: &Json) -> (outcome: Option<LoadOutcome>)
    ensures
        match outcome {
            Some(o) => outcome_of_response(response@) == Some(o@),
            None => outcome_of_response(response@) is None,
        },
{
    let correlated = match response.get("id") {
        Some(Json::UInt(id)) => *id == LOAD_REQUEST_ID,
        _ => false,
    };
    if !correlated {
        return None;
    }
    match response.get("result") {
        Some(result) => {
            let extension_id = match result.get("id") {
                Some(Json::Str(id)) => id.clone(),
                _ => String::from_str("?"),
            };
            Some(LoadOutcome::Loaded { extension_id })
        },
        None => match response.get("error") {
            Some(error) => {
                let message = match error.get("message") {
                    Some(Json::Str(message)) => message.clone(),
                    _ => String::from_str("unknown"),
                };
                Some(LoadOutcome::Rejected { message })
            },
            None => None,
        },
    }
}

/// What the bytes of one message mean for the request. Bytes that are not
/// JSON are passed over.
pub open spec fn outcome_of_message(message: Seq<u8>) -> Option<LoadOutcomeView> {
    match json_of_text(message) {
        Some(response) => outcome_of_response(response),
        None => None,
    }
}

/// The number of bytes before the first zero byte of `bytes`; its length
/// where it has none.
pub open spec fn message_len(bytes: Seq<u8>) -> int
    decreases bytes.len(),
{
    if bytes.len() == 0 || bytes[0] == 0 {
        0
    } else {
        1 + message_len(bytes.drop_first())
    }
}

/// Scans what has arrived: the outcome of the first complete message that
/// answers the request, and the bytes that are left. With no such message,
/// the bytes left are those after the last complete message.
pub open spec fn scan(bytes: Seq<u8>) -> (Option<LoadOutcomeView>, Seq<u8>)
    decreases bytes.len(),
{
    let len = message_len(bytes);
    if 0 <= len < bytes.len() {
        let rest = bytes.subrange(len + 1, bytes.len() as int);
        match outcome_of_message(bytes.subrange(0, len)) {
            Some(outcome) => (Some(outcome), rest),
            None => scan(rest),
        }
    } else {
        (None, bytes)
    }
}

/// [`message_len`] finds the first zero byte.
pub proof fn lemma_message_len(bytes: Seq<u8>)
    ensures
        0 <= message_len(bytes) <= bytes.len(),
        forall|i: int| 0 <= i < message_len(bytes) ==> bytes[i] != 0,
        message_len(bytes) < bytes.len() ==> bytes[message_len(bytes)] == 0,
    decreases bytes.len(),
{
    if bytes.len() == 0 || bytes[0] == 0 {
    } else {
        let rest = bytes.drop_first();
        lemma_message_len(rest);
        assert forall|i: int| 0 <= i < message_len(bytes) implies bytes[i] != 0 by {
            if i > 0 {
                assert(bytes[i] == rest[i - 1]);
            }
        }
    }
}

/// The first zero byte is where [`message_len`] says it is.
pub proof fn lemma_message_len_is(bytes: Seq<u8>, len: int)
    requires
        0 <= len <= bytes.len(),
        forall|i: int| 0 <= i < len ==> bytes[i] != 0,
        len < bytes.len() ==> bytes[len] == 0,
    ensures
        message_len(bytes) == len,
{
    lemma_message_len(bytes);
    let found = message_len(bytes);
    if found < len {
        assert(bytes[found] != 0);
    } else if found > len {
        assert(bytes[len] != 0);
    }
}

/// The state of one exchange: the bytes that have arrived and do not yet
/// make a complete message.
pub struct ExtensionLoader {
    pending: Vec<u8>,
}

impl View for ExtensionLoader {
    type V = Seq<u8>;

    closed spec fn view(&self) -> Seq<u8> {
        self.pending@
    }
}

impl ExtensionLoader {
    /// A loader that has read nothing yet.
    pub fn new() -> (loader: ExtensionLoader)
        ensures
            loader@ == Seq::<u8>::empty(),
    {
        ExtensionLoader { pending: Vec::new() }
    }

    /// Takes in what was read from the pipe and scans for the response.
    pub fn feed(&mut self, chunk: &[u8]) -> (outcome: Option<LoadOutcome>)
        ensures
            match outcome {
                Some(o) => scan(old(self)@ + chunk@).0 == Some(o@),
                None => scan(old(self)@ + chunk@).0 is None,
            },
            final(self)@ == scan(old(self)@ + chunk@).1,
    {
        append_bytes(&mut self.pending, chunk);
        let ghost whole = self.pending@;
        let total = self.pending.len();
        let mut start: usize = 0;
        let mut found: Option<LoadOutcome> = None;
        let mut complete: bool = true;
        assert(whole.subrange(0, total as int) == whole);
        while complete && found.is_none()
            invariant
                self.pending@ == whole,
                total == whole.len(),
                start <= total,
                whole == old(self)@ + chunk@,
                match found {
                    Some(o) => scan(whole) == (Some(o@), whole.subrange(start as int, total as int)),
                    None => if complete {
                        scan(whole) == scan(whole.subrange(start as int, total as int))
                    } else {
                        scan(whole) == (
                            None::<LoadOutcomeView>,
                            whole.subrange(start as int, total as int),
                        )
                    },
                },
            decreases total - start + (if complete && found.is_none() { 1int } else { 0int }),
        {
            let ghost tail = whole.subrange(start as int, total as int);
            let mut end: usize = start;
            while end < total && self.pending[end] != 0
                invariant
                    self.pending@ == whole,
                    total == whole.len(),
                    start <= end <= total,
                    forall|i: int| start <= i < end ==> whole[i] != 0,
                decreases total - end,
            {
                end += 1;
            }
            proof {
                assert forall|i: int| 0 <= i < end - start implies tail[i] != 0 by {
                    assert(tail[i] == whole[start + i]);
                }
                lemma_message_len_is(tail, end - start);
            }
            if end == total {
                complete = false;
            } else {
                let message = vstd::slice::slice_subrange(self.pending.as_slice(), start, end);
                proof {
                    assert(tail.subrange(0, end - start) == whole.subrange(start as int, end as int));
                    assert(tail.subrange(end - start + 1, tail.len() as int) == whole.subrange(
                        end + 1,
                        total as int,
                    ));
                }
                found = match parse_json(message) {
                    Some(response) => response_outcome(&response),
                    None => None,
                };
                start = end + 1;
            }
        }
        let rest = vstd::slice::slice_subrange(self.pending.as_slice(), start, total);
        let mut left: Vec<u8> = Vec::new();
        append_bytes(&mut left, rest);
        self.pending = left;
        found
    }
}

/// Why an exchange ended without an answer of the browser.
#[derive(Debug, Clone, Copy, PartialEq, Eq, Structural)]
pub enum LoadError {
    /// The browser closed its end of the pipe.
    PipeClosed,
    /// No response came within [`LOAD_DEADLINE_SECS`].
    LoadTimeout,
    /// Reading the pipe failed.
    ReadFailed,
}

impl LoadError {
    /// The text of the error, as it is reported.
    pub fn message(&self) -> (text: &'static str)
        ensures
            text@ == (match *self {
                LoadError::PipeClosed => "CDP pipe closed without response"@,
                LoadError::LoadTimeout => "Timeout waiting for CDP response"@,
                LoadError::ReadFailed => "Failed to read CDP response"@,
            }),
    {
        match self {
            LoadError::PipeClosed => "CDP pipe closed without response",
            LoadError::LoadTimeout => "Timeout waiting for CDP response",
            LoadError::ReadFailed => "Failed to read CDP response",
        }
    }
}

impl LoadOutcome {
    /// The identifier of the loaded extension, or the reported text of the
    /// browser's refusal.
    pub fn into_result(self) -> (result: Result<String, String>)
        ensures
            match self@ {
                LoadOutcomeView::Loaded { extension_id } => result is Ok && result->Ok_0@
                    == extension_id,
                LoadOutcomeView::Rejected { message } => result is Err && result->Err_0@
                    == "CDP Extensions.loadUnpacked failed: "@ + message,
            },
    {
        match self {
            LoadOutcome::Loaded { extension_id } => Ok(extension_id),
            LoadOutcome::Rejected { message } => {
                let mut text = String::from_str("CDP Extensions.loadUnpacked failed: ");
                text.append(message.as_str());
                Err(text)
            },
        }
    }
}

/// What one attempt to read the pipe gave. A read that came back carries the
/// time that has passed since the request was sent, so that the deadline is
/// judged on every read.
pub enum PipeRead<'a> {
    /// These bytes were read; none at all means that the pipe is closed.
    Data { chunk: &'a [u8], elapsed_secs: u64, elapsed_subsec_nanos: u32 },
    /// Nothing is there to read yet.
    WouldBlock { elapsed_secs: u64, elapsed_subsec_nanos: u32 },
    /// The read failed.
    Failed,
}

/// What the loader does next.
#[derive(Debug)]
pub enum LoadStep {
    /// Read the pipe again at once.
    ReadAgain,
    /// Sleep so long, then read again.
    Sleep { millis: u64 },
    /// The browser has answered.
    Done { outcome: LoadOutcome },
    /// The exchange has ended without an answer.
    Abort { error: LoadError },
}

/// The mathematical value of a [`LoadStep`].
pub enum LoadStepView {
    ReadAgain,
    Sleep { millis: u64 },
    Done { outcome: LoadOutcomeView },
    Abort { error: LoadError },
}

impl View for LoadStep {
    type V = LoadStepView;

    open spec fn view(&self) -> LoadStepView {
        match self {
            LoadStep::ReadAgain => LoadStepView::ReadAgain,
            LoadStep::Sleep { millis } => LoadStepView::Sleep { millis: *millis },
            LoadStep::Done { outcome } => LoadStepView::Done { outcome: outcome@ },
            LoadStep::Abort { error } => LoadStepView::Abort { error: *error },
        }
    }
}

/// Whether the time that has passed is beyond the deadline.
pub open spec fn past_deadline(elapsed_secs: u64, elapsed_subsec_nanos: u32) -> bool {
    elapsed_secs > LOAD_DEADLINE_SECS || (elapsed_secs == LOAD_DEADLINE_SECS
        && elapsed_subsec_nanos > 0)
}

/// Whether the time that has passed is beyond the deadline.
pub fn deadline_passed(elapsed_secs: u64, elapsed_subsec_nanos: u32) -> (passed: bool)
    ensures
        passed == past_deadline(elapsed_secs, elapsed_subsec_nanos),
{
    elapsed_secs > LOAD_DEADLINE_SECS || (elapsed_secs == LOAD_DEADLINE_SECS
        && elapsed_subsec_nanos > 0)
}

/// What the loader does after a read, with `pending` left over from before.
///
/// A closed pipe and a failed read end the exchange. The response ends it
/// whenever it arrives. Without the response, the exchange ends with
/// `LoadTimeout` as soon as a read comes back after the deadline, whether it
/// brought bytes or not; before the deadline the loader reads on, at once
/// after bytes, after a pause where there were none.
pub open spec fn step_after(pending: Seq<u8>, read: PipeRead) -> LoadStepView {
    match read {
        PipeRead::Data { chunk, elapsed_secs, elapsed_subsec_nanos } => if chunk@.len() == 0 {
            LoadStepView::Abort { error: LoadError::PipeClosed }
        } else {
            match scan(pending + chunk@).0 {
                Some(outcome) => LoadStepView::Done { outcome },
                None => if past_deadline(elapsed_secs, elapsed_subsec_nanos) {
                    LoadStepView::Abort { error: LoadError::LoadTimeout }
                } else {
                    LoadStepView::ReadAgain
                },
            }
        },
        PipeRead::WouldBlock { elapsed_secs, elapsed_subsec_nanos } => if past_deadline(
            elapsed_secs,
            elapsed_subsec_nanos,
        ) {
            LoadStepView::Abort { error: LoadError::LoadTimeout }
        } else {
            LoadStepView::Sleep { millis: POLL_INTERVAL_MS }
        },
        PipeRead::Failed => LoadStepView::Abort { error: LoadError::ReadFailed },
    }
}

/// What the loader keeps after a read.
pub open spec fn pending_after(pending: Seq<u8>, read: PipeRead) -> Seq<u8> {
    match read {
        PipeRead::Data { chunk, .. } => if chunk@.len() == 0 {
            pending
        } else {
            scan(pending + chunk@).1
        },
        _ => pending,
    }
}

impl ExtensionLoader {
    /// Decides what to do after one attempt to read the pipe.
    pub fn step(&mut self, read: PipeRead<'_>) -> (next: LoadStep)
        ensures
            next@ == step_after(old(self)@, read),
            final(self)@ == pending_after(old(self)@, read),
    {
        match read {
            PipeRead::Data { chunk, elapsed_secs, elapsed_subsec_nanos } => {
                if chunk.len() == 0 {
                    LoadStep::Abort { error: LoadError::PipeClosed }
                } else {
                    match self.feed(chunk) {
                        Some(outcome) => LoadStep::Done { outcome },
                        None => if deadline_passed(elapsed_secs, elapsed_subsec_nanos) {
                            LoadStep::Abort { error: LoadError::LoadTimeout }
                        } else {
                            LoadStep::ReadAgain
                        },
                    }
                }
            },
            PipeRead::WouldBlock { elapsed_secs, elapsed_subsec_nanos } => {
                if deadline_passed(elapsed_secs, elapsed_subsec_nanos) {
                    LoadStep::Abort { error: LoadError::LoadTimeout }
                } else {
                    LoadStep::Sleep { millis: POLL_INTERVAL_MS }
                }
            },
            PipeRead::Failed => LoadStep::Abort { error: LoadError::ReadFailed },
        }
    }
}

/// Whether a read came back after the deadline.
pub open spec fn read_past_deadline(read: PipeRead) -> bool {
    match read {
        PipeRead::Data { elapsed_secs, elapsed_subsec_nanos, .. } => past_deadline(
            elapsed_secs,
            elapsed_subsec_nanos,
        ),
        PipeRead::WouldBlock { elapsed_secs, elapsed_subsec_nanos } => past_deadline(
            elapsed_secs,
            elapsed_subsec_nanos,
        ),
        PipeRead::Failed => false,
    }
}

/// The deadline holds for the whole exchange: after a read that came back
/// past the deadline the loader never reads again. It ends with the
/// response if that read brought it, and with an error if not, whatever
/// else the browser wrote.
pub proof fn lemma_deadline_ends_the_exchange(pending: Seq<u8>, read: PipeRead)
    requires
        read_past_deadline(read),
    ensures
        step_after(pending, read) is Done || step_after(pending, read) is Abort,
        step_after(pending, read) is Done ==> read is Data && scan(
            pending + read->chunk@,
        ).0 is Some,
{
}

/// Unrelated traffic does not put the deadline off: a read past the deadline
/// that brings bytes without the response ends the exchange with
/// `LoadTimeout`.
pub proof fn lemma_unrelated_traffic_times_out(
    pending: Seq<u8>,
    chunk: &[u8],
    elapsed_secs: u64,
    elapsed_subsec_nanos: u32,
)
    requires
        chunk@.len() > 0,
        scan(pending + chunk@).0 is None,
        past_deadline(elapsed_secs, elapsed_subsec_nanos),
    ensures
        step_after(pending, PipeRead::Data { chunk, elapsed_secs, elapsed_subsec_nanos }) == (
        LoadStepView::Abort { error: LoadError::LoadTimeout }),
{
}

/// How an exchange goes that starts with `pending` left over and gets
/// `reads` in turn: the step that ended it, or `ReadAgain` where the reads
/// run out before it has ended. Reads after the end are not looked at.
pub open spec fn exchange(pending: Seq<u8>, reads: Seq<PipeRead>) -> LoadStepView
    decreases reads.len(),
{
    if reads.len() == 0 {
        LoadStepView::ReadAgain
    } else {
        let step = step_after(pending, reads[0]);
        if step is Done || step is Abort {
            step
        } else {
            exchange(pending_after(pending, reads[0]), reads.drop_first())
        }
    }
}

/// Whether a read shows the pipe open and working: it brought bytes, or
/// there was nothing to read yet.
pub open spec fn pipe_open(read: PipeRead) -> bool {
    match read {
        PipeRead::Data { chunk, .. } => chunk@.len() > 0,
        PipeRead::WouldBlock { .. } => true,
        PipeRead::Failed => false,
    }
}

/// The exchange is bounded: once one of its reads has come back past the
/// deadline, it has ended, whatever the browser wrote and however the bytes
/// were cut into reads.
pub proof fn lemma_exchange_is_bounded(pending: Seq<u8>, reads: Seq<PipeRead>, late: int)
    requires
        0 <= late < reads.len(),
        read_past_deadline(reads[late]),
    ensures
        exchange(pending, reads) is Done || exchange(pending, reads) is Abort,
    decreases reads.len(),
{
    let step = step_after(pending, reads[0]);
    if !(step is Done || step is Abort) {
        assert(late > 0);
        assert(reads.drop_first()[late - 1] == reads[late]);
        lemma_exchange_is_bounded(pending_after(pending, reads[0]), reads.drop_first(), late - 1);
    }
}

/// Where the pipe stays open and the response never comes (silence, a
/// message that is never completed, or unrelated traffic only), the
/// exchange ends with `LoadTimeout` once a read has come back past the
/// deadline.
pub proof fn lemma_no_response_times_out(pending: Seq<u8>, reads: Seq<PipeRead>, late: int)
    requires
        0 <= late < reads.len(),
        read_past_deadline(reads[late]),
        forall|i: int| 0 <= i < reads.len() ==> pipe_open(#[trigger] reads[i]),
        !(exchange(pending, reads) is Done),
    ensures
        exchange(pending, reads) == (LoadStepView::Abort { error: LoadError::LoadTimeout }),
    decreases reads.len(),
{
    let step = step_after(pending, reads[0]);
    assert(pipe_open(reads[0]));
    if !(step is Done || step is Abort) {
        assert(late > 0);
        let rest = reads.drop_first();
        assert(rest[late - 1] == reads[late]);
        assert forall|i: int| 0 <= i < rest.len() implies pipe_open(#[trigger] rest[i]) by {
            assert(rest[i] == reads[i + 1]);
        }
        lemma_no_response_times_out(pending_after(pending, reads[0]), rest, late - 1);
    }
}

/// A failed read ends the exchange at once.
pub proof fn lemma_failed_read_ends_the_exchange(pending: Seq<u8>)
    ensures
        step_after(pending, PipeRead::Failed) == (LoadStepView::Abort {
            error: LoadError::ReadFailed,
        }),
{
}

/// Whether `message` holds no zero byte, as every JSON text does.
pub open spec fn no_zero_byte(message: Seq<u8>) -> bool {
    forall|i: int| 0 <= i < message.len() ==> message[i] != 0
}

/// The stream that carries `messages` in order, each followed by the zero
/// byte.
pub open spec fn stream_of(messages: Seq<Seq<u8>>) -> Seq<u8>
    decreases messages.len(),
{
    if messages.len() == 0 {
        Seq::empty()
    } else {
        messages[0].push(0u8) + stream_of(messages.drop_first())
    }
}

/// A message whose `id` is not the request's is no response to it, whatever
/// else it holds.
pub proof fn lemma_other_id_is_unrelated(message: JsonValue)
    requires
        message.member("id"@) != Some(JsonValue::UInt(LOAD_REQUEST_ID)),
    ensures
        outcome_of_response(message) is None,
{
}

/// The scan takes the first message off the stream: it ends there if that
/// message answers the request, and goes on behind it if not.
pub proof fn lemma_scan_first_message(first: Seq<u8>, rest: Seq<u8>)
    requires
        no_zero_byte(first),
    ensures
        scan(first.push(0u8) + rest) == (match outcome_of_message(first) {
            Some(outcome) => (Some(outcome), rest),
            None => scan(rest),
        }),
{
    let bytes = first.push(0u8) + rest;
    lemma_message_len_is(bytes, first.len() as int);
    assert(bytes.subrange(0, first.len() as int) == first);
    assert(bytes.subrange(first.len() as int + 1, bytes.len() as int) == rest);
}

/// Correlation: where the stream holds any number of messages that do not
/// answer the request and then the response to it, the scan gives the
/// outcome of that response, and leaves what follows it untouched.
pub proof fn lemma_correlated_response_found(
    unrelated: Seq<Seq<u8>>,
    response: Seq<u8>,
    rest: Seq<u8>,
)
    requires
        forall|i: int|
            0 <= i < unrelated.len() ==> no_zero_byte(#[trigger] unrelated[i])
                && outcome_of_message(unrelated[i]) is None,
        no_zero_byte(response),
        outcome_of_message(response) is Some,
    ensures
        scan(stream_of(unrelated) + response.push(0u8) + rest) == (
            outcome_of_message(response),
            rest,
        ),
    decreases unrelated.len(),
{
    if unrelated.len() == 0 {
        assert(stream_of(unrelated) + response.push(0u8) + rest == response.push(0u8) + rest);
        lemma_scan_first_message(response, rest);
    } else {
        let tail = stream_of(unrelated.drop_first()) + response.push(0u8) + rest;
        assert(stream_of(unrelated) + response.push(0u8) + rest == unrelated[0].push(0u8) + tail);
        lemma_scan_first_message(unrelated[0], tail);
        lemma_correlated_response_found(unrelated.drop_first(), response, rest);
    }
}

/// The scan does not depend on how the stream was cut into reads: as long as
/// no response was found, scanning what was left over together with what
/// comes next gives what scanning it all at once gives.
pub proof fn lemma_scan_resumes(before: Seq<u8>, next: Seq<u8>)
    requires
        scan(before).0 is None,
    ensures
        scan(scan(before).1 + next) == scan(before + next),
    decreases before.len(),
{
    lemma_message_len(before);
    let len = message_len(before);
    if len < before.len() {
        let rest = before.subrange(len + 1, before.len() as int);
        lemma_message_len_is(before + next, len);
        assert((before + next).subrange(0, len) == before.subrange(0, len));
        assert((before + next).subrange(len + 1, (before + next).len() as int) == rest + next);
        lemma_scan_resumes(rest, next);
    }
}

} // verus!
