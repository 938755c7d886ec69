//! The chunked media-upload protocol client.
//!
//! Each attachment is pushed through a strictly sequential handshake:
//! INIT declares the byte size, declared media type and a category tag
//! derived from it; APPEND sends the payload in fixed-size chunks under
//! increasing segment indices; FINALIZE closes the upload; and, when the
//! server reports asynchronous processing, STATUS is polled under
//! server-driven backoff hints until the upload succeeds or fails.
//!
//! The state machine here is pure: it consumes the plain fields of the
//! server's responses and decides the next request.  Performing the
//! requests, and the sleeps between polls, is the caller's concern.

use vstd::prelude::*;
use vstd::slice::slice_subrange;
use vstd::string::StringExecFns;
use crate::text::string_eq_str;

verus! {

/// Size of one APPEND chunk in bytes.
pub const CHUNK_SIZE: usize = 1024 * 1024;

/// Default seconds before the first STATUS poll, when the server gives no
/// hint in the FINALIZE response.
pub const INITIAL_POLL_SECS: u64 = 5;

/// Default seconds between later STATUS polls, when the server gives no
/// hint in a STATUS response.
pub const SUBSEQUENT_POLL_SECS: u64 = 6;

// ---------------------------------------------------------------------
// Media categories
// ---------------------------------------------------------------------

/// The destination platform's upload category, derived from the declared
/// mime type.
#[derive(Clone, Copy, PartialEq, Eq, Structural, Debug)]
pub enum MediaCategory {
    Image,
    Gif,
    Video,
}

/// The category for a mime `type/subtype` pair: `image/gif` uploads as a
/// gif, `video/mp4` as a video, everything else as a still image.
pub open spec fn spec_media_category(mime_type: Seq<char>, mime_subtype: Seq<char>) -> MediaCategory {
    if mime_type == "image"@ && mime_subtype == "gif"@ {
        MediaCategory::Gif
    } else if mime_type == "video"@ && mime_subtype == "mp4"@ {
        MediaCategory::Video
    } else {
        MediaCategory::Image
    }
}

/// Runtime form of [`spec_media_category`].
pub fn media_category(mime_type: &String, mime_subtype: &String) -> (c: MediaCategory)
    ensures
        c == spec_media_category(mime_type@, mime_subtype@),
{
    if string_eq_str(mime_type, "image") && string_eq_str(mime_subtype, "gif") {
        MediaCategory::Gif
    } else if string_eq_str(mime_type, "video") && string_eq_str(mime_subtype, "mp4") {
        MediaCategory::Video
    } else {
        MediaCategory::Image
    }
}

/// The wire tag of an upload category.
pub open spec fn spec_category_tag(c: MediaCategory) -> Seq<char> {
    match c {
        MediaCategory::Gif => "tweet_gif"@,
        MediaCategory::Video => "tweet_video"@,
        MediaCategory::Image => "tweet_image"@,
    }
}

/// Runtime form of [`spec_category_tag`].
pub fn category_tag(c: &MediaCategory) -> (tag: String)
    ensures
        tag@ == spec_category_tag(*c),
{
    match c {
        MediaCategory::Gif => String::from_str("tweet_gif"),
        MediaCategory::Video => String::from_str("tweet_video"),
        MediaCategory::Image => String::from_str("tweet_image"),
    }
}

// ---------------------------------------------------------------------
// Sniffing the declared media type
// ---------------------------------------------------------------------

/// The media type that content sniffing assigns to a byte payload; a
/// function of the bytes alone.
pub uninterp spec fn sniffed_mime_of(data: Seq<u8>) -> Option<Seq<char>>;

/// The `type`, `subtype` and normalized `type/subtype` essence that mime
/// parsing extracts from a media-type string; a function of the string
/// alone.
pub uninterp spec fn mime_parts_of(s: Seq<char>) -> Option<(Seq<char>, Seq<char>, Seq<char>)>;

/// Relies on mime_sniffer's `MimeTypeSniffer::sniff_mime_type` for byte
/// slices: content sniffing examines the payload bytes alone and yields a
/// media-type string, or nothing when the content matches no known type.
#[verifier::external_body]
fn sniff_mime(data: &Vec<u8>) -> (r: Option<String>)
    ensures
        r matches Some(s) ==> sniffed_mime_of(data@) == Some(s@),
        r is None ==> sniffed_mime_of(data@) is None,
{
    mime_sniffer::MimeTypeSniffer::sniff_mime_type(data).map(|s| s.to_owned())
}

/// Relies on mime's `FromStr` for `Mime` together with `Mime::type_`,
/// `Mime::subtype` and `Mime::essence_str`: parsing a media-type string
/// depends on the string alone and yields its type, subtype and
/// normalized essence, or nothing when the string is not a media type.
#[verifier::external_body]
fn parse_mime_parts(s: &str) -> (r: Option<(String, String, String)>)
    ensures
        r matches Some(p) ==> mime_parts_of(s@) == Some((p.0@, p.1@, p.2@)),
        r is None ==> mime_parts_of(s@) is None,
{
    match s.parse::<mime::Mime>() {
        Ok(m) => Some(
            (
                m.type_().as_str().to_owned(),
                m.subtype().as_str().to_owned(),
                m.essence_str().to_owned(),
            ),
        ),
        Err(_) => None,
    }
}

/// The declared mime type of an attachment, as plain strings.
pub struct MediaKind {
    /// The mime type proper, `"image"` in `"image/png"`.
    pub mime_type: String,
    /// The mime subtype, `"png"` in `"image/png"`.
    pub mime_subtype: String,
    /// The normalized `type/subtype` string sent as the declared media
    /// type of the upload.
    pub media_type: String,
}

/// What sniffing and parsing assign to a payload, with `image/jpeg` as
/// the fallback when either step yields nothing.
pub open spec fn spec_media_kind(data: Seq<u8>) -> (Seq<char>, Seq<char>, Seq<char>) {
    match sniffed_mime_of(data) {
        Some(s) => match mime_parts_of(s) {
            Some(p) => p,
            None => ("image"@, "jpeg"@, "image/jpeg"@),
        },
        None => ("image"@, "jpeg"@, "image/jpeg"@),
    }
}

fn jpeg_fallback() -> (k: MediaKind)
    ensures
        k.mime_type@ == "image"@,
        k.mime_subtype@ == "jpeg"@,
        k.media_type@ == "image/jpeg"@,
{
    MediaKind {
        mime_type: String::from_str("image"),
        mime_subtype: String::from_str("jpeg"),
        media_type: String::from_str("image/jpeg"),
    }
}

/// Determines the declared media type of a payload by content sniffing,
/// falling back to `image/jpeg` when the content cannot be sniffed or the
/// sniffed string does not parse as a media type.
pub fn media_kind_for(data: &Vec<u8>) -> (k: MediaKind)
    ensures
        (k.mime_type@, k.mime_subtype@, k.media_type@) == spec_media_kind(data@),
{
    match sniff_mime(data) {
        Some(s) => match parse_mime_parts(s.as_str()) {
            Some((t, sub, essence)) => MediaKind {
                mime_type: t,
                mime_subtype: sub,
                media_type: essence,
            },
            None => jpeg_fallback(),
        },
        None => jpeg_fallback(),
    }
}

// ---------------------------------------------------------------------
// Chunking
// ---------------------------------------------------------------------

/// Number of APPEND chunks for a payload of `total` bytes: the payload is
/// cut into full chunks plus one final short chunk; an empty payload has
/// no chunks.
pub open spec fn spec_chunk_count(total: nat) -> nat {
    if total == 0 {
        0
    } else {
        (total - 1) as nat / CHUNK_SIZE as nat + 1
    }
}

/// Runtime form of [`spec_chunk_count`].
pub fn chunk_count(total: usize) -> (n: usize)
    ensures
        n == spec_chunk_count(total as nat),
{
    if total == 0 {
        0
    } else {
        (total - 1) / CHUNK_SIZE + 1
    }
}

/// A chunk index points strictly inside the payload.
pub proof fn lemma_chunk_start_in_bounds(total: nat, i: nat)
    requires
        i < spec_chunk_count(total),
    ensures
        i * CHUNK_SIZE < total,
{
    let c = CHUNK_SIZE as int;
    let q = (total - 1) as int / c;
    vstd::arithmetic::mul::lemma_mul_inequality(i as int, q, c);
    vstd::arithmetic::div_mod::lemma_fundamental_div_mod((total - 1) as int, c);
    vstd::arithmetic::div_mod::lemma_mod_bound((total - 1) as int, c);
}

/// The bytes of APPEND segment `i`: the `i`-th fixed-size slice of the
/// payload, shortened at the end of the data.
pub open spec fn spec_chunk(data: Seq<u8>, i: int) -> Seq<u8> {
    data.subrange(
        i * CHUNK_SIZE,
        if (i + 1) * CHUNK_SIZE <= data.len() {
            (i + 1) * CHUNK_SIZE
        } else {
            data.len() as int
        },
    )
}

/// Runtime form of [`spec_chunk`].  Every chunk is non-empty.
pub fn chunk_of<'a>(data: &'a [u8], i: usize) -> (chunk: &'a [u8])
    requires
        (i as nat) < spec_chunk_count(data@.len()),
    ensures
        chunk@ == spec_chunk(data@, i as int),
        chunk@.len() >= 1,
{
    let total = data.len();
    proof {
        lemma_chunk_start_in_bounds(total as nat, i as nat);
    }
    let start = i * CHUNK_SIZE;
    let end = if total - start > CHUNK_SIZE {
        start + CHUNK_SIZE
    } else {
        total
    };
    slice_subrange(data, start, end)
}

/// The first `k` APPEND segments of a payload, joined in order.
pub open spec fn spec_chunks_concat(data: Seq<u8>, k: nat) -> Seq<u8>
    decreases k,
{
    if k == 0 {
        Seq::empty()
    } else {
        spec_chunks_concat(data, (k - 1) as nat) + spec_chunk(data, k - 1)
    }
}

/// The first `k` chunks are exactly the payload's first bytes, up to
/// where chunk `k` would begin.
proof fn lemma_chunks_prefix(data: Seq<u8>, k: nat)
    requires
        k <= spec_chunk_count(data.len()),
    ensures
        spec_chunks_concat(data, k) =~= data.subrange(
            0,
            if k * CHUNK_SIZE <= data.len() {
                k * CHUNK_SIZE
            } else {
                data.len() as int
            },
        ),
    decreases k,
{
    if k > 0 {
        lemma_chunks_prefix(data, (k - 1) as nat);
        lemma_chunk_start_in_bounds(data.len(), (k - 1) as nat);
    }
}

/// The APPEND segments partition the payload: all chunks joined in their
/// segment order reproduce the payload bytes exactly, so the upload sends
/// every byte once and in order.
pub proof fn lemma_chunks_cover(data: Seq<u8>)
    ensures
        spec_chunks_concat(data, spec_chunk_count(data.len())) == data,
{
    let len = data.len() as int;
    let c = CHUNK_SIZE as int;
    let count = spec_chunk_count(data.len()) as int;
    lemma_chunks_prefix(data, spec_chunk_count(data.len()));
    if data.len() > 0 {
        vstd::arithmetic::div_mod::lemma_fundamental_div_mod(len - 1, c);
        vstd::arithmetic::div_mod::lemma_mod_bound(len - 1, c);
        assert(count * c >= len);
    }
    assert(spec_chunks_concat(data, spec_chunk_count(data.len())) =~= data);
}

// ---------------------------------------------------------------------
// The per-attachment upload session
// ---------------------------------------------------------------------

/// The protocol state of one attachment's upload.
#[derive(Clone, Copy, PartialEq, Eq, Structural, Debug)]
pub enum UploadState {
    /// INIT not yet acknowledged.
    Initialized,
    /// Sending APPEND chunks.
    Appending,
    /// All chunks acknowledged; FINALIZE not yet acknowledged.
    Finalizing,
    /// The server is processing the upload asynchronously.
    Processing,
    /// Terminal: the media identifier is usable.
    Succeeded,
    /// Terminal: the server reported a failed processing state.
    Failed,
}

/// One attachment's upload session.
#[derive(Clone, Copy, PartialEq, Eq, Structural, Debug)]
pub struct UploadSession {
    /// The platform's media identifier, known once INIT is acknowledged.
    pub media_id: Option<u64>,
    /// Total payload size in bytes, declared in INIT.
    pub total_bytes: usize,
    /// Number of APPEND segments acknowledged so far.
    pub appended: usize,
    pub state: UploadState,
    /// Seconds to wait before the next STATUS poll.
    pub check_after_secs: u64,
}

/// A server response, reduced to the plain fields the protocol reads.
pub enum UploadEvent {
    /// INIT acknowledged with the assigned media identifier.
    InitAck { media_id: u64 },
    /// One APPEND segment acknowledged.
    AppendAck,
    /// FINALIZE acknowledged, with the optional processing state and poll
    /// hint of its `processing_info`.
    FinalizeAck { state: Option<Seq<char>>, check_after_secs: Option<u64> },
    /// A STATUS response, with the optional processing state and poll
    /// hint of its `processing_info`.
    StatusReport { state: Option<Seq<char>>, check_after_secs: Option<u64> },
}

/// Whether a reported processing state means success.
pub open spec fn spec_is_succeeded(s: Seq<char>) -> bool {
    s == "succeeded"@
}

/// Whether a reported processing state is terminal failure.
pub open spec fn spec_is_failed(s: Seq<char>) -> bool {
    s == "failed"@
}

impl UploadSession {
    /// Well-formedness: the acknowledged segments never outrun the chunk
    /// count, the media identifier exists exactly from the INIT
    /// acknowledgement on, and appending is over once finalization
    /// starts.
    pub open spec fn wf(self) -> bool {
        &&& self.appended <= spec_chunk_count(self.total_bytes as nat)
        &&& (self.state == UploadState::Initialized ==> self.appended == 0 && self.media_id
            is None)
        &&& (self.state != UploadState::Initialized ==> self.media_id is Some)
        &&& (self.state == UploadState::Appending ==> self.appended < spec_chunk_count(
            self.total_bytes as nat,
        ))
        &&& ((self.state == UploadState::Finalizing || self.state == UploadState::Processing
            || self.state == UploadState::Succeeded || self.state == UploadState::Failed)
            ==> self.appended == spec_chunk_count(self.total_bytes as nat))
    }

    /// A fresh session for a payload of `total_bytes` bytes, about to
    /// send INIT.
    pub fn new(total_bytes: usize) -> (s: UploadSession)
        ensures
            s.state == UploadState::Initialized,
            s.media_id is None,
            s.total_bytes == total_bytes,
            s.appended == 0,
            s.check_after_secs == INITIAL_POLL_SECS,
            s.wf(),
    {
        UploadSession {
            media_id: None,
            total_bytes,
            appended: 0,
            state: UploadState::Initialized,
            check_after_secs: INITIAL_POLL_SECS,
        }
    }

    /// The session after one server response.  Responses that do not
    /// belong to the current state leave the session unchanged.
    pub open spec fn spec_step(self, e: UploadEvent) -> UploadSession {
        match e {
            UploadEvent::InitAck { media_id } => {
                if self.state == UploadState::Initialized {
                    UploadSession {
                        media_id: Some(media_id),
                        state: if spec_chunk_count(self.total_bytes as nat) == 0 {
                            UploadState::Finalizing
                        } else {
                            UploadState::Appending
                        },
                        ..self
                    }
                } else {
                    self
                }
            },
            UploadEvent::AppendAck => {
                if self.state == UploadState::Appending {
                    UploadSession {
                        appended: (self.appended + 1) as usize,
                        state: if self.appended + 1 == spec_chunk_count(self.total_bytes as nat) {
                            UploadState::Finalizing
                        } else {
                            UploadState::Appending
                        },
                        ..self
                    }
                } else {
                    self
                }
            },
            UploadEvent::FinalizeAck { state, check_after_secs } => {
                if self.state == UploadState::Finalizing {
                    match state {
                        None => UploadSession { state: UploadState::Succeeded, ..self },
                        Some(st) => {
                            if spec_is_succeeded(st) {
                                UploadSession { state: UploadState::Succeeded, ..self }
                            } else {
                                UploadSession {
                                    state: UploadState::Processing,
                                    check_after_secs: match check_after_secs {
                                        Some(v) => v,
                                        None => INITIAL_POLL_SECS,
                                    },
                                    ..self
                                }
                            }
                        },
                    }
                } else {
                    self
                }
            },
            UploadEvent::StatusReport { state, check_after_secs } => {
                if self.state == UploadState::Processing {
                    match state {
                        Some(st) => {
                            if spec_is_succeeded(st) {
                                UploadSession { state: UploadState::Succeeded, ..self }
                            } else if spec_is_failed(st) {
                                UploadSession { state: UploadState::Failed, ..self }
                            } else {
                                UploadSession {
                                    state: UploadState::Processing,
                                    check_after_secs: match check_after_secs {
                                        Some(v) => v,
                                        None => SUBSEQUENT_POLL_SECS,
                                    },
                                    ..self
                                }
                            }
                        },
                        None => UploadSession {
                            state: UploadState::Processing,
                            check_after_secs: match check_after_secs {
                                Some(v) => v,
                                None => SUBSEQUENT_POLL_SECS,
                            },
                            ..self
                        },
                    }
                } else {
                    self
                }
            },
        }
    }

    /// Records the INIT acknowledgement: the media identifier is kept and
    /// appending begins (or, for an empty payload, finalization).
    pub fn init_acknowledged(&mut self, media_id: u64)
        requires
            old(self).wf(),
            old(self).state == UploadState::Initialized,
        ensures
            *final(self) == old(self).spec_step(UploadEvent::InitAck { media_id }),
            final(self).wf(),
    {
        self.media_id = Some(media_id);
        let count = chunk_count(self.total_bytes);
        self.state = if count == 0 {
            UploadState::Finalizing
        } else {
            UploadState::Appending
        };
    }

    /// Records the acknowledgement of the APPEND segment currently in
    /// flight; after the last segment the session moves to finalization.
    pub fn append_acknowledged(&mut self)
        requires
            old(self).wf(),
            old(self).state == UploadState::Appending,
        ensures
            *final(self) == old(self).spec_step(UploadEvent::AppendAck),
            final(self).wf(),
    {
        self.appended = self.appended + 1;
        let count = chunk_count(self.total_bytes);
        self.state = if self.appended == count {
            UploadState::Finalizing
        } else {
            UploadState::Appending
        };
    }

    /// Records the FINALIZE acknowledgement.  An absent processing state,
    /// or one already reading `succeeded`, completes the upload; anything
    /// else moves the session into asynchronous processing under the
    /// server's poll hint (or its default).
    pub fn finalize_acknowledged(&mut self, state_str: Option<String>, check_after_secs: Option<
        u64,
    >)
        requires
            old(self).wf(),
            old(self).state == UploadState::Finalizing,
        ensures
            *final(self) == old(self).spec_step(
                UploadEvent::FinalizeAck {
                    state: match state_str {
                        Some(st) => Some(st@),
                        None => None,
                    },
                    check_after_secs,
                },
            ),
            final(self).wf(),
    {
        let done = match &state_str {
            None => true,
            Some(st) => string_eq_str(st, "succeeded"),
        };
        if done {
            self.state = UploadState::Succeeded;
        } else {
            self.state = UploadState::Processing;
            self.check_after_secs = match check_after_secs {
                Some(v) => v,
                None => INITIAL_POLL_SECS,
            };
        }
    }

    /// Records a STATUS response: `succeeded` completes the upload,
    /// `failed` fails it, anything else keeps polling under the server's
    /// hint (or its default).
    pub fn status_received(&mut self, state_str: Option<String>, check_after_secs: Option<u64>)
        requires
            old(self).wf(),
            old(self).state == UploadState::Processing,
        ensures
            *final(self) == old(self).spec_step(
                UploadEvent::StatusReport {
                    state: match state_str {
                        Some(st) => Some(st@),
                        None => None,
                    },
                    check_after_secs,
                },
            ),
            final(self).wf(),
    {
        let is_done = match &state_str {
            Some(st) => string_eq_str(st, "succeeded"),
            None => false,
        };
        let is_failed = match &state_str {
            Some(st) => string_eq_str(st, "failed"),
            None => false,
        };
        if is_done {
            self.state = UploadState::Succeeded;
        } else if is_failed {
            self.state = UploadState::Failed;
        } else {
            self.check_after_secs = match check_after_secs {
                Some(v) => v,
                None => SUBSEQUENT_POLL_SECS,
            };
        }
    }
}

/// The request the session asks its driver to perform next.
#[derive(Clone, Copy, PartialEq, Eq, Structural, Debug)]
pub enum UploadAction {
    /// Send INIT with the declared size, media type and category.
    SendInit,
    /// Send the APPEND request for this segment.
    SendAppend { segment_index: usize },
    /// Send FINALIZE.
    SendFinalize,
    /// Sleep this many seconds, then send STATUS.
    PollStatus { after_secs: u64 },
    /// The upload is complete; use this media identifier.
    Finished { media_id: u64 },
    /// The server reported terminal failure; abandon the iteration.
    Aborted,
}

impl UploadSession {
    /// The next request to perform for this session.
    pub fn next_action(&self) -> (a: UploadAction)
        requires
            self.wf(),
        ensures
            self.state == UploadState::Initialized ==> a == UploadAction::SendInit,
            self.state == UploadState::Appending ==> a == (UploadAction::SendAppend {
                segment_index: self.appended,
            }) && (self.appended as nat) < spec_chunk_count(self.total_bytes as nat),
            self.state == UploadState::Finalizing ==> a == UploadAction::SendFinalize,
            self.state == UploadState::Processing ==> a == (UploadAction::PollStatus {
                after_secs: self.check_after_secs,
            }),
            self.state == UploadState::Succeeded ==> a == (UploadAction::Finished {
                media_id: self.media_id.unwrap(),
            }),
            self.state == UploadState::Failed ==> a == UploadAction::Aborted,
    {
        match self.state {
            UploadState::Initialized => UploadAction::SendInit,
            UploadState::Appending => UploadAction::SendAppend { segment_index: self.appended },
            UploadState::Finalizing => UploadAction::SendFinalize,
            UploadState::Processing => UploadAction::PollStatus {
                after_secs: self.check_after_secs,
            },
            UploadState::Succeeded => {
                let id = self.media_id.unwrap();
                UploadAction::Finished { media_id: id }
            },
            UploadState::Failed => UploadAction::Aborted,
        }
    }
}

/// Progress rank of an upload state; the two terminal states share the
/// top rank.
pub open spec fn rank(s: UploadState) -> int {
    match s {
        UploadState::Initialized => 0,
        UploadState::Appending => 1,
        UploadState::Finalizing => 2,
        UploadState::Processing => 3,
        UploadState::Succeeded => 4,
        UploadState::Failed => 4,
    }
}

/// Monotonicity of the upload state machine: a response moves the state
/// only forward through Initialized, Appending, Finalizing, Processing,
/// Succeeded, or diverts it to Failed — and Failed arises only out of
/// asynchronous processing.  Succeeded and Failed absorb every further
/// response.
pub proof fn lemma_upload_state_monotonic(s: UploadSession, e: UploadEvent)
    ensures
        rank(s.spec_step(e).state) >= rank(s.state),
        s.spec_step(e).state == UploadState::Failed ==> s.state == UploadState::Processing
            || s.state == UploadState::Failed,
        s.state == UploadState::Succeeded ==> s.spec_step(e).state == UploadState::Succeeded,
        s.state == UploadState::Failed ==> s.spec_step(e).state == UploadState::Failed,
{
}

/// The session after a whole sequence of server responses, applied in
/// order.
pub open spec fn spec_run(s: UploadSession, events: Seq<UploadEvent>) -> UploadSession
    decreases events.len(),
{
    if events.len() == 0 {
        s
    } else {
        spec_run(s.spec_step(events[0]), events.drop_first())
    }
}

/// Monotonicity over any response sequence: however many responses
/// arrive, the state never moves backwards, and a session that has
/// succeeded or failed stays so.
pub proof fn lemma_upload_run_monotonic(s: UploadSession, events: Seq<UploadEvent>)
    ensures
        rank(spec_run(s, events).state) >= rank(s.state),
        s.state == UploadState::Succeeded ==> spec_run(s, events).state == UploadState::Succeeded,
        s.state == UploadState::Failed ==> spec_run(s, events).state == UploadState::Failed,
    decreases events.len(),
{
    if events.len() > 0 {
        lemma_upload_state_monotonic(s, events[0]);
        lemma_upload_run_monotonic(s.spec_step(events[0]), events.drop_first());
    }
}

} // verus!
