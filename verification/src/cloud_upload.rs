//! The share-to-cloud upload as a state machine: init, the video PUT, the
//! best-effort poster and caption PUTs, completion and the public share link.
//! The caller performs each action against the network and hands back what
//! came of it; every decision between those round trips is made here.

use vstd::prelude::*;

use crate::cloud::{
    complete_error_text, humanize_complete_error, humanize_init_error, init_error_text,
    reason_spec, side_upload_is_put, unsupported_provider_message, upload_method_supported,
    uppercase_spec, CloudShareResult,
};
use crate::text::{ascii_lower, push_str, string_of};

verus! {

/// Where an upload stands.
#[derive(Debug, Clone, Copy, PartialEq, Eq, Structural)]
pub enum UploadPhase {
    /// Waiting for the answer to the init request.
    Init,
    /// Waiting for the video PUT.
    Video,
    /// Waiting for the poster PUT.
    Poster,
    /// Waiting for the captions PUT.
    Captions,
    /// Waiting for the completion request.
    Complete,
    /// Waiting for the share-link request.
    Share,
    /// The share link is made.
    Done,
    /// The upload failed.
    Failed,
}

/// An upload in progress.
#[derive(Debug, Clone)]
pub struct UploadFlow {
    pub phase: UploadPhase,
    /// A poster frame was rendered and can be sent.
    pub poster_ready: bool,
    /// A caption track was rendered and can be sent.
    pub captions_ready: bool,
    /// The init answer signed a PUT for the poster.
    pub poster_signed: bool,
    /// The init answer signed a PUT for the captions.
    pub captions_signed: bool,
    /// The draft recast the init answer reserved.
    pub recast_id: String,
    /// The poster arrived.
    pub has_poster: bool,
    /// The caption track arrived.
    pub has_captions: bool,
}

/// What came back from the network for the pending step.
#[derive(Debug, Clone)]
pub enum UploadEvent {
    /// The init request could not be sent.
    InitSendFailed(String),
    /// The init request was answered with a non-success status.
    InitRejected { status: u16, body: String },
    /// The init answer could not be read.
    InitParseFailed(String),
    /// The init answer: the draft's id, the video upload's method, and the
    /// methods of the poster and caption uploads it signed, if any.
    InitAccepted {
        recast_id: String,
        method: String,
        poster_method: Option<String>,
        captions_method: Option<String>,
    },
    /// The exported file could not be read.
    VideoReadFailed(String),
    /// The video PUT could not be sent.
    VideoSendFailed(String),
    /// The video PUT was answered with this (non-success) status.
    VideoRejected(String),
    /// The video is stored.
    VideoStored,
    /// The poster PUT ended, successfully or not.
    PosterSent(bool),
    /// The captions PUT ended, successfully or not.
    CaptionsSent(bool),
    /// The completion request could not be sent.
    CompleteSendFailed(String),
    /// The completion request was answered with a non-success status.
    CompleteRejected { status: u16, body: String },
    /// The upload is published.
    Completed,
    /// The share request could not be sent.
    ShareSendFailed(String),
    /// The share request was answered with this (non-success) status.
    ShareRejected { status: String, body: String },
    /// The share answer could not be read.
    ShareParseFailed(String),
    /// The share link.
    Shared { slug: String, share_url: String },
}

/// What the uploader does next.
#[derive(Debug, Clone)]
pub enum UploadAction {
    /// PUT the exported video to the signed URL.
    PutVideo,
    /// PUT the poster frame to its signed URL.
    PutPoster,
    /// PUT the caption track to its signed URL.
    PutCaptions,
    /// Ask the server to publish the draft.
    Complete { recast_id: String, has_poster: bool, has_captions: bool },
    /// Ask for a public share link.
    Share { recast_id: String },
    /// Record the upload and report the link.
    Finish(CloudShareResult),
    /// Report the failure.
    Fail(String),
}

/// The abstract state of an upload.
pub struct FlowView {
    pub phase: UploadPhase,
    pub poster_ready: bool,
    pub captions_ready: bool,
    pub poster_signed: bool,
    pub captions_signed: bool,
    pub recast_id: Seq<char>,
    pub has_poster: bool,
    pub has_captions: bool,
}

impl View for UploadFlow {
    type V = FlowView;

    open spec fn view(&self) -> FlowView {
        FlowView {
            phase: self.phase,
            poster_ready: self.poster_ready,
            captions_ready: self.captions_ready,
            poster_signed: self.poster_signed,
            captions_signed: self.captions_signed,
            recast_id: self.recast_id@,
            has_poster: self.has_poster,
            has_captions: self.has_captions,
        }
    }
}

/// The abstract content of a network answer.
pub enum EventView {
    InitSendFailed(Seq<char>),
    InitRejected { status: u16, body: Seq<char> },
    InitParseFailed(Seq<char>),
    InitAccepted {
        recast_id: Seq<char>,
        method: Seq<char>,
        poster_method: Option<Seq<char>>,
        captions_method: Option<Seq<char>>,
    },
    VideoReadFailed(Seq<char>),
    VideoSendFailed(Seq<char>),
    VideoRejected(Seq<char>),
    VideoStored,
    PosterSent(bool),
    CaptionsSent(bool),
    CompleteSendFailed(Seq<char>),
    CompleteRejected { status: u16, body: Seq<char> },
    Completed,
    ShareSendFailed(Seq<char>),
    ShareRejected { status: Seq<char>, body: Seq<char> },
    ShareParseFailed(Seq<char>),
    Shared { slug: Seq<char>, share_url: Seq<char> },
}

/// The abstract content of an action.
pub enum ActionView {
    PutVideo,
    PutPoster,
    PutCaptions,
    Complete { recast_id: Seq<char>, has_poster: bool, has_captions: bool },
    Share { recast_id: Seq<char> },
    Finish { recast_id: Seq<char>, slug: Seq<char>, share_url: Seq<char> },
    Fail(Seq<char>),
}

pub open spec fn opt_text(o: Option<String>) -> Option<Seq<char>> {
    match o {
        Some(s) => Some(s@),
        None => None,
    }
}

impl View for UploadEvent {
    type V = EventView;

    open spec fn view(&self) -> EventView {
        match self {
            UploadEvent::InitSendFailed(e) => EventView::InitSendFailed(e@),
            UploadEvent::InitRejected { status, body } => EventView::InitRejected {
                status: *status,
                body: body@,
            },
            UploadEvent::InitParseFailed(e) => EventView::InitParseFailed(e@),
            UploadEvent::InitAccepted { recast_id, method, poster_method, captions_method } =>
                EventView::InitAccepted {
                recast_id: recast_id@,
                method: method@,
                poster_method: opt_text(*poster_method),
                captions_method: opt_text(*captions_method),
            },
            UploadEvent::VideoReadFailed(e) => EventView::VideoReadFailed(e@),
            UploadEvent::VideoSendFailed(e) => EventView::VideoSendFailed(e@),
            UploadEvent::VideoRejected(s) => EventView::VideoRejected(s@),
            UploadEvent::VideoStored => EventView::VideoStored,
            UploadEvent::PosterSent(ok) => EventView::PosterSent(*ok),
            UploadEvent::CaptionsSent(ok) => EventView::CaptionsSent(*ok),
            UploadEvent::CompleteSendFailed(e) => EventView::CompleteSendFailed(e@),
            UploadEvent::CompleteRejected { status, body } => EventView::CompleteRejected {
                status: *status,
                body: body@,
            },
            UploadEvent::Completed => EventView::Completed,
            UploadEvent::ShareSendFailed(e) => EventView::ShareSendFailed(e@),
            UploadEvent::ShareRejected { status, body } => EventView::ShareRejected {
                status: status@,
                body: body@,
            },
            UploadEvent::ShareParseFailed(e) => EventView::ShareParseFailed(e@),
            UploadEvent::Shared { slug, share_url } => EventView::Shared {
                slug: slug@,
                share_url: share_url@,
            },
        }
    }
}

/// The abstract content of an action.
pub open spec fn action_view(a: UploadAction) -> ActionView {
    match a {
        UploadAction::PutVideo => ActionView::PutVideo,
        UploadAction::PutPoster => ActionView::PutPoster,
        UploadAction::PutCaptions => ActionView::PutCaptions,
        UploadAction::Complete { recast_id, has_poster, has_captions } => ActionView::Complete {
            recast_id: recast_id@,
            has_poster,
            has_captions,
        },
        UploadAction::Share { recast_id } => ActionView::Share { recast_id: recast_id@ },
        UploadAction::Finish(r) => ActionView::Finish {
            recast_id: r.recast_id@,
            slug: r.slug@,
            share_url: r.share_url@,
        },
        UploadAction::Fail(m) => ActionView::Fail(m@),
    }
}

/// Whether an answer belongs to the step an upload is waiting on.
pub open spec fn expects(phase: UploadPhase, e: EventView) -> bool {
    match phase {
        UploadPhase::Init => e is InitSendFailed || e is InitRejected || e is InitParseFailed
            || e is InitAccepted,
        UploadPhase::Video => e is VideoReadFailed || e is VideoSendFailed || e is VideoRejected
            || e is VideoStored,
        UploadPhase::Poster => e is PosterSent,
        UploadPhase::Captions => e is CaptionsSent,
        UploadPhase::Complete => e is CompleteSendFailed || e is CompleteRejected
            || e is Completed,
        UploadPhase::Share => e is ShareSendFailed || e is ShareRejected || e is ShareParseFailed
            || e is Shared,
        UploadPhase::Done => false,
        UploadPhase::Failed => false,
    }
}

/// A best-effort side upload signed by the init answer counts only when it
/// is a `PUT`, in any ASCII case.
pub open spec fn signed_put(method: Option<Seq<char>>) -> bool {
    match method {
        Some(m) => ascii_lower(m) == ascii_lower("PUT"@),
        None => false,
    }
}

/// The upload failed with `message`.
pub open spec fn failed(f: FlowView, message: Seq<char>) -> (FlowView, ActionView) {
    (FlowView { phase: UploadPhase::Failed, ..f }, ActionView::Fail(message))
}

/// After the captions step (or in its place): ask for completion.
pub open spec fn to_complete(f: FlowView) -> (FlowView, ActionView) {
    (
        FlowView { phase: UploadPhase::Complete, ..f },
        ActionView::Complete {
            recast_id: f.recast_id,
            has_poster: f.has_poster,
            has_captions: f.has_captions,
        },
    )
}

/// After the poster step (or in its place): send the captions when there are
/// some and a PUT was signed for them, else go on to completion.
pub open spec fn after_poster(f: FlowView) -> (FlowView, ActionView) {
    if f.captions_ready && f.captions_signed {
        (FlowView { phase: UploadPhase::Captions, ..f }, ActionView::PutCaptions)
    } else {
        to_complete(f)
    }
}

/// After the video is stored: send the poster when there is one and a PUT
/// was signed for it, else go on to the captions.
pub open spec fn after_video(f: FlowView) -> (FlowView, ActionView) {
    if f.poster_ready && f.poster_signed {
        (FlowView { phase: UploadPhase::Poster, ..f }, ActionView::PutPoster)
    } else {
        after_poster(f)
    }
}

/// One step of the upload: the next state and what to do, for an answer to
/// the pending step.
pub open spec fn upload_step(f: FlowView, e: EventView) -> (FlowView, ActionView) {
    match e {
        EventView::InitSendFailed(m) => failed(f, "Upload init failed: "@ + m),
        EventView::InitRejected { status, body } => failed(
            f,
            init_error_text(status, reason_spec(body)),
        ),
        EventView::InitParseFailed(m) => failed(f, "Upload init parse failed: "@ + m),
        EventView::InitAccepted { recast_id, method, poster_method, captions_method } => {
            if uppercase_spec(method) != "PUT"@ {
                failed(f, "This storage provider isn't supported by the desktop uploader yet."@)
            } else {
                (
                    FlowView {
                        phase: UploadPhase::Video,
                        recast_id: recast_id,
                        poster_signed: signed_put(poster_method),
                        captions_signed: signed_put(captions_method),
                        ..f
                    },
                    ActionView::PutVideo,
                )
            }
        },
        EventView::VideoReadFailed(m) => failed(f, "Couldn't read export file: "@ + m),
        EventView::VideoSendFailed(m) => failed(f, "Upload failed: "@ + m),
        EventView::VideoRejected(s) => failed(f, "Upload rejected ("@ + s + ")."@),
        EventView::VideoStored => after_video(f),
        EventView::PosterSent(ok) => after_poster(FlowView { has_poster: ok, ..f }),
        EventView::CaptionsSent(ok) => to_complete(FlowView { has_captions: ok, ..f }),
        EventView::CompleteSendFailed(m) => failed(f, "Finalize failed: "@ + m),
        EventView::CompleteRejected { status, body } => failed(
            f,
            complete_error_text(status, reason_spec(body)),
        ),
        EventView::Completed => (
            FlowView { phase: UploadPhase::Share, ..f },
            ActionView::Share { recast_id: f.recast_id },
        ),
        EventView::ShareSendFailed(m) => failed(f, "Creating share link failed: "@ + m),
        EventView::ShareRejected { status, body } => failed(
            f,
            "Creating share link failed ("@ + status + "): "@ + body,
        ),
        EventView::ShareParseFailed(m) => failed(f, "Share response parse failed: "@ + m),
        EventView::Shared { slug, share_url } => (
            FlowView { phase: UploadPhase::Done, ..f },
            ActionView::Finish { recast_id: f.recast_id, slug, share_url },
        ),
    }
}

/// What an upload promises of its state: it claims a side upload only after
/// sending one, and sends one only when it was rendered and signed.
pub open spec fn flow_wf(f: FlowView) -> bool {
    &&& f.has_poster ==> f.poster_ready && f.poster_signed
    &&& f.has_captions ==> f.captions_ready && f.captions_signed
    &&& f.phase == UploadPhase::Init ==> !f.poster_signed && !f.captions_signed
    &&& (f.phase == UploadPhase::Init || f.phase == UploadPhase::Video || f.phase
        == UploadPhase::Poster) ==> !f.has_poster && !f.has_captions
    &&& f.phase == UploadPhase::Poster ==> f.poster_ready && f.poster_signed
    &&& f.phase == UploadPhase::Captions ==> !f.has_captions && f.captions_ready
        && f.captions_signed
}

fn joined3(a: &str, b: &str, c: &str) -> (s: String)
    ensures
        s@ == a@ + b@ + c@,
{
    let mut out: Vec<char> = Vec::new();
    push_str(&mut out, a);
    push_str(&mut out, b);
    push_str(&mut out, c);
    string_of(out.as_slice())
}

fn joined2(a: &str, b: &str) -> (s: String)
    ensures
        s@ == a@ + b@,
{
    let mut out: Vec<char> = Vec::new();
    push_str(&mut out, a);
    push_str(&mut out, b);
    string_of(out.as_slice())
}

fn side_put(method: &Option<String>) -> (b: bool)
    ensures
        b == signed_put(opt_text(*method)),
{
    match method {
        Some(m) => side_upload_is_put(m.as_str()),
        None => false,
    }
}

impl UploadFlow {
    /// A new upload, waiting on its init request; `poster_ready` and
    /// `captions_ready` say whether a poster frame and a caption track were
    /// rendered to go with the video.
    pub fn start(poster_ready: bool, captions_ready: bool) -> (f: UploadFlow)
        ensures
            f@.phase == UploadPhase::Init,
            f@.poster_ready == poster_ready,
            f@.captions_ready == captions_ready,
            !f@.poster_signed && !f@.captions_signed,
            f@.recast_id == Seq::<char>::empty(),
            !f@.has_poster && !f@.has_captions,
            flow_wf(f@),
    {
        UploadFlow {
            phase: UploadPhase::Init,
            poster_ready,
            captions_ready,
            poster_signed: false,
            captions_signed: false,
            recast_id: String::new(),
            has_poster: false,
            has_captions: false,
        }
    }

    /// Whether `event` answers the step this upload waits on.
    pub fn accepts(&self, event: &UploadEvent) -> (b: bool)
        ensures
            b == expects(self.phase, event@),
    {
        match self.phase {
            UploadPhase::Init => matches!(
                event,
                UploadEvent::InitSendFailed(_) | UploadEvent::InitRejected { .. }
                    | UploadEvent::InitParseFailed(_) | UploadEvent::InitAccepted { .. }
            ),
            UploadPhase::Video => matches!(
                event,
                UploadEvent::VideoReadFailed(_) | UploadEvent::VideoSendFailed(_)
                    | UploadEvent::VideoRejected(_) | UploadEvent::VideoStored
            ),
            UploadPhase::Poster => matches!(event, UploadEvent::PosterSent(_)),
            UploadPhase::Captions => matches!(event, UploadEvent::CaptionsSent(_)),
            UploadPhase::Complete => matches!(
                event,
                UploadEvent::CompleteSendFailed(_) | UploadEvent::CompleteRejected { .. }
                    | UploadEvent::Completed
            ),
            UploadPhase::Share => matches!(
                event,
                UploadEvent::ShareSendFailed(_) | UploadEvent::ShareRejected { .. }
                    | UploadEvent::ShareParseFailed(_) | UploadEvent::Shared { .. }
            ),
            UploadPhase::Done => false,
            UploadPhase::Failed => false,
        }
    }

    fn fail(&mut self, message: String) -> (a: UploadAction)
        ensures
            (final(self)@, action_view(a)) == failed(old(self)@, message@),
    {
        self.phase = UploadPhase::Failed;
        UploadAction::Fail(message)
    }

    fn complete(&mut self) -> (a: UploadAction)
        ensures
            (final(self)@, action_view(a)) == to_complete(old(self)@),
    {
        self.phase = UploadPhase::Complete;
        UploadAction::Complete {
            recast_id: self.recast_id.clone(),
            has_poster: self.has_poster,
            has_captions: self.has_captions,
        }
    }

    fn next_after_poster(&mut self) -> (a: UploadAction)
        ensures
            (final(self)@, action_view(a)) == after_poster(old(self)@),
    {
        if self.captions_ready && self.captions_signed {
            self.phase = UploadPhase::Captions;
            UploadAction::PutCaptions
        } else {
            self.complete()
        }
    }

    /// Take the answer to the pending step and say what to do next.
    pub fn step(&mut self, event: UploadEvent) -> (a: UploadAction)
        requires
            expects(old(self).phase, event@),
        ensures
            (final(self)@, action_view(a)) == upload_step(old(self)@, event@),
    {
        match event {
            UploadEvent::InitSendFailed(m) => self.fail(joined2("Upload init failed: ", m.as_str())),
            UploadEvent::InitRejected { status, body } => self.fail(
                humanize_init_error(status, body.as_str()),
            ),
            UploadEvent::InitParseFailed(m) => self.fail(
                joined2("Upload init parse failed: ", m.as_str()),
            ),
            UploadEvent::InitAccepted { recast_id, method, poster_method, captions_method } => {
                if !upload_method_supported(method.as_str()) {
                    self.fail(unsupported_provider_message())
                } else {
                    self.poster_signed = side_put(&poster_method);
                    self.captions_signed = side_put(&captions_method);
                    self.recast_id = recast_id;
                    self.phase = UploadPhase::Video;
                    UploadAction::PutVideo
                }
            },
            UploadEvent::VideoReadFailed(m) => self.fail(
                joined2("Couldn't read export file: ", m.as_str()),
            ),
            UploadEvent::VideoSendFailed(m) => self.fail(joined2("Upload failed: ", m.as_str())),
            UploadEvent::VideoRejected(s) => self.fail(
                joined3("Upload rejected (", s.as_str(), ")."),
            ),
            UploadEvent::VideoStored => {
                if self.poster_ready && self.poster_signed {
                    self.phase = UploadPhase::Poster;
                    UploadAction::PutPoster
                } else {
                    self.next_after_poster()
                }
            },
            UploadEvent::PosterSent(ok) => {
                self.has_poster = ok;
                self.next_after_poster()
            },
            UploadEvent::CaptionsSent(ok) => {
                self.has_captions = ok;
                self.complete()
            },
            UploadEvent::CompleteSendFailed(m) => self.fail(
                joined2("Finalize failed: ", m.as_str()),
            ),
            UploadEvent::CompleteRejected { status, body } => self.fail(
                humanize_complete_error(status, body.as_str()),
            ),
            UploadEvent::Completed => {
                self.phase = UploadPhase::Share;
                UploadAction::Share { recast_id: self.recast_id.clone() }
            },
            UploadEvent::ShareSendFailed(m) => self.fail(
                joined2("Creating share link failed: ", m.as_str()),
            ),
            UploadEvent::ShareRejected { status, body } => {
                let head = joined3("Creating share link failed (", status.as_str(), "): ");
                self.fail(joined2(head.as_str(), body.as_str()))
            },
            UploadEvent::ShareParseFailed(m) => self.fail(
                joined2("Share response parse failed: ", m.as_str()),
            ),
            UploadEvent::Shared { slug, share_url } => {
                self.phase = UploadPhase::Done;
                UploadAction::Finish(
                    CloudShareResult { recast_id: self.recast_id.clone(), slug, share_url },
                )
            },
        }
    }
}

/// Every step keeps an upload's promises about its side uploads.
pub proof fn law_upload_step_keeps_wf(f: FlowView, e: EventView)
    requires
        flow_wf(f),
        expects(f.phase, e),
    ensures
        flow_wf(upload_step(f, e).0),
{
}

/// A finished or failed upload waits on nothing: no answer moves it again.
pub proof fn law_finished_uploads_are_final(f: FlowView, e: EventView)
    requires
        f.phase == UploadPhase::Done || f.phase == UploadPhase::Failed,
    ensures
        !expects(f.phase, e),
{
}

/// The upload reports a share link only for the share answer, and the link
/// it reports belongs to the draft the init answer reserved.
pub proof fn law_link_only_from_share(f: FlowView, e: EventView)
    requires
        expects(f.phase, e),
        upload_step(f, e).1 is Finish,
    ensures
        f.phase == UploadPhase::Share,
        e is Shared,
        upload_step(f, e).1->Finish_recast_id == f.recast_id,
        upload_step(f, e).0.phase == UploadPhase::Done,
{
}

/// Completion reports a poster or a caption track only when one was rendered,
/// signed and sent successfully.
pub proof fn law_completion_claims_only_sent_extras(f: FlowView, e: EventView)
    requires
        flow_wf(f),
        expects(f.phase, e),
        upload_step(f, e).1 is Complete,
    ensures
        upload_step(f, e).1->has_poster ==> f.poster_ready && f.poster_signed,
        upload_step(f, e).1->has_captions ==> f.captions_ready && f.captions_signed,
{
}

/// Every error answer ends the upload with a message.
pub proof fn law_errors_fail_the_upload(f: FlowView, e: EventView)
    requires
        expects(f.phase, e),
        !(e is InitAccepted || e is VideoStored || e is PosterSent || e is CaptionsSent
            || e is Completed || e is Shared),
    ensures
        upload_step(f, e).0.phase == UploadPhase::Failed,
        upload_step(f, e).1 is Fail,
{
}

} // verus!
