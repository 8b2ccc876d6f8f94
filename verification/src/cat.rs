//! The `!cat` command: find a cat picture, download it, upload it to the chat
//! server and post it. Each step needs the one before it; when a step fails
//! the pipeline ends and nothing is posted.

use vstd::prelude::*;
use vstd::string::*;
use crate::reply::{ReplyContent, ReplyView, SendOutcome};
use crate::text::text_view;

verus! {

/// Where the listing of random cat pictures comes from.
pub const CAT_URL: &'static str = "https://api.thecatapi.com/v1/images/search";

/// The file name every posted picture goes by.
pub const CAT_FILENAME: &'static str = "cat.jpg";

/// The content type pictures are uploaded as.
pub const JPEG: &'static str = "image/jpeg";

/// One entry of the provider's listing. An entry should name the address of
/// a picture; one that names none can still be written down, and the
/// pipeline turns it away before it fetches anything.
#[derive(Clone, Debug, PartialEq, Eq)]
pub struct Cat {
    pub url: String,
}

/// The mathematical content of a [`Cat`].
pub ghost struct CatView {
    pub url: Seq<char>,
}

impl View for Cat {
    type V = CatView;

    open spec fn view(&self) -> CatView {
        CatView { url: self.url@ }
    }
}

impl CatView {
    /// An entry is usable when it names a place to fetch the picture from.
    pub open spec fn well_formed(self) -> bool {
        self.url.len() > 0
    }
}

impl Cat {
    /// Tells whether the entry names an address.
    pub fn is_well_formed(&self) -> (well_formed: bool)
        ensures
            well_formed == self@.well_formed(),
    {
        !self.url.as_str().is_empty()
    }
}

/// The mathematical content of a listing.
pub open spec fn cat_views(cats: Seq<Cat>) -> Seq<CatView> {
    cats.map_values(|cat: Cat| cat@)
}

/// The address of the picture to post: that of the first entry, if the
/// listing has one and it is well formed.
pub open spec fn first_url(cats: Seq<CatView>) -> Option<Seq<char>> {
    if cats.len() > 0 && cats[0].well_formed() {
        Some(cats[0].url)
    } else {
        None
    }
}

/// Picks the address of the picture to post out of a listing.
pub fn first_cat_url(cats: &Vec<Cat>) -> (url: Option<String>)
    ensures
        text_view(url) == first_url(cat_views(cats@)),
{
    if cats.len() > 0 && cats[0].is_well_formed() {
        Some(cats[0].url.clone())
    } else {
        None
    }
}

/// The content type of a JPEG picture, written out by the `mime` crate.
///
/// Trusted, not proved: `to_string` on the constant `mime::IMAGE_JPEG` gives
/// the text `image/jpeg`. The crate defines the constant from that text and
/// displays a `Mime` as the text it was made from.
#[verifier::external_body]
fn jpeg_content_type() -> (text: String)
    ensures
        text@ == JPEG@,
{
    mime::IMAGE_JPEG.to_string()
}

/// How fetching the listing ended.
#[derive(Clone, Debug, PartialEq, Eq)]
pub enum ListingOutcome {
    /// The provider could not be reached.
    Unreachable,
    /// The provider answered with something that is no listing.
    Malformed,
    Listed(Vec<Cat>),
}

/// How downloading the picture ended.
#[derive(Clone, Debug, PartialEq, Eq)]
pub enum ImageOutcome {
    /// The host of the picture could not be reached.
    Unreachable,
    /// The answer broke off before all bytes were there.
    Unreadable,
    Bytes(Vec<u8>),
}

/// How uploading the picture ended.
#[derive(Clone, Debug, PartialEq, Eq)]
pub enum UploadOutcome {
    Rejected,
    /// The picture is stored under this reference.
    Stored(String),
}

/// What the host reports back to the cat pipeline.
#[derive(Clone, Debug, PartialEq, Eq)]
pub enum CatEvent {
    Listing(ListingOutcome),
    Image(ImageOutcome),
    Uploaded(UploadOutcome),
    Sent(SendOutcome),
}

/// The mathematical content of a [`CatEvent`].
pub ghost enum CatEventView {
    ListingUnreachable,
    ListingMalformed,
    Listed(Seq<CatView>),
    ImageUnreachable,
    ImageUnreadable,
    Bytes(Seq<u8>),
    UploadRejected,
    Stored(Seq<char>),
    Sent(SendOutcome),
}

impl View for CatEvent {
    type V = CatEventView;

    open spec fn view(&self) -> CatEventView {
        match *self {
            CatEvent::Listing(ListingOutcome::Unreachable) => CatEventView::ListingUnreachable,
            CatEvent::Listing(ListingOutcome::Malformed) => CatEventView::ListingMalformed,
            CatEvent::Listing(ListingOutcome::Listed(cats)) => CatEventView::Listed(
                cat_views(cats@),
            ),
            CatEvent::Image(ImageOutcome::Unreachable) => CatEventView::ImageUnreachable,
            CatEvent::Image(ImageOutcome::Unreadable) => CatEventView::ImageUnreadable,
            CatEvent::Image(ImageOutcome::Bytes(bytes)) => CatEventView::Bytes(bytes@),
            CatEvent::Uploaded(UploadOutcome::Rejected) => CatEventView::UploadRejected,
            CatEvent::Uploaded(UploadOutcome::Stored(media)) => CatEventView::Stored(media@),
            CatEvent::Sent(outcome) => CatEventView::Sent(outcome),
        }
    }
}

/// Why the cat pipeline ended without posting. Each is a diagnostic for the
/// host to emit; there is no reply in place of the picture.
#[derive(Clone, Copy, Debug, PartialEq, Eq, Structural)]
pub enum CatFailure {
    ListingUnreachable,
    /// The listing could not be read, was empty, or its first entry names no
    /// address.
    ListingMalformed,
    ImageUnreachable,
    ImageUnreadable,
    UploadRejected,
    /// The room did not take the picture. It is lost.
    SendRejected,
    /// The host reported something the pipeline was not waiting for.
    Unexpected,
}

/// What the cat pipeline asks its host to do next.
#[derive(Clone, Debug, PartialEq, Eq)]
pub enum CatAction {
    /// GET `url` and report the listing in the answer as [`CatEvent::Listing`].
    FetchListing { url: String },
    /// GET `url` and report the bytes of the answer as [`CatEvent::Image`].
    FetchImage { url: String },
    /// Upload the bytes as media of the given content type and report the
    /// reference as [`CatEvent::Uploaded`].
    Upload { bytes: Vec<u8>, content_type: String },
    /// Send the reply to the room and report as [`CatEvent::Sent`].
    Send(ReplyContent),
    /// The pipeline has ended; emit a diagnostic.
    Abort(CatFailure),
    /// The pipeline has ended; there is nothing to do.
    Done,
}

/// The mathematical content of a [`CatAction`].
pub ghost enum CatActionView {
    FetchListing { url: Seq<char> },
    FetchImage { url: Seq<char> },
    Upload { bytes: Seq<u8>, content_type: Seq<char> },
    Send(ReplyView),
    Abort(CatFailure),
    Done,
}

impl View for CatAction {
    type V = CatActionView;

    open spec fn view(&self) -> CatActionView {
        match *self {
            CatAction::FetchListing { url } => CatActionView::FetchListing { url: url@ },
            CatAction::FetchImage { url } => CatActionView::FetchImage { url: url@ },
            CatAction::Upload { bytes, content_type } => CatActionView::Upload {
                bytes: bytes@,
                content_type: content_type@,
            },
            CatAction::Send(reply) => CatActionView::Send(reply@),
            CatAction::Abort(failure) => CatActionView::Abort(failure),
            CatAction::Done => CatActionView::Done,
        }
    }
}

/// What the cat pipeline is waiting for.
#[derive(Clone, Copy, Debug, PartialEq, Eq, Structural)]
pub enum CatStage {
    /// Nothing: the pipeline was never started, or has ended.
    Idle,
    AwaitListing,
    AwaitImage,
    AwaitUpload,
    AwaitSend,
}

/// Ending the pipeline with a diagnostic.
pub open spec fn cat_abort(failure: CatFailure) -> (CatStage, CatActionView) {
    (CatStage::Idle, CatActionView::Abort(failure))
}

/// The first step of the pipeline: fetch the listing.
pub open spec fn cat_start() -> (CatStage, CatActionView) {
    (CatStage::AwaitListing, CatActionView::FetchListing { url: CAT_URL@ })
}

/// One step of the pipeline. A success leads to the next request; any failure
/// ends the pipeline with its diagnostic. An idle pipeline stays idle; a
/// report that answers nothing pending ends it.
pub open spec fn cat_next(stage: CatStage, event: CatEventView) -> (CatStage, CatActionView) {
    match (stage, event) {
        (CatStage::Idle, _) => (CatStage::Idle, CatActionView::Done),
        (CatStage::AwaitListing, CatEventView::ListingUnreachable) => cat_abort(
            CatFailure::ListingUnreachable,
        ),
        (CatStage::AwaitListing, CatEventView::ListingMalformed) => cat_abort(
            CatFailure::ListingMalformed,
        ),
        (CatStage::AwaitListing, CatEventView::Listed(cats)) => match first_url(cats) {
            Some(url) => (CatStage::AwaitImage, CatActionView::FetchImage { url }),
            None => cat_abort(CatFailure::ListingMalformed),
        },
        (CatStage::AwaitImage, CatEventView::ImageUnreachable) => cat_abort(
            CatFailure::ImageUnreachable,
        ),
        (CatStage::AwaitImage, CatEventView::ImageUnreadable) => cat_abort(
            CatFailure::ImageUnreadable,
        ),
        (CatStage::AwaitImage, CatEventView::Bytes(bytes)) => (
            CatStage::AwaitUpload,
            CatActionView::Upload { bytes, content_type: JPEG@ },
        ),
        (CatStage::AwaitUpload, CatEventView::UploadRejected) => cat_abort(
            CatFailure::UploadRejected,
        ),
        (CatStage::AwaitUpload, CatEventView::Stored(media)) => (
            CatStage::AwaitSend,
            CatActionView::Send(ReplyView::Image { media, filename: CAT_FILENAME@ }),
        ),
        (CatStage::AwaitSend, CatEventView::Sent(SendOutcome::Delivered)) => (
            CatStage::Idle,
            CatActionView::Done,
        ),
        (CatStage::AwaitSend, CatEventView::Sent(SendOutcome::Rejected)) => cat_abort(
            CatFailure::SendRejected,
        ),
        _ => cat_abort(CatFailure::Unexpected),
    }
}

/// The stage that the cat pipeline, run alone, is in after a run of events.
pub open spec fn cat_after(stage: CatStage, events: Seq<CatEventView>) -> CatStage
    decreases events.len(),
{
    if events.len() == 0 {
        stage
    } else {
        cat_next(cat_after(stage, events.drop_last()), events.last()).0
    }
}

impl CatActionView {
    /// Whether the action ends the pipeline.
    pub open spec fn ends(self) -> bool {
        self is Abort || self is Done
    }
}

impl CatStage {
    /// Starts the pipeline.
    pub fn start() -> (step: (CatStage, CatAction))
        ensures
            (step.0, step.1@) == cat_start(),
    {
        (CatStage::AwaitListing, CatAction::FetchListing { url: CAT_URL.to_owned() })
    }

    /// Takes what the host reports and says what to do next.
    pub fn step(self, event: CatEvent) -> (step: (CatStage, CatAction))
        ensures
            (step.0, step.1@) == cat_next(self, event@),
    {
        let unexpected = (CatStage::Idle, CatAction::Abort(CatFailure::Unexpected));
        match self {
            CatStage::Idle => (CatStage::Idle, CatAction::Done),
            CatStage::AwaitListing => match event {
                CatEvent::Listing(outcome) => after_listing(outcome),
                _ => unexpected,
            },
            CatStage::AwaitImage => match event {
                CatEvent::Image(outcome) => after_image(outcome),
                _ => unexpected,
            },
            CatStage::AwaitUpload => match event {
                CatEvent::Uploaded(outcome) => after_upload(outcome),
                _ => unexpected,
            },
            CatStage::AwaitSend => match event {
                CatEvent::Sent(SendOutcome::Delivered) => (CatStage::Idle, CatAction::Done),
                CatEvent::Sent(SendOutcome::Rejected) => (
                    CatStage::Idle,
                    CatAction::Abort(CatFailure::SendRejected),
                ),
                _ => unexpected,
            },
        }
    }
}

fn after_listing(outcome: ListingOutcome) -> (step: (CatStage, CatAction))
    ensures
        (step.0, step.1@) == cat_next(
            CatStage::AwaitListing,
            CatEvent::Listing(outcome)@,
        ),
{
    match outcome {
        ListingOutcome::Unreachable => (
            CatStage::Idle,
            CatAction::Abort(CatFailure::ListingUnreachable),
        ),
        ListingOutcome::Malformed => (
            CatStage::Idle,
            CatAction::Abort(CatFailure::ListingMalformed),
        ),
        ListingOutcome::Listed(cats) => match first_cat_url(&cats) {
            Some(url) => (CatStage::AwaitImage, CatAction::FetchImage { url }),
            None => (CatStage::Idle, CatAction::Abort(CatFailure::ListingMalformed)),
        },
    }
}

fn after_image(outcome: ImageOutcome) -> (step: (CatStage, CatAction))
    ensures
        (step.0, step.1@) == cat_next(CatStage::AwaitImage, CatEvent::Image(outcome)@),
{
    match outcome {
        ImageOutcome::Unreachable => (
            CatStage::Idle,
            CatAction::Abort(CatFailure::ImageUnreachable),
        ),
        ImageOutcome::Unreadable => (
            CatStage::Idle,
            CatAction::Abort(CatFailure::ImageUnreadable),
        ),
        ImageOutcome::Bytes(bytes) => (
            CatStage::AwaitUpload,
            CatAction::Upload { bytes, content_type: jpeg_content_type() },
        ),
    }
}

fn after_upload(outcome: UploadOutcome) -> (step: (CatStage, CatAction))
    ensures
        (step.0, step.1@) == cat_next(CatStage::AwaitUpload, CatEvent::Uploaded(outcome)@),
{
    match outcome {
        UploadOutcome::Rejected => (CatStage::Idle, CatAction::Abort(CatFailure::UploadRejected)),
        UploadOutcome::Stored(media) => (
            CatStage::AwaitSend,
            CatAction::Send(ReplyContent::Image { media, filename: CAT_FILENAME.to_owned() }),
        ),
    }
}

/// The end is final. Once a step has ended the pipeline, with a diagnostic
/// or without, whatever is reported later is answered with nothing to do:
/// no step is tried again and nothing is fetched, uploaded or sent.
pub proof fn lemma_cat_end_is_final(
    stage: CatStage,
    event: CatEventView,
    later: Seq<CatEventView>,
    last: CatEventView,
)
    requires
        cat_next(stage, event).1.ends(),
    ensures
        cat_next(cat_after(cat_next(stage, event).0, later), last) == (
            CatStage::Idle,
            CatActionView::Done,
        ),
{
    lemma_idle_cat_stays_idle(later);
}

proof fn lemma_idle_cat_stays_idle(events: Seq<CatEventView>)
    ensures
        cat_after(CatStage::Idle, events) == CatStage::Idle,
    decreases events.len(),
{
    if events.len() > 0 {
        lemma_idle_cat_stays_idle(events.drop_last());
    }
}

} // verus!
