//! The `!joke` command: fetch a joke and post it, or post an apology. This
//! pipeline always ends in a reply.

use vstd::prelude::*;
use vstd::string::*;
use crate::reply::{ReplyContent, ReplyView, SendOutcome};
use crate::text::text_view;

verus! {

/// Where jokes come from: one category, single-line jokes asked for.
pub const JOKE_URL: &'static str = "https://v2.jokeapi.dev/joke/Programming?type=single";

/// What stands between the two parts of a two-part joke.
pub const JOKE_SEPARATOR: &'static str = " … ";

/// The reply to a joke that has neither shape.
pub const NO_JOKE_FOUND: &'static str = "No joke found :(";

/// The reply when the provider could not be reached.
pub const FAILED_TO_FETCH_JOKE: &'static str = "Failed to fetch joke :(";

/// The reply when the provider's answer could not be read.
pub const FAILED_TO_PARSE_JOKE: &'static str = "Failed to parse joke :(";

/// A joke as the provider sends it: every field may be missing.
#[derive(Clone, Debug, PartialEq, Eq)]
pub struct Joke {
    pub joke: Option<String>,
    pub setup: Option<String>,
    pub delivery: Option<String>,
}

/// The mathematical content of a [`Joke`].
pub ghost struct JokeView {
    pub joke: Option<Seq<char>>,
    pub setup: Option<Seq<char>>,
    pub delivery: Option<Seq<char>>,
}

impl View for Joke {
    type V = JokeView;

    open spec fn view(&self) -> JokeView {
        JokeView {
            joke: text_view(self.joke),
            setup: text_view(self.setup),
            delivery: text_view(self.delivery),
        }
    }
}

/// The shape a joke turned out to have.
#[derive(Clone, Debug, PartialEq, Eq)]
pub enum JokeText {
    SingleLine(String),
    TwoPart(String, String),
    Absent,
}

/// The mathematical content of a [`JokeText`].
pub ghost enum JokeTextView {
    SingleLine(Seq<char>),
    TwoPart(Seq<char>, Seq<char>),
    Absent,
}

impl View for JokeText {
    type V = JokeTextView;

    open spec fn view(&self) -> JokeTextView {
        match *self {
            JokeText::SingleLine(line) => JokeTextView::SingleLine(line@),
            JokeText::TwoPart(setup, delivery) => JokeTextView::TwoPart(setup@, delivery@),
            JokeText::Absent => JokeTextView::Absent,
        }
    }
}

/// The shape of a joke: the single line wins if it is there; else both parts
/// are needed; else there is no joke.
pub open spec fn shape_of(joke: JokeView) -> JokeTextView {
    match joke.joke {
        Some(line) => JokeTextView::SingleLine(line),
        None => match (joke.setup, joke.delivery) {
            (Some(setup), Some(delivery)) => JokeTextView::TwoPart(setup, delivery),
            _ => JokeTextView::Absent,
        },
    }
}

/// The text a joke is told with.
pub open spec fn rendered(text: JokeTextView) -> Seq<char> {
    match text {
        JokeTextView::SingleLine(line) => line,
        JokeTextView::TwoPart(setup, delivery) => setup + JOKE_SEPARATOR@ + delivery,
        JokeTextView::Absent => NO_JOKE_FOUND@,
    }
}

impl Joke {
    /// Sorts the joke into one of the three shapes.
    pub fn shape(self) -> (text: JokeText)
        ensures
            text@ == shape_of(self@),
    {
        match self.joke {
            Some(line) => JokeText::SingleLine(line),
            None => match (self.setup, self.delivery) {
                (Some(setup), Some(delivery)) => JokeText::TwoPart(setup, delivery),
                _ => JokeText::Absent,
            },
        }
    }
}

impl JokeText {
    /// Writes the joke out as one text.
    pub fn render(self) -> (text: String)
        ensures
            text@ == rendered(self@),
    {
        match self {
            JokeText::SingleLine(line) => line,
            JokeText::TwoPart(setup, delivery) => {
                let mut text = setup;
                text.append(JOKE_SEPARATOR);
                text.append(delivery.as_str());
                text
            },
            JokeText::Absent => NO_JOKE_FOUND.to_owned(),
        }
    }
}

/// How fetching a joke ended.
#[derive(Clone, Debug, PartialEq, Eq)]
pub enum JokeOutcome {
    /// The provider could not be reached.
    Unreachable,
    /// The provider answered with something that is no joke.
    Malformed,
    Received(Joke),
}

/// The mathematical content of a [`JokeOutcome`].
pub ghost enum JokeOutcomeView {
    Unreachable,
    Malformed,
    Received(JokeView),
}

impl View for JokeOutcome {
    type V = JokeOutcomeView;

    open spec fn view(&self) -> JokeOutcomeView {
        match *self {
            JokeOutcome::Unreachable => JokeOutcomeView::Unreachable,
            JokeOutcome::Malformed => JokeOutcomeView::Malformed,
            JokeOutcome::Received(joke) => JokeOutcomeView::Received(joke@),
        }
    }
}

/// The text to reply with, whatever became of the fetch.
pub open spec fn reply_text(outcome: JokeOutcomeView) -> Seq<char> {
    match outcome {
        JokeOutcomeView::Unreachable => FAILED_TO_FETCH_JOKE@,
        JokeOutcomeView::Malformed => FAILED_TO_PARSE_JOKE@,
        JokeOutcomeView::Received(joke) => rendered(shape_of(joke)),
    }
}

/// Computes the text to reply with from the outcome of the fetch.
pub fn joke_reply_text(outcome: JokeOutcome) -> (text: String)
    ensures
        text@ == reply_text(outcome@),
{
    match outcome {
        JokeOutcome::Unreachable => FAILED_TO_FETCH_JOKE.to_owned(),
        JokeOutcome::Malformed => FAILED_TO_PARSE_JOKE.to_owned(),
        JokeOutcome::Received(joke) => joke.shape().render(),
    }
}

/// What the joke pipeline is waiting for.
#[derive(Clone, Copy, Debug, PartialEq, Eq, Structural)]
pub enum JokeStage {
    /// Nothing: the pipeline was never started, or has ended.
    Idle,
    /// The outcome of the fetch.
    AwaitJoke,
    /// The outcome of sending the reply.
    AwaitSend,
}

/// What the host reports back to the joke pipeline.
#[derive(Clone, Debug, PartialEq, Eq)]
pub enum JokeEvent {
    Fetched(JokeOutcome),
    Sent(SendOutcome),
}

/// The mathematical content of a [`JokeEvent`].
pub ghost enum JokeEventView {
    Fetched(JokeOutcomeView),
    Sent(SendOutcome),
}

impl View for JokeEvent {
    type V = JokeEventView;

    open spec fn view(&self) -> JokeEventView {
        match *self {
            JokeEvent::Fetched(outcome) => JokeEventView::Fetched(outcome@),
            JokeEvent::Sent(outcome) => JokeEventView::Sent(outcome),
        }
    }
}

/// Why the joke pipeline ended without more to do than a diagnostic.
#[derive(Clone, Copy, Debug, PartialEq, Eq, Structural)]
pub enum JokeFailure {
    /// The room did not take the reply. It is lost: nothing is sent in its place.
    SendRejected,
    /// The host reported something the pipeline was not waiting for.
    Unexpected,
}

/// What the joke pipeline asks its host to do next.
#[derive(Clone, Debug, PartialEq, Eq)]
pub enum JokeAction {
    /// GET `url` and report the joke in the answer as [`JokeEvent::Fetched`].
    Fetch { url: String },
    /// Send the reply to the room and report as [`JokeEvent::Sent`].
    Send(ReplyContent),
    /// The pipeline has ended; emit a diagnostic.
    Abort(JokeFailure),
    /// The pipeline has ended; there is nothing to do.
    Done,
}

/// The mathematical content of a [`JokeAction`].
pub ghost enum JokeActionView {
    Fetch { url: Seq<char> },
    Send(ReplyView),
    Abort(JokeFailure),
    Done,
}

impl View for JokeAction {
    type V = JokeActionView;

    open spec fn view(&self) -> JokeActionView {
        match *self {
            JokeAction::Fetch { url } => JokeActionView::Fetch { url: url@ },
            JokeAction::Send(reply) => JokeActionView::Send(reply@),
            JokeAction::Abort(failure) => JokeActionView::Abort(failure),
            JokeAction::Done => JokeActionView::Done,
        }
    }
}

/// The first step of the pipeline: fetch a joke.
pub open spec fn joke_start() -> (JokeStage, JokeActionView) {
    (JokeStage::AwaitJoke, JokeActionView::Fetch { url: JOKE_URL@ })
}

/// One step of the pipeline. Whatever became of the fetch, a text is sent.
/// Once the reply is handed over the pipeline ends, delivered or not. An idle
/// pipeline stays idle; a report that answers nothing pending ends it.
pub open spec fn joke_next(stage: JokeStage, event: JokeEventView) -> (JokeStage, JokeActionView) {
    match (stage, event) {
        (JokeStage::Idle, _) => (JokeStage::Idle, JokeActionView::Done),
        (JokeStage::AwaitJoke, JokeEventView::Fetched(outcome)) => (
            JokeStage::AwaitSend,
            JokeActionView::Send(ReplyView::Text(reply_text(outcome))),
        ),
        (JokeStage::AwaitSend, JokeEventView::Sent(SendOutcome::Delivered)) => (
            JokeStage::Idle,
            JokeActionView::Done,
        ),
        (JokeStage::AwaitSend, JokeEventView::Sent(SendOutcome::Rejected)) => (
            JokeStage::Idle,
            JokeActionView::Abort(JokeFailure::SendRejected),
        ),
        _ => (JokeStage::Idle, JokeActionView::Abort(JokeFailure::Unexpected)),
    }
}

/// The stage that the joke pipeline, run alone, is in after a run of events.
pub open spec fn joke_after(stage: JokeStage, events: Seq<JokeEventView>) -> JokeStage
    decreases events.len(),
{
    if events.len() == 0 {
        stage
    } else {
        joke_next(joke_after(stage, events.drop_last()), events.last()).0
    }
}

impl JokeActionView {
    /// Whether the action ends the pipeline.
    pub open spec fn ends(self) -> bool {
        self is Abort || self is Done
    }
}

impl JokeStage {
    /// Starts the pipeline.
    pub fn start() -> (step: (JokeStage, JokeAction))
        ensures
            (step.0, step.1@) == joke_start(),
    {
        (JokeStage::AwaitJoke, JokeAction::Fetch { url: JOKE_URL.to_owned() })
    }

    /// Takes what the host reports and says what to do next.
    pub fn step(self, event: JokeEvent) -> (step: (JokeStage, JokeAction))
        ensures
            (step.0, step.1@) == joke_next(self, event@),
    {
        match self {
            JokeStage::Idle => (JokeStage::Idle, JokeAction::Done),
            JokeStage::AwaitJoke => match event {
                JokeEvent::Fetched(outcome) => {
                    let text = joke_reply_text(outcome);
                    (JokeStage::AwaitSend, JokeAction::Send(ReplyContent::Text(text)))
                },
                JokeEvent::Sent(_) => (JokeStage::Idle, JokeAction::Abort(JokeFailure::Unexpected)),
            },
            JokeStage::AwaitSend => match event {
                JokeEvent::Sent(SendOutcome::Delivered) => (JokeStage::Idle, JokeAction::Done),
                JokeEvent::Sent(SendOutcome::Rejected) => (
                    JokeStage::Idle,
                    JokeAction::Abort(JokeFailure::SendRejected),
                ),
                JokeEvent::Fetched(_) => (
                    JokeStage::Idle,
                    JokeAction::Abort(JokeFailure::Unexpected),
                ),
            },
        }
    }
}

/// The end is final. Once a step has ended the pipeline, with a diagnostic
/// or without, whatever is reported later is answered with nothing to do:
/// nothing is fetched or sent again.
pub proof fn lemma_joke_end_is_final(
    stage: JokeStage,
    event: JokeEventView,
    later: Seq<JokeEventView>,
    last: JokeEventView,
)
    requires
        joke_next(stage, event).1.ends(),
    ensures
        joke_next(joke_after(joke_next(stage, event).0, later), last) == (
            JokeStage::Idle,
            JokeActionView::Done,
        ),
{
    lemma_idle_joke_stays_idle(later);
}

proof fn lemma_idle_joke_stays_idle(events: Seq<JokeEventView>)
    ensures
        joke_after(JokeStage::Idle, events) == JokeStage::Idle,
    decreases events.len(),
{
    if events.len() > 0 {
        lemma_idle_joke_stays_idle(events.drop_last());
    }
}

/// A started pipeline always replies: whatever became of the fetch, its
/// outcome is answered by sending a text.
pub proof fn lemma_joke_always_replies(outcome: JokeOutcomeView)
    ensures
        joke_next(joke_start().0, JokeEventView::Fetched(outcome)) == (
            JokeStage::AwaitSend,
            JokeActionView::Send(ReplyView::Text(reply_text(outcome))),
        ),
{
}

} // verus!
