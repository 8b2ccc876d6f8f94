//! Routing a message to the commands it names, and running their pipelines
//! side by side.
//!
//! Each command is tested for on its own, so a message may start more than
//! one pipeline. Every pipeline keeps its own stage and hears only its own
//! reports: what happens to one never reaches another.

use vstd::prelude::*;
use crate::cat::{
    cat_after, cat_next, cat_start, CatAction, CatActionView, CatEvent, CatEventView, CatStage,
};
use crate::event::IncomingEvent;
use crate::joke::{
    joke_after, joke_next, joke_start, reply_text, JokeAction, JokeActionView, JokeEvent,
    JokeEventView, JokeOutcomeView, JokeStage,
};
use crate::reply::ReplyView;
use crate::text::starts_with;

verus! {

/// What a message begins with to ask for a cat picture.
pub const CAT_PREFIX: &'static str = "!cat";

/// What a message begins with to ask for a joke.
pub const JOKE_PREFIX: &'static str = "!joke";

/// The commands a message names.
#[derive(Clone, Copy, Debug, PartialEq, Eq, Structural)]
pub struct Commands {
    pub cat: bool,
    pub joke: bool,
}

/// A message names a command when its body begins with the command's prefix.
pub open spec fn commands_in(body: Seq<char>) -> Commands {
    Commands { cat: CAT_PREFIX@.is_prefix_of(body), joke: JOKE_PREFIX@.is_prefix_of(body) }
}

/// Finds the commands that a message body names.
pub fn route(body: &str) -> (commands: Commands)
    ensures
        commands == commands_in(body@),
{
    Commands { cat: starts_with(body, CAT_PREFIX), joke: starts_with(body, JOKE_PREFIX) }
}

/// What the host reports back while a message is handled, marked with the
/// pipeline that asked.
#[derive(Clone, Debug, PartialEq, Eq)]
pub enum Report {
    Cat(CatEvent),
    Joke(JokeEvent),
}

/// The mathematical content of a [`Report`].
pub ghost enum ReportView {
    Cat(CatEventView),
    Joke(JokeEventView),
}

impl View for Report {
    type V = ReportView;

    open spec fn view(&self) -> ReportView {
        match *self {
            Report::Cat(event) => ReportView::Cat(event@),
            Report::Joke(event) => ReportView::Joke(event@),
        }
    }
}

/// What the host is asked to do, marked with the pipeline that asks.
#[derive(Clone, Debug, PartialEq, Eq)]
pub enum Request {
    Cat(CatAction),
    Joke(JokeAction),
}

/// The mathematical content of a [`Request`].
pub ghost enum RequestView {
    Cat(CatActionView),
    Joke(JokeActionView),
}

impl View for Request {
    type V = RequestView;

    open spec fn view(&self) -> RequestView {
        match *self {
            Request::Cat(action) => RequestView::Cat(action@),
            Request::Joke(action) => RequestView::Joke(action@),
        }
    }
}

impl RequestView {
    /// Whether the request has the host call anything outside: a fetch, an
    /// upload or a send. Ending a pipeline, with or without a diagnostic,
    /// calls nothing.
    pub open spec fn reaches_out(self) -> bool {
        match self {
            RequestView::Cat(CatActionView::Abort(_)) => false,
            RequestView::Cat(CatActionView::Done) => false,
            RequestView::Joke(JokeActionView::Abort(_)) => false,
            RequestView::Joke(JokeActionView::Done) => false,
            _ => true,
        }
    }
}

/// The mathematical content of a run of requests.
pub open spec fn request_views(requests: Seq<Request>) -> Seq<RequestView> {
    requests.map_values(|request: Request| request@)
}

/// The handling of one message: the stage of each pipeline.
#[derive(Clone, Copy, Debug, PartialEq, Eq, Structural)]
pub struct Session {
    pub cat: CatStage,
    pub joke: JokeStage,
}

/// How handling begins: each command named starts its pipeline with its
/// first request, the cat pipeline's first; a command not named leaves its
/// pipeline idle.
pub open spec fn session_start(commands: Commands) -> (Session, Seq<RequestView>) {
    let cat = if commands.cat {
        seq![RequestView::Cat(cat_start().1)]
    } else {
        Seq::empty()
    };
    let joke = if commands.joke {
        seq![RequestView::Joke(joke_start().1)]
    } else {
        Seq::empty()
    };
    (
        Session {
            cat: if commands.cat {
                cat_start().0
            } else {
                CatStage::Idle
            },
            joke: if commands.joke {
                joke_start().0
            } else {
                JokeStage::Idle
            },
        },
        cat + joke,
    )
}

/// One step of handling: the report goes to the pipeline it is marked with,
/// and the other pipeline is left as it is.
pub open spec fn session_next(session: Session, report: ReportView) -> (Session, RequestView) {
    match report {
        ReportView::Cat(event) => {
            let (stage, action) = cat_next(session.cat, event);
            (Session { cat: stage, joke: session.joke }, RequestView::Cat(action))
        },
        ReportView::Joke(event) => {
            let (stage, action) = joke_next(session.joke, event);
            (Session { cat: session.cat, joke: stage }, RequestView::Joke(action))
        },
    }
}

/// The session that a run of reports leads to.
pub open spec fn session_after(session: Session, reports: Seq<ReportView>) -> Session
    decreases reports.len(),
{
    if reports.len() == 0 {
        session
    } else {
        session_next(session_after(session, reports.drop_last()), reports.last()).0
    }
}

/// The request that answers the report at place `i` of a run.
pub open spec fn request_at(session: Session, reports: Seq<ReportView>, i: int) -> RequestView {
    session_next(session_after(session, reports.take(i)), reports[i]).1
}

impl Session {
    /// Begins handling a message that names the given commands.
    pub fn begin(commands: Commands) -> (begun: (Session, Vec<Request>))
        ensures
            (begun.0, request_views(begun.1@)) == session_start(commands),
    {
        let mut session = Session { cat: CatStage::Idle, joke: JokeStage::Idle };
        let mut requests: Vec<Request> = Vec::new();
        if commands.cat {
            let (stage, action) = CatStage::start();
            session.cat = stage;
            requests.push(Request::Cat(action));
        }
        if commands.joke {
            let (stage, action) = JokeStage::start();
            session.joke = stage;
            requests.push(Request::Joke(action));
        }
        assert(request_views(requests@) =~= session_start(commands).1);
        (session, requests)
    }

    /// Takes what the host reports and says what to do next.
    pub fn step(self, report: Report) -> (step: (Session, Request))
        ensures
            (step.0, step.1@) == session_next(self, report@),
    {
        match report {
            Report::Cat(event) => {
                let (stage, action) = self.cat.step(event);
                (Session { cat: stage, joke: self.joke }, Request::Cat(action))
            },
            Report::Joke(event) => {
                let (stage, action) = self.joke.step(event);
                (Session { cat: self.cat, joke: stage }, Request::Joke(action))
            },
        }
    }
}

/// Begins handling a message: routes its body and starts the pipelines of
/// the commands it names.
pub fn on_room_message(event: &IncomingEvent) -> (begun: (Session, Vec<Request>))
    ensures
        (begun.0, request_views(begun.1@)) == session_start(commands_in(event@.body)),
{
    Session::begin(route(event.body.as_str()))
}

/// The reports of a run that are marked for the cat pipeline, in order.
pub open spec fn cat_part(reports: Seq<ReportView>) -> Seq<CatEventView>
    decreases reports.len(),
{
    if reports.len() == 0 {
        Seq::empty()
    } else {
        match reports.last() {
            ReportView::Cat(event) => cat_part(reports.drop_last()).push(event),
            ReportView::Joke(_) => cat_part(reports.drop_last()),
        }
    }
}

/// The reports of a run that are marked for the joke pipeline, in order.
pub open spec fn joke_part(reports: Seq<ReportView>) -> Seq<JokeEventView>
    decreases reports.len(),
{
    if reports.len() == 0 {
        Seq::empty()
    } else {
        match reports.last() {
            ReportView::Cat(_) => joke_part(reports.drop_last()),
            ReportView::Joke(event) => joke_part(reports.drop_last()).push(event),
        }
    }
}

/// A message that names no command has the host call nothing: handling
/// begins with no request, and whatever is reported afterwards, no request
/// reaches out. In particular nothing is sent and nothing is uploaded.
pub proof fn lemma_unrecognized_body_is_silent(body: Seq<char>, reports: Seq<ReportView>)
    requires
        !CAT_PREFIX@.is_prefix_of(body),
        !JOKE_PREFIX@.is_prefix_of(body),
    ensures
        session_start(commands_in(body)).1.len() == 0,
        forall|i: int|
            0 <= i < reports.len() ==> !(#[trigger] request_at(
                session_start(commands_in(body)).0,
                reports,
                i,
            )).reaches_out(),
{
    let idle = Session { cat: CatStage::Idle, joke: JokeStage::Idle };
    assert(session_start(commands_in(body)).0 == idle);
    assert forall|i: int| 0 <= i < reports.len() implies !(#[trigger] request_at(
        idle,
        reports,
        i,
    )).reaches_out() by {
        lemma_idle_stays_idle(reports.take(i));
    }
}

/// A session with both pipelines idle stays so, whatever is reported.
proof fn lemma_idle_stays_idle(reports: Seq<ReportView>)
    ensures
        session_after(Session { cat: CatStage::Idle, joke: JokeStage::Idle }, reports) == (Session {
            cat: CatStage::Idle,
            joke: JokeStage::Idle,
        }),
    decreases reports.len(),
{
    if reports.len() > 0 {
        lemma_idle_stays_idle(reports.drop_last());
    }
}

/// The pipelines do not interfere. In any run, in whatever order the reports
/// of the two pipelines arrive, each pipeline ends in the stage it would
/// reach alone on its own reports, and each report is answered as the
/// pipeline it is marked for would answer it alone. So a failure in one
/// pipeline neither stops the other nor changes what it does.
pub proof fn lemma_pipelines_do_not_interfere(session: Session, reports: Seq<ReportView>)
    ensures
        session_after(session, reports).cat == cat_after(session.cat, cat_part(reports)),
        session_after(session, reports).joke == joke_after(session.joke, joke_part(reports)),
        forall|i: int|
            0 <= i < reports.len() ==> #[trigger] request_at(session, reports, i) == (
            match reports[i] {
                ReportView::Cat(event) => RequestView::Cat(
                    cat_next(cat_after(session.cat, cat_part(reports.take(i))), event).1,
                ),
                ReportView::Joke(event) => RequestView::Joke(
                    joke_next(joke_after(session.joke, joke_part(reports.take(i))), event).1,
                ),
            }),
    decreases reports.len(),
{
    lemma_stages_are_separate(session, reports);
    assert forall|i: int| 0 <= i < reports.len() implies #[trigger] request_at(
        session,
        reports,
        i,
    ) == (match reports[i] {
        ReportView::Cat(event) => RequestView::Cat(
            cat_next(cat_after(session.cat, cat_part(reports.take(i))), event).1,
        ),
        ReportView::Joke(event) => RequestView::Joke(
            joke_next(joke_after(session.joke, joke_part(reports.take(i))), event).1,
        ),
    }) by {
        lemma_stages_are_separate(session, reports.take(i));
    }
}

proof fn lemma_stages_are_separate(session: Session, reports: Seq<ReportView>)
    ensures
        session_after(session, reports).cat == cat_after(session.cat, cat_part(reports)),
        session_after(session, reports).joke == joke_after(session.joke, joke_part(reports)),
    decreases reports.len(),
{
    if reports.len() > 0 {
        let earlier = reports.drop_last();
        lemma_stages_are_separate(session, earlier);
        match reports.last() {
            ReportView::Cat(event) => {
                let events = cat_part(earlier).push(event);
                assert(events.drop_last() =~= cat_part(earlier));
                assert(events.last() == event);
            },
            ReportView::Joke(event) => {
                let events = joke_part(earlier).push(event);
                assert(events.drop_last() =~= joke_part(earlier));
                assert(events.last() == event);
            },
        }
    }
}

/// When a message names both commands, the joke is answered whatever becomes
/// of the cat: after any reports for the cat pipeline, failures included, the
/// outcome of the joke fetch is answered by sending the joke's reply text.
pub proof fn lemma_joke_replies_whatever_the_cat_does(
    cat_events: Seq<CatEventView>,
    outcome: JokeOutcomeView,
)
    ensures
        ({
            let begun = session_start(Commands { cat: true, joke: true });
            let reports = cat_events.map_values(|event: CatEventView| ReportView::Cat(event)).push(
                ReportView::Joke(JokeEventView::Fetched(outcome)),
            );
            &&& begun.1 == seq![
                RequestView::Cat(cat_start().1),
                RequestView::Joke(joke_start().1),
            ]
            &&& request_at(begun.0, reports, cat_events.len() as int) == RequestView::Joke(
                JokeActionView::Send(ReplyView::Text(reply_text(outcome))),
            )
        }),
{
    let begun = session_start(Commands { cat: true, joke: true });
    let cats = cat_events.map_values(|event: CatEventView| ReportView::Cat(event));
    let reports = cats.push(ReportView::Joke(JokeEventView::Fetched(outcome)));
    assert(begun.1 =~= seq![RequestView::Cat(cat_start().1), RequestView::Joke(joke_start().1)]);
    assert(reports.take(cat_events.len() as int) =~= cats);
    lemma_pipelines_do_not_interfere(begun.0, reports);
    lemma_cat_reports_hold_no_joke(cat_events);
}

proof fn lemma_cat_reports_hold_no_joke(cat_events: Seq<CatEventView>)
    ensures
        joke_part(cat_events.map_values(|event: CatEventView| ReportView::Cat(event))).len() == 0,
    decreases cat_events.len(),
{
    let reports = cat_events.map_values(|event: CatEventView| ReportView::Cat(event));
    if cat_events.len() > 0 {
        lemma_cat_reports_hold_no_joke(cat_events.drop_last());
        assert(reports.drop_last() =~= cat_events.drop_last().map_values(
            |event: CatEventView| ReportView::Cat(event),
        ));
    }
}

} // verus!
