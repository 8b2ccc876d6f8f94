use catbot::cat::{CatAction, CatEvent, CatFailure, CatStage, ImageOutcome, ListingOutcome, UploadOutcome, Cat};
use catbot::event::IncomingEvent;
use catbot::joke::{Joke, JokeAction, JokeEvent, JokeOutcome, JokeStage};
use catbot::reply::{ReplyContent, SendOutcome};
use catbot::router::{on_room_message, route, Commands, Report, Request, Session, CAT_PREFIX, JOKE_PREFIX};

fn message(body: &str) -> IncomingEvent {
    IncomingEvent {
        sender: "@alice:example.org".to_string(),
        body: body.to_string(),
        membership: None,
        state_key: None,
    }
}

fn fetch_listing() -> Request {
    Request::Cat(CatAction::FetchListing { url: "https://api.thecatapi.com/v1/images/search".to_string() })
}

fn fetch_joke() -> Request {
    Request::Joke(JokeAction::Fetch { url: "https://v2.jokeapi.dev/joke/Programming?type=single".to_string() })
}

fn single_line(line: &str) -> Report {
    Report::Joke(JokeEvent::Fetched(JokeOutcome::Received(Joke {
        joke: Some(line.to_string()),
        setup: None,
        delivery: None,
    })))
}

fn reaches_out(request: &Request) -> bool {
    !matches!(
        request,
        Request::Cat(CatAction::Abort(_))
            | Request::Cat(CatAction::Done)
            | Request::Joke(JokeAction::Abort(_))
            | Request::Joke(JokeAction::Done)
    )
}

fn every_report() -> Vec<Report> {
    vec![
        Report::Cat(CatEvent::Listing(ListingOutcome::Listed(vec![Cat { url: "http://x/img.jpg".to_string() }]))),
        Report::Cat(CatEvent::Listing(ListingOutcome::Unreachable)),
        Report::Cat(CatEvent::Image(ImageOutcome::Bytes(vec![1]))),
        Report::Cat(CatEvent::Uploaded(UploadOutcome::Stored("R".to_string()))),
        Report::Cat(CatEvent::Sent(SendOutcome::Delivered)),
        single_line("L"),
        Report::Joke(JokeEvent::Fetched(JokeOutcome::Unreachable)),
        Report::Joke(JokeEvent::Sent(SendOutcome::Rejected)),
    ]
}

#[test]
fn prefixes_have_their_texts() {
    assert_eq!(CAT_PREFIX, "!cat");
    assert_eq!(JOKE_PREFIX, "!joke");
}

#[test]
fn route_finds_the_cat_command() {
    assert_eq!(route("!cat"), Commands { cat: true, joke: false });
    assert_eq!(route("!cat please"), Commands { cat: true, joke: false });
    assert_eq!(route("!catnip"), Commands { cat: true, joke: false });
}

#[test]
fn route_finds_the_joke_command() {
    assert_eq!(route("!joke"), Commands { cat: false, joke: true });
    assert_eq!(route("!joke about cats"), Commands { cat: false, joke: true });
    assert_eq!(route("!jokes"), Commands { cat: false, joke: true });
}

#[test]
fn route_goes_by_the_beginning_of_the_body() {
    assert_eq!(route("!cat !joke"), Commands { cat: true, joke: false });
    assert_eq!(route("!joke !cat"), Commands { cat: false, joke: true });
}

#[test]
fn route_ignores_other_bodies() {
    for body in ["", "hello", " !cat", "cat", "!ca", "!jok", "!Cat", "!JOKE", "say !joke", "!", "\u{2026}!cat"] {
        assert_eq!(route(body), Commands { cat: false, joke: false }, "{:?}", body);
    }
}

#[test]
fn unrecognized_body_calls_nothing() {
    for body in ["", "hello", " !cat", "tell me a !joke"] {
        let (mut session, requests) = on_room_message(&message(body));
        assert_eq!(session, Session { cat: CatStage::Idle, joke: JokeStage::Idle });
        assert!(requests.is_empty());
        for report in every_report() {
            let (next, request) = session.step(report);
            assert!(!reaches_out(&request), "{:?}", request);
            session = next;
        }
        assert_eq!(session, Session { cat: CatStage::Idle, joke: JokeStage::Idle });
    }
}

#[test]
fn cat_message_starts_the_cat_pipeline_only() {
    let (session, requests) = on_room_message(&message("!cat"));
    assert_eq!(session, Session { cat: CatStage::AwaitListing, joke: JokeStage::Idle });
    assert_eq!(requests, vec![fetch_listing()]);
}

#[test]
fn joke_message_starts_the_joke_pipeline_only() {
    let (session, requests) = on_room_message(&message("!joke"));
    assert_eq!(session, Session { cat: CatStage::Idle, joke: JokeStage::AwaitJoke });
    assert_eq!(requests, vec![fetch_joke()]);
}

#[test]
fn cat_message_is_handled_to_the_end() {
    let (session, requests) = on_room_message(&message("!cat"));
    assert_eq!(requests, vec![fetch_listing()]);
    let (session, request) = session.step(Report::Cat(CatEvent::Listing(ListingOutcome::Listed(vec![Cat {
        url: "http://x/img.jpg".to_string(),
    }]))));
    assert_eq!(request, Request::Cat(CatAction::FetchImage { url: "http://x/img.jpg".to_string() }));
    let (session, request) = session.step(Report::Cat(CatEvent::Image(ImageOutcome::Bytes(vec![9, 9]))));
    assert_eq!(
        request,
        Request::Cat(CatAction::Upload { bytes: vec![9, 9], content_type: "image/jpeg".to_string() })
    );
    let (session, request) = session.step(Report::Cat(CatEvent::Uploaded(UploadOutcome::Stored("R".to_string()))));
    assert_eq!(
        request,
        Request::Cat(CatAction::Send(ReplyContent::Image { media: "R".to_string(), filename: "cat.jpg".to_string() }))
    );
    let (session, request) = session.step(Report::Cat(CatEvent::Sent(SendOutcome::Delivered)));
    assert_eq!(request, Request::Cat(CatAction::Done));
    assert_eq!(session, Session { cat: CatStage::Idle, joke: JokeStage::Idle });
}

#[test]
fn joke_message_is_handled_to_the_end() {
    let (session, _) = on_room_message(&message("!joke"));
    let (session, request) = session.step(single_line("Why did the chicken cross the road?"));
    assert_eq!(
        request,
        Request::Joke(JokeAction::Send(ReplyContent::Text("Why did the chicken cross the road?".to_string())))
    );
    let (session, request) = session.step(Report::Joke(JokeEvent::Sent(SendOutcome::Delivered)));
    assert_eq!(request, Request::Joke(JokeAction::Done));
    assert_eq!(session, Session { cat: CatStage::Idle, joke: JokeStage::Idle });
}

#[test]
fn both_commands_start_both_pipelines() {
    let (session, requests) = Session::begin(Commands { cat: true, joke: true });
    assert_eq!(session, Session { cat: CatStage::AwaitListing, joke: JokeStage::AwaitJoke });
    assert_eq!(requests, vec![fetch_listing(), fetch_joke()]);
}

#[test]
fn no_command_starts_nothing() {
    let (session, requests) = Session::begin(Commands { cat: false, joke: false });
    assert_eq!(session, Session { cat: CatStage::Idle, joke: JokeStage::Idle });
    assert!(requests.is_empty());
}

#[test]
fn cat_failure_does_not_stop_the_joke() {
    let (session, _) = Session::begin(Commands { cat: true, joke: true });
    let (session, request) = session.step(Report::Cat(CatEvent::Listing(ListingOutcome::Unreachable)));
    assert_eq!(request, Request::Cat(CatAction::Abort(CatFailure::ListingUnreachable)));
    assert_eq!(session, Session { cat: CatStage::Idle, joke: JokeStage::AwaitJoke });
    let (session, request) = session.step(single_line("L"));
    assert_eq!(request, Request::Joke(JokeAction::Send(ReplyContent::Text("L".to_string()))));
    let (session, request) = session.step(Report::Joke(JokeEvent::Sent(SendOutcome::Delivered)));
    assert_eq!(request, Request::Joke(JokeAction::Done));
    assert_eq!(session, Session { cat: CatStage::Idle, joke: JokeStage::Idle });
}

#[test]
fn joke_failure_does_not_stop_the_cat() {
    let (session, _) = Session::begin(Commands { cat: true, joke: true });
    let (session, request) = session.step(Report::Joke(JokeEvent::Fetched(JokeOutcome::Unreachable)));
    assert_eq!(
        request,
        Request::Joke(JokeAction::Send(ReplyContent::Text("Failed to fetch joke :(".to_string())))
    );
    let (session, _) = session.step(Report::Joke(JokeEvent::Sent(SendOutcome::Rejected)));
    assert_eq!(session, Session { cat: CatStage::AwaitListing, joke: JokeStage::Idle });
    let (session, request) = session.step(Report::Cat(CatEvent::Listing(ListingOutcome::Listed(vec![Cat {
        url: "http://x/img.jpg".to_string(),
    }]))));
    assert_eq!(request, Request::Cat(CatAction::FetchImage { url: "http://x/img.jpg".to_string() }));
    assert_eq!(session, Session { cat: CatStage::AwaitImage, joke: JokeStage::Idle });
}

#[test]
fn order_of_reports_between_pipelines_does_not_matter() {
    let cat_reports = vec![
        Report::Cat(CatEvent::Listing(ListingOutcome::Listed(vec![Cat { url: "http://x/img.jpg".to_string() }]))),
        Report::Cat(CatEvent::Image(ImageOutcome::Bytes(vec![1, 2, 3]))),
    ];
    let joke_reports = vec![single_line("L"), Report::Joke(JokeEvent::Sent(SendOutcome::Delivered))];

    let run = |reports: Vec<Report>| {
        let (mut session, _) = Session::begin(Commands { cat: true, joke: true });
        let mut cat_requests = Vec::new();
        let mut joke_requests = Vec::new();
        for report in reports {
            let (next, request) = session.step(report);
            session = next;
            match request {
                Request::Cat(action) => cat_requests.push(action),
                Request::Joke(action) => joke_requests.push(action),
            }
        }
        (session, cat_requests, joke_requests)
    };

    let cat_first: Vec<Report> = cat_reports.iter().cloned().chain(joke_reports.iter().cloned()).collect();
    let joke_first: Vec<Report> = joke_reports.iter().cloned().chain(cat_reports.iter().cloned()).collect();
    let mixed = vec![
        cat_reports[0].clone(),
        joke_reports[0].clone(),
        cat_reports[1].clone(),
        joke_reports[1].clone(),
    ];
    let expected = run(cat_first);
    assert_eq!(expected.0, Session { cat: CatStage::AwaitUpload, joke: JokeStage::Idle });
    assert_eq!(run(joke_first), expected);
    assert_eq!(run(mixed), expected);
}

#[test]
fn report_for_a_pipeline_that_was_not_started_is_answered_with_nothing() {
    let (session, _) = on_room_message(&message("!cat"));
    let (session, request) = session.step(single_line("L"));
    assert_eq!(request, Request::Joke(JokeAction::Done));
    assert_eq!(session, Session { cat: CatStage::AwaitListing, joke: JokeStage::Idle });
}
