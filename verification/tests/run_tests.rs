use csv_to_plinks::error::PlinkError;
use csv_to_plinks::remote::{authorization_header, is_success, payment_links_endpoint};
use csv_to_plinks::batch::{BatchRunner, RunAction, RunEvent, RunPhase, PACING_SECONDS};
use csv_to_plinks::run::{
    create_payment_request, interpret_create_response, output_rows, payment_info_from, read_csv,
    validate_file_paths, PaymentInfo, Record, RunCommand,
};

fn record(name: &str, amount: &str, item: &str) -> Record {
    Record { name: name.to_string(), amount: amount.to_string(), item_ordered: item.to_string() }
}

fn three_records() -> Vec<Record> {
    vec![
        record("Ann", "12.50", "Pizza"),
        record("Bob", "3.00", "Cola"),
        record("Cid", "7.25", "Salad"),
    ]
}

fn ok_body(link: &str) -> String {
    format!("{{\"_links\":{{\"paymentLink\":{{\"href\":\"{}\"}}}}}}", link)
}

fn ok_response(link: &str) -> RunEvent {
    RunEvent::Response { status: 201, body: ok_body(link) }
}

#[test]
fn paths_are_accepted_when_input_exists_and_output_does_not() {
    assert_eq!(validate_file_paths("in.csv", true, "out.csv", false), Ok(()));
}

#[test]
fn missing_input_is_not_found() {
    assert_eq!(
        validate_file_paths("in.csv", false, "out.csv", false),
        Err(PlinkError::NotFound("in.csv".to_string()))
    );
    assert_eq!(
        validate_file_paths("in.csv", false, "out.csv", true),
        Err(PlinkError::NotFound("in.csv".to_string()))
    );
}

#[test]
fn existing_output_is_refused_before_any_request() {
    let answer = validate_file_paths("in.csv", true, "out.csv", true);
    assert_eq!(answer, Err(PlinkError::AlreadyExists("out.csv".to_string())));
    assert_eq!(answer.unwrap_err().message(), "Output file already exists: out.csv");
}

#[test]
fn request_is_built_from_the_record() {
    let request = create_payment_request(&record("Ann", "12.50", "Pizza"));
    assert_eq!(request.amount.currency, "EUR");
    assert_eq!(request.amount.value, "12.50");
    assert_eq!(request.description, "Ann - Pizza");
    assert_eq!(request.redirect_url, "https://localhost");
}

#[test]
fn request_of_empty_fields_keeps_the_separator() {
    let request = create_payment_request(&record("", "0.00", ""));
    assert_eq!(request.description, " - ");
}

#[test]
fn header_and_endpoint() {
    assert_eq!(authorization_header("live_key"), "Bearer live_key");
    assert_eq!(authorization_header(""), "Bearer ");
    assert_eq!(payment_links_endpoint(), "https://api.mollie.com/v2/payment-links");
}

#[test]
fn success_is_two_hundred_to_two_ninety_nine() {
    assert!(!is_success(199));
    assert!(is_success(200));
    assert!(is_success(204));
    assert!(is_success(299));
    assert!(!is_success(300));
    assert!(!is_success(404));
    assert!(!is_success(0));
}

#[test]
fn successful_response_gives_the_link() {
    let r = record("Ann", "12.50", "Pizza");
    let info = interpret_create_response(&r, 201, &ok_body("https://x/y")).unwrap();
    assert_eq!(
        info,
        PaymentInfo {
            payment_link: "https://x/y".to_string(),
            name: "Ann".to_string(),
            amount: "12.50".to_string(),
        }
    );
}

#[test]
fn failed_status_is_a_remote_error_with_the_body() {
    let r = record("Ann", "12.50", "Pizza");
    let body = ok_body("https://x/y");
    assert_eq!(interpret_create_response(&r, 422, &body), Err(PlinkError::Remote(body.clone())));
    assert_eq!(interpret_create_response(&r, 300, &body), Err(PlinkError::Remote(body)));
}

#[test]
fn missing_link_is_a_remote_error_with_the_body() {
    let r = record("Ann", "12.50", "Pizza");
    for body in ["{}", "{\"_links\":{}}", "{\"_links\":{\"paymentLink\":{\"href\":5}}}", "not json", ""] {
        assert_eq!(
            interpret_create_response(&r, 200, body),
            Err(PlinkError::Remote(body.to_string()))
        );
    }
}

#[test]
fn outcome_from_a_link_that_was_found() {
    let r = record("Bob", "3.00", "Cola");
    assert_eq!(
        payment_info_from(&r, 200, "body", Some("L".to_string())),
        Ok(PaymentInfo {
            payment_link: "L".to_string(),
            name: "Bob".to_string(),
            amount: "3.00".to_string()
        })
    );
    assert_eq!(payment_info_from(&r, 200, "body", None), Err(PlinkError::Remote("body".to_string())));
    assert_eq!(
        payment_info_from(&r, 500, "body", Some("L".to_string())),
        Err(PlinkError::Remote("body".to_string()))
    );
}

fn run_command() -> RunCommand {
    RunCommand {
        debug: false,
        input: "in.csv".to_string(),
        output: "out.csv".to_string(),
        api_key: "live_key".to_string(),
    }
}

fn loading_runner() -> BatchRunner {
    let mut runner = BatchRunner::new(run_command());
    assert_eq!(runner.phase(), RunPhase::Unchecked);
    let paths = RunEvent::Paths { input_exists: true, output_exists: false };
    assert_eq!(runner.step(paths), RunAction::Load);
    assert_eq!(runner.phase(), RunPhase::Loading);
    runner
}

fn create(record: &Record) -> RunAction {
    RunAction::Create {
        authorization: "Bearer live_key".to_string(),
        request: create_payment_request(record),
    }
}

fn run_batch(records: Vec<Record>, responses: Vec<RunEvent>) -> (Vec<PaymentInfo>, Vec<RunAction>) {
    let mut runner = loading_runner();
    let mut actions = Vec::new();
    let mut responses = responses.into_iter();
    let mut event = RunEvent::Loaded { records };
    loop {
        let action = runner.step(event);
        actions.push(action.clone());
        event = match action {
            RunAction::Create { .. } => responses.next().unwrap(),
            RunAction::Pause { .. } => RunEvent::Paused,
            RunAction::Write => {
                assert_eq!(runner.phase(), RunPhase::Writing);
                RunEvent::Written
            }
            _ => break,
        };
    }
    assert_eq!(actions.last(), Some(&RunAction::Finish));
    assert_eq!(runner.phase(), RunPhase::Done);
    (runner.infos().clone(), actions)
}

#[test]
fn three_rows_that_succeed_give_three_results_in_order() {
    let responses = vec![ok_response("https://x/y"), ok_response("https://x/y"), ok_response("https://x/y")];
    let (infos, _) = run_batch(three_records(), responses);
    assert_eq!(infos.len(), 3);
    let names: Vec<&str> = infos.iter().map(|i| i.name.as_str()).collect();
    assert_eq!(names, vec!["Ann", "Bob", "Cid"]);
    let amounts: Vec<&str> = infos.iter().map(|i| i.amount.as_str()).collect();
    assert_eq!(amounts, vec!["12.50", "3.00", "7.25"]);
    assert!(infos.iter().all(|i| i.payment_link == "https://x/y"));
}

#[test]
fn one_failure_of_three_leaves_two_results() {
    let responses = vec![
        ok_response("https://x/1"),
        RunEvent::Response { status: 500, body: "down".to_string() },
        ok_response("https://x/3"),
    ];
    let (infos, actions) = run_batch(three_records(), responses);
    assert_eq!(infos.len(), 2);
    assert_eq!(infos[0].name, "Ann");
    assert_eq!(infos[0].payment_link, "https://x/1");
    assert_eq!(infos[1].name, "Cid");
    assert_eq!(infos[1].payment_link, "https://x/3");
    assert_eq!(
        actions[3],
        RunAction::Pause {
            seconds: 1,
            failure: Some(PlinkError::Remote("down".to_string()))
        }
    );
}

#[test]
fn unanswered_request_is_skipped() {
    let responses = vec![RunEvent::Unanswered { reason: "timeout".to_string() }, ok_response("https://x/2")];
    let (infos, actions) = run_batch(three_records()[..2].to_vec(), responses);
    assert_eq!(infos.len(), 1);
    assert_eq!(infos[0].name, "Bob");
    assert_eq!(
        actions[1],
        RunAction::Pause {
            seconds: 1,
            failure: Some(PlinkError::Remote("timeout".to_string()))
        }
    );
}

#[test]
fn every_request_is_followed_by_the_pause() {
    assert_eq!(PACING_SECONDS, 1);
    let records = three_records()[..2].to_vec();
    let responses = vec![ok_response("https://x/1"), ok_response("https://x/2")];
    let (_, actions) = run_batch(records.clone(), responses);
    assert_eq!(
        actions,
        vec![
            create(&records[0]),
            RunAction::Pause { seconds: 1, failure: None },
            create(&records[1]),
            RunAction::Pause { seconds: 1, failure: None },
            RunAction::Write,
            RunAction::Finish,
        ]
    );
}

#[test]
fn empty_batch_finishes_at_once() {
    let (infos, actions) = run_batch(Vec::new(), Vec::new());
    assert!(infos.is_empty());
    assert_eq!(actions, vec![RunAction::Write, RunAction::Finish]);
    assert_eq!(output_rows(&infos).len(), 1);
}

#[test]
fn results_never_outnumber_records() {
    let responses = vec![
        RunEvent::Response { status: 404, body: String::new() },
        RunEvent::Response { status: 200, body: "{}".to_string() },
        ok_response("https://x/3"),
    ];
    let (infos, _) = run_batch(three_records(), responses);
    assert_eq!(infos.len(), 1);
    assert!(infos.len() <= 3);
    assert_eq!(infos[0].name, "Cid");
}

#[test]
fn event_that_does_not_fit_is_rejected() {
    let mut runner = BatchRunner::new(run_command());
    assert_eq!(runner.step(RunEvent::Paused), RunAction::Rejected);
    assert_eq!(runner.step(RunEvent::Loaded { records: three_records() }), RunAction::Rejected);
    assert_eq!(runner.step(ok_response("https://x/y")), RunAction::Rejected);
    assert_eq!(runner.phase(), RunPhase::Unchecked);
    let mut runner = loading_runner();
    assert_eq!(runner.step(RunEvent::Paused), RunAction::Rejected);
    assert_eq!(runner.step(ok_response("https://x/y")), RunAction::Rejected);
    assert_eq!(runner.phase(), RunPhase::Loading);
    let records = three_records();
    assert_eq!(runner.step(RunEvent::Loaded { records: records.clone() }), create(&records[0]));
    assert_eq!(runner.phase(), RunPhase::Creating);
    assert_eq!(runner.step(RunEvent::Loaded { records: records.clone() }), RunAction::Rejected);
    assert_eq!(runner.step(RunEvent::Paused), RunAction::Rejected);
    assert_eq!(runner.phase(), RunPhase::Creating);
    assert!(matches!(runner.step(ok_response("https://x/y")), RunAction::Pause { .. }));
    assert_eq!(runner.phase(), RunPhase::Pausing);
    assert_eq!(runner.step(ok_response("https://x/z")), RunAction::Rejected);
    assert_eq!(runner.infos().len(), 1);
    assert_eq!(runner.step(RunEvent::Paused), create(&records[1]));
}

#[test]
fn finished_batch_rejects_everything() {
    let mut runner = loading_runner();
    assert_eq!(runner.step(RunEvent::Loaded { records: Vec::new() }), RunAction::Write);
    assert_eq!(runner.step(RunEvent::Paused), RunAction::Rejected);
    assert_eq!(runner.step(RunEvent::Written), RunAction::Finish);
    assert_eq!(runner.phase(), RunPhase::Done);
    assert_eq!(runner.step(RunEvent::Written), RunAction::Rejected);
    assert_eq!(runner.step(RunEvent::Loaded { records: three_records() }), RunAction::Rejected);
    assert_eq!(runner.step(RunEvent::Paused), RunAction::Rejected);
    assert_eq!(runner.phase(), RunPhase::Done);
    assert!(runner.infos().is_empty());
}

#[test]
fn occupied_output_stops_the_run_before_any_request() {
    for input_exists in [true, false] {
        let mut runner = BatchRunner::new(run_command());
        let action = runner.step(RunEvent::Paths { input_exists, output_exists: true });
        assert!(matches!(action, RunAction::Abort(_)));
        if input_exists {
            assert_eq!(action, RunAction::Abort(PlinkError::AlreadyExists("out.csv".to_string())));
        }
        assert_eq!(runner.phase(), RunPhase::Failed);
        let later = vec![
            RunEvent::Paths { input_exists: true, output_exists: false },
            RunEvent::Loaded { records: three_records() },
            ok_response("https://x/y"),
            RunEvent::Paused,
        ];
        let mut requests = 0;
        for event in later {
            let action = runner.step(event);
            if matches!(action, RunAction::Create { .. }) {
                requests += 1;
            }
            assert_eq!(action, RunAction::Rejected);
        }
        assert_eq!(requests, 0);
        assert_eq!(runner.phase(), RunPhase::Failed);
    }
}

#[test]
fn output_that_cannot_be_written_gives_the_run_up() {
    let mut runner = loading_runner();
    let records = three_records()[..1].to_vec();
    assert_eq!(runner.step(RunEvent::Loaded { records: records.clone() }), create(&records[0]));
    assert!(matches!(runner.step(ok_response("https://x/1")), RunAction::Pause { .. }));
    assert_eq!(runner.step(RunEvent::Paused), RunAction::Write);
    assert_eq!(
        runner.step(RunEvent::Unwritable { reason: "denied".to_string() }),
        RunAction::Abort(PlinkError::Io("denied".to_string()))
    );
    assert_eq!(runner.phase(), RunPhase::Failed);
    assert_eq!(runner.infos().len(), 1);
    assert_eq!(runner.step(RunEvent::Written), RunAction::Rejected);
}

#[test]
fn missing_input_stops_the_run() {
    let mut runner = BatchRunner::new(run_command());
    assert_eq!(
        runner.step(RunEvent::Paths { input_exists: false, output_exists: false }),
        RunAction::Abort(PlinkError::NotFound("in.csv".to_string()))
    );
    assert_eq!(runner.phase(), RunPhase::Failed);
    assert_eq!(runner.input(), "in.csv");
    assert_eq!(runner.output(), "out.csv");
}

#[test]
fn undecodable_input_stops_the_run() {
    let mut runner = loading_runner();
    let error = read_csv(b"name,amount_owed\nAnn,1\n").unwrap_err();
    assert_eq!(runner.step(RunEvent::Unreadable { error: error.clone() }), RunAction::Abort(error));
    assert_eq!(runner.phase(), RunPhase::Failed);
    assert_eq!(runner.step(RunEvent::Loaded { records: three_records() }), RunAction::Rejected);
}

#[test]
fn input_rows_are_read_in_file_order() {
    let data = b"name,amount_owed,item_ordered\nAnn,12.5,Pizza\nBob,3,\"Cola, large\"\n";
    let records = read_csv(data).unwrap();
    assert_eq!(records, vec![record("Ann", "12.5", "Pizza"), record("Bob", "3", "Cola, large")]);
}

#[test]
fn input_columns_are_found_by_name() {
    let data = b"item_ordered,note,name,amount_owed\nPizza,x,Ann,12.5\n";
    assert_eq!(read_csv(data).unwrap(), vec![record("Ann", "12.5", "Pizza")]);
}

#[test]
fn empty_input_holds_no_record() {
    assert_eq!(read_csv(b""), Ok(Vec::new()));
    assert_eq!(read_csv(b"name,amount_owed,item_ordered\n"), Ok(Vec::new()));
}

#[test]
fn header_mismatch_is_a_parse_error() {
    for data in [
        &b"Name,amount_owed,item_ordered\nAnn,1,Pizza\n"[..],
        &b"name,amount,item_ordered\nAnn,1,Pizza\n"[..],
        &b"name,amount_owed\nAnn,1\n"[..],
        &b"name,name,amount_owed,item_ordered\nAnn,Ann,1,Pizza\n"[..],
        &b" name,amount_owed,item_ordered\nAnn,1,Pizza\n"[..],
    ] {
        assert!(matches!(read_csv(data), Err(PlinkError::Parse(_))));
    }
}

#[test]
fn malformed_row_fails_the_whole_file() {
    let short = b"name,amount_owed,item_ordered\nAnn,1,Pizza\nBob,2\n";
    assert!(matches!(read_csv(short), Err(PlinkError::Parse(_))));
    let not_text = b"name,amount_owed,item_ordered\nAnn,1,\xff\xfe\n";
    assert!(matches!(read_csv(not_text), Err(PlinkError::Parse(_))));
}

#[test]
fn output_has_the_header_and_one_row_per_result() {
    let infos = vec![
        PaymentInfo {
            payment_link: "https://x/1".to_string(),
            name: "Ann".to_string(),
            amount: "12.50".to_string(),
        },
        PaymentInfo {
            payment_link: "https://x/2".to_string(),
            name: "Bob".to_string(),
            amount: "3.00".to_string(),
        },
    ];
    assert_eq!(
        output_rows(&infos),
        vec![
            vec!["Name".to_string(), "Amount".to_string(), "Payment Link".to_string()],
            vec!["Ann".to_string(), "12.50".to_string(), "https://x/1".to_string()],
            vec!["Bob".to_string(), "3.00".to_string(), "https://x/2".to_string()],
        ]
    );
    assert_eq!(
        output_rows(&Vec::new()),
        vec![vec!["Name".to_string(), "Amount".to_string(), "Payment Link".to_string()]]
    );
}

#[test]
fn error_messages() {
    assert_eq!(PlinkError::NotFound("a.csv".to_string()).message(), "Input file does not exist: a.csv");
    assert_eq!(PlinkError::Parse("bad".to_string()).message(), "Input could not be decoded: bad");
    assert_eq!(PlinkError::Remote("{}".to_string()).message(), "Request failed: {}");
    assert_eq!(
        PlinkError::MalformedLink.message(),
        "Failed to extract payment request token from the payment link"
    );
    assert_eq!(PlinkError::Io("denied".to_string()).message(), "Output could not be written: denied");
}
