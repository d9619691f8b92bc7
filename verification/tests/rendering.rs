use record_api::error::StoreError;
use record_api::gateway::{Payload, StoreFault, StoreReply, StoreRequest};
use record_api::json::{render_record, render_records, write_array, write_record};
use record_api::query::{collect_params, read_params, Pair, Params};
use record_api::record::{clone_records, Record};
use record_api::route::Route;
use record_api::handlers::{health_check, not_found_404, root};
use record_api::response::{
    answer_outcome, report, BodyKind, Response, AMBIGUOUS_PAGE, CREATED_PAGE, DELETED_PAGE,
    DUPLICATE_PAGE, HEALTH_PAGE, MALFORMED_PAGE, MISSING_PAGE, NOT_FOUND_PAGE, ROOT_PAGE,
    UNAVAILABLE_PAGE, UPDATED_PAGE,
};
use record_api::service::{plan, request_for, respond, Plan};

fn html(status: u16, body: &str) -> Response {
    Response { status, kind: BodyKind::Html, body: body.to_string() }
}

fn json(body: &str) -> Response {
    Response { status: 200, kind: BodyKind::Json, body: body.to_string() }
}

#[test]
fn a_record_is_written_field_by_field() {
    assert_eq!(
        write_record(1, "\"2024-01-01\"", "\"hello\""),
        "{\"id\":1,\"date\":\"2024-01-01\",\"message\":\"hello\"}"
    );
    assert_eq!(write_record(-20, "D", "M"), "{\"id\":-20,\"date\":D,\"message\":M}");
    assert_eq!(
        write_record(i32::MIN, "", ""),
        "{\"id\":-2147483648,\"date\":,\"message\":}"
    );
}

#[test]
fn an_array_is_written_with_commas_between() {
    assert_eq!(write_array(&vec![]), "[]");
    assert_eq!(write_array(&vec!["1".to_string()]), "[1]");
    assert_eq!(write_array(&vec!["1".to_string(), "2".to_string()]), "[1,2]");
    assert_eq!(
        write_array(&vec!["a".to_string(), String::new(), "c".to_string()]),
        "[a,,c]"
    );
}

#[test]
fn records_are_rendered_as_json() {
    let first = Record::new(1, "2024-01-01", "hello");
    let second = Record::new(2, "", "say \"hi\"");
    assert_eq!(
        render_record(&first),
        "{\"id\":1,\"date\":\"2024-01-01\",\"message\":\"hello\"}"
    );
    assert_eq!(
        render_record(&second),
        "{\"id\":2,\"date\":\"\",\"message\":\"say \\\"hi\\\"\"}"
    );
    assert_eq!(render_records(&vec![]), "[]");
    assert_eq!(
        render_records(&vec![first, second]),
        "[{\"id\":1,\"date\":\"2024-01-01\",\"message\":\"hello\"},{\"id\":2,\"date\":\"\",\"message\":\"say \\\"hi\\\"\"}]"
    );
}

#[test]
fn every_character_is_escaped_as_json_asks() {
    let two = [
        ('"', "\\\""),
        ('\\', "\\\\"),
        ('\u{8}', "\\b"),
        ('\t', "\\t"),
        ('\n', "\\n"),
        ('\u{c}', "\\f"),
        ('\r', "\\r"),
    ];
    for code in 0u32..=0x80 {
        let c = char::from_u32(code).unwrap();
        let inside = match two.iter().find(|(from, _)| *from == c) {
            Some((_, to)) => to.to_string(),
            None if code < 0x20 => format!("\\u{:04x}", code),
            None => c.to_string(),
        };
        let record = Record::new(0, "", &c.to_string());
        assert_eq!(
            render_record(&record),
            format!("{{\"id\":0,\"date\":\"\",\"message\":\"{}\"}}", inside),
            "character {:#x}",
            code
        );
    }
    let record = Record::new(0, "\u{0}\u{1f}\u{1b}", "\u{7f}\u{e9}\u{2028}\u{1F600}/");
    assert_eq!(
        render_record(&record),
        "{\"id\":0,\"date\":\"\\u0000\\u001f\\u001b\",\"message\":\"\u{7f}\u{e9}\u{2028}\u{1F600}/\"}"
    );
}

#[test]
fn records_are_copied_whole() {
    let records = vec![Record::new(1, "a", "b"), Record::new(2, "c", "d")];
    assert_eq!(clone_records(&records), records);
    assert_eq!(records[0].clone(), Record::new(1, "a", "b"));
}

#[test]
fn parameters_are_gathered_by_key() {
    let pairs = vec![
        Pair::new("message", "m"),
        Pair::new("other", "x"),
        Pair::new("id", "12"),
        Pair::new("other", "y"),
    ];
    assert_eq!(
        collect_params(&pairs),
        Ok(Params { id: Some(12), date: None, message: Some("m".to_string()) })
    );
    assert_eq!(collect_params(&vec![]), Ok(Params { id: None, date: None, message: None }));
    assert_eq!(
        collect_params(&vec![Pair::new("date", "")]),
        Ok(Params { id: None, date: Some(String::new()), message: None })
    );
}

#[test]
fn a_repeated_or_unreadable_parameter_is_malformed() {
    assert_eq!(
        collect_params(&vec![Pair::new("id", "1"), Pair::new("id", "1")]),
        Err(StoreError::MalformedInput)
    );
    assert_eq!(
        collect_params(&vec![Pair::new("date", "a"), Pair::new("id", "1"), Pair::new("date", "b")]),
        Err(StoreError::MalformedInput)
    );
    assert_eq!(
        collect_params(&vec![Pair::new("message", "a"), Pair::new("message", "a")]),
        Err(StoreError::MalformedInput)
    );
    assert_eq!(collect_params(&vec![Pair::new("id", "")]), Err(StoreError::MalformedInput));
    assert_eq!(collect_params(&vec![Pair::new("id", "x")]), Err(StoreError::MalformedInput));
    assert_eq!(
        collect_params(&vec![Pair::new("id", "3000000000")]),
        Err(StoreError::MalformedInput)
    );
}

#[test]
fn a_query_string_is_decoded_before_it_is_read() {
    assert_eq!(
        read_params("id=%2D7&date=a%26b&message=x+y"),
        Ok(Params { id: Some(-7), date: Some("a&b".to_string()), message: Some("x y".to_string()) })
    );
    assert_eq!(read_params(""), Ok(Params { id: None, date: None, message: None }));
    assert_eq!(read_params("id=1&id=2"), Err(StoreError::MalformedInput));
}

#[test]
fn each_route_asks_for_its_parameters() {
    let all = || Params { id: Some(1), date: Some("d".to_string()), message: Some("m".to_string()) };
    let none = || Params { id: None, date: None, message: None };
    assert_eq!(request_for(Route::Read, none()), Some(StoreRequest::SelectAll));
    assert_eq!(request_for(Route::Read, all()), Some(StoreRequest::SelectAll));
    assert_eq!(
        request_for(Route::Create, all()),
        Some(StoreRequest::Insert(Record::new(1, "d", "m")))
    );
    assert_eq!(
        request_for(Route::Update, all()),
        Some(StoreRequest::UpdateMessage { id: 1, message: "m".to_string() })
    );
    assert_eq!(request_for(Route::Delete, all()), Some(StoreRequest::DeleteById(1)));
    assert_eq!(request_for(Route::Search, all()), Some(StoreRequest::SelectById(1)));
    assert_eq!(request_for(Route::Create, none()), None);
    assert_eq!(request_for(Route::Update, none()), None);
    assert_eq!(request_for(Route::Delete, none()), None);
    assert_eq!(request_for(Route::Search, none()), None);
    assert_eq!(
        request_for(
            Route::Update,
            Params { id: Some(1), date: Some("d".to_string()), message: None }
        ),
        None
    );
    assert_eq!(request_for(Route::Root, all()), None);
    assert_eq!(request_for(Route::HealthCheck, all()), None);
    assert_eq!(request_for(Route::NotFound, all()), None);
}

#[test]
fn plans() {
    assert_eq!(plan("GET", "/database_read", "id=x&id=y"), Plan::Ask(StoreRequest::SelectAll));
    assert_eq!(
        plan("POST", "/database_create", "id=1&date=2024-01-01&message=hello"),
        Plan::Ask(StoreRequest::Insert(Record::new(1, "2024-01-01", "hello")))
    );
    assert_eq!(
        plan("PUT", "/database_update", "id=1&message=world"),
        Plan::Ask(StoreRequest::UpdateMessage { id: 1, message: "world".to_string() })
    );
    assert_eq!(plan("POST", "/database_delete", "id=1"), Plan::Ask(StoreRequest::DeleteById(1)));
    assert_eq!(plan("GET", "/database_search", "id=1"), Plan::Ask(StoreRequest::SelectById(1)));
    assert_eq!(plan("GET", "/database_search", ""), Plan::Answer(html(400, MALFORMED_PAGE)));
    assert_eq!(plan("GET", "/elsewhere", "id=1"), Plan::Answer(html(404, NOT_FOUND_PAGE)));
    assert_eq!(plan("GET", "/elsewhere", "id=1"), Plan::Answer(not_found_404()));
    assert_eq!(plan("GET", "/", "id=1"), Plan::Answer(root()));
    assert_eq!(plan("GET", "/health_check", ""), Plan::Answer(health_check()));
}

#[test]
fn the_handlers_without_a_store() {
    assert_eq!(root(), html(200, ROOT_PAGE));
    assert_eq!(health_check(), html(200, HEALTH_PAGE));
    assert_eq!(not_found_404(), html(404, NOT_FOUND_PAGE));
}

#[test]
fn the_pages_letter_for_letter() {
    assert_eq!(
        root().body,
        "<h1>Welcome to the Axum Core API</h1><h2>Available routes:</h2><p>/ - this route, the root</p><p>/health_check - current API status</p>"
    );
    assert_eq!(
        health_check().body,
        "<h1>Welcome to the Axum Core API</h1><h2>Status:</h2><p>Alive, 200 OK</p>"
    );
    assert_eq!(not_found_404().body, "<h1>Nothing here by that name...yet.</h1>");
    assert_eq!(
        answer_outcome(Ok(Payload::Created)).body,
        "<h1>Data added...check /database_read for results</h1>"
    );
    assert_eq!(
        answer_outcome(Ok(Payload::Updated)).body,
        "<h1>Data updated...check /database_check for results</h1>"
    );
    assert_eq!(
        answer_outcome(Ok(Payload::Deleted)).body,
        "<h1>Deleted record...check /database_check to confirm."
    );
    assert_eq!(ROOT_PAGE, root().body);
    assert_eq!(HEALTH_PAGE, health_check().body);
    assert_eq!(NOT_FOUND_PAGE, not_found_404().body);
}

#[test]
fn each_error_has_its_page() {
    assert_eq!(report(StoreError::DuplicateKey), html(409, DUPLICATE_PAGE));
    assert_eq!(report(StoreError::NotFound), html(404, MISSING_PAGE));
    assert_eq!(report(StoreError::AmbiguousResult), html(500, AMBIGUOUS_PAGE));
    assert_eq!(report(StoreError::StoreUnavailable), html(503, UNAVAILABLE_PAGE));
    assert_eq!(report(StoreError::MalformedInput), html(400, MALFORMED_PAGE));
}

#[test]
fn each_payload_has_its_response() {
    assert_eq!(answer_outcome(Ok(Payload::Created)), html(200, CREATED_PAGE));
    assert_eq!(answer_outcome(Ok(Payload::Updated)), html(200, UPDATED_PAGE));
    assert_eq!(answer_outcome(Ok(Payload::Deleted)), html(200, DELETED_PAGE));
    assert_eq!(
        answer_outcome(Ok(Payload::One(Record::new(1, "d", "m")))),
        json("{\"id\":1,\"date\":\"d\",\"message\":\"m\"}")
    );
    assert_eq!(answer_outcome(Ok(Payload::All(vec![]))), json("[]"));
    assert_eq!(answer_outcome(Err(StoreError::NotFound)), html(404, MISSING_PAGE));
}

#[test]
fn responses_to_what_a_store_answers() {
    let search = StoreRequest::SelectById(1);
    assert_eq!(
        respond(&search, StoreReply::Rows(vec![Record::new(1, "d", "m")])),
        json("{\"id\":1,\"date\":\"d\",\"message\":\"m\"}")
    );
    assert_eq!(respond(&search, StoreReply::Rows(vec![])), html(404, MISSING_PAGE));
    assert_eq!(
        respond(&search, StoreReply::Rows(vec![Record::new(1, "d", "m"), Record::new(1, "e", "n")])),
        html(500, AMBIGUOUS_PAGE)
    );
    assert_eq!(
        respond(&search, StoreReply::Fault(StoreFault::Unavailable)),
        html(503, UNAVAILABLE_PAGE)
    );
    assert_eq!(
        respond(
            &StoreRequest::Insert(Record::new(1, "d", "m")),
            StoreReply::Fault(StoreFault::UniqueViolation)
        ),
        html(409, DUPLICATE_PAGE)
    );
    assert_eq!(
        respond(&StoreRequest::Insert(Record::new(1, "d", "m")), StoreReply::Affected(1)),
        html(200, CREATED_PAGE)
    );
    assert_eq!(respond(&StoreRequest::DeleteById(1), StoreReply::Affected(0)), html(404, MISSING_PAGE));
}
