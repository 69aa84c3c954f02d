use questions_api::question::{first_question, Question, QuestionId};
use questions_api::routing::{
    answer, check_question, cors_policy, get_questions, handle_question, respond, return_error,
    route, Failure, Method, Reply, Response,
};

fn assert_first_question(q: &Question) {
    assert_eq!(q.id.0, "1");
    assert_eq!(q.title, "First Question");
    assert_eq!(q.content, "Content of the first question");
    assert_eq!(
        q.tags,
        Some(vec!["rust".to_string(), "programming".to_string()])
    );
}

fn expect_text(r: Response) -> Reply {
    match r {
        Response::Text(t) => t,
        Response::Json(q) => panic!("expected a text reply, got {:?}", q),
    }
}

fn expect_json(r: Response) -> Question {
    match r {
        Response::Json(q) => q,
        Response::Text(t) => panic!("expected a question, got {:?}", t),
    }
}

fn with_id(id: &str) -> Question {
    Question::new(
        QuestionId::from(id),
        "t".to_string(),
        "c".to_string(),
        None,
    )
}

#[test]
fn new_keeps_every_field() {
    let q = Question::new(
        QuestionId::from("7"),
        "a".to_string(),
        "b".to_string(),
        Some(vec!["x".to_string()]),
    );
    assert_eq!(q.id.0, "7");
    assert_eq!(q.title, "a");
    assert_eq!(q.content, "b");
    assert_eq!(q.tags, Some(vec!["x".to_string()]));
}

#[test]
fn first_question_is_fixed_record() {
    assert_first_question(&first_question());
}

#[test]
fn get_questions_returns_first_question() {
    match get_questions() {
        Ok(q) => assert_first_question(&q),
        Err(f) => panic!("unexpected failure {:?}", f),
    }
}

#[test]
fn get_on_questions_answers_with_question() {
    let q = expect_json(respond(Method::Get, "/questions"));
    assert_first_question(&q);
}

#[test]
fn repeated_gets_answer_the_same() {
    let a = expect_json(respond(Method::Get, "/questions"));
    let b = expect_json(respond(Method::Get, "/questions"));
    let c = expect_json(respond(Method::Get, "/questions"));
    assert_first_question(&a);
    assert_eq!(format!("{:?}", a), format!("{:?}", b));
    assert_eq!(format!("{:?}", b), format!("{:?}", c));
}

#[test]
fn other_paths_are_not_found() {
    for path in ["/", "", "/questions/", "/questions/1", "/question", "/Questions", "questions", "/other"] {
        let t = expect_text(respond(Method::Get, path));
        assert_eq!(t.status, 404, "path {:?}", path);
        assert_eq!(t.body, "Route not found");
    }
}

#[test]
fn other_methods_are_not_found() {
    for m in [
        Method::Head,
        Method::Post,
        Method::Put,
        Method::Delete,
        Method::Connect,
        Method::Options,
        Method::Trace,
        Method::Patch,
        Method::Other,
    ] {
        let t = expect_text(respond(m, "/questions"));
        assert_eq!(t.status, 404, "method {:?}", m);
        assert_eq!(t.body, "Route not found");
    }
}

#[test]
fn route_reports_not_found() {
    assert!(matches!(route(Method::Post, "/questions"), Err(Failure::NotFound)));
    assert!(matches!(route(Method::Get, "/answers"), Err(Failure::NotFound)));
    match route(Method::Get, "/questions") {
        Ok(q) => assert_first_question(&q),
        Err(f) => panic!("unexpected failure {:?}", f),
    }
}

#[test]
fn cors_failure_is_forbidden_with_its_description() {
    let why = "CORS request forbidden: request-method not allowed";
    let r = return_error(Failure::CorsForbidden(why.to_string()));
    assert_eq!(r.status, 403);
    assert_eq!(r.body, why);
    let r = return_error(Failure::CorsForbidden("CORS request forbidden: header not allowed".to_string()));
    assert_eq!(r.status, 403);
    assert_eq!(r.body, "CORS request forbidden: header not allowed");
}

#[test]
fn invalid_id_failure_is_unprocessable() {
    let r = return_error(Failure::InvalidId);
    assert_eq!(r.status, 422);
    assert_eq!(r.body, "No valid ID given");
}

#[test]
fn not_found_failure_text() {
    let r = return_error(Failure::NotFound);
    assert_eq!(r.status, 404);
    assert_eq!(r.body, "Route not found");
}

#[test]
fn non_numeric_id_gives_unprocessable() {
    for id in ["abc", "", "-1", " 1", "1 ", "+", "1_000", "1.5", "18446744073709551616", "١"] {
        let t = expect_text(handle_question(with_id(id)));
        assert_eq!(t.status, 422, "id {:?}", id);
        assert_eq!(t.body, "No valid ID given");
        assert!(matches!(check_question(with_id(id)), Err(Failure::InvalidId)));
    }
}

#[test]
fn numeric_id_passes_the_check() {
    for id in ["0", "1", "+7", "007", "18446744073709551615"] {
        let q = expect_json(handle_question(with_id(id)));
        assert_eq!(q.id.0, id);
        assert!(check_question(with_id(id)).is_ok());
    }
}

#[test]
fn id_number_values() {
    assert_eq!(QuestionId::from("42").number(), Some(42));
    assert_eq!(QuestionId::from("+5").number(), Some(5));
    assert_eq!(QuestionId::from("0012").number(), Some(12));
    assert_eq!(QuestionId::from("18446744073709551615").number(), Some(u64::MAX));
    assert_eq!(QuestionId::from("18446744073709551616").number(), None);
    assert_eq!(QuestionId::from("-1").number(), None);
    assert_eq!(QuestionId::from("x1").number(), None);
    assert_eq!(QuestionId::from("").number(), None);
}

#[test]
fn answer_maps_each_outcome() {
    assert_first_question(&expect_json(answer(Ok(first_question()))));
    let t = expect_text(answer(Err(Failure::InvalidId)));
    assert_eq!((t.status, t.body.as_str()), (422, "No valid ID given"));
    let t = expect_text(answer(Err(Failure::NotFound)));
    assert_eq!((t.status, t.body.as_str()), (404, "Route not found"));
}

#[test]
fn cors_policy_allows_listed_methods_and_header() {
    let p = cors_policy();
    assert!(p.any_origin);
    assert_eq!(p.allowed_headers, vec!["content-type".to_string()]);
    assert_eq!(
        p.allowed_methods,
        vec![Method::Put, Method::Get, Method::Post, Method::Delete, Method::Options]
    );
}

#[test]
fn cors_policy_leaves_out_patch() {
    let p = cors_policy();
    assert!(!p.allowed_methods.contains(&Method::Patch));
    assert!(!p.allowed_methods.contains(&Method::Head));
    assert!(!p.allowed_headers.contains(&"authorization".to_string()));
}
