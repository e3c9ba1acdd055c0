use compile_service::artifact::{artifact_path, push_decimal, ArtifactNames};
use compile_service::error::ServiceError;
use compile_service::reply::{hello_world, liveness_reply, ContentType, Reply, ReplyBody};
use compile_service::session::{wasm_options, Action, CompileRequest, CompileSession, Event, Stage};

fn text_of(reply: &Reply) -> &str {
    match &reply.body {
        ReplyBody::Text(t) => t.as_str(),
        ReplyBody::Artifact(_) => panic!("expected a text body"),
    }
}

fn request(text: &str, name: &str) -> CompileRequest {
    CompileRequest { text: text.to_string(), name: name.to_string() }
}

#[test]
fn hello() {
    let reply = liveness_reply();
    assert_eq!(reply.status, 200);
    assert_eq!(text_of(&reply).as_bytes(), b"Hello, World!");
}

#[test]
fn hello_world_text_and_type() {
    assert_eq!(hello_world(), "Hello, World!");
    let reply = liveness_reply();
    assert_eq!(reply.content_type, ContentType::PlainText);
    assert_eq!(reply.content_type.header_value(), "text/plain; charset=utf-8");
    assert_eq!(ContentType::Wasm.header_value(), "application/wasm");
}

#[test]
fn decimal_numerals() {
    let cases: [(u64, &str); 5] =
        [(0, "0"), (9, "9"), (10, "10"), (305, "305"), (u64::MAX, "18446744073709551615")];
    for (n, expected) in cases {
        let mut s = String::from("x");
        push_decimal(&mut s, n);
        assert_eq!(s, format!("x{}", expected));
    }
}

#[test]
fn artifact_path_layout() {
    assert_eq!(artifact_path("/tmp", 7, 12), "/tmp/model-7-12.wasm");
    assert_eq!(artifact_path("", 0, 0), "/model-0-0.wasm");
}

#[test]
fn issued_paths_are_distinct() {
    let mut names = ArtifactNames::new(42);
    let a = names.issue("/tmp").unwrap();
    let b = names.issue("/tmp").unwrap();
    assert_eq!(a, "/tmp/model-42-0.wasm");
    assert_eq!(b, "/tmp/model-42-1.wasm");
    assert_ne!(a, b);
    assert_eq!(names.next, 2);
    // Different instances never collide on the same request number.
    assert_ne!(artifact_path("/tmp", 1, 23), artifact_path("/tmp", 12, 3));
}

#[test]
fn names_run_out_at_the_last_number() {
    let mut names = ArtifactNames { instance: 1, next: u64::MAX - 1 };
    assert!(names.issue("/d").is_some());
    assert_eq!(names.next, u64::MAX);
    assert!(names.issue("/d").is_none());
    assert_eq!(names.next, u64::MAX);
    assert!(CompileSession::start(&mut names, "/d").is_none());
}

#[test]
fn error_statuses_and_messages() {
    let e = ServiceError::InvalidRequest("missing field `name`".to_string());
    assert_eq!(e.status(), 400);
    assert_eq!(e.message(), "missing field `name`");
    let r = e.into_response();
    assert_eq!(r.status, 400);
    assert_eq!(r.content_type, ContentType::PlainText);
    assert_eq!(text_of(&r), "missing field `name`");

    let e = ServiceError::CompilationFailed("expected `}`".to_string());
    assert_eq!(e.status(), 500);
    assert_eq!(text_of(&e.into_response()), "expected `}`");

    let e = ServiceError::ArtifactIo("No such file or directory".to_string());
    assert_eq!(e.status(), 500);
    assert_eq!(text_of(&e.into_response()), "No such file or directory");
}

#[test]
fn empty_error_messages_get_a_description() {
    assert_eq!(ServiceError::InvalidRequest(String::new()).message(), "invalid compile request");
    assert_eq!(ServiceError::CompilationFailed(String::new()).message(), "compilation failed");
    assert_eq!(
        ServiceError::ArtifactIo(String::new()).message(),
        "the compiled module could not be read"
    );
}

#[test]
fn successful_request_streams_the_module_then_releases_it() {
    let mut names = ArtifactNames::new(3);
    let mut s = CompileSession::start(&mut names, "/tmp").unwrap();
    assert_eq!(s.stage, Stage::Received);
    assert_eq!(s.path, "/tmp/model-3-0.wasm");

    match s.handle(Event::Decoded(request("in = [r]", "discrete_logistic_model"))) {
        Action::Invoke(inv) => {
            assert_eq!(inv.text, "in = [r]");
            assert_eq!(inv.model_name, "discrete_logistic_model");
            assert_eq!(inv.out, "/tmp/model-3-0.wasm");
            assert_eq!(inv.options, wasm_options());
            assert!(inv.options.wasm && !inv.options.standalone && !inv.options.bitcode_only);
            assert!(inv.discrete);
        }
        other => panic!("unexpected action {:?}", other),
    }
    assert_eq!(s.stage, Stage::Compiling);

    match s.handle(Event::Compiled) {
        Action::Open(p) => assert_eq!(p, "/tmp/model-3-0.wasm"),
        other => panic!("unexpected action {:?}", other),
    }
    assert_eq!(s.stage, Stage::Opening);

    match s.handle(Event::Opened) {
        Action::RespondThenRelease(reply, p) => {
            assert_eq!(reply.status, 200);
            assert_eq!(reply.content_type, ContentType::Wasm);
            match reply.body {
                ReplyBody::Artifact(q) => assert_eq!(q, "/tmp/model-3-0.wasm"),
                ReplyBody::Text(_) => panic!("expected the module as body"),
            }
            assert_eq!(p, "/tmp/model-3-0.wasm");
        }
        other => panic!("unexpected action {:?}", other),
    }
    assert_eq!(s.stage, Stage::Done);
    assert!(matches!(s.handle(Event::Opened), Action::Ignore));
}

#[test]
fn undecodable_request_is_a_client_error_and_never_compiled() {
    let mut s = CompileSession::new("/tmp/model-0-0.wasm".to_string());
    match s.handle(Event::DecodeFailed("missing field `name` at line 1 column 14".to_string())) {
        Action::Respond(reply) => {
            assert_eq!(reply.status, 400);
            assert_eq!(text_of(&reply), "missing field `name` at line 1 column 14");
        }
        other => panic!("unexpected action {:?}", other),
    }
    assert_eq!(s.stage, Stage::Done);
    assert!(matches!(s.handle(Event::Decoded(request("a", "b"))), Action::Ignore));
    assert!(matches!(s.handle(Event::Compiled), Action::Ignore));
    assert_eq!(s.stage, Stage::Done);
}

#[test]
fn compiler_failure_is_a_server_error_and_releases_the_module() {
    let mut s = CompileSession::new("/tmp/model-0-1.wasm".to_string());
    assert!(matches!(s.handle(Event::Decoded(request("u_i {", "broken"))), Action::Invoke(_)));
    match s.handle(Event::CompileFailed("unexpected end of input".to_string())) {
        Action::RespondThenRelease(reply, p) => {
            assert_eq!(reply.status, 500);
            assert_eq!(reply.content_type, ContentType::PlainText);
            assert_eq!(text_of(&reply), "unexpected end of input");
            assert_eq!(p, "/tmp/model-0-1.wasm");
        }
        other => panic!("unexpected action {:?}", other),
    }
    assert_eq!(s.stage, Stage::Done);
}

#[test]
fn unreadable_module_is_a_server_error_and_releases_it() {
    let mut s = CompileSession::new("/tmp/model-0-2.wasm".to_string());
    assert!(matches!(s.handle(Event::Decoded(request("a", "b"))), Action::Invoke(_)));
    assert!(matches!(s.handle(Event::Compiled), Action::Open(_)));
    match s.handle(Event::OpenFailed(String::new())) {
        Action::RespondThenRelease(reply, p) => {
            assert_eq!(reply.status, 500);
            assert_eq!(text_of(&reply), "the compiled module could not be read");
            assert_eq!(p, "/tmp/model-0-2.wasm");
        }
        other => panic!("unexpected action {:?}", other),
    }
}

#[test]
fn events_out_of_turn_are_ignored() {
    let mut s = CompileSession::new("/p".to_string());
    assert!(matches!(s.handle(Event::Opened), Action::Ignore));
    assert!(matches!(s.handle(Event::CompileFailed("x".to_string())), Action::Ignore));
    assert_eq!(s.stage, Stage::Received);
    assert!(matches!(s.handle(Event::Decoded(request("a", "b"))), Action::Invoke(_)));
    assert!(matches!(s.handle(Event::DecodeFailed("x".to_string())), Action::Ignore));
    assert!(matches!(s.handle(Event::Opened), Action::Ignore));
    assert_eq!(s.stage, Stage::Compiling);
}

#[test]
fn same_request_twice_compiles_the_same_model_into_two_files() {
    let mut names = ArtifactNames::new(9);
    let mut first = CompileSession::start(&mut names, "/tmp").unwrap();
    let mut second = CompileSession::start(&mut names, "/tmp").unwrap();
    let a = first.handle(Event::Decoded(request("r { 1 }", "m")));
    let b = second.handle(Event::Decoded(request("r { 1 }", "m")));
    match (a, b) {
        (Action::Invoke(x), Action::Invoke(y)) => {
            assert_eq!(x.text, y.text);
            assert_eq!(x.model_name, y.model_name);
            assert_eq!(x.options, y.options);
            assert_eq!(x.discrete, y.discrete);
            assert_ne!(x.out, y.out);
        }
        _ => panic!("expected two invocations"),
    }
}
