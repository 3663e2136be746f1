use llhd_playground::machine::{step, Action, Event, RunOutput, State};
use tempdir::TempDir;

fn begin(body: &str) -> (State, Action) {
    step(State::Ready { body: body.to_string() }, Event::Begin)
}

fn expect_respond(a: Action) -> (u16, String) {
    match a {
        Action::Respond { reply } => (reply.status, reply.body),
        other => panic!("expected a reply, got {:?}", describe(&other)),
    }
}

fn describe(a: &Action) -> &'static str {
    match a {
        Action::CreateWorkspace => "CreateWorkspace",
        Action::WriteSource { .. } => "WriteSource",
        Action::Execute { .. } => "Execute",
        Action::RemoveWorkspace { .. } => "RemoveWorkspace",
        Action::Respond { .. } => "Respond",
    }
}

#[test]
fn successful_request_round_trip() {
    // The stub compiler echoes the entry-point name it was handed.
    let (s, a) = begin("{\"code\": \"module foo; endmodule\"}");
    assert!(matches!(a, Action::CreateWorkspace));

    let (s, a) = step(s, Event::WorkspaceCreated { result: Ok("/tmp/req-1".to_string()) });
    let contents = match a {
        Action::WriteSource { path, contents } => {
            assert_eq!(path, "/tmp/req-1/input.sv");
            contents
        },
        other => panic!("expected a source write, got {}", describe(&other)),
    };
    assert_eq!(contents, "module foo; endmodule");

    let (s, a) = step(s, Event::SourceWritten { result: Ok(()) });
    let echoed = match a {
        Action::Execute { command } => {
            assert_eq!(command.program, "docker");
            assert_eq!(command.args[command.args.len() - 2], "-e");
            command.args[command.args.len() - 1].clone()
        },
        other => panic!("expected an execution, got {}", describe(&other)),
    };
    assert_eq!(echoed, "foo");

    let output = RunOutput { stdout: echoed.into_bytes(), stderr: Vec::new() };
    let (s, a) = step(s, Event::Ran { result: Ok(output) });
    match a {
        Action::RemoveWorkspace { dir } => assert_eq!(dir, "/tmp/req-1"),
        other => panic!("expected workspace removal, got {}", describe(&other)),
    }

    let (_, a) = step(s, Event::WorkspaceRemoved);
    let (status, body) = expect_respond(a);
    assert_eq!(status, 200);
    assert_eq!(body, "{\"output\":\"foo\\n\"}");
}

#[test]
fn missing_module_cleans_up_and_reports() {
    let (s, a) = begin("{\"code\": \"endmodule\"}");
    assert!(matches!(a, Action::CreateWorkspace));

    // Resolution fails: the workspace is removed, nothing is written and
    // nothing is executed.
    let (s, a) = step(s, Event::WorkspaceCreated { result: Ok("/tmp/req-2".to_string()) });
    match a {
        Action::RemoveWorkspace { dir } => assert_eq!(dir, "/tmp/req-2"),
        other => panic!("expected workspace removal, got {}", describe(&other)),
    }

    let (_, a) = step(s, Event::WorkspaceRemoved);
    let (status, body) = expect_respond(a);
    assert_eq!(status, 500);
    assert_eq!(body, "{\"error\":\"Unable to find a module in the input\"}");
}

#[test]
fn malformed_body_reports_deserialization() {
    let (_, a) = begin("{\"cod\": 1}");
    let (status, body) = expect_respond(a);
    assert_eq!(status, 500);
    assert_eq!(body, "{\"error\":\"Unable to deserialize request: invalid request body\"}");
}

#[test]
fn empty_body_reports_missing_request() {
    let (_, a) = begin("");
    let (status, body) = expect_respond(a);
    assert_eq!(status, 500);
    assert_eq!(body, "{\"error\":\"No request was provided\"}");
}

#[test]
fn tempdir_failure_reports_cause() {
    let (s, a) = begin("{\"code\": \"module m;\"}");
    assert!(matches!(a, Action::CreateWorkspace));
    let (_, a) = step(s, Event::WorkspaceCreated { result: Err("disk full".to_string()) });
    let (status, body) = expect_respond(a);
    assert_eq!(status, 500);
    assert_eq!(body, "{\"error\":\"Unable to create temporary directory: disk full\"}");
}

#[test]
fn write_failure_cleans_up_and_reports() {
    let (s, _) = begin("{\"code\": \"module m;\"}");
    let (s, _) = step(s, Event::WorkspaceCreated { result: Ok("/tmp/req-3".to_string()) });
    let (s, a) = step(s, Event::SourceWritten { result: Err("permission denied".to_string()) });
    match a {
        Action::RemoveWorkspace { dir } => assert_eq!(dir, "/tmp/req-3"),
        other => panic!("expected workspace removal, got {}", describe(&other)),
    }
    let (_, a) = step(s, Event::WorkspaceRemoved);
    let (status, body) = expect_respond(a);
    assert_eq!(status, 500);
    assert_eq!(body, "{\"error\":\"Unable to create source file: permission denied\"}");
}

#[test]
fn spawn_failure_cleans_up_and_reports() {
    let (s, _) = begin("{\"code\": \"module m;\"}");
    let (s, _) = step(s, Event::WorkspaceCreated { result: Ok("/tmp/req-4".to_string()) });
    let (s, _) = step(s, Event::SourceWritten { result: Ok(()) });
    let (s, a) = step(s, Event::Ran { result: Err("no such file".to_string()) });
    assert!(matches!(a, Action::RemoveWorkspace { .. }));
    let (_, a) = step(s, Event::WorkspaceRemoved);
    let (status, body) = expect_respond(a);
    assert_eq!(status, 500);
    assert_eq!(body, "{\"error\":\"Unable to execute the compiler: no such file\"}");
}

#[test]
fn ansi_escapes_are_stripped_from_stderr() {
    let (s, _) = begin("{\"code\": \"module m;\"}");
    let (s, _) = step(s, Event::WorkspaceCreated { result: Ok("/tmp/req-5".to_string()) });
    let (s, _) = step(s, Event::SourceWritten { result: Ok(()) });
    let output = RunOutput {
        stdout: Vec::new(),
        stderr: b"\x1b[32mgreen\x1b[m plain".to_vec(),
    };
    let (s, _) = step(s, Event::Ran { result: Ok(output) });
    let (_, a) = step(s, Event::WorkspaceRemoved);
    let (status, body) = expect_respond(a);
    assert_eq!(status, 200);
    assert_eq!(body, "{\"output\":\"\\ngreen plain\"}");
}

#[test]
fn invalid_utf8_output_reports_error() {
    let (s, _) = begin("{\"code\": \"module m;\"}");
    let (s, _) = step(s, Event::WorkspaceCreated { result: Ok("/tmp/req-6".to_string()) });
    let (s, _) = step(s, Event::SourceWritten { result: Ok(()) });
    let output = RunOutput { stdout: vec![0xff, 0xfe], stderr: Vec::new() };
    let (s, _) = step(s, Event::Ran { result: Ok(output) });
    let (_, a) = step(s, Event::WorkspaceRemoved);
    let (status, body) = expect_respond(a);
    assert_eq!(status, 500);
    assert!(body.starts_with("{\"error\":\"Output was not valid UTF-8:"));
}

#[test]
fn concurrent_workspaces_are_distinct() {
    // Two simultaneously held scratch directories never collide, so the
    // two requests' input files cannot overwrite each other.
    let a = TempDir::new("llhd-io").unwrap();
    let b = TempDir::new("llhd-io").unwrap();
    assert_ne!(a.path(), b.path());

    let wa = llhd_playground::sandbox::Workspace::new(
        a.path().to_str().unwrap().to_string(),
    );
    let wb = llhd_playground::sandbox::Workspace::new(
        b.path().to_str().unwrap().to_string(),
    );
    assert_ne!(wa.input_file, wb.input_file);
}
