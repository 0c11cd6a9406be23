use command_bridge::{
    dispatch, dispatch_request, greet, parse_request, ErrorKind, Field, Handler, ParamType,
    Registry, Request, Response, Value,
};

fn text(s: &str) -> Value {
    Value::Str(s.to_string())
}

fn object(fields: Vec<(&str, Value)>) -> Value {
    Value::Object(
        fields
            .into_iter()
            .map(|(k, v)| Field { key: k.to_string(), value: v })
            .collect(),
    )
}

fn envelope(command: &str, args: Value, token: &str) -> Value {
    object(vec![("command", text(command)), ("args", args), ("token", text(token))])
}

fn bridge() -> Registry {
    let mut reg = Registry::new();
    reg.register("greet".to_string(), Handler::Greet).unwrap();
    reg.register("echo".to_string(), Handler::Echo).unwrap();
    reg.register("raise".to_string(), Handler::Raise).unwrap();
    reg
}

fn success_text(resp: &Response) -> String {
    match &resp.outcome {
        Ok(Value::Str(s)) => s.clone(),
        other => panic!("expected a string payload, got {:?}", other),
    }
}

fn failure(resp: &Response) -> (ErrorKind, String) {
    match &resp.outcome {
        Err(f) => (f.kind, f.message.clone()),
        other => panic!("expected a failure, got {:?}", other),
    }
}

#[test]
fn greet_builds_greeting() {
    assert_eq!(greet("Ana"), "Hello, Ana!");
    assert_eq!(greet(""), "Hello, !");
}

#[test]
fn greet_request_scenario() {
    let reg = bridge();
    let mut runs: u64 = 0;
    let args = object(vec![("name", text("Ana"))]);
    let resp = dispatch(&reg, envelope("greet", args, "t1"), &mut runs);
    assert_eq!(resp.token, "t1");
    assert_eq!(success_text(&resp), "Hello, Ana!");
    assert_eq!(runs, 1);
}

#[test]
fn missing_command_scenario() {
    let reg = bridge();
    let mut runs: u64 = 0;
    let args = object(vec![("name", text("Ana"))]);
    let resp = dispatch(&reg, envelope("missing", args, "t1"), &mut runs);
    assert_eq!(resp.token, "t1");
    assert_eq!(failure(&resp), (ErrorKind::CommandNotFound, "missing".to_string()));
    assert_eq!(runs, 0);
}

#[test]
fn resolve_returns_registered_handler() {
    let reg = bridge();
    assert_eq!(reg.resolve("greet").unwrap(), Handler::Greet);
    assert_eq!(reg.resolve("echo").unwrap(), Handler::Echo);
    assert_eq!(reg.resolve("raise").unwrap(), Handler::Raise);
}

#[test]
fn resolve_unregistered_fails() {
    let reg = bridge();
    let f = reg.resolve("Greet").unwrap_err();
    assert_eq!(f.kind, ErrorKind::CommandNotFound);
    assert_eq!(f.message, "Greet");
    let empty = Registry::new();
    assert_eq!(empty.resolve("greet").unwrap_err().kind, ErrorKind::CommandNotFound);
}

#[test]
fn duplicate_registration_keeps_first() {
    let mut reg = Registry::new();
    assert!(reg.register("greet".to_string(), Handler::Greet).is_ok());
    let f = reg.register("greet".to_string(), Handler::Echo).unwrap_err();
    assert_eq!(f.kind, ErrorKind::DuplicateCommand);
    assert_eq!(f.message, "greet");
    assert_eq!(reg.resolve("greet").unwrap(), Handler::Greet);
}

#[test]
fn echo_round_trip() {
    let reg = bridge();
    let mut runs: u64 = 0;
    let args = object(vec![
        ("a", Value::Int(-7)),
        ("b", Value::Bool(true)),
        ("c", object(vec![("d", text("x")), ("e", Value::Null)])),
    ]);
    let resp = dispatch(&reg, envelope("echo", args, "tok-9"), &mut runs);
    assert_eq!(resp.token, "tok-9");
    match resp.outcome {
        Ok(Value::Object(fs)) => {
            assert_eq!(fs.len(), 3);
            assert_eq!(fs[0].key, "a");
            assert!(matches!(fs[0].value, Value::Int(-7)));
            assert_eq!(fs[1].key, "b");
            assert!(matches!(fs[1].value, Value::Bool(true)));
            assert_eq!(fs[2].key, "c");
            match &fs[2].value {
                Value::Object(inner) => {
                    assert_eq!(inner.len(), 2);
                    assert_eq!(inner[0].key, "d");
                    assert!(matches!(&inner[0].value, Value::Str(s) if s == "x"));
                    assert_eq!(inner[1].key, "e");
                    assert!(matches!(inner[1].value, Value::Null));
                }
                other => panic!("expected an object, got {:?}", other),
            }
        }
        other => panic!("expected the echoed object, got {:?}", other),
    }
    assert_eq!(runs, 1);
}

#[test]
fn echo_accepts_any_payload() {
    let reg = bridge();
    let mut runs: u64 = 0;
    let resp = dispatch(&reg, envelope("echo", Value::Int(42), "t"), &mut runs);
    assert!(matches!(resp.outcome, Ok(Value::Int(42))));
}

#[test]
fn same_payload_twice_same_result() {
    let reg = bridge();
    let mut runs: u64 = 0;
    let first = dispatch(&reg, envelope("greet", object(vec![("name", text("Bo"))]), "a"), &mut runs);
    let second = dispatch(&reg, envelope("greet", object(vec![("name", text("Bo"))]), "b"), &mut runs);
    assert_eq!(success_text(&first), success_text(&second));
    assert_eq!(first.token, "a");
    assert_eq!(second.token, "b");
    assert_eq!(runs, 2);
}

#[test]
fn wrong_field_type_skips_handler() {
    let reg = bridge();
    let mut runs: u64 = 0;
    let args = object(vec![("name", Value::Int(5))]);
    let resp = dispatch(&reg, envelope("greet", args, "t2"), &mut runs);
    assert_eq!(resp.token, "t2");
    assert_eq!(failure(&resp), (ErrorKind::ArgumentTypeMismatch, "name".to_string()));
    assert_eq!(runs, 0);
}

#[test]
fn missing_field_is_type_mismatch() {
    let reg = bridge();
    let mut runs: u64 = 0;
    let args = object(vec![("nome", text("Ana"))]);
    let resp = dispatch(&reg, envelope("greet", args, "t3"), &mut runs);
    assert_eq!(failure(&resp), (ErrorKind::ArgumentTypeMismatch, "name".to_string()));
    let resp = dispatch(&reg, envelope("raise", Value::Null, "t4"), &mut runs);
    assert_eq!(failure(&resp), (ErrorKind::ArgumentTypeMismatch, "message".to_string()));
    assert_eq!(runs, 0);
}

#[test]
fn first_field_of_a_name_counts() {
    let reg = bridge();
    let mut runs: u64 = 0;
    let args = object(vec![("name", text("Ana")), ("name", Value::Int(1))]);
    let resp = dispatch(&reg, envelope("greet", args, "t"), &mut runs);
    assert_eq!(success_text(&resp), "Hello, Ana!");
    let args = object(vec![("name", Value::Int(1)), ("name", text("Ana"))]);
    let resp = dispatch(&reg, envelope("greet", args, "t"), &mut runs);
    assert_eq!(failure(&resp).0, ErrorKind::ArgumentTypeMismatch);
}

#[test]
fn handler_error_is_relayed() {
    let reg = bridge();
    let mut runs: u64 = 0;
    let args = object(vec![("message", text("disk full"))]);
    let resp = dispatch(&reg, envelope("raise", args, "t5"), &mut runs);
    assert_eq!(resp.token, "t5");
    assert_eq!(failure(&resp), (ErrorKind::HandlerFailed, "disk full".to_string()));
    assert_eq!(runs, 1);
}

#[test]
fn envelope_not_an_object_is_malformed() {
    let reg = bridge();
    let mut runs: u64 = 0;
    let resp = dispatch(&reg, text("greet"), &mut runs);
    assert_eq!(resp.token, "");
    assert_eq!(failure(&resp), (ErrorKind::MalformedRequest, "command".to_string()));
    assert_eq!(runs, 0);
}

#[test]
fn malformed_envelope_keeps_recoverable_token() {
    let reg = bridge();
    let mut runs: u64 = 0;
    let env = object(vec![("command", text("greet")), ("token", text("t6"))]);
    let resp = dispatch(&reg, env, &mut runs);
    assert_eq!(resp.token, "t6");
    assert_eq!(failure(&resp), (ErrorKind::MalformedRequest, "args".to_string()));

    let env = object(vec![("command", Value::Int(1)), ("args", Value::Null), ("token", text("t7"))]);
    let resp = dispatch(&reg, env, &mut runs);
    assert_eq!(resp.token, "t7");
    assert_eq!(failure(&resp), (ErrorKind::MalformedRequest, "command".to_string()));

    let env = object(vec![("command", text("greet")), ("args", Value::Null), ("token", Value::Int(3))]);
    let resp = dispatch(&reg, env, &mut runs);
    assert_eq!(resp.token, "");
    assert_eq!(failure(&resp), (ErrorKind::MalformedRequest, "token".to_string()));
    assert_eq!(runs, 0);
}

#[test]
fn parse_request_splits_envelope() {
    let env = object(vec![
        ("token", text("t8")),
        ("extra", Value::Bool(false)),
        ("args", Value::Int(3)),
        ("command", text("echo")),
    ]);
    let req = parse_request(env).unwrap();
    assert_eq!(req.command, "echo");
    assert_eq!(req.token, "t8");
    assert!(matches!(req.args, Value::Int(3)));
}

#[test]
fn dispatch_request_runs_parsed_request() {
    let reg = bridge();
    let mut runs: u64 = 10;
    let req = Request {
        command: "greet".to_string(),
        args: object(vec![("name", text("Zé"))]),
        token: "t9".to_string(),
    };
    let resp = dispatch_request(&reg, req, &mut runs);
    assert_eq!(resp.token, "t9");
    assert_eq!(success_text(&resp), "Hello, Zé!");
    assert_eq!(runs, 11);
}

#[test]
fn handler_schemas() {
    let greet_schema = Handler::Greet.schema();
    assert_eq!(greet_schema.len(), 1);
    assert_eq!(greet_schema[0].name, "name");
    assert_eq!(greet_schema[0].ty, ParamType::Str);
    assert!(Handler::Echo.schema().is_empty());
    let raise_schema = Handler::Raise.schema();
    assert_eq!(raise_schema.len(), 1);
    assert_eq!(raise_schema[0].name, "message");
    assert_eq!(raise_schema[0].ty, ParamType::Str);
}

#[test]
fn error_kind_names() {
    assert_eq!(ErrorKind::DuplicateCommand.name(), "DuplicateCommand");
    assert_eq!(ErrorKind::CommandNotFound.name(), "CommandNotFound");
    assert_eq!(ErrorKind::MalformedRequest.name(), "MalformedRequest");
    assert_eq!(ErrorKind::ArgumentTypeMismatch.name(), "ArgumentTypeMismatch");
    assert_eq!(ErrorKind::HandlerFailed.name(), "HandlerFailed");
}

#[test]
fn first_mismatch_reports_position() {
    let params = vec![
        command_bridge::Param { name: "a".to_string(), ty: ParamType::Int },
        command_bridge::Param { name: "b".to_string(), ty: ParamType::Bool },
        command_bridge::Param { name: "c".to_string(), ty: ParamType::Str },
    ];
    let good = object(vec![("c", text("x")), ("b", Value::Bool(false)), ("a", Value::Int(0))]);
    assert_eq!(command_bridge::first_mismatch(&params, &good), None);
    let bad = object(vec![("a", Value::Int(0)), ("b", text("no")), ("c", Value::Int(1))]);
    assert_eq!(command_bridge::first_mismatch(&params, &bad), Some(1));
    assert_eq!(command_bridge::first_mismatch(&params, &Value::Null), Some(0));
    assert_eq!(command_bridge::first_mismatch(&Vec::new(), &Value::Null), None);
}
