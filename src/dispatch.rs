use vstd::prelude::*;

use crate::error::{ErrorKind, Failure};
use crate::handler::{first_bad, first_mismatch, handler_result, schema_of, Handler};
use crate::registry::Registry;
use crate::value::{find_field, member, str_member, Val, Value};

verus! {

pub open spec fn command_key() -> Seq<char> {
    seq!['c', 'o', 'm', 'm', 'a', 'n', 'd']
}

pub open spec fn args_key() -> Seq<char> {
    seq!['a', 'r', 'g', 's']
}

pub open spec fn token_key() -> Seq<char> {
    seq!['t', 'o', 'k', 'e', 'n']
}

/// The token an envelope carries, or the empty token when it has none.
pub open spec fn token_of(env: Value) -> Seq<char> {
    match str_member(env, token_key()) {
        Some(t) => t,
        None => Seq::empty(),
    }
}

/// The first of `command`, `args` and `token` that the envelope lacks or
/// holds with the wrong type (`command` and `token` must be strings).
pub open spec fn malformed_part(env: Value) -> Option<Seq<char>> {
    if str_member(env, command_key()) is None {
        Some(command_key())
    } else if member(env, args_key()) is None {
        Some(args_key())
    } else if str_member(env, token_key()) is None {
        Some(token_key())
    } else {
        None
    }
}

pub open spec fn command_of(env: Value) -> Seq<char> {
    str_member(env, command_key()).unwrap()
}

pub open spec fn args_of(env: Value) -> Value {
    member(env, args_key()).unwrap()
}

/// A parsed invocation request.
#[derive(Debug)]
pub struct Request {
    pub command: String,
    pub args: Value,
    pub token: String,
}

/// The answer to one request, tagged with its token.
#[derive(Debug)]
pub struct Response {
    pub token: String,
    pub outcome: Result<Value, Failure>,
}

pub open spec fn outcome_view(o: Result<Value, Failure>) -> Result<Val, (ErrorKind, Seq<char>)> {
    match o {
        Ok(v) => Ok(v@),
        Err(f) => Err(f@),
    }
}

impl Response {
    pub open spec fn view(&self) -> (Seq<char>, Result<Val, (ErrorKind, Seq<char>)>) {
        (self.token@, outcome_view(self.outcome))
    }
}

/// Whether the handler runs for `command` on `args`: the command is
/// registered and the arguments fit its schema.
pub open spec fn runs_handler(table: Map<Seq<char>, Handler>, command: Seq<char>, args: Value) -> bool {
    table.contains_key(command) && first_bad(schema_of(table[command]), args) is None
}

/// The outcome of a well-formed request: resolve, check the arguments, run.
pub open spec fn answer(table: Map<Seq<char>, Handler>, command: Seq<char>, args: Value) -> Result<
    Val,
    (ErrorKind, Seq<char>),
> {
    if !table.contains_key(command) {
        Err((ErrorKind::CommandNotFound, command))
    } else {
        let h = table[command];
        match first_bad(schema_of(h), args) {
            Some(i) => Err((ErrorKind::ArgumentTypeMismatch, schema_of(h)[i].0)),
            None => match handler_result(h, args) {
                Ok(v) => Ok(v),
                Err(m) => Err((ErrorKind::HandlerFailed, m)),
            },
        }
    }
}

/// The response that an envelope gets.
pub open spec fn response_to(table: Map<Seq<char>, Handler>, env: Value) -> (
    Seq<char>,
    Result<Val, (ErrorKind, Seq<char>)>,
) {
    match malformed_part(env) {
        Some(part) => (token_of(env), Err((ErrorKind::MalformedRequest, part))),
        None => (token_of(env), answer(table, command_of(env), args_of(env))),
    }
}

/// Whether an envelope gets as far as running a handler.
pub open spec fn envelope_runs_handler(table: Map<Seq<char>, Handler>, env: Value) -> bool {
    malformed_part(env) is None && runs_handler(table, command_of(env), args_of(env))
}

/// A copy of the string member `key`, when there is one.
fn str_member_copy(fields: &Vec<crate::value::Field>, key: &String) -> (r: Option<String>)
    ensures
        match r {
            Some(s) => str_member(Value::Object(*fields), key@) == Some(s@),
            None => str_member(Value::Object(*fields), key@) is None,
        },
{
    match find_field(fields, key) {
        Some(i) => match &fields[i].value {
            Value::Str(s) => Some(s.clone()),
            _ => None,
        },
        None => None,
    }
}

/// Splits an envelope into command, arguments and token. An envelope that
/// lacks one of them gets a `MalformedRequest` response naming the first
/// missing part, with whatever token it carries.
pub fn parse_request(envelope: Value) -> (r: Result<Request, Response>)
    ensures
        match r {
            Ok(req) => malformed_part(envelope) is None && req.command@ == command_of(envelope)
                && req.args == args_of(envelope) && req.token@ == token_of(envelope),
            Err(resp) => malformed_part(envelope) is Some && resp@ == (
                token_of(envelope),
                Err::<Val, (ErrorKind, Seq<char>)>(
                    (ErrorKind::MalformedRequest, malformed_part(envelope).unwrap()),
                ),
            ),
        },
{
    let ck = String::from_str("command");
    let ak = String::from_str("args");
    let tk = String::from_str("token");
    proof {
        reveal_strlit("command");
        reveal_strlit("args");
        reveal_strlit("token");
        assert(ck@ =~= command_key());
        assert(ak@ =~= args_key());
        assert(tk@ =~= token_key());
    }
    match envelope {
        Value::Object(mut fields) => {
            let command = str_member_copy(&fields, &ck);
            let token = str_member_copy(&fields, &tk);
            let args_at = find_field(&fields, &ak);
            match (command, args_at, token) {
                (Some(c), Some(i), Some(t)) => {
                    let f = fields.swap_remove(i);
                    Ok(Request { command: c, args: f.value, token: t })
                },
                (c, a, t) => {
                    let part = if c.is_none() {
                        ck
                    } else if a.is_none() {
                        ak
                    } else {
                        tk
                    };
                    let token = match t {
                        Some(t) => t,
                        None => String::new(),
                    };
                    Err(
                        Response {
                            token,
                            outcome: Err(Failure { kind: ErrorKind::MalformedRequest, message: part }),
                        },
                    )
                },
            }
        },
        _ => Err(
            Response {
                token: String::new(),
                outcome: Err(Failure { kind: ErrorKind::MalformedRequest, message: ck }),
            },
        ),
    }
}

/// Resolves the command, checks the arguments against the handler's schema,
/// runs the handler and tags the outcome with the request's token. Each
/// handler run adds one to `invocations`.
pub fn dispatch_request(registry: &Registry, req: Request, invocations: &mut u64) -> (r: Response)
    requires
        registry.wf(),
        *old(invocations) < u64::MAX,
    ensures
        r@ == (req.token@, answer(registry@, req.command@, req.args)),
        *final(invocations) == *old(invocations) + if runs_handler(
            registry@,
            req.command@,
            req.args,
        ) {
            1int
        } else {
            0int
        },
{
    let Request { command, args, token } = req;
    match registry.resolve(command.as_str()) {
        Err(f) => Response { token, outcome: Err(f) },
        Ok(h) => {
            let params = h.schema();
            match first_mismatch(&params, &args) {
                Some(i) => {
                    assert(params@.map_values(|p: crate::handler::Param| p@)[i as int]
                        == params@[i as int]@);
                    Response {
                        token,
                        outcome: Err(
                            Failure {
                                kind: ErrorKind::ArgumentTypeMismatch,
                                message: params[i].name.clone(),
                            },
                        ),
                    }
                },
                None => {
                    *invocations = *invocations + 1;
                    match h.invoke(args) {
                        Ok(v) => Response { token, outcome: Ok(v) },
                        Err(m) => Response {
                            token,
                            outcome: Err(Failure { kind: ErrorKind::HandlerFailed, message: m }),
                        },
                    }
                },
            }
        },
    }
}

/// Answers one envelope: exactly one response, tagged with the envelope's
/// token. Each handler run adds one to `invocations`.
pub fn dispatch(registry: &Registry, envelope: Value, invocations: &mut u64) -> (r: Response)
    requires
        registry.wf(),
        *old(invocations) < u64::MAX,
    ensures
        r@ == response_to(registry@, envelope),
        *final(invocations) == *old(invocations) + if envelope_runs_handler(registry@, envelope) {
            1int
        } else {
            0int
        },
{
    match parse_request(envelope) {
        Ok(req) => dispatch_request(registry, req, invocations),
        Err(resp) => resp,
    }
}

/// Dispatching a well-formed request to a handler that echoes its input
/// answers with the arguments as they came, under the request's token.
pub proof fn lemma_echo_round_trip(table: Map<Seq<char>, Handler>, env: Value)
    requires
        malformed_part(env) is None,
        table.contains_key(command_of(env)),
        table[command_of(env)] == Handler::Echo,
    ensures
        response_to(table, env) == (token_of(env), Ok::<Val, (ErrorKind, Seq<char>)>(args_of(env)@)),
{
}

/// Two requests with the same command and arguments and distinct tokens get
/// the same outcome, under distinct tokens: handlers are pure.
pub proof fn lemma_same_request_same_outcome(table: Map<Seq<char>, Handler>, e1: Value, e2: Value)
    requires
        malformed_part(e1) is None,
        malformed_part(e2) is None,
        command_of(e1) == command_of(e2),
        args_of(e1) == args_of(e2),
        token_of(e1) != token_of(e2),
    ensures
        response_to(table, e1).1 == response_to(table, e2).1,
        response_to(table, e1).0 != response_to(table, e2).0,
{
}

/// Arguments that do not fit the resolved handler's schema get an
/// `ArgumentTypeMismatch` naming the first offending parameter, and the
/// handler does not run.
pub proof fn lemma_mismatch_skips_handler(table: Map<Seq<char>, Handler>, env: Value)
    requires
        malformed_part(env) is None,
        table.contains_key(command_of(env)),
        first_bad(schema_of(table[command_of(env)]), args_of(env)) is Some,
    ensures
        response_to(table, env).1 == Err::<Val, (ErrorKind, Seq<char>)>(
            (
                ErrorKind::ArgumentTypeMismatch,
                schema_of(table[command_of(env)])[first_bad(
                    schema_of(table[command_of(env)]),
                    args_of(env),
                ).unwrap()].0,
            ),
        ),
        !envelope_runs_handler(table, env),
{
}

} // verus!
