use vstd::prelude::*;

use crate::greet;
use crate::value::{field_value, find_field, member, str_member, Val, Value};

verus! {

/// The backend operations that can be registered under a command name.
#[derive(Clone, Copy, PartialEq, Eq, Structural, Debug)]
pub enum Handler {
    /// Takes `{ name: string }` and returns a greeting for that name.
    Greet,
    /// Takes any payload and returns it unchanged.
    Echo,
    /// Takes `{ message: string }` and fails with that message.
    Raise,
}

/// The type that a declared parameter expects.
#[derive(Clone, Copy, PartialEq, Eq, Structural, Debug)]
pub enum ParamType {
    Str,
    Int,
    Bool,
}

/// One entry of a handler's parameter schema.
pub struct Param {
    pub name: String,
    pub ty: ParamType,
}

impl Param {
    pub open spec fn view(&self) -> (Seq<char>, ParamType) {
        (self.name@, self.ty)
    }
}

pub open spec fn greeting(name: Seq<char>) -> Seq<char> {
    seq!['H', 'e', 'l', 'l', 'o', ',', ' '] + name + seq!['!']
}

pub open spec fn name_key() -> Seq<char> {
    seq!['n', 'a', 'm', 'e']
}

pub open spec fn message_key() -> Seq<char> {
    seq!['m', 'e', 's', 's', 'a', 'g', 'e']
}

/// The ordered parameter schema that each handler declares.
pub open spec fn schema_of(h: Handler) -> Seq<(Seq<char>, ParamType)> {
    match h {
        Handler::Greet => seq![(name_key(), ParamType::Str)],
        Handler::Echo => Seq::empty(),
        Handler::Raise => seq![(message_key(), ParamType::Str)],
    }
}

/// Whether an argument, present or not, has the type a parameter expects.
pub open spec fn fits(v: Option<Value>, ty: ParamType) -> bool {
    match (v, ty) {
        (Some(Value::Str(_)), ParamType::Str) => true,
        (Some(Value::Int(_)), ParamType::Int) => true,
        (Some(Value::Bool(_)), ParamType::Bool) => true,
        _ => false,
    }
}

pub open spec fn param_fits(p: (Seq<char>, ParamType), args: Value) -> bool {
    fits(member(args, p.0), p.1)
}

/// The position of the first parameter that `args` does not supply with the
/// expected type.
pub open spec fn first_bad(params: Seq<(Seq<char>, ParamType)>, args: Value) -> Option<int>
    decreases params.len(),
{
    if params.len() == 0 {
        None
    } else if !param_fits(params[0], args) {
        Some(0)
    } else {
        match first_bad(params.drop_first(), args) {
            Some(i) => Some(i + 1),
            None => None,
        }
    }
}

/// What a handler computes from arguments that fit its schema: a success
/// payload or its own error message.
pub open spec fn handler_result(h: Handler, args: Value) -> Result<Val, Seq<char>> {
    match h {
        Handler::Greet => Ok(Val::Str(greeting(str_member(args, name_key()).unwrap()))),
        Handler::Echo => Ok(args@),
        Handler::Raise => Err(str_member(args, message_key()).unwrap()),
    }
}

pub open spec fn result_view(r: Result<Value, String>) -> Result<Val, Seq<char>> {
    match r {
        Ok(v) => Ok(v@),
        Err(m) => Err(m@),
    }
}

proof fn lemma_first_bad_at(params: Seq<(Seq<char>, ParamType)>, args: Value, i: int)
    requires
        0 <= i <= params.len(),
        forall|j: int| 0 <= j < i ==> param_fits(#[trigger] params[j], args),
        i < params.len() ==> !param_fits(params[i], args),
    ensures
        first_bad(params, args) == (if i < params.len() {
            Some(i)
        } else {
            None::<int>
        }),
    decreases params.len(),
{
    if params.len() > 0 && i > 0 {
        let rest = params.drop_first();
        assert(param_fits(params[0], args));
        assert forall|j: int| 0 <= j < i - 1 implies param_fits(#[trigger] rest[j], args) by {
            assert(rest[j] == params[j + 1]);
        }
        if i < params.len() {
            assert(rest[i - 1] == params[i]);
        }
        lemma_first_bad_at(rest, args, i - 1);
    }
}

/// The index of a string member named `key`, when there is one.
fn str_member_index(args: &Value, key: &String) -> (r: Option<usize>)
    ensures
        match r {
            Some(i) => args matches Value::Object(fs) && i < fs@.len() && member(*args, key@) == Some(
                fs@[i as int].value,
            ) && fs@[i as int].value is Str,
            None => !(member(*args, key@) matches Some(Value::Str(_))),
        },
{
    match args {
        Value::Object(fs) => {
            match find_field(fs, key) {
                Some(i) => match &fs[i].value {
                    Value::Str(_) => Some(i),
                    _ => None,
                },
                None => None,
            }
        },
        _ => None,
    }
}

/// Whether `args` supplies parameter `p` with the type it expects.
fn arg_fits(args: &Value, p: &Param) -> (r: bool)
    ensures
        r == param_fits(p@, *args),
{
    match args {
        Value::Object(fs) => match find_field(fs, &p.name) {
            Some(i) => match (&fs[i].value, p.ty) {
                (Value::Str(_), ParamType::Str) => true,
                (Value::Int(_), ParamType::Int) => true,
                (Value::Bool(_), ParamType::Bool) => true,
                _ => false,
            },
            None => false,
        },
        _ => false,
    }
}

/// Checks `args` against a parameter schema, in order, and returns the
/// position of the first parameter that is missing or of the wrong type.
pub fn first_mismatch(params: &Vec<Param>, args: &Value) -> (r: Option<usize>)
    ensures
        match r {
            Some(i) => i < params@.len() && first_bad(params@.map_values(|p: Param| p@), *args)
                == Some(i as int),
            None => first_bad(params@.map_values(|p: Param| p@), *args) is None,
        },
{
    let ghost ps = params@.map_values(|p: Param| p@);
    let mut i: usize = 0;
    while i < params.len()
        invariant
            i <= params@.len(),
            ps == params@.map_values(|p: Param| p@),
            forall|j: int| 0 <= j < i ==> param_fits(#[trigger] ps[j], *args),
        decreases params@.len() - i,
    {
        if !arg_fits(args, &params[i]) {
            proof {
                lemma_first_bad_at(ps, *args, i as int);
            }
            return Some(i);
        }
        i = i + 1;
    }
    proof {
        lemma_first_bad_at(ps, *args, i as int);
    }
    None
}

impl Handler {
    /// The ordered parameter schema this handler declares.
    pub fn schema(&self) -> (r: Vec<Param>)
        ensures
            r@.map_values(|p: Param| p@) == schema_of(*self),
    {
        let mut r: Vec<Param> = Vec::new();
        match self {
            Handler::Greet => {
                r.push(Param { name: String::from_str("name"), ty: ParamType::Str });
                proof {
                    reveal_strlit("name");
                    assert(r@[0].name@ =~= name_key());
                }
            },
            Handler::Echo => {},
            Handler::Raise => {
                r.push(Param { name: String::from_str("message"), ty: ParamType::Str });
                proof {
                    reveal_strlit("message");
                    assert(r@[0].name@ =~= message_key());
                }
            },
        }
        assert(r@.map_values(|p: Param| p@) =~= schema_of(*self));
        r
    }

    /// Runs the handler on arguments that fit its schema.
    pub fn invoke(&self, args: Value) -> (r: Result<Value, String>)
        requires
            first_bad(schema_of(*self), args) is None,
        ensures
            result_view(r) == handler_result(*self, args),
            *self == Handler::Echo ==> r == Ok::<Value, String>(args),
    {
        match self {
            Handler::Greet => {
                let key = String::from_str("name");
                proof {
                    reveal_strlit("name");
                    assert(key@ =~= name_key());
                    assert(!param_fits(schema_of(*self)[0], args) ==> first_bad(schema_of(*self), args) == Some(0int));
                }
                match str_member_index(&args, &key) {
                    Some(i) => match &args {
                        Value::Object(fs) => match &fs[i].value {
                            Value::Str(s) => Ok(Value::Str(greet(s.as_str()))),
                            _ => Ok(Value::Null),
                        },
                        _ => Ok(Value::Null),
                    },
                    None => Ok(Value::Null),
                }
            },
            Handler::Echo => Ok(args),
            Handler::Raise => {
                let key = String::from_str("message");
                proof {
                    reveal_strlit("message");
                    assert(key@ =~= message_key());
                    assert(!param_fits(schema_of(*self)[0], args) ==> first_bad(schema_of(*self), args) == Some(0int));
                }
                match str_member_index(&args, &key) {
                    Some(i) => match &args {
                        Value::Object(fs) => match &fs[i].value {
                            Value::Str(s) => Err(s.clone()),
                            _ => Err(String::new()),
                        },
                        _ => Err(String::new()),
                    },
                    None => Err(String::new()),
                }
            },
        }
    }
}

} // verus!
