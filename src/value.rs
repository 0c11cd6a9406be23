use vstd::prelude::*;

verus! {

/// A structured value as it crosses the boundary between the UI layer and
/// the backend.
#[derive(Debug)]
pub enum Value {
    Null,
    Bool(bool),
    Int(i64),
    Str(String),
    Object(Vec<Field>),
}

/// One named entry of an object.
#[derive(Debug)]
pub struct Field {
    pub key: String,
    pub value: Value,
}

/// The mathematical model of a `Value`: strings as sequences of characters.
pub enum Val {
    Null,
    Bool(bool),
    Int(int),
    Str(Seq<char>),
    Object(Seq<(Seq<char>, Val)>),
}

impl Value {
    pub open spec fn view(&self) -> Val
        decreases self,
    {
        match self {
            Value::Null => Val::Null,
            Value::Bool(b) => Val::Bool(*b),
            Value::Int(n) => Val::Int(*n as int),
            Value::Str(s) => Val::Str(s@),
            Value::Object(fs) => Val::Object(
                Seq::new(
                    fs.len() as nat,
                    |i: int|
                        if 0 <= i < fs.len() {
                            (fs[i].key@, fs[i].value.view())
                        } else {
                            (Seq::empty(), Val::Null)
                        },
                ),
            ),
        }
    }
}

/// The value of the first field named `key`, if any.
pub open spec fn field_value(fields: Seq<Field>, key: Seq<char>) -> Option<Value>
    decreases fields.len(),
{
    if fields.len() == 0 {
        None
    } else if fields[0].key@ == key {
        Some(fields[0].value)
    } else {
        field_value(fields.drop_first(), key)
    }
}

/// The member `key` of an object; nothing for any other value.
pub open spec fn member(v: Value, key: Seq<char>) -> Option<Value> {
    match v {
        Value::Object(fs) => field_value(fs@, key),
        _ => None,
    }
}

/// The member `key` of an object, when it is a string.
pub open spec fn str_member(v: Value, key: Seq<char>) -> Option<Seq<char>> {
    match member(v, key) {
        Some(Value::Str(s)) => Some(s@),
        _ => None,
    }
}

/// The index of the first field named `key`, if any.
pub fn find_field(fields: &Vec<Field>, key: &String) -> (r: Option<usize>)
    ensures
        match r {
            Some(i) => i < fields@.len() && fields@[i as int].key@ == key@ && field_value(
                fields@,
                key@,
            ) == Some(fields@[i as int].value),
            None => field_value(fields@, key@) is None,
        },
{
    let mut i: usize = 0;
    assert(fields@.subrange(0, fields@.len() as int) =~= fields@);
    while i < fields.len()
        invariant
            i <= fields@.len(),
            field_value(fields@, key@) == field_value(fields@.subrange(i as int, fields@.len() as int), key@),
        decreases fields@.len() - i,
    {
        let ghost rest = fields@.subrange(i as int, fields@.len() as int);
        assert(rest.drop_first() =~= fields@.subrange(i + 1, fields@.len() as int));
        assert(rest[0] == fields@[i as int]);
        if fields[i].key == *key {
            return Some(i);
        }
        i = i + 1;
    }
    assert(fields@.subrange(i as int, fields@.len() as int).len() == 0);
    None
}

} // verus!
