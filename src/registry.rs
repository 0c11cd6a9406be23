use vstd::prelude::*;

use crate::error::{ErrorKind, Failure};
use crate::handler::Handler;

verus! {

/// A registered command: its unique name and the handler behind it.
struct Command {
    name: String,
    handler: Handler,
}

/// The table from command name to handler, built before the bridge accepts
/// requests and only read afterwards.
pub struct Registry {
    commands: Vec<Command>,
    table: Ghost<Map<Seq<char>, Handler>>,
}

/// The table after `register(name, h)`, and whether that registration failed
/// as a duplicate.
pub open spec fn registered(
    table: Map<Seq<char>, Handler>,
    name: Seq<char>,
    h: Handler,
) -> (Map<Seq<char>, Handler>, Result<(), ErrorKind>) {
    if table.contains_key(name) {
        (table, Err(ErrorKind::DuplicateCommand))
    } else {
        (table.insert(name, h), Ok(()))
    }
}

/// What `resolve(name)` gives on a table.
pub open spec fn resolved(table: Map<Seq<char>, Handler>, name: Seq<char>) -> Result<
    Handler,
    ErrorKind,
> {
    if table.contains_key(name) {
        Ok(table[name])
    } else {
        Err(ErrorKind::CommandNotFound)
    }
}

pub open spec fn failure_kind<T>(r: Result<T, Failure>) -> Result<T, ErrorKind> {
    match r {
        Ok(v) => Ok(v),
        Err(f) => Err(f.kind),
    }
}

/// The table after registering each `(name, handler)` of `regs` in order.
pub open spec fn register_all(
    table: Map<Seq<char>, Handler>,
    regs: Seq<(Seq<char>, Handler)>,
) -> Map<Seq<char>, Handler>
    decreases regs.len(),
{
    if regs.len() == 0 {
        table
    } else {
        register_all(registered(table, regs[0].0, regs[0].1).0, regs.drop_first())
    }
}

/// The handler of the first registration of `name` in `regs`, if any.
pub open spec fn first_registration(regs: Seq<(Seq<char>, Handler)>, name: Seq<char>) -> Option<
    Handler,
>
    decreases regs.len(),
{
    if regs.len() == 0 {
        None
    } else if regs[0].0 == name {
        Some(regs[0].1)
    } else {
        first_registration(regs.drop_first(), name)
    }
}

/// After a run of registrations on an empty table, every registered name
/// resolves to the handler given at its first registration (later ones are
/// refused as duplicates), and every other name fails with `CommandNotFound`.
pub proof fn lemma_resolve_after_registrations(regs: Seq<(Seq<char>, Handler)>, name: Seq<char>)
    ensures
        resolved(register_all(Map::empty(), regs), name) == match first_registration(regs, name) {
            Some(h) => Ok(h),
            None => Err(ErrorKind::CommandNotFound),
        },
{
    lemma_register_all_keeps(Map::empty(), regs, name);
}

proof fn lemma_register_all_keeps(
    table: Map<Seq<char>, Handler>,
    regs: Seq<(Seq<char>, Handler)>,
    name: Seq<char>,
)
    ensures
        resolved(register_all(table, regs), name) == if table.contains_key(name) {
            Ok(table[name])
        } else {
            match first_registration(regs, name) {
                Some(h) => Ok(h),
                None => Err(ErrorKind::CommandNotFound),
            }
        },
    decreases regs.len(),
{
    if regs.len() > 0 {
        lemma_register_all_keeps(registered(table, regs[0].0, regs[0].1).0, regs.drop_first(), name);
    }
}

/// Registering a second handler under a name fails with `DuplicateCommand`
/// and leaves the first registration in place.
pub proof fn lemma_duplicate_keeps_first(
    table: Map<Seq<char>, Handler>,
    name: Seq<char>,
    first: Handler,
    second: Handler,
)
    requires
        !table.contains_key(name),
    ensures
        registered(registered(table, name, first).0, name, second) == (
            registered(table, name, first).0,
            Err::<(), ErrorKind>(ErrorKind::DuplicateCommand),
        ),
        resolved(registered(table, name, first).0, name) == Ok::<Handler, ErrorKind>(first),
{
}

impl View for Registry {
    type V = Map<Seq<char>, Handler>;

    closed spec fn view(&self) -> Map<Seq<char>, Handler> {
        self.table@
    }
}

impl Registry {
    /// The ghost table lists exactly the commands, whose names are non-empty
    /// and pairwise distinct.
    pub closed spec fn wf(&self) -> bool {
        let cs = self.commands@;
        &&& forall|i: int|
            #![trigger cs[i]]
            0 <= i < cs.len() ==> cs[i].name@.len() > 0 && self.table@.contains_key(
                cs[i].name@,
            ) && self.table@[cs[i].name@] == cs[i].handler
        &&& forall|n: Seq<char>|
            #[trigger] self.table@.contains_key(n) ==> exists|i: int|
                0 <= i < cs.len() && #[trigger] cs[i].name@ == n
        &&& forall|i: int, j: int|
            0 <= i < j < cs.len() ==> #[trigger] cs[i].name@ != #[trigger] cs[j].name@
    }

    /// An empty registry.
    pub fn new() -> (r: Registry)
        ensures
            r.wf(),
            r@ == Map::<Seq<char>, Handler>::empty(),
    {
        Registry { commands: Vec::new(), table: Ghost(Map::empty()) }
    }

    /// The position of the command named `name`, if registered.
    fn position(&self, name: &str) -> (r: Option<usize>)
        requires
            self.wf(),
        ensures
            match r {
                Some(i) => i < self.commands@.len() && self.commands@[i as int].name@ == name@
                    && self@.contains_key(name@) && self@[name@] == self.commands@[i as int].handler,
                None => !self@.contains_key(name@),
            },
    {
        let key = String::from_str(name);
        let mut i: usize = 0;
        while i < self.commands.len()
            invariant
                self.wf(),
                key@ == name@,
                i <= self.commands@.len(),
                forall|j: int| 0 <= j < i ==> #[trigger] self.commands@[j].name@ != name@,
            decreases self.commands@.len() - i,
        {
            if self.commands[i].name == key {
                return Some(i);
            }
            i = i + 1;
        }
        None
    }

    /// Adds `handler` under `name`; fails with `DuplicateCommand`, naming it,
    /// when the name is taken, and then leaves the table as it was.
    pub fn register(&mut self, name: String, handler: Handler) -> (r: Result<(), Failure>)
        requires
            old(self).wf(),
            name@.len() > 0,
        ensures
            final(self).wf(),
            (final(self)@, failure_kind(r)) == registered(old(self)@, name@, handler),
            r matches Err(f) ==> f.message@ == name@,
    {
        match self.position(name.as_str()) {
            Some(_) => Err(Failure { kind: ErrorKind::DuplicateCommand, message: name }),
            None => {
                let ghost old_cs = self.commands@;
                let ghost n = name@;
                self.commands.push(Command { name, handler });
                self.table = Ghost(self.table@.insert(n, handler));
                proof {
                    let cs = self.commands@;
                    assert(cs[old_cs.len() as int].name@ == n);
                    assert forall|m: Seq<char>| #[trigger]
                        self.table@.contains_key(m) implies exists|i: int|
                        0 <= i < cs.len() && #[trigger] cs[i].name@ == m by {
                        if m != n {
                            let i = choose|i: int| 0 <= i < old_cs.len() && #[trigger] old_cs[i].name@ == m;
                            assert(cs[i] == old_cs[i]);
                        }
                    }
                    assert forall|i: int| #![trigger cs[i]] 0 <= i < cs.len() implies cs[i].name@.len() > 0
                        && self.table@.contains_key(cs[i].name@) && self.table@[cs[i].name@]
                        == cs[i].handler by {
                        if i < old_cs.len() {
                            assert(cs[i] == old_cs[i]);
                        }
                    }
                    assert forall|i: int, j: int|
                        0 <= i < j < cs.len() implies #[trigger] cs[i].name@ != #[trigger] cs[j].name@ by {
                        assert(cs[i] == old_cs[i]);
                        if j < old_cs.len() {
                            assert(cs[j] == old_cs[j]);
                        }
                    }
                }
                Ok(())
            },
        }
    }

    /// The handler registered under exactly `name`; `CommandNotFound`, naming
    /// it, when there is none.
    pub fn resolve(&self, name: &str) -> (r: Result<Handler, Failure>)
        requires
            self.wf(),
        ensures
            failure_kind(r) == resolved(self@, name@),
            r matches Err(f) ==> f.message@ == name@,
    {
        match self.position(name) {
            Some(i) => Ok(self.commands[i].handler),
            None => Err(Failure { kind: ErrorKind::CommandNotFound, message: String::from_str(name) }),
        }
    }
}

} // verus!
