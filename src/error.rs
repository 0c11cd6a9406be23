use vstd::prelude::*;

verus! {

/// The kinds of failure the bridge reports.
#[derive(Clone, Copy, PartialEq, Eq, Structural, Debug)]
pub enum ErrorKind {
    /// A second handler was registered under a name already taken.
    DuplicateCommand,
    /// A request named a command that is not registered.
    CommandNotFound,
    /// The request envelope lacked a command, arguments or a token.
    MalformedRequest,
    /// The arguments did not supply a declared parameter with its type.
    ArgumentTypeMismatch,
    /// The handler ran and failed; its message is relayed as it is.
    HandlerFailed,
}

/// A failure: its kind, and the name or message it concerns.
#[derive(Debug)]
pub struct Failure {
    pub kind: ErrorKind,
    pub message: String,
}

impl Failure {
    pub open spec fn view(&self) -> (ErrorKind, Seq<char>) {
        (self.kind, self.message@)
    }
}

pub open spec fn kind_name(k: ErrorKind) -> Seq<char> {
    match k {
        ErrorKind::DuplicateCommand => seq![
            'D', 'u', 'p', 'l', 'i', 'c', 'a', 't', 'e', 'C', 'o', 'm', 'm', 'a', 'n', 'd',
        ],
        ErrorKind::CommandNotFound => seq![
            'C', 'o', 'm', 'm', 'a', 'n', 'd', 'N', 'o', 't', 'F', 'o', 'u', 'n', 'd',
        ],
        ErrorKind::MalformedRequest => seq![
            'M', 'a', 'l', 'f', 'o', 'r', 'm', 'e', 'd', 'R', 'e', 'q', 'u', 'e', 's', 't',
        ],
        ErrorKind::ArgumentTypeMismatch => seq![
            'A', 'r', 'g', 'u', 'm', 'e', 'n', 't', 'T', 'y', 'p', 'e', 'M', 'i', 's', 'm', 'a',
            't', 'c', 'h',
        ],
        ErrorKind::HandlerFailed => seq![
            'H', 'a', 'n', 'd', 'l', 'e', 'r', 'F', 'a', 'i', 'l', 'e', 'd',
        ],
    }
}

impl ErrorKind {
    /// The tag that names this kind in an outbound error envelope.
    pub fn name(&self) -> (r: String)
        ensures
            r@ == kind_name(*self),
    {
        match self {
            ErrorKind::DuplicateCommand => {
                let r = String::from_str("DuplicateCommand");
                proof {
                    reveal_strlit("DuplicateCommand");
                    assert(r@ =~= kind_name(*self));
                }
                r
            },
            ErrorKind::CommandNotFound => {
                let r = String::from_str("CommandNotFound");
                proof {
                    reveal_strlit("CommandNotFound");
                    assert(r@ =~= kind_name(*self));
                }
                r
            },
            ErrorKind::MalformedRequest => {
                let r = String::from_str("MalformedRequest");
                proof {
                    reveal_strlit("MalformedRequest");
                    assert(r@ =~= kind_name(*self));
                }
                r
            },
            ErrorKind::ArgumentTypeMismatch => {
                let r = String::from_str("ArgumentTypeMismatch");
                proof {
                    reveal_strlit("ArgumentTypeMismatch");
                    assert(r@ =~= kind_name(*self));
                }
                r
            },
            ErrorKind::HandlerFailed => {
                let r = String::from_str("HandlerFailed");
                proof {
                    reveal_strlit("HandlerFailed");
                    assert(r@ =~= kind_name(*self));
                }
                r
            },
        }
    }
}

} // verus!
