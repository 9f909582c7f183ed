use vstd::prelude::*;

verus! {

/// What a task does with the sidecar of one source file.
#[derive(Clone, Copy, Debug, PartialEq, Eq, Structural)]
pub enum Operation {
    /// The sidecar exists and is replaced by a fresh encoding.
    Update,
    /// No sidecar exists; one is written.
    Create,
    /// The sidecar already decodes to the current source; nothing is written.
    Noop,
}

/// The line printed for a processed sidecar: `+path` when created, `*path`
/// when updated, nothing for `Noop`.
pub open spec fn report_line_spec(op: Operation, path: Seq<char>) -> Option<Seq<char>> {
    match op {
        Operation::Create => Some(seq!['+'] + path),
        Operation::Update => Some(seq!['*'] + path),
        Operation::Noop => None,
    }
}

impl Operation {
    /// Whether a task with this operation produces a new encoding.
    pub open spec fn encodes(self) -> bool {
        self != Operation::Noop
    }

    /// The report line for the sidecar at `path`, if any.
    pub fn report_line(&self, path: &str) -> (r: Option<String>)
        ensures
            r matches Some(s) ==> report_line_spec(*self, path@) == Some(s@),
            r is None <==> report_line_spec(*self, path@) is None,
    {
        match self {
            Operation::Create => {
                let mut s = String::from_str("+");
                s.append(path);
                proof {
                    reveal_strlit("+");
                }
                Some(s)
            },
            Operation::Update => {
                let mut s = String::from_str("*");
                s.append(path);
                proof {
                    reveal_strlit("*");
                }
                Some(s)
            },
            Operation::Noop => None,
        }
    }
}

} // verus!
