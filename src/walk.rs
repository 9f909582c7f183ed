use crate::filter::ExtensionFilter;
use vstd::prelude::*;

verus! {

/// What the traversal does with one directory entry.
#[derive(Clone, Copy, Debug, PartialEq, Eq, Structural)]
pub enum EntryAction {
    /// Neither descended into nor compressed.
    Skip,
    /// A directory to traverse.
    Descend,
    /// A file to compress.
    Candidate,
}

/// A name that starts with a dot: hidden, never traversed or compressed.
pub open spec fn is_hidden(name: Seq<char>) -> bool {
    name.len() > 0 && name[0] == '.'
}

/// A name that ends in `.br`: a sidecar, never a source itself.
pub open spec fn is_sidecar(name: Seq<char>) -> bool {
    &&& name.len() >= 3
    &&& name[name.len() - 3] == '.'
    &&& name[name.len() - 2] == 'b'
    &&& name[name.len() - 1] == 'r'
}

/// The index of the last dot among the first `end` characters, or -1.
pub open spec fn last_dot(name: Seq<char>, end: int) -> int
    decreases end,
{
    if end <= 0 {
        -1
    } else if name[end - 1] == '.' {
        end - 1
    } else {
        last_dot(name, end - 1)
    }
}

/// The extension of a name: what follows its last dot, if it has one.
pub open spec fn extension_of(name: Seq<char>) -> Option<Seq<char>> {
    let d = last_dot(name, name.len() as int);
    if d < 0 {
        None
    } else {
        Some(name.subrange(d + 1, name.len() as int))
    }
}

/// The traversal's rule for an entry named `name`, given the allowed
/// extensions.
pub open spec fn entry_action_spec(allowed: Set<Seq<char>>, name: Seq<char>, is_dir: bool) -> EntryAction {
    if is_hidden(name) {
        EntryAction::Skip
    } else if is_dir {
        EntryAction::Descend
    } else if is_sidecar(name) {
        EntryAction::Skip
    } else {
        match extension_of(name) {
            Some(e) => if allowed.contains(e) {
                EntryAction::Candidate
            } else {
                EntryAction::Skip
            },
            None => EntryAction::Skip,
        }
    }
}

/// Whether an entry named `name` is hidden. Hidden entries are skipped
/// before anything else is learnt of them.
pub fn is_hidden_name(name: &str) -> (r: bool)
    ensures
        r == is_hidden(name@),
{
    name.unicode_len() > 0 && name.get_char(0) == '.'
}

/// The index of the last dot in `name`, if any.
fn find_last_dot(name: &str) -> (r: Option<usize>)
    ensures
        r matches Some(d) ==> d as int == last_dot(name@, name@.len() as int),
        r is None ==> last_dot(name@, name@.len() as int) < 0,
{
    let mut end: usize = name.unicode_len();
    while end > 0
        invariant
            end <= name@.len(),
            last_dot(name@, name@.len() as int) == last_dot(name@, end as int),
        decreases end,
    {
        if name.get_char(end - 1) == '.' {
            return Some(end - 1);
        }
        end = end - 1;
    }
    None
}

/// Decides what the traversal does with an entry named `name`.
pub fn entry_action(filter: &ExtensionFilter, name: &str, is_dir: bool) -> (r: EntryAction)
    ensures
        r == entry_action_spec(filter@, name@, is_dir),
{
    if is_hidden_name(name) {
        return EntryAction::Skip;
    }
    let len = name.unicode_len();
    if is_dir {
        return EntryAction::Descend;
    }
    if len >= 3 && name.get_char(len - 3) == '.' && name.get_char(len - 2) == 'b'
        && name.get_char(len - 1) == 'r' {
        return EntryAction::Skip;
    }
    match find_last_dot(name) {
        Some(d) => {
            proof {
                lemma_last_dot_bounds(name@, name@.len() as int);
            }
            let extension = name.substring_char(d + 1, len);
            if filter.contains(extension) {
                EntryAction::Candidate
            } else {
                EntryAction::Skip
            }
        },
        None => EntryAction::Skip,
    }
}

/// The last dot, where there is one, lies before `end`.
proof fn lemma_last_dot_bounds(name: Seq<char>, end: int)
    requires
        0 <= end <= name.len(),
    ensures
        last_dot(name, end) < end,
        last_dot(name, end) >= 0 ==> name[last_dot(name, end)] == '.',
    decreases end,
{
    if end > 0 && name[end - 1] != '.' {
        lemma_last_dot_bounds(name, end - 1);
    }
}

/// A hidden entry is skipped, whatever its kind and extension: it is
/// neither descended into nor compressed.
pub proof fn lemma_hidden_never_visited(allowed: Set<Seq<char>>, name: Seq<char>, is_dir: bool)
    requires
        is_hidden(name),
    ensures
        entry_action_spec(allowed, name, is_dir) == EntryAction::Skip,
{
}

/// A file whose extension is not allowed, or which has none, is never a
/// candidate, so no task encodes, decodes or reports it.
pub proof fn lemma_unlisted_extension_skipped(allowed: Set<Seq<char>>, name: Seq<char>, is_dir: bool)
    requires
        match extension_of(name) {
            Some(e) => !allowed.contains(e),
            None => true,
        },
    ensures
        entry_action_spec(allowed, name, is_dir) != EntryAction::Candidate,
{
}

/// A file to compress: its name, and where it is.
pub struct Candidate<P> {
    pub filename: String,
    pub path: P,
}

/// A traversal in progress: the directories still to read, and the
/// candidates found so far. The caller reads each directory that
/// `next_dir` hands out and reports its entries to `visit`.
pub struct Walk<P> {
    filter: ExtensionFilter,
    pending: Vec<P>,
    found: Vec<Candidate<P>>,
}

impl<P> Walk<P> {
    /// The extensions that this traversal admits.
    pub closed spec fn allowed(&self) -> Set<Seq<char>> {
        self.filter@
    }

    /// The directories still to read.
    pub closed spec fn pending(&self) -> Seq<P> {
        self.pending@
    }

    /// The candidates found so far.
    pub closed spec fn found(&self) -> Seq<Candidate<P>> {
        self.found@
    }

    /// Every candidate found is a non-hidden file, not a sidecar, with an
    /// allowed extension.
    pub open spec fn wf(&self) -> bool {
        forall|i: int|
            0 <= i < self.found().len() ==> entry_action_spec(
                self.allowed(),
                #[trigger] self.found()[i].filename@,
                false,
            ) == EntryAction::Candidate
    }

    /// A traversal that starts at `root`.
    pub fn new(filter: ExtensionFilter, root: P) -> (r: Self)
        ensures
            r.wf(),
            r.allowed() == filter@,
            r.pending() == seq![root],
            r.found().len() == 0,
    {
        let mut pending: Vec<P> = Vec::new();
        pending.push(root);
        Walk { filter, pending, found: Vec::new() }
    }

    /// Hands out the next directory to read, or `None` when the traversal
    /// is complete.
    pub fn next_dir(&mut self) -> (r: Option<P>)
        requires
            old(self).wf(),
        ensures
            final(self).wf(),
            final(self).allowed() == old(self).allowed(),
            final(self).found() == old(self).found(),
            old(self).pending().len() == 0 ==> r is None && final(self).pending() == old(self).pending(),
            old(self).pending().len() > 0 ==> r == Some(old(self).pending().last())
                && final(self).pending() == old(self).pending().drop_last(),
    {
        self.pending.pop()
    }

    /// Takes in one entry of a directory that was handed out: a directory
    /// to read later, a candidate, or nothing.
    pub fn visit(&mut self, name: String, is_dir: bool, path: P) -> (r: EntryAction)
        requires
            old(self).wf(),
        ensures
            final(self).wf(),
            r == entry_action_spec(old(self).allowed(), name@, is_dir),
            final(self).allowed() == old(self).allowed(),
            r == EntryAction::Descend ==> final(self).pending() == old(self).pending().push(path)
                && final(self).found() == old(self).found(),
            r == EntryAction::Candidate ==> final(self).found() == old(self).found().push(
                Candidate { filename: name, path },
            ) && final(self).pending() == old(self).pending(),
            r == EntryAction::Skip ==> final(self).found() == old(self).found()
                && final(self).pending() == old(self).pending(),
    {
        let action = entry_action(&self.filter, name.as_str(), is_dir);
        match action {
            EntryAction::Descend => {
                self.pending.push(path);
            },
            EntryAction::Candidate => {
                let ghost name_view = name@;
                self.found.push(Candidate { filename: name, path });
                assert(self.found@.last().filename@ == name_view);
            },
            EntryAction::Skip => {},
        }
        action
    }

    /// The candidates found, once the traversal is complete.
    pub fn into_candidates(self) -> (r: Vec<Candidate<P>>)
        requires
            self.wf(),
        ensures
            r@ == self.found(),
            forall|i: int|
                0 <= i < r@.len() ==> entry_action_spec(
                    self.allowed(),
                    #[trigger] r@[i].filename@,
                    false,
                ) == EntryAction::Candidate,
    {
        self.found
    }
}

} // verus!
