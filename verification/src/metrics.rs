use vstd::prelude::*;

verus! {

/// The kinds of tool.
#[derive(Clone, Copy, Debug, PartialEq, Eq)]
pub enum ToolKind {
    Read,
    ReadImage,
    Write,
    Search,
    Remove,
    Patch,
    Undo,
    Shell,
    Fetch,
    Followup,
    Plan,
    Skill,
}

/// What one tool did to one file.
#[derive(Debug)]
pub struct FileOperation {
    pub lines_added: u64,
    pub lines_removed: u64,
    /// Hash of the file's content after the operation, `None` when the file
    /// is gone.
    pub content_hash: Option<String>,
    pub tool: ToolKind,
}

/// A file operation as plain values.
pub struct FileChange {
    pub lines_added: nat,
    pub lines_removed: nat,
    pub content_hash: Option<Seq<char>>,
    pub tool: ToolKind,
}

impl View for FileOperation {
    type V = FileChange;

    open spec fn view(&self) -> FileChange {
        FileChange {
            lines_added: self.lines_added as nat,
            lines_removed: self.lines_removed as nat,
            content_hash: match self.content_hash {
                Some(h) => Some(h@),
                None => None,
            },
            tool: self.tool,
        }
    }
}

impl FileOperation {
    /// An operation of the given tool that adds and removes no lines and
    /// knows no hash.
    pub fn new(tool: ToolKind) -> (out: FileOperation)
        ensures
            out@ == (FileChange { lines_added: 0, lines_removed: 0, content_hash: None, tool }),
    {
        FileOperation { lines_added: 0, lines_removed: 0, content_hash: None, tool }
    }

    /// Sets the number of lines added.
    pub fn lines_added(self, lines_added: u64) -> (out: FileOperation)
        ensures
            out@ == (FileChange { lines_added: lines_added as nat, ..self@ }),
    {
        let mut out = self;
        out.lines_added = lines_added;
        out
    }

    /// Sets the number of lines removed.
    pub fn lines_removed(self, lines_removed: u64) -> (out: FileOperation)
        ensures
            out@ == (FileChange { lines_removed: lines_removed as nat, ..self@ }),
    {
        let mut out = self;
        out.lines_removed = lines_removed;
        out
    }

    /// Sets the content hash.
    pub fn content_hash(self, content_hash: Option<String>) -> (out: FileOperation)
        ensures
            out@ == (FileChange {
                content_hash: match content_hash {
                    Some(h) => Some(h@),
                    None => None,
                },
                ..self@
            }),
    {
        let mut out = self;
        out.content_hash = content_hash;
        out
    }
}

/// The file operations of a session, one for each path that was touched.
#[derive(Debug)]
pub struct Metrics {
    pub file_operations: Vec<(String, FileOperation)>,
}

/// The operations recorded in a list of entries, by path. A later entry for a
/// path takes the place of an earlier one.
pub open spec fn ledger(entries: Seq<(String, FileOperation)>) -> Map<Seq<char>, FileChange>
    decreases entries.len(),
{
    if entries.len() == 0 {
        Map::empty()
    } else {
        ledger(entries.drop_last()).insert(entries.last().0@, entries.last().1@)
    }
}

/// No path occurs twice.
pub open spec fn distinct_paths(entries: Seq<(String, FileOperation)>) -> bool {
    forall|i: int, j: int|
        0 <= i < j < entries.len() ==> (#[trigger] entries[i]).0@ != (#[trigger] entries[j]).0@
}

/// A path is recorded exactly when an entry holds it.
pub proof fn lemma_ledger_dom(entries: Seq<(String, FileOperation)>, path: Seq<char>)
    ensures
        ledger(entries).dom().contains(path) <==> exists|i: int|
            0 <= i < entries.len() && (#[trigger] entries[i]).0@ == path,
    decreases entries.len(),
{
    if entries.len() > 0 {
        let front = entries.drop_last();
        lemma_ledger_dom(front, path);
        if ledger(entries).dom().contains(path) {
            if entries.last().0@ == path {
                assert(entries[entries.len() - 1].0@ == path);
            } else {
                let i = choose|i: int| 0 <= i < front.len() && (#[trigger] front[i]).0@ == path;
                assert(entries[i].0@ == path);
            }
        }
        if exists|i: int| 0 <= i < entries.len() && (#[trigger] entries[i]).0@ == path {
            let i = choose|i: int| 0 <= i < entries.len() && (#[trigger] entries[i]).0@ == path;
            if i < entries.len() - 1 {
                assert(front[i].0@ == path);
            }
        }
    }
}

/// Putting a new entry in the place of the one that holds its path records
/// the new operation under that path and changes nothing else.
pub proof fn lemma_ledger_update(
    entries: Seq<(String, FileOperation)>,
    i: int,
    entry: (String, FileOperation),
)
    requires
        distinct_paths(entries),
        0 <= i < entries.len(),
        entries[i].0@ == entry.0@,
    ensures
        ledger(entries.update(i, entry)) == ledger(entries).insert(entry.0@, entry.1@),
        distinct_paths(entries.update(i, entry)),
    decreases entries.len(),
{
    let updated = entries.update(i, entry);
    assert(distinct_paths(updated)) by {
        assert forall|a: int, b: int| 0 <= a < b < updated.len() implies (#[trigger] updated[a]).0@
            != (#[trigger] updated[b]).0@ by {
            assert(entries[a].0@ != entries[b].0@);
        }
    }
    if i == entries.len() - 1 {
        assert(updated.drop_last() =~= entries.drop_last());
        assert(ledger(updated) =~= ledger(entries).insert(entry.0@, entry.1@));
    } else {
        let front = entries.drop_last();
        assert(distinct_paths(front)) by {
            assert forall|a: int, b: int| 0 <= a < b < front.len() implies (#[trigger] front[a]).0@
                != (#[trigger] front[b]).0@ by {
                assert(entries[a].0@ != entries[b].0@);
            }
        }
        lemma_ledger_update(front, i, entry);
        assert(updated.drop_last() =~= front.update(i, entry));
        assert(updated.last() == entries.last());
        assert(entries[i].0@ != entries[entries.len() - 1].0@);
        assert(ledger(updated) =~= ledger(entries).insert(entry.0@, entry.1@));
    }
}

impl View for Metrics {
    type V = Map<Seq<char>, FileChange>;

    open spec fn view(&self) -> Map<Seq<char>, FileChange> {
        ledger(self.file_operations@)
    }
}

impl Metrics {
    /// No path is recorded twice.
    pub open spec fn wf(&self) -> bool {
        distinct_paths(self.file_operations@)
    }

    /// A ledger with nothing recorded.
    pub fn new() -> (out: Metrics)
        ensures
            out.wf(),
            out@ == Map::<Seq<char>, FileChange>::empty(),
    {
        Metrics { file_operations: Vec::new() }
    }

    /// Records `operation` under `path`. What was recorded under that path
    /// before is replaced; all other paths keep their operations.
    pub fn record(&mut self, path: String, operation: FileOperation)
        requires
            old(self).wf(),
        ensures
            final(self).wf(),
            final(self)@ == old(self)@.insert(path@, operation@),
    {
        let mut i: usize = 0;
        while i < self.file_operations.len()
            invariant
                i <= self.file_operations@.len(),
                self.file_operations@ == old(self).file_operations@,
                distinct_paths(self.file_operations@),
                forall|k: int| 0 <= k < i ==> (#[trigger] self.file_operations@[k]).0@ != path@,
            decreases self.file_operations@.len() - i,
        {
            if self.file_operations[i].0 == path {
                proof {
                    lemma_ledger_update(self.file_operations@, i as int, (path, operation));
                }
                self.file_operations.set(i, (path, operation));
                return ;
            }
            i += 1;
        }
        proof {
            let entries = self.file_operations@;
            let pushed = entries.push((path, operation));
            assert(pushed.drop_last() =~= entries);
            assert(distinct_paths(pushed));
        }
        self.file_operations.push((path, operation));
    }

    /// The ledger with `operation` recorded under `path`: see [`Metrics::record`].
    pub fn insert(self, path: String, operation: FileOperation) -> (out: Metrics)
        requires
            self.wf(),
        ensures
            out.wf(),
            out@ == self@.insert(path@, operation@),
    {
        let mut out = self;
        out.record(path, operation);
        out
    }

    /// The operation recorded under `path`, if there is one.
    pub fn get(&self, path: &str) -> (out: Option<&FileOperation>)
        requires
            self.wf(),
        ensures
            match out {
                Some(op) => self@.dom().contains(path@) && self@[path@] == op@,
                None => !self@.dom().contains(path@),
            },
    {
        let key = path.to_owned();
        let mut i: usize = 0;
        while i < self.file_operations.len()
            invariant
                i <= self.file_operations@.len(),
                key@ == path@,
                distinct_paths(self.file_operations@),
                forall|k: int| 0 <= k < i ==> (#[trigger] self.file_operations@[k]).0@ != path@,
            decreases self.file_operations@.len() - i,
        {
            if self.file_operations[i].0 == key {
                proof {
                    let entries = self.file_operations@;
                    lemma_ledger_update(entries, i as int, entries[i as int]);
                    assert(entries.update(i as int, entries[i as int]) =~= entries);
                }
                return Some(&self.file_operations[i].1);
            }
            i += 1;
        }
        proof {
            lemma_ledger_dom(self.file_operations@, path@);
        }
        None
    }

    /// Number of paths recorded.
    pub fn len(&self) -> (n: usize)
        ensures
            n == self.file_operations@.len(),
    {
        self.file_operations.len()
    }
}

impl Default for Metrics {
    fn default() -> (out: Metrics)
        ensures
            out.wf(),
            out@ == Map::<Seq<char>, FileChange>::empty(),
    {
        Metrics::new()
    }
}

} // verus!
