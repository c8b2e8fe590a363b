//! The preload loader: the regular files of one directory, evaluated one
//! after the other in the order in which the directory lists them, up to the
//! first failure.
//!
//! The directory and the interpreter are driven from outside. The loader
//! decides what is asked next and how the whole load ends.

use crate::bridge::{eval_error_text, EvalError, Value};
use vstd::prelude::*;
use vstd::string::*;

verus! {

/// Why a preload did not complete.
#[derive(Debug, PartialEq, Eq)]
pub enum PreloadError {
    /// The directory could not be opened.
    Directory { directory: String, cause: String },
    /// The listing broke off.
    Entry { cause: String },
    /// A file could not be read as text.
    File { path: String, cause: String },
    /// A file was evaluated and failed.
    Evaluation { path: String, error: EvalError },
    /// The loader was driven against its protocol.
    OutOfTurn,
}

/// What a failed preload says of itself, without its cause.
pub open spec fn preload_error_text(e: PreloadError) -> Seq<char> {
    match e {
        PreloadError::Directory { directory, cause } => {
            "Failed to read preload directory '"@ + directory@ + "': "@ + cause@
        },
        PreloadError::Entry { cause } => cause@,
        PreloadError::File { path, cause } => "Failed to read file '"@ + path@ + "': "@ + cause@,
        PreloadError::Evaluation { path, error } => {
            "Failed to evaluate preload file '"@ + path@ + "'"@
        },
        PreloadError::OutOfTurn => "preload driven out of turn"@,
    }
}

/// What a failed preload says of itself, followed by the interpreter's
/// diagnostic where a file failed in evaluation.
pub open spec fn preload_report_text(e: PreloadError) -> Seq<char> {
    match e {
        PreloadError::Evaluation { path, error } => {
            preload_error_text(e) + ": "@ + eval_error_text(error)
        },
        _ => preload_error_text(e),
    }
}

impl PreloadError {
    /// The failure as text, without its cause.
    pub fn message(&self) -> (text: String)
        ensures
            text@ == preload_error_text(*self),
    {
        match self {
            PreloadError::Directory { directory, cause } => {
                let mut text = String::from_str("Failed to read preload directory '");
                text.append(directory.as_str());
                text.append("': ");
                text.append(cause.as_str());
                text
            },
            PreloadError::Entry { cause } => cause.clone(),
            PreloadError::File { path, cause } => {
                let mut text = String::from_str("Failed to read file '");
                text.append(path.as_str());
                text.append("': ");
                text.append(cause.as_str());
                text
            },
            PreloadError::Evaluation { path, error } => {
                let mut text = String::from_str("Failed to evaluate preload file '");
                text.append(path.as_str());
                text.append("'");
                text
            },
            PreloadError::OutOfTurn => String::from_str("preload driven out of turn"),
        }
    }

    /// The failure as text, with the interpreter's diagnostic.
    pub fn report(&self) -> (text: String)
        ensures
            text@ == preload_report_text(*self),
    {
        let mut text = self.message();
        match self {
            PreloadError::Evaluation { path, error } => {
                text.append(": ");
                let inner = error.message();
                text.append(inner.as_str());
            },
            _ => {},
        }
        text
    }
}

/// What the loader is waiting for.
#[derive(Debug, Clone, Copy, PartialEq, Eq, Structural)]
pub enum PreloadPhase {
    /// The directory is being opened.
    Opening,
    /// The next entry is being listed.
    Listing,
    /// The file in hand is being read.
    Reading,
    /// The file in hand is being evaluated.
    Evaluating,
    /// The load has ended, well or badly.
    Finished,
}

/// One entry of the listing.
#[derive(Debug, PartialEq, Eq)]
pub enum Entry {
    /// The listing has ended.
    End,
    /// The listing broke off; the cause is given.
    Broken(String),
    /// An entry, and whether it is a regular file.
    Found { path: String, is_file: bool },
}

/// What the driver reports back.
#[derive(Debug, PartialEq, Eq)]
pub enum PreloadEvent {
    /// The directory was opened, or why it was not.
    Opened(Result<(), String>),
    /// The next entry.
    Listed(Entry),
    /// The text of the file in hand, or why it could not be read.
    Read(Result<String, String>),
    /// How the evaluation of the file in hand ended.
    Evaluated(Result<Value, EvalError>),
}

/// What the driver is asked to do next.
#[derive(Debug, PartialEq, Eq)]
pub enum PreloadAction {
    /// Open this directory for listing.
    OpenDirectory(String),
    /// List the next entry.
    NextEntry,
    /// Read this file as text.
    ReadFile(String),
    /// Evaluate this source.
    Evaluate(String),
    /// Stop: the load has this outcome.
    Finish(Result<(), PreloadError>),
}

/// One load of a preload directory.
#[derive(Debug, PartialEq, Eq)]
pub struct Preload {
    /// The directory that is loaded.
    pub directory: String,
    /// What the loader is waiting for.
    pub phase: PreloadPhase,
    /// The path of the file in hand, while one is read or evaluated.
    pub current: Option<String>,
}

/// The load `p` ended with `outcome`.
pub open spec fn preload_ended(p: Preload, outcome: Result<(), PreloadError>) -> (
    Preload,
    PreloadAction,
) {
    (
        Preload { directory: p.directory, phase: PreloadPhase::Finished, current: None },
        PreloadAction::Finish(outcome),
    )
}

/// The load `p` back at the listing, asking for the next entry.
pub open spec fn preload_listing(p: Preload) -> (Preload, PreloadAction) {
    (
        Preload { directory: p.directory, phase: PreloadPhase::Listing, current: None },
        PreloadAction::NextEntry,
    )
}

/// The loader's rule. Entries that are no regular files are passed over.
/// A regular file is read, then evaluated, and only when that succeeded is
/// the next entry listed. The first failure of any kind ends the load with
/// that failure, which names the directory or file it befell. A report that
/// does not answer the last action ends the load with `OutOfTurn`.
pub open spec fn preload_next(p: Preload, event: PreloadEvent) -> (Preload, PreloadAction) {
    match (p.phase, event, p.current) {
        (PreloadPhase::Opening, PreloadEvent::Opened(Ok(_)), _) => preload_listing(p),
        (PreloadPhase::Opening, PreloadEvent::Opened(Err(cause)), _) => preload_ended(
            p,
            Err(PreloadError::Directory { directory: p.directory, cause }),
        ),
        (PreloadPhase::Listing, PreloadEvent::Listed(Entry::End), _) => preload_ended(p, Ok(())),
        (PreloadPhase::Listing, PreloadEvent::Listed(Entry::Broken(cause)), _) => preload_ended(
            p,
            Err(PreloadError::Entry { cause }),
        ),
        (PreloadPhase::Listing, PreloadEvent::Listed(Entry::Found { path, is_file }), _) => {
            if is_file {
                (
                    Preload {
                        directory: p.directory,
                        phase: PreloadPhase::Reading,
                        current: Some(path),
                    },
                    PreloadAction::ReadFile(path),
                )
            } else {
                preload_listing(p)
            }
        },
        (PreloadPhase::Reading, PreloadEvent::Read(Ok(text)), Some(path)) => (
            Preload {
                directory: p.directory,
                phase: PreloadPhase::Evaluating,
                current: Some(path),
            },
            PreloadAction::Evaluate(text),
        ),
        (PreloadPhase::Reading, PreloadEvent::Read(Err(cause)), Some(path)) => preload_ended(
            p,
            Err(PreloadError::File { path, cause }),
        ),
        (PreloadPhase::Evaluating, PreloadEvent::Evaluated(Ok(_)), Some(_)) => preload_listing(p),
        (PreloadPhase::Evaluating, PreloadEvent::Evaluated(Err(error)), Some(path)) => {
            preload_ended(p, Err(PreloadError::Evaluation { path, error }))
        },
        _ => preload_ended(p, Err(PreloadError::OutOfTurn)),
    }
}

impl Preload {
    fn end(&mut self, outcome: Result<(), PreloadError>) -> (action: PreloadAction)
        ensures
            (*final(self), action) == preload_ended(*old(self), outcome),
    {
        self.phase = PreloadPhase::Finished;
        self.current = None;
        PreloadAction::Finish(outcome)
    }

    fn list(&mut self) -> (action: PreloadAction)
        ensures
            (*final(self), action) == preload_listing(*old(self)),
    {
        self.phase = PreloadPhase::Listing;
        self.current = None;
        PreloadAction::NextEntry
    }

    /// Takes what the driver reports and says what to do next.
    pub fn step(&mut self, event: PreloadEvent) -> (action: PreloadAction)
        ensures
            (*final(self), action) == preload_next(*old(self), event),
    {
        let current = self.current.take();
        match (self.phase, event, current) {
            (PreloadPhase::Opening, PreloadEvent::Opened(Ok(_)), _) => self.list(),
            (PreloadPhase::Opening, PreloadEvent::Opened(Err(cause)), _) => {
                let directory = self.directory.clone();
                self.end(Err(PreloadError::Directory { directory, cause }))
            },
            (PreloadPhase::Listing, PreloadEvent::Listed(Entry::End), _) => self.end(Ok(())),
            (PreloadPhase::Listing, PreloadEvent::Listed(Entry::Broken(cause)), _) => self.end(
                Err(PreloadError::Entry { cause }),
            ),
            (PreloadPhase::Listing, PreloadEvent::Listed(Entry::Found { path, is_file }), _) => {
                if is_file {
                    self.phase = PreloadPhase::Reading;
                    self.current = Some(path.clone());
                    PreloadAction::ReadFile(path)
                } else {
                    self.list()
                }
            },
            (PreloadPhase::Reading, PreloadEvent::Read(Ok(text)), Some(path)) => {
                self.phase = PreloadPhase::Evaluating;
                self.current = Some(path);
                PreloadAction::Evaluate(text)
            },
            (PreloadPhase::Reading, PreloadEvent::Read(Err(cause)), Some(path)) => self.end(
                Err(PreloadError::File { path, cause }),
            ),
            (PreloadPhase::Evaluating, PreloadEvent::Evaluated(Ok(_)), Some(_)) => self.list(),
            (PreloadPhase::Evaluating, PreloadEvent::Evaluated(Err(error)), Some(path)) => {
                self.end(Err(PreloadError::Evaluation { path, error }))
            },
            _ => self.end(Err(PreloadError::OutOfTurn)),
        }
    }
}

/// Starts the load of the directory `path`: it is to be opened first.
pub fn preload_files(path: String) -> (start: (Preload, PreloadAction))
    ensures
        start.0 == (Preload { directory: path, phase: PreloadPhase::Opening, current: None }),
        start.1 == PreloadAction::OpenDirectory(path),
{
    let directory = path.clone();
    (
        Preload { directory, phase: PreloadPhase::Opening, current: None },
        PreloadAction::OpenDirectory(path),
    )
}

/// What the world outside answers about one entry of a listing: its path,
/// whether it is a regular file, what reading it gives, and how its
/// evaluation ends. The answers belong to the entry alone: they are the same
/// wherever in the listing it stands.
pub struct FileRecord {
    pub path: String,
    pub is_file: bool,
    pub text: Result<String, String>,
    pub outcome: Result<Value, EvalError>,
}

impl FileRecord {
    /// The entry does not stop a load: it is no regular file, or it can be
    /// read and its evaluation succeeds.
    pub open spec fn passes(self) -> bool {
        self.is_file ==> self.text is Ok && self.outcome is Ok
    }

    /// The source that a load evaluates for this entry, if any.
    pub open spec fn source(self) -> Seq<String> {
        match (self.is_file, self.text) {
            (true, Ok(text)) => seq![text],
            _ => Seq::<String>::empty(),
        }
    }
}

/// The sources of the readable regular files of a listing, in its order.
pub open spec fn sources(files: Seq<FileRecord>) -> Seq<String>
    decreases files.len(),
{
    if files.len() == 0 {
        Seq::<String>::empty()
    } else {
        files[0].source() + sources(files.drop_first())
    }
}

/// The outcome that an action carries, where it ends a load.
pub open spec fn outcome_of(action: PreloadAction) -> Result<(), PreloadError> {
    match action {
        PreloadAction::Finish(outcome) => outcome,
        _ => Err(PreloadError::OutOfTurn),
    }
}

/// A load from the listing on, driven faithfully over the entries `files`:
/// each action of the loader is carried out and answered from the entry's
/// record. The result holds the sources that were handed to the interpreter,
/// in order, and the load's outcome.
pub open spec fn listing_run(p: Preload, files: Seq<FileRecord>) -> (
    Seq<String>,
    Result<(), PreloadError>,
)
    decreases files.len(),
{
    if files.len() == 0 {
        (
            Seq::<String>::empty(),
            outcome_of(preload_next(p, PreloadEvent::Listed(Entry::End)).1),
        )
    } else {
        let file = files[0];
        let listed = preload_next(
            p,
            PreloadEvent::Listed(Entry::Found { path: file.path, is_file: file.is_file }),
        );
        match listed.1 {
            PreloadAction::NextEntry => listing_run(listed.0, files.drop_first()),
            PreloadAction::ReadFile(_) => {
                let read = preload_next(listed.0, PreloadEvent::Read(file.text));
                match read.1 {
                    PreloadAction::Evaluate(source) => {
                        let evaluated = preload_next(
                            read.0,
                            PreloadEvent::Evaluated(file.outcome),
                        );
                        match evaluated.1 {
                            PreloadAction::NextEntry => {
                                let rest = listing_run(evaluated.0, files.drop_first());
                                (seq![source] + rest.0, rest.1)
                            },
                            other => (seq![source], outcome_of(other)),
                        }
                    },
                    other => (Seq::<String>::empty(), outcome_of(other)),
                }
            },
            other => (Seq::<String>::empty(), outcome_of(other)),
        }
    }
}

/// A whole load of `directory`, driven faithfully: `opened` answers the
/// opening of the directory, `files` the listing.
pub open spec fn preload_run(
    directory: String,
    opened: Result<(), String>,
    files: Seq<FileRecord>,
) -> (Seq<String>, Result<(), PreloadError>) {
    let start = Preload { directory, phase: PreloadPhase::Opening, current: None };
    let first = preload_next(start, PreloadEvent::Opened(opened));
    match first.1 {
        PreloadAction::NextEntry => listing_run(first.0, files),
        other => (Seq::<String>::empty(), outcome_of(other)),
    }
}

/// The loader at the listing, with no file in hand.
pub open spec fn at_listing(directory: String) -> Preload {
    Preload { directory, phase: PreloadPhase::Listing, current: None }
}

proof fn listing_run_passing_entry(directory: String, files: Seq<FileRecord>)
    requires
        files.len() > 0,
        files[0].passes(),
    ensures
        listing_run(at_listing(directory), files) == (
            files[0].source() + listing_run(at_listing(directory), files.drop_first()).0,
            listing_run(at_listing(directory), files.drop_first()).1,
        ),
{
    let rest = listing_run(at_listing(directory), files.drop_first());
    if !files[0].is_file {
        assert(files[0].source() + rest.0 =~= rest.0);
    }
}

/// A directory that cannot be opened ends the load with the failure that
/// names it, before any entry is looked at.
pub proof fn unopened_directory_stops(directory: String, cause: String, files: Seq<FileRecord>)
    ensures
        preload_run(directory, Err(cause), files) == (
            Seq::<String>::empty(),
            Err::<(), PreloadError>(PreloadError::Directory { directory, cause }),
        ),
{
}

/// A listing in which every entry passes is evaluated whole, in its order,
/// and the load succeeds.
pub proof fn passing_listing_succeeds(directory: String, files: Seq<FileRecord>)
    requires
        forall|i: int| 0 <= i < files.len() ==> (#[trigger] files[i]).passes(),
    ensures
        preload_run(directory, Ok(()), files) == (sources(files), Ok::<(), PreloadError>(())),
    decreases files.len(),
{
    passing_listing_run(directory, files);
}

proof fn passing_listing_run(directory: String, files: Seq<FileRecord>)
    requires
        forall|i: int| 0 <= i < files.len() ==> (#[trigger] files[i]).passes(),
    ensures
        listing_run(at_listing(directory), files) == (
            sources(files),
            Ok::<(), PreloadError>(()),
        ),
    decreases files.len(),
{
    if files.len() > 0 {
        let rest = files.drop_first();
        assert forall|i: int| 0 <= i < rest.len() implies (#[trigger] rest[i]).passes() by {
            assert(rest[i] == files[i + 1]);
        }
        passing_listing_run(directory, rest);
        listing_run_passing_entry(directory, files);
    }
}

/// What the first entry that does not pass makes of a load, after the
/// sources `before` have been evaluated.
pub open spec fn stopped_at(before: Seq<String>, file: FileRecord) -> (
    Seq<String>,
    Result<(), PreloadError>,
) {
    match (file.text, file.outcome) {
        (Err(cause), _) => (before, Err(PreloadError::File { path: file.path, cause })),
        (Ok(text), Err(error)) => (
            before.push(text),
            Err(PreloadError::Evaluation { path: file.path, error }),
        ),
        (Ok(text), Ok(_)) => (before.push(text), Ok(())),
    }
}

/// The first failure stops the load. Where entry `k` is the first that does
/// not pass, the load ends with that entry's failure, which names its path:
/// a file that cannot be read is not evaluated, a file whose evaluation fails
/// is the last one evaluated, and no entry after `k` is read or evaluated,
/// whatever it holds.
pub proof fn first_failure_stops(directory: String, files: Seq<FileRecord>, k: int)
    requires
        0 <= k < files.len(),
        forall|i: int| 0 <= i < k ==> (#[trigger] files[i]).passes(),
        !files[k].passes(),
    ensures
        preload_run(directory, Ok(()), files) == stopped_at(sources(files.take(k)), files[k]),
        preload_run(directory, Ok(()), files).1 is Err,
{
    first_failure_stops_run(directory, files, k);
}

proof fn first_failure_stops_run(directory: String, files: Seq<FileRecord>, k: int)
    requires
        0 <= k < files.len(),
        forall|i: int| 0 <= i < k ==> (#[trigger] files[i]).passes(),
        !files[k].passes(),
    ensures
        listing_run(at_listing(directory), files) == stopped_at(
            sources(files.take(k)),
            files[k],
        ),
        stopped_at(sources(files.take(k)), files[k]).1 is Err,
    decreases k,
{
    if k == 0 {
        assert(files.take(0) =~= Seq::<FileRecord>::empty());
        let none = Seq::<String>::empty();
        match (files[0].text, files[0].outcome) {
            (Ok(text), _) => {
                assert(none.push(text) =~= seq![text]);
            },
            _ => {},
        }
    } else {
        let rest = files.drop_first();
        assert forall|i: int| 0 <= i < k - 1 implies (#[trigger] rest[i]).passes() by {
            assert(rest[i] == files[i + 1]);
        }
        assert(rest[k - 1] == files[k]);
        first_failure_stops_run(directory, rest, k - 1);
        listing_run_passing_entry(directory, files);
        assert(files.take(k).drop_first() =~= rest.take(k - 1));
        assert(files.take(k)[0] == files[0]);
        let before = sources(rest.take(k - 1));
        assert(sources(files.take(k)) == files[0].source() + before);
        match (files[k].text, files[k].outcome) {
            (Ok(text), _) => {
                assert(files[0].source() + before.push(text) =~= (files[0].source()
                    + before).push(text));
            },
            _ => {},
        }
    }
}

proof fn sources_of_concatenation(u: Seq<FileRecord>, v: Seq<FileRecord>)
    ensures
        sources(u + v) == sources(u) + sources(v),
    decreases u.len(),
{
    if u.len() == 0 {
        assert(u + v =~= v);
        assert(sources(u) + sources(v) =~= sources(v));
    } else {
        assert((u + v).drop_first() =~= u.drop_first() + v);
        assert((u + v)[0] == u[0]);
        sources_of_concatenation(u.drop_first(), v);
        assert(u[0].source() + (sources(u.drop_first()) + sources(v)) =~= (u[0].source()
            + sources(u.drop_first())) + sources(v));
    }
}

proof fn sources_without_entry(files: Seq<FileRecord>, i: int)
    requires
        0 <= i < files.len(),
    ensures
        sources(files).to_multiset() =~= files[i].source().to_multiset().add(
            sources(files.remove(i)).to_multiset(),
        ),
{
    let head = files.take(i);
    let one = seq![files[i]];
    let tail = files.skip(i + 1);
    assert(files =~= (head + one) + tail);
    assert(files.remove(i) =~= head + tail);
    assert(one.drop_first() =~= Seq::<FileRecord>::empty());
    assert(sources(one.drop_first()) =~= Seq::<String>::empty());
    assert(sources(one) =~= files[i].source());
    sources_of_concatenation(head, one);
    sources_of_concatenation(head + one, tail);
    sources_of_concatenation(head, tail);
    vstd::seq_lib::lemma_multiset_commutative(sources(head) + files[i].source(), sources(tail));
    vstd::seq_lib::lemma_multiset_commutative(sources(head), files[i].source());
    vstd::seq_lib::lemma_multiset_commutative(sources(head), sources(tail));
}

proof fn sources_of_rearrangement(a: Seq<FileRecord>, b: Seq<FileRecord>)
    requires
        a.to_multiset() == b.to_multiset(),
    ensures
        sources(a).to_multiset() =~= sources(b).to_multiset(),
    decreases a.len(),
{
    if a.len() == 0 {
        vstd::seq_lib::to_multiset_len(a);
        vstd::seq_lib::to_multiset_len(b);
    } else {
        let first = a[0];
        assert(a.contains(first));
        vstd::seq_lib::to_multiset_contains(a, first);
        vstd::seq_lib::to_multiset_contains(b, first);
        let i = choose|i: int| 0 <= i < b.len() && b[i] == first;
        assert(a.remove(0) =~= a.drop_first());
        vstd::seq_lib::to_multiset_remove(a, 0);
        vstd::seq_lib::to_multiset_remove(b, i);
        sources_of_rearrangement(a.drop_first(), b.remove(i));
        sources_without_entry(b, i);
        vstd::seq_lib::lemma_multiset_commutative(first.source(), sources(a.drop_first()));
    }
}

/// The order of a listing does not matter to a load in which every entry
/// passes. Two listings of the same entries, in whatever order, both load
/// with success, and both hand the same sources to the interpreter, each as
/// often in one load as in the other. (Where entries fail, the order decides
/// which failure is met first: see `first_failure_stops`.)
pub proof fn passing_files_in_any_order(
    directory: String,
    a: Seq<FileRecord>,
    b: Seq<FileRecord>,
)
    requires
        a.to_multiset() == b.to_multiset(),
        forall|i: int| 0 <= i < a.len() ==> (#[trigger] a[i]).passes(),
    ensures
        preload_run(directory, Ok(()), a).1 == Ok::<(), PreloadError>(()),
        preload_run(directory, Ok(()), b).1 == Ok::<(), PreloadError>(()),
        preload_run(directory, Ok(()), a).0.to_multiset() =~= preload_run(
            directory,
            Ok(()),
            b,
        ).0.to_multiset(),
{
    assert forall|j: int| 0 <= j < b.len() implies (#[trigger] b[j]).passes() by {
        assert(b.contains(b[j]));
        vstd::seq_lib::to_multiset_contains(a, b[j]);
        vstd::seq_lib::to_multiset_contains(b, b[j]);
        let i = choose|i: int| 0 <= i < a.len() && a[i] == b[j];
        assert(a[i].passes());
    }
    passing_listing_succeeds(directory, a);
    passing_listing_succeeds(directory, b);
    sources_of_rearrangement(a, b);
}

/// Two preload files whose evaluation succeeds wherever they stand are
/// loaded in either order with the same end: both orders succeed, and both
/// hand the same two sources to the interpreter, each once, in the order of
/// the listing.
pub proof fn two_passing_files_in_either_order(directory: String, a: FileRecord, b: FileRecord)
    requires
        a.is_file && a.passes(),
        b.is_file && b.passes(),
    ensures
        preload_run(directory, Ok(()), seq![a, b]) == (
            seq![a.text->Ok_0, b.text->Ok_0],
            Ok::<(), PreloadError>(()),
        ),
        preload_run(directory, Ok(()), seq![b, a]) == (
            seq![b.text->Ok_0, a.text->Ok_0],
            Ok::<(), PreloadError>(()),
        ),
        preload_run(directory, Ok(()), seq![a, b]).0.to_multiset() =~= preload_run(
            directory,
            Ok(()),
            seq![b, a],
        ).0.to_multiset(),
{
    two_sources(a, b);
    two_sources(b, a);
    passing_listing_succeeds(directory, seq![a, b]);
    passing_listing_succeeds(directory, seq![b, a]);
    let ta = a.text->Ok_0;
    let tb = b.text->Ok_0;
    vstd::seq_lib::lemma_seq_union_to_multiset_commutative(seq![ta], seq![tb]);
    assert(seq![ta] + seq![tb] =~= seq![ta, tb]);
    assert(seq![tb] + seq![ta] =~= seq![tb, ta]);
}

proof fn two_sources(a: FileRecord, b: FileRecord)
    requires
        a.is_file && a.passes(),
        b.is_file && b.passes(),
    ensures
        sources(seq![a, b]) == seq![a.text->Ok_0, b.text->Ok_0],
{
    let both = seq![a, b];
    let last = both.drop_first();
    assert(last =~= seq![b]);
    assert(last.drop_first() =~= Seq::<FileRecord>::empty());
    assert(sources(last.drop_first()) =~= Seq::<String>::empty());
    assert(sources(last) =~= seq![b.text->Ok_0]);
    assert(sources(both) =~= seq![a.text->Ok_0, b.text->Ok_0]);
}

} // verus!
