//! The resolver as a mathematical value, and the steps that it takes.
//!
//! The state holds the files that are done (`parsed_files`), the files whose
//! imports are being resolved (`open`, the outermost first: each but the first
//! is there because the one before it imports it), and what the resolver
//! waits for (`pending`).

use vstd::prelude::*;
use crate::closure::{deps_of, imports_come_first, imports_known, lemma_has_key_after_push};
use crate::embedded::embedded_text;
use crate::error::ErrorView;
use crate::linked_hash_map::{distinct_keys, has_key, EntryView};
use crate::model::{FileDescriptorPairView, FileModelView, ImportView};
use crate::path::{dot, joined};
use crate::proto_path::{
    is_normalized, lemma_current_directory_holds_relative_paths, stripped, PathError,
};
use crate::protocol::{EventView, RequestView, StepView};

verus! {

/// A file whose imports are being resolved.
pub struct OpenFileView {
    /// Its canonical path.
    pub path: Seq<char>,
    /// The path that names it in errors.
    pub fs_path: Seq<char>,
    /// What the parser made of it.
    pub parsed: FileModelView,
}

/// What the resolver waits for.
pub enum PendingView {
    /// Nothing.
    Idle,
    /// Whether the import `path` is in the directory at `dir`.
    Probe { path: Seq<char>, dir: int },
    /// The text of the file `path`.
    Read { path: Seq<char>, fs_path: Seq<char> },
    /// The parsed form of the file `path`.
    Parse { path: Seq<char>, fs_path: Seq<char> },
    /// The descriptor of the file `path`.
    Convert { path: Seq<char>, fs_path: Seq<char>, parsed: FileModelView },
}

/// The state of a resolver.
pub struct RunView {
    /// The files that are done, in the order in which they were done.
    pub parsed_files: Seq<EntryView>,
    /// The directories that are searched, in the order of the search.
    pub includes: Seq<Seq<char>>,
    /// The files whose imports are being resolved, the outermost first.
    pub open: Seq<OpenFileView>,
    /// What the resolver waits for.
    pub pending: PendingView,
}

/// Whether `path` is one of the files whose imports are being resolved.
pub open spec fn is_open(open: Seq<OpenFileView>, path: Seq<char>) -> bool {
    exists|i: int| 0 <= i < open.len() && (#[trigger] open[i]).path == path
}

/// `error` as it reaches the caller from under the first `n` open files: each
/// of them wraps it with its name, the innermost first.
pub open spec fn wrapped(error: ErrorView, open: Seq<OpenFileView>, n: int) -> ErrorView
    decreases n,
{
    if n <= 0 {
        error
    } else {
        wrapped(
            ErrorView::WithFile { file: open[n - 1].fs_path, error: Box::new(error) },
            open,
            n - 1,
        )
    }
}

/// The place of the first import at or behind `from` that is not among
/// `files`; the number of imports if there is none.
pub open spec fn first_missing(files: Seq<EntryView>, imports: Seq<ImportView>, from: int) -> int
    decreases imports.len() - from,
{
    if from >= imports.len() {
        imports.len() as int
    } else if !has_key(files, imports[from].path) {
        from
    } else {
        first_missing(files, imports, from + 1)
    }
}

/// `fs_path` relative to the first of the directories at or behind `from`
/// that it lies in.
pub open spec fn relative_path(includes: Seq<Seq<char>>, fs_path: Seq<char>, from: int) -> Option<
    Seq<char>,
>
    decreases includes.len() - from,
{
    if from >= includes.len() {
        None
    } else {
        match stripped(fs_path, includes[from]) {
            Ok(path) => Some(path),
            Err(_) => relative_path(includes, fs_path, from + 1),
        }
    }
}

impl RunView {
    /// A resolver that has done nothing yet.
    pub open spec fn new(includes: Seq<Seq<char>>) -> RunView {
        RunView {
            parsed_files: Seq::empty(),
            includes,
            open: Seq::empty(),
            pending: PendingView::Idle,
        }
    }

    /// Whether the resolver is ready for a new file.
    pub open spec fn is_idle(self) -> bool {
        self.pending is Idle && self.open.len() == 0
    }

    /// The file that the resolver was given and is at work on: the outermost
    /// open file, or, with none open, the file that it waits for.
    pub open spec fn root(self) -> Option<Seq<char>> {
        if self.open.len() > 0 {
            Some(self.open[0].path)
        } else {
            match self.pending {
                PendingView::Idle => None,
                PendingView::Probe { path, dir } => Some(path),
                PendingView::Read { path, fs_path } => Some(path),
                PendingView::Parse { path, fs_path } => Some(path),
                PendingView::Convert { path, fs_path, parsed } => Some(path),
            }
        }
    }

    /// Whether `path` is neither done nor being resolved.
    pub open spec fn is_new(self, path: Seq<char>) -> bool {
        !has_key(self.parsed_files, path) && !is_open(self.open, path)
    }

    /// Whether the parser has been through the file `path`: the file is done,
    /// or its imports are being resolved, or it waits for its descriptor.
    pub open spec fn is_parsed(self, path: Seq<char>) -> bool {
        ||| has_key(self.parsed_files, path)
        ||| is_open(self.open, path)
        ||| self.pending matches PendingView::Convert { path: waiting, fs_path, parsed } && waiting
            == path
    }

    /// What holds of the files of every state that the resolver reaches: no
    /// file is done twice, the imports of a file that is done were done before
    /// it, and a file that is being resolved is not done and is open once.
    pub open spec fn sound(self) -> bool {
        &&& distinct_keys(self.parsed_files)
        &&& imports_come_first(self.parsed_files)
        &&& forall|i: int|
            0 <= i < self.open.len() ==> !has_key(self.parsed_files, (#[trigger] self.open[i]).path)
        &&& forall|i: int, j: int|
            0 <= i < j < self.open.len() ==> (#[trigger] self.open[i]).path != (
            #[trigger] self.open[j]).path
    }

    /// What holds of every state that the resolver reaches.
    pub open spec fn wf(self) -> bool {
        &&& self.sound()
        &&& match self.pending {
            PendingView::Idle => self.open.len() == 0,
            PendingView::Probe { path, dir } => 0 <= dir < self.includes.len() && self.is_new(path),
            PendingView::Read { path, fs_path } => self.is_new(path),
            PendingView::Parse { path, fs_path } => self.is_new(path),
            PendingView::Convert { path, fs_path, parsed } => self.is_new(path) && imports_known(
                self.parsed_files,
                parsed,
            ),
        }
    }

    /// Gives up with `error` as it is.
    pub open spec fn abort(self, error: ErrorView) -> (RunView, StepView) {
        (
            RunView { open: Seq::empty(), pending: PendingView::Idle, ..self },
            StepView::Done(Err(error)),
        )
    }

    /// Gives up with `error`, which every open file wraps with its name.
    pub open spec fn fail(self, error: ErrorView) -> (RunView, StepView) {
        self.abort(wrapped(error, self.open, self.open.len() as int))
    }

    /// Takes up the text of the file `path`: it is to be parsed.
    pub open spec fn add_file_content(
        self,
        path: Seq<char>,
        fs_path: Seq<char>,
        content: Seq<char>,
    ) -> (RunView, StepView) {
        (
            RunView { pending: PendingView::Parse { path, fs_path }, ..self },
            StepView::Ask(RequestView::Parse { path, content }),
        )
    }

    /// Looks for the import `path` in the directory at `dir` and those behind
    /// it, then among the built-in schemas.
    pub open spec fn probe(self, path: Seq<char>, dir: int) -> (RunView, StepView) {
        if 0 <= dir < self.includes.len() {
            (
                RunView { pending: PendingView::Probe { path, dir }, ..self },
                StepView::Ask(RequestView::Probe { fs_path: joined(self.includes[dir], path) }),
            )
        } else {
            match embedded_text(path) {
                Some(content) => self.add_file_content(path, path, content),
                None => self.fail(ErrorView::FileNotFoundInImportPath(path, self.includes)),
            }
        }
    }

    /// Takes up the import `path`, unless an answer is due. There is nothing
    /// to do where the file is done. A file that is being resolved cannot be
    /// imported: it would import itself. Any other is looked for.
    pub open spec fn add_imported_file(self, path: Seq<char>) -> Option<(RunView, StepView)> {
        if !(self.pending is Idle) {
            Some(self.abort(ErrorView::OutOfTurn))
        } else if has_key(self.parsed_files, path) {
            None
        } else if is_open(self.open, path) {
            Some(self.fail(ErrorView::CyclicImport(path)))
        } else {
            Some(self.probe(path, 0))
        }
    }

    /// Goes on with the innermost open file: takes up its first import that is
    /// not done, or, where all are, closes the file and asks for its
    /// descriptor. With no file open, the work is done.
    pub open spec fn proceed(self) -> (RunView, StepView) {
        if self.open.len() == 0 {
            (RunView { pending: PendingView::Idle, ..self }, StepView::Done(Ok(())))
        } else {
            let top = self.open.last();
            let n = first_missing(self.parsed_files, top.parsed.imports, 0);
            if n < top.parsed.imports.len() {
                RunView { pending: PendingView::Idle, ..self }.add_imported_file(
                    top.parsed.imports[n].path,
                ).unwrap()
            } else {
                (
                    RunView {
                        open: self.open.drop_last(),
                        pending: PendingView::Convert {
                            path: top.path,
                            fs_path: top.fs_path,
                            parsed: top.parsed,
                        },
                        ..self
                    },
                    StepView::Ask(
                        RequestView::Convert {
                            path: top.path,
                            parsed: top.parsed,
                            deps: deps_of(self.parsed_files, top.parsed),
                        },
                    ),
                )
            }
        }
    }

    /// Takes up the file `path`, to be read from `fs_path`. A file that is done
    /// is not read again.
    pub open spec fn add_file(self, path: Seq<char>, fs_path: Seq<char>) -> (RunView, StepView) {
        if has_key(self.parsed_files, path) {
            self.proceed()
        } else {
            (
                RunView { pending: PendingView::Read { path, fs_path }, ..self },
                StepView::Ask(RequestView::Read { fs_path }),
            )
        }
    }

    /// Takes up the input file at `fs_path`: its canonical path is the one
    /// relative to the first directory that it lies in.
    pub open spec fn add_fs_file(self, fs_path: Seq<char>) -> (
        RunView,
        Result<(Seq<char>, StepView), ErrorView>,
    ) {
        if !self.is_idle() {
            (self.abort(ErrorView::OutOfTurn).0, Err(ErrorView::OutOfTurn))
        } else {
            match relative_path(self.includes, fs_path, 0) {
                None => (self, Err(ErrorView::FileMustResideInImportPath(fs_path, self.includes))),
                Some(path) => {
                    let (next, step) = self.add_file(path, fs_path);
                    (next, Ok((path, step)))
                },
            }
        }
    }

    /// The state with the file `path` open, parsed to `parsed`.
    pub open spec fn opened(
        self,
        path: Seq<char>,
        fs_path: Seq<char>,
        parsed: FileModelView,
    ) -> RunView {
        RunView {
            open: self.open.push(OpenFileView { path, fs_path, parsed }),
            pending: PendingView::Idle,
            ..self
        }
    }

    /// The state with the file `path` done.
    pub open spec fn stored(self, path: Seq<char>, pair: FileDescriptorPairView) -> RunView {
        RunView {
            parsed_files: self.parsed_files.push((path, pair)),
            pending: PendingView::Idle,
            ..self
        }
    }

    /// Goes on with the answer `event` to what was asked.
    pub open spec fn resume(self, event: EventView) -> (RunView, StepView) {
        match (self.pending, event) {
            (PendingView::Probe { path, dir }, EventView::Probed(found)) => {
                if found {
                    self.add_file(path, joined(self.includes[dir], path))
                } else {
                    self.probe(path, dir + 1)
                }
            },
            (PendingView::Read { path, fs_path }, EventView::Read(Ok(content))) => {
                self.add_file_content(path, fs_path, content)
            },
            (PendingView::Read { path, fs_path }, EventView::Read(Err(reason))) => {
                self.fail(ErrorView::CouldNotReadFile(fs_path, reason))
            },
            (PendingView::Parse { path, fs_path }, EventView::Parsed(Ok(parsed))) => {
                self.opened(path, fs_path, parsed).proceed()
            },
            (PendingView::Parse { path, fs_path }, EventView::Parsed(Err(e))) => {
                self.fail(
                    ErrorView::WithFile { file: fs_path, error: Box::new(ErrorView::Syntax(e)) },
                )
            },
            (
                PendingView::Convert { path, fs_path, parsed },
                EventView::Converted(Ok(descriptor)),
            ) => {
                self.stored(path, FileDescriptorPairView { parsed, descriptor }).proceed()
            },
            (PendingView::Convert { path, fs_path, parsed }, EventView::Converted(Err(e))) => {
                self.fail(
                    ErrorView::WithFile { file: fs_path, error: Box::new(ErrorView::Semantic(e)) },
                )
            },
            _ => self.abort(ErrorView::OutOfTurn),
        }
    }
}

/// The imports before the first missing one are done, and that one is not.
pub proof fn lemma_first_missing(files: Seq<EntryView>, imports: Seq<ImportView>, from: int)
    requires
        0 <= from,
    ensures
        from <= first_missing(files, imports, from) || from > imports.len(),
        first_missing(files, imports, from) <= imports.len() || from > imports.len(),
        forall|k: int|
            from <= k < first_missing(files, imports, from) ==> has_key(
                files,
                (#[trigger] imports[k]).path,
            ),
        first_missing(files, imports, from) < imports.len() ==> !has_key(
            files,
            imports[first_missing(files, imports, from)].path,
        ),
    decreases imports.len() - from,
{
    if from < imports.len() && has_key(files, imports[from].path) {
        lemma_first_missing(files, imports, from + 1);
    }
}

/// Going on from a sound state leads to a state as every state is, with the
/// same files done.
pub proof fn lemma_proceed_keeps_wf(s: RunView)
    requires
        s.sound(),
    ensures
        s.proceed().0.wf(),
        s.proceed().0.parsed_files == s.parsed_files,
        s.proceed().0.includes == s.includes,
{
    if s.open.len() > 0 {
        lemma_first_missing(s.parsed_files, s.open.last().parsed.imports, 0);
    }
}

/// A new file whose imports are done may go to the files that are done.
pub proof fn lemma_stored_is_sound(s: RunView, path: Seq<char>, pair: FileDescriptorPairView)
    requires
        s.sound(),
        s.is_new(path),
        imports_known(s.parsed_files, pair.parsed),
    ensures
        s.stored(path, pair).sound(),
{
    let entry = (path, pair);
    let files = s.parsed_files.push(entry);
    assert forall|i: int| 0 <= i < files.len() implies imports_known(
        files.take(i),
        (#[trigger] files[i]).1.parsed,
    ) by {
        if i < s.parsed_files.len() {
            assert(files.take(i) == s.parsed_files.take(i));
        } else {
            assert(files.take(i) == s.parsed_files);
        }
    }
}

/// Every answer leads from a state as every state is to another such state.
/// It leaves the directories as they are, and the files that are done: the
/// most it does to them is to put one more behind them.
pub proof fn lemma_resume_keeps_wf(s: RunView, event: EventView)
    requires
        s.wf(),
    ensures
        s.resume(event).0.wf(),
        s.resume(event).0.includes == s.includes,
        s.parsed_files.len() <= s.resume(event).0.parsed_files.len(),
        s.resume(event).0.parsed_files.take(s.parsed_files.len() as int) == s.parsed_files,
{
    match (s.pending, event) {
        (PendingView::Parse { path, fs_path }, EventView::Parsed(Ok(parsed))) => {
            lemma_proceed_keeps_wf(s.opened(path, fs_path, parsed));
        },
        (PendingView::Convert { path, fs_path, parsed }, EventView::Converted(Ok(descriptor))) => {
            let pair = FileDescriptorPairView { parsed, descriptor };
            lemma_stored_is_sound(s, path, pair);
            lemma_proceed_keeps_wf(s.stored(path, pair));
        },
        _ => {},
    }
}

/// Taking up an import leads from a state as every state is to another such
/// state, with the same files done.
pub proof fn lemma_add_imported_file_keeps_wf(s: RunView, path: Seq<char>)
    requires
        s.sound(),
    ensures
        s.add_imported_file(path) matches Some(next) ==> next.0.wf() && next.0.includes
            == s.includes && next.0.parsed_files == s.parsed_files,
{
}

/// Taking up an input file leads from a state as every state is to another
/// such state, with the same files done.
pub proof fn lemma_add_fs_file_keeps_wf(s: RunView, fs_path: Seq<char>)
    requires
        s.wf(),
    ensures
        s.add_fs_file(fs_path).0.wf(),
        s.add_fs_file(fs_path).0.includes == s.includes,
        s.add_fs_file(fs_path).0.parsed_files == s.parsed_files,
{
}

/// Whether a resolver in the state `s` waits for the answer to `request`.
pub open spec fn waits_for(s: RunView, request: RequestView) -> bool {
    match (s.pending, request) {
        (PendingView::Probe { path, dir }, RequestView::Probe { fs_path }) => 0 <= dir
            < s.includes.len() && fs_path == joined(s.includes[dir], path),
        (PendingView::Read { path, fs_path }, RequestView::Read { fs_path: asked }) => asked
            == fs_path,
        (PendingView::Parse { path, fs_path }, RequestView::Parse { path: asked, content }) => asked
            == path,
        (
            PendingView::Convert { path, fs_path, parsed },
            RequestView::Convert { path: asked, parsed: given, deps },
        ) => asked == path && given == parsed && deps == deps_of(s.parsed_files, parsed),
        _ => false,
    }
}

/// Whether the resolver stands as it says: it waits for the answer to what it
/// asks, and where it says that it is done it is ready for a new file.
pub open spec fn stands_as_said(after: (RunView, StepView)) -> bool {
    match after.1 {
        StepView::Ask(request) => waits_for(after.0, request),
        StepView::Done(_) => after.0.is_idle(),
    }
}

/// The resolver always stands as it says. What it asks to convert comes with
/// the dependencies of that file as they are then.
pub proof fn lemma_resolver_stands_as_said(s: RunView, event: EventView, fs_path: Seq<char>)
    ensures
        stands_as_said(s.proceed()),
        stands_as_said(s.resume(event)),
        s.add_imported_file(fs_path) matches Some(after) ==> stands_as_said(after),
        s.add_fs_file(fs_path).1 matches Ok((path, step)) ==> stands_as_said(
            (s.add_fs_file(fs_path).0, step),
        ),
{
    lemma_proceed_stands_as_said(s);
    match (s.pending, event) {
        (PendingView::Parse { path, fs_path }, EventView::Parsed(Ok(parsed))) => {
            lemma_proceed_stands_as_said(s.opened(path, fs_path, parsed));
        },
        (PendingView::Convert { path, fs_path, parsed }, EventView::Converted(Ok(descriptor))) => {
            lemma_proceed_stands_as_said(
                s.stored(path, FileDescriptorPairView { parsed, descriptor }),
            );
        },
        _ => {},
    }
}

proof fn lemma_proceed_stands_as_said(s: RunView)
    ensures
        stands_as_said(s.proceed()),
{
    if s.open.len() > 0 {
        lemma_first_missing(s.parsed_files, s.open.last().parsed.imports, 0);
    }
}

/// While files are open the resolver stays at work on the outermost of them.
proof fn lemma_proceed_keeps_root(s: RunView)
    requires
        s.open.len() > 0,
    ensures
        s.proceed().1 is Ask ==> s.proceed().0.root() == Some(s.open[0].path),
        !(s.proceed().1 matches StepView::Done(Ok(_))),
{
    lemma_first_missing(s.parsed_files, s.open.last().parsed.imports, 0);
}

/// The resolver stays at work on the file that it was given until it says
/// that it is done; if all went well the file is then among those that are
/// done.
pub proof fn lemma_resume_keeps_root(s: RunView, event: EventView)
    requires
        s.wf(),
        s.root() is Some,
    ensures
        s.resume(event).1 is Ask ==> s.resume(event).0.root() == s.root(),
        s.resume(event).1 matches StepView::Done(Ok(_)) ==> has_key(
            s.resume(event).0.parsed_files,
            s.root().unwrap(),
        ),
{
    match (s.pending, event) {
        (PendingView::Parse { path, fs_path }, EventView::Parsed(Ok(parsed))) => {
            lemma_proceed_keeps_root(s.opened(path, fs_path, parsed));
        },
        (PendingView::Convert { path, fs_path, parsed }, EventView::Converted(Ok(descriptor))) => {
            let pair = FileDescriptorPairView { parsed, descriptor };
            if s.open.len() > 0 {
                lemma_proceed_keeps_root(s.stored(path, pair));
            } else {
                lemma_has_key_after_push(s.parsed_files, (path, pair), path);
            }
        },
        _ => {},
    }
}

/// An input file that is taken up is the file that the resolver is at work
/// on, unless it is done already.
pub proof fn lemma_add_fs_file_sets_root(s: RunView, fs_path: Seq<char>)
    requires
        s.wf(),
        s.is_idle(),
    ensures
        match s.add_fs_file(fs_path) {
            (next, Ok((path, step))) => {
                &&& relative_path(s.includes, fs_path, 0) == Some(path)
                &&& step is Ask ==> next.root() == Some(path)
                &&& step matches StepView::Done(Ok(_)) ==> has_key(next.parsed_files, path)
            },
            (next, Err(e)) => e == ErrorView::FileMustResideInImportPath(fs_path, s.includes),
        },
{
}

/// The canonical path of an input file is its path relative to the first
/// directory that it lies in; it has none where it lies in no directory.
pub proof fn lemma_relative_path_is_first_match(
    includes: Seq<Seq<char>>,
    fs_path: Seq<char>,
    from: int,
)
    requires
        0 <= from,
    ensures
        match relative_path(includes, fs_path, from) {
            None => forall|i: int|
                from <= i < includes.len() ==> stripped(fs_path, #[trigger] includes[i]) is Err,
            Some(path) => exists|k: int|
                from <= k < includes.len() && stripped(fs_path, #[trigger] includes[k]) == Ok::<
                    Seq<char>,
                    PathError,
                >(path) && forall|i: int|
                    from <= i < k ==> stripped(fs_path, #[trigger] includes[i]) is Err,
        },
    decreases includes.len() - from,
{
    if from < includes.len() && stripped(fs_path, includes[from]) is Err {
        lemma_relative_path_is_first_match(includes, fs_path, from + 1);
    }
}

/// An input file that lies in no directory is refused, and nothing changes.
/// With the directory `.` first, a normalized relative path is its own
/// canonical path.
pub proof fn lemma_input_must_lie_in_a_directory(s: RunView, fs_path: Seq<char>)
    requires
        s.is_idle(),
    ensures
        (forall|i: int| 0 <= i < s.includes.len() ==> stripped(fs_path, #[trigger] s.includes[i]) is Err)
            ==> s.add_fs_file(fs_path) == (
            s,
            Err::<(Seq<char>, StepView), ErrorView>(
                ErrorView::FileMustResideInImportPath(fs_path, s.includes),
            ),
        ),
        s.includes.len() > 0 && s.includes[0] == dot()
            && is_normalized(fs_path) ==> relative_path(s.includes, fs_path, 0)
            == Some(fs_path),
{
    lemma_relative_path_is_first_match(s.includes, fs_path, 0);
    lemma_current_directory_holds_relative_paths(fs_path);
}

/// A file that is done is not taken up again: the resolver stays as it is,
/// asks for nothing, and says that it is done.
pub proof fn lemma_done_file_is_not_taken_up_again(s: RunView, fs_path: Seq<char>, path: Seq<char>)
    requires
        s.is_idle(),
        has_key(s.parsed_files, path),
    ensures
        s.add_file(path, fs_path) == (s, StepView::Done(Ok::<(), ErrorView>(()))),
        s.add_imported_file(path) is None,
        relative_path(s.includes, fs_path, 0) == Some(path) ==> s.add_fs_file(fs_path) == (
            s,
            Ok::<(Seq<char>, StepView), ErrorView>((path, StepView::Done(Ok::<(), ErrorView>(())))),
        ),
{
}

/// Once the resolver has done the file that it was given, taking the file up
/// again changes nothing and asks for nothing.
pub proof fn lemma_file_is_resolved_once(s: RunView, event: EventView, fs_path: Seq<char>)
    requires
        s.wf(),
        s.root() is Some,
        s.root() == relative_path(s.includes, fs_path, 0),
        s.resume(event).1 matches StepView::Done(Ok(_)),
    ensures
        ({
            let done = s.resume(event).0;
            done.add_fs_file(fs_path) == (
                done,
                Ok::<(Seq<char>, StepView), ErrorView>(
                    (s.root().unwrap(), StepView::Done(Ok::<(), ErrorView>(()))),
                ),
            )
        }),
{
    lemma_resume_keeps_wf(s, event);
    lemma_resume_keeps_root(s, event);
    lemma_resolver_stands_as_said(s, event, fs_path);
}

/// The place of the first directory at or behind `from` that has the file
/// `path`, where `present` holds the filesystem paths at which there is a
/// file; the number of directories if none has it.
pub open spec fn first_directory_with(
    includes: Seq<Seq<char>>,
    path: Seq<char>,
    present: Set<Seq<char>>,
    from: int,
) -> int
    decreases includes.len() - from,
{
    if from >= includes.len() {
        includes.len() as int
    } else if present.contains(joined(includes[from], path)) {
        from
    } else {
        first_directory_with(includes, path, present, from + 1)
    }
}

/// Where the resolver stands when it has been told of each file that it
/// probes for, at most `limit` of them, whether `present` holds it.
pub open spec fn probes_answered(after: (RunView, StepView), present: Set<Seq<char>>, limit: nat) -> (
    RunView,
    StepView,
)
    decreases limit,
{
    match after.1 {
        StepView::Ask(RequestView::Probe { fs_path }) => if limit == 0 {
            after
        } else {
            probes_answered(
                after.0.resume(EventView::Probed(present.contains(fs_path))),
                present,
                (limit - 1) as nat,
            )
        },
        _ => after,
    }
}

/// An import is read from the first directory that has it, whatever the
/// directories behind it hold; only where none has it does the search go on
/// to the built-in schemas.
pub proof fn lemma_first_directory_wins(
    s: RunView,
    path: Seq<char>,
    present: Set<Seq<char>>,
    dir: int,
)
    requires
        0 <= dir <= s.includes.len(),
        !has_key(s.parsed_files, path),
    ensures
        ({
            let first = first_directory_with(s.includes, path, present, dir);
            probes_answered(s.probe(path, dir), present, (s.includes.len() - dir) as nat) == if first
                < s.includes.len() {
                (
                    RunView {
                        pending: PendingView::Read {
                            path,
                            fs_path: joined(s.includes[first], path),
                        },
                        ..s
                    },
                    StepView::Ask(RequestView::Read { fs_path: joined(s.includes[first], path) }),
                )
            } else {
                s.probe(path, s.includes.len() as int)
            }
        }),
    decreases s.includes.len() - dir,
{
    if dir < s.includes.len() {
        let asked = s.probe(path, dir);
        let fs_path = joined(s.includes[dir], path);
        let limit = (s.includes.len() - dir) as nat;
        let next = asked.0.resume(EventView::Probed(present.contains(fs_path)));
        assert(probes_answered(asked, present, limit) == probes_answered(
            next,
            present,
            (limit - 1) as nat,
        ));
        if !present.contains(fs_path) {
            lemma_first_directory_wins(s, path, present, dir + 1);
        }
    }
}

/// The resolver looks for, reads and has parsed only files that the parser
/// has not been through.
pub proof fn lemma_asked_files_are_new(s: RunView, event: EventView)
    requires
        s.wf(),
    ensures
        match s.resume(event) {
            (next, StepView::Ask(RequestView::Probe { fs_path })) => next.pending matches PendingView::Probe {
                path,
                dir,
            } && !next.is_parsed(path),
            (next, StepView::Ask(RequestView::Read { fs_path })) => next.pending matches PendingView::Read {
                path,
                fs_path,
            } && !next.is_parsed(path),
            (next, StepView::Ask(RequestView::Parse { path, content })) => !next.is_parsed(path),
            _ => true,
        },
{
    lemma_resume_keeps_wf(s, event);
    lemma_resolver_stands_as_said(s, event, Seq::empty());
}

/// A file that the parser has been through stays so while the work goes on:
/// it is done, or on the way to being done.
pub proof fn lemma_parsed_files_stay(s: RunView, event: EventView, path: Seq<char>)
    requires
        s.wf(),
        s.is_parsed(path),
        s.resume(event).1 is Ask,
    ensures
        s.resume(event).0.is_parsed(path),
{
    match (s.pending, event) {
        (PendingView::Parse { path: parsing, fs_path }, EventView::Parsed(Ok(parsed))) => {
            let opened = s.opened(parsing, fs_path, parsed);
            if is_open(s.open, path) {
                let i = choose|i: int| 0 <= i < s.open.len() && (#[trigger] s.open[i]).path == path;
                assert(opened.open[i] == s.open[i]);
            }
            lemma_proceed_keeps_parsed(opened, path);
        },
        (
            PendingView::Convert { path: converting, fs_path, parsed },
            EventView::Converted(Ok(descriptor)),
        ) => {
            let pair = FileDescriptorPairView { parsed, descriptor };
            lemma_has_key_after_push(s.parsed_files, (converting, pair), path);
            lemma_proceed_keeps_parsed(s.stored(converting, pair), path);
        },
        _ => {},
    }
}

proof fn lemma_proceed_keeps_parsed(s: RunView, path: Seq<char>)
    requires
        has_key(s.parsed_files, path) || is_open(s.open, path),
        s.proceed().1 is Ask,
    ensures
        s.proceed().0.is_parsed(path),
{
    lemma_first_missing(s.parsed_files, s.open.last().parsed.imports, 0);
    let top = s.open.last();
    let n = first_missing(s.parsed_files, top.parsed.imports, 0);
    if n >= top.parsed.imports.len() && is_open(s.open, path) {
        let i = choose|i: int| 0 <= i < s.open.len() && (#[trigger] s.open[i]).path == path;
        if i < s.open.len() - 1 {
            assert(s.open.drop_last()[i] == s.open[i]);
        }
    }
}

} // verus!
