//! The resolver: it takes input files and events, and says what is to be done
//! next.

use vstd::prelude::*;
use crate::closure::{
    closure_from, lemma_closure_extends, lemma_closure_in_parts, lemma_closure_of_one,
    lemma_missing_after_push, missing,
};
use crate::embedded::embedded;
use crate::error::{Error, ErrorView};
use crate::linked_hash_map::LinkedHashMap;
use crate::model::{FileDescriptorPair, FileModel};
use crate::path::{
    components, is_absolute, join, same_component, starts_with, Component, ComponentView,
};
use crate::proto_path::{lemma_components_are_plain, path_text, stripped, PathError, ProtoPathBuf};
use crate::protocol::{Event, Request, Step, StepView};
use crate::state::{
    first_missing, is_open, lemma_resume_keeps_wf, lemma_stored_is_sound, relative_path, wrapped,
    OpenFileView, PendingView, RunView,
};
use crate::text::copy_texts;

verus! {

/// A file whose imports are being resolved.
struct OpenFile {
    path: ProtoPathBuf,
    fs_path: String,
    parsed: FileModel,
}

impl View for OpenFile {
    type V = OpenFileView;

    closed spec fn view(&self) -> OpenFileView {
        OpenFileView { path: self.path@, fs_path: self.fs_path@, parsed: self.parsed@ }
    }
}

/// What the resolver waits for.
enum Pending {
    Idle,
    Probe { path: ProtoPathBuf, dir: usize },
    Read { path: ProtoPathBuf, fs_path: String },
    Parse { path: ProtoPathBuf, fs_path: String },
    Convert { path: ProtoPathBuf, fs_path: String, parsed: FileModel },
}

impl View for Pending {
    type V = PendingView;

    closed spec fn view(&self) -> PendingView {
        match self {
            Pending::Idle => PendingView::Idle,
            Pending::Probe { path, dir } => PendingView::Probe { path: path@, dir: *dir as int },
            Pending::Read { path, fs_path } => PendingView::Read { path: path@, fs_path: fs_path@ },
            Pending::Parse { path, fs_path } => PendingView::Parse {
                path: path@,
                fs_path: fs_path@,
            },
            Pending::Convert { path, fs_path, parsed } => PendingView::Convert {
                path: path@,
                fs_path: fs_path@,
                parsed: parsed@,
            },
        }
    }
}

/// The open files as mathematical values.
spec fn open_view(open: Seq<OpenFile>) -> Seq<OpenFileView> {
    Seq::new(open.len(), |i: int| open[i]@)
}

/// The resolver of one session: the files that are done, the directories that
/// are searched, and how far the file in hand has come.
pub struct Run {
    parsed_files: LinkedHashMap,
    includes: Vec<String>,
    open: Vec<OpenFile>,
    pending: Pending,
}

impl View for Run {
    type V = RunView;

    closed spec fn view(&self) -> RunView {
        RunView {
            parsed_files: self.parsed_files@,
            includes: self.includes.deep_view(),
            open: open_view(self.open@),
            pending: self.pending@,
        }
    }
}

/// A path or an error, as mathematical values.
pub open spec fn added_view(r: Result<(ProtoPathBuf, Step), Error>) -> Result<
    (Seq<char>, StepView),
    ErrorView,
> {
    match r {
        Ok((path, step)) => Ok((path@, step@)),
        Err(e) => Err(e@),
    }
}

impl Run {
    /// A resolver that searches the directories `includes`, in their order,
    /// and has done nothing yet.
    pub fn new(includes: Vec<String>) -> (run: Run)
        ensures
            run@ == RunView::new(includes.deep_view()),
            run@.wf(),
    {
        let run = Run {
            parsed_files: LinkedHashMap::new(),
            includes,
            open: Vec::new(),
            pending: Pending::Idle,
        };
        assert(open_view(run.open@) == Seq::<OpenFileView>::empty());
        run
    }

    /// The directories that are searched, in the order of the search.
    pub fn includes(&self) -> (includes: &Vec<String>)
        ensures
            includes.deep_view() == self@.includes,
    {
        &self.includes
    }

    /// The files that are done, in the order in which they were done.
    pub fn parsed_files(&self) -> (files: &LinkedHashMap)
        ensures
            files@ == self@.parsed_files,
    {
        &self.parsed_files
    }

    /// Hands out the files that are done, in the order in which they were
    /// done, and keeps none.
    pub fn take_parsed_files(&mut self) -> (files: LinkedHashMap)
        ensures
            files@ == old(self)@.parsed_files,
            final(self)@ == (RunView { parsed_files: Seq::empty(), ..old(self)@ }),
    {
        let mut files = LinkedHashMap::new();
        core::mem::swap(&mut self.parsed_files, &mut files);
        files
    }

    /// Whether the resolver is ready for a new file.
    pub fn is_idle(&self) -> (idle: bool)
        ensures
            idle == self@.is_idle(),
    {
        let waiting = match &self.pending {
            Pending::Idle => false,
            _ => true,
        };
        !waiting && self.open.len() == 0
    }

    /// The canonical form of `path` taken relative to the directory `prefix`.
    /// Every relative path lies in the directory `.`; any other directory must
    /// be the start of `path`, component by component.
    pub fn strip_prefix(path: &str, prefix: &str) -> (r: Result<ProtoPathBuf, PathError>)
        ensures
            path_text(r) == stripped(path@, prefix@),
    {
        let base = components(prefix);
        let here = base.len() == 1 && same_component(&base[0], &Component::CurDir);
        proof {
            if here {
                assert(base.deep_view() == seq![ComponentView::CurDir]);
            } else if base.len() == 1 {
                assert(base.deep_view()[0] != ComponentView::CurDir);
            }
        }
        if here && !is_absolute(path) {
            ProtoPathBuf::from_path(path)
        } else {
            let all = components(path);
            if starts_with(&all, &base) {
                proof {
                    lemma_components_are_plain(path@);
                }
                ProtoPathBuf::from_components(&all, base.len())
            } else {
                Err(PathError::NotPrefix)
            }
        }
    }

    /// Puts the file `protobuf_path` behind `result` unless it is there, and
    /// behind it the files that it depends on and that are not there yet, in
    /// the order in which its imports first lead to them. A path that names no
    /// file that is done brings nothing.
    pub fn get_file_and_all_deps_already_parsed(
        &self,
        protobuf_path: &ProtoPathBuf,
        result: &mut LinkedHashMap,
    )
        requires
            self@.sound(),
            old(result).wf(),
        ensures
            final(result).wf(),
            final(result)@ == closure_from(
                self@.parsed_files,
                seq![protobuf_path@],
                old(result)@,
            ),
        decreases missing(self@.parsed_files, old(result)@, self@.parsed_files.len() as int), 0int,
    {
        let ghost files = self@.parsed_files;
        proof {
            lemma_closure_of_one(files, protobuf_path@, result@);
        }
        if result.contains_key(protobuf_path) {
            return ;
        }
        let pair = match self.parsed_files.get(protobuf_path) {
            Some(pair) => pair,
            None => {
                return ;
            },
        };
        proof {
            lemma_missing_after_push(files, result@, (protobuf_path@, pair@), files.len() as int);
        }
        result.insert(protobuf_path.clone(), pair.clone());
        self.get_all_deps_already_parsed(&pair.parsed, result);
    }

    /// Puts behind `result` the files that `parsed` depends on and that are
    /// not there yet, in the order in which its imports first lead to them.
    pub fn get_all_deps_already_parsed(&self, parsed: &FileModel, result: &mut LinkedHashMap)
        requires
            self@.sound(),
            old(result).wf(),
        ensures
            final(result).wf(),
            final(result)@ == closure_from(
                self@.parsed_files,
                parsed@.import_paths(),
                old(result)@,
            ),
        decreases missing(self@.parsed_files, old(result)@, self@.parsed_files.len() as int), 1int,
    {
        let ghost files = self@.parsed_files;
        let ghost paths = parsed@.import_paths();
        let ghost start = result@;
        let mut i: usize = 0;
        assert(paths.skip(0) == paths);
        while i < parsed.imports.len()
            invariant
                i <= parsed.imports.len(),
                files == self@.parsed_files,
                paths == parsed@.import_paths(),
                start == old(result)@,
                self@.sound(),
                result.wf(),
                closure_from(files, paths.skip(i as int), result@) == closure_from(
                    files,
                    paths,
                    start,
                ),
                missing(files, result@, files.len() as int) <= missing(
                    files,
                    start,
                    files.len() as int,
                ),
            decreases parsed.imports.len() - i,
        {
            let ghost before = result@;
            let ghost path = parsed.imports@[i as int].path@;
            proof {
                assert(paths.skip(i as int) == seq![path] + paths.skip(i + 1));
                lemma_closure_in_parts(files, seq![path], paths.skip(i + 1), before);
                lemma_closure_extends(files, seq![path], before);
            }
            self.get_file_and_all_deps_already_parsed(&parsed.imports[i].path, result);
            i += 1;
        }
    }

    /// Gives up with `error` as it is.
    fn abort(&mut self, error: Error) -> (step: Step)
        ensures
            (final(self)@, step@) == old(self)@.abort(error@),
    {
        self.open = Vec::new();
        self.pending = Pending::Idle;
        assert(open_view(self.open@) == Seq::<OpenFileView>::empty());
        Step::Done(Err(error))
    }

    /// Gives up with `error`, which every open file wraps with its name.
    fn fail(&mut self, error: Error) -> (step: Step)
        ensures
            (final(self)@, step@) == old(self)@.fail(error@),
    {
        let ghost before = self@;
        let ghost cause = error@;
        let mut error = error;
        while self.open.len() > 0
            invariant
                self.parsed_files@ == before.parsed_files,
                self.includes.deep_view() == before.includes,
                self.open@.len() <= before.open.len(),
                forall|i: int| 0 <= i < self.open@.len() ==> self.open@[i]@ == before.open[i],
                wrapped(error@, before.open, self.open@.len() as int) == wrapped(
                    cause,
                    before.open,
                    before.open.len() as int,
                ),
            decreases self.open@.len(),
        {
            let file = self.open.pop().unwrap();
            error = error.in_file(file.fs_path);
        }
        self.pending = Pending::Idle;
        assert(open_view(self.open@) == Seq::<OpenFileView>::empty());
        Step::Done(Err(error))
    }

    /// Takes up the text of the file `protobuf_path`: it is to be parsed.
    fn add_file_content(&mut self, protobuf_path: ProtoPathBuf, fs_path: String, content: String) -> (step:
        Step)
        ensures
            (final(self)@, step@) == old(self)@.add_file_content(
                protobuf_path@,
                fs_path@,
                content@,
            ),
    {
        let request = Request::Parse { path: protobuf_path.clone(), content };
        self.pending = Pending::Parse { path: protobuf_path, fs_path };
        Step::Ask(request)
    }

    /// Looks for the import `protobuf_path` in the directory at `dir` and
    /// those behind it, then among the built-in schemas.
    fn probe(&mut self, protobuf_path: ProtoPathBuf, dir: usize) -> (step: Step)
        ensures
            (final(self)@, step@) == old(self)@.probe(protobuf_path@, dir as int),
    {
        if dir < self.includes.len() {
            let fs_path = join(self.includes[dir].as_str(), protobuf_path.to_path());
            self.pending = Pending::Probe { path: protobuf_path, dir };
            Step::Ask(Request::Probe { fs_path })
        } else {
            match embedded(protobuf_path.to_str()) {
                Some(content) => {
                    let fs_path = protobuf_path.to_string();
                    self.add_file_content(protobuf_path, fs_path, content)
                },
                None => {
                    let dirs = copy_texts(self.includes.as_slice());
                    self.fail(Error::FileNotFoundInImportPath(protobuf_path.to_string(), dirs))
                },
            }
        }
    }

    /// Whether `protobuf_path` is one of the files whose imports are being
    /// resolved.
    fn is_open(&self, protobuf_path: &ProtoPathBuf) -> (found: bool)
        ensures
            found == is_open(self@.open, protobuf_path@),
    {
        let mut i: usize = 0;
        while i < self.open.len()
            invariant
                i <= self.open.len(),
                forall|j: int| 0 <= j < i ==> (#[trigger] self@.open[j]).path != protobuf_path@,
            decreases self.open.len() - i,
        {
            if self.open[i].path.same_as(protobuf_path) {
                assert(self@.open[i as int].path == protobuf_path@);
                return true;
            }
            i += 1;
        }
        false
    }

    /// Takes up the file at the canonical path `protobuf_path`. There is
    /// nothing to do where the file is done: then the answer is `None`. A file
    /// that is being resolved cannot be imported. Any other is looked for: in
    /// the directories, in their order, then among the built-in schemas. While
    /// an answer is due no file is taken up: the work ends with
    /// [`Error::OutOfTurn`].
    pub fn add_imported_file(&mut self, protobuf_path: &ProtoPathBuf) -> (step: Option<Step>)
        requires
            old(self)@.sound(),
        ensures
            match old(self)@.add_imported_file(protobuf_path@) {
                None => step is None && final(self)@ == old(self)@,
                Some(next) => step matches Some(s) && (final(self)@, s@) == next
                    && final(self)@.wf(),
            },
    {
        let waiting = match &self.pending {
            Pending::Idle => false,
            _ => true,
        };
        if waiting {
            return Some(self.abort(Error::OutOfTurn));
        }
        if self.parsed_files.contains_key(protobuf_path) {
            return None;
        }
        if self.is_open(protobuf_path) {
            return Some(self.fail(Error::CyclicImport(protobuf_path.to_string())));
        }
        Some(self.probe(protobuf_path.clone(), 0))
    }

    /// Goes on with the innermost open file: takes up its first import that is
    /// not done, or, where all are, closes the file and asks for its
    /// descriptor. With no file open, the work is done.
    fn proceed(&mut self) -> (step: Step)
        requires
            old(self)@.sound(),
        ensures
            (final(self)@, step@) == old(self)@.proceed(),
    {
        if self.open.len() == 0 {
            self.pending = Pending::Idle;
            return Step::Done(Ok(()));
        }
        self.pending = Pending::Idle;
        let ghost before = self@;
        let ghost top = before.open.last();
        let ghost files = before.parsed_files;
        let last = self.open.len() - 1;
        let mut i: usize = 0;
        while i < self.open[last].parsed.imports.len()
            invariant
                self@ == before,
                before.sound(),
                before == (RunView { pending: PendingView::Idle, ..old(self)@ }),
                files == before.parsed_files,
                top == before.open.last(),
                last == self.open.len() - 1,
                top == self.open@[last as int]@,
                i <= self.open@[last as int].parsed.imports.len(),
                first_missing(files, top.parsed.imports, 0) == first_missing(
                    files,
                    top.parsed.imports,
                    i as int,
                ),
            decreases self.open@[last as int].parsed.imports.len() - i,
        {
            if !self.parsed_files.contains_key(&self.open[last].parsed.imports[i].path) {
                let path = self.open[last].parsed.imports[i].path.clone();
                let step = self.add_imported_file(&path);
                return step.unwrap();
            }
            i += 1;
        }
        let file = self.open.pop().unwrap();
        assert(open_view(self.open@) == before.open.drop_last());
        let mut result = LinkedHashMap::new();
        self.get_all_deps_already_parsed(&file.parsed, &mut result);
        let deps = result.into_entries();
        let request = Request::Convert {
            path: file.path.clone(),
            parsed: file.parsed.clone(),
            deps,
        };
        self.pending = Pending::Convert {
            path: file.path,
            fs_path: file.fs_path,
            parsed: file.parsed,
        };
        Step::Ask(request)
    }

    /// Takes up the file `protobuf_path`, to be read from `fs_path`. A file
    /// that is done is not read again.
    fn add_file(&mut self, protobuf_path: ProtoPathBuf, fs_path: String) -> (step: Step)
        requires
            old(self)@.sound(),
        ensures
            (final(self)@, step@) == old(self)@.add_file(protobuf_path@, fs_path@),
    {
        if self.parsed_files.contains_key(&protobuf_path) {
            return self.proceed();
        }
        let request = Request::Read { fs_path: fs_path.clone() };
        self.pending = Pending::Read { path: protobuf_path, fs_path };
        Step::Ask(request)
    }

    /// The canonical path of the input file at `fs_path`: the one relative to
    /// the first directory that it lies in.
    fn relative_path(&self, fs_path: &str) -> (path: Option<ProtoPathBuf>)
        ensures
            match path {
                Some(p) => relative_path(self@.includes, fs_path@, 0) == Some(p@),
                None => relative_path(self@.includes, fs_path@, 0) is None,
            },
    {
        let mut i: usize = 0;
        while i < self.includes.len()
            invariant
                i <= self.includes.len(),
                relative_path(self@.includes, fs_path@, 0) == relative_path(
                    self@.includes,
                    fs_path@,
                    i as int,
                ),
            decreases self.includes.len() - i,
        {
            match Run::strip_prefix(fs_path, self.includes[i].as_str()) {
                Ok(path) => {
                    return Some(path);
                },
                Err(_) => {},
            }
            i += 1;
        }
        None
    }

    /// Takes up the input file at `fs_path`. Its canonical path is the one
    /// relative to the first directory that it lies in; with it comes what is
    /// to be done next. A file that lies in none of the directories is
    /// refused, and so is any file while an answer is due.
    pub fn add_fs_file(&mut self, fs_path: &str) -> (r: Result<(ProtoPathBuf, Step), Error>)
        requires
            old(self)@.wf(),
        ensures
            final(self)@.wf(),
            final(self)@ == old(self)@.add_fs_file(fs_path@).0,
            added_view(r) == old(self)@.add_fs_file(fs_path@).1,
    {
        if !self.is_idle() {
            let _ = self.abort(Error::OutOfTurn);
            return Err(Error::OutOfTurn);
        }
        match self.relative_path(fs_path) {
            None => {
                let dirs = copy_texts(self.includes.as_slice());
                Err(Error::FileMustResideInImportPath(fs_path.to_owned(), dirs))
            },
            Some(relative_path) => {
                let step = self.add_file(relative_path.clone(), fs_path.to_owned());
                Ok((relative_path, step))
            },
        }
    }

    /// Goes on with the answer `event` to what was asked. An answer to
    /// something else, or to nothing, ends the work with [`Error::OutOfTurn`].
    pub fn resume(&mut self, event: Event) -> (step: Step)
        requires
            old(self)@.wf(),
        ensures
            final(self)@.wf(),
            (final(self)@, step@) == old(self)@.resume(event@),
    {
        proof {
            lemma_resume_keeps_wf(self@, event@);
        }
        let mut pending = Pending::Idle;
        core::mem::swap(&mut self.pending, &mut pending);
        match (pending, event) {
            (Pending::Probe { path, dir }, Event::Probed(found)) => {
                if found {
                    let fs_path = join(self.includes[dir].as_str(), path.to_path());
                    self.add_file(path, fs_path)
                } else {
                    assert(dir < self.includes.len());
                    self.probe(path, dir + 1)
                }
            },
            (Pending::Read { path, fs_path }, Event::Read(Ok(content))) => {
                self.add_file_content(path, fs_path, content)
            },
            (Pending::Read { path, fs_path }, Event::Read(Err(reason))) => {
                self.fail(Error::CouldNotReadFile(fs_path, reason))
            },
            (Pending::Parse { path, fs_path }, Event::Parsed(Ok(parsed))) => {
                let ghost before = self.open@;
                self.open.push(OpenFile { path, fs_path, parsed });
                assert(open_view(self.open@) == open_view(before).push(
                    OpenFileView { path: path@, fs_path: fs_path@, parsed: parsed@ },
                ));
                self.proceed()
            },
            (Pending::Parse { path, fs_path }, Event::Parsed(Err(e))) => {
                self.fail(Error::Syntax(e).in_file(fs_path))
            },
            (Pending::Convert { path, fs_path, parsed }, Event::Converted(Ok(descriptor))) => {
                let pair = FileDescriptorPair { parsed, descriptor };
                proof {
                    lemma_stored_is_sound(old(self)@, path@, pair@);
                }
                self.parsed_files.insert(path, pair);
                self.proceed()
            },
            (Pending::Convert { path, fs_path, parsed }, Event::Converted(Err(e))) => {
                self.fail(Error::Semantic(e).in_file(fs_path))
            },
            _ => self.abort(Error::OutOfTurn),
        }
    }
}

} // verus!
