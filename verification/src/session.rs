//! A session: the input files of one call, resolved one after the other by
//! one resolver.

use vstd::prelude::*;
use protobuf::descriptor::FileDescriptorProto;
use crate::closure::imports_come_first;
use crate::error::{Error, ErrorView};
use crate::linked_hash_map::{descriptors_of, distinct_keys, has_key, EntryView};
use crate::proto_path::ProtoPathBuf;
use crate::protocol::{Event, EventView, Request, RequestView, Step, StepView};
use crate::run::Run;
use crate::state::{
    lemma_resolver_stands_as_said, lemma_resume_keeps_root, lemma_resume_keeps_wf, relative_path,
    RunView,
};
use crate::text::copy_texts;

verus! {

/// What a session found.
#[derive(Debug, PartialEq)]
pub struct ParsedAndTypechecked {
    /// The canonical path of each input file, in the order of the input.
    pub relative_paths: Vec<ProtoPathBuf>,
    /// The descriptors of the input files and of all that they import, each
    /// once, in the order in which the files were done.
    pub file_descriptors: Vec<FileDescriptorProto>,
}

/// The mathematical value of a [`ParsedAndTypechecked`].
pub struct ParsedAndTypecheckedView {
    pub relative_paths: Seq<Seq<char>>,
    pub file_descriptors: Seq<FileDescriptorProto>,
}

impl View for ParsedAndTypechecked {
    type V = ParsedAndTypecheckedView;

    open spec fn view(&self) -> ParsedAndTypecheckedView {
        ParsedAndTypecheckedView {
            relative_paths: self.relative_paths.deep_view(),
            file_descriptors: self.file_descriptors@,
        }
    }
}

impl ParsedAndTypecheckedView {
    /// Whether this is what a session for the input files `inputs` is to find:
    /// the canonical path of each input file, in the order of the input, and
    /// the descriptors of files of which none comes twice, each comes behind
    /// the files that it imports, and among which each input file is.
    pub open spec fn covers(self, includes: Seq<Seq<char>>, inputs: Seq<Seq<char>>) -> bool {
        &&& self.relative_paths.len() == inputs.len()
        &&& forall|i: int|
            0 <= i < inputs.len() ==> relative_path(includes, #[trigger] inputs[i], 0) == Some(
                self.relative_paths[i],
            )
        &&& exists|files: Seq<EntryView>|
            {
                &&& distinct_keys(files)
                &&& imports_come_first(files)
                &&& #[trigger] descriptors_of(files) == self.file_descriptors
                &&& forall|i: int|
                    0 <= i < self.relative_paths.len() ==> has_key(
                        files,
                        #[trigger] self.relative_paths[i],
                    )
            }
    }
}

/// What is to be done next in a session.
#[derive(Debug, PartialEq)]
pub enum Action {
    /// Answer this request, and hand the answer to [`Session::step`].
    Ask(Request),
    /// Nothing: the session is over, with this result.
    Finish(Result<ParsedAndTypechecked, Error>),
}

/// The mathematical value of an [`Action`].
pub enum ActionView {
    Ask(RequestView),
    Finish(Result<ParsedAndTypecheckedView, ErrorView>),
}

impl View for Action {
    type V = ActionView;

    open spec fn view(&self) -> ActionView {
        match self {
            Action::Ask(request) => ActionView::Ask(request@),
            Action::Finish(Ok(found)) => ActionView::Finish(Ok(found@)),
            Action::Finish(Err(e)) => ActionView::Finish(Err(e@)),
        }
    }
}

/// The state of a session.
pub struct SessionView {
    /// The resolver.
    pub run: RunView,
    /// The input files.
    pub inputs: Seq<Seq<char>>,
    /// The canonical paths of the input files that were taken up.
    pub relative_paths: Seq<Seq<char>>,
    /// Whether the session is over.
    pub finished: bool,
}

impl SessionView {
    /// How many of the input files that were taken up are done.
    pub open spec fn done(self) -> int {
        if self.run.is_idle() {
            self.relative_paths.len() as int
        } else {
            self.relative_paths.len() - 1
        }
    }

    /// What holds of every state that a session reaches: the resolver is as
    /// every resolver is; the paths that are listed are the canonical paths of
    /// the first input files, in their order; and while the session goes on,
    /// the files of all these paths are done, but for the last where the
    /// resolver is at work: then it is at work on that file.
    pub open spec fn wf(self) -> bool {
        &&& self.run.wf()
        &&& self.finished ==> self.run.is_idle()
        &&& self.relative_paths.len() <= self.inputs.len()
        &&& forall|i: int|
            0 <= i < self.relative_paths.len() ==> relative_path(
                self.run.includes,
                self.inputs[i],
                0,
            ) == Some(#[trigger] self.relative_paths[i])
        &&& !self.finished ==> {
            &&& forall|i: int|
                0 <= i < self.done() ==> has_key(
                    self.run.parsed_files,
                    #[trigger] self.relative_paths[i],
                )
            &&& !self.run.is_idle() ==> self.relative_paths.len() > 0 && self.run.root() == Some(
                self.relative_paths.last(),
            )
        }
    }

    /// The session as it ends with `result`.
    pub open spec fn finish(self, result: Result<ParsedAndTypecheckedView, ErrorView>) -> (
        SessionView,
        ActionView,
    ) {
        (SessionView { finished: true, ..self }, ActionView::Finish(result))
    }

    /// Takes up the input files that are left, one after the other, until one
    /// of them needs an answer or cannot be resolved. When none is left the
    /// session ends and hands out what it found.
    pub open spec fn advance(self) -> (SessionView, ActionView)
        decreases self.inputs.len() - self.relative_paths.len(),
    {
        let i = self.relative_paths.len() as int;
        if i >= self.inputs.len() {
            SessionView {
                run: RunView { parsed_files: Seq::empty(), ..self.run },
                relative_paths: Seq::empty(),
                ..self
            }.finish(
                Ok(
                    ParsedAndTypecheckedView {
                        relative_paths: self.relative_paths,
                        file_descriptors: descriptors_of(self.run.parsed_files),
                    },
                ),
            )
        } else {
            let (run, added) = self.run.add_fs_file(self.inputs[i]);
            match added {
                Err(e) => SessionView { run, ..self }.finish(Err(e)),
                Ok((path, step)) => {
                    let next = SessionView {
                        run,
                        relative_paths: self.relative_paths.push(path),
                        ..self
                    };
                    match step {
                        StepView::Ask(request) => (next, ActionView::Ask(request)),
                        StepView::Done(Ok(())) => next.advance(),
                        StepView::Done(Err(e)) => next.finish(Err(e)),
                    }
                },
            }
        }
    }

    /// A session for the input files `inputs`, with the first thing to do.
    pub open spec fn start(includes: Seq<Seq<char>>, inputs: Seq<Seq<char>>) -> (
        SessionView,
        ActionView,
    ) {
        SessionView {
            run: RunView::new(includes),
            inputs,
            relative_paths: Seq::empty(),
            finished: false,
        }.advance()
    }

    /// Goes on with the answer `event` to what was asked. A session that is
    /// over takes no answer.
    pub open spec fn step(self, event: EventView) -> (SessionView, ActionView) {
        if self.finished {
            (self, ActionView::Finish(Err(ErrorView::OutOfTurn)))
        } else {
            let (run, step) = self.run.resume(event);
            let next = SessionView { run, ..self };
            match step {
                StepView::Ask(request) => (next, ActionView::Ask(request)),
                StepView::Done(Ok(())) => next.advance(),
                StepView::Done(Err(e)) => next.finish(Err(e)),
            }
        }
    }
}

/// Taking up the input files that are left leads from a state as every state
/// is to another such state.
pub proof fn lemma_advance_keeps_wf(s: SessionView)
    requires
        s.wf(),
        s.run.is_idle(),
        !s.finished,
    ensures
        s.advance().0.wf(),
        s.advance().0.inputs == s.inputs,
        s.advance().0.run.includes == s.run.includes,
    decreases s.inputs.len() - s.relative_paths.len(),
{
    let i = s.relative_paths.len() as int;
    if i < s.inputs.len() {
        let (run, added) = s.run.add_fs_file(s.inputs[i]);
        if let Ok((path, StepView::Done(Ok(_)))) = added {
            lemma_advance_keeps_wf(
                SessionView { run, relative_paths: s.relative_paths.push(path), ..s },
            );
        }
    }
}

/// What a session finds when no input file is left covers its input files.
pub proof fn lemma_advance_finds_every_input(s: SessionView)
    requires
        s.wf(),
        s.run.is_idle(),
        !s.finished,
    ensures
        s.advance().1 matches ActionView::Finish(Ok(found)) ==> found.covers(
            s.run.includes,
            s.inputs,
        ),
    decreases s.inputs.len() - s.relative_paths.len(),
{
    let i = s.relative_paths.len() as int;
    if i < s.inputs.len() {
        let (run, added) = s.run.add_fs_file(s.inputs[i]);
        if let Ok((path, StepView::Done(Ok(_)))) = added {
            lemma_advance_finds_every_input(
                SessionView { run, relative_paths: s.relative_paths.push(path), ..s },
            );
        }
    }
}

/// What a session finds covers its input files: a session that ends well
/// hands out the canonical path of each input file, in the order of the
/// input, and the descriptors of files of which none comes twice, each comes
/// behind the files that it imports, and among which each input file is.
pub proof fn lemma_session_finds_every_input(s: SessionView, event: EventView)
    requires
        s.wf(),
    ensures
        s.step(event).1 matches ActionView::Finish(Ok(found)) ==> found.covers(
            s.run.includes,
            s.inputs,
        ),
{
    if !s.finished {
        lemma_resumed_is_wf(s, event);
        let (run, step) = s.run.resume(event);
        if step matches StepView::Done(Ok(_)) {
            lemma_advance_finds_every_input(SessionView { run, ..s });
        }
    }
}

/// An answer that the resolver takes well leaves the session as every
/// session is.
proof fn lemma_resumed_is_wf(s: SessionView, event: EventView)
    requires
        s.wf(),
        !s.finished,
    ensures
        ({
            let (run, step) = s.run.resume(event);
            let next = SessionView { run, ..s };
            &&& run.wf()
            &&& run.includes == s.run.includes
            &&& step is Done ==> run.is_idle()
            &&& !(step matches StepView::Done(Err(_))) ==> next.wf()
        }),
{
    lemma_resume_keeps_wf(s.run, event);
    lemma_resolver_stands_as_said(s.run, event, Seq::empty());
    if !s.run.is_idle() {
        lemma_resume_keeps_root(s.run, event);
    }
}

/// Every answer leads from a state as every state is to another such state.
pub proof fn lemma_step_keeps_wf(s: SessionView, event: EventView)
    requires
        s.wf(),
    ensures
        s.step(event).0.wf(),
        s.step(event).0.inputs == s.inputs,
        s.step(event).0.run.includes == s.run.includes,
{
    if !s.finished {
        lemma_resumed_is_wf(s, event);
        let (run, step) = s.run.resume(event);
        if step matches StepView::Done(Ok(_)) {
            lemma_advance_keeps_wf(SessionView { run, ..s });
        }
    }
}

/// One session: its resolver and how far it has come through its input files.
pub struct Session {
    run: Run,
    inputs: Vec<String>,
    relative_paths: Vec<ProtoPathBuf>,
    finished: bool,
}

impl View for Session {
    type V = SessionView;

    closed spec fn view(&self) -> SessionView {
        SessionView {
            run: self.run@,
            inputs: self.inputs.deep_view(),
            relative_paths: self.relative_paths.deep_view(),
            finished: self.finished,
        }
    }
}

impl Session {
    /// Whether the session is over.
    pub fn is_finished(&self) -> (finished: bool)
        ensures
            finished == self@.finished,
    {
        self.finished
    }

    /// Takes up the input files that are left, one after the other, until one
    /// of them needs an answer or cannot be resolved.
    fn advance(&mut self) -> (action: Action)
        requires
            old(self)@.wf(),
            old(self)@.run.is_idle(),
            !old(self)@.finished,
        ensures
            final(self)@.wf(),
            (final(self)@, action@) == old(self)@.advance(),
    {
        loop
            invariant
                self@.wf(),
                self@.run.is_idle(),
                !self@.finished,
                self@.advance() == old(self)@.advance(),
            decreases self.inputs.len() - self.relative_paths.len(),
        {
            let i = self.relative_paths.len();
            if i >= self.inputs.len() {
                let files = self.run.take_parsed_files();
                let mut relative_paths: Vec<ProtoPathBuf> = Vec::new();
                core::mem::swap(&mut self.relative_paths, &mut relative_paths);
                self.finished = true;
                assert(self.relative_paths.deep_view() == Seq::<Seq<char>>::empty());
                return Action::Finish(
                    Ok(
                        ParsedAndTypechecked {
                            relative_paths,
                            file_descriptors: files.into_descriptors(),
                        },
                    ),
                );
            }
            match self.run.add_fs_file(self.inputs[i].as_str()) {
                Err(e) => {
                    self.finished = true;
                    return Action::Finish(Err(e));
                },
                Ok((path, step)) => {
                    let ghost listed = self.relative_paths.deep_view();
                    self.relative_paths.push(path);
                    assert(self.relative_paths.deep_view() == listed.push(path@));
                    match step {
                        Step::Ask(request) => {
                            return Action::Ask(request);
                        },
                        Step::Done(Ok(())) => {},
                        Step::Done(Err(e)) => {
                            self.finished = true;
                            return Action::Finish(Err(e));
                        },
                    }
                },
            }
        }
    }

    /// Goes on with the answer `event` to what was asked. A session that is
    /// over takes no answer: it says [`Error::OutOfTurn`] and stays as it is.
    pub fn step(&mut self, event: Event) -> (action: Action)
        requires
            old(self)@.wf(),
        ensures
            final(self)@.wf(),
            (final(self)@, action@) == old(self)@.step(event@),
            action matches Action::Finish(Ok(found)) ==> found@.covers(
                old(self)@.run.includes,
                old(self)@.inputs,
            ),
    {
        proof {
            lemma_session_finds_every_input(self@, event@);
        }
        if self.finished {
            return Action::Finish(Err(Error::OutOfTurn));
        }
        proof {
            lemma_resumed_is_wf(self@, event@);
        }
        match self.run.resume(event) {
            Step::Ask(request) => Action::Ask(request),
            Step::Done(Ok(())) => self.advance(),
            Step::Done(Err(e)) => {
                self.finished = true;
                Action::Finish(Err(e))
            },
        }
    }
}

/// Starts a session that resolves the input files `input`, in their order,
/// against the directories `includes`, in theirs. With the session comes the
/// first thing to do.
pub fn parse_and_typecheck(includes: &[String], input: &[String]) -> (started: (Session, Action))
    ensures
        started.0@.wf(),
        (started.0@, started.1@) == SessionView::start(includes.deep_view(), input.deep_view()),
        started.1 matches Action::Finish(Ok(found)) ==> found@.covers(
            includes.deep_view(),
            input.deep_view(),
        ),
{
    let mut session = Session {
        run: Run::new(copy_texts(includes)),
        inputs: copy_texts(input),
        relative_paths: Vec::new(),
        finished: false,
    };
    assert(session.relative_paths.deep_view() == Seq::<Seq<char>>::empty());
    let action = session.advance();
    (session, action)
}

} // verus!
