//! What passes between the resolver and its surroundings.
//!
//! The resolver reads no file, parses no text and converts no parsed file
//! itself. Where it needs one of these it stops and hands out a [`Request`];
//! it goes on when it is handed the [`Event`] that answers the request.

use vstd::prelude::*;
use protobuf::descriptor::FileDescriptorProto;
use crate::error::{ConvertError, Error, ErrorView, ParserErrorView, ParserErrorWithLocation};
use crate::linked_hash_map::{entries_view, EntryView};
use crate::model::{FileDescriptorPair, FileModel, FileModelView};
use crate::proto_path::ProtoPathBuf;

verus! {

/// What the resolver needs done before it can go on.
#[derive(Debug, PartialEq)]
pub enum Request {
    /// Tell whether there is a file at `fs_path`. Answered by [`Event::Probed`].
    Probe { fs_path: String },
    /// Read the file at `fs_path` as text. Answered by [`Event::Read`].
    Read { fs_path: String },
    /// Parse `content`, the text of the file `path`, as a schema. Answered by
    /// [`Event::Parsed`].
    Parse { path: ProtoPathBuf, content: String },
    /// Make the descriptor of the file `path`, which was parsed to `parsed`.
    /// `deps` holds the files that it depends on and no others, in the order in
    /// which its imports first lead to them. Answered by [`Event::Converted`].
    Convert { path: ProtoPathBuf, parsed: FileModel, deps: Vec<(ProtoPathBuf, FileDescriptorPair)> },
}

/// The mathematical value of a [`Request`].
pub enum RequestView {
    Probe { fs_path: Seq<char> },
    Read { fs_path: Seq<char> },
    Parse { path: Seq<char>, content: Seq<char> },
    Convert { path: Seq<char>, parsed: FileModelView, deps: Seq<EntryView> },
}

impl View for Request {
    type V = RequestView;

    open spec fn view(&self) -> RequestView {
        match self {
            Request::Probe { fs_path } => RequestView::Probe { fs_path: fs_path@ },
            Request::Read { fs_path } => RequestView::Read { fs_path: fs_path@ },
            Request::Parse { path, content } => RequestView::Parse {
                path: path@,
                content: content@,
            },
            Request::Convert { path, parsed, deps } => RequestView::Convert {
                path: path@,
                parsed: parsed@,
                deps: entries_view(deps@),
            },
        }
    }
}

/// The answer to a [`Request`].
#[derive(Debug, PartialEq)]
pub enum Event {
    /// Whether there is a file at the path that was probed.
    Probed(bool),
    /// The text of the file that was to be read, or why it could not be read.
    Read(Result<String, String>),
    /// The parsed file, or the fault in its text.
    Parsed(Result<FileModel, ParserErrorWithLocation>),
    /// The descriptor, or why there is none.
    Converted(Result<FileDescriptorProto, ConvertError>),
}

/// The mathematical value of an [`Event`].
pub enum EventView {
    Probed(bool),
    Read(Result<Seq<char>, Seq<char>>),
    Parsed(Result<FileModelView, ParserErrorView>),
    Converted(Result<FileDescriptorProto, Seq<char>>),
}

impl View for Event {
    type V = EventView;

    open spec fn view(&self) -> EventView {
        match self {
            Event::Probed(found) => EventView::Probed(*found),
            Event::Read(Ok(content)) => EventView::Read(Ok(content@)),
            Event::Read(Err(reason)) => EventView::Read(Err(reason@)),
            Event::Parsed(Ok(parsed)) => EventView::Parsed(Ok(parsed@)),
            Event::Parsed(Err(e)) => EventView::Parsed(Err(e@)),
            Event::Converted(Ok(descriptor)) => EventView::Converted(Ok(*descriptor)),
            Event::Converted(Err(e)) => EventView::Converted(Err(e@)),
        }
    }
}

/// Where the resolver stands after a call.
#[derive(Debug, PartialEq)]
pub enum Step {
    /// It waits for the answer to this request.
    Ask(Request),
    /// The file that it was given is resolved with all that it imports, or
    /// could not be.
    Done(Result<(), Error>),
}

/// The mathematical value of a [`Step`].
pub enum StepView {
    Ask(RequestView),
    Done(Result<(), ErrorView>),
}

impl View for Step {
    type V = StepView;

    open spec fn view(&self) -> StepView {
        match self {
            Step::Ask(request) => StepView::Ask(request@),
            Step::Done(Ok(())) => StepView::Done(Ok(())),
            Step::Done(Err(e)) => StepView::Done(Err(e@)),
        }
    }
}

} // verus!
