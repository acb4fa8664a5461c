//! Compiles a set of schema files to descriptors: finds each file that is
//! imported, in the directories that are given or among the schemas that are
//! built in, and has each file parsed and converted once, after all that it
//! imports.
//!
//! The library decides; its caller acts. [`parse_and_typecheck`] starts a
//! [`Session`] and says what is to be done first: to tell whether a file
//! exists, to read one, to parse a text, or to convert a parsed file. The
//! caller does it and hands the outcome to [`Session::step`], which says what
//! comes next, until the session ends with its result.

pub mod closure;
pub mod dependencies;
pub mod embedded;
pub mod error;
pub mod linked_hash_map;
pub mod model;
pub mod path;
pub mod proto_path;
pub mod protocol;
pub mod run;
pub mod session;
pub mod state;
pub mod text;

pub use crate::dependencies::parse_dependencies;
pub use crate::error::{ConvertError, Error, ParserErrorWithLocation};
pub use crate::model::{FileDescriptorPair, FileModel, Import, ImportVis};
pub use crate::proto_path::{PathError, ProtoPathBuf};
pub use crate::protocol::{Event, Request, Step};
pub use crate::run::Run;
pub use crate::session::{parse_and_typecheck, Action, ParsedAndTypechecked, Session};
