//! What the resolver knows of a parsed schema file.

use vstd::prelude::*;
use protobuf::descriptor::FileDescriptorProto;
use crate::proto_path::ProtoPathBuf;

verus! {

/// The descriptor of one schema file, `FileDescriptorProto` of the protobuf
/// crate. Its content is not read here: a descriptor is taken from the
/// converter, kept, copied and handed out.
#[verifier::external_type_specification]
#[verifier::external_body]
pub struct ExFileDescriptorProto(FileDescriptorProto);

/// How an import passes on what it brings.
#[derive(Clone, Copy, Debug, PartialEq, Eq, Structural)]
pub enum ImportVis {
    /// An ordinary import.
    Default,
    /// `import public`: importers of this file see the imported file too.
    Public,
    /// `import weak`.
    Weak,
}

/// One import declaration.
#[derive(Debug, PartialEq, Eq)]
pub struct Import {
    /// The imported file.
    pub path: ProtoPathBuf,
    /// Its visibility.
    pub vis: ImportVis,
}

/// The mathematical value of an [`Import`].
pub struct ImportView {
    pub path: Seq<char>,
    pub vis: ImportVis,
}

impl View for Import {
    type V = ImportView;

    open spec fn view(&self) -> ImportView {
        ImportView { path: self.path@, vis: self.vis }
    }
}

impl DeepView for Import {
    type V = ImportView;

    open spec fn deep_view(&self) -> ImportView {
        self@
    }
}

impl Clone for Import {
    fn clone(&self) -> (copy: Self)
        ensures
            copy@ == self@,
    {
        Import { path: self.path.clone(), vis: self.vis }
    }
}

/// A parsed schema file, as far as resolution reads it: its imports, in the
/// order in which the file declares them, and its package. The declarations
/// of the file stay with the parser and the converter.
#[derive(Debug, PartialEq, Eq)]
pub struct FileModel {
    /// The imports, in declaration order.
    pub imports: Vec<Import>,
    /// The package name; empty where the file declares none.
    pub package: String,
}

/// The mathematical value of a [`FileModel`].
pub struct FileModelView {
    pub imports: Seq<ImportView>,
    pub package: Seq<char>,
}

impl View for FileModel {
    type V = FileModelView;

    open spec fn view(&self) -> FileModelView {
        FileModelView { imports: self.imports.deep_view(), package: self.package@ }
    }
}

impl DeepView for FileModel {
    type V = FileModelView;

    open spec fn deep_view(&self) -> FileModelView {
        self@
    }
}

impl Clone for FileModel {
    fn clone(&self) -> (copy: Self)
        ensures
            copy@ == self@,
    {
        let mut imports: Vec<Import> = Vec::new();
        let mut i: usize = 0;
        while i < self.imports.len()
            invariant
                i <= self.imports.len(),
                imports.deep_view() == self.imports.deep_view().take(i as int),
            decreases self.imports.len() - i,
        {
            imports.push(self.imports[i].clone());
            assert(self.imports.deep_view().take(i + 1) == self.imports.deep_view().take(
                i as int,
            ).push(self.imports@[i as int]@));
            i += 1;
        }
        assert(self.imports.deep_view().take(self.imports.len() as int)
            == self.imports.deep_view());
        FileModel { imports, package: self.package.clone() }
    }
}

impl FileModelView {
    /// The imported paths, in declaration order.
    pub open spec fn import_paths(self) -> Seq<Seq<char>> {
        Seq::new(self.imports.len(), |i: int| self.imports[i].path)
    }
}

/// A parsed file with the descriptor that was made of it.
#[derive(Debug, PartialEq)]
pub struct FileDescriptorPair {
    /// The parsed file.
    pub parsed: FileModel,
    /// Its descriptor.
    pub descriptor: FileDescriptorProto,
}

/// The mathematical value of a [`FileDescriptorPair`].
pub struct FileDescriptorPairView {
    pub parsed: FileModelView,
    pub descriptor: FileDescriptorProto,
}

impl View for FileDescriptorPair {
    type V = FileDescriptorPairView;

    open spec fn view(&self) -> FileDescriptorPairView {
        FileDescriptorPairView { parsed: self.parsed@, descriptor: self.descriptor }
    }
}

impl DeepView for FileDescriptorPair {
    type V = FileDescriptorPairView;

    open spec fn deep_view(&self) -> FileDescriptorPairView {
        self@
    }
}

/// A copy of a descriptor.
///
/// Trusted: the body is `FileDescriptorProto::clone`, which the protobuf crate
/// derives: it copies the message field by field, so the copy is the same
/// message.
#[verifier::external_body]
pub(crate) fn clone_descriptor(descriptor: &FileDescriptorProto) -> (copy: FileDescriptorProto)
    ensures
        copy == *descriptor,
{
    descriptor.clone()
}

impl Clone for FileDescriptorPair {
    fn clone(&self) -> (copy: Self)
        ensures
            copy@ == self@,
    {
        FileDescriptorPair {
            parsed: self.parsed.clone(),
            descriptor: clone_descriptor(&self.descriptor),
        }
    }
}

} // verus!
