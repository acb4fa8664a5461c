//! The imports of one file as a descriptor that holds nothing else.

use vstd::prelude::*;
use protobuf::descriptor::FileDescriptorProto;
use crate::error::ParserErrorWithLocation;
use crate::model::{FileModel, FileModelView, ImportView, ImportVis};

verus! {

/// The field `dependency` of a descriptor: the paths of the files that the
/// file imports.
pub uninterp spec fn dependency_of(descriptor: FileDescriptorProto) -> Seq<Seq<char>>;

/// The field `public_dependency` of a descriptor: the places in `dependency`
/// of the public imports.
pub uninterp spec fn public_dependency_of(descriptor: FileDescriptorProto) -> Seq<i32>;

/// The field `weak_dependency` of a descriptor: the places in `dependency` of
/// the weak imports.
pub uninterp spec fn weak_dependency_of(descriptor: FileDescriptorProto) -> Seq<i32>;

/// A descriptor that holds the three lists and nothing else.
///
/// Trusted: the body makes an empty message with `FileDescriptorProto::new`,
/// which is the default value with every list empty, and moves the three
/// lists into its public fields `dependency`, `public_dependency` and
/// `weak_dependency`.
#[verifier::external_body]
fn descriptor_of_dependencies(
    dependency: Vec<String>,
    public_dependency: Vec<i32>,
    weak_dependency: Vec<i32>,
) -> (descriptor: FileDescriptorProto)
    ensures
        dependency_of(descriptor) == dependency.deep_view(),
        public_dependency_of(descriptor) == public_dependency@,
        weak_dependency_of(descriptor) == weak_dependency@,
{
    let mut descriptor = FileDescriptorProto::new();
    descriptor.dependency = dependency;
    descriptor.public_dependency = public_dependency;
    descriptor.weak_dependency = weak_dependency;
    descriptor
}

/// The places, among the first `n` imports, of those with the visibility
/// `vis`, in rising order.
pub open spec fn places_of(imports: Seq<ImportView>, vis: ImportVis, n: int) -> Seq<i32>
    decreases n,
{
    if n <= 0 {
        Seq::empty()
    } else if imports[n - 1].vis == vis {
        places_of(imports, vis, n - 1).push((n - 1) as i32)
    } else {
        places_of(imports, vis, n - 1)
    }
}

/// Whether `descriptor` lists the imports of `parsed`: every path, in the
/// order of declaration, and the places of the public and of the weak ones.
pub open spec fn lists_imports(descriptor: FileDescriptorProto, parsed: FileModelView) -> bool {
    &&& dependency_of(descriptor) == parsed.import_paths()
    &&& public_dependency_of(descriptor) == places_of(
        parsed.imports,
        ImportVis::Public,
        parsed.imports.len() as int,
    )
    &&& weak_dependency_of(descriptor) == places_of(
        parsed.imports,
        ImportVis::Weak,
        parsed.imports.len() as int,
    )
}

/// The imports of a file that was parsed, as a descriptor that holds only
/// them; the fault of a file that could not be parsed is handed on.
pub fn parse_dependencies(parsed: Result<FileModel, ParserErrorWithLocation>) -> (r: Result<
    FileDescriptorProto,
    ParserErrorWithLocation,
>)
    requires
        parsed matches Ok(model) ==> model.imports.len() <= i32::MAX,
    ensures
        match parsed {
            Ok(model) => r matches Ok(descriptor) && lists_imports(descriptor, model@),
            Err(e) => r == Err::<FileDescriptorProto, ParserErrorWithLocation>(e),
        },
{
    let model = match parsed {
        Ok(model) => model,
        Err(e) => {
            return Err(e);
        },
    };
    let mut dependency: Vec<String> = Vec::new();
    let mut public_dependency: Vec<i32> = Vec::new();
    let mut weak_dependency: Vec<i32> = Vec::new();
    let mut i: usize = 0;
    while i < model.imports.len()
        invariant
            i <= model.imports.len() <= i32::MAX,
            dependency.deep_view() == model@.import_paths().take(i as int),
            public_dependency@ == places_of(model@.imports, ImportVis::Public, i as int),
            weak_dependency@ == places_of(model@.imports, ImportVis::Weak, i as int),
        decreases model.imports.len() - i,
    {
        let import = &model.imports[i];
        match import.vis {
            ImportVis::Public => {
                public_dependency.push(i as i32);
            },
            ImportVis::Weak => {
                weak_dependency.push(i as i32);
            },
            ImportVis::Default => {},
        }
        dependency.push(import.path.to_string());
        assert(model@.import_paths().take(i + 1) == model@.import_paths().take(i as int).push(
            import.path@,
        ));
        i += 1;
    }
    assert(model@.import_paths().take(model.imports.len() as int) == model@.import_paths());
    Ok(descriptor_of_dependencies(dependency, public_dependency, weak_dependency))
}

} // verus!
