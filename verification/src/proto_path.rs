//! Canonical schema paths.
//!
//! A canonical path names a schema file whatever the host's path syntax: a
//! relative path of ordinary names joined by `/`, with no empty name, no `.`
//! and no `..`.

use vstd::prelude::*;
use crate::path::{
    components, components_after, components_of, components_of_segments, dot, dot_dot, has_root,
    is_dot, is_dot_dot, segments, split_segments, texts, Component, ComponentView,
};
use crate::text::{push_char, to_chars};

verus! {

/// Why a path is not a canonical schema path.
#[derive(Clone, Copy, Debug, PartialEq, Eq, Structural)]
pub enum PathError {
    /// The path is empty.
    Empty,
    /// The path holds a backslash.
    Backslashes,
    /// Two separators follow each other, or one starts or ends the path.
    EmptyComponent,
    /// A component is `.`.
    Dot,
    /// A component is `..`.
    DotDot,
    /// The path starts at the root directory.
    Absolute,
    /// The path does not start with the directory it was to be taken from.
    NotPrefix,
}

/// Whether `name` can be a component of a canonical path.
pub open spec fn is_name(name: Seq<char>) -> bool {
    name.len() > 0 && name != dot() && name != dot_dot() && !name.contains('/')
}

/// Whether `path` is empty or made of names joined by `/`.
pub open spec fn is_normalized(path: Seq<char>) -> bool {
    path.len() == 0 || forall|i: int|
        0 <= i < segments(path).len() ==> is_name(#[trigger] segments(path)[i])
}

/// The first fault of a segment, if it has one.
pub open spec fn segment_fault(segment: Seq<char>) -> Option<PathError> {
    if segment.len() == 0 {
        Some(PathError::EmptyComponent)
    } else if segment == dot() {
        Some(PathError::Dot)
    } else if segment == dot_dot() {
        Some(PathError::DotDot)
    } else {
        None
    }
}

/// The fault of the first faulty one of the first `n` segments, if there is one.
pub open spec fn first_fault(segs: Seq<Seq<char>>, n: int) -> Option<PathError>
    decreases n,
{
    if n <= 0 {
        None
    } else {
        match first_fault(segs, n - 1) {
            Some(e) => Some(e),
            None => segment_fault(segs[n - 1]),
        }
    }
}

/// Whether the text `path` is a canonical path, and if not, why.
pub open spec fn checked(path: Seq<char>) -> Result<Seq<char>, PathError> {
    if path.len() == 0 {
        Err(PathError::Empty)
    } else if path.contains('\\') {
        Err(PathError::Backslashes)
    } else {
        match first_fault(segments(path), segments(path).len() as int) {
            Some(e) => Err(e),
            None => Ok(path),
        }
    }
}

/// The canonical path made of the first `n` components of `comps`: their names
/// joined by `/`. A root or a `..` has no canonical form, nor has a `.` behind a
/// name.
pub open spec fn canonical_of_components(comps: Seq<ComponentView>, n: int) -> Result<
    Seq<char>,
    PathError,
>
    decreases n,
{
    if n <= 0 {
        Ok(Seq::empty())
    } else {
        match canonical_of_components(comps, n - 1) {
            Err(e) => Err(e),
            Ok(before) => match comps[n - 1] {
                ComponentView::RootDir => Err(PathError::Absolute),
                ComponentView::ParentDir => Err(PathError::DotDot),
                ComponentView::CurDir => if before.len() == 0 {
                    Ok(before)
                } else {
                    Err(PathError::Dot)
                },
                ComponentView::Normal(name) => if before.len() == 0 {
                    Ok(name)
                } else {
                    Ok(before.push('/') + name)
                },
            },
        }
    }
}

/// The canonical form of the filesystem path `path`.
pub open spec fn canonical_of(path: Seq<char>) -> Result<Seq<char>, PathError> {
    canonical_of_components(components_of(path), components_of(path).len() as int)
}

/// The canonical form of `path` taken relative to the directory `prefix`.
///
/// The directory `.` stands for the place that relative paths start from, so
/// every relative path lies in it. Any other directory must be the start of
/// `path`, component by component.
pub open spec fn stripped(path: Seq<char>, prefix: Seq<char>) -> Result<Seq<char>, PathError> {
    if components_of(prefix) == seq![ComponentView::CurDir] && !has_root(path) {
        canonical_of(path)
    } else {
        match components_after(components_of(path), components_of(prefix)) {
            None => Err(PathError::NotPrefix),
            Some(rest) => canonical_of_components(rest, rest.len() as int),
        }
    }
}

/// Whether every name among `comps` can be a component of a canonical path.
pub open spec fn names_are_plain(comps: Seq<ComponentView>) -> bool {
    forall|i: int|
        0 <= i < comps.len() ==> (#[trigger] comps[i] matches ComponentView::Normal(name)
            ==> is_name(name))
}

/// No segment holds a separator.
pub proof fn lemma_segments_hold_no_separator(s: Seq<char>)
    ensures
        segments(s).len() >= 1,
        forall|i: int| 0 <= i < segments(s).len() ==> !(#[trigger] segments(s)[i]).contains('/'),
    decreases s.len(),
{
    if s.len() > 0 {
        lemma_segments_hold_no_separator(s.drop_last());
    }
}

/// The components of a path name only plain names.
pub proof fn lemma_components_are_plain(path: Seq<char>)
    ensures
        names_are_plain(components_of(path)),
{
    lemma_segments_hold_no_separator(path);
    let segs = segments(path);
    lemma_names_of_segments_are_plain(segs, segs.len() as int);
}

proof fn lemma_names_of_segments_are_plain(segs: Seq<Seq<char>>, n: int)
    requires
        0 <= n <= segs.len(),
        forall|i: int| 0 <= i < segs.len() ==> !(#[trigger] segs[i]).contains('/'),
    ensures
        names_are_plain(components_of_segments(segs, n)),
    decreases n,
{
    if n > 0 {
        lemma_names_of_segments_are_plain(segs, n - 1);
    }
}

/// A name put behind a path and a separator is one more segment.
pub proof fn lemma_segments_of_appended_name(before: Seq<char>, name: Seq<char>)
    requires
        !name.contains('/'),
    ensures
        segments(before.push('/') + name) == segments(before).push(name),
    decreases name.len(),
{
    let whole = before.push('/') + name;
    if name.len() == 0 {
        assert(whole.drop_last() == before);
        assert(name == Seq::<char>::empty());
    } else {
        let shorter = name.drop_last();
        lemma_segments_of_appended_name(before, shorter);
        assert(whole.drop_last() == before.push('/') + shorter);
        assert(shorter.push(name.last()) == name);
    }
}

/// A name alone is one segment.
pub proof fn lemma_segments_of_name(name: Seq<char>)
    requires
        !name.contains('/'),
    ensures
        segments(name) == seq![name],
    decreases name.len(),
{
    if name.len() == 0 {
        assert(name == Seq::<char>::empty());
    } else {
        let shorter = name.drop_last();
        lemma_segments_of_name(shorter);
        assert(shorter.push(name.last()) == name);
    }
}

/// Plain names joined by `/` make a normalized path.
pub proof fn lemma_canonical_is_normalized(comps: Seq<ComponentView>, n: int)
    requires
        0 <= n <= comps.len(),
        names_are_plain(comps),
    ensures
        canonical_of_components(comps, n) matches Ok(path) ==> is_normalized(path),
    decreases n,
{
    if n > 0 {
        lemma_canonical_is_normalized(comps, n - 1);
        if let Ok(before) = canonical_of_components(comps, n - 1) {
            if let ComponentView::Normal(name) = comps[n - 1] {
                if before.len() == 0 {
                    lemma_segments_of_name(name);
                } else {
                    lemma_segments_of_appended_name(before, name);
                }
            }
        }
    }
}

/// Each of `segs` as the name of a component.
pub open spec fn names_of(segs: Seq<Seq<char>>) -> Seq<ComponentView> {
    Seq::new(segs.len(), |i: int| ComponentView::Normal(segs[i]))
}

/// The components of a normalized path are its segments, each a name.
proof fn lemma_components_of_normalized(segs: Seq<Seq<char>>, n: int)
    requires
        0 <= n <= segs.len(),
        forall|i: int| 0 <= i < segs.len() ==> is_name(#[trigger] segs[i]),
    ensures
        components_of_segments(segs, n) == names_of(segs).take(n),
    decreases n,
{
    if n > 0 {
        lemma_components_of_normalized(segs, n - 1);
    }
}

/// The first segment of a path that starts with a separator is empty.
proof fn lemma_first_segment_of_rooted(s: Seq<char>)
    requires
        has_root(s),
    ensures
        segments(s)[0].len() == 0,
        segments(s).len() >= 2,
    decreases s.len(),
{
    if s.len() == 1 {
        assert(segments(s.drop_last()) == seq![Seq::<char>::empty()]);
    } else {
        lemma_first_segment_of_rooted(s.drop_last());
    }
}

/// The first `n` of the segments `segs`, joined by separators.
pub open spec fn join_segments(segs: Seq<Seq<char>>, n: int) -> Seq<char>
    decreases n,
{
    if n <= 0 {
        Seq::empty()
    } else if n == 1 {
        segs[0]
    } else {
        join_segments(segs, n - 1).push('/') + segs[n - 1]
    }
}

/// Joining the first `n` segments reads no other segment.
proof fn lemma_join_agrees(a: Seq<Seq<char>>, b: Seq<Seq<char>>, n: int)
    requires
        0 <= n <= a.len(),
        n <= b.len(),
        forall|i: int| 0 <= i < n ==> a[i] == b[i],
    ensures
        join_segments(a, n) == join_segments(b, n),
    decreases n,
{
    if n > 1 {
        lemma_join_agrees(a, b, n - 1);
    }
}

/// A text is its segments joined by separators.
pub proof fn lemma_join_of_segments(s: Seq<char>)
    ensures
        join_segments(segments(s), segments(s).len() as int) == s,
    decreases s.len(),
{
    let segs = segments(s);
    if s.len() > 0 {
        let init = s.drop_last();
        let before = segments(init);
        let n = before.len() as int;
        lemma_join_of_segments(init);
        if s.last() == '/' {
            lemma_join_agrees(segs, before, n);
        } else if n > 1 {
            lemma_join_agrees(segs, before, n - 1);
            let head = join_segments(before, n - 1).push('/');
            assert(head + before[n - 1].push(s.last()) == (head + before[n - 1]).push(s.last()));
        }
    }
}

/// Names joined by separators are the canonical path of those names.
proof fn lemma_canonical_of_names(segs: Seq<Seq<char>>, n: int)
    requires
        0 <= n <= segs.len(),
        forall|i: int| 0 <= i < segs.len() ==> is_name(#[trigger] segs[i]),
    ensures
        canonical_of_components(names_of(segs), n) == Ok::<Seq<char>, PathError>(
            join_segments(segs, n),
        ),
        n > 0 ==> join_segments(segs, n).len() > 0,
    decreases n,
{
    if n > 0 {
        lemma_canonical_of_names(segs, n - 1);
    }
}

/// A normalized path is its own canonical form.
pub proof fn lemma_normalized_is_canonical(path: Seq<char>)
    requires
        is_normalized(path),
    ensures
        canonical_of(path) == Ok::<Seq<char>, PathError>(path),
{
    let segs = segments(path);
    if path.len() == 0 {
        assert(components_of_segments(segs, 0) == Seq::<ComponentView>::empty());
        assert(path == Seq::<char>::empty());
    } else {
        if has_root(path) {
            lemma_first_segment_of_rooted(path);
        }
        lemma_components_of_normalized(segs, segs.len() as int);
        assert(components_of(path) == names_of(segs));
        lemma_canonical_of_names(segs, segs.len() as int);
        lemma_join_of_segments(path);
    }
}

/// No fault among the first `n` segments: each of them is free of fault.
proof fn lemma_no_fault(segs: Seq<Seq<char>>, n: int)
    requires
        0 <= n <= segs.len(),
        first_fault(segs, n) is None,
    ensures
        forall|i: int| 0 <= i < n ==> segment_fault(#[trigger] segs[i]) is None,
    decreases n,
{
    if n > 0 {
        lemma_no_fault(segs, n - 1);
    }
}

/// A fault among the first `m` segments stays the first fault of any more.
proof fn lemma_fault_stays(segs: Seq<Seq<char>>, m: int, n: int)
    requires
        0 <= m <= n,
        first_fault(segs, m) is Some,
    ensures
        first_fault(segs, n) == first_fault(segs, m),
    decreases n,
{
    if m < n {
        lemma_fault_stays(segs, m, n - 1);
    }
}

/// Components without a canonical form have none with more behind them.
proof fn lemma_failure_stays(comps: Seq<ComponentView>, m: int, n: int)
    requires
        0 <= m <= n,
        canonical_of_components(comps, m) is Err,
    ensures
        canonical_of_components(comps, n) == canonical_of_components(comps, m),
    decreases n,
{
    if m < n {
        lemma_failure_stays(comps, m, n - 1);
    }
}

/// A text that passes the check is normalized.
pub proof fn lemma_checked_is_normalized(path: Seq<char>)
    requires
        checked(path) is Ok,
    ensures
        checked(path) == Ok::<Seq<char>, PathError>(path),
        is_normalized(path),
{
    let segs = segments(path);
    lemma_no_fault(segs, segs.len() as int);
    lemma_segments_hold_no_separator(path);
}

/// The path `.` is the current directory and nothing else.
pub proof fn lemma_dot_is_current_directory()
    ensures
        components_of(dot()) == seq![ComponentView::CurDir],
{
    assert(segments(dot().drop_last()).len() == 1);
    assert(components_of_segments(segments(dot()), 0) == Seq::<ComponentView>::empty());
}

/// A normalized path does not start at the root.
pub proof fn lemma_normalized_is_relative(path: Seq<char>)
    requires
        is_normalized(path),
    ensures
        !has_root(path),
{
    if has_root(path) {
        lemma_first_segment_of_rooted(path);
    }
}

/// Every relative path lies in the directory `.`: there its canonical form
/// is the one that it has by itself, and a path that is normalized is taken
/// as it is.
pub proof fn lemma_current_directory_holds_relative_paths(path: Seq<char>)
    ensures
        !has_root(path) ==> stripped(path, dot()) == canonical_of(path),
        is_normalized(path) ==> stripped(path, dot()) == Ok::<Seq<char>, PathError>(path),
{
    lemma_dot_is_current_directory();
    if is_normalized(path) {
        lemma_normalized_is_relative(path);
        lemma_normalized_is_canonical(path);
    }
}

/// A path that lies in a directory has its canonical form made of the
/// components that it has behind those of the directory; a path that does
/// not start with the components of a directory other than `.` does not lie
/// in it.
pub proof fn lemma_stripped_is_what_follows(path: Seq<char>, prefix: Seq<char>)
    ensures
        stripped(path, prefix) is Ok ==> is_normalized(stripped(path, prefix)->Ok_0),
        components_of(prefix) != seq![ComponentView::CurDir] && components_after(
            components_of(path),
            components_of(prefix),
        ) is None ==> stripped(path, prefix) == Err::<Seq<char>, PathError>(PathError::NotPrefix),
{
    lemma_components_are_plain(path);
    let all = components_of(path);
    if components_of(prefix) == seq![ComponentView::CurDir] && !has_root(path) {
        lemma_canonical_is_normalized(all, all.len() as int);
    } else {
        match components_after(all, components_of(prefix)) {
            None => {},
            Some(rest) => {
                lemma_canonical_is_normalized(rest, rest.len() as int);
            },
        }
    }
}

/// A canonical schema path.
#[derive(Debug, PartialEq, Eq, Hash)]
pub struct ProtoPathBuf {
    path: String,
}

impl View for ProtoPathBuf {
    type V = Seq<char>;

    closed spec fn view(&self) -> Seq<char> {
        self.path@
    }
}

impl DeepView for ProtoPathBuf {
    type V = Seq<char>;

    open spec fn deep_view(&self) -> Seq<char> {
        self@
    }
}

impl Clone for ProtoPathBuf {
    fn clone(&self) -> (copy: Self)
        ensures
            copy@ == self@,
    {
        proof {
            use_type_invariant(self);
        }
        ProtoPathBuf { path: self.path.clone() }
    }
}

/// The text of a path, or why there is none.
pub open spec fn path_text(r: Result<ProtoPathBuf, PathError>) -> Result<Seq<char>, PathError> {
    match r {
        Ok(p) => Ok(p@),
        Err(e) => Err(e),
    }
}

impl ProtoPathBuf {
    #[verifier::type_invariant]
    spec fn normalized(&self) -> bool {
        is_normalized(self.path@)
    }

    /// The canonical path with the text `path`, if the text is one: not empty,
    /// free of backslashes, and made of names joined by `/`.
    pub fn new(path: String) -> (r: Result<ProtoPathBuf, PathError>)
        ensures
            path_text(r) == checked(path@),
    {
        let chars = to_chars(path.as_str());
        if chars.len() == 0 {
            return Err(PathError::Empty);
        }
        let mut i: usize = 0;
        while i < chars.len()
            invariant
                i <= chars.len(),
                chars@ == path@,
                forall|j: int| 0 <= j < i ==> chars@[j] != '\\',
            decreases chars.len() - i,
        {
            if chars[i] == '\\' {
                return Err(PathError::Backslashes);
            }
            i += 1;
        }
        let segs = split_segments(&chars);
        let mut k: usize = 0;
        while k < segs.len()
            invariant
                k <= segs.len(),
                path@.len() > 0,
                !path@.contains('\\'),
                texts(segs@) == segments(path@),
                first_fault(texts(segs@), k as int) is None,
            decreases segs.len() - k,
        {
            let segment = &segs[k];
            proof {
                if segment_fault(segment@) is Some {
                    lemma_fault_stays(texts(segs@), k + 1, segs.len() as int);
                }
            }
            if segment.len() == 0 {
                return Err(PathError::EmptyComponent);
            } else if is_dot(segment) {
                return Err(PathError::Dot);
            } else if is_dot_dot(segment) {
                return Err(PathError::DotDot);
            }
            k += 1;
        }
        proof {
            lemma_checked_is_normalized(path@);
        }
        Ok(ProtoPathBuf { path })
    }

    /// The canonical form of the filesystem path `path`: its names joined by `/`.
    /// A `.` at the start is dropped; a rooted path and one with `..` have none.
    pub fn from_path(path: &str) -> (r: Result<ProtoPathBuf, PathError>)
        ensures
            path_text(r) == canonical_of(path@),
    {
        let comps = components(path);
        proof {
            lemma_components_are_plain(path@);
            assert(comps.deep_view().skip(0) == comps.deep_view());
        }
        ProtoPathBuf::from_components(&comps, 0)
    }

    /// The canonical path made of the components of `comps` from `from` on.
    pub(crate) fn from_components(comps: &Vec<Component>, from: usize) -> (r: Result<
        ProtoPathBuf,
        PathError,
    >)
        requires
            from <= comps.len(),
            names_are_plain(comps.deep_view()),
        ensures
            path_text(r) == canonical_of_components(
                comps.deep_view().skip(from as int),
                comps.len() - from,
            ),
    {
        let ghost rest = comps.deep_view().skip(from as int);
        let mut text = String::new();
        let mut i: usize = from;
        while i < comps.len()
            invariant
                from <= i <= comps.len(),
                rest == comps.deep_view().skip(from as int),
                canonical_of_components(rest, i - from) == Ok::<Seq<char>, PathError>(text@),
            decreases comps.len() - i,
        {
            proof {
                if canonical_of_components(rest, i - from + 1) is Err {
                    lemma_failure_stays(rest, i - from + 1, comps.len() - from);
                }
            }
            match &comps[i] {
                Component::RootDir => {
                    return Err(PathError::Absolute);
                },
                Component::ParentDir => {
                    return Err(PathError::DotDot);
                },
                Component::CurDir => {
                    if !text.as_str().is_empty() {
                        return Err(PathError::Dot);
                    }
                },
                Component::Normal(name) => {
                    if !text.as_str().is_empty() {
                        push_char(&mut text, '/');
                    }
                    text.append(name.as_str());
                },
            }
            i += 1;
        }
        proof {
            lemma_canonical_is_normalized(rest, rest.len() as int);
        }
        Ok(ProtoPathBuf { path: text })
    }

    /// The text of the path.
    pub fn to_str(&self) -> (text: &str)
        ensures
            text@ == self@,
            is_normalized(text@),
    {
        proof {
            use_type_invariant(self);
        }
        self.path.as_str()
    }

    /// The path as a filesystem path, relative to any directory: the same
    /// text, whose canonical form is this path again.
    pub fn to_path(&self) -> (path: &str)
        ensures
            path@ == self@,
            canonical_of(path@) == Ok::<Seq<char>, PathError>(self@),
    {
        proof {
            use_type_invariant(self);
            lemma_normalized_is_canonical(self.path@);
        }
        self.path.as_str()
    }

    /// The text of the path, as a string of its own.
    pub fn to_string(&self) -> (text: String)
        ensures
            text@ == self@,
    {
        self.path.clone()
    }

    /// Whether the two paths are the same.
    pub fn same_as(&self, other: &ProtoPathBuf) -> (same: bool)
        ensures
            same == (self@ == other@),
    {
        self.path == other.path
    }
}

} // verus!
