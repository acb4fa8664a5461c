//! Filesystem paths as text.
//!
//! A path is a string in which `/` is the only separator. It is read as a
//! sequence of components: an optional root, then the names between the
//! separators. Empty names are skipped, and so is the name `.` unless it is the
//! first name of a path without a root.

use vstd::prelude::*;
use crate::text::{from_chars, to_chars};

verus! {

/// One component of a filesystem path.
pub enum Component {
    /// The root directory: the path starts with `/`.
    RootDir,
    /// The current directory, `.`, at the start of a path.
    CurDir,
    /// The parent directory, `..`.
    ParentDir,
    /// An ordinary name.
    Normal(String),
}

/// The mathematical value of a [`Component`].
pub enum ComponentView {
    RootDir,
    CurDir,
    ParentDir,
    Normal(Seq<char>),
}

impl View for Component {
    type V = ComponentView;

    open spec fn view(&self) -> ComponentView {
        match self {
            Component::RootDir => ComponentView::RootDir,
            Component::CurDir => ComponentView::CurDir,
            Component::ParentDir => ComponentView::ParentDir,
            Component::Normal(name) => ComponentView::Normal(name@),
        }
    }
}

impl DeepView for Component {
    type V = ComponentView;

    open spec fn deep_view(&self) -> ComponentView {
        self@
    }
}

/// The pieces of `s` between its separators: one more than `s` has separators.
pub open spec fn segments(s: Seq<char>) -> Seq<Seq<char>>
    decreases s.len(),
{
    if s.len() == 0 {
        seq![Seq::<char>::empty()]
    } else {
        let before = segments(s.drop_last());
        if s.last() == '/' {
            before.push(Seq::<char>::empty())
        } else {
            before.drop_last().push(before.last().push(s.last()))
        }
    }
}

/// The text `.`.
pub open spec fn dot() -> Seq<char> {
    seq!['.']
}

/// The text `..`.
pub open spec fn dot_dot() -> Seq<char> {
    seq!['.', '.']
}

/// The component that a segment stands for; `first` says that it is the first
/// segment of its path.
pub open spec fn component_of(segment: Seq<char>, first: bool) -> Option<ComponentView> {
    if segment.len() == 0 {
        None
    } else if segment == dot() {
        if first {
            Some(ComponentView::CurDir)
        } else {
            None
        }
    } else if segment == dot_dot() {
        Some(ComponentView::ParentDir)
    } else {
        Some(ComponentView::Normal(segment))
    }
}

/// The components that the first `n` of the segments `segs` stand for.
pub open spec fn components_of_segments(segs: Seq<Seq<char>>, n: int) -> Seq<ComponentView>
    decreases n,
{
    if n <= 0 {
        Seq::empty()
    } else {
        let before = components_of_segments(segs, n - 1);
        match component_of(segs[n - 1], n == 1) {
            Some(c) => before.push(c),
            None => before,
        }
    }
}

/// Whether the path starts at the root directory.
pub open spec fn has_root(path: Seq<char>) -> bool {
    path.len() > 0 && path[0] == '/'
}

/// The components of a path.
pub open spec fn components_of(path: Seq<char>) -> Seq<ComponentView> {
    let names = components_of_segments(segments(path), segments(path).len() as int);
    if has_root(path) {
        seq![ComponentView::RootDir] + names
    } else {
        names
    }
}

/// `dir` followed by the relative path `rel`.
pub open spec fn joined(dir: Seq<char>, rel: Seq<char>) -> Seq<char> {
    if has_root(rel) || dir.len() == 0 {
        rel
    } else if dir.last() == '/' {
        dir + rel
    } else {
        dir.push('/') + rel
    }
}

/// What is left of `path` behind the components `base`, if it starts with them.
pub open spec fn components_after(path: Seq<ComponentView>, base: Seq<ComponentView>) -> Option<
    Seq<ComponentView>,
> {
    if base.len() <= path.len() && path.take(base.len() as int) == base {
        Some(path.skip(base.len() as int))
    } else {
        None
    }
}

/// The view of a sequence of character vectors.
pub open spec fn texts(segs: Seq<Vec<char>>) -> Seq<Seq<char>> {
    Seq::new(segs.len(), |i: int| segs[i]@)
}

/// Splits `chars` at each separator.
pub(crate) fn split_segments(chars: &Vec<char>) -> (segs: Vec<Vec<char>>)
    ensures
        texts(segs@) == segments(chars@),
{
    let mut segs: Vec<Vec<char>> = Vec::new();
    let mut current: Vec<char> = Vec::new();
    let mut i: usize = 0;
    while i < chars.len()
        invariant
            i <= chars.len(),
            texts(segs@).push(current@) == segments(chars@.take(i as int)),
        decreases chars.len() - i,
    {
        let c = chars[i];
        assert(chars@.take(i + 1).drop_last() == chars@.take(i as int));
        if c == '/' {
            segs.push(current);
            current = Vec::new();
        } else {
            current.push(c);
        }
        i += 1;
    }
    assert(chars@.take(chars.len() as int) == chars@);
    segs.push(current);
    segs
}

/// Whether `segment` is the text `.`.
pub(crate) fn is_dot(segment: &Vec<char>) -> (b: bool)
    ensures
        b == (segment@ == dot()),
{
    let b = segment.len() == 1 && segment[0] == '.';
    assert(b ==> segment@ == dot());
    b
}

/// Whether `segment` is the text `..`.
pub(crate) fn is_dot_dot(segment: &Vec<char>) -> (b: bool)
    ensures
        b == (segment@ == dot_dot()),
{
    let b = segment.len() == 2 && segment[0] == '.' && segment[1] == '.';
    assert(b ==> segment@ == dot_dot());
    b
}

/// Whether the path starts at the root directory.
pub fn is_absolute(path: &str) -> (b: bool)
    ensures
        b == has_root(path@),
{
    let chars = to_chars(path);
    chars.len() > 0 && chars[0] == '/'
}

/// The components of `path`.
pub fn components(path: &str) -> (comps: Vec<Component>)
    ensures
        comps.deep_view() == components_of(path@),
{
    let chars = to_chars(path);
    let segs = split_segments(&chars);
    let mut comps: Vec<Component> = Vec::new();
    let rooted = chars.len() > 0 && chars[0] == '/';
    if rooted {
        comps.push(Component::RootDir);
    }
    let ghost root: Seq<ComponentView> = if rooted {
        seq![ComponentView::RootDir]
    } else {
        Seq::empty()
    };
    let mut i: usize = 0;
    while i < segs.len()
        invariant
            i <= segs.len(),
            comps.deep_view() == root + components_of_segments(texts(segs@), i as int),
        decreases segs.len() - i,
    {
        let segment = &segs[i];
        let ghost before = comps.deep_view();
        if segment.len() == 0 {
        } else if is_dot(segment) {
            if i == 0 {
                comps.push(Component::CurDir);
            }
        } else if is_dot_dot(segment) {
            comps.push(Component::ParentDir);
            assert(comps.deep_view() == before.push(ComponentView::ParentDir));
        } else {
            let name = from_chars(segment);
            comps.push(Component::Normal(name));
            assert(comps.deep_view() == before.push(ComponentView::Normal(segment@)));
        }
        i += 1;
    }
    comps
}

/// `dir` followed by the relative path `rel`.
pub fn join(dir: &str, rel: &str) -> (path: String)
    ensures
        path@ == joined(dir@, rel@),
{
    let d = to_chars(dir);
    let r = to_chars(rel);
    let mut out: Vec<char> = Vec::new();
    if !(r.len() > 0 && r[0] == '/') && d.len() > 0 {
        let mut i: usize = 0;
        while i < d.len()
            invariant
                i <= d.len(),
                out@ == d@.take(i as int),
            decreases d.len() - i,
        {
            out.push(d[i]);
            i += 1;
        }
        if d[d.len() - 1] != '/' {
            out.push('/');
        }
    }
    let ghost head = out@;
    let mut j: usize = 0;
    while j < r.len()
        invariant
            j <= r.len(),
            out@ == head + r@.take(j as int),
        decreases r.len() - j,
    {
        out.push(r[j]);
        j += 1;
    }
    from_chars(&out)
}

/// Whether two components are the same.
pub fn same_component(a: &Component, b: &Component) -> (same: bool)
    ensures
        same == (a@ == b@),
{
    match (a, b) {
        (Component::RootDir, Component::RootDir) => true,
        (Component::CurDir, Component::CurDir) => true,
        (Component::ParentDir, Component::ParentDir) => true,
        (Component::Normal(x), Component::Normal(y)) => *x == *y,
        _ => false,
    }
}

/// Whether `path` starts with the components `base`.
pub fn starts_with(path: &Vec<Component>, base: &Vec<Component>) -> (found: bool)
    ensures
        found == components_after(path.deep_view(), base.deep_view()) is Some,
{
    if base.len() > path.len() {
        return false;
    }
    let mut i: usize = 0;
    while i < base.len()
        invariant
            i <= base.len() <= path.len(),
            forall|j: int| 0 <= j < i ==> path@[j]@ == base@[j]@,
        decreases base.len() - i,
    {
        if !same_component(&path[i], &base[i]) {
            assert(base.deep_view()[i as int] == base@[i as int]@);
            return false;
        }
        i += 1;
    }
    assert(path.deep_view().take(base.len() as int) == base.deep_view());
    true
}

} // verus!
