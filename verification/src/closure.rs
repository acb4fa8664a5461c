//! The files that one file depends on: what its imports bring, directly or
//! through other imports, in the order in which a depth-first walk over the
//! declared imports first meets them.

use vstd::prelude::*;
use crate::linked_hash_map::{distinct_keys, has_key, index_of_key, lookup, EntryView};
use crate::model::FileModelView;

verus! {

/// Whether every import of `parsed` is among `files`.
pub open spec fn imports_known(files: Seq<EntryView>, parsed: FileModelView) -> bool {
    forall|k: int|
        0 <= k < parsed.imports.len() ==> has_key(files, (#[trigger] parsed.imports[k]).path)
}

/// Whether `files` holds every import of each of its files.
pub open spec fn closed_under_imports(files: Seq<EntryView>) -> bool {
    forall|i: int| 0 <= i < files.len() ==> imports_known(files, (#[trigger] files[i]).1.parsed)
}

/// Whether each file comes behind the files that it imports.
pub open spec fn imports_come_first(files: Seq<EntryView>) -> bool {
    forall|i: int|
        0 <= i < files.len() ==> imports_known(files.take(i), (#[trigger] files[i]).1.parsed)
}

/// Files that come behind what they import hold every import of each of them.
pub proof fn lemma_imports_first_is_closed(files: Seq<EntryView>)
    requires
        imports_come_first(files),
    ensures
        closed_under_imports(files),
{
}

/// How many of the first `n` files are not among `result`.
pub open spec fn missing(files: Seq<EntryView>, result: Seq<EntryView>, n: int) -> nat
    decreases n,
{
    if n <= 0 {
        0
    } else {
        missing(files, result, n - 1) + if has_key(result, files[n - 1].0) {
            0nat
        } else {
            1nat
        }
    }
}

/// `result`, and behind it the files that the paths of `worklist` bring and
/// that `result` does not hold yet. The walk takes the first path of the
/// worklist; if it names a file of `files` that is new, the file goes behind
/// `result` and its imports go to the front of the worklist.
pub open spec fn closure_from(
    files: Seq<EntryView>,
    worklist: Seq<Seq<char>>,
    result: Seq<EntryView>,
) -> Seq<EntryView>
    decreases missing(files, result, files.len() as int), worklist.len(),
    via closure_from_terminates
{
    if worklist.len() == 0 {
        result
    } else {
        let path = worklist[0];
        let rest = worklist.skip(1);
        if has_key(result, path) || !has_key(files, path) {
            closure_from(files, rest, result)
        } else {
            let found = files[index_of_key(files, path)].1;
            closure_from(files, found.parsed.import_paths() + rest, result.push((path, found)))
        }
    }
}

#[via_fn]
proof fn closure_from_terminates(
    files: Seq<EntryView>,
    worklist: Seq<Seq<char>>,
    result: Seq<EntryView>,
) {
    if worklist.len() > 0 {
        let path = worklist[0];
        if !has_key(result, path) && has_key(files, path) {
            let at = index_of_key(files, path);
            lemma_missing_after_push(files, result, (path, files[at].1), files.len() as int);
        }
    }
}

/// The files that `parsed` depends on, each with what `files` holds for it.
pub open spec fn deps_of(files: Seq<EntryView>, parsed: FileModelView) -> Seq<EntryView> {
    closure_from(files, parsed.import_paths(), Seq::empty())
}

/// One more entry has the keys of the others and its own.
pub proof fn lemma_has_key_after_push(entries: Seq<EntryView>, entry: EntryView, key: Seq<char>)
    ensures
        has_key(entries.push(entry), key) == (has_key(entries, key) || key == entry.0),
{
    let grown = entries.push(entry);
    if has_key(entries, key) {
        let i = index_of_key(entries, key);
        assert(grown[i] == entries[i]);
    }
    if key == entry.0 {
        assert(grown[entries.len() as int] == entry);
    }
}

/// One more entry in `result` leaves no more files missing, and fewer if it is
/// a new one of the first `n` files.
pub proof fn lemma_missing_after_push(
    files: Seq<EntryView>,
    result: Seq<EntryView>,
    entry: EntryView,
    n: int,
)
    requires
        0 <= n <= files.len(),
    ensures
        missing(files, result.push(entry), n) <= missing(files, result, n),
        !has_key(result, entry.0) && (exists|i: int| 0 <= i < n && (#[trigger] files[i]).0 == entry.0)
            ==> missing(files, result.push(entry), n) < missing(files, result, n),
    decreases n,
{
    if n > 0 {
        lemma_missing_after_push(files, result, entry, n - 1);
        lemma_has_key_after_push(result, entry, files[n - 1].0);
        if !has_key(result, entry.0) && (exists|i: int|
            0 <= i < n && (#[trigger] files[i]).0 == entry.0) {
        }
    }
}

/// The walk only adds behind `result`.
pub proof fn lemma_closure_extends(
    files: Seq<EntryView>,
    worklist: Seq<Seq<char>>,
    result: Seq<EntryView>,
)
    ensures
        result.len() <= closure_from(files, worklist, result).len(),
        closure_from(files, worklist, result).take(result.len() as int) == result,
        missing(files, closure_from(files, worklist, result), files.len() as int) <= missing(
            files,
            result,
            files.len() as int,
        ),
    decreases missing(files, result, files.len() as int), worklist.len(),
{
    if worklist.len() > 0 {
        let path = worklist[0];
        let rest = worklist.skip(1);
        if has_key(result, path) || !has_key(files, path) {
            lemma_closure_extends(files, rest, result);
        } else {
            let found = files[index_of_key(files, path)].1;
            let grown = result.push((path, found));
            lemma_missing_after_push(files, result, (path, found), files.len() as int);
            lemma_closure_extends(files, found.parsed.import_paths() + rest, grown);
        }
    }
}

/// Walking a worklist is walking its front part and then the rest.
pub proof fn lemma_closure_in_parts(
    files: Seq<EntryView>,
    front: Seq<Seq<char>>,
    back: Seq<Seq<char>>,
    result: Seq<EntryView>,
)
    ensures
        closure_from(files, front + back, result) == closure_from(
            files,
            back,
            closure_from(files, front, result),
        ),
    decreases missing(files, result, files.len() as int), front.len(),
{
    if front.len() > 0 {
        let path = front[0];
        let rest = front.skip(1);
        assert((front + back).skip(1) == rest + back);
        if has_key(result, path) || !has_key(files, path) {
            lemma_closure_in_parts(files, rest, back, result);
        } else {
            let found = files[index_of_key(files, path)].1;
            let grown = result.push((path, found));
            let imports = found.parsed.import_paths();
            lemma_missing_after_push(files, result, (path, found), files.len() as int);
            assert(imports + (rest + back) == (imports + rest) + back);
            lemma_closure_in_parts(files, imports + rest, back, grown);
        }
    }
}

/// Walking from one path: nothing changes where the path is known already or
/// names no file; else the file goes in and its imports are walked.
pub proof fn lemma_closure_of_one(files: Seq<EntryView>, path: Seq<char>, result: Seq<EntryView>)
    ensures
        closure_from(files, seq![path], result) == if has_key(result, path) || !has_key(
            files,
            path,
        ) {
            result
        } else {
            let found = files[index_of_key(files, path)].1;
            closure_from(files, found.parsed.import_paths(), result.push((path, found)))
        },
{
    let worklist = seq![path];
    if has_key(result, path) || !has_key(files, path) {
        assert(closure_from(files, worklist.skip(1), result) == result);
    }
}

/// Whether the file `from`, one of `files`, imports `to`.
pub open spec fn imports(files: Seq<EntryView>, from: Seq<char>, to: Seq<char>) -> bool {
    has_key(files, from) && files[index_of_key(files, from)].1.parsed.import_paths().contains(to)
}

/// Whether each path of `chain` but the last imports the next.
pub open spec fn is_chain(files: Seq<EntryView>, chain: Seq<Seq<char>>) -> bool {
    chain.len() > 0 && forall|k: int|
        0 <= k < chain.len() - 1 ==> imports(files, #[trigger] chain[k], chain[k + 1])
}

/// Whether imports lead to `path` from one of `roots`: it is one of them, or
/// one of them imports it, or imports a file that imports it, and so on.
pub open spec fn reachable(files: Seq<EntryView>, roots: Seq<Seq<char>>, path: Seq<char>) -> bool {
    exists|chain: Seq<Seq<char>>|
        #[trigger] is_chain(files, chain) && roots.contains(chain[0]) && chain.last() == path
}

/// Whether each of `entries` is what `files` holds for its path.
pub open spec fn all_from(files: Seq<EntryView>, entries: Seq<EntryView>) -> bool {
    forall|j: int|
        0 <= j < entries.len() ==> has_key(files, (#[trigger] entries[j]).0) && lookup(
            files,
            entries[j].0,
        ) == Some(entries[j].1)
}

/// Whether imports lead to each of `entries` from one of `roots`.
pub open spec fn all_reachable(
    files: Seq<EntryView>,
    roots: Seq<Seq<char>>,
    entries: Seq<EntryView>,
) -> bool {
    forall|j: int| 0 <= j < entries.len() ==> reachable(files, roots, (#[trigger] entries[j]).0)
}

/// A path that is reachable leads to what it imports.
proof fn lemma_reachable_step(
    files: Seq<EntryView>,
    roots: Seq<Seq<char>>,
    from: Seq<char>,
    to: Seq<char>,
)
    requires
        reachable(files, roots, from),
        imports(files, from, to),
    ensures
        reachable(files, roots, to),
{
    let chain = choose|chain: Seq<Seq<char>>|
        #[trigger] is_chain(files, chain) && roots.contains(chain[0]) && chain.last() == from;
    let longer = chain.push(to);
    assert(is_chain(files, longer));
}

/// A root is reachable.
proof fn lemma_root_is_reachable(files: Seq<EntryView>, roots: Seq<Seq<char>>, i: int)
    requires
        0 <= i < roots.len(),
    ensures
        reachable(files, roots, roots[i]),
{
    let chain = seq![roots[i]];
    assert(is_chain(files, chain));
}

/// What the walk adds behind `result` is taken from `files`, once each, and
/// imports lead to it from the worklist.
pub proof fn lemma_closure_is_sound(
    files: Seq<EntryView>,
    roots: Seq<Seq<char>>,
    worklist: Seq<Seq<char>>,
    result: Seq<EntryView>,
)
    requires
        distinct_keys(files),
        distinct_keys(result),
        all_from(files, result),
        all_reachable(files, roots, result),
        forall|i: int| 0 <= i < worklist.len() ==> reachable(files, roots, #[trigger] worklist[i]),
    ensures
        distinct_keys(closure_from(files, worklist, result)),
        all_from(files, closure_from(files, worklist, result)),
        all_reachable(files, roots, closure_from(files, worklist, result)),
    decreases missing(files, result, files.len() as int), worklist.len(),
{
    if worklist.len() > 0 {
        let path = worklist[0];
        let rest = worklist.skip(1);
        if has_key(result, path) || !has_key(files, path) {
            lemma_closure_is_sound(files, roots, rest, result);
        } else {
            let at = index_of_key(files, path);
            let found = files[at].1;
            let grown = result.push((path, found));
            let next = found.parsed.import_paths() + rest;
            lemma_missing_after_push(files, result, (path, found), files.len() as int);
            assert forall|i: int| 0 <= i < next.len() implies reachable(
                files,
                roots,
                #[trigger] next[i],
            ) by {
                let n = found.parsed.import_paths().len();
                if i < n {
                    lemma_reachable_step(files, roots, path, next[i]);
                }
            }
            lemma_closure_is_sound(files, roots, next, grown);
        }
    }
}

/// A key of `result` is a key of what the walk makes of it.
pub proof fn lemma_closure_keeps_keys(
    files: Seq<EntryView>,
    worklist: Seq<Seq<char>>,
    result: Seq<EntryView>,
    key: Seq<char>,
)
    requires
        has_key(result, key),
    ensures
        has_key(closure_from(files, worklist, result), key),
{
    lemma_closure_extends(files, worklist, result);
}

/// Whether `entries` holds, for each of its entries from `from` on, every
/// import of the entry that is one of `files`.
pub open spec fn holds_imports_from(files: Seq<EntryView>, entries: Seq<EntryView>, from: int) -> bool {
    forall|j: int, k: int|
        from <= j < entries.len() && 0 <= k < (#[trigger] entries[j]).1.parsed.imports.len()
            && has_key(files, (#[trigger] entries[j].1.parsed.imports[k]).path) ==> has_key(
            entries,
            entries[j].1.parsed.imports[k].path,
        )
}

/// The walk leaves out no file: what it makes holds each path of the worklist
/// that is one of `files`, and with each file that it adds the imports of the
/// file that are among `files`.
pub proof fn lemma_closure_is_complete(
    files: Seq<EntryView>,
    worklist: Seq<Seq<char>>,
    result: Seq<EntryView>,
)
    ensures
        forall|i: int|
            0 <= i < worklist.len() && has_key(files, #[trigger] worklist[i]) ==> has_key(
                closure_from(files, worklist, result),
                worklist[i],
            ),
        holds_imports_from(files, closure_from(files, worklist, result), result.len() as int),
    decreases missing(files, result, files.len() as int), worklist.len(),
{
    let all = closure_from(files, worklist, result);
    if worklist.len() > 0 {
        let path = worklist[0];
        let rest = worklist.skip(1);
        if has_key(result, path) || !has_key(files, path) {
            lemma_closure_is_complete(files, rest, result);
            assert forall|i: int|
                0 <= i < worklist.len() && has_key(files, #[trigger] worklist[i]) implies has_key(
                all,
                worklist[i],
            ) by {
                if i == 0 {
                    lemma_closure_keeps_keys(files, rest, result, path);
                } else {
                    assert(rest[i - 1] == worklist[i]);
                }
            }
        } else {
            let found = files[index_of_key(files, path)].1;
            let grown = result.push((path, found));
            let paths = found.parsed.import_paths();
            let next = paths + rest;
            lemma_missing_after_push(files, result, (path, found), files.len() as int);
            lemma_closure_is_complete(files, next, grown);
            lemma_closure_extends(files, next, grown);
            assert(grown[result.len() as int] == (path, found));
            assert forall|i: int|
                0 <= i < worklist.len() && has_key(files, #[trigger] worklist[i]) implies has_key(
                all,
                worklist[i],
            ) by {
                if i > 0 {
                    assert(next[paths.len() + i - 1] == rest[i - 1]);
                }
            }
            assert forall|j: int, k: int|
                result.len() <= j < all.len() && 0 <= k < (#[trigger] all[j]).1.parsed.imports.len()
                    && has_key(files, (#[trigger] all[j].1.parsed.imports[k]).path) implies has_key(
                all,
                all[j].1.parsed.imports[k].path,
            ) by {
                if j == result.len() {
                    assert(next[k] == paths[k]);
                }
            }
        }
    }
}

/// What a file depends on is taken from `files`, once each, and imports lead
/// to it from the file: what no import leads to is left out, though it may be
/// among `files`.
pub proof fn lemma_deps_are_reachable(files: Seq<EntryView>, parsed: FileModelView)
    requires
        distinct_keys(files),
    ensures
        distinct_keys(deps_of(files, parsed)),
        all_from(files, deps_of(files, parsed)),
        all_reachable(files, parsed.import_paths(), deps_of(files, parsed)),
{
    let roots = parsed.import_paths();
    assert forall|i: int| 0 <= i < roots.len() implies reachable(
        files,
        roots,
        #[trigger] roots[i],
    ) by {
        lemma_root_is_reachable(files, roots, i);
    }
    lemma_closure_is_sound(files, roots, roots, Seq::empty());
}

/// What the imports of a file lead to is among what the file depends on.
pub proof fn lemma_reachable_is_dep(files: Seq<EntryView>, parsed: FileModelView, path: Seq<char>)
    requires
        distinct_keys(files),
        closed_under_imports(files),
        imports_known(files, parsed),
        reachable(files, parsed.import_paths(), path),
    ensures
        has_key(deps_of(files, parsed), path),
{
    let roots = parsed.import_paths();
    lemma_deps_are_reachable(files, parsed);
    lemma_closure_is_complete(files, roots, Seq::empty());
    let chain = choose|chain: Seq<Seq<char>>|
        #[trigger] is_chain(files, chain) && roots.contains(chain[0]) && chain.last() == path;
    lemma_chain_is_held(files, parsed, chain, chain.len() - 1);
}

/// The files that a file depends on are the files that its imports lead to,
/// and no others.
pub proof fn lemma_deps_are_what_imports_lead_to(
    files: Seq<EntryView>,
    parsed: FileModelView,
    path: Seq<char>,
)
    requires
        distinct_keys(files),
        closed_under_imports(files),
        imports_known(files, parsed),
    ensures
        has_key(deps_of(files, parsed), path) <==> reachable(files, parsed.import_paths(), path),
{
    if reachable(files, parsed.import_paths(), path) {
        lemma_reachable_is_dep(files, parsed, path);
    }
    if has_key(deps_of(files, parsed), path) {
        lemma_deps_are_reachable(files, parsed);
    }
}

/// The dependencies of a file hold every path of a chain that starts at one
/// of its imports.
proof fn lemma_chain_is_held(
    files: Seq<EntryView>,
    parsed: FileModelView,
    chain: Seq<Seq<char>>,
    n: int,
)
    requires
        distinct_keys(files),
        closed_under_imports(files),
        imports_known(files, parsed),
        is_chain(files, chain),
        parsed.import_paths().contains(chain[0]),
        0 <= n < chain.len(),
        all_from(files, deps_of(files, parsed)),
        forall|i: int|
            0 <= i < parsed.import_paths().len() && has_key(
                files,
                #[trigger] parsed.import_paths()[i],
            ) ==> has_key(deps_of(files, parsed), parsed.import_paths()[i]),
        holds_imports_from(files, deps_of(files, parsed), 0),
    ensures
        has_key(deps_of(files, parsed), chain[n]),
        has_key(files, chain[n]),
    decreases n,
{
    if n > 0 {
        lemma_chain_is_held(files, parsed, chain, n - 1);
    }
}

/// Whether `other` holds what `files` holds for each path that imports lead
/// to from one of `roots`.
pub open spec fn agree_on_reachable(
    files: Seq<EntryView>,
    other: Seq<EntryView>,
    roots: Seq<Seq<char>>,
) -> bool {
    forall|path: Seq<char>| #[trigger]
        reachable(files, roots, path) ==> has_key(files, path) == has_key(other, path) && lookup(
            files,
            path,
        ) == lookup(other, path)
}

/// The walk reads of the files only those that imports lead to.
proof fn lemma_closure_reads_reachable_files(
    files: Seq<EntryView>,
    other: Seq<EntryView>,
    roots: Seq<Seq<char>>,
    worklist: Seq<Seq<char>>,
    result: Seq<EntryView>,
)
    requires
        agree_on_reachable(files, other, roots),
        forall|i: int| 0 <= i < worklist.len() ==> reachable(files, roots, #[trigger] worklist[i]),
    ensures
        closure_from(files, worklist, result) == closure_from(other, worklist, result),
    decreases missing(files, result, files.len() as int), worklist.len(),
{
    if worklist.len() > 0 {
        let path = worklist[0];
        let rest = worklist.skip(1);
        if has_key(result, path) || !has_key(files, path) {
            lemma_closure_reads_reachable_files(files, other, roots, rest, result);
        } else {
            let found = files[index_of_key(files, path)].1;
            let grown = result.push((path, found));
            let next = found.parsed.import_paths() + rest;
            lemma_missing_after_push(files, result, (path, found), files.len() as int);
            assert forall|i: int| 0 <= i < next.len() implies reachable(
                files,
                roots,
                #[trigger] next[i],
            ) by {
                let n = found.parsed.import_paths().len();
                if i < n {
                    lemma_reachable_step(files, roots, path, next[i]);
                }
            }
            lemma_closure_reads_reachable_files(files, other, roots, next, grown);
        }
    }
}

/// What a file depends on is the same whatever else is done: two lists of
/// files that hold the same for each path that the imports of the file lead to
/// give it the same dependencies, in the same order. So it does not matter by
/// which of its importers a file was reached first.
pub proof fn lemma_deps_depend_on_reachable_files_only(
    files: Seq<EntryView>,
    other: Seq<EntryView>,
    parsed: FileModelView,
)
    requires
        agree_on_reachable(files, other, parsed.import_paths()),
    ensures
        deps_of(files, parsed) == deps_of(other, parsed),
{
    let roots = parsed.import_paths();
    assert forall|i: int| 0 <= i < roots.len() implies reachable(
        files,
        roots,
        #[trigger] roots[i],
    ) by {
        lemma_root_is_reachable(files, roots, i);
    }
    lemma_closure_reads_reachable_files(files, other, roots, roots, Seq::empty());
}

} // verus!
