//! Which files an import means, and which names it can bring.

use crate::ast::{ImportNameView, ImportNamesView};
use crate::flatten::following_index;
use crate::linking::{
    candidate_chosen, candidate_files, directory_up, exports_of_key, first_missing, names_checked,
    parent_directory, path_under, LinkerView, ModuleErrorView, ModuleImportView,
};
use vstd::prelude::*;

verus! {

/// The file of a module below a directory: the path, its last part with the extension.
pub open spec fn file_below(base: Seq<Seq<char>>, path: Seq<Seq<char>>) -> Seq<Seq<char>> {
    base + path.drop_last() + seq![path.last() + ".mojo"@]
}

proof fn file_is_below(base: Seq<Seq<char>>, path: Seq<Seq<char>>, i: nat)
    requires
        i < path.len() <= usize::MAX,
    ensures
        path_under(path, i, base + path.take(i as int), i as usize) == file_below(base, path),
    decreases path.len() - i,
{
    reveal(following_index);
    let out = base + path.take(i as int);
    let part = path[i as int];
    if i + 1 < path.len() {
        assert(out.push(part) =~= base + path.take(i as int + 1));
        file_is_below(base, path, i + 1);
    } else {
        let next = out.push(part + ".mojo"@);
        assert(next =~= file_below(base, path));
        assert(path_under(path, i + 1, next, (i + 1) as usize) == next);
        assert(path_under(path, i, out, i as usize) == path_under(
            path,
            i + 1,
            next,
            following_index(i as usize),
        ));
    }
}

proof fn directories_go_up(base: Seq<Seq<char>>, levels: usize)
    requires
        levels <= base.len(),
        forall|k: int| base.len() - levels <= k < base.len() ==> #[trigger] base[k] != "/"@,
    ensures
        directory_up(base, levels) == base.take(base.len() - levels),
    decreases levels,
{
    if levels > 0 {
        reveal(parent_directory);
        assert(base.last() == base[base.len() - 1]);
        let up = base.drop_last();
        directories_go_up(up, (levels - 1) as usize);
        assert(up.take(up.len() - (levels - 1)) =~= base.take(base.len() - levels));
    } else {
        assert(base.take(base.len() as int) =~= base);
    }
}

/// A relative import with one dot looks in the directory of the importing file, and in one
/// further up for each further dot; there is no other candidate.
pub proof fn dots_go_up(
    from_dir: Seq<Seq<char>>,
    level: usize,
    path: Seq<Seq<char>>,
    roots: Seq<Seq<Seq<char>>>,
)
    requires
        0 < path.len() <= usize::MAX,
        0 < level <= from_dir.len() + 1,
        forall|k: int|
            from_dir.len() - (level - 1) <= k < from_dir.len() ==> #[trigger] from_dir[k] != "/"@,
    ensures
        candidate_files(from_dir, level, path, roots) == Ok::<_, ModuleErrorView>(
            seq![file_below(from_dir.take(from_dir.len() - (level - 1)), path)],
        ),
{
    reveal(candidate_files);
    let base = from_dir.take(from_dir.len() - (level - 1));
    directories_go_up(from_dir, (level - 1) as usize);
    assert(base + path.take(0) =~= base);
    file_is_below(base, path, 0);
}

/// An absolute import looks for the file in the directory of the importing file and below each
/// root, in this order.
pub proof fn roots_come_in_order(
    from_dir: Seq<Seq<char>>,
    path: Seq<Seq<char>>,
    roots: Seq<Seq<Seq<char>>>,
    k: int,
)
    requires
        0 < path.len() <= usize::MAX,
        0 <= k <= roots.len(),
    ensures
        candidate_files(from_dir, 0, path, roots) matches Ok(files) && files.len() == roots.len()
            + 1 && files[k] == file_below(if k == 0 { from_dir } else { roots[k - 1] }, path),
{
    crate::laws::local_directory_comes_first(from_dir, path, roots);
    let base = if k == 0 { from_dir } else { roots[k - 1] };
    assert(base + path.take(0) =~= base);
    file_is_below(base, path, 0);
    if k > 0 {
        let files = candidate_files(from_dir, 0, path, roots)->Ok_0;
        assert(files[(k - 1) + 1] == path_under(path, 0, roots[k - 1], 0));
    }
}

/// The first candidate that exists is chosen.
pub proof fn first_existing_is_chosen(exists: Seq<bool>, k: int)
    requires
        exists.len() <= usize::MAX,
        0 <= k < exists.len(),
        exists[k],
        forall|j: int| 0 <= j < k ==> !#[trigger] exists[j],
    ensures
        candidate_chosen(exists, 0, 0) == k,
{
    chosen_from(exists, k, 0);
}

proof fn chosen_from(exists: Seq<bool>, k: int, i: nat)
    requires
        exists.len() <= usize::MAX,
        i <= k < exists.len(),
        exists[k],
        forall|j: int| 0 <= j < k ==> !#[trigger] exists[j],
    ensures
        candidate_chosen(exists, i, i as usize) == k,
    decreases k - i,
{
    reveal(following_index);
    if i < k {
        assert(!exists[i as int]);
        chosen_from(exists, k, i + 1);
    }
}

proof fn missing_from(items: Seq<ImportNameView>, exports: Seq<Seq<char>>, i: nat)
    ensures
        match first_missing(items, exports, i) {
            Some(name) => !exports.contains(name) && exists|k: int|
                i <= k < items.len() && (#[trigger] items[k]).name == name,
            None => forall|k: int|
                i <= k < items.len() ==> exports.contains((#[trigger] items[k]).name),
        },
    decreases items.len() - i,
{
    if i < items.len() {
        if exports.contains(items[i as int].name) {
            missing_from(items, exports, i + 1);
        }
    }
}

/// Names can be imported if and only if the module offers every one; else a name is reported
/// that is asked for and not offered.
pub proof fn offered_names_are_imported(
    import: ModuleImportView,
    items: Seq<ImportNameView>,
    linker: LinkerView,
)
    ensures
        ({
            let offered = exports_of_key(linker.exports, import.key, 0, Seq::empty());
            match names_checked(import, ImportNamesView::Names(items), linker) {
                Ok(_) => forall|k: int|
                    0 <= k < items.len() ==> offered.contains((#[trigger] items[k]).name),
                Err(ModuleErrorView::NameNotFound { module, name }) => {
                    &&& module == import.module
                    &&& !offered.contains(name)
                    &&& exists|k: int| 0 <= k < items.len() && (#[trigger] items[k]).name == name
                },
                Err(_) => false,
            }
        }),
{
    reveal(names_checked);
    missing_from(items, exports_of_key(linker.exports, import.key, 0, Seq::empty()), 0);
}

} // verus!
