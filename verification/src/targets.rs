//! The target list: which files under the compiled-dependency directory
//! are the package's test binaries, and the `--object` argument pairs the
//! coverage tool is given for them.

use vstd::prelude::*;
use vstd::string::StrSliceExecFns;
use vstd::string::StringExecFns;
use crate::strings::str_starts_with;

verus! {

/// One directory entry of the compiled-dependency directory, as the
/// caller listed it.
pub struct DepsEntry {
    /// The entry's file name alone.
    pub file_name: String,
    /// The entry's full path, as it is handed to the coverage tool.
    pub full_path: String,
    /// Whether the entry is a regular file.
    pub is_file: bool,
}

/// Whether a file name carries the dependency-info extension (`.d`),
/// which the build tool gives its makefile-style dependency listings.
pub open spec fn is_dep_info_name(name: Seq<char>) -> bool {
    name.len() >= 3 && name[name.len() - 2] == '.' && name[name.len() - 1] == 'd'
}

/// Whether an entry belongs on the target list: a regular file whose name
/// starts with the executable prefix and is not a dependency-info file.
pub open spec fn spec_selected(e: DepsEntry, prefix: Seq<char>) -> bool {
    e.is_file && prefix.is_prefix_of(e.file_name@) && !is_dep_info_name(e.file_name@)
}

/// The entries that belong on the target list, in directory order.
pub open spec fn spec_selected_entries(entries: Seq<DepsEntry>, prefix: Seq<char>) -> Seq<
    DepsEntry,
> {
    entries.filter(|e: DepsEntry| spec_selected(e, prefix))
}

/// The argument pairs handed to the coverage tool: `--object` followed by
/// the full path, once per selected entry, in directory order.
pub open spec fn spec_target_args(entries: Seq<DepsEntry>, prefix: Seq<char>) -> Seq<Seq<char>>
    decreases entries.len(),
{
    if entries.len() == 0 {
        Seq::empty()
    } else {
        let rest = spec_target_args(entries.drop_last(), prefix);
        if spec_selected(entries.last(), prefix) {
            rest.push("--object"@).push(entries.last().full_path@)
        } else {
            rest
        }
    }
}

/// Law: the target list holds exactly the selected entries — every file
/// whose name starts with the prefix and is not a dependency-info file,
/// however many there are — as consecutive `--object`/path pairs, in
/// directory order, and nothing else.
pub proof fn lemma_target_args_exact(entries: Seq<DepsEntry>, prefix: Seq<char>)
    ensures
        spec_target_args(entries, prefix).len() == 2 * spec_selected_entries(
            entries,
            prefix,
        ).len(),
        forall|k: int|
            0 <= k < spec_selected_entries(entries, prefix).len() ==> #[trigger] spec_target_args(
                entries,
                prefix,
            )[2 * k] == "--object"@,
        forall|k: int|
            0 <= k < spec_selected_entries(entries, prefix).len() ==> #[trigger] spec_target_args(
                entries,
                prefix,
            )[2 * k + 1] == spec_selected_entries(entries, prefix)[k].full_path@,
    decreases entries.len(),
{
    reveal(Seq::filter);
    if entries.len() > 0 {
        lemma_target_args_exact(entries.drop_last(), prefix);
    }
}

/// Whether the file name ends in the dependency-info extension.
fn has_dep_info_extension(name: &str) -> (r: bool)
    ensures
        r == is_dep_info_name(name@),
{
    let len = name.unicode_len();
    if len < 3 {
        return false;
    }
    name.get_char(len - 2) == '.' && name.get_char(len - 1) == 'd'
}

/// Resolves the target list: scans the listed entries and keeps every
/// regular file whose name starts with `prefix` and does not carry the
/// dependency-info extension, each as an `--object`/path argument pair.
pub fn target_args(entries: &Vec<DepsEntry>, prefix: &str) -> (r: Vec<String>)
    ensures
        r.deep_view() == spec_target_args(entries@, prefix@),
{
    let mut out: Vec<String> = Vec::new();
    let mut i: usize = 0;
    proof {
        assert(entries@.take(0) =~= Seq::<DepsEntry>::empty());
        assert(out.deep_view() =~= spec_target_args(entries@.take(0), prefix@));
    }
    while i < entries.len()
        invariant
            i <= entries@.len(),
            out.deep_view() == spec_target_args(entries@.take(i as int), prefix@),
        decreases entries@.len() - i,
    {
        let e = &entries[i];
        if e.is_file && str_starts_with(e.file_name.as_str(), prefix)
            && !has_dep_info_extension(e.file_name.as_str()) {
            out.push(String::from_str("--object"));
            out.push(e.full_path.clone());
        }
        proof {
            let taken = entries@.take(i + 1);
            assert(taken.drop_last() =~= entries@.take(i as int));
            assert(taken.last() == entries@[i as int]);
            assert(out.deep_view() =~= spec_target_args(entries@.take(i + 1), prefix@));
        }
        i += 1;
    }
    proof {
        assert(entries@.take(entries@.len() as int) =~= entries@);
    }
    out
}

} // verus!
