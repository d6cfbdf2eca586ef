//! The fixed filesystem layout the pipeline works with, every path derived
//! from the project root: the coverage workspace `cov/`, the merged profile
//! data file, the HTML report, and the compiled-dependency directory.

use vstd::prelude::*;
use vstd::string::StrSliceExecFns;
use vstd::string::StringExecFns;

verus! {

/// Everything before the final `/` of `s`, exclusive; empty when `s`
/// holds no separator.
pub open spec fn spec_parent_dir(s: Seq<char>) -> Seq<char>
    decreases s.len(),
{
    if s.len() == 0 {
        s
    } else if s.last() == '/' {
        s.drop_last()
    } else {
        spec_parent_dir(s.drop_last())
    }
}

/// The directory that contains the file or directory `s` names.
pub fn parent_dir(s: &str) -> (r: &str)
    ensures
        r@ == spec_parent_dir(s@),
{
    let len = s.unicode_len();
    let mut j: usize = len;
    assert(s@.take(len as int) =~= s@);
    loop
        invariant_except_break
            j <= len,
            len == s@.len(),
            spec_parent_dir(s@) == spec_parent_dir(s@.take(j as int)),
        ensures
            j <= len,
            len == s@.len(),
            j > 0 ==> spec_parent_dir(s@) == s@.take(j - 1),
            j == 0 ==> spec_parent_dir(s@) == Seq::<char>::empty(),
        decreases j,
    {
        if j == 0 {
            assert(s@.take(0) =~= Seq::<char>::empty());
            break;
        }
        let c = s.get_char(j - 1);
        proof {
            assert(s@.take(j as int).last() == c);
            assert(s@.take(j as int).drop_last() =~= s@.take(j - 1));
        }
        if c == '/' {
            break;
        }
        j -= 1;
    }
    if j == 0 {
        let r = s.substring_char(0, 0);
        assert(r@ =~= Seq::<char>::empty());
        r
    } else {
        let r = s.substring_char(0, j - 1);
        assert(r@ =~= s@.take(j - 1));
        r
    }
}

/// The coverage workspace: `<root>/cov`.
pub fn cov_dir(root: &str) -> (r: String)
    ensures
        r@ == root@ + "/cov"@,
{
    let mut s = String::from_str(root);
    s.append("/cov");
    s
}

/// The merged profile data file: `<root>/cov/<package>.profdata`.
pub fn profdata_path(root: &str, package: &str) -> (r: String)
    ensures
        r@ == root@ + "/cov/"@ + package@ + ".profdata"@,
{
    let mut s = String::from_str(root);
    s.append("/cov/");
    s.append(package);
    s.append(".profdata");
    s
}

/// The raw-profile output pattern handed to the instrumented test run:
/// `cov/<package>-%m.profraw`, relative to the project root, with a
/// per-process placeholder so concurrent test binaries do not collide.
pub fn profile_pattern(package: &str) -> (r: String)
    ensures
        r@ == "cov/"@ + package@ + "-%m.profraw"@,
{
    let mut s = String::from_str("cov/");
    s.append(package);
    s.append("-%m.profraw");
    s
}

/// The rendered report directory: `<root>/cov/html`.
pub fn html_dir(root: &str) -> (r: String)
    ensures
        r@ == root@ + "/cov/html"@,
{
    let mut s = String::from_str(root);
    s.append("/cov/html");
    s
}

/// The rendered report's entry page: `<root>/cov/html/index.html`.
pub fn html_index_path(root: &str) -> (r: String)
    ensures
        r@ == root@ + "/cov/html/index.html"@,
{
    let mut s = String::from_str(root);
    s.append("/cov/html/index.html");
    s
}

/// Where the compiled test binaries live: `<root>/target/debug/deps`.
pub fn deps_dir(root: &str) -> (r: String)
    ensures
        r@ == root@ + "/target/debug/deps"@,
{
    let mut s = String::from_str(root);
    s.append("/target/debug/deps");
    s
}

} // verus!
