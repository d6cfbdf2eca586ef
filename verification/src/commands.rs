//! The exact argument lists and environment assignments of every external
//! process the pipeline invokes: the instrumented test run, the profile
//! merge, and the two coverage-report invocations.

use vstd::prelude::*;
use vstd::string::StringExecFns;

verus! {

/// One environment variable the test run is given.
pub struct EnvAssignment {
    /// The variable's name.
    pub name: String,
    /// The value it is set to.
    pub value: String,
}

/// Appends clones of every item of `items` to `out`, in order.
fn push_all(out: &mut Vec<String>, items: &Vec<String>)
    ensures
        final(out).deep_view() == old(out).deep_view() + items.deep_view(),
{
    let mut i: usize = 0;
    proof {
        assert(items@.take(0) =~= Seq::<String>::empty());
        assert(out.deep_view() =~= old(out).deep_view() + items@.take(0).map_values(
            |s: String| s@,
        ));
    }
    while i < items.len()
        invariant
            i <= items@.len(),
            out.deep_view() == old(out).deep_view() + items@.take(i as int).map_values(
                |s: String| s@,
            ),
        decreases items@.len() - i,
    {
        let ghost prev = out.deep_view();
        out.push(items[i].clone());
        proof {
            assert(out.deep_view() =~= prev.push(items@[i as int]@));
            assert(items@.take(i + 1).map_values(|s: String| s@) =~= items@.take(
                i as int,
            ).map_values(|s: String| s@).push(items@[i as int]@));
            assert(out.deep_view() =~= old(out).deep_view() + items@.take(i + 1).map_values(
                |s: String| s@,
            ));
        }
        i += 1;
    }
    proof {
        assert(items@.take(items@.len() as int) =~= items@);
        assert(items@.map_values(|s: String| s@) =~= items.deep_view());
        assert(final(out).deep_view() =~= old(out).deep_view() + items.deep_view());
    }
}

/// The arguments of the test run: the test subcommand followed by every
/// caller-supplied argument, forwarded verbatim and in order.
pub fn test_run_args(test_args: &Vec<String>) -> (r: Vec<String>)
    ensures
        r.deep_view() == seq!["test"@] + test_args.deep_view(),
{
    let mut out: Vec<String> = Vec::new();
    out.push(String::from_str("test"));
    proof {
        assert(out.deep_view() =~= seq!["test"@]);
    }
    push_all(&mut out, test_args);
    out
}

/// The two environment variables of the instrumented test run: the flag
/// that requests coverage instrumentation, and the raw-profile output
/// pattern under the coverage workspace.
pub fn coverage_env(profile_pattern: &str) -> (r: Vec<EnvAssignment>)
    ensures
        r@.len() == 2,
        r@[0].name@ == "RUSTFLAGS"@,
        r@[0].value@ == "-Zinstrument-coverage"@,
        r@[1].name@ == "LLVM_PROFILE_FILE"@,
        r@[1].value@ == profile_pattern@,
{
    let mut out: Vec<EnvAssignment> = Vec::new();
    out.push(
        EnvAssignment {
            name: String::from_str("RUSTFLAGS"),
            value: String::from_str("-Zinstrument-coverage"),
        },
    );
    out.push(
        EnvAssignment {
            name: String::from_str("LLVM_PROFILE_FILE"),
            value: String::from_str(profile_pattern),
        },
    );
    out
}

/// The arguments of the profile-merge invocation: `merge -sparse`, every
/// raw profile found in the workspace, then `-o` and the output file.
pub fn merge_args(profile_files: &Vec<String>, profdata_path: &str) -> (r: Vec<String>)
    ensures
        r.deep_view() == seq!["merge"@, "-sparse"@] + profile_files.deep_view() + seq![
            "-o"@,
            profdata_path@,
        ],
{
    let mut out: Vec<String> = Vec::new();
    out.push(String::from_str("merge"));
    out.push(String::from_str("-sparse"));
    proof {
        assert(out.deep_view() =~= seq!["merge"@, "-sparse"@]);
    }
    push_all(&mut out, profile_files);
    out.push(String::from_str("-o"));
    out.push(String::from_str(profdata_path));
    proof {
        assert(out.deep_view() =~= seq!["merge"@, "-sparse"@] + profile_files.deep_view() + seq![
            "-o"@,
            profdata_path@,
        ]);
    }
    out
}

/// The arguments of the terminal-summary invocation of the coverage tool:
/// colorized, excluding files under the dependency cache, against the
/// merged profile, over every object on the target list.
pub fn report_args(profdata_path: &str, target_list: &Vec<String>) -> (r: Vec<String>)
    ensures
        r.deep_view() == seq![
            "report"@,
            "--use-color"@,
            "--ignore-filename-regex"@,
            ".*/.cargo/registry"@,
            "--instr-profile"@,
            profdata_path@,
        ] + target_list.deep_view(),
{
    let mut out: Vec<String> = Vec::new();
    out.push(String::from_str("report"));
    out.push(String::from_str("--use-color"));
    out.push(String::from_str("--ignore-filename-regex"));
    out.push(String::from_str(".*/.cargo/registry"));
    out.push(String::from_str("--instr-profile"));
    out.push(String::from_str(profdata_path));
    proof {
        assert(out.deep_view() =~= seq![
            "report"@,
            "--use-color"@,
            "--ignore-filename-regex"@,
            ".*/.cargo/registry"@,
            "--instr-profile"@,
            profdata_path@,
        ]);
    }
    push_all(&mut out, target_list);
    out
}

/// The arguments of the HTML-export invocation of the coverage tool: the
/// same exclusion and profile, plus demangled symbols, instantiation and
/// line/region counts, HTML format, and the report directory.
pub fn show_args(profdata_path: &str, html_dir: &str, target_list: &Vec<String>) -> (r: Vec<
    String,
>)
    ensures
        r.deep_view() == seq![
            "show"@,
            "--use-color"@,
            "--ignore-filename-regex"@,
            ".*/.cargo/registry"@,
            "--instr-profile"@,
            profdata_path@,
            "--show-instantiations"@,
            "--show-line-counts-or-regions"@,
            "--Xdemangler=rustfilt"@,
            "-format"@,
            "html"@,
            "-output-dir"@,
            html_dir@,
        ] + target_list.deep_view(),
{
    let mut out: Vec<String> = Vec::new();
    out.push(String::from_str("show"));
    out.push(String::from_str("--use-color"));
    out.push(String::from_str("--ignore-filename-regex"));
    out.push(String::from_str(".*/.cargo/registry"));
    out.push(String::from_str("--instr-profile"));
    out.push(String::from_str(profdata_path));
    out.push(String::from_str("--show-instantiations"));
    out.push(String::from_str("--show-line-counts-or-regions"));
    out.push(String::from_str("--Xdemangler=rustfilt"));
    out.push(String::from_str("-format"));
    out.push(String::from_str("html"));
    out.push(String::from_str("-output-dir"));
    out.push(String::from_str(html_dir));
    proof {
        assert(out.deep_view() =~= seq![
            "show"@,
            "--use-color"@,
            "--ignore-filename-regex"@,
            ".*/.cargo/registry"@,
            "--instr-profile"@,
            profdata_path@,
            "--show-instantiations"@,
            "--show-line-counts-or-regions"@,
            "--Xdemangler=rustfilt"@,
            "-format"@,
            "html"@,
            "-output-dir"@,
            html_dir@,
        ]);
    }
    push_all(&mut out, target_list);
    out
}

} // verus!
