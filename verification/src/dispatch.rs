//! The command dispatcher: maps the leading subcommand token to the stage
//! sequence the program runs, treating anything unrecognized as arguments
//! passed through to the test runner.

use vstd::prelude::*;
use vstd::string::StringExecFns;
use crate::strings::str_eq;

verus! {

/// The stage sequence one invocation runs.
#[derive(PartialEq, Eq, Structural, Clone, Copy, Debug)]
pub enum Subcommand {
    /// Clean, then Tests, then Report.
    All,
    /// Report only (regenerating first when no report exists).
    Report,
    /// Clean only.
    Clean,
    /// Print the usage text; no stage runs.
    Help,
    /// Tests, with every remaining token forwarded to the test runner.
    PassThrough,
}

/// A parsed invocation: the selected stage sequence and the arguments
/// forwarded to the test runner.
pub struct Plan {
    /// Which stages run.
    pub subcommand: Subcommand,
    /// The tokens handed through to the test runner.
    pub test_args: Vec<String>,
}

/// How many leading tokens the dispatcher skips: one when the program is
/// invoked through the build tool's subcommand wrapper, whose first token
/// repeats the tool's own name.
pub open spec fn spec_wrapper_skip(args: Seq<Seq<char>>) -> int {
    if args.len() > 0 && args[0] == "tests"@ {
        1
    } else {
        0
    }
}

/// The dispatch table: the first token after the optional wrapper token
/// selects the stage sequence; an unrecognized or absent token means the
/// whole remainder (that token included) is passed through to the test
/// runner.
pub open spec fn spec_dispatch(args: Seq<Seq<char>>) -> (Subcommand, Seq<Seq<char>>) {
    let i = spec_wrapper_skip(args);
    if args.len() <= i {
        (Subcommand::PassThrough, Seq::<Seq<char>>::empty())
    } else if args[i] == "all"@ {
        (Subcommand::All, args.skip(i + 1))
    } else if args[i] == "report"@ {
        (Subcommand::Report, args.skip(i + 1))
    } else if args[i] == "clean"@ {
        (Subcommand::Clean, args.skip(i + 1))
    } else if args[i] == "help"@ {
        (Subcommand::Help, Seq::<Seq<char>>::empty())
    } else {
        (Subcommand::PassThrough, args.skip(i))
    }
}

/// Clones the tokens of `args` from position `from` on, in order.
fn tail_from(args: &Vec<String>, from: usize) -> (r: Vec<String>)
    requires
        from <= args@.len(),
    ensures
        r.deep_view() == args.deep_view().skip(from as int),
{
    let mut out: Vec<String> = Vec::new();
    let mut j: usize = from;
    proof {
        assert(out.deep_view() =~= args.deep_view().subrange(from as int, from as int));
    }
    while j < args.len()
        invariant
            from <= j <= args@.len(),
            out.deep_view() == args.deep_view().subrange(from as int, j as int),
        decreases args@.len() - j,
    {
        let ghost prev = out.deep_view();
        out.push(args[j].clone());
        proof {
            assert(out.deep_view() =~= prev.push(args@[j as int]@));
            assert(out.deep_view() =~= args.deep_view().subrange(from as int, j + 1));
        }
        j += 1;
    }
    proof {
        assert(args.deep_view().subrange(from as int, args@.len() as int) =~= args.deep_view().skip(
            from as int,
        ));
    }
    out
}

/// Parses the argument tokens (everything after the program name) into
/// the stage sequence to run and the arguments to forward.
pub fn dispatch(args: &Vec<String>) -> (r: Plan)
    ensures
        r.subcommand == spec_dispatch(args.deep_view()).0,
        r.test_args.deep_view() == spec_dispatch(args.deep_view()).1,
{
    let skip: usize = if args.len() > 0 && str_eq(args[0].as_str(), "tests") {
        1
    } else {
        0
    };
    if args.len() <= skip {
        return Plan { subcommand: Subcommand::PassThrough, test_args: Vec::new() };
    }
    let token = args[skip].as_str();
    if str_eq(token, "all") {
        Plan { subcommand: Subcommand::All, test_args: tail_from(args, skip + 1) }
    } else if str_eq(token, "report") {
        Plan { subcommand: Subcommand::Report, test_args: tail_from(args, skip + 1) }
    } else if str_eq(token, "clean") {
        Plan { subcommand: Subcommand::Clean, test_args: tail_from(args, skip + 1) }
    } else if str_eq(token, "help") {
        Plan { subcommand: Subcommand::Help, test_args: Vec::new() }
    } else {
        Plan { subcommand: Subcommand::PassThrough, test_args: tail_from(args, skip) }
    }
}

/// The usage text, one line per entry, exactly as it is printed.
pub fn usage_lines() -> (r: Vec<String>)
    ensures
        r.deep_view() == seq![
            "cargo tests"@,
            "description: generate llvm-cov reports when testings"@,
            "commands:"@,
            "    cargo tests <args>: run tests & generate cov report"@,
            "    cargo tests all: runs clean && tests && report"@,
            "    cargo tests clean: cleans up cov artifacts"@,
            "    cargo tests report: open cov report"@,
        ],
{
    let mut out: Vec<String> = Vec::new();
    out.push(String::from_str("cargo tests"));
    out.push(String::from_str("description: generate llvm-cov reports when testings"));
    out.push(String::from_str("commands:"));
    out.push(String::from_str("    cargo tests <args>: run tests & generate cov report"));
    out.push(String::from_str("    cargo tests all: runs clean && tests && report"));
    out.push(String::from_str("    cargo tests clean: cleans up cov artifacts"));
    out.push(String::from_str("    cargo tests report: open cov report"));
    proof {
        assert(out.deep_view() =~= seq![
            "cargo tests"@,
            "description: generate llvm-cov reports when testings"@,
            "commands:"@,
            "    cargo tests <args>: run tests & generate cov report"@,
            "    cargo tests all: runs clean && tests && report"@,
            "    cargo tests clean: cleans up cov artifacts"@,
            "    cargo tests report: open cov report"@,
        ]);
    }
    out
}

} // verus!
