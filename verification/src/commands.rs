//! The argument lists of the commands handed to the external
//! collaborators: the formatter, the linter, and the package manager. The
//! driver spawns the processes; the shape of each command is fixed here.

use vstd::prelude::*;
use vstd::string::StringExecFns;

verus! {

/// The formatter invocation: rewrite the glob's files in place.
pub open spec fn prettier_args_spec(glob: Seq<char>) -> Seq<Seq<char>> {
    seq!["exec"@, "prettier"@, glob, "--write"@]
}

/// Builds the formatter's argument list for one glob.
pub fn prettier_args(glob: &str) -> (r: Vec<String>)
    ensures
        r.deep_view() == prettier_args_spec(glob@),
{
    let mut v: Vec<String> = Vec::new();
    v.push(String::from_str("exec"));
    v.push(String::from_str("prettier"));
    v.push(String::from_str(glob));
    v.push(String::from_str("--write"));
    proof {
        assert(v.deep_view() =~= prettier_args_spec(glob@));
    }
    v
}

/// The linter invocation: auto-fix, then any extra targets and rule
/// overrides, the glob last.
pub open spec fn eslint_args_spec(glob: Seq<char>, extra: Seq<Seq<char>>) -> Seq<Seq<char>> {
    seq!["exec"@, "eslint"@, "--fix"@] + extra + seq![glob]
}

/// Builds the linter's argument list for one glob and the extra targets.
pub fn eslint_args(glob: &str, extra: &Vec<String>) -> (r: Vec<String>)
    ensures
        r.deep_view() == eslint_args_spec(glob@, extra.deep_view()),
{
    let mut v: Vec<String> = Vec::new();
    v.push(String::from_str("exec"));
    v.push(String::from_str("eslint"));
    v.push(String::from_str("--fix"));
    let mut i: usize = 0;
    while i < extra.len()
        invariant
            0 <= i <= extra@.len(),
            v.deep_view() =~= seq!["exec"@, "eslint"@, "--fix"@] + extra.deep_view().take(
                i as int,
            ),
        decreases extra@.len() - i,
    {
        let ghost pre = v.deep_view();
        v.push(extra[i].clone());
        i = i + 1;
        proof {
            let dv = extra.deep_view();
            assert(v.deep_view() =~= pre.push(dv[i - 1]));
            assert(dv.take(i as int) =~= dv.take(i - 1).push(dv[i - 1]));
            assert(v.deep_view() =~= seq!["exec"@, "eslint"@, "--fix"@] + dv.take(i as int));
        }
    }
    v.push(String::from_str(glob));
    proof {
        assert(extra.deep_view().take(extra@.len() as int) =~= extra.deep_view());
        assert(v.deep_view() =~= eslint_args_spec(glob@, extra.deep_view()));
    }
    v
}

/// The package manager invocation that builds the fixed first package,
/// alone and before everything else.
pub open spec fn first_build_args_spec(first: Seq<char>) -> Seq<Seq<char>> {
    seq!["run"@, "--filter"@, first, "build"@]
}

/// Builds the package manager's argument list for the first package.
pub fn first_build_args(first: &str) -> (r: Vec<String>)
    ensures
        r.deep_view() == first_build_args_spec(first@),
{
    let mut v: Vec<String> = Vec::new();
    v.push(String::from_str("run"));
    v.push(String::from_str("--filter"));
    v.push(String::from_str(first));
    v.push(String::from_str("build"));
    proof {
        assert(v.deep_view() =~= first_build_args_spec(first@));
    }
    v
}

/// One `--filter <package>` pair per planned package, in plan order.
pub open spec fn filter_flags(pkgs: Seq<Seq<char>>) -> Seq<Seq<char>>
    decreases pkgs.len(),
{
    if pkgs.len() == 0 {
        Seq::empty()
    } else {
        filter_flags(pkgs.drop_last()) + seq!["--filter"@, pkgs.last()]
    }
}

/// The package manager invocation that builds the remaining planned
/// packages in one parallel run.
pub open spec fn parallel_build_args_spec(pkgs: Seq<Seq<char>>) -> Seq<Seq<char>> {
    seq!["run"@, "--parallel"@] + filter_flags(pkgs) + seq!["build"@]
}

/// Builds the package manager's argument list for the parallel run.
pub fn parallel_build_args(pkgs: &Vec<String>) -> (r: Vec<String>)
    ensures
        r.deep_view() == parallel_build_args_spec(pkgs.deep_view()),
{
    let mut v: Vec<String> = Vec::new();
    v.push(String::from_str("run"));
    v.push(String::from_str("--parallel"));
    let mut i: usize = 0;
    while i < pkgs.len()
        invariant
            0 <= i <= pkgs@.len(),
            v.deep_view() =~= seq!["run"@, "--parallel"@] + filter_flags(
                pkgs.deep_view().take(i as int),
            ),
        decreases pkgs@.len() - i,
    {
        let ghost pre = v.deep_view();
        v.push(String::from_str("--filter"));
        v.push(pkgs[i].clone());
        i = i + 1;
        proof {
            let dv = pkgs.deep_view();
            assert(v.deep_view() =~= pre + seq!["--filter"@, dv[i - 1]]);
            assert(dv.take(i as int).drop_last() =~= dv.take(i - 1));
            assert(dv.take(i as int).last() == dv[i - 1]);
            assert(filter_flags(dv.take(i as int)) == filter_flags(dv.take(i - 1)) + seq![
                "--filter"@,
                dv[i - 1],
            ]);
            assert(v.deep_view() =~= seq!["run"@, "--parallel"@] + filter_flags(dv.take(i as int)));
        }
    }
    v.push(String::from_str("build"));
    proof {
        assert(pkgs.deep_view().take(pkgs@.len() as int) =~= pkgs.deep_view());
        assert(v.deep_view() =~= parallel_build_args_spec(pkgs.deep_view()));
    }
    v
}

} // verus!
