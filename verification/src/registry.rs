//! The aggregate index file of a package: the single file under the
//! package's `src` root that re-exports every public unit.
//!
//! A successful scaffold appends exactly one export line to it and never
//! rewrites, reorders or deduplicates what is already there. The append is
//! modelled here in one place so that invariant holds at every call site.

use vstd::prelude::*;
use vstd::string::StringExecFns;

verus! {

/// The export declaration that registers a unit in the aggregate index.
pub open spec fn export_line(unit: Seq<char>) -> Seq<char> {
    "export * from './"@ + unit + "';\n"@
}

/// The new contents of the aggregate index after a unit is registered:
/// the prior contents, unchanged, followed by exactly one export line.
pub fn append_export(contents: &str, unit: &str) -> (r: String)
    ensures
        r@ == contents@ + export_line(unit@),
{
    let mut s = String::from_str(contents);
    s.append("export * from './");
    s.append(unit);
    s.append("';\n");
    proof {
        assert(s@ =~= contents@ + export_line(unit@));
    }
    s
}

/// The export declaration alone, as a string: what a scaffold plan carries
/// for the driver to hand to `append_export`.
pub fn export_entry(unit: &str) -> (r: String)
    ensures
        r@ == export_line(unit@),
{
    let mut s = String::from_str("export * from './");
    s.append(unit);
    s.append("';\n");
    proof {
        assert(s@ =~= export_line(unit@));
    }
    s
}

/// Registering a unit alters no prior byte of the aggregate index: the new
/// contents begin with the old contents and end with the one export line.
pub proof fn lemma_append_is_one_added_line(contents: Seq<char>, unit: Seq<char>)
    ensures
        (contents + export_line(unit)).take(contents.len() as int) == contents,
        (contents + export_line(unit)).skip(contents.len() as int) == export_line(unit),
{
    assert((contents + export_line(unit)).take(contents.len() as int) =~= contents);
    assert((contents + export_line(unit)).skip(contents.len() as int) =~= export_line(unit));
}

} // verus!
