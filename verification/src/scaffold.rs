//! Scaffolding of new source units from the two compiled-in templates.
//!
//! Validation and rendering are pure: a scaffold is first planned — name
//! checked, files rendered, globs and index entry computed — and the plan
//! says everything the driver must then write and run. The at-most-once
//! guarantee per unit name is part of the plan: when the unit's directory
//! already exists, planning fails and no file content is produced.

use vstd::prelude::*;

pub mod composable;
pub mod component;

verus! {

/// One file of a rendered template: its name inside the unit's directory
/// and its full contents.
pub struct TemplateFile {
    pub name: String,
    pub content: String,
}

/// Everything one scaffold operation writes and runs after validation:
/// the unit's directory, the rendered files, the export line appended to
/// the package's aggregate index, and the globs handed to the external
/// formatter and linter.
pub struct ScaffoldPlan {
    /// The case-projected name the operation reports on success.
    pub unit: String,
    /// The directory created under the package's `src/<unit-kind>/` root.
    pub dir: String,
    /// The files written into that directory.
    pub files: Vec<TemplateFile>,
    /// The export declaration appended to the package's aggregate index.
    pub index_entry: String,
    /// The glob, scoped to exactly the new unit's files, handed to the
    /// formatter and the linter.
    pub format_glob: String,
    /// Extra targets and rule overrides handed to the linter.
    pub lint_extra: Vec<String>,
}

} // verus!
