//! The rich-unit ("component") template: name validation, the four
//! rendered files, and the plan of one scaffold operation.

use vstd::prelude::*;
use vstd::string::{StrSliceExecFns, StringExecFns};

use crate::case::{kebab_of, pascal_of, to_kebab, to_pascal};
use crate::chars::{is_ascii_digit, is_lower_letter, is_upper_letter, lower_letter};
use crate::error::Error;
use crate::registry::{export_entry, export_line};
use crate::scaffold::{ScaffoldPlan, TemplateFile};

verus! {

/// A valid component name: the kebab-case source form — nothing but
/// lower-case ASCII letters and hyphens, starting with a letter.
pub open spec fn is_component_name(s: Seq<char>) -> bool {
    &&& s.len() > 0
    &&& is_lower_letter(s[0])
    &&& forall|i: int| 0 <= i < s.len() ==> is_lower_letter(#[trigger] s[i]) || s[i] == '-'
}

/// Determines whether the component name is valid.
pub fn is_valid(name: &str) -> (r: bool)
    ensures
        r == is_component_name(name@),
{
    let n = name.unicode_len();
    if n == 0 {
        return false;
    }
    if !lower_letter(name.get_char(0)) {
        return false;
    }
    let mut i: usize = 1;
    while i < n
        invariant
            1 <= i <= n,
            n == name@.len(),
            is_lower_letter(name@[0]),
            forall|j: int| 0 <= j < i ==> is_lower_letter(#[trigger] name@[j]) || name@[j] == '-',
        decreases n - i,
    {
        let c = name.get_char(i);
        if !lower_letter(c) && c != '-' {
            return false;
        }
        i = i + 1;
    }
    true
}

/// Law: a name holding an upper-case letter or an ASCII digit anywhere is
/// not a valid component name.
pub proof fn lemma_component_rejects(s: Seq<char>, i: int)
    requires
        0 <= i < s.len(),
        is_upper_letter(s[i]) || is_ascii_digit(s[i]),
    ensures
        !is_component_name(s),
{
    if is_component_name(s) {
        assert(is_lower_letter(s[i]) || s[i] == '-');
        assert(false);
    }
}

/// The implementation file: re-exports the markup-bound default export and
/// all named types of the sibling type-declaration file.
pub open spec fn index_text(pascal: Seq<char>) -> Seq<char> {
    "export { default as M"@ + pascal + " } from './M"@ + pascal
        + ".vue';\nexport type * from './types';"@
}

/// The type-declaration file: an empty props-shape declaration named after
/// the Pascal-case projection.
pub open spec fn typings_text(pascal: Seq<char>) -> Seq<char> {
    "export interface "@ + pascal + "Props {}"@
}

/// The markup file: a minimal template wired to the declared props type,
/// with a root element classed by the kebab-case projection and a scoped
/// style block.
pub open spec fn vue_text(kebab: Seq<char>, pascal: Seq<char>) -> Seq<char> {
    "<script setup lang=\"ts\">\nimport type { "@ + pascal + "Props } from './types';\n\ndefineProps<"@
        + pascal + "Props>();\n</script>\n\n<template>\n<div class=\"m-"@ + kebab
        + "\"></div>\n</template>\n\n<style scoped lang=\"scss\">\n.m-"@ + kebab + " {}\n</style>"@
}

/// The test file: imports the unit, registers automatic teardown, and
/// holds one unimplemented test case.
pub open spec fn test_text(kebab: Seq<char>, pascal: Seq<char>) -> Seq<char> {
    "import { afterEach, describe, it } from 'vitest';\nimport { enableAutoUnmount } from '@vue/test-utils';\nimport M"@
        + pascal + " from './M"@ + pascal + ".vue';\n\nenableAutoUnmount(afterEach);\n\ndescribe('"@
        + kebab + "', () => { it.todo('todo'); });"@
}

/// The markup file's name.
pub open spec fn vue_filename(pascal: Seq<char>) -> Seq<char> {
    "M"@ + pascal + ".vue"@
}

/// The test file's name.
pub open spec fn test_filename(pascal: Seq<char>) -> Seq<char> {
    "M"@ + pascal + ".test.ts"@
}

/// The glob scoped to exactly the new unit's files.
pub open spec fn format_glob_text(kebab: Seq<char>) -> Seq<char> {
    "**/components/src/"@ + kebab + "/**/*.{ts,vue}"@
}

/// Renders the implementation file for a Pascal-cased unit name.
pub fn index_content(pascal: &str) -> (r: String)
    ensures
        r@ == index_text(pascal@),
{
    let mut s = String::from_str("export { default as M");
    s.append(pascal);
    s.append(" } from './M");
    s.append(pascal);
    s.append(".vue';\nexport type * from './types';");
    proof {
        assert(s@ =~= index_text(pascal@));
    }
    s
}

/// Renders the type-declaration file for a Pascal-cased unit name.
pub fn typings_content(pascal: &str) -> (r: String)
    ensures
        r@ == typings_text(pascal@),
{
    let mut s = String::from_str("export interface ");
    s.append(pascal);
    s.append("Props {}");
    proof {
        assert(s@ =~= typings_text(pascal@));
    }
    s
}

/// Renders the markup file from both case projections.
pub fn vue_content(kebab: &str, pascal: &str) -> (r: String)
    ensures
        r@ == vue_text(kebab@, pascal@),
{
    let mut s = String::from_str("<script setup lang=\"ts\">\nimport type { ");
    s.append(pascal);
    s.append("Props } from './types';\n\ndefineProps<");
    s.append(pascal);
    s.append("Props>();\n</script>\n\n<template>\n<div class=\"m-");
    s.append(kebab);
    s.append("\"></div>\n</template>\n\n<style scoped lang=\"scss\">\n.m-");
    s.append(kebab);
    s.append(" {}\n</style>");
    proof {
        assert(s@ =~= vue_text(kebab@, pascal@));
    }
    s
}

/// Renders the test file from both case projections.
pub fn test_content(kebab: &str, pascal: &str) -> (r: String)
    ensures
        r@ == test_text(kebab@, pascal@),
{
    let mut s = String::from_str(
        "import { afterEach, describe, it } from 'vitest';\nimport { enableAutoUnmount } from '@vue/test-utils';\nimport M",
    );
    s.append(pascal);
    s.append(" from './M");
    s.append(pascal);
    s.append(".vue';\n\nenableAutoUnmount(afterEach);\n\ndescribe('");
    s.append(kebab);
    s.append("', () => { it.todo('todo'); });");
    proof {
        assert(s@ =~= test_text(kebab@, pascal@));
    }
    s
}

/// Builds the markup file's name.
pub fn vue_file_name(pascal: &str) -> (r: String)
    ensures
        r@ == vue_filename(pascal@),
{
    let mut s = String::from_str("M");
    s.append(pascal);
    s.append(".vue");
    proof {
        assert(s@ =~= vue_filename(pascal@));
    }
    s
}

/// Builds the test file's name.
pub fn test_file_name(pascal: &str) -> (r: String)
    ensures
        r@ == test_filename(pascal@),
{
    let mut s = String::from_str("M");
    s.append(pascal);
    s.append(".test.ts");
    proof {
        assert(s@ =~= test_filename(pascal@));
    }
    s
}

/// Builds the glob scoped to the new unit's files.
pub fn format_glob(kebab: &str) -> (r: String)
    ensures
        r@ == format_glob_text(kebab@),
{
    let mut s = String::from_str("**/components/src/");
    s.append(kebab);
    s.append("/**/*.{ts,vue}");
    proof {
        assert(s@ =~= format_glob_text(kebab@));
    }
    s
}

/// Validates a proposed component name and returns its kebab-case and
/// Pascal-case projections: the unit's directory name and display name.
pub fn unit_names(name: &str) -> (r: Result<(String, String), Error>)
    ensures
        r is Ok <==> is_component_name(name@),
        r matches Ok(ns) ==> ns.0@ == kebab_of(name@) && ns.1@ == pascal_of(name@),
        r matches Err(e) ==> e == Error::InvalidName,
{
    if is_valid(name) {
        Ok((to_kebab(name), to_pascal(name)))
    } else {
        Err(Error::InvalidName)
    }
}

/// A complete component scaffold plan for the two case projections.
pub open spec fn plan_is_for(p: ScaffoldPlan, kebab: Seq<char>, pascal: Seq<char>) -> bool {
    &&& p.unit@ == pascal
    &&& p.dir@ == kebab
    &&& p.files@.len() == 4
    &&& p.files@[0].name@ == "index.ts"@
    &&& p.files@[0].content@ == index_text(pascal)
    &&& p.files@[1].name@ == "types.ts"@
    &&& p.files@[1].content@ == typings_text(pascal)
    &&& p.files@[2].name@ == vue_filename(pascal)
    &&& p.files@[2].content@ == vue_text(kebab, pascal)
    &&& p.files@[3].name@ == test_filename(pascal)
    &&& p.files@[3].content@ == test_text(kebab, pascal)
    &&& p.index_entry@ == export_line(kebab)
    &&& p.format_glob@ == format_glob_text(kebab)
    &&& p.lint_extra@.len() == 3
    &&& p.lint_extra@[0]@ == "--rule"@
    &&& p.lint_extra@[1]@ == "@typescript-eslint/no-empty-interface: off"@
    &&& p.lint_extra@[2]@ == "**/components/src/index.ts"@
}

/// Plans one component scaffold from the validated projections. The unit's
/// directory must not exist yet: when it does, the plan is refused and no
/// file content is produced, so a repeated scaffold of one name leaves
/// every existing byte in place.
pub fn plan(kebab: &str, pascal: &str, dir_exists: bool) -> (r: Result<ScaffoldPlan, Error>)
    ensures
        dir_exists ==> (r matches Err(e) && e == Error::AlreadyExists),
        !dir_exists ==> (r matches Ok(p) && plan_is_for(p, kebab@, pascal@)),
{
    if dir_exists {
        return Err(Error::AlreadyExists);
    }
    let mut files: Vec<TemplateFile> = Vec::new();
    files.push(
        TemplateFile { name: String::from_str("index.ts"), content: index_content(pascal) },
    );
    files.push(
        TemplateFile { name: String::from_str("types.ts"), content: typings_content(pascal) },
    );
    files.push(
        TemplateFile { name: vue_file_name(pascal), content: vue_content(kebab, pascal) },
    );
    files.push(
        TemplateFile { name: test_file_name(pascal), content: test_content(kebab, pascal) },
    );
    let mut lint_extra: Vec<String> = Vec::new();
    lint_extra.push(String::from_str("--rule"));
    lint_extra.push(String::from_str("@typescript-eslint/no-empty-interface: off"));
    lint_extra.push(String::from_str("**/components/src/index.ts"));
    Ok(
        ScaffoldPlan {
            unit: String::from_str(pascal),
            dir: String::from_str(kebab),
            files,
            index_entry: export_entry(kebab),
            format_glob: format_glob(kebab),
            lint_extra,
        },
    )
}

} // verus!
