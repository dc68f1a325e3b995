//! The simple-unit ("composable") template: name validation, the two
//! rendered files, and the plan of one scaffold operation.

use vstd::prelude::*;
use vstd::string::{StrSliceExecFns, StringExecFns};

use crate::case::{camel_of, to_camel};
use crate::chars::{is_ascii_digit, is_ascii_letter, letter};
use crate::error::Error;
use crate::registry::{export_entry, export_line};
use crate::scaffold::{ScaffoldPlan, TemplateFile};
use crate::text::lemma_skip_of_skip;

verus! {

/// The tail of a composable name after the required `use` prefix: a run of
/// word segments, each one ASCII letter optionally preceded by one hyphen.
/// A hyphen must therefore be followed by a letter, so the tail never ends
/// in a hyphen and never holds two hyphens in a row.
pub open spec fn composable_tail(s: Seq<char>) -> bool
    decreases s.len(),
{
    if s.len() == 0 {
        true
    } else if is_ascii_letter(s[0]) {
        composable_tail(s.skip(1))
    } else if s[0] == '-' {
        s.len() >= 2 && is_ascii_letter(s[1]) && composable_tail(s.skip(2))
    } else {
        false
    }
}

/// A valid composable name: the fixed prefix `use`, followed by word
/// segments as `composable_tail` describes. No digits, no leading or
/// trailing hyphen, and nothing outside ASCII letters and hyphens.
pub open spec fn is_composable_name(s: Seq<char>) -> bool {
    s.len() >= 3 && s[0] == 'u' && s[1] == 's' && s[2] == 'e' && composable_tail(s.skip(3))
}

/// Determines whether the composable name is valid.
pub fn is_valid_name(name: &str) -> (r: bool)
    ensures
        r == is_composable_name(name@),
{
    let n = name.unicode_len();
    if n < 3 {
        return false;
    }
    if name.get_char(0) != 'u' || name.get_char(1) != 's' || name.get_char(2) != 'e' {
        return false;
    }
    let mut i: usize = 3;
    while i < n
        invariant
            3 <= i <= n,
            n == name@.len(),
            name@[0] == 'u' && name@[1] == 's' && name@[2] == 'e',
            composable_tail(name@.skip(3)) == composable_tail(name@.skip(i as int)),
        decreases n - i,
    {
        let c = name.get_char(i);
        if letter(c) {
            proof {
                lemma_skip_of_skip(name@, i as int, 1);
            }
            i = i + 1;
        } else if c == '-' {
            if i + 1 == n {
                return false;
            }
            let c2 = name.get_char(i + 1);
            if !letter(c2) {
                return false;
            }
            proof {
                lemma_skip_of_skip(name@, i as int, 2);
            }
            i = i + 2;
        } else {
            return false;
        }
    }
    proof {
        assert(name@.skip(n as int) =~= Seq::<char>::empty());
    }
    true
}

/// Law: every character of a valid composable name is an ASCII letter or
/// a hyphen.
pub proof fn lemma_composable_name_chars(s: Seq<char>)
    requires
        is_composable_name(s),
    ensures
        forall|i: int| 0 <= i < s.len() ==> is_ascii_letter(#[trigger] s[i]) || s[i] == '-',
{
    lemma_tail_chars(s.skip(3));
    assert forall|i: int| 0 <= i < s.len() implies is_ascii_letter(#[trigger] s[i]) || s[i]
        == '-' by {
        if i >= 3 {
            assert(s.skip(3)[i - 3] == s[i]);
        }
    }
}

proof fn lemma_tail_chars(s: Seq<char>)
    requires
        composable_tail(s),
    ensures
        forall|i: int| 0 <= i < s.len() ==> is_ascii_letter(#[trigger] s[i]) || s[i] == '-',
    decreases s.len(),
{
    if s.len() == 0 {
    } else if is_ascii_letter(s[0]) {
        lemma_tail_chars(s.skip(1));
        assert forall|i: int| 0 <= i < s.len() implies is_ascii_letter(#[trigger] s[i]) || s[i]
            == '-' by {
            if i >= 1 {
                assert(s.skip(1)[i - 1] == s[i]);
            }
        }
    } else {
        lemma_tail_chars(s.skip(2));
        assert forall|i: int| 0 <= i < s.len() implies is_ascii_letter(#[trigger] s[i]) || s[i]
            == '-' by {
            if i >= 2 {
                assert(s.skip(2)[i - 2] == s[i]);
            }
        }
    }
}

/// Law: a name holding an ASCII digit anywhere is not a valid composable
/// name.
pub proof fn lemma_composable_rejects_digit(s: Seq<char>, i: int)
    requires
        0 <= i < s.len(),
        is_ascii_digit(s[i]),
    ensures
        !is_composable_name(s),
{
    if is_composable_name(s) {
        lemma_composable_name_chars(s);
        assert(is_ascii_letter(s[i]) || s[i] == '-');
        assert(false);
    }
}

/// Law: a name that does not begin with the fixed `use` prefix — in
/// particular one that begins with a hyphen — is not a valid composable
/// name.
pub proof fn lemma_composable_requires_prefix(s: Seq<char>)
    ensures
        !(s.len() >= 3 && s[0] == 'u' && s[1] == 's' && s[2] == 'e') ==> !is_composable_name(s),
        s.len() >= 1 && s[0] == '-' ==> !is_composable_name(s),
{
}

/// Law: a valid composable name never ends in a hyphen: every hyphen of
/// the tail is followed by a letter.
pub proof fn lemma_composable_no_trailing_hyphen(s: Seq<char>)
    requires
        is_composable_name(s),
    ensures
        s[s.len() - 1] != '-',
{
    if s.len() == 3 {
    } else {
        lemma_tail_last_letter(s.skip(3));
        assert(s.skip(3).last() == s[s.len() - 1]);
    }
}

proof fn lemma_tail_last_letter(s: Seq<char>)
    requires
        composable_tail(s),
        s.len() > 0,
    ensures
        is_ascii_letter(s.last()),
    decreases s.len(),
{
    if is_ascii_letter(s[0]) {
        if s.len() == 1 {
        } else {
            lemma_tail_last_letter(s.skip(1));
            assert(s.skip(1).last() == s.last());
        }
    } else {
        if s.len() == 2 {
            assert(s.last() == s[1]);
        } else {
            lemma_tail_last_letter(s.skip(2));
            assert(s.skip(2).last() == s.last());
        }
    }
}

/// The implementation stub: one exported callable placeholder.
pub open spec fn index_text(camel: Seq<char>) -> Seq<char> {
    "export function "@ + camel + "() { /* TODO */ }"@
}

/// The test file: imports the unit and holds one unimplemented test case.
pub open spec fn test_text(camel: Seq<char>) -> Seq<char> {
    "import { describe, it } from 'vitest';\nimport { "@ + camel + " } from '.';\n\ndescribe('"@
        + camel + "', () => { it.todo('todo'); });"@
}

/// The glob scoped to exactly the new unit's files.
pub open spec fn format_glob_text(camel: Seq<char>) -> Seq<char> {
    "**/composables/src/"@ + camel + "/**/*.ts"@
}

/// Renders the implementation stub for a camel-cased unit name.
pub fn index_content(camel: &str) -> (r: String)
    ensures
        r@ == index_text(camel@),
{
    let mut s = String::from_str("export function ");
    s.append(camel);
    s.append("() { /* TODO */ }");
    proof {
        assert(s@ =~= index_text(camel@));
    }
    s
}

/// Renders the test file for a camel-cased unit name.
pub fn test_content(camel: &str) -> (r: String)
    ensures
        r@ == test_text(camel@),
{
    let mut s = String::from_str("import { describe, it } from 'vitest';\nimport { ");
    s.append(camel);
    s.append(" } from '.';\n\ndescribe('");
    s.append(camel);
    s.append("', () => { it.todo('todo'); });");
    proof {
        assert(s@ =~= test_text(camel@));
    }
    s
}

/// Builds the glob scoped to the new unit's files.
pub fn format_glob(camel: &str) -> (r: String)
    ensures
        r@ == format_glob_text(camel@),
{
    let mut s = String::from_str("**/composables/src/");
    s.append(camel);
    s.append("/**/*.ts");
    proof {
        assert(s@ =~= format_glob_text(camel@));
    }
    s
}

/// Validates a proposed composable name and returns its camel-case
/// projection: the unit's directory name and display name.
pub fn unit_name(name: &str) -> (r: Result<String, Error>)
    ensures
        r is Ok <==> is_composable_name(name@),
        r matches Ok(camel) ==> camel@ == camel_of(name@),
        r matches Err(e) ==> e == Error::InvalidName,
{
    if is_valid_name(name) {
        Ok(to_camel(name))
    } else {
        Err(Error::InvalidName)
    }
}

/// A complete composable scaffold plan for the camel-cased unit name.
pub open spec fn plan_is_for(p: ScaffoldPlan, camel: Seq<char>) -> bool {
    &&& p.unit@ == camel
    &&& p.dir@ == camel
    &&& p.files@.len() == 2
    &&& p.files@[0].name@ == "index.ts"@
    &&& p.files@[0].content@ == index_text(camel)
    &&& p.files@[1].name@ == "index.test.ts"@
    &&& p.files@[1].content@ == test_text(camel)
    &&& p.index_entry@ == export_line(camel)
    &&& p.format_glob@ == format_glob_text(camel)
    &&& p.lint_extra@.len() == 1
    &&& p.lint_extra@[0]@ == "**/composables/src/index.ts"@
}

/// Plans one composable scaffold from the validated unit name. The unit's
/// directory must not exist yet: when it does, the plan is refused and no
/// file content is produced, so a repeated scaffold of one name leaves
/// every existing byte in place.
pub fn plan(camel: &str, dir_exists: bool) -> (r: Result<ScaffoldPlan, Error>)
    ensures
        dir_exists ==> (r matches Err(e) && e == Error::AlreadyExists),
        !dir_exists ==> (r matches Ok(p) && plan_is_for(p, camel@)),
{
    if dir_exists {
        return Err(Error::AlreadyExists);
    }
    let mut files: Vec<TemplateFile> = Vec::new();
    files.push(
        TemplateFile { name: String::from_str("index.ts"), content: index_content(camel) },
    );
    files.push(
        TemplateFile { name: String::from_str("index.test.ts"), content: test_content(camel) },
    );
    let mut lint_extra: Vec<String> = Vec::new();
    lint_extra.push(String::from_str("**/composables/src/index.ts"));
    Ok(
        ScaffoldPlan {
            unit: String::from_str(camel),
            dir: String::from_str(camel),
            files,
            index_entry: export_entry(camel),
            format_glob: format_glob(camel),
            lint_extra,
        },
    )
}

} // verus!
