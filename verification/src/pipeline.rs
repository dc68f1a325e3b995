//! The selective build pipeline: normalization of the requested package
//! names, the allow-list filter, the build plan with its fixed first
//! package, and the post-build artifact copy list.

use vstd::prelude::*;
use vstd::string::{StringExecFns, StrSliceExecFns};

use crate::chars::{is_whitespace_char, lower_char, to_lower_char, whitespace};
use crate::error::Error;
use crate::text::{str_chars, string_from_chars};

verus! {

/// The immutable configuration table of the orchestrator: the fixed
/// build-order rule and the package policy lists.
pub struct BuildConfig {
    /// The package that always builds first and alone; a build-time
    /// dependency of every other package.
    pub first: String,
    /// The scope prefix stripped from requested names before comparison.
    pub scope: String,
    /// The publishable allow-list: the only packages this orchestrator
    /// may build.
    pub allow: Vec<String>,
    /// Packages that need no build step.
    pub no_build: Vec<String>,
    /// Packages that publish their own type-declaration artifact and are
    /// skipped by the distribution-copy step.
    pub standalone: Vec<String>,
}

/// The derived build plan: the packages of the parallel invocation, in
/// request order. The fixed first package is not among them.
pub struct BuildPlan {
    pub packages: Vec<String>,
}

/// How many leading whitespace characters trimming removes.
pub open spec fn ws_prefix_len(s: Seq<char>) -> int
    decreases s.len(),
{
    if s.len() == 0 {
        0
    } else if is_whitespace_char(s[0]) {
        1 + ws_prefix_len(s.skip(1))
    } else {
        0
    }
}

/// How many trailing whitespace characters trimming removes.
pub open spec fn ws_suffix_len(s: Seq<char>) -> int
    decreases s.len(),
{
    if s.len() == 0 {
        0
    } else if is_whitespace_char(s.last()) {
        1 + ws_suffix_len(s.drop_last())
    } else {
        0
    }
}

/// The name with leading and trailing whitespace removed.
pub open spec fn trim_of(s: Seq<char>) -> Seq<char> {
    let t = s.skip(ws_prefix_len(s));
    t.take(t.len() - ws_suffix_len(t))
}

/// The name with every upper-case ASCII letter lowered.
pub open spec fn lower_seq(s: Seq<char>) -> Seq<char> {
    s.map_values(|c: char| lower_char(c))
}

/// The name with one leading scope prefix removed, when it carries one.
pub open spec fn strip_prefix(s: Seq<char>, p: Seq<char>) -> Seq<char> {
    if p.len() <= s.len() && s.take(p.len() as int) == p {
        s.skip(p.len() as int)
    } else {
        s
    }
}

/// The normal form of a requested package name: trimmed, lowered, and
/// stripped of the scope prefix.
pub open spec fn normal_form(scope: Seq<char>, s: Seq<char>) -> Seq<char> {
    strip_prefix(lower_seq(trim_of(s)), scope)
}

proof fn lemma_ws_prefix_is(s: Seq<char>, i: int)
    requires
        0 <= i <= s.len(),
        forall|k: int| 0 <= k < i ==> is_whitespace_char(#[trigger] s[k]),
        i < s.len() ==> !is_whitespace_char(s[i]),
    ensures
        ws_prefix_len(s) == i,
    decreases s.len(),
{
    if s.len() == 0 {
    } else if i == 0 {
    } else {
        assert(is_whitespace_char(s[0]));
        assert forall|k: int| 0 <= k < i - 1 implies is_whitespace_char(#[trigger] s.skip(1)[k]) by {
            assert(s.skip(1)[k] == s[k + 1]);
        }
        if i - 1 < s.skip(1).len() {
            assert(s.skip(1)[i - 1] == s[i]);
        }
        lemma_ws_prefix_is(s.skip(1), i - 1);
    }
}

proof fn lemma_ws_suffix_is(s: Seq<char>, j: int)
    requires
        0 <= j <= s.len(),
        forall|k: int| j <= k < s.len() ==> is_whitespace_char(#[trigger] s[k]),
        j > 0 ==> !is_whitespace_char(s[j - 1]),
    ensures
        ws_suffix_len(s) == s.len() - j,
    decreases s.len(),
{
    if j == s.len() {
        if s.len() > 0 {
            assert(!is_whitespace_char(s.last()));
        }
    } else {
        assert(is_whitespace_char(s.last()));
        assert forall|k: int| j <= k < s.drop_last().len() implies is_whitespace_char(
            #[trigger] s.drop_last()[k],
        ) by {
            assert(s.drop_last()[k] == s[k]);
        }
        if j > 0 {
            assert(s.drop_last()[j - 1] == s[j - 1]);
        }
        lemma_ws_suffix_is(s.drop_last(), j);
    }
}

fn first_non_ws(cs: &Vec<char>) -> (i: usize)
    ensures
        0 <= i <= cs@.len(),
        forall|k: int| 0 <= k < i ==> is_whitespace_char(#[trigger] cs@[k]),
        i < cs@.len() ==> !is_whitespace_char(cs@[i as int]),
{
    let mut i: usize = 0;
    while i < cs.len()
        invariant
            0 <= i <= cs@.len(),
            forall|k: int| 0 <= k < i ==> is_whitespace_char(#[trigger] cs@[k]),
        decreases cs@.len() - i,
    {
        if !whitespace(cs[i]) {
            return i;
        }
        i = i + 1;
    }
    i
}

fn last_non_ws_end(cs: &Vec<char>, start: usize) -> (j: usize)
    requires
        start <= cs@.len(),
    ensures
        start <= j <= cs@.len(),
        forall|k: int| j <= k < cs@.len() ==> is_whitespace_char(#[trigger] cs@[k]),
        j > start ==> !is_whitespace_char(cs@[j - 1]),
{
    let mut j: usize = cs.len();
    while j > start
        invariant
            start <= j <= cs@.len(),
            forall|k: int| j <= k < cs@.len() ==> is_whitespace_char(#[trigger] cs@[k]),
        decreases j,
    {
        if !whitespace(cs[j - 1]) {
            return j;
        }
        j = j - 1;
    }
    j
}

fn starts_with_chars(s: &Vec<char>, p: &Vec<char>) -> (r: bool)
    ensures
        r == (p@.len() <= s@.len() && s@.take(p@.len() as int) == p@),
{
    if p.len() > s.len() {
        return false;
    }
    let mut k: usize = 0;
    while k < p.len()
        invariant
            0 <= k <= p@.len(),
            p@.len() <= s@.len(),
            forall|t: int| 0 <= t < k ==> s@[t] == p@[t],
        decreases p@.len() - k,
    {
        if s[k] != p[k] {
            proof {
                assert(s@.take(p@.len() as int)[k as int] != p@[k as int]);
            }
            return false;
        }
        k = k + 1;
    }
    proof {
        assert(s@.take(p@.len() as int) =~= p@);
    }
    true
}

/// Normalizes one requested package name: trims whitespace, lowers ASCII
/// letters, and strips one leading scope prefix.
pub fn normalize_name(scope: &str, name: &str) -> (r: String)
    ensures
        r@ == normal_form(scope@, name@),
{
    let cs = str_chars(name);
    let n = cs.len();
    let i = first_non_ws(&cs);
    let j = last_non_ws_end(&cs, i);
    proof {
        lemma_ws_prefix_is(name@, i as int);
        let t = name@.skip(i as int);
        assert forall|k: int| j - i <= k < t.len() implies is_whitespace_char(
            #[trigger] t[k],
        ) by {
            assert(t[k] == name@[k + i]);
        }
        if j > i {
            assert(t[j - i - 1] == name@[j - 1]);
        }
        lemma_ws_suffix_is(t, j - i);
        assert(trim_of(name@) =~= name@.subrange(i as int, j as int));
    }
    let mut low: Vec<char> = Vec::new();
    let mut k: usize = i;
    while k < j
        invariant
            i <= k <= j <= n,
            n == cs@.len(),
            cs@ == name@,
            low@ =~= lower_seq(name@.subrange(i as int, k as int)),
        decreases j - k,
    {
        low.push(to_lower_char(cs[k]));
        k = k + 1;
        proof {
            assert(name@.subrange(i as int, k as int) =~= name@.subrange(i as int, k - 1).push(
                name@[k - 1],
            ));
            assert(low@ =~= lower_seq(name@.subrange(i as int, k as int)));
        }
    }
    proof {
        assert(low@ =~= lower_seq(trim_of(name@)));
    }
    let sc = str_chars(scope);
    if starts_with_chars(&low, &sc) {
        let m = sc.len();
        let mut out: Vec<char> = Vec::new();
        let mut k2: usize = m;
        while k2 < low.len()
            invariant
                m <= k2 <= low@.len(),
                out@ =~= low@.subrange(m as int, k2 as int),
            decreases low@.len() - k2,
        {
            out.push(low[k2]);
            k2 = k2 + 1;
            proof {
                assert(low@.subrange(m as int, k2 as int) =~= low@.subrange(m as int, k2 - 1).push(
                    low@[k2 - 1],
                ));
            }
        }
        proof {
            assert(out@ =~= low@.skip(m as int));
            assert(out@ =~= normal_form(scope@, name@));
        }
        string_from_chars(&out)
    } else {
        proof {
            assert(low@ =~= normal_form(scope@, name@));
        }
        string_from_chars(&low)
    }
}

/// Compares two string slices character by character.
pub fn eq_str(a: &str, b: &str) -> (r: bool)
    ensures
        r == (a@ == b@),
{
    let n = a.unicode_len();
    if n != b.unicode_len() {
        return false;
    }
    let mut k: usize = 0;
    while k < n
        invariant
            0 <= k <= n,
            n == a@.len(),
            n == b@.len(),
            forall|t: int| 0 <= t < k ==> a@[t] == b@[t],
        decreases n - k,
    {
        if a.get_char(k) != b.get_char(k) {
            return false;
        }
        k = k + 1;
    }
    proof {
        assert(a@ =~= b@);
    }
    true
}

fn contains_str(v: &Vec<String>, name: &str) -> (r: bool)
    ensures
        r == v.deep_view().contains(name@),
{
    let mut k: usize = 0;
    while k < v.len()
        invariant
            0 <= k <= v@.len(),
            forall|t: int| 0 <= t < k ==> #[trigger] v.deep_view()[t] != name@,
        decreases v@.len() - k,
    {
        if eq_str(v[k].as_str(), name) {
            proof {
                assert(v.deep_view()[k as int] == name@);
            }
            return true;
        }
        k = k + 1;
    }
    false
}

/// A normalized name the orchestrator may build in the parallel step: on
/// the allow-list, not the fixed first package (already built), and not a
/// package that needs no build.
pub open spec fn eligible(cfg: BuildConfig, name: Seq<char>) -> bool {
    &&& cfg.allow.deep_view().contains(name)
    &&& !cfg.no_build.deep_view().contains(name)
    &&& name != cfg.first@
}

/// Decides build eligibility for one normalized package name.
pub fn should_build(cfg: &BuildConfig, name: &str) -> (r: bool)
    ensures
        r == eligible(*cfg, name@),
{
    contains_str(&cfg.allow, name) && !contains_str(&cfg.no_build, name) && !eq_str(
        name,
        cfg.first.as_str(),
    )
}

/// The packages of the parallel build: each requested name normalized,
/// kept when eligible, in request order.
pub open spec fn plan_packages(cfg: BuildConfig, names: Seq<Seq<char>>) -> Seq<Seq<char>>
    decreases names.len(),
{
    if names.len() == 0 {
        Seq::empty()
    } else {
        let prefix = plan_packages(cfg, names.drop_last());
        let x = normal_form(cfg.scope@, names.last());
        if eligible(cfg, x) {
            prefix.push(x)
        } else {
            prefix
        }
    }
}

/// Law: every package of the plan is eligible — on the allow-list, not
/// the fixed first package, and not exempt from building.
pub proof fn lemma_plan_packages_sound(cfg: BuildConfig, names: Seq<Seq<char>>, j: int)
    requires
        0 <= j < plan_packages(cfg, names).len(),
    ensures
        eligible(cfg, plan_packages(cfg, names)[j]),
    decreases names.len(),
{
    if names.len() > 0 {
        let prefix = plan_packages(cfg, names.drop_last());
        if j < prefix.len() {
            lemma_plan_packages_sound(cfg, names.drop_last(), j);
        }
    }
}

/// Law: every requested name whose normal form is eligible is in the
/// plan; ineligible names are dropped silently, not reported.
pub proof fn lemma_plan_packages_complete(cfg: BuildConfig, names: Seq<Seq<char>>, i: int)
    requires
        0 <= i < names.len(),
        eligible(cfg, normal_form(cfg.scope@, names[i])),
    ensures
        plan_packages(cfg, names).contains(normal_form(cfg.scope@, names[i])),
    decreases names.len(),
{
    let x = normal_form(cfg.scope@, names[i]);
    let prefix = plan_packages(cfg, names.drop_last());
    if i == names.len() - 1 {
        if eligible(cfg, normal_form(cfg.scope@, names.last())) {
            assert(plan_packages(cfg, names).last() == x);
        }
    } else {
        assert(names.drop_last()[i] == names[i]);
        lemma_plan_packages_complete(cfg, names.drop_last(), i);
        let k = choose|k: int| 0 <= k < prefix.len() && prefix[k] == x;
        assert(plan_packages(cfg, names)[k] == x);
    }
}

/// Derives the build plan from the requested names. An empty request is
/// refused outright; a request that normalizes and filters to nothing is
/// refused as not buildable; otherwise the plan holds exactly the
/// eligible normalized names, in request order.
pub fn build_plan(cfg: &BuildConfig, names: &Vec<String>) -> (r: Result<BuildPlan, Error>)
    ensures
        names@.len() == 0 ==> (r matches Err(e) && e == Error::EmptyRequest),
        names@.len() > 0 && plan_packages(*cfg, names.deep_view()).len() == 0 ==> (r matches Err(e)
            && e == Error::NothingBuildable),
        names@.len() > 0 && plan_packages(*cfg, names.deep_view()).len() > 0 ==> (r matches Ok(p)
            && p.packages.deep_view() == plan_packages(*cfg, names.deep_view())),
{
    if names.len() == 0 {
        return Err(Error::EmptyRequest);
    }
    let mut pkgs: Vec<String> = Vec::new();
    let mut idx: usize = 0;
    while idx < names.len()
        invariant
            0 <= idx <= names@.len(),
            pkgs.deep_view() == plan_packages(*cfg, names.deep_view().take(idx as int)),
        decreases names@.len() - idx,
    {
        let norm = normalize_name(cfg.scope.as_str(), names[idx].as_str());
        let ghost pre = pkgs.deep_view();
        let keep = should_build(cfg, norm.as_str());
        if keep {
            pkgs.push(norm);
        }
        idx = idx + 1;
        proof {
            let dv = names.deep_view();
            assert(dv.take(idx as int).drop_last() =~= dv.take(idx - 1));
            assert(dv.take(idx as int).last() == dv[idx - 1]);
            if keep {
                assert(pkgs.deep_view() =~= pre.push(normal_form(cfg.scope@, dv[idx - 1])));
            }
            assert(pkgs.deep_view() =~= plan_packages(*cfg, dv.take(idx as int)));
        }
    }
    proof {
        assert(names.deep_view().take(names@.len() as int) =~= names.deep_view());
    }
    if pkgs.len() == 0 {
        return Err(Error::NothingBuildable);
    }
    Ok(BuildPlan { packages: pkgs })
}

/// The packages whose type-declaration artifact is copied into the shared
/// distribution directory: every built package not flagged standalone.
pub open spec fn copy_packages(cfg: BuildConfig, pkgs: Seq<Seq<char>>) -> Seq<Seq<char>>
    decreases pkgs.len(),
{
    if pkgs.len() == 0 {
        Seq::empty()
    } else {
        let prefix = copy_packages(cfg, pkgs.drop_last());
        if !cfg.standalone.deep_view().contains(pkgs.last()) {
            prefix.push(pkgs.last())
        } else {
            prefix
        }
    }
}

/// Law: the copy step never touches a standalone package, and every
/// copied package is one of the built packages.
pub proof fn lemma_copy_packages_sound(cfg: BuildConfig, pkgs: Seq<Seq<char>>, j: int)
    requires
        0 <= j < copy_packages(cfg, pkgs).len(),
    ensures
        !cfg.standalone.deep_view().contains(copy_packages(cfg, pkgs)[j]),
        pkgs.contains(copy_packages(cfg, pkgs)[j]),
    decreases pkgs.len(),
{
    if pkgs.len() > 0 {
        let prefix = copy_packages(cfg, pkgs.drop_last());
        if j < prefix.len() {
            lemma_copy_packages_sound(cfg, pkgs.drop_last(), j);
            let y = prefix[j];
            let k = choose|k: int| 0 <= k < pkgs.drop_last().len() && pkgs.drop_last()[k] == y;
            assert(pkgs[k] == y);
        } else {
            assert(pkgs.last() == copy_packages(cfg, pkgs)[j]);
        }
    }
}

/// Law: the copy step is performed for every built package that is not
/// flagged standalone.
pub proof fn lemma_copy_packages_complete(cfg: BuildConfig, pkgs: Seq<Seq<char>>, i: int)
    requires
        0 <= i < pkgs.len(),
        !cfg.standalone.deep_view().contains(pkgs[i]),
    ensures
        copy_packages(cfg, pkgs).contains(pkgs[i]),
    decreases pkgs.len(),
{
    let x = pkgs[i];
    let prefix = copy_packages(cfg, pkgs.drop_last());
    if i == pkgs.len() - 1 {
        if !cfg.standalone.deep_view().contains(pkgs.last()) {
            assert(copy_packages(cfg, pkgs).last() == x);
        }
    } else {
        assert(pkgs.drop_last()[i] == pkgs[i]);
        lemma_copy_packages_complete(cfg, pkgs.drop_last(), i);
        let k = choose|k: int| 0 <= k < prefix.len() && prefix[k] == x;
        assert(copy_packages(cfg, pkgs)[k] == x);
    }
}

/// Lists the packages whose artifact the driver copies after the build.
pub fn copy_list(cfg: &BuildConfig, plan: &BuildPlan) -> (r: Vec<String>)
    ensures
        r.deep_view() == copy_packages(*cfg, plan.packages.deep_view()),
{
    let mut v: Vec<String> = Vec::new();
    let mut idx: usize = 0;
    while idx < plan.packages.len()
        invariant
            0 <= idx <= plan.packages@.len(),
            v.deep_view() == copy_packages(*cfg, plan.packages.deep_view().take(idx as int)),
        decreases plan.packages@.len() - idx,
    {
        let ghost pre = v.deep_view();
        let skip_it = contains_str(&cfg.standalone, plan.packages[idx].as_str());
        if !skip_it {
            v.push(plan.packages[idx].clone());
        }
        idx = idx + 1;
        proof {
            let dv = plan.packages.deep_view();
            assert(dv.take(idx as int).drop_last() =~= dv.take(idx - 1));
            assert(dv.take(idx as int).last() == dv[idx - 1]);
            if !skip_it {
                assert(v.deep_view() =~= pre.push(dv[idx - 1]));
            }
            assert(v.deep_view() =~= copy_packages(*cfg, dv.take(idx as int)));
        }
    }
    proof {
        assert(plan.packages.deep_view().take(plan.packages@.len() as int)
            =~= plan.packages.deep_view());
    }
    v
}

/// The file name under which a package's type-declaration artifact is
/// published in the shared distribution directory.
pub fn dts_filename(pkg: &str) -> (r: String)
    ensures
        r@ == pkg@ + ".d.ts"@,
{
    let mut s = String::from_str(pkg);
    s.append(".d.ts");
    s
}

} // verus!
