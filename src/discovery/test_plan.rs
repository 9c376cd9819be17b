//! Recognises test-plan files among directory entries.
use crate::execution::xcodebuild::has_extension;
use crate::models::project::TestPlan;
use crate::parsing::text::{chars_of, literal_at};
use vstd::prelude::*;

verus! {

/// The position after the last `/` of `p` before `i`, or 0.
pub open spec fn name_start(p: Seq<char>, i: int) -> int
    decreases i,
{
    if i <= 0 {
        0
    } else if p[i - 1] == '/' {
        i
    } else {
        name_start(p, i - 1)
    }
}

pub open spec fn plan_extension() -> Seq<char> {
    "xctestplan"@
}

/// A file path names a test plan when its extension is `xctestplan`; the
/// plan is named after the file without that extension.
pub open spec fn test_plan_name(p: Seq<char>) -> Option<Seq<char>> {
    if has_extension(p, plan_extension()) {
        let dot = p.len() - plan_extension().len() - 1;
        Some(p.subrange(name_start(p, dot), dot))
    } else {
        None
    }
}

/// The test plan a file at `path` holds, if its extension marks one.
pub fn test_plan_at(path: &str) -> (r: Option<TestPlan>)
    ensures
        match test_plan_name(path@) {
            Some(n) => r matches Some(t) && t.name@ == n && t.path@ == path@,
            None => r is None,
        },
{
    let s = chars_of(path);
    let n = s.len();
    proof {
        reveal_strlit(".xctestplan");
        reveal_strlit("xctestplan");
        assert(seq!['.'] + plan_extension() =~= ".xctestplan"@);
    }
    if n < 12 {
        return None;
    }
    let k = n - 11;
    if !(literal_at(&s, k, ".xctestplan") && s[k - 1] != '/') {
        return None;
    }
    let mut i: usize = k;
    while i > 0 && s[i - 1] != '/'
        invariant
            s@ == path@,
            i <= k,
            k < n,
            n == s@.len(),
            name_start(path@, k as int) == name_start(path@, i as int),
        decreases i,
    {
        i = i - 1;
    }
    let name = String::from_str(path.substring_char(i, k));
    Some(TestPlan { name, path: String::from_str(path) })
}

} // verus!
