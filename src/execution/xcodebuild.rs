//! Arguments for the build tool.
use crate::parsing::text::{opt_str, push_text, same_text, texts};
use vstd::prelude::*;

verus! {

/// The container found at the root of a project: a workspace or a project,
/// with its path.
#[derive(Debug, Clone)]
pub enum ProjectContainer {
    Workspace(String),
    Project(String),
}

/// The build tool's arguments and the result bundle they ask it to write.
#[derive(Debug, Clone)]
pub struct XcodebuildArgs {
    pub args: Vec<String>,
    pub result_bundle_path: String,
}

pub open spec fn is_hex(c: char) -> bool {
    ('0' <= c && c <= '9') || ('a' <= c && c <= 'f') || ('A' <= c && c <= 'F')
}

pub open spec fn hyphen_count(s: Seq<char>) -> nat
    decreases s.len(),
{
    if s.len() == 0 {
        0
    } else {
        hyphen_count(s.drop_last()) + if s.last() == '-' {
            1nat
        } else {
            0nat
        }
    }
}

/// A device identifier: 36 characters, exactly 4 of them hyphens, the rest
/// hexadecimal digits.
pub open spec fn is_device_id(s: Seq<char>) -> bool {
    s.len() == 36 && hyphen_count(s) == 4 && forall|i: int|
        0 <= i < s.len() ==> is_hex(#[trigger] s[i]) || s[i] == '-'
}

/// A device identifier is written `id=<value>`; any other destination is
/// passed as it is.
pub open spec fn destination_value(d: Seq<char>) -> Seq<char> {
    if is_device_id(d) {
        "id="@ + d
    } else {
        d
    }
}

/// `name` under directory `dir`, as a path join writes it.
pub open spec fn join_path(dir: Seq<char>, name: Seq<char>) -> Seq<char> {
    if name.len() > 0 && name[0] == '/' {
        name
    } else if dir.len() == 0 || dir.last() == '/' {
        dir + name
    } else {
        dir + "/"@ + name
    }
}

pub open spec fn bundle_path(dir: Seq<char>, scheme: Seq<char>) -> Seq<char> {
    join_path(dir, scheme + ".xcresult"@)
}

pub open spec fn container_args(c: Option<ProjectContainer>) -> Seq<Seq<char>> {
    match c {
        Some(ProjectContainer::Workspace(p)) => seq!["-workspace"@, p@],
        Some(ProjectContainer::Project(p)) => seq!["-project"@, p@],
        None => Seq::empty(),
    }
}

/// `test -scheme <scheme> -resultBundlePath <bundle>`, then the container
/// selector, the test plan, the single test and the destination, each only
/// when given (an empty destination counts as none).
pub open spec fn build_tool_args(
    container: Option<ProjectContainer>,
    scheme: Seq<char>,
    bundle: Seq<char>,
    only_testing: Option<Seq<char>>,
    test_plan: Option<Seq<char>>,
    destination: Option<Seq<char>>,
) -> Seq<Seq<char>> {
    seq!["test"@, "-scheme"@, scheme, "-resultBundlePath"@, bundle] + container_args(container)
        + match test_plan {
        Some(p) => seq!["-testPlan"@, p],
        None => Seq::empty(),
    } + match only_testing {
        Some(t) => seq!["-only-testing:"@ + t],
        None => Seq::empty(),
    } + match destination {
        Some(d) => if d.len() > 0 {
            seq!["-destination"@, destination_value(d)]
        } else {
            Seq::empty()
        },
        None => Seq::empty(),
    }
}

/// The destination selector: an empty destination adds no argument, a
/// device identifier is written `id=<identifier>`, and any other
/// destination is passed unchanged.
pub proof fn law_destination_selector(
    container: Option<ProjectContainer>,
    scheme: Seq<char>,
    bundle: Seq<char>,
    only_testing: Option<Seq<char>>,
    test_plan: Option<Seq<char>>,
    d: Seq<char>,
)
    ensures
        ({
            let with = build_tool_args(container, scheme, bundle, only_testing, test_plan, Some(d));
            let without = build_tool_args(container, scheme, bundle, only_testing, test_plan, None);
            &&& d.len() == 0 ==> with == without
            &&& d.len() > 0 && is_device_id(d) ==> with == without + seq!["-destination"@, "id="@ + d]
            &&& d.len() > 0 && !is_device_id(d) ==> with == without + seq!["-destination"@, d]
        }),
{
    let without = build_tool_args(container, scheme, bundle, only_testing, test_plan, None);
    assert(without + Seq::<Seq<char>>::empty() =~= without);
}

/// Whether `s` is a device identifier (see `is_device_id`).
pub fn looks_like_udid(s: &str) -> (r: bool)
    ensures
        r == is_device_id(s@),
{
    let n = s.unicode_len();
    if n != 36 {
        return false;
    }
    let mut hyphens: usize = 0;
    let mut i: usize = 0;
    while i < n
        invariant
            n == s@.len(),
            i <= n,
            hyphens == hyphen_count(s@.subrange(0, i as int)),
            hyphens <= i,
            forall|j: int| 0 <= j < i ==> is_hex(#[trigger] s@[j]) || s@[j] == '-',
        decreases n - i,
    {
        let c = s.get_char(i);
        assert(s@.subrange(0, i + 1).drop_last() =~= s@.subrange(0, i as int));
        if c == '-' {
            hyphens = hyphens + 1;
        } else if !(('0' <= c && c <= '9') || ('a' <= c && c <= 'f') || ('A' <= c && c <= 'F')) {
            return false;
        }
        i = i + 1;
    }
    assert(s@.subrange(0, n as int) =~= s@);
    hyphens == 4
}

fn destination_text(d: &str) -> (r: String)
    ensures
        r@ == destination_value(d@),
{
    if looks_like_udid(d) {
        String::from_str("id=").concat(d)
    } else {
        String::from_str(d)
    }
}

pub fn join(dir: &str, name: String) -> (r: String)
    ensures
        r@ == join_path(dir@, name@),
{
    let n = dir.unicode_len();
    if name.as_str().unicode_len() > 0 && name.as_str().get_char(0) == '/' {
        name
    } else if n == 0 || dir.get_char(n - 1) == '/' {
        String::from_str(dir).concat(name.as_str())
    } else {
        String::from_str(dir).concat("/").concat(name.as_str())
    }
}

/// Builds the build tool's arguments for one scheme. The result bundle goes
/// to `<result_bundle_dir>/<scheme>.xcresult`. The tool has no switch for
/// stopping at the first failure, so that flag changes nothing here.
pub fn build_args(
    container: &Option<ProjectContainer>,
    scheme: &str,
    result_bundle_dir: &str,
    _stop_on_first_failure: bool,
    only_testing_target: Option<&str>,
    test_plan_name: Option<&str>,
    destination: Option<&str>,
) -> (r: XcodebuildArgs)
    ensures
        r.result_bundle_path@ == bundle_path(result_bundle_dir@, scheme@),
        texts(r.args@) == build_tool_args(
            *container,
            scheme@,
            r.result_bundle_path@,
            opt_str(only_testing_target),
            opt_str(test_plan_name),
            opt_str(destination),
        ),
{
    let result_bundle_path = join(result_bundle_dir, String::from_str(scheme).concat(".xcresult"));
    let mut args: Vec<String> = Vec::new();
    push_text(&mut args, String::from_str("test"));
    push_text(&mut args, String::from_str("-scheme"));
    push_text(&mut args, String::from_str(scheme));
    push_text(&mut args, String::from_str("-resultBundlePath"));
    push_text(&mut args, result_bundle_path.clone());
    let ghost base = texts(args@);
    match container {
        Some(ProjectContainer::Workspace(p)) => {
            push_text(&mut args, String::from_str("-workspace"));
            push_text(&mut args, p.clone());
        },
        Some(ProjectContainer::Project(p)) => {
            push_text(&mut args, String::from_str("-project"));
            push_text(&mut args, p.clone());
        },
        None => {},
    }
    assert(texts(args@) =~= base + container_args(*container));
    let ghost with_container = texts(args@);
    match test_plan_name {
        Some(p) => {
            push_text(&mut args, String::from_str("-testPlan"));
            push_text(&mut args, String::from_str(p));
        },
        None => {},
    }
    let ghost with_plan = texts(args@);
    match only_testing_target {
        Some(t) => {
            push_text(&mut args, String::from_str("-only-testing:").concat(t));
        },
        None => {},
    }
    let ghost with_only = texts(args@);
    match destination {
        Some(d) => {
            if d.unicode_len() > 0 {
                push_text(&mut args, String::from_str("-destination"));
                push_text(&mut args, destination_text(d));
            }
        },
        None => {},
    }
    assert(texts(args@) =~= build_tool_args(
        *container,
        scheme@,
        result_bundle_path@,
        opt_str(only_testing_target),
        opt_str(test_plan_name),
        opt_str(destination),
    ));
    XcodebuildArgs { args, result_bundle_path }
}

/// Whether the last path component of `p` has the extension `ext`: it ends
/// with `.<ext>` and has something before the dot.
pub open spec fn has_extension(p: Seq<char>, ext: Seq<char>) -> bool {
    let k = p.len() - ext.len() - 1;
    k > 0 && p.subrange(k, p.len() as int) == seq!['.'] + ext && p[k - 1] != '/'
}

/// The first of `paths` from position `i` on with extension `ext`.
pub open spec fn first_with_extension(paths: Seq<String>, ext: Seq<char>, i: int) -> Option<int>
    decreases paths.len() - i,
{
    if i < 0 || i >= paths.len() {
        None
    } else if has_extension(paths[i]@, ext) {
        Some(i)
    } else {
        first_with_extension(paths, ext, i + 1)
    }
}

fn has_ext(p: &str, ext: &str) -> (r: bool)
    ensures
        r == has_extension(p@, ext@),
{
    let n = p.unicode_len();
    let m = ext.unicode_len();
    if n < 2 || n - 2 < m {
        return false;
    }
    let k = n - m - 1;
    let tail = p.substring_char(k, n);
    let dotted = String::from_str(".").concat(ext);
    proof {
        reveal_strlit(".");
        assert(seq!['.'] + ext@ =~= "."@ + ext@);
    }
    same_text(tail, dotted.as_str()) && p.get_char(k - 1) != '/'
}

fn first_ext(paths: &Vec<String>, ext: &str) -> (r: Option<usize>)
    ensures
        match r {
            Some(i) => i < paths@.len() && first_with_extension(paths@, ext@, 0) == Some(i as int),
            None => first_with_extension(paths@, ext@, 0) is None,
        },
{
    let mut i: usize = 0;
    while i < paths.len()
        invariant
            i <= paths@.len(),
            first_with_extension(paths@, ext@, 0) == first_with_extension(paths@, ext@, i as int),
        decreases paths@.len() - i,
    {
        if has_ext(paths[i].as_str(), ext) {
            return Some(i);
        }
        i = i + 1;
    }
    None
}

pub open spec fn container_of(paths: Seq<String>) -> Option<ProjectContainer> {
    match first_with_extension(paths, "xcworkspace"@, 0) {
        Some(i) => Some(ProjectContainer::Workspace(paths[i])),
        None => match first_with_extension(paths, "xcodeproj"@, 0) {
            Some(i) => Some(ProjectContainer::Project(paths[i])),
            None => None,
        },
    }
}

/// Chooses the container among the entries of a project's root directory:
/// the first workspace, else the first project, else none.
pub fn find_container(entries: &Vec<String>) -> (r: Option<ProjectContainer>)
    ensures
        match container_of(entries@) {
            Some(ProjectContainer::Workspace(p)) => r matches Some(ProjectContainer::Workspace(q))
                && q@ == p@,
            Some(ProjectContainer::Project(p)) => r matches Some(ProjectContainer::Project(q)) && q@
                == p@,
            None => r is None,
        },
{
    let ws = first_ext(entries, "xcworkspace");
    match ws {
        Some(i) => {
            let p = entries[i].clone();
            assert(container_of(entries@) == Some(ProjectContainer::Workspace(entries@[i as int])));
            Some(ProjectContainer::Workspace(p))
        },
        None => {
            let pj = first_ext(entries, "xcodeproj");
            match pj {
                Some(i) => {
                    let p = entries[i].clone();
                    assert(container_of(entries@) == Some(
                        ProjectContainer::Project(entries@[i as int]),
                    ));
                    Some(ProjectContainer::Project(p))
                },
                None => None,
            }
        },
    }
}

} // verus!
