//! Arguments for the package-test tool.
use crate::parsing::text::{opt_str, push_text, texts};
use vstd::prelude::*;

verus! {

/// `test --package-path <path>`, then `--filter <filter>` when one is given.
pub open spec fn package_test_args(package_path: Seq<char>, filter: Option<Seq<char>>) -> Seq<
    Seq<char>,
> {
    seq!["test"@, "--package-path"@, package_path] + match filter {
        Some(f) => seq!["--filter"@, f],
        None => Seq::empty(),
    }
}

/// Builds the package-test tool's arguments for one package.
pub fn build_args(package_path: &str, filter: Option<&str>) -> (r: Vec<String>)
    ensures
        texts(r@) == package_test_args(package_path@, opt_str(filter)),
{
    let mut args: Vec<String> = Vec::new();
    push_text(&mut args, String::from_str("test"));
    push_text(&mut args, String::from_str("--package-path"));
    push_text(&mut args, String::from_str(package_path));
    match filter {
        Some(f) => {
            push_text(&mut args, String::from_str("--filter"));
            push_text(&mut args, String::from_str(f));
        },
        None => {},
    }
    assert(texts(args@) =~= package_test_args(package_path@, opt_str(filter)));
    args
}

} // verus!
