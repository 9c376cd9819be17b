//! Reads a package description into the package's name and test targets.
use crate::json::{as_text, field, get_field, Json};
use crate::models::project::SwiftPackage;
use crate::parsing::text::{push_text, same_text, texts};
use vstd::prelude::*;

verus! {

/// The names of the targets whose `type` is `test`, in order.
pub open spec fn test_target_names(targets: Seq<Json>) -> Seq<Seq<char>>
    decreases targets.len(),
{
    if targets.len() == 0 {
        Seq::empty()
    } else {
        let t = targets.last();
        test_target_names(targets.drop_last()) + if as_text(field(t, "type"@)) == Some("test"@)
            && as_text(field(t, "name"@)) is Some {
            seq![as_text(field(t, "name"@))->0]
        } else {
            Seq::empty()
        }
    }
}

pub open spec fn package_name(doc: Json) -> Seq<char> {
    match as_text(field(doc, "name"@)) {
        Some(n) => n,
        None => "Unknown"@,
    }
}

pub open spec fn package_test_targets(doc: Json) -> Seq<Seq<char>> {
    match field(doc, "targets"@) {
        Some(Json::Array(v)) => test_target_names(v@),
        _ => Seq::empty(),
    }
}

/// The package at `package_path` as its description shows it: its name
/// ("Unknown" when missing) and the names of its test targets.
pub fn parse_package_description(doc: &Json, package_path: &str) -> (r: SwiftPackage)
    ensures
        r.name@ == package_name(*doc),
        r.path@ == package_path@,
        texts(r.test_targets@) == package_test_targets(*doc),
{
    let name = match get_field(doc, "name") {
        Some(Json::Str(n)) => n.clone(),
        _ => String::from_str("Unknown"),
    };
    let mut test_targets: Vec<String> = Vec::new();
    match get_field(doc, "targets") {
        Some(Json::Array(v)) => {
            let mut i: usize = 0;
            while i < v.len()
                invariant
                    i <= v@.len(),
                    texts(test_targets@) == test_target_names(v@.subrange(0, i as int)),
                decreases v@.len() - i,
            {
                assert(v@.subrange(0, i + 1).drop_last() =~= v@.subrange(0, i as int));
                let ghost before = texts(test_targets@);
                let is_test = match get_field(&v[i], "type") {
                    Some(Json::Str(t)) => same_text(t.as_str(), "test"),
                    _ => false,
                };
                if is_test {
                    match get_field(&v[i], "name") {
                        Some(Json::Str(n)) => push_text(&mut test_targets, n.clone()),
                        _ => {},
                    }
                }
                i = i + 1;
                assert(texts(test_targets@) =~= test_target_names(v@.subrange(0, i as int)));
            }
            assert(v@.subrange(0, i as int) =~= v@);
        },
        _ => {},
    }
    SwiftPackage { name, path: String::from_str(package_path), test_targets }
}

} // verus!
