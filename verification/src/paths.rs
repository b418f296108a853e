//! Destination paths of the four artifacts. A path is modelled as the
//! character sequence of its text; joining appends a `/` and the relative
//! part.

use vstd::prelude::*;
use vstd::string::*;

verus! {

/// `base` with `rel` appended after a separator.
pub open spec fn path_join(base: Seq<char>, rel: Seq<char>) -> Seq<char> {
    base + "/"@ + rel
}

/// The tap update-workflow path: a fixed file name under the tap root.
pub open spec fn tap_workflow_path_spec(tap_root: Seq<char>) -> Seq<char> {
    path_join(tap_root, ".github/workflows/update-formula-cargodist.yml"@)
}

/// The tap formula path: `templates/<name>.rb` under the tap root.
pub open spec fn tap_formula_path_spec(tap_root: Seq<char>, name: Seq<char>) -> Seq<char> {
    path_join(tap_root, "templates/"@ + name + ".rb"@)
}

/// The bucket manifest path: `bucket/<name>.json` under the tap root.
pub open spec fn bucket_path_spec(tap_root: Seq<char>, name: Seq<char>) -> Seq<char> {
    path_join(tap_root, "bucket/"@ + name + ".json"@)
}

/// The release-workflow path, relative to the invoking directory.
pub open spec fn release_workflow_rel_path_spec(name: Seq<char>) -> Seq<char> {
    ".github/workflows/release-"@ + name + "-cargodist.yml"@
}

pub fn tap_workflow_path(tap_root: &str) -> (r: String)
    ensures
        r@ == tap_workflow_path_spec(tap_root@),
{
    String::from_str(tap_root).concat("/").concat(
        ".github/workflows/update-formula-cargodist.yml",
    )
}

pub fn tap_formula_path(tap_root: &str, name: &str) -> (r: String)
    ensures
        r@ == tap_formula_path_spec(tap_root@, name@),
{
    let r = String::from_str(tap_root).concat("/").concat("templates/").concat(name).concat(".rb");
    proof {
        assert(r@ =~= tap_formula_path_spec(tap_root@, name@));
    }
    r
}

pub fn bucket_path(tap_root: &str, name: &str) -> (r: String)
    ensures
        r@ == bucket_path_spec(tap_root@, name@),
{
    let r = String::from_str(tap_root).concat("/").concat("bucket/").concat(name).concat(".json");
    proof {
        assert(r@ =~= bucket_path_spec(tap_root@, name@));
    }
    r
}

pub fn release_workflow_rel_path(name: &str) -> (r: String)
    ensures
        r@ == release_workflow_rel_path_spec(name@),
{
    String::from_str(".github/workflows/release-").concat(name).concat("-cargodist.yml")
}

} // verus!
