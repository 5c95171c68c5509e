//! The paths of a pinning run: the directory of each kind, the file that a namespace is
//! bound to, and the handle that the kernel shows for it.
use std::path::Path;
use vstd::prelude::*;
use vstd::string::*;

verus! {

/// The path that `std::path::Path::join` gives for `base` and `segment`.
pub uninterp spec fn path_join(base: Seq<char>, segment: Seq<char>) -> Seq<char>;

/// `std::path::Path::join`, on paths given and returned as text: the result is what `join`
/// makes of the two arguments, which depends on nothing else.
#[verifier::external_body]
fn join(base: &str, segment: &str) -> (joined: String)
    ensures
        joined@ == path_join(base@, segment@),
{
    Path::new(base).join(segment).to_string_lossy().into_owned()
}

/// The directory under `dir` that holds the pins of the namespace called `name`.
pub open spec fn parent_dir(dir: Seq<char>, name: Seq<char>) -> Seq<char> {
    path_join(dir, name + "ns"@)
}

/// The file under `dir` that the namespace called `name` is bound to.
pub open spec fn bind_target(dir: Seq<char>, name: Seq<char>, file_name: Seq<char>) -> Seq<char> {
    path_join(parent_dir(dir, name), file_name)
}

/// The handle of the calling process's namespace called `name`.
pub open spec fn proc_handle(name: Seq<char>) -> Seq<char> {
    path_join("/proc/self/ns"@, name)
}

/// The directory under `dir` that holds the pins of the namespace called `name`:
/// `dir`, joined with the name followed by `ns`.
pub fn namespace_dir(dir: &str, name: &str) -> (path: String)
    ensures
        path@ == parent_dir(dir@, name@),
{
    let segment = String::from_str(name).concat("ns");
    join(dir, segment.as_str())
}

/// The file that the namespace called `name` is bound to: its directory under `dir`, joined
/// with `file_name`.
pub fn bind_path(dir: &str, name: &str, file_name: &str) -> (path: String)
    ensures
        path@ == bind_target(dir@, name@, file_name@),
{
    let parent = namespace_dir(dir, name);
    join(parent.as_str(), file_name)
}

/// The handle of the calling process's namespace called `name`: `/proc/self/ns`, joined
/// with the name.
pub fn proc_path(name: &str) -> (path: String)
    ensures
        path@ == proc_handle(name@),
{
    join("/proc/self/ns", name)
}

} // verus!
