//! Planning the copy of a framework into a macOS application bundle. A path
//! is a list of components; the file system work happens outside the library.
use vstd::prelude::*;

verus! {

/// Where a framework is looked for, and where it goes in the bundle.
pub struct FrameworkCopy {
    pub source: Vec<String>,
    pub destination: Vec<String>,
}

/// The directory name of `framework`: `<framework>.framework`.
pub fn framework_dir_name(framework: &str) -> (r: String)
    ensures
        r@ == framework@ + ".framework"@,
{
    String::from_str(framework).concat(".framework")
}

/// The framework directory under `src_dir` and its place under `dest_dir`.
/// The copy is made, and reported as done, only where the source exists.
pub fn copy_framework_from(dest_dir: Vec<String>, framework: &str, src_dir: Vec<String>) -> (r:
    FrameworkCopy)
    ensures
        r.source@.len() == src_dir@.len() + 1,
        r.source@.subrange(0, src_dir@.len() as int) == src_dir@,
        r.source@.last()@ == framework@ + ".framework"@,
        r.destination@.len() == dest_dir@.len() + 1,
        r.destination@.subrange(0, dest_dir@.len() as int) == dest_dir@,
        r.destination@.last()@ == framework@ + ".framework"@,
{
    let mut source = src_dir;
    let mut destination = dest_dir;
    source.push(framework_dir_name(framework));
    destination.push(framework_dir_name(framework));
    proof {
        assert(source@.subrange(0, src_dir@.len() as int) =~= src_dir@);
        assert(destination@.subrange(0, dest_dir@.len() as int) =~= dest_dir@);
    }
    FrameworkCopy { source, destination }
}

} // verus!
