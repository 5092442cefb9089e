//! Paths of files.

use vstd::prelude::*;
use vstd::string::*;

verus! {

/// `std::path::PathBuf`, the path of a file.
#[verifier::external_type_specification]
#[verifier::external_body]
pub struct ExPathBuf(std::path::PathBuf);

/// The steps of a path: its `components`, each as text.
pub uninterp spec fn path_steps(path: std::path::PathBuf) -> Seq<Seq<char>>;

/// Whether a text is the name of one file or directory: it holds no separator
/// and no drive, and is neither `.` nor `..`.
pub open spec fn plain_name(name: Seq<char>) -> bool {
    &&& name.len() > 0
    &&& name != "."@
    &&& name != ".."@
    &&& forall|i: int|
        0 <= i < name.len() ==> #[trigger] name[i] != '/' && name[i] != '\\' && name[i] != ':'
}

/// The home directory of the user, from `dirs::home_dir`. Nothing is said of
/// it: it depends on the environment.
#[verifier::external_body]
pub(crate) fn home_dir() -> (r: Option<std::path::PathBuf>) {
    dirs::home_dir()
}

/// The path of one step, from `PathBuf::from`: a plain name, or `.` for the
/// directory in which the program runs.
#[verifier::external_body]
pub(crate) fn single_step(name: &str) -> (r: std::path::PathBuf)
    requires
        plain_name(name@) || name@ == "."@,
    ensures
        path_steps(r) == seq![name@],
{
    std::path::PathBuf::from(name)
}

/// Whether the first of the steps of a path begins with no backslash, as that of
/// a Windows path with a verbatim prefix (`\\\\?\\`) does.
pub open spec fn no_verbatim_prefix(steps: Seq<Seq<char>>) -> bool {
    steps.len() == 0 || steps[0].len() == 0 || steps[0][0] != '\\'
}

/// The path of `name` in a directory, from `Path::join`: a plain name is one
/// more step, and the last. What becomes of the other steps is left unsaid for a
/// path with a verbatim prefix, which the standard library normalizes.
#[verifier::external_body]
pub(crate) fn join_path(dir: &std::path::PathBuf, name: &str) -> (r: std::path::PathBuf)
    requires
        plain_name(name@),
    ensures
        no_verbatim_prefix(path_steps(*dir)) ==> path_steps(r) == path_steps(*dir).push(name@),
        path_steps(r).len() > 0 && path_steps(r).last() == name@,
{
    dir.join(name)
}

} // verus!
