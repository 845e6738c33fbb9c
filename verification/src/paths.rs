//! File-system paths, held as text. Joining and taking the parent go
//! through `std::path`, whose rules differ between platforms; their results
//! are named, with the facts every platform shares stated beside.

use vstd::prelude::*;

verus! {

/// A character that `std::path` treats as a separator on some platform.
pub open spec fn is_path_sep(c: char) -> bool {
    c == '/' || c == '\\'
}

/// A single plain file name: not empty, no separator, no drive colon, and
/// neither `.` nor `..`.
pub open spec fn is_plain_name(name: Seq<char>) -> bool {
    &&& name.len() > 0
    &&& forall|i: int| 0 <= i < name.len() ==> !is_path_sep(#[trigger] name[i]) && name[i] != ':'
    &&& name != seq!['.']
    &&& name != seq!['.', '.']
}

/// A Windows verbatim path (`\\?\...`), which `push` re-normalises.
pub open spec fn is_verbatim(p: Seq<char>) -> bool {
    p.len() >= 4 && p[0] == '\\' && p[1] == '\\' && p[2] == '?' && p[3] == '\\'
}

/// `res` is `name` adjoined to `base`: directly, or after one separator.
pub open spec fn is_joined(res: Seq<char>, base: Seq<char>, name: Seq<char>) -> bool {
    ||| res == base + name
    ||| exists|c: char| is_path_sep(c) && res == base + seq![c] + name
}

/// `res` is `name` adjoined to `base` after one separator.
pub open spec fn joined_by_separator(res: Seq<char>, base: Seq<char>, name: Seq<char>) -> bool {
    exists|c: char| is_path_sep(c) && res == base + seq![c] + name
}

/// `res` names the file `name` inside some directory.
pub open spec fn ends_with_name(res: Seq<char>, name: Seq<char>) -> bool {
    name.len() <= res.len() && res.subrange(res.len() - name.len(), res.len() as int) == name
}

/// A bare drive such as `C:`, to which Windows adds no separator.
pub open spec fn is_bare_drive(p: Seq<char>) -> bool {
    p.len() == 2 && p[1] == ':'
}

/// A base after which `push` puts a separator on every platform: not
/// empty, not ending in a separator, not verbatim and not a bare drive.
pub open spec fn needs_separator(base: Seq<char>) -> bool {
    &&& base.len() > 0
    &&& !is_path_sep(base.last())
    &&& !is_verbatim(base)
    &&& !is_bare_drive(base)
}

/// What `Path::join(base, name)` gives, as text. The result is fixed by the
/// platform's path grammar, which the program is built for.
pub uninterp spec fn joined_path(base: Seq<char>, name: Seq<char>) -> Seq<char>;

/// What `Path::parent(path)` gives, as text. The result is fixed by the
/// platform's path grammar, which the program is built for.
pub uninterp spec fn parent_path(path: Seq<char>) -> Option<Seq<char>>;

/// `std::path::Path::join` with a plain file name (`PathBuf::push`): an
/// empty base gives the name itself; otherwise the name is adjoined to the
/// base, after one separator exactly where the base does not end in one (and
/// is neither verbatim nor a bare drive, whose handling the platform decides).
/// Which separator is the platform's; for a verbatim base only the trailing
/// name is stated, as the base may come back normalised.
#[verifier::external_body]
pub(crate) fn path_join(base: &str, name: &str) -> (res: String)
    requires
        is_plain_name(name@),
    ensures
        res@ == joined_path(base@, name@),
        ends_with_name(res@, name@),
        !is_verbatim(base@) ==> is_joined(res@, base@, name@),
        base@.len() == 0 ==> res@ == name@,
        needs_separator(base@) ==> joined_by_separator(res@, base@, name@),
        base@.len() > 0 && base@.last() == '/' && !is_verbatim(base@) ==> res@ == base@ + name@,
{
    std::path::Path::new(base).join(name).to_string_lossy().into_owned()
}

/// `std::path::Path::parent`: the path without its final component; `None`
/// for the empty path (and at a root or a prefix). What comes back is a
/// proper prefix of the path, and a single plain file name has the empty
/// path as parent.
#[verifier::external_body]
pub(crate) fn path_parent(path: &str) -> (res: Option<String>)
    ensures
        res is Some <==> parent_path(path@) is Some,
        res is Some ==> res.unwrap()@ == parent_path(path@).unwrap(),
        res is Some ==> res.unwrap()@.len() < path@.len() && path@.subrange(0, res.unwrap()@.len() as int)
            == res.unwrap()@,
        path@.len() == 0 ==> res is None,
        is_plain_name(path@) ==> res is Some && res.unwrap()@.len() == 0,
{
    match std::path::Path::new(path).parent() {
        Some(p) => Some(p.to_string_lossy().into_owned()),
        None => None,
    }
}

} // verus!
