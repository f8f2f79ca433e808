//! Decides whether an absolute path lies inside the volume's trash directory.
//!
//! A path is modelled as the sequence of its components: a volume prefix, a
//! root marker, then further segments. A path is in the trash exactly when
//! the component right after the root is a named segment whose text equals
//! the well-known trash directory name.
use vstd::prelude::*;

verus! {

/// One component of a platform-native path.
///
/// A named segment that is valid text carries its name; one whose bytes
/// cannot be interpreted as text is `NonText`.
#[derive(Debug)]
pub enum Component {
    /// A volume or share prefix, such as a drive letter.
    Prefix,
    /// The root directory marker that follows the prefix.
    RootDir,
    /// The special segment referring to the current directory.
    CurDir,
    /// The special segment referring to the parent directory.
    ParentDir,
    /// An ordinary named segment with its text.
    Normal(String),
    /// An ordinary named segment whose bytes are not valid text.
    NonText,
}

/// The name of the well-known trash directory at each volume's root.
pub open spec fn trash_root() -> Seq<char> {
    "$Recycle.Bin"@
}

/// An absolute path: a volume prefix, then the root directory marker.
pub open spec fn is_absolute(path: Seq<Component>) -> bool {
    &&& path.len() >= 2
    &&& path[0] is Prefix
    &&& path[1] is RootDir
}

/// A named segment whose text is the trash directory name.
pub open spec fn is_trash_segment(c: Component) -> bool {
    c matches Component::Normal(name) && name@ == trash_root()
}

/// The path lies in the trash: the component right after the root is a
/// named segment whose text is the trash directory name.
pub open spec fn is_trash_path(path: Seq<Component>) -> bool {
    path.len() >= 3 && is_trash_segment(path[2])
}

/// Compares a segment's text against the trash directory name.
fn segment_is_trash_root(segment: &String) -> (r: bool)
    ensures
        r == (segment@ == trash_root()),
{
    let root: String = String::from_str("$Recycle.Bin");
    *segment == root
}

/// Returns whether `path` lies inside the volume's trash directory.
///
/// The path must be absolute: a volume prefix followed by the root
/// directory marker. Only the component right after the root decides;
/// a bare volume root, a special segment and a non-text segment are all
/// outside the trash.
pub fn in_trash(path: &Vec<Component>) -> (r: bool)
    requires
        is_absolute(path@),
    ensures
        r == is_trash_path(path@),
{
    if path.len() < 3 {
        return false;
    }
    match &path[2] {
        Component::Normal(segment) => segment_is_trash_root(segment),
        _ => false,
    }
}

/// Law: an absolute path whose component right after the root is a named
/// segment with the trash directory name is classified as in the trash.
pub proof fn lemma_trash_child_in_trash(path: Seq<Component>)
    requires
        is_absolute(path),
        path.len() >= 3,
        path[2] matches Component::Normal(name) && name@ == trash_root(),
    ensures
        is_trash_path(path),
{
}

/// Law: a path of a volume prefix and the root alone is not in the trash.
pub proof fn lemma_bare_volume_not_in_trash(path: Seq<Component>)
    requires
        is_absolute(path),
        path.len() == 2,
    ensures
        !is_trash_path(path),
{
}

/// Law: an absolute path whose component right after the root is a named
/// segment with any other name is not in the trash.
pub proof fn lemma_other_child_not_in_trash(path: Seq<Component>)
    requires
        is_absolute(path),
        path.len() >= 3,
        path[2] matches Component::Normal(name) && name@ != trash_root(),
    ensures
        !is_trash_path(path),
{
}

/// Law: the classification is a pure function of the path. Any two results
/// that `in_trash`'s contract allows for the same path are equal, so calling
/// it twice on one path yields the same answer.
pub proof fn lemma_in_trash_idempotent(path: Seq<Component>, first: bool, second: bool)
    requires
        first == is_trash_path(path),
        second == is_trash_path(path),
    ensures
        first == second,
{
}

} // verus!
