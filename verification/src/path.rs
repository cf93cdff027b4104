//! The crate's model of filesystem locations.
//!
//! Every worktree of a project is a direct sibling of the main worktree, so
//! all location arithmetic reduces to taking a known worktree's parent and
//! joining a name onto it.  A location is held as a flag for absoluteness
//! plus the list of path components, which makes that arithmetic exact.

use vstd::prelude::*;
use crate::Error;
use crate::text::string_eq;

verus! {

/// The mathematical value of a [`WtPath`]: a root flag and the components.
pub ghost struct PathModel {
    pub absolute: bool,
    pub parts: Seq<Seq<char>>,
}

/// A filesystem location, as the list of its components.
///
/// `absolute` says whether the location hangs off the filesystem root.  The
/// components are ordinary names: a component never holds a separator, and
/// never is empty, `.` or `..` in well-formed values (see [`valid_name`]).
#[derive(Debug, Clone, PartialEq, Eq)]
pub struct WtPath {
    pub absolute: bool,
    pub parts: Vec<String>,
}

/// A usable worktree or component name: nonempty, no separator, and not one
/// of the two relative-reference names.
pub open spec fn valid_name(s: Seq<char>) -> bool {
    &&& s.len() > 0
    &&& !s.contains('/')
    &&& s != "."@
    &&& s != ".."@
}

impl View for WtPath {
    type V = PathModel;

    open spec fn view(&self) -> PathModel {
        PathModel { absolute: self.absolute, parts: self.parts.deep_view() }
    }
}

/// The parent of `p`: `p` without its last component.
pub open spec fn spec_parent(p: PathModel) -> PathModel {
    PathModel { absolute: p.absolute, parts: p.parts.drop_last() }
}

/// `p` with `name` joined on as one more component.
pub open spec fn spec_join(p: PathModel, name: Seq<char>) -> PathModel {
    PathModel { absolute: p.absolute, parts: p.parts.push(name) }
}

/// The location of the sibling worktree called `name`: the parent of the
/// known worktree, joined with `name`.
pub open spec fn spec_sibling(p: PathModel, name: Seq<char>) -> PathModel {
    spec_join(spec_parent(p), name)
}

impl WtPath {
    /// Builds a location from its flag and components.
    pub fn new(absolute: bool, parts: Vec<String>) -> (r: WtPath)
        ensures
            r@ == (PathModel { absolute, parts: parts.deep_view() }),
    {
        WtPath { absolute, parts }
    }

    /// A copy of this location with the same components.
    pub fn duplicate(&self) -> (r: WtPath)
        ensures
            r@ == self@,
    {
        let mut parts: Vec<String> = Vec::new();
        let mut i: usize = 0;
        while i < self.parts.len()
            invariant
                i <= self.parts.len(),
                self.parts.deep_view().len() == self.parts.len(),
                parts.deep_view() =~= self.parts.deep_view().subrange(0, i as int),
            decreases self.parts.len() - i,
        {
            let ghost prev = parts.deep_view();
            parts.push(self.parts[i].clone());
            proof {
                assert(parts.deep_view() =~= prev.push(self.parts.deep_view()[i as int]));
            }
            i = i + 1;
        }
        proof {
            assert(parts.deep_view() =~= self.parts.deep_view());
        }
        WtPath { absolute: self.absolute, parts }
    }

    /// The parent directory, or `None` when the path has no components left
    /// (a filesystem root, which has no parent).
    pub fn parent(&self) -> (r: Option<WtPath>)
        ensures
            self@.parts.len() == 0 <==> r is None,
            r matches Some(q) ==> q@ == spec_parent(self@),
    {
        if self.parts.len() == 0 {
            None
        } else {
            let mut p = self.duplicate();
            let ghost before = p.parts.deep_view();
            let _last = p.parts.pop();
            proof {
                assert(p.parts.deep_view() =~= before.drop_last());
            }
            Some(p)
        }
    }

    /// This location with `name` joined on as one more component.
    pub fn join(&self, name: &String) -> (r: WtPath)
        ensures
            r@ == spec_join(self@, name@),
    {
        let mut p = self.duplicate();
        let ghost before = p.parts.deep_view();
        p.parts.push(name.clone());
        proof {
            assert(p.parts.deep_view() =~= before.push(name@));
        }
        p
    }

    /// This location extended by every component of `suffix`, in order.
    pub fn join_all(&self, suffix: &Vec<String>) -> (r: WtPath)
        ensures
            r@.absolute == self@.absolute,
            r@.parts == self@.parts + suffix.deep_view(),
    {
        let mut p = self.duplicate();
        let mut i: usize = 0;
        while i < suffix.len()
            invariant
                i <= suffix.len(),
                suffix.deep_view().len() == suffix.len(),
                p@.absolute == self@.absolute,
                p@.parts =~= self@.parts + suffix.deep_view().subrange(0, i as int),
            decreases suffix.len() - i,
        {
            let ghost before = p.parts.deep_view();
            p.parts.push(suffix[i].clone());
            proof {
                assert(p.parts.deep_view() =~= before.push(suffix.deep_view()[i as int]));
            }
            i = i + 1;
        }
        proof {
            assert(suffix.deep_view().subrange(0, suffix.len() as int) =~= suffix.deep_view());
            assert(p@.parts =~= self@.parts + suffix.deep_view());
        }
        p
    }

    /// The last component, or `None` for a path with no components.
    pub fn file_name(&self) -> (r: Option<&String>)
        ensures
            self@.parts.len() == 0 <==> r is None,
            r matches Some(n) ==> n@ == self@.parts.last(),
    {
        if self.parts.len() == 0 {
            None
        } else {
            Some(&self.parts[self.parts.len() - 1])
        }
    }

    /// The components of this location below `base`: `Some(suffix)` exactly
    /// when `base` extended by `suffix` is this location, `None` when this
    /// location is not under `base`.
    pub fn strip_prefix(&self, base: &WtPath) -> (r: Option<Vec<String>>)
        ensures
            r matches Some(suffix) ==> self@ == (PathModel {
                absolute: base@.absolute,
                parts: base@.parts + suffix.deep_view(),
            }),
            r is None ==> !(self@.absolute == base@.absolute && base@.parts.len()
                <= self@.parts.len() && base@.parts == self@.parts.subrange(
                0,
                base@.parts.len() as int,
            )),
    {
        if self.absolute != base.absolute || base.parts.len() > self.parts.len() {
            return None;
        }
        let n = base.parts.len();
        let mut i: usize = 0;
        while i < n
            invariant
                i <= n,
                n == base.parts.len() <= self.parts.len(),
                base.parts.deep_view().len() == base.parts.len(),
                self.parts.deep_view().len() == self.parts.len(),
                forall|j: int|
                    0 <= j < i ==> base.parts.deep_view()[j] == #[trigger] self.parts.deep_view()[j],
            decreases n - i,
        {
            if !string_eq(&base.parts[i], &self.parts[i]) {
                assert(base.parts.deep_view()[i as int] != self.parts.deep_view()[i as int]);
                assert(base@.parts != self@.parts.subrange(0, base@.parts.len() as int));
                return None;
            }
            i = i + 1;
        }
        let mut suffix: Vec<String> = Vec::new();
        let mut j: usize = n;
        while j < self.parts.len()
            invariant
                n <= j <= self.parts.len(),
                self.parts.deep_view().len() == self.parts.len(),
                suffix.deep_view() =~= self.parts.deep_view().subrange(n as int, j as int),
            decreases self.parts.len() - j,
        {
            let ghost prev = suffix.deep_view();
            suffix.push(self.parts[j].clone());
            proof {
                assert(suffix.deep_view() =~= prev.push(self.parts.deep_view()[j as int]));
            }
            j = j + 1;
        }
        proof {
            assert(self@.parts =~= base@.parts + suffix.deep_view());
        }
        Some(suffix)
    }
}

/// The location for a sibling worktree called `name`, derived from any known
/// worktree of the project: the known worktree's parent joined with `name`.
/// Fails exactly when the known worktree's path has no parent.
pub fn sibling_worktree_path(starting_wt: &WtPath, name: &String) -> (r: Result<WtPath, Error>)
    ensures
        r matches Ok(p) ==> starting_wt@.parts.len() > 0 && p@ == spec_sibling(starting_wt@, name@),
        r matches Err(e) ==> starting_wt@.parts.len() == 0 && e == Error::NoParent,
{
    match starting_wt.parent() {
        None => Err(Error::NoParent),
        Some(parent) => Ok(parent.join(name)),
    }
}

/// The location for a new worktree called `name`, a sibling of the main
/// worktree.  Fails exactly when the main worktree's path has no parent.
pub fn new_worktree_path(main_wt: &WtPath, name: &String) -> (r: Result<WtPath, Error>)
    ensures
        r matches Ok(p) ==> main_wt@.parts.len() > 0 && p@ == spec_sibling(main_wt@, name@),
        r matches Err(e) ==> main_wt@.parts.len() == 0 && e == Error::NoParent,
{
    sibling_worktree_path(main_wt, name)
}

/// For every main worktree path `p` and valid worktree name `n`, the sibling
/// location is exactly `parent(p)` joined with `n`.
pub proof fn lemma_sibling_is_parent_joined(p: PathModel, n: Seq<char>)
    requires
        valid_name(n),
    ensures
        spec_sibling(p, n) == spec_join(spec_parent(p), n),
        spec_sibling(p, n).absolute == p.absolute,
        p.parts.len() > 0 ==> spec_sibling(p, n).parts == p.parts.drop_last().push(n),
{
}

/// The textual form of a location: components separated by `/`, with a
/// leading `/` when the location is absolute.
pub open spec fn spec_rendered(p: PathModel) -> Seq<char> {
    if p.absolute {
        seq!['/'] + crate::text::joined(p.parts, seq!['/'])
    } else {
        crate::text::joined(p.parts, seq!['/'])
    }
}

/// Renders a location for messages and logging.
pub fn traceable_path(p: &WtPath) -> (r: String)
    ensures
        r@ == spec_rendered(p@),
{
    let joined = crate::text::join_with(&p.parts, "/");
    proof {
        reveal_strlit("/");
        assert("/"@ =~= seq!['/']);
    }
    if p.absolute {
        let mut out = String::from_str("/");
        out.append(joined.as_str());
        proof {
            assert(out@ =~= seq!['/'] + joined@);
        }
        out
    } else {
        joined
    }
}

} // verus!
