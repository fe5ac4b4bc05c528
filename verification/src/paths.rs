use vstd::prelude::*;

verus! {

/// An absolute filesystem path, modelled as the sequence of its components
/// below the filesystem root.  The root itself is the empty sequence.
///
/// Values of this type are absolute by construction, which discharges the
/// absolute-path precondition of the upward directory searches.
#[derive(Debug)]
pub struct AbsPath {
    pub components: Vec<String>,
}

impl View for AbsPath {
    type V = Seq<Seq<char>>;

    open spec fn view(&self) -> Seq<Seq<char>> {
        self.components.deep_view()
    }
}

impl AbsPath {
    /// Wrap an already-split component list as a path.
    pub fn from_components(components: Vec<String>) -> (r: AbsPath)
        ensures
            r@ == components.deep_view(),
    {
        AbsPath { components }
    }

    /// Whether this path is the filesystem root.
    pub fn is_root(&self) -> (r: bool)
        ensures
            r == (self@.len() == 0),
    {
        self.components.len() == 0
    }

    /// An independent copy of this path.
    pub fn duplicate(&self) -> (r: AbsPath)
        ensures
            r@ == self@,
    {
        let components = self.components.clone();
        proof {
            assert forall|i: int| 0 <= i < components@.len() implies components@[i]
                == self.components@[i] by {
                assert(cloned::<String>(self.components@[i], components@[i]));
            }
            assert(components@ =~= self.components@);
        }
        AbsPath { components }
    }

    /// The path one directory level up; the root is its own parent.
    pub fn parent(&self) -> (r: AbsPath)
        ensures
            self@.len() > 0 ==> r@ == self@.drop_last(),
            self@.len() == 0 ==> r@ == self@,
    {
        let mut r = self.duplicate();
        if r.components.len() > 0 {
            r.components.pop();
            proof {
                assert(r@ =~= self@.drop_last());
            }
        }
        r
    }

    /// Remove the last component in place; the root is left unchanged.
    pub fn pop_component(&mut self)
        ensures
            old(self)@.len() > 0 ==> final(self)@ == old(self)@.drop_last(),
            old(self)@.len() == 0 ==> final(self)@ == old(self)@,
    {
        if self.components.len() > 0 {
            self.components.pop();
            proof {
                assert(self@ =~= old(self)@.drop_last());
            }
        }
    }

    /// The path extended with one more component.
    pub fn child(&self, name: &str) -> (r: AbsPath)
        ensures
            r@ == self@.push(name@),
    {
        let mut r = self.duplicate();
        r.components.push(name.to_owned());
        proof {
            assert(r@ =~= self@.push(name@));
        }
        r
    }

    /// Whether two paths have the same components.
    pub fn path_eq(&self, other: &AbsPath) -> (r: bool)
        ensures
            r == (self@ == other@),
    {
        if self.components.len() != other.components.len() {
            proof {
                assert(self@.len() != other@.len());
            }
            return false;
        }
        let mut i: usize = 0;
        while i < self.components.len()
            invariant
                0 <= i <= self.components.len(),
                self.components.len() == other.components.len(),
                forall|j: int| 0 <= j < i ==> self@[j] == other@[j],
            decreases self.components.len() - i,
        {
            if !self.components[i].eq(&other.components[i]) {
                proof {
                    assert(self@[i as int] != other@[i as int]);
                }
                return false;
            }
            i = i + 1;
        }
        proof {
            assert(self@ =~~= other@);
        }
        true
    }
}

/// What the relevant part of the filesystem looked like when it was probed:
/// the probed paths that named an existing regular file, and those that named
/// an existing directory.  The searches below are verified against this
/// snapshot; the caller fills it from the live filesystem.
#[derive(Debug)]
pub struct FsSnapshot {
    pub files: Vec<AbsPath>,
    pub dirs: Vec<AbsPath>,
}

impl FsSnapshot {
    /// Whether the snapshot records a regular file at `p`.
    pub open spec fn has_file(&self, p: Seq<Seq<char>>) -> bool {
        exists|i: int| 0 <= i < self.files@.len() && #[trigger] self.files@[i]@ == p
    }

    /// Whether the snapshot records a directory at `p`.
    pub open spec fn has_dir(&self, p: Seq<Seq<char>>) -> bool {
        exists|i: int| 0 <= i < self.dirs@.len() && #[trigger] self.dirs@[i]@ == p
    }

    /// A snapshot with no recorded files or directories.
    pub fn empty() -> (r: FsSnapshot)
        ensures
            forall|p: Seq<Seq<char>>| !r.has_file(p),
            forall|p: Seq<Seq<char>>| !r.has_dir(p),
    {
        FsSnapshot { files: Vec::new(), dirs: Vec::new() }
    }

    pub fn is_file(&self, p: &AbsPath) -> (r: bool)
        ensures
            r == self.has_file(p@),
    {
        let mut i: usize = 0;
        while i < self.files.len()
            invariant
                0 <= i <= self.files.len(),
                forall|j: int| 0 <= j < i ==> #[trigger] self.files@[j]@ != p@,
            decreases self.files.len() - i,
        {
            if self.files[i].path_eq(p) {
                return true;
            }
            i = i + 1;
        }
        false
    }

    pub fn is_dir(&self, p: &AbsPath) -> (r: bool)
        ensures
            r == self.has_dir(p@),
    {
        let mut i: usize = 0;
        while i < self.dirs.len()
            invariant
                0 <= i <= self.dirs.len(),
                forall|j: int| 0 <= j < i ==> #[trigger] self.dirs@[j]@ != p@,
            decreases self.dirs.len() - i,
        {
            if self.dirs[i].path_eq(p) {
                return true;
            }
            i = i + 1;
        }
        false
    }
}

} // verus!
