use crate::paths::{AbsPath, FsSnapshot};
use vstd::prelude::*;

verus! {

/// Package dependency file types.
#[derive(Debug, Copy, Clone, PartialEq, Eq, Structural)]
pub enum DependencyFileType {
    PackageLockJson,
    PackageJson,
}

impl DependencyFileType {
    /// The file name associated with the dependency file type.
    pub open spec fn spec_file_name(&self) -> Seq<char> {
        match self {
            DependencyFileType::PackageJson => "package.json"@,
            DependencyFileType::PackageLockJson => "package-lock.json"@,
        }
    }

    /// Return file name associated with dependency type.
    pub fn file_name(&self) -> (r: String)
        ensures
            r@ == self.spec_file_name(),
    {
        match self {
            DependencyFileType::PackageJson => "package.json".to_owned(),
            DependencyFileType::PackageLockJson => "package-lock.json".to_owned(),
        }
    }
}

/// Package dependency file type and file path.
#[derive(Debug)]
pub struct DependencyFile {
    pub file_type: DependencyFileType,
    pub path: AbsPath,
}

impl View for DependencyFile {
    type V = (DependencyFileType, Seq<Seq<char>>);

    open spec fn view(&self) -> (DependencyFileType, Seq<Seq<char>>) {
        (self.file_type, self.path@)
    }
}

impl DeepView for DependencyFile {
    type V = (DependencyFileType, Seq<Seq<char>>);

    open spec fn deep_view(&self) -> (DependencyFileType, Seq<Seq<char>>) {
        self.view()
    }
}

/// The directory `k` levels above `d`.
pub open spec fn dir_at(d: Seq<Seq<char>>, k: int) -> Seq<Seq<char>>
    recommends
        0 <= k <= d.len(),
{
    d.take(d.len() - k)
}

/// Whether `dir` holds at least one recognized dependency file.
pub open spec fn manifest_hit(fs: &FsSnapshot, dir: Seq<Seq<char>>) -> bool {
    fs.has_file(dir.push("package-lock.json"@)) || fs.has_file(dir.push("package.json"@))
}

/// The dependency files found in `dir`, in the fixed recognition order.
pub open spec fn found_files(fs: &FsSnapshot, dir: Seq<Seq<char>>) -> Seq<
    (DependencyFileType, Seq<Seq<char>>),
> {
    (if fs.has_file(dir.push("package-lock.json"@)) {
        seq![(DependencyFileType::PackageLockJson, dir.push("package-lock.json"@))]
    } else {
        Seq::empty()
    }) + (if fs.has_file(dir.push("package.json"@)) {
        seq![(DependencyFileType::PackageJson, dir.push("package.json"@))]
    } else {
        Seq::empty()
    })
}

/// The first level at or above `k` whose directory holds a recognized
/// dependency file, searching from `d` towards the filesystem root.
pub open spec fn first_manifest_level(fs: &FsSnapshot, d: Seq<Seq<char>>, k: int) -> Option<int>
    decreases d.len() + 1 - k,
{
    if k < 0 || k > d.len() {
        Option::None
    } else if manifest_hit(fs, dir_at(d, k)) {
        Option::Some(k)
    } else {
        first_manifest_level(fs, d, k + 1)
    }
}

/// The search reports absence exactly when no level from `k` up to the root
/// holds a recognized dependency file.
pub proof fn lemma_locator_absent(fs: &FsSnapshot, d: Seq<Seq<char>>, k: int)
    requires
        0 <= k,
    ensures
        first_manifest_level(fs, d, k) is None <==> forall|j: int|
            k <= j <= d.len() ==> !manifest_hit(fs, #[trigger] dir_at(d, j)),
    decreases d.len() + 1 - k,
{
    if k <= d.len() {
        lemma_locator_absent(fs, d, k + 1);
    }
}

/// The level the search reports holds a recognized file, and no level
/// nearer the starting directory does: the first hit wins, whatever deeper
/// ancestors hold.
pub proof fn lemma_locator_first(fs: &FsSnapshot, d: Seq<Seq<char>>, k: int, r: int)
    requires
        0 <= k,
        first_manifest_level(fs, d, k) == Option::Some(r),
    ensures
        k <= r <= d.len(),
        manifest_hit(fs, dir_at(d, r)),
        forall|j: int| k <= j < r ==> !manifest_hit(fs, #[trigger] dir_at(d, j)),
    decreases d.len() + 1 - k,
{
    if k <= d.len() && !manifest_hit(fs, dir_at(d, k)) {
        lemma_locator_first(fs, d, k + 1, r);
    }
}

proof fn lemma_locator_hits_from(fs: &FsSnapshot, d: Seq<Seq<char>>, j: int, k: int)
    requires
        0 <= j <= k <= d.len(),
        manifest_hit(fs, dir_at(d, k)),
        forall|i: int| j <= i < k ==> !manifest_hit(fs, #[trigger] dir_at(d, i)),
    ensures
        first_manifest_level(fs, d, j) == Option::Some(k),
    decreases k - j,
{
    if j < k {
        lemma_locator_hits_from(fs, d, j + 1, k);
    }
}

/// Where a recognized dependency file exists at level `k` above the
/// starting directory and at no nearer level, the search reports exactly
/// level `k`, whatever deeper ancestors hold.
pub proof fn lemma_locator_hits(fs: &FsSnapshot, d: Seq<Seq<char>>, k: int)
    requires
        0 <= k <= d.len(),
        manifest_hit(fs, dir_at(d, k)),
        forall|j: int| 0 <= j < k ==> !manifest_hit(fs, #[trigger] dir_at(d, j)),
    ensures
        first_manifest_level(fs, d, 0) == Option::Some(k),
{
    lemma_locator_hits_from(fs, d, 0, k);
}

/// Returns a vector of identified package dependency definition files.
///
/// Walks up the directory tree until the first positive result is found:
/// the returned files are exactly those recognized at the nearest level
/// that holds at least one, and deeper ancestors are not considered.
pub fn identify_dependency_files(working_directory: &AbsPath, fs: &FsSnapshot) -> (r: Option<
    Vec<DependencyFile>,
>)
    ensures
        match r {
            Option::None => first_manifest_level(fs, working_directory@, 0) is None,
            Option::Some(v) => first_manifest_level(fs, working_directory@, 0) matches Option::Some(
                k,
            ) && v.deep_view() == found_files(fs, dir_at(working_directory@, k)) && v@.len() >= 1,
        },
{
    let ghost d = working_directory@;
    let mut current = working_directory.duplicate();
    let ghost mut k: int = 0;
    loop
        invariant
            d == working_directory@,
            0 <= k <= d.len(),
            current@ == dir_at(d, k),
            first_manifest_level(fs, d, 0) == first_manifest_level(fs, d, k),
        decreases d.len() - k,
    {
        let mut found = false;
        let mut files: Vec<DependencyFile> = Vec::new();
        let lock_name = DependencyFileType::PackageLockJson.file_name();
        let lock_path = current.child(lock_name.as_str());
        if fs.is_file(&lock_path) {
            found = true;
            files.push(
                DependencyFile { file_type: DependencyFileType::PackageLockJson, path: lock_path },
            );
        }
        let json_name = DependencyFileType::PackageJson.file_name();
        let json_path = current.child(json_name.as_str());
        if fs.is_file(&json_path) {
            found = true;
            files.push(
                DependencyFile { file_type: DependencyFileType::PackageJson, path: json_path },
            );
        }
        if found {
            proof {
                assert(manifest_hit(fs, dir_at(d, k)));
                assert(first_manifest_level(fs, d, k) == Option::Some(k));
                assert(files.deep_view() =~~= found_files(fs, dir_at(d, k)));
            }
            return Some(files);
        }
        proof {
            assert(!manifest_hit(fs, dir_at(d, k)));
        }
        if current.is_root() {
            proof {
                assert(dir_at(d, k).len() == 0);
                assert(k == d.len());
                assert(first_manifest_level(fs, d, k + 1) is None);
                assert(first_manifest_level(fs, d, k) is None);
            }
            return None;
        }
        current.pop_component();
        proof {
            assert(dir_at(d, k).drop_last() =~~= dir_at(d, k + 1));
            k = k + 1;
        }
    }
}

/// Paths to the local `node_modules` directories found for a project.
pub struct NodeModulesDirectories {
    pub local: Option<AbsPath>,
}

/// The fixed name of the installed-dependencies directory.
pub fn node_modules_dir_name() -> (r: String)
    ensures
        r@ == "node_modules"@,
{
    "node_modules".to_owned()
}

/// Whether `dir` holds an installed-dependencies directory.
pub open spec fn node_modules_hit(fs: &FsSnapshot, dir: Seq<Seq<char>>) -> bool {
    fs.has_dir(dir.push("node_modules"@))
}

/// The first level at or above `k` whose directory holds an
/// installed-dependencies directory.
pub open spec fn first_node_modules_level(fs: &FsSnapshot, d: Seq<Seq<char>>, k: int) -> Option<
    int,
>
    decreases d.len() + 1 - k,
{
    if k < 0 || k > d.len() {
        Option::None
    } else if node_modules_hit(fs, dir_at(d, k)) {
        Option::Some(k)
    } else {
        first_node_modules_level(fs, d, k + 1)
    }
}

/// What a correct answer to the `node_modules` search looks like.
pub open spec fn node_modules_result_ok(fs: &FsSnapshot, d: Seq<Seq<char>>, r: Option<
    AbsPath,
>) -> bool {
    match r {
        Option::None => first_node_modules_level(fs, d, 0) is None,
        Option::Some(p) => first_node_modules_level(fs, d, 0) matches Option::Some(k) && p@
            == dir_at(d, k).push("node_modules"@),
    }
}

/// Returns a path to the local node_modules directory: the nearest one on
/// the way from the working directory up to the filesystem root.
pub fn local_node_modules_directory(working_directory: &AbsPath, fs: &FsSnapshot) -> (r: Option<
    AbsPath,
>)
    ensures
        node_modules_result_ok(fs, working_directory@, r),
{
    let ghost d = working_directory@;
    let mut current = working_directory.duplicate();
    let ghost mut k: int = 0;
    loop
        invariant
            d == working_directory@,
            0 <= k <= d.len(),
            current@ == dir_at(d, k),
            first_node_modules_level(fs, d, 0) == first_node_modules_level(fs, d, k),
        decreases d.len() - k,
    {
        let target = current.child("node_modules");
        if fs.is_dir(&target) {
            proof {
                assert(node_modules_hit(fs, dir_at(d, k)));
                assert(first_node_modules_level(fs, d, k) == Option::Some(k));
            }
            return Some(target);
        }
        proof {
            assert(!node_modules_hit(fs, dir_at(d, k)));
        }
        if current.is_root() {
            proof {
                assert(dir_at(d, k).len() == 0);
                assert(k == d.len());
                assert(first_node_modules_level(fs, d, k + 1) is None);
                assert(first_node_modules_level(fs, d, k) is None);
            }
            return None;
        }
        current.pop_component();
        proof {
            assert(dir_at(d, k).drop_last() =~~= dir_at(d, k + 1));
            k = k + 1;
        }
    }
}

/// Returns the paths to the local node_modules directories.  Only a local
/// tree is searched; a global, system-wide install tree is out of scope.
pub fn identify_node_modules_directories(working_directory: &AbsPath, fs: &FsSnapshot) -> (r:
    NodeModulesDirectories)
    ensures
        node_modules_result_ok(fs, working_directory@, r.local),
{
    NodeModulesDirectories { local: local_node_modules_directory(working_directory, fs) }
}

/// The first step of the fallback protocol for resolving a project's
/// install tree.
pub enum InstallTreeResolution {
    /// A tree was found; no install is needed.
    UseTree(AbsPath),
    /// No tree was found: the caller runs the package manager's production
    /// install in the project root, then searches exactly once more.  A
    /// second miss means the project has no resolvable dependencies, which
    /// is valid, not an error.
    InstallThenRetry,
}

/// Decide whether an existing project's install tree can be used as found
/// or must first be provisioned.
pub fn plan_install_tree(working_directory: &AbsPath, fs: &FsSnapshot) -> (r:
    InstallTreeResolution)
    ensures
        match r {
            InstallTreeResolution::UseTree(p) => node_modules_result_ok(
                fs,
                working_directory@,
                Option::Some(p),
            ),
            InstallTreeResolution::InstallThenRetry => first_node_modules_level(
                fs,
                working_directory@,
                0,
            ) is None,
        },
{
    match local_node_modules_directory(working_directory, fs) {
        Option::Some(p) => InstallTreeResolution::UseTree(p),
        Option::None => InstallTreeResolution::InstallThenRetry,
    }
}

} // verus!
