use crate::error::QueryError;
use crate::npm::{dir_at, first_manifest_level, identify_dependency_files};
use crate::package::{doc_view, DependencyMap, Package};
use crate::paths::{AbsPath, FsSnapshot};
use crate::tree::{
    extract_dependencies, extraction, get_metadata, get_package, metadata_outcome, valid_identity,
    FileRead, MetadataKind, ModuleEntry,
};
use crate::JsExtension;
use vstd::prelude::*;

verus! {

/// A query's locks: the primary package, its own lock document, and the
/// lock document of each dependency.
pub struct PackageLocks {
    pub primary_package: Option<Package>,
    pub primary_package_lock: Option<String>,
    pub dependencies_locks: DependencyMap,
}

/// A query's configs, shaped like `PackageLocks`.
pub struct PackageConfigs {
    pub primary_package: Option<Package>,
    pub primary_package_config: Option<String>,
    pub dependencies_configs: DependencyMap,
}

/// The answer to a project query for locks.
pub struct ProjectDependenciesLocks {
    pub project_path: Option<AbsPath>,
    pub package_locks: PackageLocks,
}

/// The answer to a project query for configs.
pub struct FsDefinedDependenciesConfigs {
    pub project_path: Option<AbsPath>,
    pub package_configs: PackageConfigs,
}

/// The answer to a registry-package query for locks.
pub struct PackageDependenciesLocks {
    pub registry_host_name: String,
    pub package_locks: PackageLocks,
}

/// The answer to a registry-package query for configs.
pub struct PackageDependenciesConfigs {
    pub registry_host_name: String,
    pub package_configs: PackageConfigs,
}

/// What the caller read from disk for a project query.
pub struct ProjectInputs {
    /// The contents of the winning manifest file.
    pub primary_manifest: FileRead,
    /// The metadata file beside it, at the project root.
    pub primary_metadata: FileRead,
    /// The entries of the resolved install tree; `None` when no tree was
    /// found even after the caller ran the fallback install.
    pub modules: Option<Vec<ModuleEntry>>,
}

/// What the caller read from the provisioned tree for a package query.
pub struct PackageInputs {
    /// The contents of the provisioned primary package's manifest file.
    pub primary_manifest: FileRead,
    /// The metadata file in the primary package's directory.
    pub primary_metadata: FileRead,
    /// The entries of the provisioned install tree.
    pub modules: Vec<ModuleEntry>,
}

/// What reading the primary package's manifest yields: its identity, or
/// the call-level error.
pub open spec fn primary_package_outcome(read: FileRead) -> Result<
    (Seq<char>, Seq<char>),
    QueryError,
> {
    match read {
        FileRead::Contents(t) => match valid_identity(t@) {
            Option::Some(id) => Result::Ok(id),
            Option::None => Result::Err(QueryError::ManifestParse),
        },
        _ => Result::Err(QueryError::ManifestRead),
    }
}

/// The entries of an optionally-found install tree.
pub open spec fn modules_view(m: Option<Vec<ModuleEntry>>) -> Option<Seq<ModuleEntry>> {
    match m {
        Option::Some(v) => Option::Some(v@),
        Option::None => Option::None,
    }
}

/// The dependency map a project query reports: the extracted tree with the
/// primary package's own entry removed; an absent tree yields an empty map.
pub open spec fn project_dependencies(
    modules: Option<Seq<ModuleEntry>>,
    id: (Seq<char>, Seq<char>),
) -> Map<(Seq<char>, Seq<char>), Option<Seq<char>>> {
    match modules {
        Option::Some(es) => extraction(es).remove(id),
        Option::None => Map::empty(),
    }
}

/// The primary package's identity, or the call-level error it raises.
fn primary_package(read: &FileRead) -> (r: Result<Package, QueryError>)
    ensures
        match r {
            Result::Ok(p) => primary_package_outcome(*read) == Result::<
                (Seq<char>, Seq<char>),
                QueryError,
            >::Ok(p@),
            Result::Err(e) => primary_package_outcome(*read) == Result::<
                (Seq<char>, Seq<char>),
                QueryError,
            >::Err(e),
        },
{
    match read {
        FileRead::Contents(t) => get_package(t.as_str()),
        FileRead::Absent => Err(QueryError::ManifestRead),
        FileRead::Unreadable => Err(QueryError::ManifestRead),
    }
}

/// The found-project part of a project query's answer.
pub struct ProjectCore {
    pub project_path: AbsPath,
    pub primary_package: Package,
    pub primary_metadata: Option<String>,
    pub dependencies: DependencyMap,
}

/// What a correct answer to a project query looks like, over the pieces a
/// response exposes.  A working directory with no recognized manifest
/// anywhere up to the root answers `Ok(None)`: absence of a project is a
/// valid outcome, never an error.
pub open spec fn project_query_ok(
    kind: MetadataKind,
    fs: &FsSnapshot,
    d: Seq<Seq<char>>,
    inputs: ProjectInputs,
    r: Result<Option<ProjectCore>, QueryError>,
) -> bool {
    match first_manifest_level(fs, d, 0) {
        Option::None => r matches Result::Ok(c) && c is None,
        Option::Some(k) => match primary_package_outcome(inputs.primary_manifest) {
            Result::Err(e) => r == Result::<Option<ProjectCore>, QueryError>::Err(e),
            Result::Ok(id) => match metadata_outcome(kind, inputs.primary_metadata) {
                Result::Err(e) => r == Result::<Option<ProjectCore>, QueryError>::Err(e),
                Result::Ok(doc) => {
                    &&& r matches Result::Ok(c)
                    &&& c matches Option::Some(core)
                    &&& core.project_path@ == dir_at(d, k)
                    &&& core.primary_package@ == id
                    &&& doc_view(core.primary_metadata) == doc
                    &&& core.dependencies@ == project_dependencies(
                        modules_view(inputs.modules),
                        id,
                    )
                    &&& !core.dependencies@.contains_key(id)
                },
            },
        },
    }
}

/// Answer a project query of one metadata kind from the located manifests
/// and the caller's reads.  The primary package never appears among its own
/// dependencies.
pub fn project_query(
    kind: MetadataKind,
    working_directory: &AbsPath,
    fs: &FsSnapshot,
    inputs: &ProjectInputs,
) -> (r: Result<Option<ProjectCore>, QueryError>)
    ensures
        project_query_ok(kind, fs, working_directory@, *inputs, r),
{
    let files = match identify_dependency_files(working_directory, fs) {
        Option::Some(f) => f,
        Option::None => {
            return Ok(None);
        },
    };
    let ghost k = first_manifest_level(fs, working_directory@, 0)->Some_0;
    let project_path = files[0].path.parent();
    proof {
        assert(files.deep_view()[0] == files@[0].deep_view());
        assert(files@[0].path@.drop_last() =~~= dir_at(working_directory@, k));
    }
    let primary = match primary_package(&inputs.primary_manifest) {
        Ok(p) => p,
        Err(e) => {
            return Err(e);
        },
    };
    let doc = match get_metadata(kind, &inputs.primary_metadata) {
        Ok(d) => d,
        Err(e) => {
            return Err(e);
        },
    };
    let mut dependencies = match &inputs.modules {
        Option::Some(es) => extract_dependencies(es),
        Option::None => DependencyMap::new(),
    };
    dependencies.remove(&primary);
    proof {
        if inputs.modules is None {
            assert(Map::<(Seq<char>, Seq<char>), Option<Seq<char>>>::empty().remove(primary@)
                =~= Map::<(Seq<char>, Seq<char>), Option<Seq<char>>>::empty());
        }
    }
    Ok(
        Some(
            ProjectCore {
                project_path,
                primary_package: primary,
                primary_metadata: doc,
                dependencies,
            },
        ),
    )
}

/// Whether a project-locks answer is the zero-value result.
pub open spec fn empty_locks_result(r: ProjectDependenciesLocks) -> bool {
    &&& r.project_path is None
    &&& r.package_locks.primary_package is None
    &&& r.package_locks.primary_package_lock is None
    &&& r.package_locks.dependencies_locks@ == Map::<
        (Seq<char>, Seq<char>),
        Option<Seq<char>>,
    >::empty()
}

/// Whether a project-configs answer is the zero-value result.
pub open spec fn empty_configs_result(r: FsDefinedDependenciesConfigs) -> bool {
    &&& r.project_path is None
    &&& r.package_configs.primary_package is None
    &&& r.package_configs.primary_package_config is None
    &&& r.package_configs.dependencies_configs@ == Map::<
        (Seq<char>, Seq<char>),
        Option<Seq<char>>,
    >::empty()
}

/// What a correct project-locks answer looks like.
pub open spec fn project_locks_ok(
    fs: &FsSnapshot,
    d: Seq<Seq<char>>,
    inputs: ProjectInputs,
    r: Result<ProjectDependenciesLocks, QueryError>,
) -> bool {
    match first_manifest_level(fs, d, 0) {
        Option::None => r matches Result::Ok(res) && empty_locks_result(res),
        Option::Some(k) => match primary_package_outcome(inputs.primary_manifest) {
            Result::Err(e) => r == Result::<ProjectDependenciesLocks, QueryError>::Err(e),
            Result::Ok(id) => match metadata_outcome(MetadataKind::Lock, inputs.primary_metadata) {
                Result::Err(e) => r == Result::<ProjectDependenciesLocks, QueryError>::Err(e),
                Result::Ok(doc) => {
                    &&& r matches Result::Ok(res)
                    &&& res.project_path matches Option::Some(p)
                    &&& p@ == dir_at(d, k)
                    &&& res.package_locks.primary_package matches Option::Some(pp)
                    &&& pp@ == id
                    &&& doc_view(res.package_locks.primary_package_lock) == doc
                    &&& res.package_locks.dependencies_locks@ == project_dependencies(
                        modules_view(inputs.modules),
                        id,
                    )
                    &&& !res.package_locks.dependencies_locks@.contains_key(id)
                },
            },
        },
    }
}

/// Answer "what are the locks of this project's dependencies".  A working
/// directory with no recognized project yields the zero-value result; the
/// primary package never appears in its own dependency map.
pub fn project_dependencies_locks(
    working_directory: &AbsPath,
    fs: &FsSnapshot,
    inputs: &ProjectInputs,
) -> (r: Result<ProjectDependenciesLocks, QueryError>)
    ensures
        project_locks_ok(fs, working_directory@, *inputs, r),
{
    match project_query(MetadataKind::Lock, working_directory, fs, inputs) {
        Err(e) => Err(e),
        Ok(None) => Ok(
            ProjectDependenciesLocks {
                project_path: None,
                package_locks: PackageLocks {
                    primary_package: None,
                    primary_package_lock: None,
                    dependencies_locks: DependencyMap::new(),
                },
            },
        ),
        Ok(Some(core)) => Ok(
            ProjectDependenciesLocks {
                project_path: Some(core.project_path),
                package_locks: PackageLocks {
                    primary_package: Some(core.primary_package),
                    primary_package_lock: core.primary_metadata,
                    dependencies_locks: core.dependencies,
                },
            },
        ),
    }
}

/// What a correct project-configs answer looks like.
pub open spec fn fs_configs_ok(
    fs: &FsSnapshot,
    d: Seq<Seq<char>>,
    inputs: ProjectInputs,
    r: Result<FsDefinedDependenciesConfigs, QueryError>,
) -> bool {
    match first_manifest_level(fs, d, 0) {
        Option::None => r matches Result::Ok(res) && empty_configs_result(res),
        Option::Some(k) => match primary_package_outcome(inputs.primary_manifest) {
            Result::Err(e) => r == Result::<FsDefinedDependenciesConfigs, QueryError>::Err(e),
            Result::Ok(id) => match metadata_outcome(
                MetadataKind::Config,
                inputs.primary_metadata,
            ) {
                Result::Err(e) => r == Result::<FsDefinedDependenciesConfigs, QueryError>::Err(e),
                Result::Ok(doc) => {
                    &&& r matches Result::Ok(res)
                    &&& res.project_path matches Option::Some(p)
                    &&& p@ == dir_at(d, k)
                    &&& res.package_configs.primary_package matches Option::Some(pp)
                    &&& pp@ == id
                    &&& doc_view(res.package_configs.primary_package_config) == doc
                    &&& res.package_configs.dependencies_configs@ == project_dependencies(
                        modules_view(inputs.modules),
                        id,
                    )
                    &&& !res.package_configs.dependencies_configs@.contains_key(id)
                },
            },
        },
    }
}

/// Answer "what are the configs of this project's dependencies"; the same
/// policies as the locks query, over the config metadata file.
pub fn fs_defined_dependencies_configs(
    working_directory: &AbsPath,
    fs: &FsSnapshot,
    inputs: &ProjectInputs,
) -> (r: Result<FsDefinedDependenciesConfigs, QueryError>)
    ensures
        fs_configs_ok(fs, working_directory@, *inputs, r),
{
    match project_query(MetadataKind::Config, working_directory, fs, inputs) {
        Err(e) => Err(e),
        Ok(None) => Ok(
            FsDefinedDependenciesConfigs {
                project_path: None,
                package_configs: PackageConfigs {
                    primary_package: None,
                    primary_package_config: None,
                    dependencies_configs: DependencyMap::new(),
                },
            },
        ),
        Ok(Some(core)) => Ok(
            FsDefinedDependenciesConfigs {
                project_path: Some(core.project_path),
                package_configs: PackageConfigs {
                    primary_package: Some(core.primary_package),
                    primary_package_config: core.primary_metadata,
                    dependencies_configs: core.dependencies,
                },
            },
        ),
    }
}

/// The found part of a registry-package query's answer.
pub struct PackageCore {
    pub registry_host_name: String,
    pub primary_package: Package,
    pub primary_metadata: Option<String>,
    pub dependencies: DependencyMap,
}

/// What a correct answer to a registry-package query looks like.
pub open spec fn package_query_ok(
    kind: MetadataKind,
    extension: JsExtension,
    inputs: PackageInputs,
    r: Result<PackageCore, QueryError>,
) -> bool {
    match primary_package_outcome(inputs.primary_manifest) {
        Result::Err(e) => r == Result::<PackageCore, QueryError>::Err(e),
        Result::Ok(id) => match metadata_outcome(kind, inputs.primary_metadata) {
            Result::Err(e) => r == Result::<PackageCore, QueryError>::Err(e),
            Result::Ok(doc) => if extension.spec_registries().len() == 0 {
                r == Result::<PackageCore, QueryError>::Err(QueryError::NoRegistryHost)
            } else {
                {
                    &&& r matches Result::Ok(core)
                    &&& core.registry_host_name@ == extension.spec_registries()[0]
                    &&& core.primary_package@ == id
                    &&& doc_view(core.primary_metadata) == doc
                    &&& core.dependencies@ == extraction(inputs.modules@).remove(id)
                    &&& !core.dependencies@.contains_key(id)
                }
            },
        },
    }
}

/// Answer a registry-package query of one metadata kind from the
/// provisioned tree's reads.  The primary package never appears among its
/// own dependencies.
pub fn package_query(
    kind: MetadataKind,
    extension: &JsExtension,
    inputs: &PackageInputs,
) -> (r: Result<PackageCore, QueryError>)
    ensures
        package_query_ok(kind, *extension, *inputs, r),
{
    let primary = match primary_package(&inputs.primary_manifest) {
        Ok(p) => p,
        Err(e) => {
            return Err(e);
        },
    };
    let doc = match get_metadata(kind, &inputs.primary_metadata) {
        Ok(d) => d,
        Err(e) => {
            return Err(e);
        },
    };
    let hosts = extension.registries();
    if hosts.len() == 0 {
        return Err(QueryError::NoRegistryHost);
    }
    let host = hosts[0].clone();
    proof {
        assert(host@ == extension.spec_registries()[0]);
    }
    let mut dependencies = extract_dependencies(&inputs.modules);
    dependencies.remove(&primary);
    Ok(
        PackageCore {
            registry_host_name: host,
            primary_package: primary,
            primary_metadata: doc,
            dependencies,
        },
    )
}

/// What a correct package-locks answer looks like.
pub open spec fn package_locks_ok(
    extension: JsExtension,
    inputs: PackageInputs,
    r: Result<PackageDependenciesLocks, QueryError>,
) -> bool {
    match primary_package_outcome(inputs.primary_manifest) {
        Result::Err(e) => r == Result::<PackageDependenciesLocks, QueryError>::Err(e),
        Result::Ok(id) => match metadata_outcome(MetadataKind::Lock, inputs.primary_metadata) {
            Result::Err(e) => r == Result::<PackageDependenciesLocks, QueryError>::Err(e),
            Result::Ok(doc) => if extension.spec_registries().len() == 0 {
                r == Result::<PackageDependenciesLocks, QueryError>::Err(
                    QueryError::NoRegistryHost,
                )
            } else {
                {
                    &&& r matches Result::Ok(res)
                    &&& res.registry_host_name@ == extension.spec_registries()[0]
                    &&& res.package_locks.primary_package matches Option::Some(pp)
                    &&& pp@ == id
                    &&& doc_view(res.package_locks.primary_package_lock) == doc
                    &&& res.package_locks.dependencies_locks@ == extraction(
                        inputs.modules@,
                    ).remove(id)
                    &&& !res.package_locks.dependencies_locks@.contains_key(id)
                }
            },
        },
    }
}

/// Answer "what are the locks of this registry package's dependencies".
pub fn package_dependencies_locks(extension: &JsExtension, inputs: &PackageInputs) -> (r: Result<
    PackageDependenciesLocks,
    QueryError,
>)
    ensures
        package_locks_ok(*extension, *inputs, r),
{
    match package_query(MetadataKind::Lock, extension, inputs) {
        Err(e) => Err(e),
        Ok(core) => Ok(
            PackageDependenciesLocks {
                registry_host_name: core.registry_host_name,
                package_locks: PackageLocks {
                    primary_package: Some(core.primary_package),
                    primary_package_lock: core.primary_metadata,
                    dependencies_locks: core.dependencies,
                },
            },
        ),
    }
}

/// What a correct package-configs answer looks like.
pub open spec fn package_configs_ok(
    extension: JsExtension,
    inputs: PackageInputs,
    r: Result<PackageDependenciesConfigs, QueryError>,
) -> bool {
    match primary_package_outcome(inputs.primary_manifest) {
        Result::Err(e) => r == Result::<PackageDependenciesConfigs, QueryError>::Err(e),
        Result::Ok(id) => match metadata_outcome(MetadataKind::Config, inputs.primary_metadata) {
            Result::Err(e) => r == Result::<PackageDependenciesConfigs, QueryError>::Err(e),
            Result::Ok(doc) => if extension.spec_registries().len() == 0 {
                r == Result::<PackageDependenciesConfigs, QueryError>::Err(
                    QueryError::NoRegistryHost,
                )
            } else {
                {
                    &&& r matches Result::Ok(res)
                    &&& res.registry_host_name@ == extension.spec_registries()[0]
                    &&& res.package_configs.primary_package matches Option::Some(pp)
                    &&& pp@ == id
                    &&& doc_view(res.package_configs.primary_package_config) == doc
                    &&& res.package_configs.dependencies_configs@ == extraction(
                        inputs.modules@,
                    ).remove(id)
                    &&& !res.package_configs.dependencies_configs@.contains_key(id)
                }
            },
        },
    }
}

/// Answer "what are the configs of this registry package's dependencies".
pub fn package_dependencies_configs(extension: &JsExtension, inputs: &PackageInputs) -> (r: Result<
    PackageDependenciesConfigs,
    QueryError,
>)
    ensures
        package_configs_ok(*extension, *inputs, r),
{
    match package_query(MetadataKind::Config, extension, inputs) {
        Err(e) => Err(e),
        Ok(core) => Ok(
            PackageDependenciesConfigs {
                registry_host_name: core.registry_host_name,
                package_configs: PackageConfigs {
                    primary_package: Some(core.primary_package),
                    primary_package_config: core.primary_metadata,
                    dependencies_configs: core.dependencies,
                },
            },
        ),
    }
}

} // verus!
