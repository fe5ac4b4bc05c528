use crate::error::QueryError;
use crate::package::{doc_view, DependencyMap, Package};
use vstd::prelude::*;

verus! {

/// The "name" and "version" string fields of a JSON manifest document, when
/// both are present; the fields are a function of the document text alone.
pub uninterp spec fn manifest_identity(s: Seq<char>) -> Option<(Seq<char>, Seq<char>)>;

/// Relies on serde_json::from_str and serde_json::Value::{get, as_str} to
/// parse a manifest document and read its "name" and "version" string
/// fields; both are returned exactly when both are present.
#[verifier::external_body]
fn parse_manifest_identity(s: &str) -> (r: Option<(String, String)>)
    ensures
        match r {
            Option::Some(p) => manifest_identity(s@) == Option::Some((p.0@, p.1@)),
            Option::None => manifest_identity(s@) is None,
        },
{
    let json: serde_json::Value = match serde_json::from_str(s) {
        Ok(v) => v,
        Err(_) => return None,
    };
    let name = json.get("name")?.as_str()?.to_string();
    let version = json.get("version")?.as_str()?.to_string();
    Some((name, version))
}

/// Whether a text parses as a JSON document.  The lock and config payloads
/// are opaque to this engine: their schema belongs to the host, and only
/// the presence or absence of a well-formed document matters here.  (The
/// host's own lock deserializer can abort on crafted condition strings, so
/// interpreting the schema is left to the caller at the process edge.)
pub uninterp spec fn document_parses(s: Seq<char>) -> bool;

/// Relies on serde_json::from_str deserializing into a generic JSON
/// document: whether the text parses depends on the text alone, and the
/// parse returns normally on every input.
#[verifier::external_body]
fn document_text_parses(s: &str) -> (r: bool)
    ensures
        r == document_parses(s@),
{
    serde_json::from_str::<serde_json::Value>(s).is_ok()
}

/// Which package-local metadata document a query is after.
#[derive(Clone, Copy, Debug, PartialEq, Eq, Structural)]
pub enum MetadataKind {
    Lock,
    Config,
}

impl MetadataKind {
    /// The file name of this kind of metadata document inside a package
    /// directory.
    pub open spec fn spec_file_name(&self) -> Seq<char> {
        match self {
            MetadataKind::Lock => "OpenFare.lock"@,
            MetadataKind::Config => "OpenFare.json"@,
        }
    }

    pub fn file_name(&self) -> (r: String)
        ensures
            r@ == self.spec_file_name(),
    {
        match self {
            MetadataKind::Lock => "OpenFare.lock".to_owned(),
            MetadataKind::Config => "OpenFare.json".to_owned(),
        }
    }
}

/// The outcome of one attempted file read, as handed to this engine by the
/// caller that performed the read.
pub enum FileRead {
    /// No such file existed.
    Absent,
    /// The file existed but its contents could not be obtained.
    Unreadable,
    /// The file's contents.
    Contents(String),
}

/// A manifest identity whose name and version are both non-empty.
pub open spec fn valid_identity(s: Seq<char>) -> Option<(Seq<char>, Seq<char>)> {
    match manifest_identity(s) {
        Option::Some(p) => if p.0.len() > 0 && p.1.len() > 0 {
            Option::Some(p)
        } else {
            Option::None
        },
        Option::None => Option::None,
    }
}

/// Extract a package identity from a manifest document.  Succeeds exactly
/// when the document has non-empty "name" and "version" string fields.
pub fn get_package(manifest_text: &str) -> (r: Result<Package, QueryError>)
    ensures
        match r {
            Result::Ok(p) => valid_identity(manifest_text@) == Option::Some(p@),
            Result::Err(e) => valid_identity(manifest_text@) is None && e
                == QueryError::ManifestParse,
        },
{
    match parse_manifest_identity(manifest_text) {
        Option::Some((name, version)) => {
            if name.as_str().is_empty() || version.as_str().is_empty() {
                Err(QueryError::ManifestParse)
            } else {
                Ok(Package::new(name, version))
            }
        },
        Option::None => Err(QueryError::ManifestParse),
    }
}

/// The error reported when a metadata file of this kind cannot be read.
pub open spec fn read_error(kind: MetadataKind) -> QueryError {
    match kind {
        MetadataKind::Lock => QueryError::LockRead,
        MetadataKind::Config => QueryError::ConfigRead,
    }
}

/// The error reported when a metadata file of this kind does not parse.
pub open spec fn parse_error(kind: MetadataKind) -> QueryError {
    match kind {
        MetadataKind::Lock => QueryError::LockParse,
        MetadataKind::Config => QueryError::ConfigParse,
    }
}

/// What loading a primary package's metadata file yields: absence is a valid
/// outcome, an unreadable or malformed file is a call-level error.
pub open spec fn metadata_outcome(kind: MetadataKind, read: FileRead) -> Result<
    Option<Seq<char>>,
    QueryError,
> {
    match read {
        FileRead::Absent => Result::Ok(Option::None),
        FileRead::Unreadable => Result::Err(read_error(kind)),
        FileRead::Contents(t) => if document_parses(t@) {
            Result::Ok(Option::Some(t@))
        } else {
            Result::Err(parse_error(kind))
        },
    }
}

/// The spec-level content of a metadata load result.
pub open spec fn doc_result_view(r: Result<Option<String>, QueryError>) -> Result<
    Option<Seq<char>>,
    QueryError,
> {
    match r {
        Result::Ok(d) => Result::Ok(doc_view(d)),
        Result::Err(e) => Result::Err(e),
    }
}

pub(crate) fn get_metadata(kind: MetadataKind, read: &FileRead) -> (r: Result<
    Option<String>,
    QueryError,
>)
    ensures
        doc_result_view(r) == metadata_outcome(kind, *read),
{
    match read {
        FileRead::Absent => Ok(None),
        FileRead::Unreadable => Err(
            match kind {
                MetadataKind::Lock => QueryError::LockRead,
                MetadataKind::Config => QueryError::ConfigRead,
            },
        ),
        FileRead::Contents(t) => {
            if document_text_parses(t.as_str()) {
                Ok(Some(t.clone()))
            } else {
                Err(
                    match kind {
                        MetadataKind::Lock => QueryError::LockParse,
                        MetadataKind::Config => QueryError::ConfigParse,
                    },
                )
            }
        },
    }
}

/// Load a package-local lock document from the outcome of reading the lock
/// file.  An absent file is `Ok(None)`; an unreadable or malformed file is
/// an error.
pub fn get_lock(read: &FileRead) -> (r: Result<Option<String>, QueryError>)
    ensures
        doc_result_view(r) == metadata_outcome(MetadataKind::Lock, *read),
{
    get_metadata(MetadataKind::Lock, read)
}

/// Load a package-local config document; same policy as `get_lock`.
pub fn get_config(read: &FileRead) -> (r: Result<Option<String>, QueryError>)
    ensures
        doc_result_view(r) == metadata_outcome(MetadataKind::Config, *read),
{
    get_metadata(MetadataKind::Config, read)
}

/// One immediate entry of an install-tree directory, with the outcomes of
/// reading its manifest and metadata files.
pub struct ModuleEntry {
    /// Whether the directory entry is itself a directory.
    pub is_dir: bool,
    /// The entry's own manifest file.
    pub manifest: FileRead,
    /// The entry's metadata file of the kind being queried.
    pub metadata: FileRead,
}

/// The identity an install-tree entry contributes: only a directory whose
/// manifest yields a non-empty name and version contributes anything.
pub open spec fn entry_identity(e: ModuleEntry) -> Option<(Seq<char>, Seq<char>)> {
    if !e.is_dir {
        Option::None
    } else {
        match e.manifest {
            FileRead::Contents(t) => valid_identity(t@),
            _ => Option::None,
        }
    }
}

/// The metadata document an install-tree entry contributes.  Anything short
/// of a readable, well-formed document counts as "no declared metadata".
pub open spec fn entry_metadata(e: ModuleEntry) -> Option<Seq<char>> {
    match e.metadata {
        FileRead::Contents(t) => if document_parses(t@) {
            Option::Some(t@)
        } else {
            Option::None
        },
        _ => Option::None,
    }
}

/// The mapping extracted from an install tree's entries: each entry with an
/// identity is present, keyed by that identity, with its metadata document
/// or `None`; a later entry with the same identity overrides an earlier one.
pub open spec fn extraction(s: Seq<ModuleEntry>) -> Map<
    (Seq<char>, Seq<char>),
    Option<Seq<char>>,
>
    decreases s.len(),
{
    if s.len() == 0 {
        Map::empty()
    } else {
        let m = extraction(s.drop_last());
        match entry_identity(s.last()) {
            Option::None => m,
            Option::Some(id) => m.insert(id, entry_metadata(s.last())),
        }
    }
}

/// Walk the entries of an install tree and build the dependency mapping.
/// A failure to extract one entry never disturbs the rest.
pub fn extract_dependencies(entries: &Vec<ModuleEntry>) -> (r: DependencyMap)
    ensures
        r@ == extraction(entries@),
{
    let mut m = DependencyMap::new();
    let mut i: usize = 0;
    proof {
        assert(entries@.take(0) =~= Seq::<ModuleEntry>::empty());
    }
    while i < entries.len()
        invariant
            0 <= i <= entries.len(),
            m@ == extraction(entries@.take(i as int)),
        decreases entries.len() - i,
    {
        let e = &entries[i];
        if e.is_dir {
            match &e.manifest {
                FileRead::Contents(t) => {
                    match get_package(t.as_str()) {
                        Ok(p) => {
                            let doc: Option<String> = match &e.metadata {
                                FileRead::Contents(mt) => {
                                    if document_text_parses(mt.as_str()) {
                                        Some(mt.clone())
                                    } else {
                                        None
                                    }
                                },
                                _ => None,
                            };
                            m.insert(p, doc);
                        },
                        Err(_) => {},
                    }
                },
                _ => {},
            }
        }
        proof {
            assert(entries@.take(i + 1).drop_last() =~= entries@.take(i as int));
            assert(entries@.take(i + 1).last() == entries@[i as int]);
        }
        i = i + 1;
    }
    proof {
        assert(entries@.take(entries@.len() as int) =~= entries@);
    }
    m
}

/// Parse install-tree entries and return each package's lock document.
pub fn get_node_modules_locks(entries: &Vec<ModuleEntry>) -> (r: DependencyMap)
    ensures
        r@ == extraction(entries@),
{
    extract_dependencies(entries)
}

/// Parse install-tree entries and return each package's config document.
pub fn get_node_modules_configs(entries: &Vec<ModuleEntry>) -> (r: DependencyMap)
    ensures
        r@ == extraction(entries@),
{
    extract_dependencies(entries)
}

/// The extraction is a function of the entries alone: two runs over an
/// unchanged install tree yield identical maps.
pub proof fn lemma_extraction_deterministic(
    s: Seq<ModuleEntry>,
    m1: Map<(Seq<char>, Seq<char>), Option<Seq<char>>>,
    m2: Map<(Seq<char>, Seq<char>), Option<Seq<char>>>,
)
    requires
        m1 == extraction(s),
        m2 == extraction(s),
    ensures
        m1 == m2,
{
}

/// An entry from which no identity can be extracted is absent from the
/// result entirely.
pub proof fn lemma_no_identity_absent(s: Seq<ModuleEntry>, id: (Seq<char>, Seq<char>))
    requires
        forall|i: int| 0 <= i < s.len() ==> entry_identity(#[trigger] s[i]) != Option::Some(id),
    ensures
        !extraction(s).contains_key(id),
    decreases s.len(),
{
    if s.len() > 0 {
        assert forall|i: int| 0 <= i < s.drop_last().len() implies entry_identity(
            #[trigger] s.drop_last()[i],
        ) != Option::Some(id) by {
            assert(entry_identity(s[i]) != Option::Some(id));
        }
        lemma_no_identity_absent(s.drop_last(), id);
        assert(entry_identity(s[s.len() - 1]) != Option::Some(id));
    }
}

/// The last entry carrying an identity decides its record: in particular an
/// entry with an identity but no usable metadata is present with `None`,
/// never conflated with absence.
pub proof fn lemma_last_identity_decides(
    s: Seq<ModuleEntry>,
    i: int,
    id: (Seq<char>, Seq<char>),
)
    requires
        0 <= i < s.len(),
        entry_identity(s[i]) == Option::Some(id),
        forall|j: int| i < j < s.len() ==> entry_identity(#[trigger] s[j]) != Option::Some(id),
    ensures
        extraction(s).contains_key(id),
        extraction(s)[id] == entry_metadata(s[i]),
    decreases s.len(),
{
    if i == s.len() - 1 {
    } else {
        assert(s.drop_last()[i] == s[i]);
        assert forall|j: int| i < j < s.drop_last().len() implies entry_identity(
            #[trigger] s.drop_last()[j],
        ) != Option::Some(id) by {
            assert(entry_identity(s[j]) != Option::Some(id));
        }
        lemma_last_identity_decides(s.drop_last(), i, id);
        assert(entry_identity(s[s.len() - 1]) != Option::Some(id));
    }
}

} // verus!
