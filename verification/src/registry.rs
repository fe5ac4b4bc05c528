use crate::error::QueryError;
use vstd::prelude::*;
use vstd::string::StringExecFns;

verus! {

/// The host name of the registry this engine queries.
pub const HOST_NAME: &'static str = "npmjs.com";

/// The URL of the registry metadata document for a package, as the fixed
/// URL template renders it over the package name.
pub uninterp spec fn rendered_registry_url(name: Seq<char>) -> Seq<char>;

/// A character the URL template's default escape rewrites.
pub open spec fn url_escaped_char(c: char) -> bool {
    c == '<' || c == '>' || c == '"' || c == '&' || c == '\'' || c == '`' || c == '='
}

/// Relies on handlebars::Handlebars::render_template: rendering the fixed
/// registry URL template over one string datum depends on the name alone
/// and cannot fail, since the constant template is well-formed, a one-entry
/// string map serializes, and output goes to a string buffer.  The default
/// escape rewrites nothing in a name free of its seven special characters,
/// so such a name is appended to the fixed prefix as it is.
#[verifier::external_body]
fn render_registry_url(package_name: &str) -> (r: String)
    ensures
        r@ == rendered_registry_url(package_name@),
        (forall|i: int| 0 <= i < package_name@.len() ==> !url_escaped_char(#[trigger] package_name@[i]))
            ==> r@ == "https://registry.npmjs.com/"@ + package_name@,
{
    let registry = handlebars::Handlebars::new();
    let mut data = std::collections::BTreeMap::new();
    data.insert("package_name", package_name);
    registry
        .render_template("https://registry.npmjs.com/{{package_name}}", &data)
        .expect("the constant registry URL template renders")
}

/// The URL to fetch a package's registry metadata document from: the fixed
/// registry prefix with the package name rendered into it.
pub fn registry_url(package_name: &str) -> (r: String)
    ensures
        r@ == rendered_registry_url(package_name@),
        (forall|i: int| 0 <= i < package_name@.len() ==> !url_escaped_char(#[trigger] package_name@[i]))
            ==> r@ == "https://registry.npmjs.com/"@ + package_name@,
{
    render_registry_url(package_name)
}

/// The keys of the "versions" object of a registry metadata document, in
/// the order the parser yields them; absent when the document is not JSON
/// or holds no versions object.
pub uninterp spec fn versions_keys(s: Seq<char>) -> Option<Seq<Seq<char>>>;

/// Relies on serde_json::from_str, serde_json::Value::{get, as_object} and
/// serde_json::Map::keys: the version keys of a metadata document depend on
/// the document text alone.
#[verifier::external_body]
fn registry_versions(body: &str) -> (r: Option<Vec<String>>)
    ensures
        match r {
            Option::Some(v) => versions_keys(body@) == Option::Some(v.deep_view()),
            Option::None => versions_keys(body@) is None,
        },
{
    let json: serde_json::Value = match serde_json::from_str(body) {
        Ok(v) => v,
        Err(_) => return None,
    };
    let versions = json.get("versions")?.as_object()?;
    Some(versions.keys().cloned().collect())
}

/// Given a package's registry metadata document, return its latest version:
/// the last key of the versions mapping, which is assumed to be declared in
/// publish order.  This is a heuristic, not a semver-greatest computation.
/// A package with no published versions has no latest version, which is a
/// valid outcome, not an error; a document without a versions object is a
/// call-level error.
pub fn get_latest_version(body: &str) -> (r: Result<Option<String>, QueryError>)
    ensures
        match versions_keys(body@) {
            Option::None => r matches Result::Err(e) && e == QueryError::VersionsNotFound,
            Option::Some(ks) => if ks.len() == 0 {
                r matches Result::Ok(v) && v is None
            } else {
                r matches Result::Ok(v) && v matches Option::Some(x) && x@ == ks.last()
            },
        },
{
    match registry_versions(body) {
        Option::Some(keys) => {
            if keys.len() == 0 {
                Ok(None)
            } else {
                let last = keys[keys.len() - 1].clone();
                proof {
                    assert(last@ == keys.deep_view().last());
                }
                Ok(Some(last))
            }
        },
        Option::None => Err(QueryError::VersionsNotFound),
    }
}

/// The package specifier handed to the package manager's install
/// operation: `name@version` with an explicit version, the bare name
/// without one.
pub fn install_target(package_name: &str, package_version: &Option<String>) -> (r: String)
    ensures
        match package_version {
            Option::Some(v) => r@ == package_name@ + "@"@ + v@,
            Option::None => r@ == package_name@,
        },
{
    match package_version {
        Option::Some(v) => {
            let mut s = package_name.to_owned();
            s.append("@");
            s.append(v.as_str());
            s
        },
        Option::None => package_name.to_owned(),
    }
}

} // verus!
