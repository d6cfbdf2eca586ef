//! The target resolver: reads the package name out of the project manifest
//! and derives from it the project root and the filename prefix of the
//! compiled test binaries.

use vstd::prelude::*;
use vstd::string::StrSliceExecFns;
use crate::paths::spec_parent_dir;
use crate::paths::parent_dir;
use crate::strings::push_char;

verus! {

/// Whether `toml::from_str` accepts `s` as a TOML document.
pub uninterp spec fn toml_parses(s: Seq<char>) -> bool;

/// The string stored in the TOML document `s` at `table`.`key`: `Some`
/// exactly when the document holds a table of that name, the table holds
/// the key, and the value there is a string.
pub uninterp spec fn toml_string_at(s: Seq<char>, table: Seq<char>, key: Seq<char>) -> Option<
    Seq<char>,
>;

/// The outcome of looking a string up in a TOML document.
pub enum TomlLookup {
    /// The document parses and holds the string.
    Found(String),
    /// The document does not parse.
    NoDocument,
    /// The document parses but has no table of the given name.
    NoTable,
    /// The table exists but has no entry for the given key.
    NoKey,
    /// The entry exists but its value is not a string.
    NotAString,
}

/// Relies on `toml::from_str`, `toml::Value::get` and `toml::Value::as_str`:
/// parses `text` as a TOML document and reads the string at `table`.`key`.
#[verifier::external_body]
fn toml_lookup_string(text: &str, table: &str, key: &str) -> (r: TomlLookup)
    ensures
        r is NoDocument <==> !toml_parses(text@),
        r is Found <==> (toml_parses(text@) && toml_string_at(text@, table@, key@) is Some),
        r is Found ==> toml_string_at(text@, table@, key@) == Some(r->Found_0@),
{
    let doc: toml::Value = match toml::from_str(text) {
        Ok(v) => v,
        Err(_) => return TomlLookup::NoDocument,
    };
    let t = match doc.get(table) { Some(t) => t, None => return TomlLookup::NoTable };
    let v = match t.get(key) { Some(v) => v, None => return TomlLookup::NoKey };
    match v.as_str() {
        Some(s) => TomlLookup::Found(s.to_owned()),
        None => TomlLookup::NotAString,
    }
}

/// The package name the manifest declares, if it declares one.
pub open spec fn spec_package_name(manifest: Seq<char>) -> Option<Seq<char>> {
    toml_string_at(manifest, "package"@, "name"@)
}

/// Why a manifest could not be resolved; each condition is fatal to the
/// whole invocation.
#[derive(PartialEq, Eq, Structural, Clone, Copy, Debug)]
pub enum ManifestError {
    /// The manifest is not a well-formed configuration document.
    Malformed,
    /// The manifest has no `package` table.
    MissingPackage,
    /// The `package` table has no `name` entry.
    MissingName,
    /// The `name` entry is not a string.
    NameNotAString,
}

impl ManifestError {
    /// The message reported to the user for this error.
    pub fn message(&self) -> (r: &'static str)
        ensures
            *self is Malformed ==> r@ == "failed to parse the project manifest"@,
            *self is MissingPackage ==> r@ == "no package table found in the project manifest"@,
            *self is MissingName ==> r@ == "no package name found in the project manifest"@,
            *self is NameNotAString ==> r@ == "the package name in the project manifest is not a string"@,
    {
        match self {
            ManifestError::Malformed => "failed to parse the project manifest",
            ManifestError::MissingPackage => "no package table found in the project manifest",
            ManifestError::MissingName => "no package name found in the project manifest",
            ManifestError::NameNotAString => "the package name in the project manifest is not a string",
        }
    }
}

/// `c` with a hyphen normalized to an underscore, as the build tool does
/// when it names compiled artifacts.
pub open spec fn normalize_char(c: char) -> char {
    if c == '-' {
        '_'
    } else {
        c
    }
}

/// The filename prefix of the package's compiled test binaries: the
/// package name with every hyphen replaced by an underscore, plus one
/// trailing separator.
pub open spec fn spec_executable_prefix(name: Seq<char>) -> Seq<char> {
    name.map_values(|c: char| normalize_char(c)).push('-')
}

/// Law: the derived prefix keeps the name's length plus one, turns every
/// hyphen into an underscore, keeps every other character, and ends in
/// exactly one separator (no separator stands anywhere but last).
pub proof fn lemma_executable_prefix_normalization(name: Seq<char>)
    ensures
        spec_executable_prefix(name).len() == name.len() + 1,
        spec_executable_prefix(name).last() == '-',
        forall|i: int|
            0 <= i < name.len() ==> spec_executable_prefix(name)[i] == (if name[i] == '-' {
                '_'
            } else {
                name[i]
            }),
        forall|i: int| 0 <= i < name.len() ==> spec_executable_prefix(name)[i] != '-',
{
}

/// Derives the compiled-artifact filename prefix from the package name.
pub fn executable_prefix(name: &str) -> (r: String)
    ensures
        r@ == spec_executable_prefix(name@),
{
    let len = name.unicode_len();
    let mut out = String::new();
    let mut i: usize = 0;
    while i < len
        invariant
            i <= len,
            len == name@.len(),
            out@ == name@.take(i as int).map_values(|c: char| normalize_char(c)),
        decreases len - i,
    {
        let c = name.get_char(i);
        if c == '-' {
            push_char(&mut out, '_');
        } else {
            push_char(&mut out, c);
        }
        proof {
            assert(name@.take(i + 1).map_values(|c: char| normalize_char(c)) =~= name@.take(
                i as int,
            ).map_values(|c: char| normalize_char(c)).push(normalize_char(name@[i as int])));
        }
        i += 1;
    }
    proof {
        assert(name@.take(len as int) =~= name@);
    }
    push_char(&mut out, '-');
    out
}

/// What the target resolver hands every later stage: the project root,
/// the declared package name, and the test-binary filename prefix.
#[derive(Debug)]
pub struct ProjectLocation {
    /// The directory that contains the manifest.
    pub root: String,
    /// The package name exactly as the manifest declares it.
    pub package: String,
    /// The filename prefix of the package's compiled test binaries.
    pub prefix: String,
}

/// Resolves the project: given the manifest's path and its text, extracts
/// the declared package name and derives the root directory and the
/// executable prefix. Every failure names the manifest defect.
pub fn resolve_project(manifest_path: &str, manifest_text: &str) -> (r: Result<
    ProjectLocation,
    ManifestError,
>)
    ensures
        !toml_parses(manifest_text@) ==> r == Err::<ProjectLocation, ManifestError>(
            ManifestError::Malformed,
        ),
        toml_parses(manifest_text@) && spec_package_name(manifest_text@) is None ==> r is Err
            && r->Err_0 != ManifestError::Malformed,
        r is Ok <==> toml_parses(manifest_text@) && spec_package_name(manifest_text@) is Some,
        r matches Ok(loc) ==> {
            &&& loc.root@ == spec_parent_dir(manifest_path@)
            &&& Some(loc.package@) == spec_package_name(manifest_text@)
            &&& loc.prefix@ == spec_executable_prefix(spec_package_name(manifest_text@)->0)
        },
{
    let name = match toml_lookup_string(manifest_text, "package", "name") {
        TomlLookup::Found(s) => s,
        TomlLookup::NoDocument => return Err(ManifestError::Malformed),
        TomlLookup::NoTable => return Err(ManifestError::MissingPackage),
        TomlLookup::NoKey => return Err(ManifestError::MissingName),
        TomlLookup::NotAString => return Err(ManifestError::NameNotAString),
    };
    let root = parent_dir(manifest_path);
    let prefix = executable_prefix(name.as_str());
    Ok(ProjectLocation { root: root.to_owned(), package: name, prefix })
}

} // verus!
