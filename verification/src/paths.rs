//! The well-known paths of the lookup, and the pipeline that composes
//! parsing, selection, and the final path join.

use vstd::prelude::*;
use vstd::string::*;

use crate::document::SpecSection;
use crate::errors::Error;
use crate::parse::{parse_ini, spec_parse};
use crate::select::{find_default_profile, section_is_install, spec_find_default_profile};

verus! {

/// The Firefox base directory beneath the home directory.
pub open spec fn spec_firefox_home(home: Seq<char>) -> Seq<char> {
    home + "/.mozilla/firefox"@
}

/// The expected location of `profiles.ini` beneath the home directory.
pub open spec fn spec_profiles_ini(home: Seq<char>) -> Seq<char> {
    spec_firefox_home(home) + "/profiles.ini"@
}

/// `name` taken as a path segment under `base`.
pub open spec fn spec_join(base: Seq<char>, name: Seq<char>) -> Seq<char> {
    base + "/"@ + name
}

/// The Firefox base directory under `home`.
pub fn firefox_home_path(home: &str) -> (r: String)
    ensures
        r@ == spec_firefox_home(home@),
{
    String::from_str(home).concat("/.mozilla/firefox")
}

/// Where `profiles.ini` must lie under `home`.
pub fn profiles_ini_path(home: &str) -> (r: String)
    ensures
        r@ == spec_profiles_ini(home@),
{
    firefox_home_path(home).concat("/profiles.ini")
}

/// Joins a profile's relative name onto a base directory.
pub fn join_profile(base: &str, name: &str) -> (r: String)
    ensures
        r@ == spec_join(base@, name@),
{
    String::from_str(base).concat("/").concat(name)
}

/// Relies on dirs::home_dir: yields the user's home directory, or `None`
/// when the environment provides none; a home that is not valid Unicode is
/// treated as absent. The result depends on the process environment, so
/// nothing is promised of its value.
#[verifier::external_body]
fn home_dir_string() -> (r: Option<String>) {
    dirs::home_dir().and_then(|p| p.into_os_string().into_string().ok())
}

/// Obtains the invoking user's home directory from the environment; the
/// only failure is the environment providing none.
pub fn resolve_home() -> (r: Result<String, Error>)
    ensures
        r matches Err(e) ==> e == Error::NoHomeDir,
{
    match home_dir_string() {
        None => Err(Error::NoHomeDir),
        Some(h) => Ok(h),
    }
}

/// Resolves the Firefox base directory from the environment's notion of the
/// user's home directory.
pub fn firefox_home() -> (r: Result<String, Error>)
    ensures
        r matches Err(e) ==> e == Error::NoHomeDir,
        r matches Ok(p) ==> exists|h: Seq<char>| p@ == spec_firefox_home(h),
{
    match resolve_home() {
        Err(e) => Err(e),
        Ok(h) => Ok(firefox_home_path(h.as_str())),
    }
}

/// Computes where `profiles.ini` must lie under `home` and turns the
/// caller's existence check at exactly that path into the path itself or
/// the error reporting its absence.
pub fn find_profiles_ini(home: &str, file_exists: bool) -> (r: Result<String, Error>)
    ensures
        file_exists ==> (r matches Ok(p) && p@ == spec_profiles_ini(home@)),
        !file_exists ==> r == Err::<String, Error>(Error::NoProfilesIni),
{
    if file_exists {
        Ok(profiles_ini_path(home))
    } else {
        Err(Error::NoProfilesIni)
    }
}

/// The whole lookup as a function of the home directory and the text of
/// `profiles.ini`: the parsed document's default profile joined onto the
/// base directory, or the first error of the pipeline.
pub open spec fn spec_default_profile_path(home: Seq<char>, text: Seq<char>) -> Result<
    Seq<char>,
    Error,
> {
    match spec_parse(text) {
        Err(k) => Err(Error::ParseIniError { source: k }),
        Ok(doc) => match spec_find_default_profile(doc) {
            Err(e) => Err(e),
            Ok(v) => Ok(spec_join(spec_firefox_home(home), v)),
        },
    }
}

/// Parses `ini_text`, selects the default profile, and joins its name onto
/// the Firefox base directory beneath `home`.
pub fn default_profile_path(home: &str, ini_text: &str) -> (r: Result<String, Error>)
    ensures
        match spec_default_profile_path(home@, ini_text@) {
            Ok(p) => r matches Ok(s) && s@ == p,
            Err(e) => r == Err::<String, Error>(e),
        },
{
    let doc = match parse_ini(ini_text) {
        Ok(d) => d,
        Err(e) => {
            return Err(Error::ParseIniError { source: e });
        },
    };
    let name = match find_default_profile(&doc) {
        Ok(n) => n,
        Err(e) => {
            return Err(e);
        },
    };
    let base = firefox_home_path(home);
    Ok(join_profile(base.as_str(), name.as_str()))
}

/// For every document that parses and holds exactly one `Install`-prefixed
/// section whose `Default` key is `v`, the lookup's result is the base
/// directory joined with `v`.
pub proof fn lemma_unique_install_default_path(
    home: Seq<char>,
    text: Seq<char>,
    doc: Seq<SpecSection>,
    i: int,
    v: Seq<char>,
)
    requires
        spec_parse(text) == Ok::<Seq<SpecSection>, crate::errors::IniSyntaxError>(doc),
        0 <= i < doc.len(),
        section_is_install(doc[i]),
        forall|j: int| 0 <= j < doc.len() && j != i ==> !section_is_install(doc[j]),
        crate::document::spec_lookup(doc[i].entries, "Default"@) == Some(v),
    ensures
        spec_default_profile_path(home, text) == Ok::<Seq<char>, Error>(
            spec_join(spec_firefox_home(home), v),
        ),
{
    crate::select::lemma_unique_install_selects(doc, i, v);
}

/// The lookup is stateless: two runs over the same home directory and the
/// same file text yield the same outcome.
pub proof fn lemma_rerun_identical(
    home: Seq<char>,
    text: Seq<char>,
    r1: Result<Seq<char>, Error>,
    r2: Result<Seq<char>, Error>,
)
    requires
        r1 == spec_default_profile_path(home, text),
        r2 == spec_default_profile_path(home, text),
    ensures
        r1 == r2,
{
}

} // verus!
