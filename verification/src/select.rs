//! Selecting the default profile: the first section whose name starts with
//! `Install` is consulted, and its `Default` key names the profile.

use vstd::prelude::*;

use crate::document::{spec_lookup, Document, SpecSection};
use crate::errors::Error;

verus! {

/// Whether a section name starts with the literal `Install`.
pub open spec fn is_install_name(name: Seq<char>) -> bool {
    "Install"@.is_prefix_of(name)
}

/// Whether a section is named and its name starts with `Install`.
/// Anonymous sections are never candidates.
pub open spec fn section_is_install(s: SpecSection) -> bool {
    s.name is Some && is_install_name(s.name->0)
}

/// Index of the first `Install`-prefixed section, or `doc.len()` if none.
pub open spec fn first_install(doc: Seq<SpecSection>) -> nat
    decreases doc.len(),
{
    if doc.len() == 0 {
        0
    } else if section_is_install(doc[0]) {
        0
    } else {
        (1 + first_install(doc.drop_first())) as nat
    }
}

/// `first_install` returns exactly the position `k` before which no section
/// is `Install`-prefixed and at which one is, or `doc.len()` when none is.
pub proof fn lemma_first_install(doc: Seq<SpecSection>, k: int)
    requires
        0 <= k <= doc.len(),
        forall|j: int| 0 <= j < k ==> !section_is_install(doc[j]),
        k < doc.len() ==> section_is_install(doc[k]),
    ensures
        first_install(doc) == k,
    decreases doc.len(),
{
    if k == 0 {
        if doc.len() > 0 && k < doc.len() {
            assert(section_is_install(doc[0]));
        }
    } else {
        assert(!section_is_install(doc[0]));
        lemma_first_install(doc.drop_first(), k - 1);
    }
}

/// What the selector yields on a document: the `Default` value of the first
/// `Install`-prefixed section, or the error saying which part was missing.
pub open spec fn spec_find_default_profile(doc: Seq<SpecSection>) -> Result<Seq<char>, Error> {
    let i = first_install(doc);
    if i < doc.len() {
        match spec_lookup(doc[i as int].entries, "Default"@) {
            Some(v) => Ok(v),
            None => Err(Error::NoDefaultProfile),
        }
    } else {
        Err(Error::NoInstallSection)
    }
}

/// Whether `name` starts with the literal `Install`.
fn has_install_prefix(name: &str) -> (b: bool)
    ensures
        b == is_install_name(name@),
{
    proof {
        reveal_strlit("Install");
    }
    let n = name.unicode_len();
    if n < 7 {
        return false;
    }
    let b = name.get_char(0) == 'I' && name.get_char(1) == 'n' && name.get_char(2) == 's'
        && name.get_char(3) == 't' && name.get_char(4) == 'a' && name.get_char(5) == 'l'
        && name.get_char(6) == 'l';
    proof {
        if b {
            assert("Install"@ =~= name@.subrange(0, 7));
        } else {
            assert(forall|j: int| 0 <= j < 7 ==> name@.subrange(0, 7)[j] == name@[j]);
            assert(!is_install_name(name@));
        }
    }
    b
}

/// Scans the document in order for the first `Install`-prefixed section and
/// reads its `Default` key: the relative name of the default profile.
pub fn find_default_profile(doc: &Document) -> (r: Result<String, Error>)
    ensures
        match spec_find_default_profile(doc@) {
            Ok(v) => r matches Ok(s) && s@ == v,
            Err(e) => r == Err::<String, Error>(e),
        },
{
    let mut i: usize = 0;
    while i < doc.sections.len()
        invariant
            i <= doc.sections.len(),
            forall|j: int| 0 <= j < i ==> !section_is_install(doc@[j]),
        decreases doc.sections.len() - i,
    {
        let sec = &doc.sections[i];
        let is_inst = match &sec.name {
            Some(n) => has_install_prefix(n.as_str()),
            None => false,
        };
        if is_inst {
            proof {
                lemma_first_install(doc@, i as int);
            }
            match sec.lookup("Default") {
                Some(v) => {
                    return Ok(v);
                },
                None => {
                    return Err(Error::NoDefaultProfile);
                },
            }
        }
        i = i + 1;
    }
    proof {
        lemma_first_install(doc@, doc@.len() as int);
    }
    Err(Error::NoInstallSection)
}

/// If exactly one section of the document bears the `Install` prefix and
/// its `Default` key holds `v`, the selector yields exactly `v`.
pub proof fn lemma_unique_install_selects(doc: Seq<SpecSection>, i: int, v: Seq<char>)
    requires
        0 <= i < doc.len(),
        section_is_install(doc[i]),
        forall|j: int| 0 <= j < doc.len() && j != i ==> !section_is_install(doc[j]),
        spec_lookup(doc[i].entries, "Default"@) == Some(v),
    ensures
        spec_find_default_profile(doc) == Ok::<Seq<char>, Error>(v),
{
    lemma_first_install(doc, i);
}

/// Document order decides among several `Install`-prefixed sections: with
/// one at `i` and another anywhere later at `j`, only the one at `i` is
/// consulted, whatever the later one holds.
pub proof fn lemma_first_install_wins(doc: Seq<SpecSection>, i: int, j: int)
    requires
        0 <= i < j < doc.len(),
        section_is_install(doc[i]),
        section_is_install(doc[j]),
        forall|k: int| 0 <= k < i ==> !section_is_install(doc[k]),
    ensures
        spec_find_default_profile(doc) == (match spec_lookup(doc[i].entries, "Default"@) {
            Some(v) => Ok::<Seq<char>, Error>(v),
            None => Err::<Seq<char>, Error>(Error::NoDefaultProfile),
        }),
{
    lemma_first_install(doc, i);
}

} // verus!
