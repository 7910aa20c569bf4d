//! The in-memory form of a parsed configuration document: an ordered
//! sequence of sections, each an optional name with ordered key/value pairs.

use vstd::prelude::*;
use vstd::string::*;

verus! {

/// The mathematical model of one section: an optional name and the
/// key/value pairs in the order the file gives them.
#[verifier::ext_equal]
pub ghost struct SpecSection {
    pub name: Option<Seq<char>>,
    pub entries: Seq<(Seq<char>, Seq<char>)>,
}

/// One section of the configuration document. `name` is `None` for the
/// anonymous section holding content that precedes any header.
pub struct Section {
    pub name: Option<String>,
    pub entries: Vec<(String, String)>,
}

impl View for Section {
    type V = SpecSection;

    open spec fn view(&self) -> SpecSection {
        SpecSection { name: self.name.deep_view(), entries: self.entries.deep_view() }
    }
}

impl DeepView for Section {
    type V = SpecSection;

    open spec fn deep_view(&self) -> SpecSection {
        self.view()
    }
}

/// The parsed configuration document: its sections in document order.
pub struct Document {
    pub sections: Vec<Section>,
}

impl View for Document {
    type V = Seq<SpecSection>;

    open spec fn view(&self) -> Seq<SpecSection> {
        self.sections.deep_view()
    }
}

/// The value bound to `key` among `entries`, where a later binding of the
/// same key within a section overrides an earlier one.
pub open spec fn spec_lookup(
    entries: Seq<(Seq<char>, Seq<char>)>,
    key: Seq<char>,
) -> Option<Seq<char>>
    decreases entries.len(),
{
    if entries.len() == 0 {
        None
    } else if entries.last().0 == key {
        Some(entries.last().1)
    } else {
        spec_lookup(entries.drop_last(), key)
    }
}

impl Section {
    /// Looks `key` up among this section's entries, later bindings winning.
    pub fn lookup(&self, key: &str) -> (r: Option<String>)
        ensures
            match r {
                Some(v) => spec_lookup(self@.entries, key@) == Some(v@),
                None => spec_lookup(self@.entries, key@) is None,
            },
    {
        let key_owned = String::from_str(key);
        let mut i: usize = self.entries.len();
        proof {
            assert(self@.entries.take(i as int) =~= self@.entries);
        }
        while i > 0
            invariant
                i <= self.entries.len(),
                key_owned@ == key@,
                spec_lookup(self@.entries, key@) == spec_lookup(
                    self@.entries.take(i as int),
                    key@,
                ),
            decreases i,
        {
            let pair = &self.entries[i - 1];
            proof {
                assert(self@.entries.take(i as int).last() == self@.entries[i - 1]);
                assert(self@.entries.take(i as int).drop_last() =~= self@.entries.take(
                    i - 1,
                ));
            }
            if pair.0 == key_owned {
                return Some(pair.1.clone());
            }
            i = i - 1;
        }
        proof {
            assert(self@.entries.take(0) =~= Seq::<(Seq<char>, Seq<char>)>::empty());
        }
        None
    }
}

} // verus!
