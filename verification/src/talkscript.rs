//! Talk scripts: the static dialogue data a character's talk trigger refers
//! to, keyed by section name.

use vstd::prelude::*;

verus! {

/// What happens when a talk section ends.
#[derive(Clone, Copy, PartialEq, Eq, Structural, Debug)]
pub enum TalkSectionReaction {
    End,
}

/// A follow-up reaction inside a section; no meaningful one is defined yet.
#[derive(Clone, Copy, PartialEq, Eq, Structural, Debug)]
pub enum TalkSubReaction {
    NoReaction,
}

/// One section of a talk script.
#[derive(Clone, PartialEq, Debug)]
pub struct TalkSection {
    pub text: Option<String>,
    pub reaction: TalkSectionReaction,
    pub sub_reaction: Vec<TalkSubReaction>,
}

/// Holds the data of one talking, as named sections.
#[derive(Clone, PartialEq, Debug)]
pub struct TalkScriptObject {
    pub id: String,
    pub sections: Vec<(String, TalkSection)>,
}

/// There is a section named `key`.
pub open spec fn spec_has_section(s: Seq<(String, TalkSection)>, key: Seq<char>) -> bool {
    exists|i: int| 0 <= i < s.len() && s[i].0@ == key
}

/// Position of the first section named `key` at or after `i`; the length
/// when there is none.
pub open spec fn section_index_from(s: Seq<(String, TalkSection)>, key: Seq<char>, i: int) -> int
    decreases s.len() - i,
{
    if i < 0 || i >= s.len() {
        s.len() as int
    } else if s[i].0@ == key {
        i
    } else {
        section_index_from(s, key, i + 1)
    }
}

/// The section that a name refers to: the first one so named.
pub open spec fn spec_section(s: Seq<(String, TalkSection)>, key: Seq<char>) -> TalkSection {
    s[section_index_from(s, key, 0)].1
}

impl TalkScriptObject {
    /// The text of the named section, if that section has any. Naming an
    /// absent section is a defect of the script data, which callers rule
    /// out.
    pub fn get_section_text<'a>(&'a self, section: &String) -> (r: Option<&'a str>)
        requires
            spec_has_section(self.sections@, section@),
        ensures
            match r {
                Some(t) => spec_section(self.sections@, section@).text matches Some(u) && t@
                    == u@,
                None => spec_section(self.sections@, section@).text is None,
            },
    {
        let s = &self.sections;
        let mut i: usize = 0;
        while i < s.len()
            invariant
                0 <= i <= s.len(),
                s@ == self.sections@,
                section_index_from(s@, section@, 0) == section_index_from(s@, section@, i as int),
                forall|j: int| 0 <= j < i ==> s@[j].0@ != section@,
            decreases s.len() - i,
        {
            if s[i].0 == *section {
                proof {
                    assert(section_index_from(s@, section@, i as int) == i as int);
                }
                let sec = &s[i].1;
                return match &sec.text {
                    Some(t) => Some(t.as_str()),
                    None => None,
                };
            }
            i += 1;
        }
        proof {
            let e = choose|j: int| 0 <= j < s@.len() && s@[j].0@ == section@;
            assert(s@[e].0@ != section@);
        }
        vstd::pervasive::unreached()
    }
}

} // verus!
