use vstd::prelude::*;
use vstd::string::*;

use crate::llm::texts;
use crate::text::{copy_opt_text, opt_text, same_text};

verus! {

/// Separators between the words of a profile id.
pub open spec fn is_separator(c: char) -> bool {
    c == '-' || c == '_' || c == ' '
}

/// Name for what `char::to_uppercase` yields for one character (one or more
/// characters, by Unicode's mapping).
pub uninterp spec fn upper_of(c: char) -> Seq<char>;

/// Relies on `char::to_uppercase`: the mapping depends on the character alone.
#[verifier::external_body]
fn upper(c: char) -> (r: String)
    ensures
        r@ == upper_of(c),
{
    c.to_uppercase().collect::<String>()
}

/// Title-cases `s`, read left to right: separators are dropped, the first
/// character of each word is upper-cased, and words are joined by single
/// spaces.
pub open spec fn title_of(s: Seq<char>) -> Seq<char>
    decreases s.len(),
{
    if s.len() == 0 {
        Seq::empty()
    } else {
        let prefix = s.drop_last();
        let c = s.last();
        let t = title_of(prefix);
        if is_separator(c) {
            t
        } else if prefix.len() > 0 && !is_separator(prefix.last()) {
            t.push(c)
        } else if t.len() == 0 {
            upper_of(c)
        } else {
            t + " "@ + upper_of(c)
        }
    }
}

/// Builds [`title_of`]: the display name of a profile id.
pub fn title_case(value: &str) -> (r: String)
    ensures
        r@ == title_of(value@),
{
    let n = value.unicode_len();
    let mut out = String::new();
    let mut in_word = false;
    let mut i: usize = 0;
    while i < n
        invariant
            n == value@.len(),
            i <= n,
            out@ == title_of(value@.take(i as int)),
            in_word == (i > 0 && !is_separator(value@[i - 1])),
        decreases n - i,
    {
        let c = value.get_char(i);
        assert(value@.take(i + 1).drop_last() =~= value@.take(i as int));
        assert(value@.take(i + 1).last() == c);
        if c == '-' || c == '_' || c == ' ' {
            in_word = false;
        } else {
            if in_word {
                let one = value.substring_char(i, i + 1);
                assert(one@ =~= seq![c]);
                out.append(one);
                assert(out@ =~= title_of(value@.take(i as int)).push(c));
            } else {
                if out.unicode_len() > 0 {
                    out.append(" ");
                }
                let u = upper(c);
                out.append(u.as_str());
            }
            in_word = true;
        }
        i = i + 1;
    }
    assert(value@.take(n as int) =~= value@);
    out
}

/// A prompt profile: its agents document and its modes by name.
#[derive(Debug, Clone)]
pub struct PromptProfile {
    pub id: String,
    pub name: String,
    pub description: Option<String>,
    pub agents_doc: String,
    pub modes: Vec<(String, String)>,
}

/// Mathematical model of a [`PromptProfile`].
pub ghost struct ProfileView {
    pub id: Seq<char>,
    pub name: Seq<char>,
    pub description: Option<Seq<char>>,
    pub agents_doc: Seq<char>,
    pub modes: Seq<(Seq<char>, Seq<char>)>,
}

/// The views of a sequence of string pairs.
pub open spec fn pair_views(v: Seq<(String, String)>) -> Seq<(Seq<char>, Seq<char>)> {
    v.map_values(|e: (String, String)| (e.0@, e.1@))
}

impl View for PromptProfile {
    type V = ProfileView;

    open spec fn view(&self) -> ProfileView {
        ProfileView {
            id: self.id@,
            name: self.name@,
            description: opt_text(self.description),
            agents_doc: self.agents_doc@,
            modes: pair_views(self.modes@),
        }
    }
}

/// What a client sees of a profile.
#[derive(Debug, Clone)]
pub struct ProfileSummary {
    pub id: String,
    pub name: String,
    pub description: Option<String>,
    pub modes: Vec<String>,
}

/// Mathematical model of a [`ProfileSummary`].
pub ghost struct ProfileSummaryView {
    pub id: Seq<char>,
    pub name: Seq<char>,
    pub description: Option<Seq<char>>,
    pub modes: Seq<Seq<char>>,
}

impl View for ProfileSummary {
    type V = ProfileSummaryView;

    open spec fn view(&self) -> ProfileSummaryView {
        ProfileSummaryView { id: self.id@, name: self.name@, description: opt_text(self.description), modes: texts(self.modes@) }
    }
}

/// The names of the modes of a profile.
pub open spec fn mode_names(modes: Seq<(String, String)>) -> Seq<Seq<char>> {
    modes.map_values(|m: (String, String)| m.0@)
}

/// The summary of a profile.
pub open spec fn summary_of(p: PromptProfile) -> ProfileSummaryView {
    ProfileSummaryView { id: p.id@, name: p.name@, description: opt_text(p.description), modes: mode_names(p.modes@) }
}

impl PromptProfile {
    /// A profile named after its id, without description.
    pub fn new(id: String, agents_doc: String, modes: Vec<(String, String)>) -> (r: PromptProfile)
        ensures
            r.id@ == id@,
            r.name@ == title_of(id@),
            r.description is None,
            r.agents_doc@ == agents_doc@,
            r.modes@ == modes@,
    {
        let name = title_case(id.as_str());
        PromptProfile { id, name, description: None, agents_doc, modes }
    }

    /// An independent copy.
    pub fn snapshot(&self) -> (r: PromptProfile)
        ensures
            r@ == self@,
    {
        let mut modes: Vec<(String, String)> = Vec::new();
        let mut i: usize = 0;
        while i < self.modes.len()
            invariant
                i <= self.modes@.len(),
                pair_views(modes@) == pair_views(self.modes@.take(i as int)),
            decreases self.modes@.len() - i,
        {
            let ghost before = modes@;
            modes.push((self.modes[i].0.clone(), self.modes[i].1.clone()));
            assert(pair_views(modes@) =~= pair_views(before).push((self.modes@[i as int].0@, self.modes@[i as int].1@)));
            assert(self.modes@.take(i + 1) =~= self.modes@.take(i as int).push(self.modes@[i as int]));
            assert(pair_views(self.modes@.take(i + 1)) =~= pair_views(self.modes@.take(i as int)).push(
                (self.modes@[i as int].0@, self.modes@[i as int].1@),
            ));
            i = i + 1;
        }
        assert(self.modes@.take(i as int) =~= self.modes@);
        PromptProfile {
            id: self.id.clone(),
            name: self.name.clone(),
            description: copy_opt_text(&self.description),
            agents_doc: self.agents_doc.clone(),
            modes,
        }
    }

    /// The summary of this profile.
    pub fn summary(&self) -> (r: ProfileSummary)
        ensures
            r@ == summary_of(*self),
    {
        let mut modes: Vec<String> = Vec::new();
        let mut i: usize = 0;
        while i < self.modes.len()
            invariant
                i <= self.modes@.len(),
                texts(modes@) == mode_names(self.modes@.take(i as int)),
            decreases self.modes@.len() - i,
        {
            let ghost before = modes@;
            modes.push(self.modes[i].0.clone());
            assert(texts(modes@) =~= texts(before).push(self.modes@[i as int].0@));
            assert(self.modes@.take(i + 1) =~= self.modes@.take(i as int).push(self.modes@[i as int]));
            assert(mode_names(self.modes@.take(i + 1)) =~= mode_names(self.modes@.take(i as int)).push(
                self.modes@[i as int].0@,
            ));
            i = i + 1;
        }
        assert(self.modes@.take(i as int) =~= self.modes@);
        ProfileSummary {
            id: self.id.clone(),
            name: self.name.clone(),
            description: copy_opt_text(&self.description),
            modes,
        }
    }
}

/// The prompt profiles a server offers, with distinct ids.
#[derive(Debug, Clone)]
pub struct ProfileCatalog {
    profiles: Vec<PromptProfile>,
}

impl ProfileCatalog {
    /// The profiles, in the order they were added.
    pub closed spec fn entries(&self) -> Seq<PromptProfile> {
        self.profiles@
    }

    /// No two profiles share an id.
    pub open spec fn wf(&self) -> bool {
        forall|i: int, j: int|
            0 <= i < j < self.entries().len() ==> self.entries()[i].id@ != self.entries()[j].id@
    }

    /// An empty catalog.
    pub fn new() -> (r: ProfileCatalog)
        ensures
            r.wf(),
            r.entries().len() == 0,
    {
        ProfileCatalog { profiles: Vec::new() }
    }

    /// Adds `profile`, replacing the profile with the same id if there is one.
    pub fn insert(&mut self, profile: PromptProfile)
        requires
            old(self).wf(),
        ensures
            final(self).wf(),
            (exists|i: int| 0 <= i < old(self).entries().len() && old(self).entries()[i].id@ == profile.id@) ==> exists|i: int|
                0 <= i < old(self).entries().len() && old(self).entries()[i].id@ == profile.id@
                    && final(self).entries() == old(self).entries().update(i, profile),
            (forall|i: int| 0 <= i < old(self).entries().len() ==> old(self).entries()[i].id@ != profile.id@)
                ==> final(self).entries() == old(self).entries().push(profile),
    {
        let mut i: usize = 0;
        while i < self.profiles.len()
            invariant
                old(self).wf(),
                self.profiles == old(self).profiles,
                i <= self.profiles@.len(),
                forall|j: int| 0 <= j < i ==> self.profiles@[j].id@ != profile.id@,
            decreases self.profiles@.len() - i,
        {
            if same_text(self.profiles[i].id.as_str(), profile.id.as_str()) {
                self.profiles.set(i, profile);
                assert forall|x: int, y: int| 0 <= x < y < self.entries().len() implies self.entries()[x].id@
                    != self.entries()[y].id@ by {
                    assert(old(self).entries()[x].id@ != old(self).entries()[y].id@);
                    if x == i {
                        assert(old(self).entries()[i as int].id@ != old(self).entries()[y].id@);
                    }
                    if y == i {
                        assert(old(self).entries()[x].id@ != old(self).entries()[i as int].id@);
                    }
                }
                return;
            }
            i = i + 1;
        }
        self.profiles.push(profile);
    }

    /// Summaries of all profiles, in catalog order.
    pub fn summaries(&self) -> (r: Vec<ProfileSummary>)
        ensures
            r@.len() == self.entries().len(),
            forall|i: int| 0 <= i < r@.len() ==> #[trigger] r@[i]@ == summary_of(self.entries()[i]),
    {
        let mut out: Vec<ProfileSummary> = Vec::new();
        let mut i: usize = 0;
        while i < self.profiles.len()
            invariant
                i <= self.profiles@.len(),
                out@.len() == i,
                forall|j: int| 0 <= j < i ==> #[trigger] out@[j]@ == summary_of(self.profiles@[j]),
            decreases self.profiles@.len() - i,
        {
            out.push(self.profiles[i].summary());
            i = i + 1;
        }
        out
    }

    /// A copy of the profile with id `id`, if there is one.
    pub fn get(&self, id: &str) -> (r: Option<PromptProfile>)
        requires
            self.wf(),
        ensures
            match r {
                Some(p) => exists|i: int| 0 <= i < self.entries().len() && self.entries()[i].id@ == id@ && p@ == self.entries()[i]@,
                None => forall|i: int| 0 <= i < self.entries().len() ==> self.entries()[i].id@ != id@,
            },
    {
        let mut i: usize = 0;
        while i < self.profiles.len()
            invariant
                i <= self.profiles@.len(),
                forall|j: int| 0 <= j < i ==> self.profiles@[j].id@ != id@,
            decreases self.profiles@.len() - i,
        {
            if same_text(self.profiles[i].id.as_str(), id) {
                return Some(self.profiles[i].snapshot());
            }
            i = i + 1;
        }
        None
    }
}

} // verus!
