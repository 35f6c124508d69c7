//! The session state: a name and the two tag lists.

use vstd::prelude::*;
use vstd::string::StringExecFns;
use crate::affix::{
    affix_views, is_not_named, lemma_reduced_none_selected, lemma_reduced_single,
    lemma_without_absent, lemma_without_clears, reduce_affixes, reduced, remove_named, without,
    Affix, AffixType, AffixView,
};
use crate::code::{code_of, derive_code};
use crate::compose::{compose, composed};

verus! {

/// The state that lasts over a session and is stored between sessions. The
/// code and the designation are not part of it: they are computed from it.
#[derive(Debug, Clone, PartialEq, Eq)]
pub struct Profile {
    pub name: String,
    pub prefix: Vec<Affix>,
    pub suffix: Vec<Affix>,
}

/// What a profile is in contracts.
pub ghost struct ProfileView {
    pub name: Seq<char>,
    pub prefix: Seq<AffixView>,
    pub suffix: Seq<AffixView>,
}

impl View for Profile {
    type V = ProfileView;

    open spec fn view(&self) -> ProfileView {
        ProfileView {
            name: self.name@,
            prefix: affix_views(self.prefix@),
            suffix: affix_views(self.suffix@),
        }
    }
}

/// A tag that is not selected.
pub open spec fn plain(name: Seq<char>) -> AffixView {
    AffixView { name, selected: false }
}

/// The profile that a session starts from where nothing was stored: five
/// prefix tags, the first of them selected, and five suffix tags.
pub open spec fn initial_profile() -> ProfileView {
    ProfileView {
        name: "name"@,
        prefix: seq![
            AffixView { name: "Obedience"@, selected: true },
            plain("Pleasure"@),
            plain("Administrative"@),
            plain("Conversion"@),
            plain("Denial"@),
        ],
        suffix: seq![
            plain("Hucow"@),
            plain("Toy"@),
            plain("Resouce"@),
            plain("Slave"@),
            plain("Kitty"@),
        ],
    }
}

impl ProfileView {
    /// The profile with one more tag, not selected, at the end of the list
    /// that `target` names.
    pub open spec fn added(self, target: AffixType, name: Seq<char>) -> ProfileView {
        match target {
            AffixType::Prefix => ProfileView { prefix: self.prefix.push(plain(name)), ..self },
            AffixType::Suffix => ProfileView { suffix: self.suffix.push(plain(name)), ..self },
        }
    }

    /// The profile without the tags labelled `name`, in both lists.
    pub open spec fn removed(self, name: Seq<char>) -> ProfileView {
        ProfileView {
            name: self.name,
            prefix: without(self.prefix, name),
            suffix: without(self.suffix, name),
        }
    }

    /// Whether some tag of either list is labelled `name`.
    pub open spec fn has_affix(self, name: Seq<char>) -> bool {
        ||| exists|i: int| 0 <= i < self.prefix.len() && (#[trigger] self.prefix[i]).name == name
        ||| exists|i: int| 0 <= i < self.suffix.len() && (#[trigger] self.suffix[i]).name == name
    }

    /// The designation: the reduced prefix list, the code of the name and the
    /// reduced suffix list, joined.
    pub open spec fn designation(self) -> Seq<char> {
        composed(reduced(self.prefix), code_of(self.name), reduced(self.suffix))
    }
}

/// Removing a label leaves no tag with that label in either list, and leaves
/// the name alone.
pub proof fn lemma_removed_clears(p: ProfileView, name: Seq<char>)
    ensures
        !p.removed(name).has_affix(name),
        p.removed(name).name == p.name,
{
    lemma_without_clears(p.prefix, name);
    lemma_without_clears(p.suffix, name);
}

/// Removing a label that no tag of either list has changes nothing.
pub proof fn lemma_removed_absent(p: ProfileView, name: Seq<char>)
    requires
        !p.has_affix(name),
    ensures
        p.removed(name) == p,
{
    lemma_without_absent(p.prefix, name);
    lemma_without_absent(p.suffix, name);
}

/// Removing a label a second time changes nothing more.
pub proof fn lemma_removed_twice(p: ProfileView, name: Seq<char>)
    ensures
        p.removed(name).removed(name) == p.removed(name),
{
    lemma_removed_clears(p, name);
    lemma_removed_absent(p.removed(name), name);
}

/// Adding a label that no tag has and removing it again gives the profile
/// back.
pub proof fn lemma_added_then_removed(p: ProfileView, target: AffixType, name: Seq<char>)
    requires
        !p.has_affix(name),
    ensures
        p.added(target, name).removed(name) == p,
{
    lemma_without_absent(p.prefix, name);
    lemma_without_absent(p.suffix, name);
    p.prefix.lemma_filter_push(plain(name), is_not_named(name));
    p.suffix.lemma_filter_push(plain(name), is_not_named(name));
}

/// With the lists as a session starts with them, the designation of any name
/// is the letter `O`, a hyphen and the name's code.
pub proof fn lemma_initial_designation(name: Seq<char>)
    ensures
        (ProfileView { name, ..initial_profile() }).designation() == seq!['O', '-'] + code_of(name),
{
    reveal_strlit("Obedience");
    let p = ProfileView { name, ..initial_profile() };
    lemma_reduced_single(p.prefix, 0);
    lemma_reduced_none_selected(p.suffix);
    assert(p.designation() =~= seq!['O', '-'] + code_of(name));
}

impl Default for Profile {
    /// The profile that a session starts from where nothing was stored.
    fn default() -> (p: Profile)
        ensures
            p@ == initial_profile(),
    {
        let p = Profile {
            name: String::from_str("name"),
            prefix: vec![
                Affix::new_selected("Obedience"),
                Affix::new("Pleasure"),
                Affix::new("Administrative"),
                Affix::new("Conversion"),
                Affix::new("Denial"),
            ],
            suffix: vec![
                Affix::new("Hucow"),
                Affix::new("Toy"),
                Affix::new("Resouce"),
                Affix::new("Slave"),
                Affix::new("Kitty"),
            ],
        };
        proof {
            assert(p@.prefix =~= initial_profile().prefix);
            assert(p@.suffix =~= initial_profile().suffix);
        }
        p
    }
}

impl Profile {
    /// The profile that a session starts from: the stored one where one could
    /// be read, else the initial one.
    pub fn restore(stored: Option<Profile>) -> (p: Profile)
        ensures
            match stored {
                Some(s) => p == s,
                None => p@ == initial_profile(),
            },
    {
        match stored {
            Some(s) => s,
            None => Profile::default(),
        }
    }

    /// The four-digit code of the profile's name.
    pub fn code(&self) -> (code: String)
        ensures
            code@ == code_of(self@.name),
    {
        derive_code(self.name.as_str())
    }

    /// The designation of the profile as it stands.
    pub fn designation(&self) -> (designation: String)
        ensures
            designation@ == self@.designation(),
    {
        let code = derive_code(self.name.as_str());
        let prefix = reduce_affixes(&self.prefix);
        let suffix = reduce_affixes(&self.suffix);
        compose(prefix.as_str(), code.as_str(), suffix.as_str())
    }

    /// Appends a tag labelled `name`, not selected, to the list that `target`
    /// names. A label that is there already is added once more.
    pub fn add_affix(&mut self, target: AffixType, name: &str)
        ensures
            final(self)@ == old(self)@.added(target, name@),
    {
        let affix = Affix::new(name);
        match target {
            AffixType::Prefix => {
                self.prefix.push(affix);
                proof {
                    assert(affix_views(self.prefix@) =~= affix_views(old(self).prefix@).push(
                        plain(name@),
                    ));
                }
            },
            AffixType::Suffix => {
                self.suffix.push(affix);
                proof {
                    assert(affix_views(self.suffix@) =~= affix_views(old(self).suffix@).push(
                        plain(name@),
                    ));
                }
            },
        }
    }

    /// Removes every tag labelled `name` from both lists. The other tags keep
    /// their order and their selection.
    pub fn remove_affix(&mut self, name: &str)
        ensures
            final(self)@ == old(self)@.removed(name@),
    {
        self.prefix = remove_named(&self.prefix, name);
        self.suffix = remove_named(&self.suffix, name);
    }
}

} // verus!
