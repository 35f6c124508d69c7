use designation::affix::{Affix, AffixType};
use designation::profile::Profile;

fn names(list: &[Affix]) -> Vec<&str> {
    list.iter().map(|a| a.name.as_str()).collect()
}

#[test]
fn default_profile_lists() {
    let p = Profile::default();
    assert_eq!(p.name, "name");
    assert_eq!(
        names(&p.prefix),
        vec!["Obedience", "Pleasure", "Administrative", "Conversion", "Denial"]
    );
    assert_eq!(names(&p.suffix), vec!["Hucow", "Toy", "Resouce", "Slave", "Kitty"]);
    let selected: Vec<bool> = p.prefix.iter().map(|a| a.selected).collect();
    assert_eq!(selected, vec![true, false, false, false, false]);
    assert!(p.suffix.iter().all(|a| !a.selected));
}

#[test]
fn default_profile_with_a_name() {
    let mut p = Profile::default();
    p.name = String::from("Name");
    assert_eq!(p.code(), "4135");
    assert_eq!(p.designation(), "O-4135");
}

#[test]
fn default_profile_as_it_starts() {
    let p = Profile::default();
    assert_eq!(p.code(), "4135");
    assert_eq!(p.designation(), "O-4135");
}

#[test]
fn designation_follows_the_selection() {
    let mut p = Profile::default();
    p.name = String::from("abcd");
    p.suffix[0].selected = true;
    assert_eq!(p.designation(), "O-1234-H");
    p.suffix[1].selected = true;
    assert_eq!(p.designation(), "O-1234-HT");
    p.suffix[4].selected = true;
    assert_eq!(p.designation(), "O-1234-HT");
    p.prefix[0].selected = false;
    assert_eq!(p.designation(), "-1234-HT");
    p.prefix[3].selected = true;
    p.prefix[4].selected = true;
    assert_eq!(p.designation(), "CD-1234-HT");
    p.prefix[1].selected = true;
    assert_eq!(p.designation(), "PC-1234-HT");
}

#[test]
fn designation_with_empty_name() {
    let mut p = Profile::default();
    p.name = String::new();
    assert_eq!(p.designation(), "O-0000");
}

#[test]
fn designation_without_a_suffix_character_has_no_second_hyphen() {
    let mut p = Profile::default();
    p.add_affix(AffixType::Suffix, "");
    let last = p.suffix.len() - 1;
    p.suffix[last].selected = true;
    assert_eq!(p.designation(), "O-4135");
}

#[test]
fn add_affix_appends_unselected() {
    let mut p = Profile::default();
    p.add_affix(AffixType::Prefix, "Service");
    assert_eq!(p.prefix.len(), 6);
    assert_eq!(p.suffix.len(), 5);
    assert_eq!(p.prefix[5], Affix::new("Service"));
    p.add_affix(AffixType::Suffix, "Doll");
    assert_eq!(p.prefix.len(), 6);
    assert_eq!(p.suffix.len(), 6);
    assert_eq!(p.suffix[5], Affix::new("Doll"));
    assert_eq!(p.name, "name");
}

#[test]
fn add_affix_allows_duplicates() {
    let mut p = Profile::default();
    p.add_affix(AffixType::Prefix, "Denial");
    assert_eq!(
        names(&p.prefix),
        vec!["Obedience", "Pleasure", "Administrative", "Conversion", "Denial", "Denial"]
    );
}

#[test]
fn remove_affix_reaches_both_lists() {
    let mut p = Profile::default();
    p.add_affix(AffixType::Prefix, "Doll");
    p.add_affix(AffixType::Suffix, "Doll");
    p.remove_affix("Doll");
    assert_eq!(p, Profile::default());
    // A label of one list that was added to the other, and once more to its own.
    p.add_affix(AffixType::Prefix, "Toy");
    p.add_affix(AffixType::Suffix, "Toy");
    p.remove_affix("Toy");
    assert_eq!(p.prefix, Profile::default().prefix);
    assert_eq!(names(&p.suffix), vec!["Hucow", "Resouce", "Slave", "Kitty"]);
}

#[test]
fn remove_affix_keeps_order_and_selection() {
    let mut p = Profile::default();
    p.suffix[3].selected = true;
    p.remove_affix("Pleasure");
    p.remove_affix("Toy");
    assert_eq!(names(&p.prefix), vec!["Obedience", "Administrative", "Conversion", "Denial"]);
    assert_eq!(names(&p.suffix), vec!["Hucow", "Resouce", "Slave", "Kitty"]);
    assert!(p.prefix[0].selected);
    assert!(p.suffix[2].selected);
    assert_eq!(p.designation(), "O-4135-S");
}

#[test]
fn remove_affix_of_absent_name_changes_nothing() {
    let mut p = Profile::default();
    p.suffix[1].selected = true;
    let before = p.clone();
    p.remove_affix("Nothing");
    assert_eq!(p, before);
    p.remove_affix("");
    assert_eq!(p, before);
    p.remove_affix("obedience");
    assert_eq!(p, before);
}

#[test]
fn remove_affix_twice_is_as_once() {
    let mut p = Profile::default();
    p.remove_affix("Obedience");
    let once = p.clone();
    p.remove_affix("Obedience");
    assert_eq!(p, once);
    assert_eq!(p.designation(), "-4135");
}

#[test]
fn add_then_remove_gives_the_profile_back() {
    let mut p = Profile::default();
    let before = p.clone();
    p.add_affix(AffixType::Suffix, "Doll");
    assert_ne!(p, before);
    p.remove_affix("Doll");
    assert_eq!(p, before);
}

#[test]
fn restore_without_a_stored_profile_is_the_default() {
    assert_eq!(Profile::restore(None), Profile::default());
}

#[test]
fn restore_keeps_a_stored_profile() {
    let mut stored = Profile::default();
    stored.name = String::from("Zed");
    stored.prefix[0].selected = false;
    stored.add_affix(AffixType::Suffix, "Doll");
    stored.suffix[5].selected = true;
    let p = Profile::restore(Some(stored.clone()));
    assert_eq!(p, stored);
    assert_eq!(p.designation(), "-6540-D");
}
