use sandbox::env::{key_len, merge_env, same_key, sets_key_of};

fn entries(list: &[&[u8]]) -> Vec<Vec<u8>> {
    list.iter().map(|e| e.to_vec()).collect()
}

#[test]
fn name_ends_at_the_first_equals_sign() {
    assert_eq!(key_len(b"PATH=/bin"), 4);
    assert_eq!(key_len(b"A=b=c"), 1);
    assert_eq!(key_len(b"=x"), 0);
}

#[test]
fn entry_without_equals_sign_is_all_name() {
    assert_eq!(key_len(b"HOME"), 4);
    assert_eq!(key_len(b""), 0);
}

#[test]
fn names_are_compared_without_values() {
    assert!(same_key(b"PATH=/bin", b"PATH=/usr/bin"));
    assert!(same_key(b"PATH", b"PATH=x"));
    assert!(!same_key(b"PATH=/bin", b"PATHS=/bin"));
    assert!(!same_key(b"PATH=/bin", b"HOME=/bin"));
    assert!(!same_key(b"path=/bin", b"PATH=/bin"));
    assert!(same_key(b"", b"=x"));
}

#[test]
fn list_is_searched_for_a_name() {
    let list = entries(&[b"PATH=/bin", b"HOME=/root"]);
    assert!(sets_key_of(&list, b"HOME=/tmp"));
    assert!(!sets_key_of(&list, b"LANG=C"));
    assert!(!sets_key_of(&Vec::new(), b"LANG=C"));
}

#[test]
fn entries_of_the_caller_replace_those_of_the_base() {
    let base = entries(&[b"PATH=/usr/bin:/bin", b"HOME=/", b"LANG=C"]);
    let extra = entries(&[b"HOME=/work", b"TERM=dumb"]);
    assert_eq!(
        merge_env(&base, &extra),
        entries(&[b"PATH=/usr/bin:/bin", b"LANG=C", b"HOME=/work", b"TERM=dumb"])
    );
}

#[test]
fn base_alone_is_kept() {
    let base = entries(&[b"PATH=/bin", b"LANG=C"]);
    assert_eq!(merge_env(&base, &Vec::new()), base);
}

#[test]
fn entries_of_the_caller_alone_are_kept_in_order() {
    let extra = entries(&[b"B=2", b"A=1", b"B=3"]);
    assert_eq!(merge_env(&Vec::new(), &extra), extra);
}

#[test]
fn every_base_entry_of_a_name_is_replaced() {
    let base = entries(&[b"A=1", b"B=1", b"A=2"]);
    let extra = entries(&[b"A=9"]);
    assert_eq!(merge_env(&base, &extra), entries(&[b"B=1", b"A=9"]));
}
