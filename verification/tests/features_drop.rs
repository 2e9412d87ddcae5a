//! Ownership discipline of the feature record.

use zsh_module::{BinDesc, Features};

fn desc(name: &[u8]) -> BinDesc {
    BinDesc {
        name: name.to_vec(),
        minargs: 0,
        maxargs: -1,
        flags: None,
        handler_installed: false,
    }
}

#[test]
fn empty_features_drop_without_populating() {
    // every category starts unpopulated; dropping frees nothing
    let f = Features::empty();
    assert!(f.binaries.is_none());
    assert!(f.conditions.is_none());
    assert!(f.math_funcs.is_none());
    assert!(f.param_defs.is_none());
    drop(f);
}

#[test]
fn release_on_empty_features_finds_nothing() {
    let mut f = Features::empty();
    assert!(f.release().is_none());
}

#[test]
fn transplant_and_release_zero_descriptors() {
    let mut f = Features::empty().with_binaries(Vec::new());
    let taken = f.release().unwrap();
    assert_eq!(taken.len(), 0);
    assert!(f.binaries.is_none());
}

#[test]
fn transplant_and_release_one_descriptor() {
    let mut f = Features::empty().with_binaries(vec![desc(b"one")]);
    let taken = f.release().unwrap();
    assert_eq!(taken.len(), 1);
    assert_eq!(taken[0].name, b"one".to_vec());
}

#[test]
fn transplant_and_release_many_descriptors() {
    let list: Vec<BinDesc> = (0..7).map(|i| desc(format!("cmd{}", i).as_bytes())).collect();
    let mut f = Features::empty().with_binaries(list);
    let taken = f.release().unwrap();
    assert_eq!(taken.len(), 7);
    for (i, d) in taken.iter().enumerate() {
        assert_eq!(d.name, format!("cmd{}", i).as_bytes().to_vec());
    }
}

#[test]
fn second_release_finds_nothing_to_free() {
    // the backing storage can only be taken out once: no double free
    let mut f = Features::empty().with_binaries(vec![desc(b"one")]);
    assert!(f.release().is_some());
    assert!(f.release().is_none());
    assert!(f.binaries.is_none());
}

#[test]
fn get_binaries_views_the_transplanted_list_in_place() {
    let mut f = Features::empty().with_binaries(vec![desc(b"a"), desc(b"b")]);
    {
        let list = f.get_binaries();
        assert_eq!(list.len(), 2);
        list[0].handler_installed = true;
        list[1].handler_installed = true;
    }
    let taken = f.release().unwrap();
    assert!(taken.iter().all(|d| d.handler_installed));
}
