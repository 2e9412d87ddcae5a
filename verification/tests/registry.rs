//! Registration and lookup behaviour of the command registry.

use zsh_module::{
    Builtin, Bintable, Cmd, CStrArray, MaybeZError, Module, ModuleBuilder, Opts, ZError,
};

struct Counter {
    calls: usize,
}

enum Handler {
    Count,
    Fail,
}

impl Cmd<Counter> for Handler {
    fn call(
        &self,
        userdata: &mut Counter,
        _name: &Vec<u8>,
        _args: &CStrArray,
        _opts: &Opts,
    ) -> MaybeZError {
        match self {
            Handler::Count => {
                userdata.calls += 1;
                Ok(())
            }
            Handler::Fail => Err(ZError::Conversion(String::from("forced failure"))),
        }
    }
}

fn build_two() -> Module<Counter, Handler> {
    ModuleBuilder::new(Counter { calls: 0 })
        .builtin(Handler::Count, Builtin::new("greet"))
        .unwrap()
        .builtin(Handler::Fail, Builtin::new("fail"))
        .unwrap()
        .build()
}

#[test]
fn every_registered_name_is_found() {
    let module = build_two();
    assert!(module.bintable.find(&b"greet".to_vec()).is_some());
    assert!(module.bintable.find(&b"fail".to_vec()).is_some());
    assert!(module.bintable.contains_name(&b"greet".to_vec()));
    assert!(module.bintable.contains_name(&b"fail".to_vec()));
}

#[test]
fn lookup_finds_each_name_in_its_own_slot_once() {
    let module = build_two();
    let i = module.bintable.find(&b"greet".to_vec()).unwrap();
    let j = module.bintable.find(&b"fail".to_vec()).unwrap();
    assert_eq!(i, 0);
    assert_eq!(j, 1);
    assert_ne!(i, j);
}

#[test]
fn unregistered_name_is_not_found() {
    let module = build_two();
    assert!(module.bintable.find(&b"missing".to_vec()).is_none());
    assert!(!module.bintable.contains_name(&b"missing".to_vec()));
    assert!(module.bintable.find(&b"gree".to_vec()).is_none());
    assert!(module.bintable.find(&b"greets".to_vec()).is_none());
}

#[test]
fn duplicate_registration_fails_at_build_time() {
    let builder = ModuleBuilder::new(Counter { calls: 0 })
        .builtin(Handler::Count, Builtin::new("greet"))
        .unwrap();
    let result = builder.builtin(Handler::Fail, Builtin::new("greet"));
    assert!(matches!(result, Err(ZError::DuplicateName)));
}

#[test]
fn duplicate_does_not_overwrite_earlier_handler() {
    // Registering the duplicate failed, so the module built from a fresh
    // builder still dispatches "greet" to the first handler.
    let module = build_two();
    let i = module.bintable.find(&b"greet".to_vec()).unwrap();
    assert!(matches!(module.bintable.entries[i].handler, Handler::Count));
}

#[test]
fn empty_registry_finds_nothing() {
    let table: Bintable<Handler> = Bintable::new();
    assert!(table.find(&b"anything".to_vec()).is_none());
}

#[test]
fn builtin_descriptor_defaults_and_setters() {
    let b = Builtin::new("cmd");
    assert_eq!(b.name, b"cmd".to_vec());
    assert_eq!(b.minargs, 0);
    assert_eq!(b.maxargs, -1);
    assert!(b.flags.is_none());

    let b = Builtin::new("cmd").minargs(2).maxargs(Some(5)).flags("ab");
    assert_eq!(b.minargs, 2);
    assert_eq!(b.maxargs, 5);
    assert_eq!(b.flags, Some(b"ab".to_vec()));

    let b = Builtin::new("cmd").maxargs(None);
    assert_eq!(b.maxargs, -1);
}

#[test]
fn build_moves_descriptors_and_strings_into_module() {
    let module = ModuleBuilder::new(Counter { calls: 0 })
        .builtin(Handler::Count, Builtin::new("greet").flags("xy"))
        .unwrap()
        .build();
    let descs = module.features.binaries.as_ref().unwrap();
    assert_eq!(descs.len(), 1);
    assert_eq!(descs[0].name, b"greet".to_vec());
    assert_eq!(descs[0].flags, Some(0));
    assert!(!descs[0].handler_installed);
    assert_eq!(module.strings.len(), 1);
    assert_eq!(module.strings[0], b"xy".to_vec());
    assert!(module.features.conditions.is_none());
    assert!(module.features.math_funcs.is_none());
    assert!(module.features.param_defs.is_none());
}
