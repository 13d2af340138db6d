use zsh_module::containment::{handle_panic, Payload, FAILURE, FAULT, SUCCESS};
use zsh_module::fatal::Fatal;
use zsh_module::holder::{drop_mod, get_mod, panicked, set_mod, ModuleHolder};
use zsh_module::module::{Features, Module};

type Plain = fn(&mut u32, &str, &[&str], ()) -> Result<(), String>;

fn module_with(user_data: u32) -> Module<u32, Plain> {
    Module { bintable: Vec::new(), user_data, features: Features { binaries: Vec::new() } }
}

#[test]
fn a_new_holder_is_empty_and_clean() {
    let mut holder: ModuleHolder<u32, Plain> = ModuleHolder::empty();
    assert!(!panicked(&holder));
    assert_eq!(get_mod(&mut holder).err(), Some(Fatal::NoModule));
}

#[test]
fn an_installed_instance_can_be_acquired_and_changed() {
    let mut holder: ModuleHolder<u32, Plain> = ModuleHolder::empty();
    set_mod(&mut holder, module_with(4));
    get_mod(&mut holder).unwrap().user_data += 1;
    assert_eq!(get_mod(&mut holder).unwrap().user_data, 5);
}

#[test]
fn installing_again_replaces_the_instance() {
    let mut holder: ModuleHolder<u32, Plain> = ModuleHolder::empty();
    set_mod(&mut holder, module_with(1));
    set_mod(&mut holder, module_with(2));
    assert_eq!(get_mod(&mut holder).unwrap().user_data, 2);
}

#[test]
fn teardown_removes_the_instance() {
    let mut holder: ModuleHolder<u32, Plain> = ModuleHolder::empty();
    set_mod(&mut holder, module_with(1));
    drop_mod(&mut holder);
    assert_eq!(get_mod(&mut holder).err(), Some(Fatal::NoModule));
    assert!(!panicked(&holder));
}

#[test]
fn teardown_of_an_empty_holder_changes_nothing() {
    let mut holder: ModuleHolder<u32, Plain> = ModuleHolder::empty();
    drop_mod(&mut holder);
    drop_mod(&mut holder);
    assert!(get_mod(&mut holder).is_err());
    assert!(!panicked(&holder));
}

#[test]
fn work_that_came_to_its_end_keeps_its_result() {
    let mut holder: ModuleHolder<u32, Plain> = ModuleHolder::empty();
    set_mod(&mut holder, module_with(9));
    let (ret, diagnostic) = handle_panic(&mut holder, b"mod", Ok::<i32, Payload>(7));
    assert_eq!(ret, Some(7));
    assert!(diagnostic.is_none());
    assert!(!panicked(&holder));
    assert_eq!(get_mod(&mut holder).unwrap().user_data, 9);
}

#[test]
fn an_unwind_with_a_message_poisons_and_reports_it() {
    let mut holder: ModuleHolder<u32, Plain> = ModuleHolder::empty();
    let outcome: Result<i32, Payload> = Err(Payload::Text("index out of bounds".to_string()));
    let (ret, diagnostic) = handle_panic(&mut holder, b"greet", outcome);
    assert_eq!(ret, None);
    let diagnostic = diagnostic.unwrap();
    assert_eq!(diagnostic.label, b"greet".to_vec());
    assert_eq!(diagnostic.message, "Panic: index out of bounds");
    assert!(panicked(&holder));
}

#[test]
fn an_unwind_without_text_is_reported_as_such() {
    let mut holder: ModuleHolder<u32, Plain> = ModuleHolder::empty();
    let outcome: Result<(), Payload> = Err(Payload::Opaque);
    let (ret, diagnostic) = handle_panic(&mut holder, b"mod", outcome);
    assert_eq!(ret, None);
    assert_eq!(diagnostic.unwrap().message, "Panic: no additional information");
    assert!(panicked(&holder));
}

#[test]
fn a_poisoned_holder_keeps_what_it_holds() {
    let mut holder: ModuleHolder<u32, Plain> = ModuleHolder::empty();
    set_mod(&mut holder, module_with(3));
    let _ = handle_panic(&mut holder, b"mod", Err::<(), Payload>(Payload::Opaque));
    drop_mod(&mut holder);
    assert!(panicked(&holder));
    assert_eq!(get_mod(&mut holder).unwrap().user_data, 3);
    drop_mod(&mut holder);
    assert_eq!(get_mod(&mut holder).unwrap().user_data, 3);
}

#[test]
fn poison_outlives_work_that_ends_well() {
    let mut holder: ModuleHolder<u32, Plain> = ModuleHolder::empty();
    let _ = handle_panic(&mut holder, b"mod", Err::<(), Payload>(Payload::Opaque));
    let _ = handle_panic(&mut holder, b"mod", Ok::<i32, Payload>(0));
    set_mod(&mut holder, module_with(1));
    assert!(panicked(&holder));
}

#[test]
fn the_codes_are_those_of_the_host() {
    assert_eq!(SUCCESS, 0);
    assert_eq!(FAILURE, 1);
    assert_eq!(FAULT, 65);
}
