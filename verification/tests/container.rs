use rustapi::container::{from_downcast, Container, NotRegistered};
use std::any::Any;
use std::sync::atomic::{AtomicUsize, Ordering};
use std::sync::Arc;

type Factory<V> = Box<dyn Fn() -> V>;

const DATABASE: u64 = 10;
const MAILER: u64 = 11;
const CLOCK: u64 = 12;

fn counting_factory(counter: &Arc<AtomicUsize>, value: u32) -> Factory<u32> {
    let counter = Arc::clone(counter);
    Box::new(move || {
        counter.fetch_add(1, Ordering::SeqCst);
        value
    })
}

#[test]
fn resolve_on_empty_container_is_not_registered() {
    let container: Container<u32, Factory<u32>> = Container::new();
    let outcome = container.resolve(DATABASE);
    assert_eq!(outcome, Err(NotRegistered { requested_type: DATABASE }));
}

#[test]
fn resolve_of_unregistered_type_names_the_type() {
    let mut container: Container<u32, Factory<u32>> = Container::new();
    container.register_instance(DATABASE, 1);
    container.register_factory(MAILER, Box::new(|| 2));
    let outcome = container.resolve(CLOCK);
    assert_eq!(outcome.unwrap_err().requested_type, CLOCK);
}

#[test]
fn instance_resolves_to_the_registered_value() {
    let mut container: Container<String, Factory<String>> = Container::new();
    container.register_instance(DATABASE, String::from("postgres"));
    let handle = container.resolve(DATABASE).unwrap();
    assert_eq!(*handle, "postgres");
}

#[test]
fn instance_handles_share_one_value_on_every_call() {
    let mut container: Container<String, Factory<String>> = Container::new();
    container.register_instance(DATABASE, String::from("postgres"));
    let first = container.resolve(DATABASE).unwrap();
    let second = container.resolve(DATABASE).unwrap();
    let third = container.resolve(DATABASE).unwrap();
    assert!(Arc::ptr_eq(&first, &second));
    assert!(Arc::ptr_eq(&second, &third));
    assert_eq!(*third, "postgres");
}

#[test]
fn factory_is_not_run_by_registration() {
    let counter = Arc::new(AtomicUsize::new(0));
    let mut container: Container<u32, Factory<u32>> = Container::new();
    container.register_factory(MAILER, counting_factory(&counter, 7));
    assert_eq!(counter.load(Ordering::SeqCst), 0);
}

#[test]
fn factory_constructs_anew_on_every_resolution() {
    let counter = Arc::new(AtomicUsize::new(0));
    let mut container: Container<u32, Factory<u32>> = Container::new();
    container.register_factory(MAILER, counting_factory(&counter, 7));
    let first = container.resolve(MAILER).unwrap();
    let second = container.resolve(MAILER).unwrap();
    let third = container.resolve(MAILER).unwrap();
    assert_eq!(counter.load(Ordering::SeqCst), 3);
    assert_eq!((*first, *second, *third), (7, 7, 7));
    assert!(!Arc::ptr_eq(&first, &second));
    assert!(!Arc::ptr_eq(&second, &third));
}

#[test]
fn factory_runs_once_per_resolution() {
    let counter = Arc::new(AtomicUsize::new(0));
    let mut container: Container<u32, Factory<u32>> = Container::new();
    container.register_factory(MAILER, counting_factory(&counter, 7));
    container.resolve(MAILER).unwrap();
    assert_eq!(counter.load(Ordering::SeqCst), 1);
    container.resolve(MAILER).unwrap();
    assert_eq!(counter.load(Ordering::SeqCst), 2);
}

#[test]
fn failed_resolution_runs_no_factory() {
    let counter = Arc::new(AtomicUsize::new(0));
    let mut container: Container<u32, Factory<u32>> = Container::new();
    container.register_factory(MAILER, counting_factory(&counter, 7));
    assert!(container.resolve(CLOCK).is_err());
    assert_eq!(counter.load(Ordering::SeqCst), 0);
}

#[test]
fn second_instance_replaces_the_first() {
    let mut container: Container<&'static str, Factory<&'static str>> = Container::new();
    container.register_instance(DATABASE, "A");
    container.register_instance(DATABASE, "B");
    assert_eq!(*container.resolve(DATABASE).unwrap(), "B");
    assert_eq!(*container.resolve(DATABASE).unwrap(), "B");
}

#[test]
fn factory_replaces_instance_and_instance_replaces_factory() {
    let counter = Arc::new(AtomicUsize::new(0));
    let mut container: Container<u32, Factory<u32>> = Container::new();
    container.register_instance(MAILER, 1);
    container.register_factory(MAILER, counting_factory(&counter, 2));
    assert_eq!(*container.resolve(MAILER).unwrap(), 2);
    assert_eq!(counter.load(Ordering::SeqCst), 1);
    container.register_instance(MAILER, 3);
    assert_eq!(*container.resolve(MAILER).unwrap(), 3);
    assert_eq!(counter.load(Ordering::SeqCst), 1);
}

#[test]
fn registration_leaves_other_types_alone() {
    let mut container: Container<u32, Factory<u32>> = Container::new();
    container.register_instance(DATABASE, 100);
    container.register_factory(MAILER, Box::new(|| 200));
    container.register_instance(CLOCK, 300);
    container.register_instance(DATABASE, 101);
    assert_eq!(*container.resolve(DATABASE).unwrap(), 101);
    assert_eq!(*container.resolve(MAILER).unwrap(), 200);
    assert_eq!(*container.resolve(CLOCK).unwrap(), 300);
}

#[test]
fn extreme_type_keys_are_ordinary_keys() {
    let mut container: Container<u32, Factory<u32>> = Container::new();
    container.register_instance(0, 1);
    container.register_instance(u64::MAX, 2);
    assert_eq!(*container.resolve(0).unwrap(), 1);
    assert_eq!(*container.resolve(u64::MAX).unwrap(), 2);
    assert_eq!(container.resolve(1).unwrap_err(), NotRegistered { requested_type: 1 });
}

#[test]
fn many_types_are_all_found_again() {
    let mut container: Container<u64, Factory<u64>> = Container::new();
    for key in 0..200u64 {
        container.register_instance(key, key * 3);
    }
    for key in 0..200u64 {
        assert_eq!(*container.resolve(key).unwrap(), key * 3);
    }
    assert!(container.resolve(200).is_err());
}

struct Database {
    url: &'static str,
}

struct Mailer {
    sender: &'static str,
}

type Erased = Box<dyn Any>;

fn as_database(handle: Arc<Erased>) -> Option<&'static str> {
    handle.downcast_ref::<Database>().map(|database| database.url)
}

fn as_mailer(handle: Arc<Erased>) -> Option<&'static str> {
    handle.downcast_ref::<Mailer>().map(|mailer| mailer.sender)
}

#[test]
fn resolve_as_recovers_the_concrete_type() {
    let mut container: Container<Erased, Factory<Erased>> = Container::new();
    container.register_instance(DATABASE, Box::new(Database { url: "postgres://db" }));
    container.register_factory(MAILER, Box::new(|| Box::new(Mailer { sender: "noreply" }) as Erased));
    assert_eq!(container.resolve_as(DATABASE, as_database), Ok("postgres://db"));
    assert_eq!(container.resolve_as(MAILER, as_mailer), Ok("noreply"));
}

#[test]
fn resolve_as_of_another_type_is_not_registered() {
    let mut container: Container<Erased, Factory<Erased>> = Container::new();
    container.register_instance(DATABASE, Box::new(Mailer { sender: "noreply" }));
    assert_eq!(
        container.resolve_as(DATABASE, as_database),
        Err(NotRegistered { requested_type: DATABASE })
    );
}

#[test]
fn resolve_as_without_entry_is_not_registered() {
    let container: Container<Erased, Factory<Erased>> = Container::new();
    assert_eq!(
        container.resolve_as(MAILER, as_mailer),
        Err(NotRegistered { requested_type: MAILER })
    );
}

#[test]
fn from_downcast_keeps_a_found_value_and_names_a_missing_one() {
    assert_eq!(from_downcast(CLOCK, Some(5u8)), Ok(5u8));
    assert_eq!(from_downcast::<u8>(CLOCK, None), Err(NotRegistered { requested_type: CLOCK }));
}
