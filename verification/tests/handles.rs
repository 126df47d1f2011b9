use pass::Locator;
use pass::Pass;
use pass::PassMut;
use pass::Relocate;
use pass::Store;

#[test]
fn fresh_read_handle_reads_source_for_all_four_sources() {
    let mut store: Store<u64> = Store::new();
    let owned = Pass::from_owned(&mut store, 11);
    let borrowed = Pass::from_borrowed(&mut store, 22);
    let borrowed_mut = Pass::from_borrowed_mut(&mut store, 33);
    let locked = Pass::from_lock(&mut store, 44);
    assert_eq!(*owned.read(&store), 11);
    assert_eq!(*borrowed.read(&store), 22);
    assert_eq!(*borrowed_mut.read(&store), 33);
    assert_eq!(*locked.read(&store), 44);
}

#[test]
fn fresh_write_handle_reads_source_for_all_three_sources() {
    let mut store: Store<u64> = Store::new();
    let owned = PassMut::from_owned(&mut store, 11);
    let borrowed_mut = PassMut::from_borrowed_mut(&mut store, 22);
    let locked = PassMut::from_lock(&mut store, 33);
    assert_eq!(*owned.read(&store), 11);
    assert_eq!(*borrowed_mut.read(&store), 22);
    assert_eq!(*locked.read(&store), 33);
}

#[test]
fn from_locator_reads_source() {
    let mut store: Store<u64> = Store::new();
    let r = Pass::from_locator(&mut store, Locator::ByRef(5));
    let w = PassMut::from_locator(&mut store, Locator::ByRefMut(6));
    assert_eq!(*r.read(&store), 5);
    assert_eq!(*w.read(&store), 6);
}

#[test]
fn clone_observes_write_owned() {
    let mut store: Store<u64> = Store::new();
    let a = PassMut::from_owned(&mut store, 1);
    let b = a.clone();
    *a.write(&mut store) = 2;
    assert_eq!(*b.read(&store), 2);
}

#[test]
fn clone_observes_write_borrowed_mut() {
    let mut store: Store<u64> = Store::new();
    let a = PassMut::from_borrowed_mut(&mut store, 1);
    let b = a.clone();
    *a.write(&mut store) = 2;
    assert_eq!(*b.read(&store), 2);
}

#[test]
fn clone_observes_write_locked() {
    let mut store: Store<u64> = Store::new();
    let a = PassMut::from_lock(&mut store, 1);
    let b = a.clone();
    *a.write(&mut store) = 2;
    assert_eq!(*b.read(&store), 2);
}

#[test]
fn relocation_changes_only_the_relocated_handle() {
    let mut store: Store<u64> = Store::new();
    let mut a = PassMut::from_owned(&mut store, 1);
    let a_prime = a.clone();
    *a.write(&mut store) = 9;
    a.relocate(&mut store, Locator::ByOwned(42));
    assert_eq!(*a.read(&store), 42);
    assert_eq!(*a_prime.read(&store), 9);
}

#[test]
fn read_handle_relocation_accepts_all_four_sources() {
    let mut store: Store<u64> = Store::new();
    let mut a = Pass::from_owned(&mut store, 1);
    let a_prime = a.clone();
    a.relocate(&mut store, Locator::ByRef(2));
    assert_eq!(*a.read(&store), 2);
    a.relocate(&mut store, Locator::ByRefMut(3));
    assert_eq!(*a.read(&store), 3);
    a.relocate(&mut store, Locator::ByLock(4));
    assert_eq!(*a.read(&store), 4);
    a.relocate(&mut store, Locator::ByOwned(5));
    assert_eq!(*a.read(&store), 5);
    assert_eq!(*a_prime.read(&store), 1);
}

#[test]
fn write_handle_relocation_accepts_the_three_mutation_capable_sources() {
    let mut store: Store<u64> = Store::new();
    let mut a = PassMut::from_owned(&mut store, 1);
    a.relocate(&mut store, Locator::ByRefMut(2));
    assert_eq!(*a.read(&store), 2);
    a.relocate(&mut store, Locator::ByLock(3));
    assert_eq!(*a.read(&store), 3);
    a.relocate(&mut store, Locator::ByOwned(4));
    assert_eq!(*a.read(&store), 4);
    *a.write(&mut store) = 5;
    assert_eq!(*a.read(&store), 5);
}

#[test]
fn downgraded_handle_observes_writes_until_relocation() {
    let mut store: Store<u64> = Store::new();
    let mut w = PassMut::from_owned(&mut store, 1);
    let r = w.downgrade();
    *w.write(&mut store) = 2;
    assert_eq!(*r.read(&store), 2);
    w.relocate(&mut store, Locator::ByOwned(3));
    *w.write(&mut store) = 4;
    assert_eq!(*w.read(&store), 4);
    assert_eq!(*r.read(&store), 2);
}

#[test]
fn write_then_downgrade_then_relocate_scenario() {
    let mut store: Store<u64> = Store::new();
    let mut w = PassMut::from_owned(&mut store, 5);
    *w.write(&mut store) = 7;
    let r = w.downgrade();
    assert_eq!(*r.read(&store), 7);
    w.relocate(&mut store, Locator::ByOwned(42));
    assert_eq!(*r.read(&store), 7);
    let r_fresh = w.downgrade();
    assert_eq!(*r_fresh.read(&store), 42);
}

#[test]
fn lock_backed_clones_read_alike_and_the_lock_is_released_once() {
    let counter = std::sync::Mutex::new(10u64);
    let mut store: Store<u64> = Store::new();
    {
        let guard = counter.lock().unwrap();
        let h1 = Pass::from_lock(&mut store, *guard);
        let h2 = h1.clone();
        let h3 = h2.clone();
        let h4 = h3.clone();
        assert_eq!(*h1.read(&store), 10);
        assert_eq!(*h2.read(&store), 10);
        assert_eq!(*h3.read(&store), 10);
        assert_eq!(*h4.read(&store), 10);
        drop(h1);
        drop(h2);
        drop(h3);
        drop(h4);
    }
    let reacquired = counter.lock().unwrap();
    assert_eq!(*reacquired, 10);
}

#[test]
fn handles_work_with_non_copy_values() {
    let mut store: Store<String> = Store::new();
    let w = PassMut::from_owned(&mut store, String::from("first"));
    let r = w.downgrade();
    assert_eq!(r.read(&store).as_str(), "first");
    *w.write(&mut store) = String::from("second");
    assert_eq!(r.read(&store).as_str(), "second");
}

#[test]
fn write_keeps_the_active_variant() {
    let mut store: Store<u64> = Store::new();
    let w = PassMut::from_lock(&mut store, 1);
    *w.write(&mut store) = 2;
    let observer = w.downgrade();
    assert_eq!(*observer.read(&store), 2);
    *w.write(&mut store) = 3;
    assert_eq!(*observer.read(&store), 3);
}

#[test]
fn store_len_counts_allocated_cells() {
    let mut store: Store<u64> = Store::new();
    assert_eq!(store.len(), 0);
    let _a = Pass::from_owned(&mut store, 1);
    assert_eq!(store.len(), 1);
    let mut b = PassMut::from_lock(&mut store, 2);
    assert_eq!(store.len(), 2);
    b.relocate(&mut store, Locator::ByOwned(3));
    assert_eq!(store.len(), 3);
    let _c = b.downgrade();
    let _d = b.clone();
    assert_eq!(store.len(), 3);
}
