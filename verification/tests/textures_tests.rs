use kiss3d::textures::TexturesManager;
use std::cell::Cell;

#[test]
fn textures_are_created_once_per_name() {
    let mut tm = TexturesManager::new(1);
    assert_eq!(tm.get_default(), 1);
    assert_eq!(tm.get("grass"), None);
    let created = Cell::new(0u32);
    let next = Cell::new(10u32);
    let make = || {
        created.set(created.get() + 1);
        next.set(next.get() + 1);
        next.get()
    };
    let a = tm.add_empty("grass", make);
    assert_eq!(a, 11);
    assert_eq!(tm.get("grass"), Some(11));
    let make_again = || {
        created.set(created.get() + 1);
        99
    };
    assert_eq!(tm.add_empty("grass", make_again), 11);
    assert_eq!(created.get(), 1);
    assert_eq!(tm.add_empty("rock", || 12), 12);
    assert_eq!(tm.get("rock"), Some(12));
    assert_eq!(tm.get("grass"), Some(11));
    assert_eq!(tm.get("sand"), None);
}
