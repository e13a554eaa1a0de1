use prezpack::flatten::{FlattenError, Flattener};

#[test]
fn roots_take_the_first_indices_in_order() {
    let mut flat = Flattener::new();
    assert_eq!(flat.push_root(false), Ok(0));
    assert_eq!(flat.push_root(true), Ok(1));
    assert_eq!(flat.push_root(false), Ok(2));
    assert_eq!(flat.root_count(), 3);
    assert_eq!(flat.len(), 3);
    for index in 0..3u32 {
        assert_eq!(flat.node(index).unwrap().parent, None);
    }
    assert!(flat.node(3).is_none());
}

#[test]
fn children_follow_everything_queued() {
    let mut flat = Flattener::new();
    flat.push_root(true).unwrap();
    flat.push_root(true).unwrap();
    flat.push_root(false).unwrap();
    // The first root is popped with two entries still queued behind it.
    assert_eq!(flat.pop(), Ok(Some(0)));
    assert!(flat.is_open());
    assert_eq!(flat.node(0).unwrap().first_child, 3);
    assert_eq!(flat.child_count(0), None);
    assert_eq!(flat.push_child(false), Ok(3));
    assert_eq!(flat.push_child(true), Ok(4));
    assert_eq!(flat.close(), Ok(2));
    assert_eq!(flat.child_count(0), Some(2));
    // The second root: its children come behind those of the first.
    assert_eq!(flat.pop(), Ok(Some(1)));
    assert_eq!(flat.node(1).unwrap().first_child, 5);
    assert_eq!(flat.push_child(false), Ok(5));
    assert_eq!(flat.close(), Ok(1));
    assert_eq!(flat.pop(), Ok(Some(2)));
    assert_eq!(flat.pop(), Ok(Some(3)));
    // The directory at 4 is empty.
    assert_eq!(flat.pop(), Ok(Some(4)));
    assert_eq!(flat.node(4).unwrap().first_child, 6);
    assert_eq!(flat.close(), Ok(0));
    assert_eq!(flat.child_count(4), Some(0));
    assert_eq!(flat.pop(), Ok(Some(5)));
    assert_eq!(flat.pop(), Ok(None));
    assert!(flat.is_finished());
    assert_eq!(flat.popped(), 6);
    let parents: Vec<Option<u32>> = (0..6u32).map(|i| flat.node(i).unwrap().parent).collect();
    assert_eq!(parents, vec![None, None, None, Some(0), Some(0), Some(1)]);
    assert_eq!(flat.root_count(), 3);
}

#[test]
fn child_count_is_deferred_until_close() {
    let mut flat = Flattener::new();
    flat.push_root(true).unwrap();
    flat.pop().unwrap();
    let bound = flat.node(0).unwrap().child_count.unwrap();
    assert_eq!(flat.cells().resolve(bound), None);
    assert_eq!(flat.cells().get(bound), 0);
    flat.push_child(false).unwrap();
    flat.push_child(false).unwrap();
    flat.push_child(false).unwrap();
    assert_eq!(flat.cells().resolve(bound), None);
    flat.close().unwrap();
    assert_eq!(flat.cells().resolve(bound), Some(3));
    assert!(flat.cells().is_complete());
}

#[test]
fn operations_out_of_turn_are_refused() {
    let mut flat = Flattener::new();
    assert_eq!(flat.push_child(false), Err(FlattenError::NoDirectoryOpen));
    assert_eq!(flat.close(), Err(FlattenError::NoDirectoryOpen));
    assert_eq!(flat.pop(), Ok(None));
    flat.push_root(true).unwrap();
    assert_eq!(flat.pop(), Ok(Some(0)));
    assert_eq!(flat.pop(), Err(FlattenError::DirectoryOpen));
    assert_eq!(flat.push_root(false), Err(FlattenError::NotSeeding));
    flat.close().unwrap();
    assert_eq!(flat.push_root(false), Err(FlattenError::NotSeeding));
    assert_eq!(flat.len(), 1);
}

#[test]
fn leaves_are_not_opened() {
    let mut flat = Flattener::new();
    flat.push_root(false).unwrap();
    assert_eq!(flat.pop(), Ok(Some(0)));
    assert!(!flat.is_open());
    assert_eq!(flat.child_count(0), None);
    assert!(flat.node(0).unwrap().child_count.is_none());
    assert!(flat.is_finished());
}
