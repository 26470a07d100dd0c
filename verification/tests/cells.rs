use core::cmp::Ordering;
use kroos::Flake;
use kroos::FlakeHeap;

#[test]
fn flake_from_str() {
    let mut heap = FlakeHeap::new();
    let input: &str = "hello";
    let flake = Flake::new(&mut heap, input.as_bytes());
    assert_eq!(flake.get(&heap).as_slice(), "hello".as_bytes());
    assert_eq!(flake.get(&heap).as_slice(), "hello".as_bytes());
}

#[test]
fn flake_from_slice() {
    let mut heap = FlakeHeap::new();
    let slice: &[u8] = &[1, 2, 3, 4];
    let flake = Flake::new(&mut heap, slice);
    assert_eq!(flake.get(&heap).as_slice(), &[1, 2, 3, 4]);
}

#[test]
fn flake_eq_cmp_ord() {
    let mut heap = FlakeHeap::new();
    let a = Flake::new(&mut heap, "abc".as_bytes());
    let b = Flake::new(&mut heap, "abc".as_bytes());
    let c = Flake::new(&mut heap, "xyz".as_bytes());

    assert!(a != b); // different blocks
    assert_eq!(a.get(&heap), b.get(&heap)); // same contents
    assert_eq!(a.cmp(&c, &heap), Ordering::Less);
}

#[test]
fn flake_mutate_bytes() {
    let mut heap = FlakeHeap::new();
    let slice: &[u8] = &[1, 2, 3];
    let flake = Flake::new(&mut heap, slice);

    let ptr = flake.as_mut_ptr();
    heap.write(ptr, 1, 9);

    assert_eq!(flake.get(&heap).as_slice(), &[1, 9, 3]);
}

#[test]
fn flake_steal_string() {
    let mut heap = FlakeHeap::new();
    let string = String::from("yo");
    let flake = Flake::steal(&mut heap, string.into_bytes());
    assert_eq!(flake.get(&heap).as_slice(), "yo".as_bytes());
}

#[test]
fn flake_from_raw_manual() {
    let mut heap = FlakeHeap::new();
    let slice: &[u8] = &[10, 20, 30];

    let raw = heap.allocate(slice.len());
    assert!(heap.live(raw));
    let mut i = 0;
    while i < slice.len() {
        heap.write(raw, i, slice[i]);
        i += 1;
    }

    let flake = Flake::from_raw(raw);
    assert_eq!(flake.get(&heap).as_slice(), &[10, 20, 30]);
}

#[test]
fn flake_distinct_blocks_from_equal_input() {
    let mut heap = FlakeHeap::new();
    let a = Flake::new(&mut heap, "hello".as_bytes());
    let b = Flake::new(&mut heap, "hello".as_bytes());
    assert_ne!(a.as_ptr(), b.as_ptr());
    assert!(a != b);
    assert_eq!(a.get(&heap), b.get(&heap));
}

#[test]
fn flake_free_deallocates() {
    let mut heap = FlakeHeap::new();
    let flake = Flake::new(&mut heap, &[42]);
    let addr = flake.as_ptr();
    assert!(heap.live(addr));
    flake.free(&mut heap);
    assert!(!heap.live(addr));
    assert!(!heap.dropped(addr)); // the payload destructor never ran
}

#[test]
fn flake_drop_inner_runs_once() {
    let mut heap = FlakeHeap::new();
    let flake = Flake::steal(&mut heap, vec![7, 8]);
    let addr = flake.as_ptr();
    assert!(!heap.dropped(addr));
    flake.drop_inner(&mut heap);
    assert!(heap.dropped(addr));
    flake.free(&mut heap);
    assert!(heap.dropped(addr));
}

#[test]
fn flake_empty_payload() {
    let mut heap = FlakeHeap::new();
    let empty: &[u8] = &[];
    let flake = Flake::new(&mut heap, empty);
    assert_eq!(flake.get(&heap).len(), 0);
    assert_eq!(flake.cmp(&flake, &heap), Ordering::Equal);
}
