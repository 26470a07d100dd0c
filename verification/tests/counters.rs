use kroos::Counter;

#[test]
fn counter_u8_lifecycle() {
    let mut c: u8 = Counter::new();
    assert_eq!(c, 1);
    c.increment();
    assert_eq!(c, 2);
    assert!(!c.decrement());
    assert_eq!(c, 1);
    assert!(c.decrement());
    assert_eq!(c, 0);
}

#[test]
fn counter_u16_lifecycle() {
    let mut c: u16 = Counter::new();
    assert_eq!(c, 1);
    c.increment();
    c.increment();
    assert_eq!(c, 3);
    assert!(!c.decrement());
    assert!(!c.decrement());
    assert!(c.decrement());
}

#[test]
fn counter_u32_lifecycle() {
    let mut c: u32 = Counter::new();
    assert!(c.decrement());
    assert_eq!(c, 0);
}

#[test]
fn counter_u64_lifecycle() {
    let mut c: u64 = Counter::new();
    c.increment();
    assert!(!c.decrement());
    assert!(c.decrement());
}

#[test]
fn counter_u128_lifecycle() {
    let mut c: u128 = Counter::new();
    assert_eq!(c, 1);
    c.increment();
    assert_eq!(c, 2);
}

#[test]
fn counter_usize_lifecycle() {
    let mut c: usize = Counter::new();
    c.increment();
    c.increment();
    assert!(!c.decrement());
    assert!(!c.decrement());
    assert!(c.decrement());
    assert_eq!(c, 0);
}
