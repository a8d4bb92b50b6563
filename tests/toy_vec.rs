use toy_vec::ToyVec;

fn fib_five() -> ToyVec<i32> {
    let mut v = ToyVec::new();
    v.push(1);
    v.push(1);
    v.push(2);
    v.push(3);
    v.push(5);
    v
}

#[test]
fn new_is_empty_with_no_slots() {
    let v: ToyVec<i32> = ToyVec::new();
    assert_eq!(v.len(), 0);
    assert_eq!(v.capacity(), 0);
    assert_eq!(v.get(0), None);
}

#[test]
fn with_capacity_allocates_slots_only() {
    let v: ToyVec<i32> = ToyVec::with_capacity(5);
    assert_eq!(v.len(), 0);
    assert_eq!(v.capacity(), 5);
    assert_eq!(v.get(0), None);
}

#[test]
fn allocate_in_heap_fills_with_defaults() {
    let b: Vec<String> = ToyVec::<String>::allocate_in_heap(3);
    assert_eq!(b, vec![String::new(), String::new(), String::new()]);
    let e: Vec<u8> = ToyVec::<u8>::allocate_in_heap(0);
    assert!(e.is_empty());
}

#[test]
fn pushes_keep_order_and_length() {
    let mut v = ToyVec::new();
    for i in 0..20u64 {
        v.push(i * 3);
        assert_eq!(v.len() as u64, i + 1);
        assert!(v.capacity() as u64 >= i + 1);
    }
    for i in 0..20usize {
        assert_eq!(v.get(i), Some(&(i as u64 * 3)));
    }
}

#[test]
fn get_returns_pushed_strings() {
    let mut v = ToyVec::new();
    v.push("Java Finch".to_string());
    v.push("Budgerigar".to_string());
    let e = v.get(1);
    assert_eq!(e, Some(&"Budgerigar".to_string()));
    assert_eq!(v.len(), 2);
}

#[test]
fn capacity_doubles_on_growth() {
    let mut v = ToyVec::new();
    let mut caps = Vec::new();
    for i in 0..9 {
        v.push(i);
        caps.push(v.capacity());
    }
    assert_eq!(caps, vec![1, 2, 4, 4, 8, 8, 8, 8, 16]);
    for i in 0..9 {
        assert_eq!(v.get(i), Some(&(i as i32)));
    }
}

#[test]
fn push_into_preallocated_slot_keeps_capacity() {
    let mut v = ToyVec::with_capacity(3);
    v.push('a');
    v.push('b');
    v.push('c');
    assert_eq!(v.capacity(), 3);
    v.push('d');
    assert_eq!(v.capacity(), 6);
    assert_eq!(v.get(3), Some(&'d'));
}

#[test]
fn grow_from_zero_and_from_nonzero() {
    let mut v: ToyVec<u8> = ToyVec::new();
    v.grow();
    assert_eq!(v.capacity(), 1);
    assert_eq!(v.len(), 0);
    v.push(7);
    v.grow();
    assert_eq!(v.capacity(), 2);
    v.grow();
    assert_eq!(v.capacity(), 4);
    assert_eq!(v.len(), 1);
    assert_eq!(v.get(0), Some(&7));
}

#[test]
fn pop_undoes_push() {
    let mut v = fib_five();
    v.push(42);
    assert_eq!(v.pop(), Some(42));
    assert_eq!(v.len(), 5);
    assert_eq!(v.get(4), Some(&5));
}

#[test]
fn pop_returns_elements_last_first() {
    let mut v = fib_five();
    assert_eq!(v.pop(), Some(5));
    assert_eq!(v.pop(), Some(3));
    assert_eq!(v.len(), 3);
    assert_eq!(v.capacity(), 8);
    assert_eq!(v.get(3), None);
}

#[test]
fn pop_on_empty_is_absent_and_idempotent() {
    let mut v: ToyVec<i32> = ToyVec::with_capacity(4);
    assert_eq!(v.pop(), None);
    assert_eq!(v.pop(), None);
    assert_eq!(v.len(), 0);
    assert_eq!(v.capacity(), 4);
}

#[test]
fn pop_moves_owned_value_out() {
    let mut v = ToyVec::new();
    v.push("one".to_string());
    v.push("two".to_string());
    assert_eq!(v.pop(), Some("two".to_string()));
    assert_eq!(v.pop(), Some("one".to_string()));
    assert_eq!(v.pop(), None);
}

#[test]
fn get_out_of_range_is_absent() {
    let v = fib_five();
    assert_eq!(v.get(5), None);
    assert_eq!(v.get(7), None);
    assert_eq!(v.get(usize::MAX), None);
}

#[test]
fn get_or_falls_back_only_out_of_range() {
    let v = fib_five();
    let d = -1;
    assert_eq!(*v.get_or(3, &d), 3);
    assert_eq!(*v.get_or(5, &d), -1);
    assert_eq!(*v.get_or(100, &d), -1);
}

#[test]
fn shared_iter_yields_in_order_and_sums() {
    let v = fib_five();
    let mut it = v.iter();
    let mut seen = Vec::new();
    let mut sum = 0;
    while let Some(x) = it.next() {
        seen.push(*x);
        sum += *x;
    }
    assert_eq!(seen, vec![1, 1, 2, 3, 5]);
    assert_eq!(sum, 12);
    assert_eq!(it.next(), None);
    assert_eq!(v.len(), 5);
}

#[test]
fn shared_iter_size_hint_counts_down() {
    let v = fib_five();
    let mut it = v.iter();
    assert_eq!(it.size_hint(), (5, Some(5)));
    it.next();
    it.next();
    assert_eq!(it.size_hint(), (3, Some(3)));
}

#[test]
fn shared_iter_ignores_slack() {
    let mut v = ToyVec::with_capacity(10);
    v.push("a");
    v.push("b");
    let mut it = v.iter();
    assert_eq!(it.next(), Some(&"a"));
    assert_eq!(it.next(), Some(&"b"));
    assert_eq!(it.next(), None);
}

#[test]
fn exclusive_iter_passes_mutate_in_place() {
    let v = fib_five();
    let mut it = v.iter_mut();
    if let Some(x) = it.next() {
        *x *= 8;
    }
    let v = it.into_inner();
    let mut it = v.iter_mut();
    while let Some(x) = it.next() {
        *x += 10;
    }
    let v = it.into_inner();
    let got: Vec<i32> = (0..v.len()).map(|i| *v.get(i).unwrap()).collect();
    assert_eq!(got, vec![18, 11, 12, 13, 15]);
    assert_eq!(v.capacity(), 8);
}

#[test]
fn exclusive_iter_stops_after_last() {
    let mut v = ToyVec::with_capacity(4);
    v.push(1u8);
    let mut it = v.iter_mut();
    assert!(it.next().is_some());
    assert!(it.next().is_none());
    assert!(it.next().is_none());
    assert_eq!(it.into_inner().get(0), Some(&1));
}

#[test]
fn consuming_iter_sums_owned_values() {
    let v = fib_five();
    let mut it = v.into_iter();
    let mut sum = 0;
    while let Some(x) = it.next() {
        sum += x;
    }
    assert_eq!(sum, 12);
    assert_eq!(it.next(), None);
    assert_eq!(it.size_hint(), (0, Some(0)));
}

#[test]
fn consuming_iter_moves_strings_out() {
    let mut v = ToyVec::new();
    v.push("x".to_string());
    v.push("y".to_string());
    let mut it = v.into_iter();
    assert_eq!(it.size_hint(), (2, Some(2)));
    assert_eq!(it.next(), Some("x".to_string()));
    assert_eq!(it.next(), Some("y".to_string()));
    assert_eq!(it.next(), None);
}

#[test]
fn equality_ignores_capacity() {
    let mut a = ToyVec::with_capacity(2);
    let mut b = ToyVec::with_capacity(9);
    for x in [4, 5, 6] {
        a.push(x);
        b.push(x);
    }
    assert!(a == b);
    b.push(7);
    assert!(a != b);
    assert!(b != a);
}

#[test]
fn equality_compares_elements() {
    let mut a = ToyVec::new();
    let mut b = ToyVec::new();
    a.push(1);
    b.push(2);
    assert!(a != b);
    let e1: ToyVec<i32> = ToyVec::new();
    let e2: ToyVec<i32> = ToyVec::with_capacity(3);
    assert!(e1 == e2);
}

#[test]
fn clone_copies_in_use_prefix_only() {
    let v = fib_five();
    let c = v.clone();
    assert!(c == v);
    assert_eq!(c.len(), 5);
    assert_eq!(c.capacity(), 5);
}

#[test]
fn clone_is_independent_of_source() {
    let mut v = ToyVec::new();
    v.push("a".to_string());
    v.push("b".to_string());
    let mut c = v.clone();
    c.push("c".to_string());
    assert_eq!(c.pop(), Some("c".to_string()));
    assert_eq!(c.pop(), Some("b".to_string()));
    assert_eq!(v.len(), 2);
    assert_eq!(v.get(1), Some(&"b".to_string()));
    assert_eq!(v.get(2), None);
}
