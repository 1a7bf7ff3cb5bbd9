use threadid::heap::MinHeap;

#[test]
fn empty_heap_gives_nothing() {
    let mut heap = MinHeap::new();
    assert!(heap.is_empty());
    assert_eq!(heap.len(), 0);
    assert_eq!(heap.peek(), None);
    assert_eq!(heap.pop(), None);
    assert!(!heap.contains(0));
}

#[test]
fn values_come_out_in_ascending_order() {
    let mut heap = MinHeap::new();
    for value in [9, 3, 7, 1, 8, 2, 6, 0, 5, 4] {
        heap.push(value);
    }
    assert_eq!(heap.len(), 10);
    assert_eq!(heap.peek(), Some(0));
    for expected in 0..10 {
        assert_eq!(heap.pop(), Some(expected));
    }
    assert_eq!(heap.pop(), None);
}

#[test]
fn repeated_values_are_kept() {
    let mut heap = MinHeap::new();
    for value in [4, 4, 1, 4, 1] {
        heap.push(value);
    }
    assert_eq!(heap.len(), 5);
    let mut out = Vec::new();
    while let Some(value) = heap.pop() {
        out.push(value);
    }
    assert_eq!(out, vec![1, 1, 4, 4, 4]);
}

#[test]
fn contains_follows_push_and_pop() {
    let mut heap = MinHeap::new();
    heap.push(12);
    heap.push(usize::MAX);
    heap.push(5);
    assert!(heap.contains(12) && heap.contains(5) && heap.contains(usize::MAX));
    assert!(!heap.contains(6));
    assert_eq!(heap.pop(), Some(5));
    assert!(!heap.contains(5));
    assert!(heap.contains(12));
    assert_eq!(heap.peek(), Some(12));
    assert_eq!(heap.len(), 2);
}

#[test]
fn pushes_and_pops_interleave() {
    let mut heap = MinHeap::new();
    let mut model: Vec<usize> = Vec::new();
    let mut seed: usize = 12345;
    for step in 0..2000 {
        seed = seed.wrapping_mul(6364136223846793005).wrapping_add(1442695040888963407);
        let value = (seed >> 33) % 64;
        if step % 3 == 2 {
            model.sort();
            let expected = if model.is_empty() { None } else { Some(model.remove(0)) };
            assert_eq!(heap.pop(), expected);
        } else {
            heap.push(value);
            model.push(value);
        }
        assert_eq!(heap.len(), model.len());
        assert_eq!(heap.peek(), model.iter().copied().min());
    }
}
