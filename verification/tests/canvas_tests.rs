use canvas::Canvas;

#[test]
fn new_fills_every_cell() {
    let c = Canvas::new(4, 3, 7u32);
    assert_eq!(c.width, 4);
    assert_eq!(c.height, 3);
    assert_eq!(c.data.len(), 12);
    for row in 0..3 {
        for col in 0..4 {
            assert_eq!(c.get(row, col), Some(&7));
        }
    }
}

#[test]
fn new_with_zero_dimension_is_empty() {
    let wide: Canvas<u8> = Canvas::new(5, 0, 1);
    assert_eq!(wide.data.len(), 0);
    assert_eq!(wide.get(0, 0), None);
    let tall: Canvas<u8> = Canvas::new(0, 5, 1);
    assert_eq!(tall.data.len(), 0);
    assert_eq!(tall.get(0, 0), None);
    assert_eq!(tall.iter().count(), 0);
}

#[test]
fn fill_duplicates_are_independent() {
    let mut c = Canvas::new(2, 1, String::from("bg"));
    if let Some(cell) = c.get_mut(0, 0) {
        cell.push('!');
    }
    assert_eq!(c.get(0, 0), Some(&String::from("bg!")));
    assert_eq!(c.get(0, 1), Some(&String::from("bg")));
}

#[test]
fn mutation_is_local() {
    let mut c = Canvas::new(3, 2, 0i32);
    if let Some(cell) = c.get_mut(1, 1) {
        *cell = 42;
    }
    assert_eq!(c.get(1, 1), Some(&42));
    for row in 0..2 {
        for col in 0..3 {
            if (row, col) != (1, 1) {
                assert_eq!(c.get(row, col), Some(&0));
            }
        }
    }
}

#[test]
fn out_of_range_is_absent() {
    let c = Canvas::new(3, 2, 1u8);
    // row == height, col < width: past the buffer.
    assert_eq!(c.get(2, 0), None);
    assert_eq!(c.get(5, 2), None);
    // cross-row overflow that reaches the end of the buffer.
    assert_eq!(c.get(1, 3), None);
    // in-row overflow short of the end is lenient: index 4 lands in row 1.
    assert_eq!(c.get(0, 4), Some(&1));
    // index arithmetic past usize range is caught, not wrapped.
    assert_eq!(c.get(usize::MAX, usize::MAX), None);
    assert_eq!(c.get(usize::MAX / 3 + 1, 0), None);
}

#[test]
fn get_mut_out_of_range_is_absent() {
    let mut c = Canvas::new(3, 2, 1u8);
    assert!(c.get_mut(2, 0).is_none());
    assert!(c.get_mut(1, 3).is_none());
    assert!(c.get_mut(usize::MAX, usize::MAX).is_none());
    // the lenient in-row spill mutates the cell of the next row it lands on.
    if let Some(cell) = c.get_mut(0, 4) {
        *cell = 9;
    }
    assert_eq!(c.get(1, 1), Some(&9));
}

#[test]
fn iter_is_row_major_and_restartable() {
    let mut c = Canvas::new(2, 2, 0u64);
    if let Some(cell) = c.get_mut(0, 1) {
        *cell = 1;
    }
    if let Some(cell) = c.get_mut(1, 0) {
        *cell = 2;
    }
    if let Some(cell) = c.get_mut(1, 1) {
        *cell = 3;
    }
    let first: Vec<u64> = c.iter().copied().collect();
    let second: Vec<u64> = c.iter().copied().collect();
    assert_eq!(first, vec![0, 1, 2, 3]);
    assert_eq!(first, second);
    assert_eq!(c.iter().count(), 4);
}

#[test]
fn overwrite_all_then_scan() {
    let mut c = Canvas::new(3, 3, 0i32);
    for cell in c.iter_mut() {
        *cell = 5;
    }
    assert_eq!(c.iter().count(), 9);
    assert!(c.iter().all(|cell| *cell == 5));
}

#[test]
fn iter_mut_keeps_row_major_order() {
    let mut c = Canvas::new(3, 2, 0usize);
    let mut next: usize = 0;
    for cell in c.iter_mut() {
        *cell = next;
        next += 1;
    }
    assert_eq!(c.get(0, 0), Some(&0));
    assert_eq!(c.get(0, 2), Some(&2));
    assert_eq!(c.get(1, 0), Some(&3));
    assert_eq!(c.get(1, 2), Some(&5));
    assert_eq!(c.data, vec![0, 1, 2, 3, 4, 5]);
}

#[test]
fn scenario_three_by_two() {
    let mut c = Canvas::new(3, 2, 0i32);
    assert_eq!(c.data, vec![0, 0, 0, 0, 0, 0]);
    assert_eq!(c.get(1, 2), Some(&0));
    assert_eq!(c.get(2, 0), None);
    if let Some(cell) = c.get_mut(0, 1) {
        *cell = 9;
    }
    assert_eq!(c.get(0, 1), Some(&9));
    let scanned: Vec<i32> = c.iter().copied().collect();
    assert_eq!(scanned, vec![0, 9, 0, 0, 0, 0]);
}

#[test]
fn canvas_clones_as_a_whole() {
    let c = Canvas::new(2, 2, 1u8);
    let mut copy = c.clone();
    if let Some(cell) = copy.get_mut(0, 0) {
        *cell = 9;
    }
    assert_eq!(copy.width, 2);
    assert_eq!(copy.height, 2);
    assert_eq!(copy.get(0, 0), Some(&9));
    assert_eq!(c.get(0, 0), Some(&1));
}
