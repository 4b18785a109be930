use file_dialog::paginator::{count_pages, PageMove, Paginator, COLS, PER_PAGE, ROWS};

#[test]
fn grid_has_forty_cells() {
    assert_eq!(COLS, 5);
    assert_eq!(ROWS, 8);
    assert_eq!(PER_PAGE, COLS * ROWS);
}

#[test]
fn empty_listing_has_one_page() {
    assert_eq!(count_pages(0, 40), 1);
    let p = Paginator::new(0, 40);
    assert_eq!(p.pages(), 1);
    assert_eq!(p.current(), 1);
    assert_eq!(p.start(), 0);
    assert_eq!(p.end(), 0);
}

#[test]
fn page_count_rounds_up() {
    assert_eq!(count_pages(1, 40), 1);
    assert_eq!(count_pages(39, 40), 1);
    assert_eq!(count_pages(40, 40), 1);
    assert_eq!(count_pages(41, 40), 2);
    assert_eq!(count_pages(80, 40), 2);
    assert_eq!(count_pages(81, 40), 3);
    assert_eq!(count_pages(7, 1), 7);
    assert_eq!(count_pages(7, 3), 3);
    assert_eq!(count_pages(usize::MAX, 1), usize::MAX);
    assert_eq!(count_pages(usize::MAX, 2), usize::MAX / 2 + 1);
    assert_eq!(count_pages(usize::MAX, usize::MAX), 1);
}

#[test]
fn prev_page_at_first_page_is_a_no_op() {
    let mut p = Paginator::new(100, 40);
    assert_eq!(p.current(), 1);
    p.prev_page();
    assert_eq!(p.current(), 1);
    assert_eq!(p.pages(), 3);
}

#[test]
fn next_page_at_last_page_is_a_no_op() {
    let mut p = Paginator::new(100, 40);
    p.next_page();
    p.next_page();
    assert_eq!(p.current(), 3);
    p.next_page();
    assert_eq!(p.current(), 3);
    assert_eq!(p.pages(), 3);
}

#[test]
fn current_page_stays_in_range_over_a_walk() {
    let mut p = Paginator::new(95, 10);
    assert_eq!(p.pages(), 10);
    let walk = [
        PageMove::Prev,
        PageMove::Next,
        PageMove::Next,
        PageMove::Prev,
        PageMove::Prev,
        PageMove::Prev,
        PageMove::Next,
    ];
    for round in 0..5 {
        for step in walk.iter() {
            p.step(*step);
            assert!(1 <= p.current() && p.current() <= p.pages());
        }
        for _ in 0..(round * 4) {
            p.next_page();
            assert!(1 <= p.current() && p.current() <= p.pages());
        }
    }
    assert_eq!(p.current(), 10);
    assert_eq!(p.len(), 95);
    assert_eq!(p.capacity(), 10);
}

#[test]
fn pages_are_consecutive_slices() {
    let mut p = Paginator::new(95, 40);
    assert_eq!((p.start(), p.end()), (0, 40));
    p.next_page();
    assert_eq!((p.start(), p.end()), (40, 80));
    p.next_page();
    assert_eq!((p.start(), p.end()), (80, 95));
    p.prev_page();
    assert_eq!((p.start(), p.end()), (40, 80));
}

#[test]
fn full_last_page_ends_at_the_listing() {
    let mut p = Paginator::new(80, 40);
    assert_eq!(p.pages(), 2);
    p.next_page();
    assert_eq!((p.start(), p.end()), (40, 80));
}
