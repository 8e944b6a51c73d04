use reservation::{Id, PageInfo, Pager, Paginator};
use std::collections::VecDeque;

pub struct TestId(i64);

impl Id for TestId {
    fn id(&self) -> i64 {
        self.0
    }
}

pub fn generate_test_ids(start: i64, end: i64) -> VecDeque<TestId> {
    (start..=end).map(TestId).collect()
}

fn ids(data: &VecDeque<TestId>) -> Vec<i64> {
    data.iter().map(|v| v.0).collect()
}

#[test]
fn paginator_should_work() {
    // first page
    let page = PageInfo {
        cursor: None,
        page_size: 10,
        desc: false,
    };

    // assume we got 11 items from db
    let mut items = generate_test_ids(1, 11);
    let pager = page.get_pager(&mut items);
    assert!(pager.prev.is_none());
    assert_eq!(pager.next, Some(10));

    {
        let prev_page = page.prev_page(&pager);
        assert!(prev_page.is_none());
    }

    // second page
    let page = page.next_page(&pager).unwrap();
    let mut items = generate_test_ids(10, 21);
    let pager = page.get_pager(&mut items);
    assert_eq!(pager.prev, Some(11));
    assert_eq!(pager.next, Some(20));

    {
        let prev_page = page.prev_page(&pager);
        assert_eq!(prev_page.unwrap().cursor, Some(11));
    }

    // third page
    let page = page.next_page(&pager).unwrap();
    let mut items = generate_test_ids(20, 25);
    let pager = page.get_pager(&mut items);
    assert_eq!(pager.prev, Some(21));
    assert!(pager.next.is_none());

    {
        let prev_page = page.prev_page(&pager);
        assert_eq!(prev_page.unwrap().cursor, Some(21));
    }
}

/// What a storage holding the ids 1 to `count` returns for an ascending page.
fn fetch(count: i64, page: &PageInfo) -> VecDeque<TestId> {
    let from = page.cursor.unwrap_or(0).max(1);
    let limit = page.page_size + 1 + if page.cursor.is_some() { 1 } else { 0 };
    let to = (from + limit - 1).min(count);
    generate_test_ids(from, to)
}

#[test]
fn twenty_five_rows_make_pages_of_ten_ten_and_five() {
    let first = PageInfo { cursor: None, page_size: 10, desc: false };
    let mut rows = fetch(25, &first);
    let first_pager = first.get_pager(&mut rows);
    assert_eq!(ids(&rows), (1..=10).collect::<Vec<i64>>());
    assert_eq!(first_pager, Pager { prev: None, next: Some(10), total: None });

    let second = first.next_page(&first_pager).unwrap();
    assert_eq!(second.cursor, first_pager.next);
    assert_eq!(second, PageInfo { cursor: Some(10), page_size: 10, desc: false });
    let mut rows = fetch(25, &second);
    let second_pager = second.get_pager(&mut rows);
    assert_eq!(ids(&rows), (11..=20).collect::<Vec<i64>>());
    assert_eq!(second_pager, Pager { prev: Some(11), next: Some(20), total: None });

    let back = second.prev_page(&second_pager).unwrap();
    assert_eq!(back, PageInfo { cursor: Some(11), page_size: 10, desc: false });

    let third = second.next_page(&second_pager).unwrap();
    assert_eq!(third.cursor, second_pager.next);
    let mut rows = fetch(25, &third);
    let third_pager = third.get_pager(&mut rows);
    assert_eq!(ids(&rows), (21..=25).collect::<Vec<i64>>());
    assert_eq!(third_pager, Pager { prev: Some(21), next: None, total: None });
    assert!(third.next_page(&third_pager).is_none());
}

#[test]
fn first_page_has_a_next_only_past_a_full_page() {
    for count in 0..=30 {
        let page = PageInfo { cursor: None, page_size: 10, desc: false };
        let mut rows = fetch(count, &page);
        let pager = page.get_pager(&mut rows);
        assert!(rows.len() <= 10);
        assert_eq!(rows.len() as i64, count.min(10));
        assert_eq!(pager.prev, None);
        assert_eq!(pager.next.is_some(), count > 10);
        assert_eq!(pager.total, None);
    }
}

#[test]
fn single_page_has_no_neighbours() {
    let page = PageInfo { cursor: None, page_size: 10, desc: false };
    let mut rows = generate_test_ids(1, 3);
    let pager = page.get_pager(&mut rows);
    assert_eq!(ids(&rows), vec![1, 2, 3]);
    assert_eq!(pager, Pager { prev: None, next: None, total: None });
    assert!(page.next_page(&pager).is_none());
    assert!(page.prev_page(&pager).is_none());
}

#[test]
fn cursor_row_alone_leaves_an_empty_page() {
    let page = PageInfo { cursor: Some(7), page_size: 10, desc: false };
    let mut rows = generate_test_ids(7, 7);
    let pager = page.get_pager(&mut rows);
    assert!(rows.is_empty());
    assert_eq!(pager, Pager { prev: None, next: None, total: None });

    let mut rows: VecDeque<TestId> = VecDeque::new();
    let pager = page.get_pager(&mut rows);
    assert!(rows.is_empty());
    assert_eq!(pager, Pager { prev: None, next: None, total: None });
}

#[test]
fn descending_pages_use_the_ids_in_window_order() {
    let page = PageInfo { cursor: Some(30), page_size: 3, desc: true };
    let mut rows: VecDeque<TestId> = vec![30, 29, 28, 27, 26].into_iter().map(TestId).collect();
    let pager = page.get_pager(&mut rows);
    assert_eq!(ids(&rows), vec![29, 28, 27]);
    assert_eq!(pager, Pager { prev: Some(29), next: Some(27), total: None });
    assert_eq!(
        page.next_page(&pager),
        Some(PageInfo { cursor: Some(27), page_size: 3, desc: true })
    );
}

#[test]
fn page_size_below_one_gives_no_next() {
    let page = PageInfo { cursor: None, page_size: 0, desc: false };
    let mut rows = generate_test_ids(1, 1);
    let pager = page.get_pager(&mut rows);
    assert!(rows.is_empty());
    assert_eq!(pager.next, None);

    let page = PageInfo { cursor: None, page_size: -5, desc: false };
    let mut rows = generate_test_ids(1, 3);
    let pager = page.get_pager(&mut rows);
    assert_eq!(ids(&rows), vec![1, 2]);
    assert_eq!(pager.next, Some(2));

    let mut rows: VecDeque<TestId> = VecDeque::new();
    let pager = page.get_pager(&mut rows);
    assert!(rows.is_empty());
    assert_eq!(pager.next, None);
}

#[test]
fn forward_then_back_lands_on_the_first_row_of_the_next_page() {
    let start = PageInfo { cursor: None, page_size: 4, desc: false };
    let pager = Pager { prev: None, next: Some(4), total: None };
    let there = start.next_page(&pager).unwrap();
    let mut rows = generate_test_ids(4, 9);
    let there_pager = there.get_pager(&mut rows);
    let back = there.prev_page(&there_pager).unwrap();
    assert_eq!(back, PageInfo { cursor: Some(5), page_size: 4, desc: false });
    assert_eq!(rows.front().unwrap().id(), 5);
}

#[test]
fn back_then_forward_lands_on_the_last_row_of_the_previous_page() {
    let start = PageInfo { cursor: Some(20), page_size: 4, desc: false };
    let pager = Pager { prev: Some(11), next: None, total: None };
    let there = start.prev_page(&pager).unwrap();
    assert_eq!(there.cursor, Some(11));
    let mut rows = generate_test_ids(11, 16);
    let there_pager = there.get_pager(&mut rows);
    let forth = there.next_page(&there_pager).unwrap();
    assert_eq!(forth, PageInfo { cursor: Some(15), page_size: 4, desc: false });
    assert_eq!(rows.back().unwrap().id(), 15);
}
