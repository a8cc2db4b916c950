use crudkit_leptos::pagination::{
    corrected_current_page, create_page_options, items_per_page_options, page_count, ItemsPerPage,
};

fn nums(v: &[Option<u64>]) -> Vec<Option<u64>> {
    v.to_vec()
}

#[test]
fn page_count_rounds_up() {
    assert_eq!(page_count(0, 10), 0);
    assert_eq!(page_count(1, 10), 1);
    assert_eq!(page_count(10, 10), 1);
    assert_eq!(page_count(11, 10), 2);
    assert_eq!(page_count(95, 25), 4);
    assert_eq!(page_count(u64::MAX, 1), u64::MAX);
    assert_eq!(page_count(u64::MAX, 2), u64::MAX / 2 + 1);
}

#[test]
fn page_count_with_zero_items_per_page() {
    assert_eq!(page_count(0, 0), 0);
    assert_eq!(page_count(5, 0), u64::MAX);
}

#[test]
fn few_pages_are_all_listed() {
    let o = create_page_options(4, 2);
    assert_eq!(o.options, vec![Some(1), Some(2), Some(3), Some(4)]);
    assert_eq!(o.for_current_page, 2);
    assert_eq!(create_page_options(0, 1).options, Vec::<Option<u64>>::new());
    let ten = create_page_options(10, 10);
    assert_eq!(ten.options, (1..=10).map(Some).collect::<Vec<_>>());
}

#[test]
fn start_of_many_pages() {
    let o = create_page_options(20, 3);
    assert_eq!(
        o.options,
        nums(&[Some(1), Some(2), Some(3), Some(4), Some(5), Some(6), Some(7), None, Some(19), Some(20)])
    );
}

#[test]
fn middle_of_many_pages() {
    let o = create_page_options(20, 10);
    assert_eq!(
        o.options,
        nums(&[
            Some(1), Some(2), None, Some(8), Some(9), Some(10), Some(11), Some(12), None, Some(19),
            Some(20)
        ])
    );
}

#[test]
fn end_of_many_pages() {
    let o = create_page_options(20, 17);
    assert_eq!(
        o.options,
        nums(&[
            Some(1), Some(2), None, Some(14), Some(15), Some(16), Some(17), Some(18), Some(19),
            Some(20)
        ])
    );
    // The boundary between the middle and the end.
    let o = create_page_options(11, 6);
    assert_eq!(
        o.options,
        nums(&[
            Some(1), Some(2), None, Some(4), Some(5), Some(6), Some(7), Some(8), None, Some(10),
            Some(11)
        ])
    );
    let o = create_page_options(11, 7);
    assert_eq!(
        o.options,
        nums(&[Some(1), Some(2), None, Some(5), Some(6), Some(7), Some(8), Some(9), Some(10), Some(11)])
    );
}

#[test]
fn items_per_page_choices_contain_current() {
    let labels = |n: u64| {
        items_per_page_options(n)
            .iter()
            .map(|o| o.items_per_page())
            .collect::<Vec<_>>()
    };
    assert_eq!(labels(25), vec![10, 25, 50, 100]);
    assert_eq!(labels(5), vec![5, 10, 25, 50, 100]);
    assert_eq!(labels(30), vec![10, 25, 30, 50, 100]);
    assert_eq!(labels(500), vec![10, 25, 50, 100, 500]);
    assert!(items_per_page_options(30).iter().all(|o| !o.is_all()));
}

#[test]
fn items_per_page_labels() {
    assert_eq!(ItemsPerPage::some(25).label(), "25");
    assert_eq!(ItemsPerPage::all(120).label(), "All (120)");
    assert_eq!(ItemsPerPage::some(0).label(), "0");
    assert_eq!(ItemsPerPage::some(u64::MAX).label(), u64::MAX.to_string());
}

#[test]
fn current_page_is_corrected_when_it_would_be_empty() {
    // 45 items, 10 per page: page 5 is the last; with 25 per page only 2 pages remain.
    assert_eq!(corrected_current_page(45, 5, 25), Some(2));
    assert_eq!(corrected_current_page(45, 2, 25), None);
    assert_eq!(corrected_current_page(0, 1, 10), Some(0));
}
