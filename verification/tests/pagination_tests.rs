use open_donate::pagination::{
    first_shown, last_shown, next_page, page_offset, previous_page, total_pages,
};

#[test]
fn offsets() {
    assert_eq!(page_offset(1, 10), 0);
    assert_eq!(page_offset(3, 20), 40);
    assert_eq!(page_offset(0, 5), -5);
}

#[test]
fn page_counts() {
    assert_eq!(total_pages(0, 10), 0);
    assert_eq!(total_pages(1, 10), 1);
    assert_eq!(total_pages(10, 10), 1);
    assert_eq!(total_pages(11, 10), 2);
    assert_eq!(total_pages(57, 5), 12);
    assert_eq!(total_pages(57, 0), 1);
    assert_eq!(total_pages(-7, 2), -3);
    assert_eq!(total_pages(7, -2), -3);
    assert_eq!(total_pages(i64::MIN, -1), i64::MAX);
    assert_eq!(total_pages(i64::MAX, 1), i64::MAX);
}

#[test]
fn shown_range() {
    assert_eq!(first_shown(0, 1, 10), 0);
    assert_eq!(last_shown(0, 1, 10), 0);
    assert_eq!(first_shown(57, 2, 20), 21);
    assert_eq!(last_shown(57, 2, 20), 40);
    assert_eq!(first_shown(57, 3, 20), 41);
    assert_eq!(last_shown(57, 3, 20), 57);
}

#[test]
fn page_buttons() {
    assert_eq!(previous_page(1), 1);
    assert_eq!(previous_page(4), 3);
    assert_eq!(next_page(2, 3), 3);
    assert_eq!(next_page(3, 3), 3);
}

#[test]
fn every_page_range_matches_rows() {
    for count in 1i64..40 {
        for size in [1i64, 5, 10, 20, 50] {
            let pages = total_pages(count, size);
            for page in 1..=pages {
                let first = first_shown(count, page, size);
                let last = last_shown(count, page, size);
                assert!(1 <= first && first <= last && last <= count);
                assert_eq!(first - 1, page_offset(page, size));
                assert_eq!(last - first + 1, size.min(count - page_offset(page, size)));
            }
        }
    }
}

#[test]
fn buttons_stay_within_pages() {
    for total in 1i64..6 {
        for page in 1..=total {
            let n = next_page(page, total);
            let p = previous_page(page);
            assert!(1 <= n && n <= total);
            assert!(1 <= p && p <= total);
        }
    }
}

#[test]
fn last_page_is_not_empty() {
    for count in 1i64..60 {
        for size in 1i64..12 {
            let t = total_pages(count, size);
            assert!(t >= 1);
            assert!((t - 1) * size < count && count <= t * size);
        }
    }
}
