use aigw_console::page::{Page, PageRequest, DEFAULT_PAGE_SIZE};

#[test]
fn page_request_default_is_first_page_of_twenty() {
    let r = PageRequest::default();
    assert_eq!(r.page_no, 1);
    assert_eq!(r.page_size, DEFAULT_PAGE_SIZE);
    assert_eq!(r.page_size, 20);
    assert!(r.do_count);
}

#[test]
fn page_request_new_raises_page_zero_to_one() {
    let r = PageRequest::new(0, 15);
    assert_eq!(r.page_no, 1);
    assert_eq!(r.page_size, 15);
    assert!(r.do_count);
    let r = PageRequest::new(7, 15);
    assert_eq!(r.page_no, 7);
}

#[test]
fn page_request_setters_change_one_field() {
    let r = PageRequest::new(3, 10).set_page_size(50);
    assert_eq!(r.page_no, 3);
    assert_eq!(r.page_size, 50);
    let r = r.set_page_no(0);
    assert_eq!(r.page_no, 1);
    assert_eq!(r.page_size, 50);
    let r = r.set_page_no(9);
    assert_eq!(r.page_no, 9);
}

#[test]
fn page_offset_counts_earlier_records() {
    assert_eq!(PageRequest::new(1, 20).offset(), 0);
    assert_eq!(PageRequest::new(2, 20).offset(), 20);
    assert_eq!(PageRequest::new(5, 7).offset(), 28);
}

#[test]
fn consecutive_pages_are_contiguous() {
    let r = PageRequest::new(1, 13);
    for n in 1u64..20 {
        let a = r.set_page_no(n);
        let b = r.set_page_no(n + 1);
        assert_eq!(b.offset(), a.offset() + 13);
    }
}

#[test]
fn page_new_defaults_size_and_page() {
    let p: Page<u8> = Page::new(0, 0, 42, vec![1, 2, 3]);
    assert_eq!(p.page_no, 1);
    assert_eq!(p.page_size, 20);
    assert_eq!(p.total, 42);
    assert_eq!(p.items, vec![1, 2, 3]);
    assert!(p.do_count);
    let p: Page<u8> = Page::new(4, 9, 1, vec![]);
    assert_eq!(p.page_no, 4);
    assert_eq!(p.page_size, 9);
}

#[test]
fn offset_after_a_sequence_of_settings() {
    let r = PageRequest::new(0, 0).set_page_size(25).set_page_no(0).set_page_no(4).set_page_size(10);
    assert_eq!(r.page_no, 4);
    assert_eq!(r.offset(), 30);
    let r = PageRequest::default().set_page_no(0);
    assert_eq!(r.offset(), 0);
    let r = PageRequest::default().set_page_no(3).set_page_size(7).set_page_no(2);
    assert_eq!(r.offset(), 7);
}
