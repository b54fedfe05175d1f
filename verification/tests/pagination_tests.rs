use inventory_core::errors::CoreError;
use inventory_core::pagination::{offset, total_pages, PaginatedResponse};

#[test]
fn total_pages_rounds_up() {
    assert_eq!(total_pages(0, 10), Ok(0));
    assert_eq!(total_pages(1, 10), Ok(1));
    assert_eq!(total_pages(21, 10), Ok(3));
    assert_eq!(total_pages(20, 10), Ok(2));
    assert_eq!(total_pages(u32::MAX, 1), Ok(u32::MAX));
}

#[test]
fn zero_page_size_is_an_illegal_argument() {
    assert_eq!(offset(3, 0), Err(CoreError::InvalidArgument));
    assert_eq!(total_pages(10, 0), Err(CoreError::InvalidArgument));
}

#[test]
fn offset_is_index_times_size() {
    assert_eq!(offset(0, 10), Ok(0));
    assert_eq!(offset(2, 10), Ok(20));
    assert_eq!(offset(u32::MAX, u32::MAX), Ok(u32::MAX as u64 * u32::MAX as u64));
}

#[test]
fn assemble_derives_the_page_count() {
    let page = PaginatedResponse::assemble(vec!["a", "b"], 21, 2, 10).unwrap();
    assert_eq!(page.entities, vec!["a", "b"]);
    assert_eq!(page.total_entities, 21);
    assert_eq!(page.page_index, 2);
    assert_eq!(page.page_size, 10);
    assert_eq!(page.total_pages, 3);
}

#[test]
fn assemble_rejects_zero_page_size() {
    assert!(matches!(
        PaginatedResponse::assemble(Vec::<u8>::new(), 0, 0, 0),
        Err(CoreError::InvalidArgument)
    ));
}

#[test]
fn single_page_wraps_everything_in_one_page() {
    let page = PaginatedResponse::single_page(vec![1, 2, 3]).unwrap();
    assert_eq!(page.total_entities, 3);
    assert_eq!(page.total_pages, 1);
    assert_eq!(page.page_index, 0);
    let empty = PaginatedResponse::single_page(Vec::<u8>::new()).unwrap();
    assert_eq!(empty.total_entities, 0);
    assert_eq!(empty.total_pages, 0);
}
