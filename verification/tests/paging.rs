use opsgenie_notifier::alert::{Alert, AlertRecord};
use opsgenie_notifier::paging::{Page, Paginator, Progress, RATE_LIMIT_DELAY_SECS};

fn record(n: usize) -> AlertRecord {
    AlertRecord {
        id: format!("id-{}", n),
        alert: Alert {
            tiny_id: None,
            alias: None,
            message: None,
            status: None,
            acknowledged: None,
            tags: None,
            created_at: None,
            updated_at: None,
            priority: None,
        },
    }
}

fn remote_page(total: usize, offset: usize, limit: usize) -> Page {
    let end: usize = if offset + limit < total { offset + limit } else { total };
    let mut data = Vec::new();
    let mut i: usize = offset;
    while i < end {
        data.push(record(i));
        i += 1;
    }
    Page { data: Some(data), has_next: end < total }
}

#[test]
fn two_hundred_fifty_records_take_three_requests_and_two_sleeps() {
    let mut paginator = Paginator::new("q".to_string(), 100);
    let mut offsets: Vec<i32> = Vec::new();
    let mut sizes: Vec<usize> = Vec::new();
    let mut sleeps: u32 = 0;
    let mut batch = Vec::new();
    loop {
        let request = paginator.request();
        assert_eq!(request.query, "q");
        assert_eq!(request.limit, 100);
        assert_eq!(request.sort, "created_at");
        assert_eq!(request.order, "asc");
        offsets.push(request.offset);
        let page = remote_page(250, request.offset as usize, request.limit as usize);
        let progress = paginator.accept(&page);
        let has_next = page.has_next;
        let mut records = page.into_records();
        sizes.push(records.len());
        batch.append(&mut records);
        match progress {
            Progress::NextPage => {
                assert!(has_next);
                sleeps += 1;
            }
            Progress::Finished => {
                assert!(!has_next);
                break;
            }
            Progress::OffsetOutOfRange => panic!("offset out of range"),
        }
    }
    assert_eq!(offsets, vec![0, 100, 200]);
    assert_eq!(sizes, vec![100, 100, 50]);
    assert_eq!(sleeps, 2);
    assert_eq!(batch.len(), 250);
    assert_eq!(batch[249].id, "id-249");
    assert_eq!(RATE_LIMIT_DELAY_SECS, 1);
}

#[test]
fn first_request_starts_at_offset_zero() {
    let paginator = Paginator::new("status: open".to_string(), 7);
    let request = paginator.request();
    assert_eq!(request.query, "status: open");
    assert_eq!(request.offset, 0);
    assert_eq!(request.limit, 7);
}

#[test]
fn page_without_successor_finishes() {
    let mut paginator = Paginator::new("q".to_string(), 10);
    let page = Page { data: Some(vec![record(0)]), has_next: false };
    assert_eq!(paginator.accept(&page), Progress::Finished);
    assert_eq!(paginator.request().offset, 0);
}

#[test]
fn page_without_data_finishes_even_with_successor() {
    let mut paginator = Paginator::new("q".to_string(), 10);
    let missing = Page { data: None, has_next: true };
    assert_eq!(paginator.accept(&missing), Progress::Finished);
    let empty = Page { data: Some(Vec::new()), has_next: true };
    assert_eq!(paginator.accept(&empty), Progress::Finished);
    assert_eq!(paginator.request().offset, 0);
}

#[test]
fn partial_page_with_successor_advances_by_the_limit() {
    let mut paginator = Paginator::new("q".to_string(), 100);
    let page = Page { data: Some(vec![record(0), record(1)]), has_next: true };
    assert_eq!(paginator.accept(&page), Progress::NextPage);
    assert_eq!(paginator.request().offset, 100);
    assert_eq!(paginator.accept(&page), Progress::NextPage);
    assert_eq!(paginator.request().offset, 200);
}

#[test]
fn offset_past_the_request_field_ends_the_retrieval() {
    let mut paginator = Paginator::new("q".to_string(), 255);
    let page = Page { data: Some(vec![record(0)]), has_next: true };
    // 255 * 8_421_504 is the last multiple of 255 that fits an i32
    let mut accepted: i64 = 0;
    while accepted < 8_421_504 {
        assert_eq!(paginator.accept(&page), Progress::NextPage);
        accepted += 1;
    }
    assert_eq!(paginator.request().offset, 2_147_483_520);
    assert_eq!(paginator.accept(&page), Progress::OffsetOutOfRange);
    assert_eq!(paginator.request().offset, 2_147_483_520);
    let last = Page { data: Some(vec![record(1)]), has_next: false };
    assert_eq!(paginator.accept(&last), Progress::Finished);
}

#[test]
fn into_records_of_missing_data_is_empty() {
    assert_eq!(Page { data: None, has_next: false }.into_records(), Vec::new());
    let page = Page { data: Some(vec![record(3), record(4)]), has_next: true };
    assert_eq!(page.into_records(), vec![record(3), record(4)]);
}

#[test]
fn unreadable_answer_is_a_last_page_without_data() {
    let page = Page::unreadable();
    assert_eq!(page, Page { data: None, has_next: false });
    let mut paginator = Paginator::new("q".to_string(), 5);
    assert_eq!(paginator.accept(&page), Progress::Finished);
    assert_eq!(page.into_records(), Vec::new());
}
