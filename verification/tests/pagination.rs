use receipt_repository_api::pagination::{
    FallbacksService, Pagination, DEFAULT_LIMIT, DEFAULT_OFFSET, MAX_LIMIT,
};

#[test]
fn negative_offset_falls_back_to_default() {
    let service = FallbacksService::new();
    let page = service.fallback_pagination(&Pagination { limit: 10, offset: -5 });
    assert_eq!(page, (DEFAULT_OFFSET, 10));
    assert_eq!(page.0, 0);
}

#[test]
fn zero_limit_falls_back_to_default() {
    let service = FallbacksService::new();
    let page = service.fallback_pagination(&Pagination { limit: 0, offset: 3 });
    assert_eq!(page, (3, DEFAULT_LIMIT));
    assert_eq!(page.1, 20);
}

#[test]
fn huge_limit_is_clamped_to_max() {
    let service = FallbacksService::new();
    let page = service.fallback_pagination(&Pagination { limit: 10000, offset: 0 });
    assert_eq!(page, (0, MAX_LIMIT));
    assert_eq!(page.1, 100);
}

#[test]
fn in_range_values_are_kept() {
    let service = FallbacksService::new();
    assert_eq!(service.fallback_pagination(&Pagination { limit: 1, offset: 0 }), (0, 1));
    assert_eq!(service.fallback_pagination(&Pagination { limit: 100, offset: 7 }), (7, 100));
    assert_eq!(service.fallback_pagination(&Pagination { limit: 101, offset: 7 }), (7, 100));
    assert_eq!(
        service.fallback_pagination(&Pagination { limit: i64::MIN, offset: i64::MAX }),
        (i64::MAX, 20)
    );
}

#[test]
fn default_pagination_is_first_page() {
    let page = Pagination::default();
    assert_eq!(page.limit, 20);
    assert_eq!(page.offset, 0);
}
