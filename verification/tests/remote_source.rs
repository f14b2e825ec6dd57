use wallsplash::fetchers::check_list_status;
use wallsplash::fetchers::download_urls;
use wallsplash::fetchers::Links;
use wallsplash::fetchers::Photo;
use wallsplash::fetchers::RefreshCycle;
use wallsplash::fetchers::RefreshOutcome;
use wallsplash::fetchers::TickInput;
use wallsplash::Fetch;
use wallsplash::UnsplashFetcher;
use wallsplash::WallsplashError;

fn tick(now: u64, refresh: Option<RefreshOutcome>) -> TickInput {
    TickInput { listing: Vec::new(), now, refresh }
}

#[test]
fn new_holds_no_cache() {
    let f = UnsplashFetcher::new("tok", 10, 86400, "/cache");
    assert_eq!(f.token, "tok");
    assert_eq!(f.limit, 10);
    assert_eq!(f.refresh, 86400);
    assert_eq!(f.dir, "/cache");
    assert!(!f.cached);
    assert_eq!(f.total, 0);
    assert_eq!(f.next, 0);
}

#[test]
fn fresh_cache_needs_no_refresh() {
    let mut f = UnsplashFetcher::new("tok", 10, 1000, "/cache");
    f.cached = true;
    f.total = 2;
    f.timestamp = 100;
    assert!(!f.needs_refresh(500));
    let p = f.next_image_path(tick(500, None)).unwrap();
    assert_eq!(p, "/cache/0.jpg");
}

#[test]
fn no_cache_needs_refresh() {
    let f = UnsplashFetcher::new("tok", 10, 86400, "/cache");
    assert!(f.needs_refresh(0));
    assert!(f.needs_refresh(7));
}

#[test]
fn elapsed_interval_needs_refresh() {
    let mut f = UnsplashFetcher::new("tok", 10, 1000, "/cache");
    f.cached = true;
    f.total = 2;
    f.timestamp = 100;
    assert!(!f.needs_refresh(1099));
    assert!(f.needs_refresh(1100));
}

#[test]
fn one_refresh_recovers_no_matter_how_stale() {
    // However many ticks went by while stale, one completed cycle
    // makes the source fresh for a whole interval again.
    let mut f = UnsplashFetcher::new("tok", 10, 1000, "/cache");
    f.cached = true;
    f.timestamp = 0;
    assert!(f.needs_refresh(999_999));
    let p = f.next_image_path(tick(999_999, Some(RefreshOutcome::Fetched(1)))).unwrap();
    assert_eq!(p, "/cache/0.jpg");
    assert_eq!(f.timestamp, 999_999);
    assert!(!f.needs_refresh(999_999 + 999));
    assert!(f.needs_refresh(999_999 + 1000));
}

#[test]
fn refresh_with_no_usable_images_fails() {
    let mut f = UnsplashFetcher::new("tok", 10, 86400, "/cache");
    let r = f.next_image_path(tick(50, Some(RefreshOutcome::Fetched(0))));
    assert!(matches!(r, Err(WallsplashError::UnsplashNoImage)));
    assert!(f.cached);
    assert_eq!(f.total, 0);
}

#[test]
fn failed_refresh_propagates_and_forces_retry() {
    // An aborted cycle — say the list endpoint answered 401 — propagates
    // its error, clears the cached flag, and leaves any partial cache
    // unused: the next call must refresh again.
    let mut f = UnsplashFetcher::new("tok", 10, 86400, "/cache");
    f.cached = true;
    f.total = 5;
    f.next = 2;
    f.timestamp = 100;
    assert_eq!(check_list_status(401), Err(WallsplashError::UnsplashAPIFail));
    let r = f.next_image_path(tick(90000, Some(RefreshOutcome::Failed(
        WallsplashError::UnsplashAPIFail,
    ))));
    assert!(matches!(r, Err(WallsplashError::UnsplashAPIFail)));
    assert!(!f.cached);
    assert_eq!(f.total, 5);
    assert_eq!(f.next, 2);
    assert_eq!(f.timestamp, 100);
    assert!(f.needs_refresh(90001));
}

#[test]
fn list_status_accepts_exactly_success_codes() {
    assert_eq!(check_list_status(200), Ok(()));
    assert_eq!(check_list_status(204), Ok(()));
    assert_eq!(check_list_status(299), Ok(()));
    assert_eq!(check_list_status(199), Err(WallsplashError::UnsplashAPIFail));
    assert_eq!(check_list_status(300), Err(WallsplashError::UnsplashAPIFail));
    assert_eq!(check_list_status(401), Err(WallsplashError::UnsplashAPIFail));
    assert_eq!(check_list_status(404), Err(WallsplashError::UnsplashAPIFail));
    assert_eq!(check_list_status(500), Err(WallsplashError::UnsplashAPIFail));
}

#[test]
fn cycle_writes_only_jpegs_and_numbers_them_from_zero() {
    // A batch of two JPEGs among two other downloads writes exactly
    // the files 0.jpg and 1.jpg.
    let mut c = RefreshCycle::new();
    assert_eq!(c.offer(Some(b"image/jpeg".as_slice())), Some("0.jpg".to_string()));
    assert_eq!(c.offer(Some(b"image/png".as_slice())), None);
    assert_eq!(c.offer(None), None);
    assert_eq!(c.offer(Some(b"image/jpeg; charset=binary".as_slice())), Some("1.jpg".to_string()));
    assert_eq!(c.written, 2);
}

#[test]
fn batch_of_three_with_two_jpegs_cycles_through_both() {
    // Scenario: limit 3, refresh 24h; the service lists 3 photos, 2 are
    // image/jpeg and 1 is image/png.  The cache ends with 0.jpg and 1.jpg,
    // and after serving 1.jpg the next call serves 0.jpg again.
    let mut c = RefreshCycle::new();
    assert_eq!(c.offer(Some(b"image/jpeg".as_slice())), Some("0.jpg".to_string()));
    assert_eq!(c.offer(Some(b"image/png".as_slice())), None);
    assert_eq!(c.offer(Some(b"image/jpeg".as_slice())), Some("1.jpg".to_string()));
    assert_eq!(c.written, 2);

    let mut f = UnsplashFetcher::new("tok", 3, 86400, "/cache");
    let first = f.next_image_path(tick(10, Some(RefreshOutcome::Fetched(c.written)))).unwrap();
    assert_eq!(f.total, 2);
    let second = f.next_image_path(tick(20, None)).unwrap();
    let third = f.next_image_path(tick(30, None)).unwrap();
    assert_eq!(first, "/cache/0.jpg");
    assert_eq!(second, "/cache/1.jpg");
    assert_eq!(third, "/cache/0.jpg");
}

#[test]
fn photos_url_carries_the_limit() {
    let f = UnsplashFetcher::new("tok", 10, 86400, "/cache");
    assert_eq!(
        f.photos_url(),
        "https://api.unsplash.com/photos?per_page=10&order_by=latest"
    );
    let g = UnsplashFetcher::new("tok", 3, 86400, "/cache");
    assert_eq!(
        g.photos_url(),
        "https://api.unsplash.com/photos?per_page=3&order_by=latest"
    );
}

#[test]
fn auth_header_carries_the_token() {
    let f = UnsplashFetcher::new("SECRET-REDACTED", 10, 86400, "/cache");
    assert_eq!(f.auth_header(), "Client-ID SECRET-REDACTED");
}

#[test]
fn cache_path_joins_directory_index_and_extension() {
    let f = UnsplashFetcher::new("tok", 10, 86400, "/tmp/wall");
    assert_eq!(f.cache_path(0), "/tmp/wall/0.jpg");
    assert_eq!(f.cache_path(12), "/tmp/wall/12.jpg");
}

#[test]
fn download_urls_keep_list_order() {
    let photos = vec![
        Photo {
            id: "one".to_string(),
            links: Links { download: "https://example.test/1".to_string() },
        },
        Photo {
            id: "two".to_string(),
            links: Links { download: "https://example.test/2".to_string() },
        },
    ];
    let urls = download_urls(&photos);
    assert_eq!(urls, vec![
        "https://example.test/1".to_string(),
        "https://example.test/2".to_string(),
    ]);
}
