use hackernews::preview::PreviewState;
use hackernews::preview::StoryListing;
use hackernews::story::StoryItem;
use hackernews::story::StoryPageData;

fn story_a() -> StoryItem {
    StoryItem {
        id: 7,
        title: String::from("story A"),
        url: Some(String::from("https://example.com/a")),
        text: None,
        by: String::from("alice"),
        score: 3,
        descendants: 0,
        time: 1_700_000_000,
        kids: Vec::new(),
        item_type: String::from("story"),
    }
}

fn page_of(item: StoryItem) -> StoryPageData {
    StoryPageData { item, comments: Vec::new() }
}

#[test]
fn hover_uncached_goes_through_loading_then_loaded() {
    // Hover story A: the shared cell shows Loading and one fetch starts;
    // when it completes, the cell shows A's page.
    let mut listing = StoryListing::new(story_a());
    let mut preview = PreviewState::Unset;
    let fetch = listing.resolve_trigger(&mut preview);
    assert_eq!(fetch, Some(7));
    assert!(matches!(preview, PreviewState::Loading));
    listing.on_story_fetched(&mut preview, page_of(story_a()));
    match &preview {
        PreviewState::Loaded(page) => assert_eq!(page.item.id, 7),
        other => panic!("expected Loaded, got {other:?}"),
    }
}

#[test]
fn hover_cached_shows_page_without_loading_or_fetch() {
    // Hover A again once its page is memoized: Loaded directly, no new
    // fetch, and no pass through Loading.
    let mut listing = StoryListing::new(story_a());
    let mut preview = PreviewState::Unset;
    assert_eq!(listing.resolve_trigger(&mut preview), Some(7));
    listing.on_story_fetched(&mut preview, page_of(story_a()));
    let mut preview2 = PreviewState::Unset;
    let fetch_again = listing.resolve_trigger(&mut preview2);
    assert_eq!(fetch_again, None);
    match &preview2 {
        PreviewState::Loaded(page) => assert_eq!(page.item.id, 7),
        other => panic!("expected Loaded, got {other:?}"),
    }
}

#[test]
fn retrigger_after_cache_never_fetches_again() {
    let mut listing = StoryListing::new(story_a());
    let mut preview = PreviewState::Unset;
    assert_eq!(listing.resolve_trigger(&mut preview), Some(7));
    listing.on_story_fetched(&mut preview, page_of(story_a()));
    for _ in 0..3 {
        assert_eq!(listing.resolve_trigger(&mut preview), None);
        assert!(matches!(preview, PreviewState::Loaded(_)));
    }
}

#[test]
fn cache_hit_short_circuits_from_any_state() {
    let mut listing = StoryListing::new(story_a());
    let mut preview = PreviewState::Unset;
    assert_eq!(listing.resolve_trigger(&mut preview), Some(7));
    listing.on_story_fetched(&mut preview, page_of(story_a()));
    for start in [PreviewState::Unset, PreviewState::Loading] {
        let mut cell = start;
        assert_eq!(listing.resolve_trigger(&mut cell), None);
        assert!(matches!(cell, PreviewState::Loaded(_)));
    }
}

#[test]
fn failed_preview_fetch_leaves_the_cell_loading() {
    // The swallowed error: the driver got an error instead of a page,
    // makes no report to the listing, and the cell stays at Loading.
    let listing = StoryListing::new(story_a());
    let mut preview = PreviewState::Unset;
    assert_eq!(listing.resolve_trigger(&mut preview), Some(7));
    assert!(matches!(preview, PreviewState::Loading));
    // No on_story_fetched call: nothing moves the cell.
    assert!(matches!(preview, PreviewState::Loading));
    // A later hover still finds no memo and tries again.
    let mut preview2 = PreviewState::Unset;
    assert_eq!(listing.resolve_trigger(&mut preview2), Some(7));
}
