use maestro::{
    InterfaceState, Key, LayoutMode, LocalChanges, PagingResults, PullResult, RemoteHost,
    RepoState, ResultBrowser, RowContent, Size, SyncKind, SyncResult, WorkspaceRepo,
};

fn cursor_of(browser: &ResultBrowser) -> usize {
    match browser.state {
        InterfaceState::ResultListing { cursor, .. } => cursor,
    }
}

fn page_of(browser: &ResultBrowser) -> PagingResults {
    match browser.state {
        InterfaceState::ResultListing { page, .. } => page,
    }
}

fn fast_forward(label: &str, remote: RemoteHost) -> SyncResult {
    SyncResult {
        kind: SyncKind::Pull(PullResult::FastForward {
            remote,
            commits: 2,
            from: "e303cea".to_string(),
            to: "fe98a80".to_string(),
        }),
        repo: WorkspaceRepo { label: label.to_string(), path: format!("/ws/{label}") },
        state: RepoState { changes: LocalChanges::Clean },
    }
}

#[test]
fn resize_lays_out_pages() {
    let mut browser = ResultBrowser::new(6);
    browser.update_frame_size(20, 25);
    assert_eq!(browser.layout, LayoutMode::Comfortable);
    assert_eq!(browser.area, Size { w: 20, h: 25 });
    assert_eq!(page_of(&browser), PagingResults { repos_count: 6, page_size: 4, page_start_index: 0 });
    assert_eq!(browser.row_heights(), vec![3, 3, 3, 3]);
    browser.update_frame_size(20, 15);
    assert_eq!(browser.layout, LayoutMode::Compact);
    assert_eq!(page_of(&browser).page_size, 2);
    assert_eq!(browser.row_heights(), vec![2, 2]);
}

#[test]
fn break_layout_keeps_paging() {
    let mut browser = ResultBrowser::new(6);
    browser.update_frame_size(20, 25);
    let before = page_of(&browser);
    browser.update_frame_size(20, 10);
    assert_eq!(browser.layout, LayoutMode::Break);
    assert_eq!(browser.area, Size { w: 20, h: 25 });
    assert_eq!(page_of(&browser), before);
}

#[test]
fn same_size_twice_changes_nothing() {
    let mut browser = ResultBrowser::new(9);
    browser.update_frame_size(30, 20);
    browser.handle_key(Key::Down);
    let state = browser.state;
    browser.update_frame_size(30, 20);
    assert_eq!(browser.state, state);
}

#[test]
fn keys_move_within_page_and_turn_pages() {
    let mut browser = ResultBrowser::new(6);
    browser.update_frame_size(20, 25);
    browser.handle_key(Key::Up);
    assert_eq!(cursor_of(&browser), 0);
    for _ in 0..5 {
        browser.handle_key(Key::Down);
    }
    assert_eq!(cursor_of(&browser), 3);
    browser.handle_key(Key::Right);
    assert_eq!(cursor_of(&browser), 5);
    assert_eq!(page_of(&browser).page_start_index, 4);
    browser.handle_key(Key::Right);
    assert_eq!(cursor_of(&browser), 5);
    browser.handle_key(Key::Up);
    assert_eq!(cursor_of(&browser), 4);
    browser.handle_key(Key::Up);
    assert_eq!(cursor_of(&browser), 4);
    browser.handle_key(Key::Left);
    assert_eq!(cursor_of(&browser), 0);
    assert_eq!(page_of(&browser).page_start_index, 0);
    browser.handle_key(Key::Left);
    assert_eq!(cursor_of(&browser), 0);
    browser.handle_key(Key::Other);
    assert!(!browser.exit);
    browser.handle_key(Key::Quit);
    assert!(browser.exit);
}

#[test]
fn resize_keeps_cursor() {
    let mut browser = ResultBrowser::new(6);
    browser.update_frame_size(20, 25);
    browser.handle_key(Key::Right);
    assert_eq!(cursor_of(&browser), 4);
    browser.update_frame_size(20, 15);
    assert_eq!(cursor_of(&browser), 4);
    assert_eq!(page_of(&browser).page_start_index, 4);
    assert_eq!(page_of(&browser).page_size, 2);
}

#[test]
fn compare_key_gives_url_of_focused_fast_forward() {
    let mut browser = ResultBrowser::new(3);
    browser.update_frame_size(20, 25);
    assert_eq!(browser.handle_key(Key::Compare), None);
    browser.handle_sync_result(fast_forward(
        "pear.ng",
        RemoteHost::GitHub { owner: "eighty4".to_string(), name: "pear.ng".to_string() },
    ));
    browser.handle_sync_result(fast_forward("other", RemoteHost::Other));
    assert!(browser.has_compare_url(0));
    assert!(!browser.has_compare_url(1));
    assert!(!browser.has_compare_url(2));
    assert_eq!(
        browser.handle_key(Key::Compare),
        Some("https://github.com/eighty4/pear.ng/compare/e303cea..fe98a80".to_string())
    );
    browser.handle_key(Key::Down);
    assert_eq!(browser.handle_key(Key::Compare), None);
    assert_eq!(browser.handle_key(Key::Up), None);
}

#[test]
fn footer_labels() {
    let mut browser = ResultBrowser::new(6);
    browser.update_frame_size(20, 25);
    assert_eq!(browser.page_label(), Some("Page 0 of 2".to_string()));
    assert_eq!(browser.syncing_label(), Some("Syncing 6 repositories".to_string()));
    browser.handle_sync_result(fast_forward("a", RemoteHost::Other));
    assert_eq!(browser.remaining(), 5);
    assert_eq!(browser.syncing_label(), Some("Syncing 5 repositories".to_string()));
    browser.finish();
    assert_eq!(browser.syncing_label(), None);
    let mut small = ResultBrowser::new(2);
    small.update_frame_size(20, 25);
    assert_eq!(small.page_label(), None);
}

#[test]
fn comfortable_rows_on_partial_page() {
    let mut browser = ResultBrowser::new(6);
    browser.update_frame_size(20, 25);
    browser.handle_key(Key::Right);
    assert_eq!(browser.row_heights(), vec![3, 3]);
}

#[test]
fn page_rows_show_arrived_results_and_placeholders() {
    let mut browser = ResultBrowser::new(6);
    browser.update_frame_size(20, 25);
    browser.handle_sync_result(fast_forward("a", RemoteHost::Other));
    browser.handle_sync_result(fast_forward("b", RemoteHost::Other));
    browser.handle_key(Key::Down);
    assert_eq!(
        browser.page_rows(),
        vec![
            RowContent::Result { index: 0, focused: false },
            RowContent::Result { index: 1, focused: true },
            RowContent::Placeholder,
            RowContent::Placeholder,
        ]
    );
    browser.handle_key(Key::Right);
    assert_eq!(browser.page_rows(), vec![RowContent::Placeholder, RowContent::Placeholder]);
}
