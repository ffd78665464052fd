use fbmark::adapters::tagpacker_adapter::Link;
use fbmark::app::{dispatch, App, Mode};
use fbmark::input::{Action, Key};
use fbmark::models::bookmarks::Bookmark;

fn bookmark(id: &str, url: &str) -> Bookmark {
    Bookmark { id: id.to_string(), url: url.to_string(), title: String::new() }
}

fn two() -> Vec<Bookmark> {
    vec![bookmark("1", "https://a.com"), bookmark("2", "https://b.com")]
}

fn link(source_url: &str, title: &str) -> Link {
    Link {
        id: "remote".to_string(),
        title: title.to_string(),
        description: None,
        sourceUrl: source_url.to_string(),
        isPrivate: false,
        thumbnailSource: None,
        thumbnailSourceUrl: None,
        thumbnailId: None,
        thumbnailUrl: None,
        url: "https://tagpacker.com/link/remote".to_string(),
        createdAt: "2021-01-01".to_string(),
        tags: Vec::new(),
    }
}

fn shown(app: &App) -> Vec<String> {
    let mut out = Vec::new();
    let mut k = 0;
    while let Some(b) = app.list().row(k) {
        out.push(b.url());
        k += 1;
    }
    out
}

#[test]
fn new_app_searches_with_empty_buffers_and_first_row_selected() {
    let app = App::new(two());
    assert_eq!(app.mode(), Mode::Search);
    assert_eq!(app.search_string(), "");
    assert_eq!(app.new_bookmark_name(), "");
    assert_eq!(shown(&app), vec!["https://a.com", "https://b.com"]);
    assert_eq!(app.list().cursor(), Some(0));
    assert_eq!(app.list().bookmarks(), &two());
}

#[test]
fn toggle_switches_the_active_buffer_and_keeps_both_texts() {
    let mut app = App::new(two());
    app.add_char('a');
    app.add_char('b');
    assert_eq!(app.select_field(), "ab");
    assert_eq!(dispatch(Key::Char('`'), &mut app), Action::Idle);
    assert_eq!(app.mode(), Mode::AddBookmark);
    assert_eq!(app.select_field(), "");
    assert_eq!(app.search_string(), "ab");
    app.add_char('x');
    assert_eq!(app.select_field(), "x");
    assert_eq!(app.new_bookmark_name(), "x");
    assert_eq!(app.search_string(), "ab");
    app.change_mode();
    assert_eq!(app.mode(), Mode::Search);
    assert_eq!(app.select_field(), "ab");
    assert_eq!(app.new_bookmark_name(), "x");
}

#[test]
fn typing_in_search_mode_filters_the_view_and_resets_the_cursor() {
    let mut app = App::new(two());
    app.on_down();
    assert_eq!(app.list().cursor(), Some(1));
    app.add_char('b');
    assert_eq!(app.search_string(), "b");
    assert_eq!(shown(&app), vec!["https://b.com"]);
    assert_eq!(app.list().cursor(), Some(0));
    app.add_char('z');
    assert_eq!(shown(&app), Vec::<String>::new());
    assert_eq!(app.list().cursor(), None);
}

#[test]
fn typing_in_add_mode_leaves_the_view_and_the_cursor() {
    let mut app = App::new(two());
    app.on_down();
    app.change_mode();
    app.add_char('b');
    assert_eq!(app.new_bookmark_name(), "b");
    assert_eq!(app.search_string(), "");
    assert_eq!(shown(&app), vec!["https://a.com", "https://b.com"]);
    assert_eq!(app.list().cursor(), Some(1));
    app.remove_char();
    assert_eq!(app.new_bookmark_name(), "");
    app.add_char('c');
    app.wipe_line();
    assert_eq!(app.new_bookmark_name(), "");
    assert_eq!(app.list().cursor(), Some(1));
}

#[test]
fn remove_char_erases_the_last_character_and_refilters() {
    let mut app = App::new(two());
    app.add_char('b');
    app.add_char('z');
    assert_eq!(shown(&app), Vec::<String>::new());
    app.remove_char();
    assert_eq!(app.search_string(), "b");
    assert_eq!(shown(&app), vec!["https://b.com"]);
    assert_eq!(app.list().cursor(), Some(0));
}

#[test]
fn remove_char_on_an_empty_buffer_changes_nothing() {
    let mut app = App::new(two());
    app.on_down();
    app.remove_char();
    assert_eq!(app.search_string(), "");
    assert_eq!(app.list().cursor(), Some(1));
    app.change_mode();
    app.remove_char();
    assert_eq!(app.new_bookmark_name(), "");
    assert_eq!(app.mode(), Mode::AddBookmark);
}

#[test]
fn wipe_line_clears_the_query_and_shows_the_whole_collection() {
    let mut app = App::new(two());
    app.add_char('b');
    assert_eq!(app.list().len(), 1);
    app.wipe_line();
    assert_eq!(app.search_string(), "");
    assert_eq!(shown(&app), vec!["https://a.com", "https://b.com"]);
    assert_eq!(app.list().cursor(), Some(0));
}

#[test]
fn up_and_down_wrap_around() {
    let mut app = App::new(two());
    app.on_up();
    assert_eq!(app.list().cursor(), Some(1));
    app.on_down();
    assert_eq!(app.list().cursor(), Some(0));
    app.on_down();
    assert_eq!(app.list().cursor(), Some(1));
    let mut none = App::new(Vec::new());
    none.on_up();
    none.on_down();
    assert_eq!(none.list().cursor(), None);
}

#[test]
fn enter_in_search_mode_asks_to_open_the_selected_url() {
    let mut app = App::new(two());
    app.on_down();
    assert_eq!(app.resolve_enter(), Action::OpenUrl("https://b.com".to_string()));
    assert_eq!(app.mode(), Mode::Search);
    assert_eq!(app.list().cursor(), Some(1));
}

#[test]
fn enter_in_search_mode_without_selection_asks_for_nothing() {
    let mut app = App::new(two());
    for c in "xyz".chars() {
        app.add_char(c);
    }
    assert_eq!(app.resolve_enter(), Action::Idle);
}

#[test]
fn enter_in_add_mode_asks_to_create_and_completion_returns_to_search() {
    let mut app = App::new(two());
    app.change_mode();
    for c in "https://c.org".chars() {
        app.add_char(c);
    }
    let action = app.resolve_enter();
    assert_eq!(action, Action::Create { url: "https://c.org".to_string(), title: String::new() });
    // nothing changes until the driver reports the created bookmark
    assert_eq!(app.mode(), Mode::AddBookmark);
    assert_eq!(app.new_bookmark_name(), "https://c.org");
    assert_eq!(app.list().total(), 2);
    app.bookmark_created(bookmark("3", "https://c.org"));
    assert_eq!(app.mode(), Mode::Search);
    assert_eq!(app.new_bookmark_name(), "");
    assert_eq!(app.list().total(), 3);
    assert_eq!(shown(&app), vec!["https://a.com", "https://b.com", "https://c.org"]);
    assert_eq!(app.list().cursor(), Some(0));
}

#[test]
fn created_bookmark_is_filtered_by_the_query_in_force() {
    let mut app = App::new(two());
    app.add_char('b');
    app.change_mode();
    app.bookmark_created(bookmark("3", "https://c.org"));
    assert_eq!(app.search_string(), "b");
    assert_eq!(app.list().total(), 3);
    assert_eq!(shown(&app), vec!["https://b.com"]);
}

fn five() -> Vec<Bookmark> {
    vec![
        bookmark("1", "https://a.com"),
        bookmark("2", "https://b.com"),
        bookmark("3", "https://c.com"),
        bookmark("4", "https://d.com"),
        bookmark("5", "https://e.com"),
    ]
}

/// Deletes the selected bookmark as the driver does: asks the application
/// which one, removes it from the store, and reports the store's bookmarks.
fn delete_selected(app: &mut App, store: &mut Vec<Bookmark>) {
    match dispatch(Key::Delete, app) {
        Action::Delete(id) => {
            store.retain(|b| b.id != id);
            app.bookmark_deleted(store.clone());
        }
        other => panic!("expected a request to delete, got {:?}", other),
    }
}

#[test]
fn delete_asks_for_the_selected_id_and_changes_nothing_yet() {
    let mut app = App::new(two());
    app.on_down();
    assert_eq!(app.on_delete(), Action::Delete("2".to_string()));
    assert_eq!(app.list().total(), 2);
    assert_eq!(app.list().cursor(), Some(1));
    assert_eq!(app.list().bookmarks(), &two());
}

#[test]
fn deleting_the_first_of_three_rows_moves_the_cursor_to_the_next_index() {
    let mut store = vec![
        bookmark("1", "https://a.com"),
        bookmark("2", "https://b.com"),
        bookmark("3", "https://c.com"),
    ];
    let mut app = App::new(store.clone());
    delete_selected(&mut app, &mut store);
    assert_eq!(shown(&app), vec!["https://b.com", "https://c.com"]);
    assert_eq!(app.list().cursor(), Some(1));
    assert_eq!(app.list().selected().map(|b| b.id()), Some("3".to_string()));
}

#[test]
fn deleting_moves_the_cursor_on_by_the_move_down_rule() {
    // row i of N rows: the cursor goes to i + 1, or to 0 where i + 2 >= N
    for (row, expected) in [(0, Some(1)), (1, Some(2)), (2, Some(3)), (3, Some(0)), (4, Some(0))] {
        let mut store = five();
        let mut app = App::new(store.clone());
        for _ in 0..row {
            app.on_down();
        }
        assert_eq!(app.list().cursor(), Some(row));
        delete_selected(&mut app, &mut store);
        assert_eq!(app.list().total(), 4);
        assert_eq!(app.list().len(), 4);
        assert_eq!(app.list().cursor(), expected);
    }
}

#[test]
fn deleting_one_of_two_rows_leaves_the_cursor_on_the_row_that_is_left() {
    for row in [0, 1] {
        let mut store = two();
        let mut app = App::new(store.clone());
        for _ in 0..row {
            app.on_down();
        }
        delete_selected(&mut app, &mut store);
        assert_eq!(app.list().len(), 1);
        assert_eq!(app.list().cursor(), Some(0));
    }
}

#[test]
fn deleting_the_only_row_through_the_application_leaves_no_selection() {
    let mut store = vec![bookmark("1", "https://a.com")];
    let mut app = App::new(store.clone());
    delete_selected(&mut app, &mut store);
    assert_eq!(app.list().len(), 0);
    assert_eq!(app.list().cursor(), None);
    assert!(app.list().selected().is_none());
    assert_eq!(dispatch(Key::Delete, &mut app), Action::Idle);
}

#[test]
fn deleting_under_a_query_moves_on_within_the_filtered_rows() {
    let mut store = vec![
        bookmark("1", "https://same.org"),
        bookmark("2", "https://other.net"),
        bookmark("3", "https://same.org"),
        bookmark("4", "https://same.org"),
        bookmark("5", "https://same.org"),
    ];
    let mut app = App::new(store.clone());
    for c in "same".chars() {
        app.add_char(c);
    }
    app.on_down();
    assert_eq!(app.list().selected().map(|b| b.id()), Some("3".to_string()));
    delete_selected(&mut app, &mut store);
    // the bookmarks 1, 4 and 5 are shown; the cursor went from row 1 to row 2
    assert_eq!(app.list().order(), &vec![0, 2, 3]);
    assert_eq!(app.list().cursor(), Some(2));
    assert_eq!(app.list().selected().map(|b| b.id()), Some("5".to_string()));
    assert_eq!(app.search_string(), "same");
    assert_eq!(app.mode(), Mode::Search);
    assert_eq!(app.list().total(), 4);
}

#[test]
fn deletion_keeps_mode_buffers_and_failure() {
    let mut store = five();
    let mut app = App::new(store.clone());
    app.change_mode();
    app.add_char('n');
    app.report_failure("earlier".to_string());
    delete_selected(&mut app, &mut store);
    assert_eq!(app.mode(), Mode::AddBookmark);
    assert_eq!(app.new_bookmark_name(), "n");
    assert_eq!(app.search_string(), "");
    assert_eq!(app.failure(), Some(&"earlier".to_string()));
    assert_eq!(app.list().cursor(), Some(1));
}

#[test]
fn deletion_takes_the_store_as_the_collection_whatever_it_holds() {
    // the store lost more than the selected bookmark: the cursor still stands in the view
    let mut app = App::new(five());
    app.on_down();
    app.on_down();
    app.on_down();
    app.bookmark_deleted(vec![bookmark("1", "https://a.com"), bookmark("2", "https://b.com")]);
    assert_eq!(shown(&app), vec!["https://a.com", "https://b.com"]);
    assert_eq!(app.list().cursor(), Some(0));
    // nothing was selected: the cursor goes to the first row
    let mut app = App::new(Vec::new());
    app.bookmark_deleted(two());
    assert_eq!(app.list().cursor(), Some(0));
    app.bookmark_deleted(Vec::new());
    assert_eq!(app.list().cursor(), None);
}

#[test]
fn import_refresh_puts_the_cursor_on_the_first_row() {
    let mut app = App::new(five());
    app.on_down();
    app.on_down();
    app.replace_collection(five());
    assert_eq!(app.list().cursor(), Some(0));
}

#[test]
fn delete_without_selection_is_a_no_op() {
    let mut app = App::new(two());
    for c in "xyz".chars() {
        app.add_char(c);
    }
    assert_eq!(shown(&app), Vec::<String>::new());
    assert_eq!(app.list().cursor(), None);
    assert_eq!(dispatch(Key::Down, &mut app), Action::Idle);
    assert_eq!(app.list().cursor(), None);
    assert_eq!(dispatch(Key::Delete, &mut app), Action::Idle);
    assert_eq!(app.list().total(), 2);
    assert_eq!(app.list().cursor(), None);
    assert_eq!(app.search_string(), "xyz");
}

#[test]
fn paste_appends_the_payload_to_the_active_buffer() {
    let mut app = App::new(two());
    app.add_char('b');
    app.paste_from_clipboard(".co");
    assert_eq!(app.search_string(), "b.co");
    assert_eq!(shown(&app), vec!["https://b.com"]);
    app.change_mode();
    app.paste_from_clipboard("https://");
    app.paste_from_clipboard("c.org");
    assert_eq!(app.new_bookmark_name(), "https://c.org");
    assert_eq!(app.search_string(), "b.co");
}

#[test]
fn pasting_nothing_changes_nothing() {
    let mut app = App::new(two());
    app.on_down();
    app.paste_from_clipboard("");
    assert_eq!(app.search_string(), "");
    assert_eq!(app.list().cursor(), Some(1));
}

#[test]
fn sync_makes_one_bookmark_per_link_from_source_url_and_title() {
    let app = App::new(two());
    let made = app.sync_bmarks(&vec![link("https://x.org", "X"), link("https://y.org", "Y")]);
    assert_eq!(made.len(), 2);
    assert_eq!(made[0].url, "https://x.org");
    assert_eq!(made[0].title, "X");
    assert_eq!(made[1].url, "https://y.org");
    assert_eq!(made[1].title, "Y");
    assert_eq!(made[0].id.chars().count(), 36);
    assert_ne!(made[0].id, made[1].id);
    assert_ne!(made[0].id, "remote");
    assert_eq!(app.sync_bmarks(&Vec::new()).len(), 0);
    assert_eq!(app.list().total(), 2);
}

#[test]
fn sync_of_two_links_grows_the_collection_by_two_and_recomputes_the_view() {
    let mut store = two();
    let mut app = App::new(store.clone());
    app.add_char('o');
    app.add_char('r');
    app.add_char('g');
    assert_eq!(shown(&app), Vec::<String>::new());
    let before = app.list().total();
    let links = vec![link("https://x.org", "X"), link("https://y.org", "Y")];
    for made in app.sync_bmarks(&links) {
        store.push(made);
    }
    app.replace_collection(store.clone());
    assert_eq!(app.list().total(), before + 2);
    assert_eq!(app.list().bookmarks(), &store);
    assert_eq!(app.search_string(), "org");
    assert_eq!(shown(&app), vec!["https://x.org", "https://y.org"]);
    assert_eq!(app.list().cursor(), Some(0));
}

#[test]
fn dispatch_routes_every_bound_key() {
    let mut app = App::new(two());
    assert_eq!(dispatch(Key::Esc, &mut app), Action::Exit);
    assert_eq!(dispatch(Key::Down, &mut app), Action::Idle);
    assert_eq!(app.list().cursor(), Some(1));
    assert_eq!(dispatch(Key::Up, &mut app), Action::Idle);
    assert_eq!(app.list().cursor(), Some(0));
    assert_eq!(dispatch(Key::Delete, &mut app), Action::Delete("1".to_string()));
    assert_eq!(dispatch(Key::Char('\n'), &mut app), Action::OpenUrl("https://a.com".to_string()));
    assert_eq!(dispatch(Key::Char('b'), &mut app), Action::Idle);
    assert_eq!(app.search_string(), "b");
    assert_eq!(dispatch(Key::Char('.'), &mut app), Action::Idle);
    assert_eq!(dispatch(Key::Backspace, &mut app), Action::Idle);
    assert_eq!(app.search_string(), "b");
    assert_eq!(dispatch(Key::Ctrl('u'), &mut app), Action::Idle);
    assert_eq!(app.search_string(), "");
    assert_eq!(dispatch(Key::Ctrl('v'), &mut app), Action::Paste);
    assert_eq!(dispatch(Key::F(5), &mut app), Action::Sync);
    assert_eq!(dispatch(Key::Char('`'), &mut app), Action::Idle);
    assert_eq!(app.mode(), Mode::AddBookmark);
    assert_eq!(dispatch(Key::Char('n'), &mut app), Action::Idle);
    assert_eq!(
        dispatch(Key::Char('\n'), &mut app),
        Action::Create { url: "n".to_string(), title: String::new() }
    );
}

#[test]
fn dispatch_ignores_keys_without_a_binding() {
    let mut app = App::new(two());
    app.add_char('a');
    app.change_mode();
    app.add_char('n');
    for key in [Key::Other, Key::F(4), Key::F(6), Key::Ctrl('x'), Key::Ctrl('c')] {
        assert_eq!(dispatch(key, &mut app), Action::Idle);
        assert_eq!(app.mode(), Mode::AddBookmark);
        assert_eq!(app.search_string(), "a");
        assert_eq!(app.new_bookmark_name(), "n");
        assert_eq!(app.list().cursor(), Some(0));
        assert_eq!(app.list().len(), 1);
    }
}

#[test]
fn failure_is_on_show_until_it_is_cleared() {
    let mut app = App::new(two());
    assert_eq!(app.failure(), None);
    app.on_down();
    app.report_failure("store is locked".to_string());
    assert_eq!(app.failure(), Some(&"store is locked".to_string()));
    // keys leave the failure on show, and the failure leaves the state
    assert_eq!(dispatch(Key::Char('b'), &mut app), Action::Idle);
    assert_eq!(app.failure(), Some(&"store is locked".to_string()));
    assert_eq!(app.search_string(), "b");
    app.report_failure("no network".to_string());
    assert_eq!(app.failure(), Some(&"no network".to_string()));
    app.clear_failure();
    assert_eq!(app.failure(), None);
    assert_eq!(app.search_string(), "b");
    assert_eq!(app.list().len(), 1);
    assert_eq!(app.mode(), Mode::Search);
}
