use ditto_quickstart::events::{key_event, KeyCode, TermEvent};
use ditto_quickstart::store::{StoreCommand, TaskStore};
use ditto_quickstart::todo::TodoItem;
use ditto_quickstart::tui::todolist::Todolist;

fn ch(c: char) -> TermEvent {
    key_event(KeyCode::Char(c))
}

/// Press one key and deliver whatever command it produced to the store,
/// as the driver loop does.
fn press_and_deliver(tl: &mut Todolist, store: &mut TaskStore, ev: TermEvent) {
    let tasks = store.live_view();
    let sync = store.is_sync_active();
    let (_, cmd) = tl.try_handle_event(&ev, &tasks, sync).expect("event handling failed");
    if let Some(cmd) = cmd {
        store.execute(&cmd);
    }
}

fn type_text(tl: &mut Todolist, store: &mut TaskStore, text: &str) {
    for c in text.chars() {
        press_and_deliver(tl, store, ch(c));
    }
}

fn seed(store: &mut TaskStore, titles: &[&str]) {
    for t in titles {
        store.execute(&StoreCommand::Insert { title: t.to_string() });
    }
}

#[test]
fn created_item_appears_once_in_live_view() {
    let mut store = TaskStore::new();
    let mut tl = Todolist::new();
    press_and_deliver(&mut tl, &mut store, ch('c'));
    type_text(&mut tl, &mut store, "abc");
    press_and_deliver(&mut tl, &mut store, key_event(KeyCode::Enter));

    let live = store.live_view();
    assert_eq!(live.len(), 1);
    assert_eq!(live[0].title, "abc");
    assert!(!live[0].done);
    assert!(!live[0].deleted);
}

#[test]
fn generated_identifiers_have_canonical_length() {
    let item = TodoItem::new("anything".to_string());
    assert_eq!(item.id.chars().count(), 36);
    assert_eq!(item.title, "anything");
    assert!(!item.done);
    assert!(!item.deleted);
}

#[test]
fn toggle_done_twice_returns_to_original() {
    let mut store = TaskStore::new();
    seed(&mut store, &["task"]);
    let before = store.live_view();
    assert!(!before[0].done);

    let mut tl = Todolist::new();
    press_and_deliver(&mut tl, &mut store, key_event(KeyCode::Down));
    press_and_deliver(&mut tl, &mut store, key_event(KeyCode::Enter));
    assert!(store.live_view()[0].done);

    press_and_deliver(&mut tl, &mut store, key_event(KeyCode::Enter));
    let after = store.live_view();
    assert!(!after[0].done);
    assert_eq!(after[0].id, before[0].id);
    assert_eq!(after[0].title, before[0].title);
}

#[test]
fn soft_delete_hides_item_but_keeps_it_queryable() {
    let mut store = TaskStore::new();
    seed(&mut store, &["keep", "drop"]);

    // the live list is ordered by the random identifiers: find "drop"
    let pos = store.live_view().iter().position(|t| t.title == "drop").unwrap();
    let mut tl = Todolist::new();
    for _ in 0..=pos {
        press_and_deliver(&mut tl, &mut store, key_event(KeyCode::Down));
    }
    press_and_deliver(&mut tl, &mut store, ch('d'));

    let live = store.live_view();
    assert_eq!(live.len(), 1);
    assert_eq!(live[0].title, "keep");

    // a direct query with no deleted filter still returns the item
    let all = store.all_docs();
    assert_eq!(all.len(), 2);
    let dropped = all.iter().find(|t| t.title == "drop").unwrap();
    assert!(dropped.deleted);
    let kept = all.iter().find(|t| t.title == "keep").unwrap();
    assert!(!kept.deleted);
}

#[test]
fn edited_title_reaches_the_live_view() {
    let mut store = TaskStore::new();
    seed(&mut store, &["old name"]);

    let mut tl = Todolist::new();
    press_and_deliver(&mut tl, &mut store, key_event(KeyCode::Down));
    press_and_deliver(&mut tl, &mut store, ch('e'));
    for _ in 0.."old name".len() {
        press_and_deliver(&mut tl, &mut store, key_event(KeyCode::Backspace));
    }
    type_text(&mut tl, &mut store, "new name");
    press_and_deliver(&mut tl, &mut store, key_event(KeyCode::Enter));

    let live = store.live_view();
    assert_eq!(live.len(), 1);
    assert_eq!(live[0].title, "new name");
}

#[test]
fn sync_commands_flip_the_replication_flag() {
    let mut store = TaskStore::new();
    assert!(!store.is_sync_active());
    let mut tl = Todolist::new();
    press_and_deliver(&mut tl, &mut store, ch('s'));
    assert!(store.is_sync_active());
    press_and_deliver(&mut tl, &mut store, ch('s'));
    assert!(!store.is_sync_active());
}

#[test]
fn documents_are_ordered_by_identifier() {
    let mut store = TaskStore::new();
    seed(&mut store, &["a", "b", "c", "d", "e"]);
    let ids: Vec<String> = store.all_docs().iter().map(|t| t.id.clone()).collect();
    let mut sorted = ids.clone();
    sorted.sort();
    assert_eq!(ids, sorted);
}

#[test]
fn scenario_create_then_toggle_twice() {
    let mut store = TaskStore::new();
    seed(&mut store, &["Buy milk", "Walk dog"]);

    let mut tl = Todolist::new();
    press_and_deliver(&mut tl, &mut store, ch('c'));
    type_text(&mut tl, &mut store, "Call mom");
    press_and_deliver(&mut tl, &mut store, key_event(KeyCode::Enter));

    let live = store.live_view();
    assert_eq!(live.len(), 3);
    let pos = live.iter().position(|t| t.title == "Call mom").expect("new item not visible");
    assert!(!live[pos].done);

    // select "Call mom" and toggle it twice
    for _ in 0..=pos {
        press_and_deliver(&mut tl, &mut store, key_event(KeyCode::Down));
    }
    press_and_deliver(&mut tl, &mut store, key_event(KeyCode::Enter));
    assert!(store.live_view()[pos].done);
    press_and_deliver(&mut tl, &mut store, key_event(KeyCode::Enter));
    assert!(!store.live_view()[pos].done);
}
