use todo_list::client::Command;
use todo_list::client::Model;
use todo_list::client::Msg;
use todo_list::client::init;
use todo_list::client::update;
use todo_list::text::trim_text;

fn fresh() -> Model {
    let (model, cmd) = init();
    assert!(matches!(cmd, Command::FetchItems));
    model
}

#[test]
fn init_starts_empty_and_fetches() {
    let (model, cmd) = init();
    assert!(model.items.is_empty());
    assert_eq!(model.new_item, "");
    assert_eq!(model.selection, None);
    assert_eq!(model.error, None);
    assert!(matches!(cmd, Command::FetchItems));
}

#[test]
fn fetched_snapshot_replaces_cache() {
    let mut model = fresh();
    let snap = vec!["a".to_string(), "b".to_string()];
    let cmd = update(Msg::FetchedItems(Ok(snap.clone())), &mut model);
    assert!(matches!(cmd, Command::NoRequest));
    assert_eq!(model.items, snap);
    assert_eq!(model.error, None);
}

#[test]
fn fetch_failure_records_error_and_keeps_cache() {
    let mut model = fresh();
    update(Msg::FetchedItems(Ok(vec!["a".to_string()])), &mut model);
    let cmd = update(
        Msg::FetchedItems(Err("connection lost".to_string())),
        &mut model,
    );
    assert!(matches!(cmd, Command::NoRequest));
    assert_eq!(model.items, vec!["a".to_string()]);
    assert_eq!(model.error, Some("connection lost".to_string()));
}

#[test]
fn input_change_replaces_pending_text() {
    let mut model = fresh();
    let cmd = update(Msg::NewItemInputChanged("  hi ".to_string()), &mut model);
    assert!(matches!(cmd, Command::NoRequest));
    assert_eq!(model.new_item, "  hi ");
}

#[test]
fn save_sends_trimmed_text_and_clears_input() {
    let mut model = fresh();
    update(Msg::NewItemInputChanged("  milk  ".to_string()), &mut model);
    let cmd = update(Msg::Save, &mut model);
    match cmd {
        Command::SaveItem(text) => assert_eq!(text, "milk"),
        _ => panic!("expected a save command"),
    }
    assert_eq!(model.new_item, "");
}

#[test]
fn save_of_blank_input_sends_nothing() {
    let mut model = fresh();
    update(Msg::NewItemInputChanged("   \t ".to_string()), &mut model);
    let cmd = update(Msg::Save, &mut model);
    assert!(matches!(cmd, Command::NoRequest));
    assert_eq!(model.new_item, "   \t ");
}

#[test]
fn clear_sent_only_for_non_empty_cache() {
    let mut model = fresh();
    let cmd = update(Msg::Clear, &mut model);
    assert!(matches!(cmd, Command::NoRequest));
    update(Msg::FetchedItems(Ok(vec!["a".to_string()])), &mut model);
    let cmd2 = update(Msg::Clear, &mut model);
    assert!(matches!(cmd2, Command::ClearItems));
    assert_eq!(model.items, vec!["a".to_string()]);
}

#[test]
fn delete_is_always_sent() {
    let mut model = fresh();
    let cmd = update(Msg::Delete(4), &mut model);
    assert!(matches!(cmd, Command::DeleteItem(4)));
}

#[test]
fn swap_intent_two_click_protocol() {
    let mut model = fresh();
    let cmd = update(Msg::Swap(2), &mut model);
    assert!(matches!(cmd, Command::NoRequest));
    assert_eq!(model.selection, Some(2));

    let cmd2 = update(Msg::Swap(2), &mut model);
    assert!(matches!(cmd2, Command::NoRequest));
    assert_eq!(model.selection, None);

    let cmd3 = update(Msg::Swap(2), &mut model);
    assert!(matches!(cmd3, Command::NoRequest));
    let cmd4 = update(Msg::Swap(0), &mut model);
    assert!(matches!(cmd4, Command::SwapItems(2, 0)));
    assert_eq!(model.selection, None);
}

#[test]
fn cache_is_never_mutated_locally() {
    let mut model = fresh();
    update(Msg::FetchedItems(Ok(vec!["a".to_string()])), &mut model);
    update(Msg::NewItemInputChanged("b".to_string()), &mut model);
    update(Msg::Save, &mut model);
    update(Msg::Delete(0), &mut model);
    update(Msg::Swap(0), &mut model);
    assert_eq!(model.items, vec!["a".to_string()]);
}

#[test]
fn trim_removes_leading_and_trailing_whitespace() {
    assert_eq!(trim_text(" \t a b \n "), "a b");
    assert_eq!(trim_text("plain"), "plain");
    assert_eq!(trim_text("   "), "");
    assert_eq!(trim_text(""), "");
    assert_eq!(trim_text("\u{a0}x\u{a0}"), "x");
}
