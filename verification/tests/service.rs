use todo_list::service::Request;
use todo_list::service::apply;
use todo_list::service::delete_by_value;
use todo_list::store::ListError;
use todo_list::store::TodoStore;

fn filled(items: &[&str]) -> TodoStore {
    let mut st = TodoStore::new();
    for it in items {
        st.append(it.to_string());
    }
    st
}

#[test]
fn list_returns_snapshot_without_change() {
    let mut st = filled(&["a", "b"]);
    let r = apply(&mut st, Request::List);
    assert_eq!(r, Ok(vec!["a".to_string(), "b".to_string()]));
    assert_eq!(st.len(), 2);
}

#[test]
fn add_returns_updated_list() {
    let mut st = filled(&["a"]);
    let r = apply(&mut st, Request::Add("b".to_string()));
    assert_eq!(r, Ok(vec!["a".to_string(), "b".to_string()]));
}

#[test]
fn clear_returns_empty_list() {
    let mut st = filled(&["a", "b"]);
    let r = apply(&mut st, Request::Clear);
    assert_eq!(r, Ok(Vec::<String>::new()));
}

#[test]
fn delete_in_range_returns_updated_list() {
    let mut st = filled(&["a", "b", "c"]);
    let r = apply(&mut st, Request::Delete(0));
    assert_eq!(r, Ok(vec!["b".to_string(), "c".to_string()]));
}

#[test]
fn delete_out_of_range_fails_and_preserves_list() {
    let mut st = filled(&["a", "b", "c"]);
    let r = apply(&mut st, Request::Delete(5));
    assert_eq!(r, Err(ListError::OutOfRange));
    assert_eq!(st.len(), 3);
    assert_eq!(
        st.snapshot(),
        vec!["a".to_string(), "b".to_string(), "c".to_string()]
    );
}

#[test]
fn swap_returns_updated_list() {
    let mut st = filled(&["a", "b", "c"]);
    let r = apply(&mut st, Request::Swap(2, 0));
    assert_eq!(r, Ok(vec!["c".to_string(), "b".to_string(), "a".to_string()]));
}

#[test]
fn swap_out_of_range_fails_and_preserves_list() {
    let mut st = filled(&["a", "b"]);
    let r = apply(&mut st, Request::Swap(0, 9));
    assert_eq!(r, Err(ListError::OutOfRange));
    assert_eq!(st.snapshot(), vec!["a".to_string(), "b".to_string()]);
}

#[test]
fn serialized_adds_lose_nothing() {
    let mut st = TodoStore::new();
    let n = 50;
    for i in 0..n {
        let r = apply(&mut st, Request::Add(format!("w{}", i)));
        assert!(r.is_ok());
    }
    let snap = st.snapshot();
    assert_eq!(snap.len(), n);
    for i in 0..n {
        assert_eq!(snap[i], format!("w{}", i));
    }
}

#[test]
fn delete_by_value_removes_lowest_indexed_match() {
    let mut st = filled(&["a", "b", "a"]);
    let r = delete_by_value(&mut st, &"a".to_string());
    assert_eq!(r, Ok(vec!["b".to_string(), "a".to_string()]));
}

#[test]
fn delete_by_value_not_found_fails_and_preserves_list() {
    let mut st = filled(&["a", "b"]);
    let r = delete_by_value(&mut st, &"zzz".to_string());
    assert_eq!(r, Err(ListError::NotFound));
    assert_eq!(st.snapshot(), vec!["a".to_string(), "b".to_string()]);
}
