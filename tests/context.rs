use minions::context::{contains, substring_filter, Context};
use minions::controller::MinionsApp;
use minions::item::{Item, ItemData};
use minions::status::Status;

fn items(ts: &[&str]) -> Vec<Item> {
    ts.iter().map(|t| Item::new(t)).collect()
}

#[test]
fn contains_substrings() {
    assert!(contains("firefox", "fox"));
    assert!(contains("firefox", ""));
    assert!(contains("fox", "fox"));
    assert!(!contains("fo", "fox"));
    assert!(!contains("firefox", "Fox"));
}

#[test]
fn filter_keeps_list_order() {
    let list = items(&["alpha", "beta", "gamma", "delta", "eta"]);
    assert_eq!(substring_filter(&list, "ta"), vec![1, 3, 4]);
    assert_eq!(substring_filter(&list, "ta"), vec![1, 3, 4]);
    assert_eq!(substring_filter(&list, "x"), Vec::<usize>::new());
    assert_eq!(substring_filter(&list, ""), vec![0, 1, 2, 3, 4]);
}

#[test]
fn context_reset_and_callback() {
    let mut ctx = Context::new(items(&["a", "b"]));
    ctx.async_select_callback(items(&["c"]));
    ctx.set_reference(ItemData::Path("/tmp".to_string()));
    assert_eq!(ctx.list_items.len(), 1);
    assert_eq!(ctx.filter("c"), vec![0]);
    ctx.reset();
    assert_eq!(ctx.list_items.iter().map(|i| i.title.as_str()).collect::<Vec<_>>(), vec!["a", "b"]);
    assert!(ctx.reference.is_none());
    assert_eq!(ctx.root_items().len(), 2);
}

#[test]
fn typing_filters_the_working_set() {
    let mut app = MinionsApp::new(Context::new(items(&["one", "two", "three", "four", "five"])));
    assert!(app.type_char('x', 0));
    match &app.status {
        Status::FilteringEntering(f, 0) => {
            assert_eq!(f.selected_idx, -1);
            assert!(f.filter_indices.is_empty());
        }
        other => panic!("{:?}", other),
    }
    app.process_keyevent_escape();
    assert!(app.type_char('o', 1));
    assert!(app.type_char('u', 2));
    match &app.status {
        Status::FilteringEntering(f, 2) => {
            assert_eq!(f.filter_text, "ou");
            assert_eq!(f.filter_indices, vec![3]);
            assert_eq!(f.selected_idx, 0);
        }
        other => panic!("{:?}", other),
    }
}
