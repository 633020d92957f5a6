use my_drive::filter::Filter;
use my_drive::models::{File, FileType};
use my_drive::store::FileStore;

fn node(id: &str, owner: &str, parent: Option<&str>, kind: FileType) -> File {
    File {
        id: id.to_owned(),
        name: id.rsplit('/').next().unwrap().to_owned(),
        file_type: kind,
        owner: owner.to_owned(),
        children: match kind {
            FileType::DIRECTORY => Some(vec![]),
            FileType::FILE => None,
        },
        parent: parent.map(|p| p.to_owned()),
        data: None,
    }
}

#[test]
fn a_new_store_is_empty() {
    let store = FileStore::new();
    assert_eq!(store.len(), 0);
    assert_eq!(store.documents(), vec![]);
    assert_eq!(store.find_one(&Filter::by_id("root")), None);
}

#[test]
fn documents_come_back_in_the_order_of_their_arrival() {
    let mut store = FileStore::new();
    store.insert_one(node("root", "u", None, FileType::DIRECTORY));
    store.insert_one(node("root/b", "u", Some("root"), FileType::FILE));
    store.insert_one(node("root/a", "u", Some("root"), FileType::FILE));
    let ids: Vec<String> = store.documents().into_iter().map(|d| d.id).collect();
    assert_eq!(ids, vec!["root", "root/b", "root/a"]);
    assert_eq!(store.len(), 3);
}

#[test]
fn a_document_of_a_known_id_takes_the_place_of_the_old_one() {
    let mut store = FileStore::new();
    store.insert_one(node("root", "u", None, FileType::DIRECTORY));
    store.insert_one(node("root/a", "u", Some("root"), FileType::FILE));
    store.insert_one(node("root/b", "u", Some("root"), FileType::FILE));
    store.insert_one(node("root/a", "v", Some("root"), FileType::DIRECTORY));
    assert_eq!(store.len(), 3);
    let docs = store.documents();
    assert_eq!(docs[1], node("root/a", "v", Some("root"), FileType::DIRECTORY));
    assert_eq!(docs[2].id, "root/b");
}

#[test]
fn find_one_gives_the_first_match() {
    let mut store = FileStore::new();
    store.insert_one(node("root", "u", None, FileType::DIRECTORY));
    store.insert_one(node("root/a", "u", Some("root"), FileType::FILE));
    store.insert_one(node("root/b", "u", Some("root"), FileType::FILE));
    let by_parent = Filter {
        id: None,
        owner: None,
        file_type: None,
        parent: Some("root".to_owned()),
        name: None,
    };
    assert_eq!(store.find_one(&by_parent).unwrap().id, "root/a");
    let by_kind = Filter {
        id: None,
        owner: None,
        file_type: Some(FileType::DIRECTORY),
        parent: None,
        name: None,
    };
    assert_eq!(store.find_one(&by_kind).unwrap().id, "root");
    let by_name = Filter {
        id: None,
        owner: None,
        file_type: None,
        parent: None,
        name: Some("b".to_owned()),
    };
    assert_eq!(store.find_one(&by_name).unwrap().id, "root/b");
    let anything = Filter { id: None, owner: None, file_type: None, parent: None, name: None };
    assert_eq!(store.find_one(&anything).unwrap().id, "root");
}

#[test]
fn find_one_asks_for_every_named_field() {
    let mut store = FileStore::new();
    store.insert_one(node("root", "u", None, FileType::DIRECTORY));
    store.insert_one(node("root/a", "u", Some("root"), FileType::FILE));
    assert!(store.find_one(&Filter::owned("u", "root/a")).is_some());
    assert_eq!(store.find_one(&Filter::owned("v", "root/a")), None);
    assert!(store.find_one(&Filter::child("root/a", "root")).is_some());
    assert_eq!(store.find_one(&Filter::child("root/a", "other")), None);
    // The root has no parent: no filter that names one finds it.
    assert_eq!(store.find_one(&Filter::child("root", "")), None);
    assert_eq!(store.find_one(&Filter::by_id("root/c")), None);
}

#[test]
fn find_one_hands_out_a_copy() {
    let mut store = FileStore::new();
    store.insert_one(node("root", "u", None, FileType::DIRECTORY));
    let mut copy = store.find_one(&Filter::by_id("root")).unwrap();
    copy.owner = "someone else".to_owned();
    assert_eq!(store.find_one(&Filter::by_id("root")).unwrap().owner, "u");
}

#[test]
fn push_child_appends_to_the_first_match_alone() {
    let mut store = FileStore::new();
    store.insert_one(node("root", "u", None, FileType::DIRECTORY));
    store.insert_one(node("root/d", "u", Some("root"), FileType::DIRECTORY));
    assert!(store.push_child(&Filter::owned("u", "root"), "root/x"));
    assert!(store.push_child(&Filter::owned("u", "root"), "root/y"));
    let docs = store.documents();
    assert_eq!(docs[0].children, Some(vec!["root/x".to_owned(), "root/y".to_owned()]));
    assert_eq!(docs[1], node("root/d", "u", Some("root"), FileType::DIRECTORY));
    assert_eq!(store.len(), 2);
}

#[test]
fn push_child_without_a_match_changes_nothing() {
    let mut store = FileStore::new();
    store.insert_one(node("root", "u", None, FileType::DIRECTORY));
    let before = store.documents();
    assert!(!store.push_child(&Filter::owned("v", "root"), "root/x"));
    assert!(!store.push_child(&Filter::by_id("nowhere"), "root/x"));
    assert_eq!(store.documents(), before);
}

#[test]
fn push_child_starts_a_list_where_there_was_none() {
    let mut store = FileStore::new();
    store.insert_one(node("root/f", "u", Some("root"), FileType::FILE));
    assert!(store.push_child(&Filter::by_id("root/f"), "root/f/x"));
    assert_eq!(store.documents()[0].children, Some(vec!["root/f/x".to_owned()]));
}

#[test]
fn a_filter_matches_what_agrees_with_every_named_field() {
    let doc = node("root/a", "u", Some("root"), FileType::FILE);
    assert!(Filter::by_id("root/a").matches(&doc));
    assert!(!Filter::by_id("root/b").matches(&doc));
    assert!(Filter::owned("u", "root/a").matches(&doc));
    assert!(!Filter::owned("v", "root/a").matches(&doc));
    assert!(!Filter::owned("u", "root/b").matches(&doc));
    assert!(Filter::child("root/a", "root").matches(&doc));
    assert!(!Filter::child("root/a", "roo").matches(&doc));
    let full = Filter {
        id: Some("root/a".to_owned()),
        owner: Some("u".to_owned()),
        file_type: Some(FileType::FILE),
        parent: Some("root".to_owned()),
        name: Some("a".to_owned()),
    };
    assert!(full.matches(&doc));
    assert!(!Filter { file_type: Some(FileType::DIRECTORY), ..full }.matches(&doc));
    let empty = Filter { id: None, owner: None, file_type: None, parent: None, name: None };
    assert!(empty.matches(&doc));
}

#[test]
fn the_filters_name_the_fields_that_their_names_say() {
    assert_eq!(
        Filter::by_id("x"),
        Filter { id: Some("x".to_owned()), owner: None, file_type: None, parent: None, name: None }
    );
    assert_eq!(
        Filter::owned("o", "x"),
        Filter {
            id: Some("x".to_owned()),
            owner: Some("o".to_owned()),
            file_type: None,
            parent: None,
            name: None,
        }
    );
    assert_eq!(
        Filter::child("x", "p"),
        Filter {
            id: Some("x".to_owned()),
            owner: None,
            file_type: None,
            parent: Some("p".to_owned()),
            name: None,
        }
    );
}
