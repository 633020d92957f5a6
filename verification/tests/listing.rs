use my_drive::database::Database;
use my_drive::error::DbError;
use my_drive::filter::Filter;
use my_drive::models::{File, FileType, NewFile};
use my_drive::store::FileStore;

fn seeded(owner: &str) -> Database {
    let mut files = FileStore::new();
    files.insert_one(File::root(owner));
    Database::new(files)
}

fn named(name: &str) -> NewFile {
    NewFile { name: name.to_owned(), parent: None, data: None }
}

#[test]
fn an_empty_directory_lists_nothing() {
    let db = seeded("u1");
    assert_eq!(db.get_contents("u1", "root"), Ok(vec![]));
}

#[test]
fn a_directory_is_listed_for_its_owner_alone() {
    let mut db = seeded("b");
    assert_eq!(db.add_dir("b", "root", named("d")), Ok(()));
    assert_eq!(db.add_file("b", "root/d", named("f")), Ok(()));
    assert_eq!(db.get_contents("a", "root/d"), Err(DbError::NotFound));
    assert_eq!(db.get_contents("a", "root"), Err(DbError::NotFound));
    assert_eq!(db.get_contents("b", "root/d").unwrap().len(), 1);
}

#[test]
fn a_missing_directory_is_not_found() {
    let db = seeded("u1");
    assert_eq!(db.get_contents("u1", "root/none"), Err(DbError::NotFound));
}

#[test]
fn a_file_cannot_be_listed() {
    let mut db = seeded("u1");
    assert_eq!(db.add_file("u1", "root", named("f")), Ok(()));
    assert_eq!(db.get_contents("u1", "root/f"), Err(DbError::TypeMismatch));
}

#[test]
fn a_child_without_a_document_fails_the_whole_listing() {
    let mut files = FileStore::new();
    files.insert_one(File::root("u1"));
    let mut db = Database::new(files);
    assert_eq!(db.add_file("u1", "root", named("a")), Ok(()));

    let mut files = FileStore::new();
    for doc in db.files().documents() {
        files.insert_one(doc);
    }
    assert!(files.push_child(&Filter::owned("u1", "root"), "root/ghost"));
    let mut db = Database::new(files);
    assert_eq!(db.get_contents("u1", "root"), Err(DbError::NotFound));

    // Once the document is there the listing goes through again.
    assert_eq!(db.add_file("u1", "root", named("ghost")), Ok(()));
    let listed = db.get_contents("u1", "root").unwrap();
    let ids: Vec<&str> = listed.iter().map(|node| node.id.as_str()).collect();
    assert_eq!(ids, vec!["root/a", "root/ghost", "root/ghost"]);
}

#[test]
fn a_child_that_names_another_parent_fails_the_listing() {
    let mut files = FileStore::new();
    files.insert_one(File {
        id: "root".to_owned(),
        name: "root".to_owned(),
        file_type: FileType::DIRECTORY,
        owner: "u1".to_owned(),
        children: Some(vec!["root/a".to_owned()]),
        parent: None,
        data: None,
    });
    files.insert_one(File {
        id: "root/a".to_owned(),
        name: "a".to_owned(),
        file_type: FileType::FILE,
        owner: "u1".to_owned(),
        children: None,
        parent: Some("elsewhere".to_owned()),
        data: None,
    });
    let db = Database::new(files);
    assert_eq!(db.get_contents("u1", "root"), Err(DbError::NotFound));
}

#[test]
fn a_directory_without_a_list_of_children_is_a_store_failure() {
    let mut files = FileStore::new();
    files.insert_one(File {
        id: "root".to_owned(),
        name: "root".to_owned(),
        file_type: FileType::DIRECTORY,
        owner: "u1".to_owned(),
        children: None,
        parent: None,
        data: None,
    });
    let db = Database::new(files);
    assert_eq!(db.get_contents("u1", "root"), Err(DbError::StoreFailure));
}

#[test]
fn listing_changes_nothing() {
    let mut db = seeded("u1");
    assert_eq!(db.add_dir("u1", "root", named("d")), Ok(()));
    let before = db.files().documents();
    let first = db.get_contents("u1", "root");
    let second = db.get_contents("u1", "root");
    assert_eq!(first, second);
    assert_eq!(db.files().documents(), before);
}

#[test]
fn a_child_of_another_owner_is_still_listed_for_the_owner_of_the_directory() {
    let mut files = FileStore::new();
    files.insert_one(File {
        id: "root".to_owned(),
        name: "root".to_owned(),
        file_type: FileType::DIRECTORY,
        owner: "u1".to_owned(),
        children: Some(vec!["root/a".to_owned()]),
        parent: None,
        data: None,
    });
    files.insert_one(File {
        id: "root/a".to_owned(),
        name: "a".to_owned(),
        file_type: FileType::FILE,
        owner: "u2".to_owned(),
        children: None,
        parent: Some("root".to_owned()),
        data: None,
    });
    let db = Database::new(files);
    assert_eq!(db.get_contents("u1", "root").unwrap()[0].owner, "u2");
}
