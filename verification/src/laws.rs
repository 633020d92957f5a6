//! What holds of the tree operations on every store.

use crate::database::{after_insert, insert_outcome, list_contents, resolved, resolves};
use crate::error::DbError;
use crate::filter::FilterView;
use crate::models::{child_id, new_node, root_id, FileType, FileView, NewFileView};
use crate::store::{
    distinct_ids, find, first_match, has_match, inserted, is_first_match,
    lemma_first_match_exists, lemma_first_match_unique, pushed,
};
use crate::tree::listed_children;
use vstd::prelude::*;

verus! {

/// Every document agrees with its tag.
pub open spec fn all_well_typed(docs: Seq<FileView>) -> bool {
    forall|i: int| 0 <= i < docs.len() ==> (#[trigger] docs[i]).well_typed()
}

/// A stored document is found again under its id.
pub proof fn lemma_inserted_is_found(docs: Seq<FileView>, doc: FileView)
    ensures
        find(inserted(docs, doc), FilterView::by_id(doc.id)) == Some(doc),
        inserted(docs, doc).len() >= docs.len(),
{
    let key = FilterView::by_id(doc.id);
    let after = inserted(docs, doc);
    if has_match(docs, key) {
        lemma_first_match_exists(docs, key);
        lemma_first_match_unique(after, key, first_match(docs, key));
    } else {
        lemma_first_match_unique(after, key, docs.len() as int);
    }
}

/// A node that was created is in the store under the id made of the
/// directory's id, a slash and its own name, with the directory as its parent
/// and the caller as its owner; and its optional fields agree with its tag: a
/// file lists no children, a directory carries no data.
pub proof fn lemma_created_node_is_stored(
    docs: Seq<FileView>,
    owner: Seq<char>,
    dir: Seq<char>,
    new: NewFileView,
    kind: FileType,
)
    requires
        insert_outcome(docs, owner, dir) is Ok,
    ensures
        ({
            let after = after_insert(docs, owner, dir, new, kind);
            let id = dir + seq!['/'] + new.name;
            &&& find(after, FilterView::by_id(id)) matches Some(node)
            &&& node == new_node(owner, dir, new, kind)
            &&& node.id == id
            &&& node.name == new.name
            &&& node.file_type == kind
            &&& node.owner == owner
            &&& node.parent == Some(dir)
            &&& kind == FileType::FILE ==> node.children is None && node.data == new.data
            &&& kind == FileType::DIRECTORY ==> node.children == Some(Seq::<Seq<char>>::empty())
                && node.data is None
            &&& node.well_typed()
        }),
{
    let node = new_node(owner, dir, new, kind);
    let linked = pushed(docs, FilterView::owned(owner, dir), node.id);
    lemma_inserted_is_found(linked, node);
}

/// Creating a node leaves every document in agreement with its tag, where
/// every document was so before.
pub proof fn lemma_insert_keeps_types(
    docs: Seq<FileView>,
    owner: Seq<char>,
    dir: Seq<char>,
    new: NewFileView,
    kind: FileType,
)
    requires
        all_well_typed(docs),
    ensures
        all_well_typed(after_insert(docs, owner, dir, new, kind)),
{
    let parent = FilterView::owned(owner, dir);
    if insert_outcome(docs, owner, dir) is Ok {
        let node = new_node(owner, dir, new, kind);
        let at = first_match(docs, parent);
        lemma_first_match_exists(docs, parent);
        let linked = pushed(docs, parent, node.id);
        assert(all_well_typed(linked));
        let key = FilterView::by_id(node.id);
        if has_match(linked, key) {
            lemma_first_match_exists(linked, key);
        }
    }
}

/// A node that was created is listed last in its directory, after the
/// children that were listed before, which keep their ids and their order.
pub proof fn lemma_created_node_is_listed(
    docs: Seq<FileView>,
    owner: Seq<char>,
    dir: Seq<char>,
    new: NewFileView,
    kind: FileType,
)
    requires
        insert_outcome(docs, owner, dir) is Ok,
        list_contents(docs, owner, dir) is Ok,
    ensures
        ({
            let before = list_contents(docs, owner, dir).unwrap();
            let after = after_insert(docs, owner, dir, new, kind);
            &&& list_contents(after, owner, dir) matches Ok(listed)
            &&& listed.len() == before.len() + 1
            &&& listed.last() == new_node(owner, dir, new, kind)
            &&& forall|i: int| 0 <= i < before.len() ==> (#[trigger] listed[i]).id == before[i].id
        }),
{
    let parent = FilterView::owned(owner, dir);
    let node = new_node(owner, dir, new, kind);
    let key = FilterView::by_id(node.id);
    let at = first_match(docs, parent);
    lemma_first_match_exists(docs, parent);
    let ids = docs[at].children.unwrap();
    let linked = pushed(docs, parent, node.id);
    let after = inserted(linked, node);
    if has_match(linked, key) {
        lemma_first_match_exists(linked, key);
    }
    // The directory still stands where it stood, with one more child.
    lemma_first_match_unique(after, parent, at);
    let grown = ids.push(node.id);
    // Every child that resolved before still resolves, to a node of its id.
    assert forall|i: int| 0 <= i < ids.len() implies {
        &&& (#[trigger] find(after, FilterView::child(grown[i], dir))) is Some
        &&& find(after, FilterView::child(grown[i], dir)).unwrap().id == ids[i]
        &&& find(docs, FilterView::child(ids[i], dir)).unwrap().id == ids[i]
    } by {
        let child = FilterView::child(ids[i], dir);
        let m = first_match(docs, child);
        lemma_first_match_exists(docs, child);
        assert(child.matches(after[m]));
        lemma_first_match_exists(after, child);
    }
    // The new child resolves to the new node.
    let made = FilterView::child(node.id, dir);
    if has_match(linked, key) {
        lemma_first_match_unique(after, made, first_match(linked, key));
    } else {
        lemma_first_match_unique(after, made, linked.len() as int);
    }
    assert(list_contents(after, owner, dir) == Ok::<_, DbError>(resolved(after, dir, grown)));
}

/// Creating a node removes no document and moves none. A document of
/// another id than the new one stays as it was, but that the directory that
/// takes the node names it as its last child.
pub proof fn lemma_insert_only_grows(
    docs: Seq<FileView>,
    owner: Seq<char>,
    dir: Seq<char>,
    new: NewFileView,
    kind: FileType,
)
    ensures
        ({
            let after = after_insert(docs, owner, dir, new, kind);
            let id = child_id(dir, new.name);
            &&& docs.len() <= after.len() <= docs.len() + 1
            &&& forall|i: int|
                0 <= i < docs.len() ==> (#[trigger] after[i]).id == docs[i].id && (docs[i].id
                    != id ==> after[i] == docs[i] || after[i] == docs[i].with_child(id))
        }),
{
    let parent = FilterView::owned(owner, dir);
    if insert_outcome(docs, owner, dir) is Ok {
        let node = new_node(owner, dir, new, kind);
        let key = FilterView::by_id(node.id);
        lemma_first_match_exists(docs, parent);
        let linked = pushed(docs, parent, node.id);
        if has_match(linked, key) {
            lemma_first_match_exists(linked, key);
        }
    }
}

/// The root is never created: no node that is created has its id.
pub proof fn lemma_root_is_never_created(
    owner: Seq<char>,
    dir: Seq<char>,
    new: NewFileView,
    kind: FileType,
)
    ensures
        new_node(owner, dir, new, kind).id != root_id(),
{
    let id = new_node(owner, dir, new, kind).id;
    // The id holds a slash, where the directory's id ends; the root's id
    // holds none.
    assert(id[dir.len() as int] == '/');
    assert(root_id().len() == 4);
}

/// Creating a node inside a file is refused as a mismatch of kinds, and
/// changes no document.
pub proof fn lemma_file_parent_is_refused(
    docs: Seq<FileView>,
    owner: Seq<char>,
    dir: Seq<char>,
    new: NewFileView,
    kind: FileType,
)
    requires
        find(docs, FilterView::owned(owner, dir)) matches Some(parent) && parent.file_type
            == FileType::FILE,
    ensures
        insert_outcome(docs, owner, dir) == Err::<(), _>(DbError::TypeMismatch),
        after_insert(docs, owner, dir, new, kind) == docs,
{
}

/// Creating a node inside a directory that no document stands for is refused
/// as not found, and changes no document.
pub proof fn lemma_missing_parent_is_refused(
    docs: Seq<FileView>,
    owner: Seq<char>,
    dir: Seq<char>,
    new: NewFileView,
    kind: FileType,
)
    requires
        !has_match(docs, FilterView::by_id(dir)),
    ensures
        insert_outcome(docs, owner, dir) == Err::<(), _>(DbError::NotFound),
        after_insert(docs, owner, dir, new, kind) == docs,
{
    let owned = FilterView::owned(owner, dir);
    if has_match(docs, owned) {
        // The directory that was found would have the id.
        lemma_first_match_exists(docs, owned);
    }
}

/// A directory is listed for its owner alone: for anyone else it is not
/// found, though it is there.
pub proof fn lemma_listing_is_for_the_owner(
    docs: Seq<FileView>,
    asker: Seq<char>,
    dir: Seq<char>,
)
    requires
        distinct_ids(docs),
        find(docs, FilterView::by_id(dir)) matches Some(node) && node.owner != asker,
    ensures
        list_contents(docs, asker, dir) == Err::<Seq<FileView>, _>(DbError::NotFound),
{
    let owned = FilterView::owned(asker, dir);
    lemma_first_match_exists(docs, FilterView::by_id(dir));
    if has_match(docs, owned) {
        // What the asker found would have the id too, so it would be the
        // same document, which belongs to another.
        lemma_first_match_exists(docs, owned);
    }
}

/// A lookup by id depends on the documents and the id alone: asked twice of
/// the same documents it answers the same.
pub proof fn lemma_lookup_repeats(
    docs: Seq<FileView>,
    id: Seq<char>,
    first: Option<FileView>,
    second: Option<FileView>,
)
    requires
        first == find(docs, FilterView::by_id(id)),
        second == find(docs, FilterView::by_id(id)),
    ensures
        first == second,
{
}

} // verus!
