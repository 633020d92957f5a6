//! The tree store: nodes are fetched, listed and created through it alone.

use crate::error::DbError;
use crate::filter::{Filter, FilterView};
use crate::laws::lemma_created_node_is_stored;
use crate::models::{
    child_id, new_node, view_of, views, File, FileType, FileView, NewFile, NewFileView,
};
use crate::store::{distinct_ids, find, has_match, inserted, pushed, FileStore};
use crate::tree::{listed_children, plan_insert, planned_insert, validated, Listing};
use vstd::prelude::*;

verus! {

/// Every id of `ids` names a document whose parent is `dir`.
pub open spec fn resolves(docs: Seq<FileView>, dir: Seq<char>, ids: Seq<Seq<char>>) -> bool {
    forall|i: int|
        0 <= i < ids.len() ==> (#[trigger] find(docs, FilterView::child(ids[i], dir))) is Some
}

/// The documents that `ids` name as children of `dir`, in the order of `ids`.
pub open spec fn resolved(docs: Seq<FileView>, dir: Seq<char>, ids: Seq<Seq<char>>) -> Seq<
    FileView,
> {
    Seq::new(ids.len(), |i: int| find(docs, FilterView::child(ids[i], dir)).unwrap())
}

/// What listing the directory `dir` for `owner` gives: its immediate children
/// in the order in which it names them. The directory must belong to `owner`,
/// and a child that it names and the store lacks fails the whole listing.
pub open spec fn list_contents(docs: Seq<FileView>, owner: Seq<char>, dir: Seq<char>) -> Result<
    Seq<FileView>,
    DbError,
> {
    match listed_children(find(docs, FilterView::owned(owner, dir))) {
        Err(e) => Err(e),
        Ok(ids) => if resolves(docs, dir, ids) {
            Ok(resolved(docs, dir, ids))
        } else {
            Err(DbError::NotFound)
        },
    }
}

/// Whether creating a node inside `dir` for `owner` goes through: `dir` must
/// be a directory of `owner`.
pub open spec fn insert_outcome(docs: Seq<FileView>, owner: Seq<char>, dir: Seq<char>) -> Result<
    (),
    DbError,
> {
    validated(find(docs, FilterView::owned(owner, dir)), FileType::DIRECTORY)
}

/// The documents after `new` was created as a `kind` inside `dir` for
/// `owner`: the parent names the new id last, and the new node is stored
/// under that id. Where the creation is refused nothing changes.
pub open spec fn after_insert(
    docs: Seq<FileView>,
    owner: Seq<char>,
    dir: Seq<char>,
    new: NewFileView,
    kind: FileType,
) -> Seq<FileView> {
    match planned_insert(owner, dir, find(docs, FilterView::owned(owner, dir)), new, kind) {
        Err(_) => docs,
        Ok(plan) => inserted(pushed(docs, plan.parent, plan.node.id), plan.node),
    }
}

/// A listing, seen through the views of its nodes.
pub open spec fn listing_view(listing: Result<Vec<File>, DbError>) -> Result<
    Seq<FileView>,
    DbError,
> {
    match listing {
        Ok(nodes) => Ok(views(nodes@)),
        Err(e) => Err(e),
    }
}

/// The tree of files and directories, over the store that holds its nodes.
pub struct Database {
    files: FileStore,
}

impl View for Database {
    type V = Seq<FileView>;

    closed spec fn view(&self) -> Seq<FileView> {
        self.files@
    }
}

impl Database {
    /// The tree whose nodes are the documents of `files`.
    pub fn new(files: FileStore) -> (db: Database)
        ensures
            db@ == files@,
    {
        Database { files }
    }

    /// The store that holds the nodes.
    pub fn files(&self) -> (files: &FileStore)
        ensures
            files@ == self@,
    {
        &self.files
    }

    /// The node with the id `file_name`, whoever owns it; `None` where there
    /// is none.
    pub fn get_file(&self, file_name: &str) -> (found: Option<File>)
        ensures
            view_of(found) == find(self@, FilterView::by_id(file_name@)),
    {
        let filter = Filter::by_id(file_name);
        self.files.find_one(&filter)
    }

    /// Creates `new` as a `kind` inside the directory `dir_id` of `user_id`.
    ///
    /// The creation is refused as not found where no node of the id `dir_id`
    /// belongs to `user_id`, and as a mismatch of kinds where that node is a
    /// file; a refusal changes no document. Otherwise the directory names the
    /// new id as its last child, and the new node is stored under that id, in
    /// the place of a node that had it before.
    pub fn insert_node(
        &mut self,
        user_id: &str,
        dir_id: &str,
        new: NewFile,
        kind: FileType,
    ) -> (done: Result<(), DbError>)
        ensures
            done == insert_outcome(old(self)@, user_id@, dir_id@),
            final(self)@ == after_insert(old(self)@, user_id@, dir_id@, new@, kind),
            done is Err ==> final(self)@ == old(self)@,
            done is Ok ==> find(final(self)@, FilterView::by_id(child_id(dir_id@, new@.name)))
                == Some(new_node(user_id@, dir_id@, new@, kind)),
            distinct_ids(final(self)@),
    {
        let filter = Filter::owned(user_id, dir_id);
        let parent_dir = self.files.find_one(&filter);
        match plan_insert(user_id, dir_id, parent_dir.as_ref(), new, kind) {
            Err(e) => {
                proof {
                    use_type_invariant(&self.files);
                }
                Err(e)
            },
            Ok(plan) => {
                proof {
                    lemma_created_node_is_stored(old(self)@, user_id@, dir_id@, new@, kind);
                }
                self.files.push_child(&plan.parent, plan.node.id.as_str());
                self.files.insert_one(plan.node);
                Ok(())
            },
        }
    }

    /// Creates the file `file` inside the directory `dir_id` of `user_id`,
    /// with the data that `file` carries. It is refused, and changes nothing,
    /// where [`Database::insert_node`] is.
    pub fn add_file(&mut self, user_id: &str, dir_id: &str, file: NewFile) -> (done: Result<
        (),
        DbError,
    >)
        ensures
            done == insert_outcome(old(self)@, user_id@, dir_id@),
            final(self)@ == after_insert(old(self)@, user_id@, dir_id@, file@, FileType::FILE),
            done is Err ==> final(self)@ == old(self)@,
            done is Ok ==> find(final(self)@, FilterView::by_id(child_id(dir_id@, file@.name)))
                == Some(new_node(user_id@, dir_id@, file@, FileType::FILE)),
            distinct_ids(final(self)@),
    {
        self.insert_node(user_id, dir_id, file, FileType::FILE)
    }

    /// Creates the directory `dir`, empty and without data, inside the
    /// directory `dir_id` of `user_id`. It is refused, and changes nothing,
    /// where [`Database::insert_node`] is.
    pub fn add_dir(&mut self, user_id: &str, dir_id: &str, dir: NewFile) -> (done: Result<
        (),
        DbError,
    >)
        ensures
            done == insert_outcome(old(self)@, user_id@, dir_id@),
            final(self)@ == after_insert(old(self)@, user_id@, dir_id@, dir@, FileType::DIRECTORY),
            done is Err ==> final(self)@ == old(self)@,
            done is Ok ==> find(final(self)@, FilterView::by_id(child_id(dir_id@, dir@.name)))
                == Some(new_node(user_id@, dir_id@, dir@, FileType::DIRECTORY)),
            distinct_ids(final(self)@),
    {
        self.insert_node(user_id, dir_id, dir, FileType::DIRECTORY)
    }

    /// Lists the immediate children of the directory `dir_path` of `user_id`,
    /// in the order in which the directory names them.
    ///
    /// The listing is refused as not found where no node of the id `dir_path`
    /// belongs to `user_id`, and as a mismatch of kinds where that node is a
    /// file. Every child is looked up by its id and by `dir_path` as its
    /// parent; one that is not found fails the whole listing as not found.
    pub fn get_contents(&self, user_id: &str, dir_path: &str) -> (contents: Result<
        Vec<File>,
        DbError,
    >)
        ensures
            listing_view(contents) == list_contents(self@, user_id@, dir_path@),
            !has_match(self@, FilterView::owned(user_id@, dir_path@)) ==> contents is Err
                && contents->Err_0 == DbError::NotFound,
    {
        let filter = Filter::owned(user_id, dir_path);
        let query = self.files.find_one(&filter);
        let mut listing = match Listing::begin(dir_path, query) {
            Ok(listing) => listing,
            Err(e) => {
                return Err(e);
            },
        };
        let ghost ids = listing.children();
        loop
            invariant
                listing.dir() == dir_path@,
                listing.children() == ids,
                listed_children(find(self@, FilterView::owned(user_id@, dir_path@))) == Ok::<
                    _,
                    DbError,
                >(ids),
                listing.collected().len() <= ids.len(),
                resolves(self@, dir_path@, ids.take(listing.collected().len() as int)),
                listing.collected() == resolved(
                    self@,
                    dir_path@,
                    ids.take(listing.collected().len() as int),
                ),
            ensures
                !listing.pending(),
            decreases ids.len() - listing.collected().len(),
        {
            let lookup = match listing.next_lookup() {
                Some(lookup) => lookup,
                None => {
                    break ;
                },
            };
            let ghost at = listing.collected().len() as int;
            let child = self.files.find_one(&lookup);
            match listing.supply(child) {
                Ok(_) => {
                    // One more child has resolved, and those before it still do.
                    assert(resolves(self@, dir_path@, ids.take(at + 1)));
                    assert(listing.collected() =~= resolved(self@, dir_path@, ids.take(at + 1)));
                },
                Err(e) => {
                    return Err(e);
                },
            }
        }
        assert(ids.take(ids.len() as int) =~= ids);
        Ok(listing.finish())
    }
}

} // verus!
