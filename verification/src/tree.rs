//! The decisions of the tree operations, apart from any store.
//!
//! Every operation on the tree alternates lookups and writes in a store with
//! decisions on what came back. The decisions are here, as functions from what
//! the store answered to what is to be done next, so that they are the same
//! whichever store carries them out.

use crate::error::DbError;
use crate::filter::{Filter, FilterView};
use crate::models::{new_node, view_of, views, File, FileType, FileView, NewFile, NewFileView};
use vstd::prelude::*;

verus! {

/// What the check of a looked-up node says: the node must exist and be of
/// the wanted kind.
pub open spec fn validated(found: Option<FileView>, wanted: FileType) -> Result<(), DbError> {
    match found {
        None => Err(DbError::NotFound),
        Some(doc) => if doc.file_type == wanted {
            Ok(())
        } else {
            Err(DbError::TypeMismatch)
        },
    }
}

/// Checks that a looked-up node exists and is of the wanted kind.
pub fn validate(file: Option<&File>, file_type: FileType) -> (checked: Result<(), DbError>)
    ensures
        checked == validated(view_of(file), file_type),
{
    match file {
        Some(file) => {
            if file.file_type != file_type {
                return Err(DbError::TypeMismatch);
            }
        },
        None => {
            return Err(DbError::NotFound);
        },
    }
    Ok(())
}

/// What an [`InsertPlan`] holds, as mathematical values.
pub ghost struct InsertPlanView {
    pub parent: FilterView,
    pub node: FileView,
}

/// The two writes that link a new node into the tree: the id of `node` is
/// appended to the children of the document that `parent` finds, then `node`
/// is stored.
#[derive(Debug, PartialEq, Eq)]
pub struct InsertPlan {
    pub parent: Filter,
    pub node: File,
}

impl View for InsertPlan {
    type V = InsertPlanView;

    open spec fn view(&self) -> InsertPlanView {
        InsertPlanView { parent: self.parent@, node: self.node@ }
    }
}

/// The writes that creating `new` as a `kind` inside `dir` takes, given what
/// the lookup of `dir` for `owner` found.
pub open spec fn planned_insert(
    owner: Seq<char>,
    dir: Seq<char>,
    found: Option<FileView>,
    new: NewFileView,
    kind: FileType,
) -> Result<InsertPlanView, DbError> {
    match validated(found, FileType::DIRECTORY) {
        Err(e) => Err(e),
        Ok(_) => Ok(
            InsertPlanView {
                parent: FilterView::owned(owner, dir),
                node: new_node(owner, dir, new, kind),
            },
        ),
    }
}

/// A plan or its refusal, with the plan seen through its view.
pub open spec fn plan_view(plan: Result<InsertPlan, DbError>) -> Result<InsertPlanView, DbError> {
    match plan {
        Ok(p) => Ok(p@),
        Err(e) => Err(e),
    }
}

/// Decides what creating `new` as a `kind` inside the directory `dir_id`
/// takes, once the lookup of that directory for `user_id` has answered with
/// `parent`.
pub fn plan_insert(
    user_id: &str,
    dir_id: &str,
    parent: Option<&File>,
    new: NewFile,
    kind: FileType,
) -> (plan: Result<InsertPlan, DbError>)
    ensures
        plan_view(plan) == planned_insert(user_id@, dir_id@, view_of(parent), new@, kind),
        plan matches Ok(p) ==> p.node@.well_typed(),
{
    match validate(parent, FileType::DIRECTORY) {
        Err(e) => Err(e),
        Ok(_) => Ok(
            InsertPlan {
                parent: Filter::owned(user_id, dir_id),
                node: File::create(user_id, dir_id, new, kind),
            },
        ),
    }
}

/// What the check of a directory that is to be listed gives: the ids of its
/// children. A directory without a list of children is no node at all.
pub open spec fn listed_children(found: Option<FileView>) -> Result<Seq<Seq<char>>, DbError> {
    match validated(found, FileType::DIRECTORY) {
        Err(e) => Err(e),
        Ok(_) => match found.unwrap().children {
            Some(ids) => Ok(ids),
            None => Err(DbError::StoreFailure),
        },
    }
}

/// A listing of a directory under way: the children that the directory
/// names, and those of them that were looked up so far, in the same order.
pub struct Listing {
    dir_id: String,
    children: Vec<String>,
    found: Vec<File>,
}

impl Listing {
    /// The id of the directory that is being listed.
    pub closed spec fn dir(&self) -> Seq<char> {
        self.dir_id@
    }

    /// The ids that the directory names as its children.
    pub closed spec fn children(&self) -> Seq<Seq<char>> {
        self.children.deep_view()
    }

    /// The children looked up so far.
    pub closed spec fn collected(&self) -> Seq<FileView> {
        views(self.found@)
    }

    /// Whether a child is still to be looked up.
    pub open spec fn pending(&self) -> bool {
        self.collected().len() < self.children().len()
    }

    /// The lookup that is due next: the first child not yet looked up, which
    /// must name the directory as its parent.
    pub open spec fn spec_next_lookup(&self) -> Option<FilterView> {
        if self.pending() {
            Some(FilterView::child(self.children()[self.collected().len() as int], self.dir()))
        } else {
            None
        }
    }

    /// Starts the listing of the directory `dir_id`, given what its lookup
    /// found. The node must exist, be a directory and hold a list of children.
    pub fn begin(dir_id: &str, dir: Option<File>) -> (started: Result<Listing, DbError>)
        ensures
            match started {
                Ok(listing) => {
                    &&& listed_children(view_of(dir)) == Ok::<_, DbError>(listing.children())
                    &&& listing.dir() == dir_id@
                    &&& listing.collected() == Seq::<FileView>::empty()
                },
                Err(e) => listed_children(view_of(dir)) == Err::<Seq<Seq<char>>, _>(e),
            },
    {
        let node = match dir {
            Some(node) => node,
            None => {
                return Err(DbError::NotFound);
            },
        };
        match node.file_type {
            FileType::DIRECTORY => {},
            FileType::FILE => {
                return Err(DbError::TypeMismatch);
            },
        }
        match node.children {
            Some(children) => Ok(
                Listing { dir_id: dir_id.to_owned(), children, found: Vec::new() },
            ),
            None => Err(DbError::StoreFailure),
        }
    }

    /// The lookup that is due next, or `None` when every child was looked up.
    pub fn next_lookup(&self) -> (lookup: Option<Filter>)
        ensures
            view_of(lookup) == self.spec_next_lookup(),
    {
        let at: usize = self.found.len();
        if at < self.children.len() {
            Some(Filter::child(self.children[at].as_str(), self.dir_id.as_str()))
        } else {
            None
        }
    }

    /// Takes the answer to the lookup that was due. A child that the store
    /// does not hold fails the listing; nothing is skipped. Once every child
    /// was looked up an answer changes nothing.
    pub fn supply(&mut self, answer: Option<File>) -> (taken: Result<(), DbError>)
        ensures
            final(self).dir() == old(self).dir(),
            final(self).children() == old(self).children(),
            old(self).pending() && answer is None ==> {
                &&& taken == Err::<(), _>(DbError::NotFound)
                &&& final(self).collected() == old(self).collected()
            },
            old(self).pending() && answer is Some ==> {
                &&& taken == Ok::<_, DbError>(())
                &&& final(self).collected() == old(self).collected().push(answer.unwrap()@)
            },
            !old(self).pending() ==> {
                &&& taken == Ok::<_, DbError>(())
                &&& final(self).collected() == old(self).collected()
            },
    {
        if self.found.len() >= self.children.len() {
            return Ok(());
        }
        match answer {
            Some(node) => {
                self.found.push(node);
                Ok(())
            },
            None => Err(DbError::NotFound),
        }
    }

    /// The children looked up, in the order in which the directory names
    /// them.
    pub fn finish(self) -> (nodes: Vec<File>)
        ensures
            views(nodes@) == self.collected(),
    {
        self.found
    }
}

} // verus!
