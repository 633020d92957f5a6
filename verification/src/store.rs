//! The documents of the tree, held in memory in the order of their arrival.

use crate::filter::{Filter, FilterView};
use crate::models::{view_of, views, File, FileView};
use vstd::pervasive::VecAdditionalExecFns;
use vstd::prelude::*;

verus! {

/// No two documents share an id.
pub open spec fn distinct_ids(docs: Seq<FileView>) -> bool {
    forall|i: int, j: int| 0 <= i < j < docs.len() ==> docs[i].id != docs[j].id
}

/// Some document matches the filter.
pub open spec fn has_match(docs: Seq<FileView>, filter: FilterView) -> bool {
    exists|i: int| 0 <= i < docs.len() && filter.matches(#[trigger] docs[i])
}

/// The document at `at` matches the filter and none before it does.
pub open spec fn is_first_match(docs: Seq<FileView>, filter: FilterView, at: int) -> bool {
    &&& 0 <= at < docs.len()
    &&& filter.matches(docs[at])
    &&& forall|j: int| 0 <= j < at ==> !filter.matches(#[trigger] docs[j])
}

/// Where the first document that matches the filter stands.
pub open spec fn first_match(docs: Seq<FileView>, filter: FilterView) -> int {
    choose|at: int| is_first_match(docs, filter, at)
}

/// The first document that matches the filter, if any does.
pub open spec fn find(docs: Seq<FileView>, filter: FilterView) -> Option<FileView> {
    if has_match(docs, filter) {
        Some(docs[first_match(docs, filter)])
    } else {
        None
    }
}

/// Before a document that matches stands a first one that does.
proof fn lemma_least_match(docs: Seq<FileView>, filter: FilterView, upto: int)
    requires
        0 <= upto < docs.len(),
        filter.matches(docs[upto]),
    ensures
        exists|at: int| is_first_match(docs, filter, at),
    decreases upto,
{
    if exists|j: int| 0 <= j < upto && filter.matches(#[trigger] docs[j]) {
        let j = choose|j: int| 0 <= j < upto && filter.matches(#[trigger] docs[j]);
        lemma_least_match(docs, filter, j);
    } else {
        assert(is_first_match(docs, filter, upto));
    }
}

/// Where a document matches, the first match is one: it matches, and no
/// document before it does.
pub proof fn lemma_first_match_exists(docs: Seq<FileView>, filter: FilterView)
    requires
        has_match(docs, filter),
    ensures
        is_first_match(docs, filter, first_match(docs, filter)),
        find(docs, filter) == Some(docs[first_match(docs, filter)]),
{
    let some = choose|i: int| 0 <= i < docs.len() && filter.matches(#[trigger] docs[i]);
    lemma_least_match(docs, filter, some);
}

/// Only one place can be that of the first match.
pub proof fn lemma_first_match_unique(docs: Seq<FileView>, filter: FilterView, at: int)
    requires
        is_first_match(docs, filter, at),
    ensures
        has_match(docs, filter),
        first_match(docs, filter) == at,
        find(docs, filter) == Some(docs[at]),
{
    // Of two first matches neither stands before the other.
    assert(is_first_match(docs, filter, first_match(docs, filter)));
}

/// The documents after an id was appended to the children of the first
/// document that matches the filter; unchanged where none matches.
pub open spec fn pushed(docs: Seq<FileView>, filter: FilterView, child: Seq<char>) -> Seq<
    FileView,
> {
    if has_match(docs, filter) {
        let at = first_match(docs, filter);
        docs.update(at, docs[at].with_child(child))
    } else {
        docs
    }
}

/// The documents after `doc` was stored under its id: in the place of the
/// document that had the id, or else at the end.
pub open spec fn inserted(docs: Seq<FileView>, doc: FileView) -> Seq<FileView> {
    let key = FilterView::by_id(doc.id);
    if has_match(docs, key) {
        docs.update(first_match(docs, key), doc)
    } else {
        docs.push(doc)
    }
}

/// Replacing a document by one of the same id keeps the ids distinct.
pub proof fn lemma_update_keeps_ids(docs: Seq<FileView>, at: int, doc: FileView)
    requires
        distinct_ids(docs),
        0 <= at < docs.len(),
        doc.id == docs[at].id,
    ensures
        distinct_ids(docs.update(at, doc)),
{
}

/// Appends `child` to the children of the document at `at`.
fn append_child(docs: &mut Vec<File>, at: usize, child: String)
    requires
        at < old(docs).len(),
    ensures
        views(final(docs)@) == views(old(docs)@).update(
            at as int,
            old(docs)[at as int]@.with_child(child@),
        ),
{
    let doc = &mut docs[at];
    match &mut doc.children {
        Some(ids) => {
            let ghost listed = ids.deep_view();
            ids.push(child);
            assert(ids.deep_view() =~= listed.push(child@));
        },
        None => {
            let ids = vec![child];
            assert(ids.deep_view() =~= seq![child@]);
            doc.children = Some(ids);
        },
    }
    assert(views(docs@) =~= views(old(docs)@).update(
        at as int,
        old(docs)[at as int]@.with_child(child@),
    ));
}

/// A flat collection of node documents, keyed by their ids.
pub struct FileStore {
    docs: Vec<File>,
}

impl View for FileStore {
    type V = Seq<FileView>;

    closed spec fn view(&self) -> Seq<FileView> {
        views(self.docs@)
    }
}

impl FileStore {
    /// The id is the key of a document: the store never holds two documents
    /// with one id.
    #[verifier::type_invariant]
    pub open spec fn ids_are_keys(&self) -> bool {
        distinct_ids(self@)
    }

    /// A store without documents.
    pub fn new() -> (store: FileStore)
        ensures
            store@ == Seq::<FileView>::empty(),
    {
        FileStore { docs: Vec::new() }
    }

    /// How many documents the store holds.
    pub fn len(&self) -> (n: usize)
        ensures
            n == self@.len(),
    {
        self.docs.len()
    }

    /// A copy of every document, in the order of the store.
    pub fn documents(&self) -> (copies: Vec<File>)
        ensures
            views(copies@) == self@,
    {
        let mut copies: Vec<File> = Vec::new();
        let mut i: usize = 0;
        while i < self.docs.len()
            invariant
                i <= self.docs.len(),
                copies@.len() == i,
                views(copies@) == self@.take(i as int),
            decreases self.docs.len() - i,
        {
            let ghost copied = copies@;
            copies.push(self.docs[i].clone());
            assert forall|j: int| 0 <= j < i implies views(copies@)[j] == self@[j] by {
                assert(views(copied)[j] == self@.take(i as int)[j]);
            }
            i += 1;
        }
        copies
    }

    /// Where the first document that matches the filter stands.
    fn position(&self, filter: &Filter) -> (at: Option<usize>)
        ensures
            match at {
                Some(i) => is_first_match(self@, filter@, i as int),
                None => !has_match(self@, filter@),
            },
    {
        let mut i: usize = 0;
        while i < self.docs.len()
            invariant
                i <= self.docs.len(),
                forall|j: int| 0 <= j < i ==> !filter@.matches(#[trigger] self@[j]),
            decreases self.docs.len() - i,
        {
            if filter.matches(&self.docs[i]) {
                return Some(i);
            }
            i += 1;
        }
        None
    }

    /// The first document that matches the filter, if any does.
    pub fn find_one(&self, filter: &Filter) -> (found: Option<File>)
        ensures
            view_of(found) == find(self@, filter@),
    {
        match self.position(filter) {
            Some(i) => {
                proof {
                    lemma_first_match_unique(self@, filter@, i as int);
                }
                Some(self.docs[i].clone())
            },
            None => None,
        }
    }

    /// Appends `child` to the children of the first document that matches
    /// the filter, and says whether one matched.
    pub fn push_child(&mut self, filter: &Filter, child: &str) -> (matched: bool)
        ensures
            matched == has_match(old(self)@, filter@),
            final(self)@ == pushed(old(self)@, filter@, child@),
            distinct_ids(final(self)@),
    {
        proof {
            use_type_invariant(&*self);
        }
        match self.position(filter) {
            Some(i) => {
                proof {
                    lemma_first_match_unique(self@, filter@, i as int);
                }
                let mut docs: Vec<File> = Vec::new();
                core::mem::swap(&mut self.docs, &mut docs);
                append_child(&mut docs, i, child.to_owned());
                proof {
                    lemma_update_keeps_ids(old(self)@, i as int, views(docs@)[i as int]);
                }
                core::mem::swap(&mut self.docs, &mut docs);
                true
            },
            None => false,
        }
    }

    /// Stores `doc` under its id. A document that had the id gives way to it
    /// and `doc` takes its place; otherwise `doc` becomes the last document.
    pub fn insert_one(&mut self, doc: File)
        ensures
            final(self)@ == inserted(old(self)@, doc@),
            distinct_ids(final(self)@),
    {
        proof {
            use_type_invariant(&*self);
        }
        let key = Filter::by_id(doc.id.as_str());
        let place = self.position(&key);
        let mut docs: Vec<File> = Vec::new();
        core::mem::swap(&mut self.docs, &mut docs);
        match place {
            Some(i) => {
                proof {
                    lemma_first_match_unique(old(self)@, key@, i as int);
                    lemma_update_keeps_ids(old(self)@, i as int, doc@);
                }
                docs.set(i, doc);
                assert(views(docs@) =~= old(self)@.update(i as int, doc@));
            },
            None => {
                docs.push(doc);
                assert(views(docs@) =~= old(self)@.push(doc@));
                // No document had the id, so the ids are still distinct.
                assert(distinct_ids(old(self)@.push(doc@)));
            },
        }
        core::mem::swap(&mut self.docs, &mut docs);
    }
}

} // verus!
