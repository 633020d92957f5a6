//! Exact-match queries over the documents of the store.

use crate::models::{File, FileType, FileView};
use vstd::prelude::*;

verus! {

/// What a [`Filter`] asks for, as mathematical values.
pub ghost struct FilterView {
    pub id: Option<Seq<char>>,
    pub owner: Option<Seq<char>>,
    pub file_type: Option<FileType>,
    pub parent: Option<Seq<char>>,
    pub name: Option<Seq<char>>,
}

impl FilterView {
    /// A document matches when it agrees with every field that the filter
    /// names. A filter that names a parent matches no document without one.
    pub open spec fn matches(self, doc: FileView) -> bool {
        &&& self.id matches Some(id) ==> doc.id == id
        &&& self.owner matches Some(owner) ==> doc.owner == owner
        &&& self.file_type matches Some(tag) ==> doc.file_type == tag
        &&& self.parent matches Some(parent) ==> doc.parent == Some(parent)
        &&& self.name matches Some(name) ==> doc.name == name
    }

    /// The filter that names an id alone.
    pub open spec fn by_id(id: Seq<char>) -> FilterView {
        FilterView { id: Some(id), owner: None, file_type: None, parent: None, name: None }
    }

    /// The filter that names an owner and an id.
    pub open spec fn owned(owner: Seq<char>, id: Seq<char>) -> FilterView {
        FilterView { id: Some(id), owner: Some(owner), file_type: None, parent: None, name: None }
    }

    /// The filter that names an id and the parent that must hold it.
    pub open spec fn child(id: Seq<char>, parent: Seq<char>) -> FilterView {
        FilterView { id: Some(id), owner: None, file_type: None, parent: Some(parent), name: None }
    }
}

/// A conjunction of exact matches; a field left `None` is not asked about.
#[derive(Debug, PartialEq, Eq)]
pub struct Filter {
    pub id: Option<String>,
    pub owner: Option<String>,
    pub file_type: Option<FileType>,
    pub parent: Option<String>,
    pub name: Option<String>,
}

impl View for Filter {
    type V = FilterView;

    open spec fn view(&self) -> FilterView {
        FilterView {
            id: self.id.deep_view(),
            owner: self.owner.deep_view(),
            file_type: self.file_type,
            parent: self.parent.deep_view(),
            name: self.name.deep_view(),
        }
    }
}

/// Whether a wanted text, if one is wanted, is the text at hand.
fn text_agrees(wanted: &Option<String>, found: &String) -> (ok: bool)
    ensures
        ok == (wanted.deep_view() matches Some(text) ==> found@ == text),
{
    match wanted {
        Some(text) => *text == *found,
        None => true,
    }
}

impl Filter {
    pub fn by_id(id: &str) -> (filter: Filter)
        ensures
            filter@ == FilterView::by_id(id@),
    {
        Filter { id: Some(id.to_owned()), owner: None, file_type: None, parent: None, name: None }
    }

    pub fn owned(owner: &str, id: &str) -> (filter: Filter)
        ensures
            filter@ == FilterView::owned(owner@, id@),
    {
        Filter {
            id: Some(id.to_owned()),
            owner: Some(owner.to_owned()),
            file_type: None,
            parent: None,
            name: None,
        }
    }

    pub fn child(id: &str, parent: &str) -> (filter: Filter)
        ensures
            filter@ == FilterView::child(id@, parent@),
    {
        Filter {
            id: Some(id.to_owned()),
            owner: None,
            file_type: None,
            parent: Some(parent.to_owned()),
            name: None,
        }
    }

    /// Whether `doc` agrees with every field that the filter names.
    pub fn matches(&self, doc: &File) -> (ok: bool)
        ensures
            ok == self@.matches(doc@),
    {
        let tag_ok = match self.file_type {
            Some(tag) => tag == doc.file_type,
            None => true,
        };
        let parent_ok = match &self.parent {
            Some(parent) => match &doc.parent {
                Some(found) => *parent == *found,
                None => false,
            },
            None => true,
        };
        text_agrees(&self.id, &doc.id) && text_agrees(&self.owner, &doc.owner) && tag_ok
            && parent_ok && text_agrees(&self.name, &doc.name)
    }
}

} // verus!
