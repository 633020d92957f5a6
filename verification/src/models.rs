//! The documents of the tree and their mathematical views.

use bson::Binary;
use vstd::prelude::*;
use vstd::string::StringExecFns;

verus! {

/// `bson::Binary`: a run of bytes together with its subtype. The tree takes
/// such a value with a request and keeps it in the node, and never looks
/// inside.
#[verifier::external_type_specification]
#[verifier::external_body]
pub struct ExBinary(bson::Binary);

/// `Binary::clone`, which bson derives: the copy has the subtype and the
/// bytes of the value it was made from.
pub assume_specification[ <bson::Binary as Clone>::clone ](data: &bson::Binary) -> (copy:
    bson::Binary)
    ensures
        copy == *data,
;

/// The closed two-valued tag that tells a file from a directory.
#[allow(non_camel_case_types)]
#[derive(Clone, Copy, Debug, PartialEq, Eq, Structural)]
pub enum FileType {
    FILE,
    DIRECTORY,
}

impl FileType {
    /// The number under which the tag is persisted.
    pub open spec fn spec_code(self) -> i32 {
        match self {
            FileType::FILE => 0i32,
            FileType::DIRECTORY => 1i32,
        }
    }

    /// The tag that a persisted number stands for, if any.
    pub open spec fn spec_from_code(code: i32) -> Option<FileType> {
        if code == 0 {
            Some(FileType::FILE)
        } else if code == 1 {
            Some(FileType::DIRECTORY)
        } else {
            None
        }
    }

    /// The number under which the tag is persisted: 0 for a file, 1 for a
    /// directory.
    pub fn code(self) -> (code: i32)
        ensures
            code == self.spec_code(),
    {
        match self {
            FileType::FILE => 0i32,
            FileType::DIRECTORY => 1i32,
        }
    }

    /// The tag that a persisted number stands for; `None` for a number that
    /// stands for none.
    pub fn from_code(code: i32) -> (tag: Option<FileType>)
        ensures
            tag == Self::spec_from_code(code),
    {
        if code == 0 {
            Some(FileType::FILE)
        } else if code == 1 {
            Some(FileType::DIRECTORY)
        } else {
            None
        }
    }
}

/// What a [`File`] document holds, as mathematical values.
pub ghost struct FileView {
    pub id: Seq<char>,
    pub name: Seq<char>,
    pub file_type: FileType,
    pub owner: Seq<char>,
    pub children: Option<Seq<Seq<char>>>,
    pub parent: Option<Seq<char>>,
    pub data: Option<Binary>,
}

/// One node of the tree: a file or a directory.
#[derive(Debug, PartialEq, Eq)]
pub struct File {
    /// The id of the parent, a separator and the name; the primary key.
    pub id: String,
    pub name: String,
    pub file_type: FileType,
    pub owner: String,
    pub children: Option<Vec<String>>,
    pub parent: Option<String>,
    pub data: Option<Binary>,
}

impl View for File {
    type V = FileView;

    open spec fn view(&self) -> FileView {
        FileView {
            id: self.id@,
            name: self.name@,
            file_type: self.file_type,
            owner: self.owner@,
            children: self.children.deep_view(),
            parent: self.parent.deep_view(),
            data: self.data,
        }
    }
}

/// What a [`NewFile`] holds, as mathematical values.
pub ghost struct NewFileView {
    pub name: Seq<char>,
    pub parent: Option<Seq<char>>,
    pub data: Option<Binary>,
}

/// What the caller gives of a node that is to be created.
#[derive(Debug, PartialEq, Eq)]
pub struct NewFile {
    /// The node's own segment, not its whole path.
    pub name: String,
    pub parent: Option<String>,
    /// The contents, for a file; a directory takes none.
    pub data: Option<Binary>,
}

impl View for NewFile {
    type V = NewFileView;

    open spec fn view(&self) -> NewFileView {
        NewFileView {
            name: self.name@,
            parent: self.parent.deep_view(),
            data: self.data,
        }
    }
}

/// What a [`User`] record holds, as mathematical values.
pub ghost struct UserView {
    pub id: Seq<char>,
    pub friends: Seq<Seq<char>>,
}

/// A principal that can own nodes.
#[derive(Debug, PartialEq, Eq)]
pub struct User {
    pub id: String,
    pub friends: Vec<String>,
}

impl View for User {
    type V = UserView;

    open spec fn view(&self) -> UserView {
        UserView { id: self.id@, friends: self.friends.deep_view() }
    }
}

/// The views of a run of documents, one for one.
pub open spec fn views(docs: Seq<File>) -> Seq<FileView> {
    Seq::new(docs.len(), |i: int| docs[i]@)
}

/// What a lookup gave, as a mathematical value.
pub open spec fn view_of<T: View>(found: Option<T>) -> Option<T::V> {
    match found {
        Some(doc) => Some(doc@),
        None => None,
    }
}

impl FileView {
    /// The same document with one more id at the end of its children. A
    /// document that had no list gets one.
    pub open spec fn with_child(self, child: Seq<char>) -> FileView {
        FileView {
            children: Some(
                match self.children {
                    Some(ids) => ids.push(child),
                    None => seq![child],
                },
            ),
            ..self
        }
    }

    /// A file lists no children; a directory lists some, possibly none, and
    /// carries no data.
    pub open spec fn well_typed(self) -> bool {
        &&& self.file_type == FileType::FILE ==> self.children is None
        &&& self.file_type == FileType::DIRECTORY ==> self.children is Some && self.data is None
    }
}

/// The id of the node called `name` inside the directory `parent`.
pub open spec fn child_id(parent: Seq<char>, name: Seq<char>) -> Seq<char> {
    parent + seq!['/'] + name
}

/// The node that comes of `new` when it is created as a `kind` inside the
/// directory `parent` on behalf of `owner`.
pub open spec fn new_node(
    owner: Seq<char>,
    parent: Seq<char>,
    new: NewFileView,
    kind: FileType,
) -> FileView {
    FileView {
        id: child_id(parent, new.name),
        name: new.name,
        file_type: kind,
        owner,
        children: if kind == FileType::DIRECTORY {
            Some(Seq::empty())
        } else {
            None
        },
        parent: Some(parent),
        data: if kind == FileType::FILE {
            new.data
        } else {
            None
        },
    }
}

/// The id of the root directory.
pub open spec fn root_id() -> Seq<char> {
    seq!['r', 'o', 'o', 't']
}

/// The root directory of `owner`, still empty.
pub open spec fn root_of(owner: Seq<char>) -> FileView {
    FileView {
        id: root_id(),
        name: root_id(),
        file_type: FileType::DIRECTORY,
        owner,
        children: Some(Seq::empty()),
        parent: None,
        data: None,
    }
}

/// Joins the id of a directory and the name of a node inside it.
pub fn join_id(parent: &str, name: &str) -> (id: String)
    ensures
        id@ == child_id(parent@, name@),
{
    proof {
        reveal_strlit("/");
    }
    parent.to_owned().concat("/").concat(name)
}

impl File {
    /// The well-known root directory, owned by `owner` and empty.
    pub fn root(owner: &str) -> (node: File)
        ensures
            node@ == root_of(owner@),
    {
        proof {
            reveal_strlit("root");
        }
        let node = File {
            id: "root".to_owned(),
            name: "root".to_owned(),
            file_type: FileType::DIRECTORY,
            owner: owner.to_owned(),
            children: Some(Vec::new()),
            parent: None,
            data: None,
        };
        assert(node.id@ =~= root_id());
        assert(node.children.deep_view() =~= Some(Seq::<Seq<char>>::empty()));
        node
    }

    /// Builds the node that `new` describes, as a `kind` inside the directory
    /// `parent`, owned by `owner`. A directory starts empty and drops any
    /// data handed in; a file keeps its data and lists nothing.
    pub fn create(owner: &str, parent: &str, new: NewFile, kind: FileType) -> (node: File)
        ensures
            node@ == new_node(owner@, parent@, new@, kind),
            node@.well_typed(),
    {
        let id = join_id(parent, new.name.as_str());
        let children: Option<Vec<String>> = match kind {
            FileType::DIRECTORY => Some(Vec::new()),
            FileType::FILE => None,
        };
        let data = match kind {
            FileType::DIRECTORY => None,
            FileType::FILE => new.data,
        };
        let node = File {
            id,
            name: new.name,
            file_type: kind,
            owner: owner.to_owned(),
            children,
            parent: Some(parent.to_owned()),
            data,
        };
        assert(node.children.deep_view() =~= new_node(owner@, parent@, new@, kind).children);
        node
    }

    /// Whether the optional fields agree with the tag.
    pub fn is_well_typed(&self) -> (ok: bool)
        ensures
            ok == self@.well_typed(),
    {
        match self.file_type {
            FileType::FILE => self.children.is_none(),
            FileType::DIRECTORY => self.children.is_some() && self.data.is_none(),
        }
    }
}

impl Clone for File {
    fn clone(&self) -> (copy: Self)
        ensures
            copy@ == self@,
    {
        let children = match &self.children {
            Some(ids) => Some(ids.clone()),
            None => None,
        };
        let parent = match &self.parent {
            Some(p) => Some(p.clone()),
            None => None,
        };
        let data = match &self.data {
            Some(bytes) => Some(bytes.clone()),
            None => None,
        };
        File {
            id: self.id.clone(),
            name: self.name.clone(),
            file_type: self.file_type,
            owner: self.owner.clone(),
            children,
            parent,
            data,
        }
    }
}

} // verus!

