//! Items and the backends that hold them: what a backend decides once the
//! directory or the service has been read.

use std::path::PathBuf;
use vstd::prelude::*;
use vstd::std_specs::convert::IntoSpec;
use vstd::string::*;

verus! {

/// `std::path::PathBuf`, carried through as it is.
#[verifier::external_type_specification]
#[verifier::external_body]
pub struct ExPathBuf(PathBuf);

/// One item of a backend, known by its id.
#[derive(Debug, Clone, PartialEq, Eq)]
pub struct Item {
    pub id: String,
}

/// Why a backend could not answer. The first three carry the message of the
/// failure underneath.
#[derive(Debug, Clone, PartialEq, Eq)]
pub enum CoreError {
    Io(String),
    Http(String),
    Json(String),
    NotFound,
}

/// One entry of a directory: its file name, and whether it is a regular file.
#[derive(Debug, Clone, PartialEq, Eq)]
pub struct Entry {
    pub name: String,
    pub is_file: bool,
}

/// The ids of `items`, in order.
pub open spec fn ids_of(items: Seq<Item>) -> Seq<Seq<char>> {
    items.map_values(|item: Item| item.id@)
}

/// The names of the regular files among `entries`, in order.
pub open spec fn file_names(entries: Seq<Entry>) -> Seq<Seq<char>>
    decreases entries.len(),
{
    if entries.len() == 0 {
        Seq::empty()
    } else if entries.last().is_file {
        file_names(entries.drop_last()).push(entries.last().name@)
    } else {
        file_names(entries.drop_last())
    }
}

/// The text of an error: the kind, then the message underneath.
pub open spec fn error_text(e: CoreError) -> Seq<char> {
    match e {
        CoreError::Io(m) => "io: "@ + m@,
        CoreError::Http(m) => "http: "@ + m@,
        CoreError::Json(m) => "json: "@ + m@,
        CoreError::NotFound => "not found"@,
    }
}

impl CoreError {
    /// The error as text.
    pub fn message(&self) -> (text: String)
        ensures
            text@ == error_text(*self),
    {
        match self {
            CoreError::Io(m) => "io: ".to_owned().concat(m.as_str()),
            CoreError::Http(m) => "http: ".to_owned().concat(m.as_str()),
            CoreError::Json(m) => "json: ".to_owned().concat(m.as_str()),
            CoreError::NotFound => "not found".to_owned(),
        }
    }
}

/// A backend whose items are the regular files of one directory.
pub struct FileBackend {
    dir: PathBuf,
}

impl FileBackend {
    /// The directory of the backend.
    pub closed spec fn dir_path(&self) -> PathBuf {
        self.dir
    }

    /// A backend over the directory `p`: its directory is the path that `p`
    /// converts into.
    pub fn new<P: Into<PathBuf>>(p: P) -> (backend: Self)
        ensures
            call_ensures(P::into, (p,), backend.dir_path()),
            P::obeys_into_spec() ==> backend.dir_path() == p.into_spec(),
    {
        Self { dir: p.into() }
    }

    /// The directory of the backend.
    pub fn dir(&self) -> (dir: &PathBuf)
        ensures
            *dir == self.dir_path(),
    {
        &self.dir
    }

    /// The items of a directory listing: one for each regular file, under the
    /// file's name, in the order of the listing.
    pub fn list(entries: &[Entry]) -> (items: Vec<Item>)
        ensures
            ids_of(items@) == file_names(entries@),
    {
        let mut items: Vec<Item> = Vec::new();
        let mut i: usize = 0;
        while i < entries.len()
            invariant
                0 <= i <= entries.len(),
                ids_of(items@) == file_names(entries@.take(i as int)),
            decreases entries.len() - i,
        {
            proof {
                assert(entries@.take(i + 1).drop_last() =~= entries@.take(i as int));
                assert(entries@.take(i + 1).last() == entries@[i as int]);
            }
            if entries[i].is_file {
                let ghost before = items@;
                items.push(Item { id: entries[i].name.clone() });
                proof {
                    assert(ids_of(items@) =~= ids_of(before).push(entries@[i as int].name@));
                }
            }
            i += 1;
        }
        proof {
            assert(entries@.take(i as int) =~= entries@);
        }
        items
    }

    /// The item `id`, given whether a path of that name exists in the directory
    /// and whether it is a regular file. Anything else is not found.
    pub fn get(id: &str, exists: bool, is_file: bool) -> (found: Result<Item, CoreError>)
        ensures
            found is Ok <==> exists && is_file,
            found matches Ok(item) ==> item.id@ == id@,
            found matches Err(e) ==> e == CoreError::NotFound,
    {
        if exists && is_file {
            Ok(Item { id: id.to_owned() })
        } else {
            Err(CoreError::NotFound)
        }
    }
}

/// The address at which a service lists its items.
pub open spec fn list_address(base: Seq<char>) -> Seq<char> {
    base + "/v1/items"@
}

/// The address at which a service holds the item `id`.
pub open spec fn item_address(base: Seq<char>, id: Seq<char>) -> Seq<char> {
    base + "/v1/items/"@ + id
}

/// The address at which the service at `base` lists its items.
pub fn list_url(base: &str) -> (url: String)
    ensures
        url@ == list_address(base@),
{
    base.to_owned().concat("/v1/items")
}

/// The address at which the service at `base` holds the item `id`.
pub fn item_url(base: &str, id: &str) -> (url: String)
    ensures
        url@ == item_address(base@, id@),
{
    base.to_owned().concat("/v1/items/").concat(id)
}

} // verus!
