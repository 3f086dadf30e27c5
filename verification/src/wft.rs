//! The Wi-Fi file-transfer protocol: which address to ask, and what an answer
//! means.

use crate::json::{json_document, Json, JsonTree};
use vstd::prelude::*;
use vstd::string::*;

verus! {

/// One file or subdirectory of a listing.
#[derive(Debug, Clone, PartialEq, Eq)]
pub struct Entry {
    /// The name, which no other entry of the same listing has.
    pub name: String,
    /// The length in bytes.
    pub size: u64,
    /// The full remote path.
    pub path: String,
    /// When the entry was last changed.
    pub modified: u64,
    /// The extension of the name.
    pub extension: String,
}

/// What an [`Entry`] stands for.
pub ghost struct EntryView {
    pub name: Seq<char>,
    pub size: u64,
    pub path: Seq<char>,
    pub modified: u64,
    pub extension: Seq<char>,
}

impl View for Entry {
    type V = EntryView;

    open spec fn view(&self) -> EntryView {
        EntryView {
            name: self.name@,
            size: self.size,
            path: self.path@,
            modified: self.modified,
            extension: self.extension@,
        }
    }
}

/// What a list of entries stands for.
pub open spec fn entry_views(entries: Seq<Entry>) -> Seq<EntryView> {
    Seq::new(entries.len(), |i: int| entries[i]@)
}

/// The listing of one remote directory.
#[derive(Debug, Clone, PartialEq, Eq)]
pub struct Directory {
    /// The subdirectories, in the listing's order.
    pub directories: Vec<Entry>,
    /// The files, in the listing's order.
    pub files: Vec<Entry>,
}

/// What a [`Directory`] stands for.
pub ghost struct DirectoryView {
    pub directories: Seq<EntryView>,
    pub files: Seq<EntryView>,
}

impl View for Directory {
    type V = DirectoryView;

    open spec fn view(&self) -> DirectoryView {
        DirectoryView {
            directories: entry_views(self.directories@),
            files: entry_views(self.files@),
        }
    }
}

/// The sum of the sizes of `files`.
pub open spec fn total_size(files: Seq<EntryView>) -> nat
    decreases files.len(),
{
    if files.len() == 0 {
        0
    } else {
        total_size(files.drop_last()) + files.last().size as nat
    }
}

impl DirectoryView {
    /// The sum of the sizes of the files.
    pub open spec fn total_size(self) -> nat {
        total_size(self.files)
    }

    /// The sum of the sizes of the files, where it is below 2^64.
    pub open spec fn checked_total_size(self) -> Option<u64> {
        if self.total_size() <= u64::MAX {
            Some(self.total_size() as u64)
        } else {
            None
        }
    }
}

/// The answer by which the server says that it cannot list a directory.
#[derive(Debug, Clone, PartialEq, Eq)]
pub struct ErrorResponse {
    /// The server's message.
    pub error: String,
}

/// Why an answer to a listing request is neither an error object nor a
/// listing.
#[derive(Debug, Clone, Copy, PartialEq, Eq, Structural)]
pub enum FormatFailure {
    /// The answer is no JSON text.
    NotJson,
    /// The answer is JSON, but no listing.
    NotListing,
}

/// Why a run ends early.
#[derive(Debug, Clone, PartialEq, Eq)]
pub enum Error {
    /// The server answered with an error object; its message.
    NotFound(String),
    /// The request did not get through; what the transport said.
    NetworkFailure(String),
    /// The answer to a listing request could not be read.
    UnexpectedFormat(FormatFailure),
    /// A downloaded file could not be written to `path`.
    LocalWriteFailure { path: String, reason: String },
}

/// What an [`Error`] stands for.
pub ghost enum ErrorView {
    NotFound(Seq<char>),
    NetworkFailure(Seq<char>),
    UnexpectedFormat(FormatFailure),
    LocalWriteFailure { path: Seq<char>, reason: Seq<char> },
}

impl View for Error {
    type V = ErrorView;

    open spec fn view(&self) -> ErrorView {
        match self {
            Error::NotFound(message) => ErrorView::NotFound(message@),
            Error::NetworkFailure(reason) => ErrorView::NetworkFailure(reason@),
            Error::UnexpectedFormat(failure) => ErrorView::UnexpectedFormat(*failure),
            Error::LocalWriteFailure { path, reason } => ErrorView::LocalWriteFailure {
                path: path@,
                reason: reason@,
            },
        }
    }
}

/// The entry that a JSON object describes: its members `name`, `path` and
/// `extension` are texts, `size` and `modified` whole numbers from 0 to
/// 2^64 - 1. Other members do not count.
pub open spec fn entry_of(json: JsonTree) -> Option<EntryView> {
    if json.text_member("name"@) is Some && json.number_member("size"@) is Some
        && json.text_member("path"@) is Some && json.number_member("modified"@) is Some
        && json.text_member("extension"@) is Some {
        Some(
            EntryView {
                name: json.text_member("name"@)->0,
                size: json.number_member("size"@)->0,
                path: json.text_member("path"@)->0,
                modified: json.number_member("modified"@)->0,
                extension: json.text_member("extension"@)->0,
            },
        )
    } else {
        None
    }
}

/// The entries that a JSON array describes, in its order. `None` where the
/// tree is no array or one of its items is no entry.
pub open spec fn entries_of(json: JsonTree) -> Option<Seq<EntryView>> {
    match json {
        JsonTree::Array(items) => {
            if forall|i: int| 0 <= i < items.len() ==> entry_of(#[trigger] items[i]) is Some {
                Some(Seq::new(items.len(), |i: int| entry_of(items[i])->0))
            } else {
                None
            }
        },
        _ => None,
    }
}

/// The entries under the member `key` of a listing: none where the object has
/// no such member.
pub open spec fn listed(json: JsonTree, key: Seq<char>) -> Option<Seq<EntryView>> {
    match json.member(key) {
        None => Some(Seq::empty()),
        Some(list) => entries_of(list),
    }
}

/// The listing that a JSON object describes.
pub open spec fn directory_of(json: JsonTree) -> Option<DirectoryView> {
    if json is Object && listed(json, "directories"@) is Some && listed(json, "files"@) is Some {
        Some(
            DirectoryView {
                directories: listed(json, "directories"@)->0,
                files: listed(json, "files"@)->0,
            },
        )
    } else {
        None
    }
}

/// The message of an error object: the text of its member `error`.
pub open spec fn error_of(json: JsonTree) -> Option<Seq<char>> {
    json.text_member("error"@)
}

/// What a JSON document means as the answer to a listing request. An error
/// object is an error whatever else it holds; only what is no error object is
/// read as a listing.
pub open spec fn listing_of(json: JsonTree) -> Result<DirectoryView, ErrorView> {
    match error_of(json) {
        Some(message) => Err(ErrorView::NotFound(message)),
        None => match directory_of(json) {
            Some(directory) => Ok(directory),
            None => Err(ErrorView::UnexpectedFormat(FormatFailure::NotListing)),
        },
    }
}

/// What the outcome of a listing request means: the body that came, read as
/// JSON and then as a listing, or the failure of the transport.
pub open spec fn directory_outcome(fetched: Result<Seq<char>, Seq<char>>) -> Result<
    DirectoryView,
    ErrorView,
> {
    match fetched {
        Err(reason) => Err(ErrorView::NetworkFailure(reason)),
        Ok(body) => match json_document(body) {
            None => Err(ErrorView::UnexpectedFormat(FormatFailure::NotJson)),
            Some(json) => listing_of(json),
        },
    }
}

/// What the result of reading a listing stands for: the listing, or the
/// error.
pub open spec fn listing_view(r: Result<(Option<u64>, Directory), Error>) -> Result<
    DirectoryView,
    ErrorView,
> {
    match r {
        Ok((_, directory)) => Ok(directory@),
        Err(error) => Err(error@),
    }
}

impl Entry {
    /// Reads an entry from a JSON object.
    pub fn from_json(json: &Json) -> (r: Option<Entry>)
        ensures
            match r {
                Some(entry) => entry_of(json@) == Some(entry@),
                None => entry_of(json@) is None,
            },
    {
        let name = json.text_member("name");
        let size = json.number_member("size");
        let path = json.text_member("path");
        let modified = json.number_member("modified");
        let extension = json.text_member("extension");
        match (name, size, path, modified, extension) {
            (Some(name), Some(size), Some(path), Some(modified), Some(extension)) => Some(
                Entry {
                    name: name.clone(),
                    size,
                    path: path.clone(),
                    modified,
                    extension: extension.clone(),
                },
            ),
            _ => None,
        }
    }

    /// Reads the entries of a JSON array.
    pub fn list_from_json(json: &Json) -> (r: Option<Vec<Entry>>)
        ensures
            match r {
                Some(entries) => entries_of(json@) == Some(entry_views(entries@)),
                None => entries_of(json@) is None,
            },
    {
        match json {
            Json::Array(items) => {
                let ghost trees = json@->Array_0;
                let mut entries: Vec<Entry> = Vec::new();
                let mut i: usize = 0;
                while i < items.len()
                    invariant
                        i <= items.len(),
                        json@ == JsonTree::Array(trees),
                        trees.len() == items.len(),
                        forall|k: int| 0 <= k < items.len() ==> trees[k] == (#[trigger] items[k])@,
                        entries.len() == i,
                        forall|k: int|
                            0 <= k < i ==> entry_of(#[trigger] trees[k]) == Some(entries[k]@),
                    decreases items.len() - i,
                {
                    match Entry::from_json(&items[i]) {
                        Some(entry) => entries.push(entry),
                        None => return None,
                    }
                    i = i + 1;
                }
                assert(entries_of(json@)->0 =~= entry_views(entries@));
                Some(entries)
            },
            _ => None,
        }
    }
}

impl Directory {
    /// Reads the entries under the member `key` of a listing.
    fn listed(json: &Json, key: &str) -> (r: Option<Vec<Entry>>)
        ensures
            match r {
                Some(entries) => listed(json@, key@) == Some(entry_views(entries@)),
                None => listed(json@, key@) is None,
            },
    {
        match json.member(key) {
            None => Some(Vec::new()),
            Some(list) => Entry::list_from_json(list),
        }
    }

    /// Reads a listing from a JSON object. A member that the object does not
    /// have stands for no entries.
    pub fn from_json(json: &Json) -> (r: Option<Directory>)
        ensures
            match r {
                Some(directory) => directory_of(json@) == Some(directory@),
                None => directory_of(json@) is None,
            },
    {
        match json {
            Json::Object(_) => {
                let directories = Directory::listed(json, "directories");
                let files = Directory::listed(json, "files");
                match (directories, files) {
                    (Some(directories), Some(files)) => Some(Directory { directories, files }),
                    _ => None,
                }
            },
            _ => None,
        }
    }

    /// The sum of the sizes of the files, where it is below 2^64.
    pub fn checked_total_size(&self) -> (r: Option<u64>)
        ensures
            r == self@.checked_total_size(),
    {
        let ghost files = self@.files;
        let mut total: u64 = 0;
        let mut i: usize = 0;
        while i < self.files.len()
            invariant
                i <= self.files.len(),
                files == self@.files,
                total == total_size(files.subrange(0, i as int)),
            decreases self.files.len() - i,
        {
            assert(files.subrange(0, i + 1).drop_last() == files.subrange(0, i as int));
            match total.checked_add(self.files[i].size) {
                Some(sum) => total = sum,
                None => {
                    proof {
                        lemma_total_size_grows(files, i + 1);
                    }
                    return None;
                },
            }
            i = i + 1;
        }
        assert(files.subrange(0, i as int) == files);
        Some(total)
    }

    /// The sum of the sizes of the files.
    pub fn total_size(&self) -> (total: u64)
        requires
            self@.total_size() <= u64::MAX,
        ensures
            total == self@.total_size(),
    {
        self.checked_total_size().unwrap()
    }
}

/// The sizes of the first `n` files sum to no more than those of all.
pub proof fn lemma_total_size_grows(files: Seq<EntryView>, n: int)
    requires
        0 <= n <= files.len(),
    ensures
        total_size(files.subrange(0, n)) <= total_size(files),
    decreases files.len(),
{
    if n == files.len() {
        assert(files.subrange(0, n) == files);
    } else {
        lemma_total_size_grows(files.drop_last(), n);
        assert(files.drop_last().subrange(0, n) == files.subrange(0, n));
    }
}

impl ErrorResponse {
    /// Reads an error object: a JSON object whose member `error` is a text.
    pub fn from_json(json: &Json) -> (r: Option<ErrorResponse>)
        ensures
            match r {
                Some(response) => error_of(json@) == Some(response.error@),
                None => error_of(json@) is None,
            },
    {
        match json.text_member("error") {
            Some(message) => Some(ErrorResponse { error: message.clone() }),
            None => None,
        }
    }
}

/// Reads a JSON document as the answer to a listing request: first as an
/// error object, and only where it is none as a listing. Beside the listing
/// stands the sum of the sizes of its files, where that is below 2^64.
pub fn read_listing(json: &Json) -> (r: Result<(Option<u64>, Directory), Error>)
    ensures
        listing_view(r) == listing_of(json@),
        r matches Ok((total, directory)) ==> total == directory@.checked_total_size(),
{
    match ErrorResponse::from_json(json) {
        Some(response) => Err(Error::NotFound(response.error)),
        None => match Directory::from_json(json) {
            Some(directory) => Ok((directory.checked_total_size(), directory)),
            None => Err(Error::UnexpectedFormat(FormatFailure::NotListing)),
        },
    }
}

/// A client of one Wi-Fi file-transfer server. It holds the server's address
/// and nothing else: every request stands for itself.
pub struct Wft {
    address: String,
}

impl View for Wft {
    type V = Seq<char>;

    /// The address of the server: host, a colon and the port.
    closed spec fn view(&self) -> Seq<char> {
        self.address@
    }
}

impl Wft {
    /// A client of the server at `address`: host, a colon and the port.
    pub fn new(address: String) -> (wft: Self)
        ensures
            wft@ == address@,
    {
        Self { address }
    }

    /// The address to ask for the listing of the remote directory `path`.
    pub fn directory_url(&self, path: &str) -> (url: String)
        ensures
            url@ == "http://"@ + self@ + "/api/directory/root"@ + path@,
    {
        "http://".to_owned().concat(self.address.as_str()).concat("/api/directory/root").concat(
            path,
        )
    }

    /// What the outcome of a listing request means. `fetched` is the body
    /// that came, or what the transport said when none came. Beside the
    /// listing stands the sum of the sizes of its files, where that is below
    /// 2^64.
    pub fn directory(&self, fetched: Result<String, String>) -> (r: Result<
        (Option<u64>, Directory),
        Error,
    >)
        ensures
            listing_view(r) == directory_outcome(
                match fetched {
                    Ok(body) => Ok(body@),
                    Err(reason) => Err(reason@),
                },
            ),
            r matches Ok((total, directory)) ==> total == directory@.checked_total_size(),
    {
        match fetched {
            Err(reason) => Err(Error::NetworkFailure(reason)),
            Ok(body) => match Json::parse(body.as_str()) {
                None => Err(Error::UnexpectedFormat(FormatFailure::NotJson)),
                Some(json) => read_listing(&json),
            },
        }
    }

    /// The address to ask for the remote file `path`.
    pub fn download_url(&self, path: &str) -> (url: String)
        ensures
            url@ == "http://"@ + self@ + "/"@ + path@,
    {
        "http://".to_owned().concat(self.address.as_str()).concat("/").concat(path)
    }

    /// What the outcome of a download request means. `fetched` is the bytes
    /// that came, or what the transport said when none came.
    pub fn download_file(&self, fetched: Result<Vec<u8>, String>) -> (r: Result<Vec<u8>, Error>)
        ensures
            match fetched {
                Ok(bytes) => r == Ok::<Vec<u8>, Error>(bytes),
                Err(reason) => r == Err::<Vec<u8>, Error>(Error::NetworkFailure(reason)),
            },
    {
        match fetched {
            Ok(bytes) => Ok(bytes),
            Err(reason) => Err(Error::NetworkFailure(reason)),
        }
    }
}

impl FormatFailure {
    /// The failure in words.
    pub open spec fn text(self) -> Seq<char> {
        match self {
            FormatFailure::NotJson => "the answer is no JSON text"@,
            FormatFailure::NotListing => "the answer is neither an error object nor a listing"@,
        }
    }

    /// The failure in words.
    pub fn describe(&self) -> (text: &'static str)
        ensures
            text@ == self.text(),
    {
        match self {
            FormatFailure::NotJson => "the answer is no JSON text",
            FormatFailure::NotListing => "the answer is neither an error object nor a listing",
        }
    }
}

impl ErrorView {
    /// The error in words: its kind, then what it carries.
    pub open spec fn message(self) -> Seq<char> {
        match self {
            ErrorView::NotFound(message) => "not found: "@ + message,
            ErrorView::NetworkFailure(reason) => "network failure: "@ + reason,
            ErrorView::UnexpectedFormat(failure) => "unexpected data format: "@ + failure.text(),
            ErrorView::LocalWriteFailure { path, reason } => "failed to write output file "@ + path
                + ": "@ + reason,
        }
    }
}

impl Error {
    /// The error in words: its kind, then what it carries.
    pub fn message(&self) -> (text: String)
        ensures
            text@ == self@.message(),
    {
        match self {
            Error::NotFound(message) => "not found: ".to_owned().concat(message.as_str()),
            Error::NetworkFailure(reason) => "network failure: ".to_owned().concat(
                reason.as_str(),
            ),
            Error::UnexpectedFormat(failure) => "unexpected data format: ".to_owned().concat(
                failure.describe(),
            ),
            Error::LocalWriteFailure { path, reason } => "failed to write output file ".to_owned()
                .concat(path.as_str()).concat(": ").concat(reason.as_str()),
        }
    }
}

/// A listing that leaves out `directories`, `files` or both is no error: it
/// has no entries under the member that it leaves out, and under the other
/// those that stand there.
pub proof fn law_omitted_members_are_empty(body: Seq<char>, json: JsonTree)
    requires
        json_document(body) == Some(json),
        json is Object,
        error_of(json) is None,
    ensures
        directory_outcome(Ok(body)) == listing_of(json),
        json.member("directories"@) is None && json.member("files"@) is None ==> listing_of(json)
            == Ok::<DirectoryView, ErrorView>(
            DirectoryView { directories: Seq::empty(), files: Seq::empty() },
        ),
        json.member("directories"@) is None && listed(json, "files"@) is Some ==> listing_of(json)
            == Ok::<DirectoryView, ErrorView>(
            DirectoryView { directories: Seq::empty(), files: listed(json, "files"@)->0 },
        ),
        json.member("files"@) is None && listed(json, "directories"@) is Some ==> listing_of(json)
            == Ok::<DirectoryView, ErrorView>(
            DirectoryView { directories: listed(json, "directories"@)->0, files: Seq::empty() },
        ),
{
}

/// A body that reads as an object whose member `error` is the text `message`
/// is the error `NotFound` with that message, whatever else the object holds,
/// `directories` and `files` included: it is never read as a listing.
pub proof fn law_error_object_is_never_a_listing(
    body: Seq<char>,
    json: JsonTree,
    message: Seq<char>,
)
    requires
        json_document(body) == Some(json),
        json.member("error"@) == Some(JsonTree::Text(message)),
    ensures
        listing_of(json) == Err::<DirectoryView, ErrorView>(ErrorView::NotFound(message)),
        directory_outcome(Ok(body)) == Err::<DirectoryView, ErrorView>(
            ErrorView::NotFound(message),
        ),
{
}

} // verus!
