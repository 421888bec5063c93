//! Fields that describe the files of a transfer.

use vstd::prelude::*;
use crate::json::{
    Json, JsonValue, Members, lemma_lookup_push, lemma_members_read_take, lemma_members_round_trip,
    members_read, members_view, members_written, number_value, object_value, push_member,
    text_value, with_member, with_optional,
};
use crate::text::{decimal, lemma_decimal_read_back};

verus! {

/// The name under which a sender lists a file. No two files of one list
/// share it.
#[derive(Debug, PartialEq, Eq, Hash)]
pub struct FileId(String);

impl View for FileId {
    type V = Seq<char>;

    closed spec fn view(&self) -> Seq<char> {
        self.0@
    }
}

impl Clone for FileId {
    fn clone(&self) -> (out: Self)
        ensures
            out@ == self@,
    {
        FileId(self.0.clone())
    }
}

impl FileId {
    pub fn new(value: String) -> (out: Self)
        ensures
            out@ == value@,
    {
        FileId(value)
    }

    pub fn as_str(&self) -> (out: &str)
        ensures
            out@ == self@,
    {
        self.0.as_str()
    }

    /// The text as it is shown to a reader.
    pub fn to_string(&self) -> (out: String)
        ensures
            out@ == self@,
    {
        self.0.clone()
    }
}

/// A thumbnail of a file, encoded as text.
#[derive(Debug, PartialEq, Eq)]
pub struct FilePreview(String);

impl View for FilePreview {
    type V = Seq<char>;

    closed spec fn view(&self) -> Seq<char> {
        self.0@
    }
}

impl Clone for FilePreview {
    fn clone(&self) -> (out: Self)
        ensures
            out@ == self@,
    {
        FilePreview(self.0.clone())
    }
}

impl FilePreview {
    pub fn new(value: String) -> (out: Self)
        ensures
            out@ == value@,
    {
        FilePreview(value)
    }

    pub fn as_str(&self) -> (out: &str)
        ensures
            out@ == self@,
    {
        self.0.as_str()
    }

    /// The text as it is shown to a reader.
    pub fn to_string(&self) -> (out: String)
        ensures
            out@ == self@,
    {
        self.0.clone()
    }
}

/// The SHA-256 hash of a file, as text.
#[derive(Debug, PartialEq, Eq)]
pub struct SHA256(String);

impl View for SHA256 {
    type V = Seq<char>;

    closed spec fn view(&self) -> Seq<char> {
        self.0@
    }
}

impl Clone for SHA256 {
    fn clone(&self) -> (out: Self)
        ensures
            out@ == self@,
    {
        SHA256(self.0.clone())
    }
}

impl SHA256 {
    pub fn new(value: String) -> (out: Self)
        ensures
            out@ == value@,
    {
        SHA256(value)
    }

    pub fn as_str(&self) -> (out: &str)
        ensures
            out@ == self@,
    {
        self.0.as_str()
    }

    /// The text as it is shown to a reader.
    pub fn to_string(&self) -> (out: String)
        ensures
            out@ == self@,
    {
        self.0.clone()
    }
}

/// The token that opens the upload of one file.
#[derive(Debug, PartialEq, Eq)]
pub struct FileUploadToken(String);

impl View for FileUploadToken {
    type V = Seq<char>;

    closed spec fn view(&self) -> Seq<char> {
        self.0@
    }
}

impl Clone for FileUploadToken {
    fn clone(&self) -> (out: Self)
        ensures
            out@ == self@,
    {
        FileUploadToken(self.0.clone())
    }
}

impl FileUploadToken {
    pub fn new(value: String) -> (out: Self)
        ensures
            out@ == value@,
    {
        FileUploadToken(value)
    }

    pub fn as_str(&self) -> (out: &str)
        ensures
            out@ == self@,
    {
        self.0.as_str()
    }

    /// The text as it is shown to a reader.
    pub fn to_string(&self) -> (out: String)
        ensures
            out@ == self@,
    {
        self.0.clone()
    }
}

/// Reads a value that must be a string.
pub open spec fn text_reader() -> spec_fn(Json) -> Option<Seq<char>> {
    |value: Json| value.as_text()
}

/// Writes a text as a string.
pub open spec fn text_writer() -> spec_fn(Seq<char>) -> Json {
    |text: Seq<char>| Json::Text(text)
}

/// The content of a list of pairs of texts.
pub open spec fn pairs_view(pairs: Seq<(String, String)>) -> Seq<(Seq<char>, Seq<char>)> {
    Seq::new(pairs.len(), |i: int| (pairs[i].0@, pairs[i].1@))
}

/// What else a sender says of a file, such as when it was last changed:
/// names and what is said under each, in the order given.
#[derive(Debug, PartialEq, Eq)]
pub struct FileMeta(Vec<(String, String)>);

impl View for FileMeta {
    type V = Seq<(Seq<char>, Seq<char>)>;

    closed spec fn view(&self) -> Seq<(Seq<char>, Seq<char>)> {
        pairs_view(self.0@)
    }
}

/// The object that holds the given entries.
pub open spec fn meta_encoded(entries: Seq<(Seq<char>, Seq<char>)>) -> Json {
    Json::Object(members_written(entries, text_writer()))
}

/// The entries that a document holds: it must be an object of strings.
pub open spec fn meta_decoded(j: Json) -> Option<Seq<(Seq<char>, Seq<char>)>> {
    match j {
        Json::Object(members) => members_read(members, text_reader()),
        _ => None,
    }
}

/// Entries that are written out and read again are the same entries.
pub proof fn lemma_meta_round_trip(entries: Seq<(Seq<char>, Seq<char>)>)
    ensures
        meta_decoded(meta_encoded(entries)) == Some(entries),
{
    lemma_members_round_trip(entries, text_writer(), text_reader());
}

/// Copies a list of pairs of texts.
fn copy_pairs(pairs: &Vec<(String, String)>) -> (out: Vec<(String, String)>)
    ensures
        pairs_view(out@) == pairs_view(pairs@),
{
    let mut out: Vec<(String, String)> = Vec::new();
    let mut i: usize = 0;
    while i < pairs.len()
        invariant
            i <= pairs.len(),
            pairs_view(out@) == pairs_view(pairs@).take(i as int),
        decreases pairs.len() - i,
    {
        out.push((pairs[i].0.clone(), pairs[i].1.clone()));
        assert(pairs_view(pairs@).take(i + 1) =~= pairs_view(pairs@).take(i as int).push(
            (pairs@[i as int].0@, pairs@[i as int].1@),
        ));
        i += 1;
    }
    out
}

impl Clone for FileMeta {
    fn clone(&self) -> (out: Self)
        ensures
            out@ == self@,
    {
        FileMeta(copy_pairs(&self.0))
    }
}

impl FileMeta {
    pub fn new(entries: Vec<(String, String)>) -> (out: Self)
        ensures
            out@ == pairs_view(entries@),
    {
        FileMeta(entries)
    }

    /// The entries, in the order given.
    pub fn entries(&self) -> (out: &Vec<(String, String)>)
        ensures
            pairs_view(out@) == self@,
    {
        &self.0
    }

    /// The entries as a document.
    pub fn to_json(&self) -> (out: JsonValue)
        ensures
            out@ == meta_encoded(self@),
    {
        let mut members: Vec<(String, JsonValue)> = Vec::new();
        let mut i: usize = 0;
        while i < self.0.len()
            invariant
                i <= self.0.len(),
                members_view(members@) == members_written(self@, text_writer()).take(i as int),
            decreases self.0.len() - i,
        {
            push_member(&mut members, self.0[i].0.as_str(), text_value(self.0[i].1.as_str()));
            i += 1;
        }
        assert(members_written(self@, text_writer()).take(self.0.len() as int) =~= members_written(
            self@,
            text_writer(),
        ));
        object_value(members)
    }

    /// Reads the entries from a document.
    pub fn from_json(j: &JsonValue) -> (out: Option<FileMeta>)
        ensures
            out is Some <==> meta_decoded(j@) is Some,
            out is Some ==> out->0@ == meta_decoded(j@)->0,
    {
        match j.members() {
            None => None,
            Some(members) => {
                let ghost all = members_view(members@);
                let mut entries: Vec<(String, String)> = Vec::new();
                let mut i: usize = 0;
                while i < members.len()
                    invariant
                        i <= members.len(),
                        all == members_view(members@),
                        j@ == Json::Object(all),
                        members_read(all.take(i as int), text_reader()) == Some(pairs_view(entries@)),
                    decreases members.len() - i,
                {
                    proof {
                        assert(all.take(i + 1).drop_last() =~= all.take(i as int));
                        if members_read(all, text_reader()) is Some {
                            lemma_members_read_take(all, text_reader(), i + 1);
                        }
                    }
                    match members[i].1.as_text() {
                        None => {
                            return None;
                        },
                        Some(text) => {
                            entries.push((members[i].0.clone(), text.to_owned()));
                        },
                    }
                    i += 1;
                }
                assert(all.take(members.len() as int) =~= all);
                Some(FileMeta(entries))
            },
        }
    }
}

/// What the names of the members of a file's description are made of, as
/// far as it takes to tell them apart.
pub proof fn lemma_file_member_names()
    ensures
        "id"@.len() == 2,
        "fileName"@.len() == 8 && "fileName"@[0] == 'f' && "fileName"@[4] == 'N',
        "size"@.len() == 4,
        "fileType"@.len() == 8 && "fileType"@[0] == 'f' && "fileType"@[4] == 'T',
        "sha256"@.len() == 6,
        "preview"@.len() == 7,
        "metadata"@.len() == 8 && "metadata"@[0] == 'm',
{
    reveal_strlit("id");
    reveal_strlit("fileName");
    reveal_strlit("size");
    reveal_strlit("fileType");
    reveal_strlit("sha256");
    reveal_strlit("preview");
    reveal_strlit("metadata");
}

/// A text where there is one.
pub open spec fn optional_text(text: Option<Seq<char>>) -> Option<Json> {
    match text {
        Some(t) => Some(Json::Text(t)),
        None => None,
    }
}

/// What a sender says of one file.
#[derive(Debug, PartialEq)]
pub struct FileInfo {
    id: FileId,
    file_name: String,
    size: u64,
    file_type: String,
    sha_256: Option<SHA256>,
    preview: Option<FilePreview>,
    metadata: Option<FileMeta>,
}

/// The content of a [`FileInfo`].
pub ghost struct FileInfoView {
    pub id: Seq<char>,
    pub file_name: Seq<char>,
    pub size: u64,
    pub file_type: Seq<char>,
    pub sha_256: Option<Seq<char>>,
    pub preview: Option<Seq<char>>,
    pub metadata: Option<Seq<(Seq<char>, Seq<char>)>>,
}

impl FileInfoView {
    /// The members of the description, in the order in which they are
    /// written. What is not known of the file leaves no member.
    pub open spec fn members(self) -> Members {
        with_optional(
            with_optional(
                with_optional(
                    with_member(
                        with_member(
                            with_member(
                                with_member(Seq::empty(), "id"@, Json::Text(self.id)),
                                "fileName"@,
                                Json::Text(self.file_name),
                            ),
                            "size"@,
                            Json::Number(decimal(self.size as nat)),
                        ),
                        "fileType"@,
                        Json::Text(self.file_type),
                    ),
                    "sha256"@,
                    optional_text(self.sha_256),
                ),
                "preview"@,
                optional_text(self.preview),
            ),
            "metadata"@,
            match self.metadata {
                Some(entries) => Some(meta_encoded(entries)),
                None => None,
            },
        )
    }

    pub open spec fn encode(self) -> Json {
        Json::Object(self.members())
    }

    /// What a document says under `metadata`: nothing where the member is
    /// left out or `null`, else the entries of the object that it must be.
    pub open spec fn metadata_at(j: Json) -> Option<Option<Seq<(Seq<char>, Seq<char>)>>> {
        match j.field("metadata"@) {
            None => Some(None),
            Some(Json::Null) => Some(None),
            Some(value) => match meta_decoded(value) {
                Some(entries) => Some(Some(entries)),
                None => None,
            },
        }
    }

    /// The description that a document holds.
    pub open spec fn decode(j: Json) -> Option<FileInfoView> {
        if j.text_at("id"@) is Some && j.text_at("fileName"@) is Some && j.u64_at("size"@) is Some
            && j.text_at("fileType"@) is Some && j.optional_text_at("sha256"@) is Some
            && j.optional_text_at("preview"@) is Some && FileInfoView::metadata_at(j) is Some {
            Some(
                FileInfoView {
                    id: j.text_at("id"@)->0,
                    file_name: j.text_at("fileName"@)->0,
                    size: j.u64_at("size"@)->0,
                    file_type: j.text_at("fileType"@)->0,
                    sha_256: j.optional_text_at("sha256"@)->0,
                    preview: j.optional_text_at("preview"@)->0,
                    metadata: FileInfoView::metadata_at(j)->0,
                },
            )
        } else {
            None
        }
    }

    /// A description that is written out and read again is the same
    /// description.
    pub proof fn lemma_round_trip(self)
        ensures
            FileInfoView::decode(self.encode()) == Some(self),
    {
        lemma_lookup_push();
        lemma_file_member_names();
        lemma_decimal_read_back(self.size);
        if self.metadata is Some {
            lemma_meta_round_trip(self.metadata->0);
        }
    }
}

impl View for FileInfo {
    type V = FileInfoView;

    closed spec fn view(&self) -> FileInfoView {
        FileInfoView {
            id: self.id@,
            file_name: self.file_name@,
            size: self.size,
            file_type: self.file_type@,
            sha_256: match self.sha_256 {
                Some(hash) => Some(hash@),
                None => None,
            },
            preview: match self.preview {
                Some(preview) => Some(preview@),
                None => None,
            },
            metadata: match self.metadata {
                Some(metadata) => Some(metadata@),
                None => None,
            },
        }
    }
}

impl Clone for FileInfo {
    fn clone(&self) -> (out: Self)
        ensures
            out@ == self@,
    {
        FileInfo {
            id: self.id.clone(),
            file_name: self.file_name.clone(),
            size: self.size,
            file_type: self.file_type.clone(),
            sha_256: match &self.sha_256 {
                Some(hash) => Some(hash.clone()),
                None => None,
            },
            preview: match &self.preview {
                Some(preview) => Some(preview.clone()),
                None => None,
            },
            metadata: match &self.metadata {
                Some(metadata) => Some(metadata.clone()),
                None => None,
            },
        }
    }
}

impl FileInfo {
    pub fn new(
        id: FileId,
        file_name: String,
        size: u64,
        file_type: String,
        sha_256: Option<SHA256>,
        preview: Option<FilePreview>,
        metadata: Option<FileMeta>,
    ) -> (out: Self)
        ensures
            out@ == (FileInfoView {
                id: id@,
                file_name: file_name@,
                size,
                file_type: file_type@,
                sha_256: match sha_256 {
                    Some(hash) => Some(hash@),
                    None => None,
                },
                preview: match preview {
                    Some(preview) => Some(preview@),
                    None => None,
                },
                metadata: match metadata {
                    Some(metadata) => Some(metadata@),
                    None => None,
                },
            }),
    {
        FileInfo { id, file_name, size, file_type, sha_256, preview, metadata }
    }

    pub fn id(&self) -> (out: &FileId)
        ensures
            out@ == self@.id,
    {
        &self.id
    }

    pub fn file_name(&self) -> (out: &String)
        ensures
            out@ == self@.file_name,
    {
        &self.file_name
    }

    pub fn size(&self) -> (out: &u64)
        ensures
            *out == self@.size,
    {
        &self.size
    }

    pub fn file_type(&self) -> (out: &String)
        ensures
            out@ == self@.file_type,
    {
        &self.file_type
    }

    pub fn sha_256(&self) -> (out: &Option<SHA256>)
        ensures
            out is Some <==> self@.sha_256 is Some,
            out is Some ==> out->0@ == self@.sha_256->0,
    {
        &self.sha_256
    }

    pub fn preview(&self) -> (out: &Option<FilePreview>)
        ensures
            out is Some <==> self@.preview is Some,
            out is Some ==> out->0@ == self@.preview->0,
    {
        &self.preview
    }

    pub fn metadata(&self) -> (out: &Option<FileMeta>)
        ensures
            out is Some <==> self@.metadata is Some,
            out is Some ==> out->0@ == self@.metadata->0,
    {
        &self.metadata
    }

    /// The description as a document.
    pub fn to_json(&self) -> (out: JsonValue)
        ensures
            out@ == self@.encode(),
    {
        let mut members: Vec<(String, JsonValue)> = Vec::new();
        assert(members_view(members@) =~= Seq::empty());
        push_member(&mut members, "id", text_value(self.id.as_str()));
        push_member(&mut members, "fileName", text_value(self.file_name.as_str()));
        push_member(&mut members, "size", number_value(self.size));
        push_member(&mut members, "fileType", text_value(self.file_type.as_str()));
        match &self.sha_256 {
            Some(hash) => push_member(&mut members, "sha256", text_value(hash.as_str())),
            None => {},
        }
        match &self.preview {
            Some(preview) => push_member(&mut members, "preview", text_value(preview.as_str())),
            None => {},
        }
        match &self.metadata {
            Some(metadata) => push_member(&mut members, "metadata", metadata.to_json()),
            None => {},
        }
        object_value(members)
    }

    /// Reads a description from a document.
    pub fn from_json(j: &JsonValue) -> (out: Option<FileInfo>)
        ensures
            out is Some <==> FileInfoView::decode(j@) is Some,
            out is Some ==> out->0@ == FileInfoView::decode(j@)->0,
    {
        let id = j.text_at("id");
        let file_name = j.text_at("fileName");
        let size = j.u64_at("size");
        let file_type = j.text_at("fileType");
        let sha_256 = j.optional_text_at("sha256");
        let preview = j.optional_text_at("preview");
        let metadata = match j.get("metadata") {
            None => Some(None),
            Some(value) => if value.is_null() {
                Some(None)
            } else {
                match FileMeta::from_json(value) {
                    Some(entries) => Some(Some(entries)),
                    None => None,
                }
            },
        };
        match (id, file_name, size, file_type, sha_256, preview, metadata) {
            (
                Some(id),
                Some(file_name),
                Some(size),
                Some(file_type),
                Some(sha_256),
                Some(preview),
                Some(metadata),
            ) => {
                let sha_256 = match sha_256 {
                    Some(hash) => Some(SHA256::new(hash)),
                    None => None,
                };
                let preview = match preview {
                    Some(preview) => Some(FilePreview::new(preview)),
                    None => None,
                };
                Some(FileInfo::new(FileId::new(id), file_name, size, file_type, sha_256, preview, metadata))
            },
            _ => None,
        }
    }
}

/// Reads the description of a file.
pub open spec fn file_reader() -> spec_fn(Json) -> Option<FileInfoView> {
    |value: Json| FileInfoView::decode(value)
}

/// Writes the description of a file.
pub open spec fn file_writer() -> spec_fn(FileInfoView) -> Json {
    |file: FileInfoView| file.encode()
}

/// The content of a list of files, each under its name.
pub open spec fn files_view(files: Seq<(FileId, FileInfo)>) -> Seq<(Seq<char>, FileInfoView)> {
    Seq::new(files.len(), |i: int| (files[i].0@, files[i].1@))
}

/// The object that holds the given files.
pub open spec fn files_encoded(files: Seq<(Seq<char>, FileInfoView)>) -> Json {
    Json::Object(members_written(files, file_writer()))
}

/// The files that a document holds: it must be an object of descriptions.
pub open spec fn files_decoded(j: Json) -> Option<Seq<(Seq<char>, FileInfoView)>> {
    match j {
        Json::Object(members) => members_read(members, file_reader()),
        _ => None,
    }
}

/// Files that are written out and read again are the same files.
pub proof fn lemma_files_round_trip(files: Seq<(Seq<char>, FileInfoView)>)
    ensures
        files_decoded(files_encoded(files)) == Some(files),
{
    assert forall|i: int| 0 <= i < files.len() implies file_reader()(
        file_writer()(#[trigger] files[i].1),
    ) == Some(files[i].1) by {
        files[i].1.lemma_round_trip();
    }
    lemma_members_round_trip(files, file_writer(), file_reader());
}

/// The files that a sender offers, each under the name it is listed by, in
/// the order of the list.
#[derive(Debug, PartialEq)]
pub struct FilesInfoMap(Vec<(FileId, FileInfo)>);

impl View for FilesInfoMap {
    type V = Seq<(Seq<char>, FileInfoView)>;

    closed spec fn view(&self) -> Seq<(Seq<char>, FileInfoView)> {
        files_view(self.0@)
    }
}

impl FilesInfoMap {
    pub fn new(files: Vec<(FileId, FileInfo)>) -> (out: Self)
        ensures
            out@ == files_view(files@),
    {
        FilesInfoMap(files)
    }

    /// The files, in the order of the list.
    pub fn as_ref(&self) -> (out: &Vec<(FileId, FileInfo)>)
        ensures
            files_view(out@) == self@,
    {
        &self.0
    }

    /// How many files are listed.
    pub fn len(&self) -> (out: usize)
        ensures
            out == self@.len(),
    {
        self.0.len()
    }

    /// The files as a document.
    pub fn to_json(&self) -> (out: JsonValue)
        ensures
            out@ == files_encoded(self@),
    {
        let mut members: Vec<(String, JsonValue)> = Vec::new();
        let mut i: usize = 0;
        while i < self.0.len()
            invariant
                i <= self.0.len(),
                members_view(members@) == members_written(self@, file_writer()).take(i as int),
            decreases self.0.len() - i,
        {
            push_member(&mut members, self.0[i].0.as_str(), self.0[i].1.to_json());
            i += 1;
        }
        assert(members_written(self@, file_writer()).take(self.0.len() as int) =~= members_written(
            self@,
            file_writer(),
        ));
        object_value(members)
    }

    /// Reads the files from a document.
    pub fn from_json(j: &JsonValue) -> (out: Option<FilesInfoMap>)
        ensures
            out is Some <==> files_decoded(j@) is Some,
            out is Some ==> out->0@ == files_decoded(j@)->0,
    {
        match j.members() {
            None => None,
            Some(members) => {
                let ghost all = members_view(members@);
                let mut files: Vec<(FileId, FileInfo)> = Vec::new();
                let mut i: usize = 0;
                while i < members.len()
                    invariant
                        i <= members.len(),
                        all == members_view(members@),
                        j@ == Json::Object(all),
                        members_read(all.take(i as int), file_reader()) == Some(files_view(files@)),
                    decreases members.len() - i,
                {
                    proof {
                        assert(all.take(i + 1).drop_last() =~= all.take(i as int));
                        if members_read(all, file_reader()) is Some {
                            lemma_members_read_take(all, file_reader(), i + 1);
                        }
                    }
                    match FileInfo::from_json(&members[i].1) {
                        None => {
                            return None;
                        },
                        Some(file) => {
                            files.push((FileId::new(members[i].0.clone()), file));
                        },
                    }
                    i += 1;
                }
                assert(all.take(members.len() as int) =~= all);
                Some(FilesInfoMap(files))
            },
        }
    }
}

/// The content of a list of tokens, each under the name of its file.
pub open spec fn tokens_view(tokens: Seq<(FileId, FileUploadToken)>) -> Seq<(Seq<char>, Seq<char>)> {
    Seq::new(tokens.len(), |i: int| (tokens[i].0@, tokens[i].1@))
}

/// The tokens that a receiver hands out, each under the name of the file
/// whose upload it opens.
#[derive(Debug, PartialEq, Eq)]
pub struct FilesTokenMap(Vec<(FileId, FileUploadToken)>);

impl View for FilesTokenMap {
    type V = Seq<(Seq<char>, Seq<char>)>;

    closed spec fn view(&self) -> Seq<(Seq<char>, Seq<char>)> {
        tokens_view(self.0@)
    }
}

impl FilesTokenMap {
    pub fn new(tokens: Vec<(FileId, FileUploadToken)>) -> (out: Self)
        ensures
            out@ == tokens_view(tokens@),
    {
        FilesTokenMap(tokens)
    }

    /// The tokens, in the order given.
    pub fn as_ref(&self) -> (out: &Vec<(FileId, FileUploadToken)>)
        ensures
            tokens_view(out@) == self@,
    {
        &self.0
    }

    /// The tokens as a document: an object of strings.
    pub fn to_json(&self) -> (out: JsonValue)
        ensures
            out@ == meta_encoded(self@),
    {
        let mut members: Vec<(String, JsonValue)> = Vec::new();
        let mut i: usize = 0;
        while i < self.0.len()
            invariant
                i <= self.0.len(),
                members_view(members@) == members_written(self@, text_writer()).take(i as int),
            decreases self.0.len() - i,
        {
            push_member(&mut members, self.0[i].0.as_str(), text_value(self.0[i].1.as_str()));
            i += 1;
        }
        assert(members_written(self@, text_writer()).take(self.0.len() as int) =~= members_written(
            self@,
            text_writer(),
        ));
        object_value(members)
    }

    /// Reads the tokens from a document, which must be an object of strings.
    pub fn from_json(j: &JsonValue) -> (out: Option<FilesTokenMap>)
        ensures
            out is Some <==> meta_decoded(j@) is Some,
            out is Some ==> out->0@ == meta_decoded(j@)->0,
    {
        match j.members() {
            None => None,
            Some(members) => {
                let ghost all = members_view(members@);
                let mut tokens: Vec<(FileId, FileUploadToken)> = Vec::new();
                let mut i: usize = 0;
                while i < members.len()
                    invariant
                        i <= members.len(),
                        all == members_view(members@),
                        j@ == Json::Object(all),
                        members_read(all.take(i as int), text_reader()) == Some(tokens_view(tokens@)),
                    decreases members.len() - i,
                {
                    proof {
                        assert(all.take(i + 1).drop_last() =~= all.take(i as int));
                        if members_read(all, text_reader()) is Some {
                            lemma_members_read_take(all, text_reader(), i + 1);
                        }
                    }
                    match members[i].1.as_text() {
                        None => {
                            return None;
                        },
                        Some(text) => {
                            tokens.push(
                                (FileId::new(members[i].0.clone()), FileUploadToken::new(text.to_owned())),
                            );
                        },
                    }
                    i += 1;
                }
                assert(all.take(members.len() as int) =~= all);
                Some(FilesTokenMap(tokens))
            },
        }
    }
}

} // verus!
