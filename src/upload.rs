//! Uploads of media files to the asset host: the multipart form that carries
//! the files and the token, and what the host's answer amounts to.
//!
//! Reading the files and sending the form happen outside the library; the
//! library decides what is sent, and that nothing is sent when a file could
//! not be read.

use crate::error::MainError;
use vstd::prelude::*;
use vstd::string::*;

verus! {

/// Where a single video is uploaded.
pub const UPLOAD_VIDEO_API: &'static str = "https://express.neighborhood.hackclub.com/upload-video";

/// Where a batch of images is uploaded.
pub const UPLOAD_IMAGES_API: &'static str = "https://express.neighborhood.hackclub.com/upload-images";

/// Index of the last `c` in `s`, or -1 when there is none.
pub open spec fn last_index_of(s: Seq<char>, c: char) -> int
    decreases s.len(),
{
    if s.len() == 0 {
        -1
    } else if s.last() == c {
        s.len() - 1
    } else {
        last_index_of(s.drop_last(), c)
    }
}

/// What follows the last separator of `path`; the whole path when it has none.
pub open spec fn file_name_of(path: Seq<char>, separator: char) -> Seq<char> {
    path.subrange(last_index_of(path, separator) + 1, path.len() as int)
}

proof fn lemma_last_index_bounds(s: Seq<char>, c: char)
    ensures
        -1 <= last_index_of(s, c) < s.len(),
    decreases s.len(),
{
    if s.len() > 0 && s.last() != c {
        lemma_last_index_bounds(s.drop_last(), c);
    }
}

/// The name under which the file at `path` is sent.
pub fn file_name(path: &str, separator: char) -> (r: String)
    ensures
        r@ == file_name_of(path@, separator),
{
    let n = path.unicode_len();
    let mut i: usize = n;
    proof {
        lemma_last_index_bounds(path@, separator);
    }
    assert(path@.subrange(0, n as int) =~= path@);
    while i > 0
        invariant
            i <= n,
            n == path@.len(),
            last_index_of(path@, separator) == last_index_of(path@.subrange(0, i as int), separator),
        decreases i,
    {
        assert(path@.subrange(0, i as int).drop_last() =~= path@.subrange(0, i - 1));
        if path.get_char(i - 1) == separator {
            return path.substring_char(i, n).to_owned();
        }
        i = i - 1;
    }
    path.substring_char(0, n).to_owned()
}

/// The media type that `mime_guess` gives first for the extension of `path`.
pub uninterp spec fn mime_of(path: Seq<char>) -> Option<Seq<char>>;

/// Relies on `mime_guess::from_path` with `MimeGuess::first` and
/// `Mime::essence_str`: the first media type known for the path's extension,
/// which depends on the path alone.
#[verifier::external_body]
fn guess_mime(path: &str) -> (r: Option<String>)
    ensures
        opt_view(r) == mime_of(path@),
{
    mime_guess::from_path(path).first().map(|mime| mime.essence_str().to_string())
}

pub open spec fn opt_view(o: Option<String>) -> Option<Seq<char>> {
    match o {
        Some(s) => Some(s@),
        None => None,
    }
}

/// One file of a multipart form.
#[derive(Debug)]
pub struct FilePart {
    pub file_name: String,
    /// Sent untyped when the extension is unknown.
    pub mime: Option<String>,
    pub bytes: Vec<u8>,
}

impl FilePart {
    /// The part for the file at `path`, read as `bytes`, of media type `mime`.
    pub fn new(path: &str, bytes: Vec<u8>, mime: Option<String>, separator: char) -> (r: FilePart)
        ensures
            r.file_name@ == file_name_of(path@, separator),
            r.mime == mime,
            r.bytes == bytes,
    {
        FilePart { file_name: file_name(path, separator), mime, bytes }
    }

    /// The part for the file at `path`, typed by its extension.
    pub fn from_file(path: &str, bytes: Vec<u8>, separator: char) -> (r: FilePart)
        ensures
            r.file_name@ == file_name_of(path@, separator),
            opt_view(r.mime) == mime_of(path@),
            r.bytes == bytes,
    {
        let mime = guess_mime(path);
        FilePart::new(path, bytes, mime, separator)
    }
}

/// A multipart form: the token as a text field, then the files, each under
/// the field name `field`.
#[derive(Debug)]
pub struct UploadForm {
    pub token: String,
    pub field: &'static str,
    pub files: Vec<FilePart>,
}

/// `part` is what `FilePart::from_file` makes of the file at `path` read as `bytes`.
pub open spec fn part_of(part: FilePart, path: Seq<char>, bytes: Vec<u8>, separator: char) -> bool {
    &&& part.file_name@ == file_name_of(path, separator)
    &&& opt_view(part.mime) == mime_of(path)
    &&& part.bytes == bytes
}

/// Uploads one video.
pub struct UploadVideo<'a> {
    path: &'a str,
}

impl<'a> UploadVideo<'a> {
    pub closed spec fn spec_path(&self) -> Seq<char> {
        self.path@
    }

    pub fn new(path: &'a str) -> (r: Self)
        ensures
            r.spec_path() == path@,
    {
        UploadVideo { path }
    }

    pub fn path(&self) -> (r: &'a str)
        ensures
            r@ == self.spec_path(),
    {
        self.path
    }

    pub fn api(&self) -> (r: &'static str)
        ensures
            r == UPLOAD_VIDEO_API,
    {
        UPLOAD_VIDEO_API
    }

    /// The form that uploads the video with `token`, given what reading the
    /// file gave (its bytes, or the cause of the failure).
    pub fn configure(self, token: String, contents: Result<Vec<u8>, String>, separator: char) -> (r: Result<UploadForm, MainError>)
        ensures
            match contents {
                Ok(bytes) => r matches Ok(form) && form.token == token && form.field@ == "file"@
                    && form.files@.len() == 1 && part_of(form.files@[0], self.spec_path(), bytes, separator),
                Err(cause) => r matches Err(MainError::ReadFile(c, p)) && c == cause && p@ == self.spec_path(),
            },
    {
        match contents {
            Ok(bytes) => {
                let part = FilePart::from_file(self.path, bytes, separator);
                let mut files: Vec<FilePart> = Vec::new();
                files.push(part);
                Ok(UploadForm { token, field: "file", files })
            },
            Err(cause) => Err(MainError::ReadFile(cause, self.path.to_owned())),
        }
    }
}

/// `k` is the first index of `contents` whose read failed.
pub open spec fn first_unreadable(contents: Seq<Result<Vec<u8>, String>>, k: int) -> bool {
    &&& 0 <= k < contents.len()
    &&& contents[k] is Err
    &&& forall|j: int| 0 <= j < k ==> (#[trigger] contents[j]) is Ok
}

/// Uploads a batch of images.
pub struct UploadImages {
    paths: Vec<String>,
}

impl UploadImages {
    pub closed spec fn spec_paths(&self) -> Seq<String> {
        self.paths@
    }

    pub fn new(paths: Vec<String>) -> (r: Self)
        ensures
            r.spec_paths() == paths@,
    {
        UploadImages { paths }
    }

    pub fn paths(&self) -> (r: &Vec<String>)
        ensures
            r@ == self.spec_paths(),
    {
        &self.paths
    }

    pub fn api(&self) -> (r: &'static str)
        ensures
            r == UPLOAD_IMAGES_API,
    {
        UPLOAD_IMAGES_API
    }

    /// The form that uploads every image with `token`, given what reading each
    /// file gave, in order. The first file that could not be read is named in
    /// the error, and then there is no form to send.
    pub fn configure(self, token: String, contents: Vec<Result<Vec<u8>, String>>, separator: char) -> (r: Result<UploadForm, MainError>)
        requires
            contents@.len() == self.spec_paths().len(),
        ensures
            forall|k: int| first_unreadable(contents@, k) ==> (r matches Err(MainError::ReadFile(c, p))
                && c == contents@[k]->Err_0 && p == self.spec_paths()[k]),
            (forall|j: int| 0 <= j < contents@.len() ==> (#[trigger] contents@[j]) is Ok) ==> (r matches Ok(form)
                && form.token == token && form.field@ == "files"@
                && form.files@.len() == contents@.len()
                && forall|i: int| 0 <= i < contents@.len() ==> part_of(#[trigger] form.files@[i],
                    self.spec_paths()[i]@, contents@[i]->Ok_0, separator)),
    {
        let ghost all = contents@;
        let mut rest = contents;
        let mut files: Vec<FilePart> = Vec::new();
        let mut i: usize = 0;
        let n = self.paths.len();
        while rest.len() > 0
            invariant
                n == self.paths@.len() == all.len(),
                all == contents@,
                i <= n,
                rest@ == all.subrange(i as int, n as int),
                files@.len() == i,
                forall|j: int| 0 <= j < i ==> (#[trigger] all[j]) is Ok,
                forall|j: int| 0 <= j < i ==> part_of(#[trigger] files@[j], self.paths@[j]@, all[j]->Ok_0, separator),
            decreases rest@.len(),
        {
            assert(rest@[0] == all[i as int]);
            let read = rest.remove(0);
            let path = &self.paths[i];
            match read {
                Ok(bytes) => {
                    files.push(FilePart::from_file(path.as_str(), bytes, separator));
                },
                Err(cause) => {
                    assert(all[i as int] is Err && cause == all[i as int]->Err_0);
                    assert(!(all[i as int] is Ok));
                    proof {
                        assert forall|k: int| first_unreadable(all, k) implies k == i by {
                            if k < i {
                                assert(all[k] is Ok);
                            }
                            if k > i {
                                assert(all[i as int] is Ok);
                            }
                        }
                    }
                    let p = path.clone();
                    assert(p == self.paths@[i as int]);
                    return Err(MainError::ReadFile(cause, p));
                },
            }
            i = i + 1;
        }
        proof {
            assert forall|k: int| !first_unreadable(all, k) by {
                if 0 <= k < all.len() {
                    assert(all[k] is Ok);
                }
            }
        }
        Ok(UploadForm { token, field: "files", files })
    }
}

/// When exactly one of the files could not be read, the upload's error names
/// that file: it is the first unreadable one.
pub proof fn lemma_single_unreadable_named(contents: Seq<Result<Vec<u8>, String>>, k: int)
    requires
        0 <= k < contents.len(),
        contents[k] is Err,
        forall|j: int| 0 <= j < contents.len() && j != k ==> (#[trigger] contents[j]) is Ok,
    ensures
        first_unreadable(contents, k),
{
}

/// The host's answer to a video upload.
#[derive(Debug)]
pub struct UploadVideoResponse {
    pub message: Option<String>,
    pub url: Option<String>,
}

impl UploadVideoResponse {
    /// The video's address; without one, the host refused the upload.
    pub fn into_url(self) -> (r: Result<String, MainError>)
        ensures
            match self.url {
                Some(url) => r == Ok::<String, MainError>(url),
                None => r == Err::<String, MainError>(MainError::Server(self.message)),
            },
    {
        match self.url {
            Some(url) => Ok(url),
            None => Err(MainError::Server(self.message)),
        }
    }
}

/// The host's answer to an image upload.
#[derive(Debug)]
pub struct UploadImagesResponse {
    pub message: Option<String>,
    pub urls: Option<Vec<String>>,
}

impl UploadImagesResponse {
    /// The images' addresses; without them, the host refused the upload.
    pub fn into_urls(self) -> (r: Result<Vec<String>, MainError>)
        ensures
            match self.urls {
                Some(urls) => r == Ok::<Vec<String>, MainError>(urls),
                None => r == Err::<Vec<String>, MainError>(MainError::Server(self.message)),
            },
    {
        match self.urls {
            Some(urls) => Ok(urls),
            None => Err(MainError::Server(self.message)),
        }
    }
}

} // verus!
