//! Serving static assets: which file a request path names, what content type
//! it is served with, and what the response holds once the file was read.
//! HTML documents get the reload fragment appended; everything else is handed
//! on byte for byte.

use vstd::prelude::*;
use vstd::utf8::{decode_utf8, encode_utf8, valid_utf8};

verus! {

/// Name of the document served for a request path that ends in `/`.
pub const INDEX_FILE: &'static str = "index.html";

/// Content type of the documents that get the reload fragment.
pub const HTML_CONTENT_TYPE: &'static str = "text/html";

/// The file a request path names under the watched root: the root followed
/// by the path, and by the index document where the path ends in `/`.
pub open spec fn asset_path_text(root: Seq<char>, url_path: Seq<char>) -> Seq<char> {
    if url_path.len() > 0 && url_path.last() == '/' {
        root + url_path + INDEX_FILE@
    } else {
        root + url_path
    }
}

/// Resolves a request path against the watched root.
pub fn asset_path(root: &str, url_path: &str) -> (path: String)
    ensures
        path@ == asset_path_text(root@, url_path@),
{
    let mut path = String::from_str(root);
    path.append(url_path);
    let len = url_path.unicode_len();
    if len > 0 && url_path.get_char(len - 1) == '/' {
        path.append(INDEX_FILE);
    }
    path
}

/// The content type guessed for a path from its extension, `text/plain`
/// where the extension is missing or unknown.
pub uninterp spec fn guessed_content_type(path: Seq<char>) -> Seq<char>;

/// Calls `mime_guess::from_path` and takes the first guess, or `text/plain`
/// where there is none (`MimeGuess::first_or_text_plain`), as text. Trusted:
/// the text is `guessed_content_type` of the path.
#[verifier::external_body]
fn guess_content_type(path: &str) -> (content_type: String)
    ensures
        content_type@ == guessed_content_type(path@),
{
    mime_guess::from_path(path).first_or_text_plain().to_string()
}

/// Where a requested file lies and what content type it is served with.
#[derive(Debug, PartialEq, Eq)]
pub struct AssetLocation {
    pub path: String,
    pub content_type: String,
}

/// Finds the file a request path names under the watched root and guesses
/// its content type from the file's name.
pub fn locate(root: &str, url_path: &str) -> (location: AssetLocation)
    ensures
        location.path@ == asset_path_text(root@, url_path@),
        location.content_type@ == guessed_content_type(location.path@),
{
    let path = asset_path(root, url_path);
    let content_type = guess_content_type(path.as_str());
    AssetLocation { path, content_type }
}

/// Calls `String::from_utf8`. Trusted: the bytes are accepted exactly when
/// they are valid UTF-8, and the text is then what they decode to.
#[verifier::external_body]
fn text_from_utf8(bytes: Vec<u8>) -> (text: Option<String>)
    ensures
        text is Some <==> valid_utf8(bytes@),
        text matches Some(s) ==> s@ == decode_utf8(bytes@),
{
    String::from_utf8(bytes).ok()
}

/// Encoding a concatenation is concatenating the encodings.
proof fn lemma_encode_utf8_concat(a: Seq<char>, b: Seq<char>)
    ensures
        encode_utf8(a + b) == encode_utf8(a) + encode_utf8(b),
    decreases a.len(),
{
    if a.len() > 0 {
        lemma_encode_utf8_concat(a.drop_first(), b);
        assert((a + b).drop_first() =~= a.drop_first() + b);
    }
}

/// How reading the file of a request went.
#[derive(Debug, PartialEq, Eq)]
pub enum ReadOutcome {
    /// The file was read; these are its bytes.
    Bytes(Vec<u8>),
    /// There is no such file.
    NotFound,
    /// The file is there and could not be read.
    Failed,
}

/// What is sent back for a request.
#[derive(Debug, PartialEq, Eq)]
pub enum AssetResponse {
    /// Status 200 with the body and its content type.
    Served { content_type: String, body: Vec<u8> },
    /// Status 404: the file is missing or unreadable. No body, no fragment.
    NotFound,
    /// Status 500: an HTML document that is not UTF-8 text.
    InvalidText,
}

/// An `AssetResponse` with its content type and body as sequences.
pub ghost enum AssetResponseView {
    Served { content_type: Seq<char>, body: Seq<u8> },
    NotFound,
    InvalidText,
}

impl View for AssetResponse {
    type V = AssetResponseView;

    open spec fn view(&self) -> AssetResponseView {
        match *self {
            AssetResponse::Served { content_type, body } => AssetResponseView::Served {
                content_type: content_type@,
                body: body@,
            },
            AssetResponse::NotFound => AssetResponseView::NotFound,
            AssetResponse::InvalidText => AssetResponseView::InvalidText,
        }
    }
}

impl AssetResponse {
    /// The HTTP status code of the response.
    pub open spec fn status_code(self) -> u16 {
        match self {
            AssetResponse::Served { .. } => 200,
            AssetResponse::NotFound => 404,
            AssetResponse::InvalidText => 500,
        }
    }

    /// The HTTP status code of the response.
    pub fn status(&self) -> (code: u16)
        ensures
            code == self.status_code(),
    {
        match self {
            AssetResponse::Served { .. } => 200,
            AssetResponse::NotFound => 404,
            AssetResponse::InvalidText => 500,
        }
    }
}

/// Whether a content type is that of HTML documents.
pub open spec fn is_html(content_type: Seq<char>) -> bool {
    content_type == HTML_CONTENT_TYPE@
}

/// The response owed for a file of the given content type once it was read,
/// with `snippet` as the reload fragment.
///
/// A missing or unreadable file is answered with `NotFound`. The bytes of an
/// HTML document are answered with the fragment appended, and with
/// `InvalidText` where they are not UTF-8. Any other file is answered with
/// its bytes as they are.
pub open spec fn response_for(
    content_type: Seq<char>,
    read: ReadOutcome,
    snippet: Seq<char>,
) -> AssetResponseView {
    match read {
        ReadOutcome::NotFound => AssetResponseView::NotFound,
        ReadOutcome::Failed => AssetResponseView::NotFound,
        ReadOutcome::Bytes(bytes) => if !is_html(content_type) {
            AssetResponseView::Served { content_type, body: bytes@ }
        } else if valid_utf8(bytes@) {
            AssetResponseView::Served { content_type, body: bytes@ + encode_utf8(snippet) }
        } else {
            AssetResponseView::InvalidText
        },
    }
}

/// Builds the response for a file of the given content type from the outcome
/// of reading it.
pub fn respond(content_type: String, read: ReadOutcome, snippet: &str) -> (response:
    AssetResponse)
    ensures
        response@ == response_for(content_type@, read, snippet@),
{
    match read {
        ReadOutcome::NotFound => AssetResponse::NotFound,
        ReadOutcome::Failed => AssetResponse::NotFound,
        ReadOutcome::Bytes(bytes) => {
            if content_type != String::from_str(HTML_CONTENT_TYPE) {
                AssetResponse::Served { content_type, body: bytes }
            } else {
                match text_from_utf8(bytes) {
                    None => AssetResponse::InvalidText,
                    Some(mut text) => {
                        text.append(snippet);
                        let body = text.as_str().as_bytes_vec();
                        proof {
                            lemma_encode_utf8_concat(decode_utf8(bytes@), snippet@);
                            vstd::utf8::decode_utf8_encode_utf8(bytes@);
                        }
                        AssetResponse::Served { content_type, body }
                    },
                }
            }
        },
    }
}

/// Missing files: a file that is missing or unreadable is answered with
/// `NotFound`, which carries neither body nor fragment and has status 404,
/// whatever the content type guessed for it.
pub proof fn law_missing_file_is_not_found(content_type: Seq<char>, snippet: Seq<char>)
    ensures
        response_for(content_type, ReadOutcome::NotFound, snippet) == AssetResponseView::NotFound,
        response_for(content_type, ReadOutcome::Failed, snippet) == AssetResponseView::NotFound,
        AssetResponse::NotFound.status_code() == 404,
{
}

} // verus!
