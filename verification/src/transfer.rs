//! What is done with a rendered file: handing it to a display layer and
//! saving it where the user wants it.
//!
//! Reading and writing files and showing the file picker are the host's
//! work. This module names the file, encodes its bytes for transport, sets
//! up the picker and words the outcome.

use crate::naming::{
    ends_in_name, extension_of, is_plain_name, lemma_last_dot_at, lemma_plain_name_is_sure,
    optional_string, optional_text, path_extension, path_file_name, sure_file_name,
};
use crate::text::concat2;
use vstd::prelude::*;

verus! {

// ---------------------------------------------------------------------------
// Errors
// ---------------------------------------------------------------------------

/// Why a rendered file could not be handed over or saved.
#[derive(Debug, PartialEq, Eq)]
pub enum TransferError {
    /// The rendered file could not be read; carries the host's diagnostic.
    ReadFailed(String),
    /// The file picker went away without an answer.
    DialogClosed,
    /// The user dismissed the file picker.
    Cancelled,
    /// The destination could not be written; carries the host's diagnostic.
    WriteFailed(String),
}

/// The mathematical content of a [`TransferError`].
pub enum TransferFault {
    ReadFailed(Seq<char>),
    DialogClosed,
    Cancelled,
    WriteFailed(Seq<char>),
}

impl View for TransferError {
    type V = TransferFault;

    open spec fn view(&self) -> TransferFault {
        match self {
            TransferError::ReadFailed(d) => TransferFault::ReadFailed(d@),
            TransferError::DialogClosed => TransferFault::DialogClosed,
            TransferError::Cancelled => TransferFault::Cancelled,
            TransferError::WriteFailed(d) => TransferFault::WriteFailed(d@),
        }
    }
}

/// The text shown for a [`TransferFault`].
pub open spec fn transfer_fault_message(fault: TransferFault) -> Seq<char> {
    match fault {
        TransferFault::ReadFailed(d) => "HTML 파일 읽기 실패: "@ + d,
        TransferFault::DialogClosed => "파일 선택 대화상자 오류"@,
        TransferFault::Cancelled => "저장이 취소되었습니다."@,
        TransferFault::WriteFailed(d) => "파일 저장 실패: "@ + d,
    }
}

impl TransferError {
    /// The human-readable diagnostic for this error.
    pub fn message(&self) -> (r: String)
        ensures
            r@ == transfer_fault_message(self@),
    {
        match self {
            TransferError::ReadFailed(d) => concat2("HTML 파일 읽기 실패: ", d.as_str()),
            TransferError::DialogClosed => "파일 선택 대화상자 오류".to_owned(),
            TransferError::Cancelled => "저장이 취소되었습니다.".to_owned(),
            TransferError::WriteFailed(d) => concat2("파일 저장 실패: ", d.as_str()),
        }
    }
}

// ---------------------------------------------------------------------------
// The name shown for a rendered file
// ---------------------------------------------------------------------------

/// What the `regex` crate captures when it matches `text` against `pattern`:
/// one entry for each group of the pattern, the whole match first, each with
/// the text it took part with. `None` where the pattern does not compile or
/// does not match.
pub uninterp spec fn regex_captures(pattern: Seq<char>, text: Seq<char>) -> Option<
    Seq<Option<Seq<char>>>,
>;

/// The texts of a list of captured groups.
pub open spec fn group_texts(groups: Option<Vec<Option<String>>>) -> Option<
    Seq<Option<Seq<char>>>,
> {
    match groups {
        Some(v) => Some(
            Seq::new(
                v@.len(),
                |i: int|
                    match v@[i] {
                        Some(s) => Some(s@),
                        None => None,
                    },
            ),
        ),
        None => None,
    }
}

/// Compiles `pattern` with `regex::Regex::new` and matches `text` against it
/// with `Regex::captures`. The contract claims only that the outcome is a
/// function of the pattern and the text.
#[verifier::external_body]
fn capture_groups(pattern: &str, text: &str) -> (r: Option<Vec<Option<String>>>)
    ensures
        group_texts(r) == regex_captures(pattern@, text@),
{
    let re = regex::Regex::new(pattern).ok()?;
    let caps = re.captures(text)?;
    Some(caps.iter().map(|m| m.map(|m| m.as_str().to_owned())).collect())
}

/// The pattern of a file name that may carry a time stamp: anything, then
/// optionally `_` and digits, then a dot and an extension without dots.
pub open spec fn stamp_pattern() -> Seq<char> {
    "^(.*?)(?:_\\d+)?(\\.[^.]+)$"@
}

/// The name made of what the groups of [`stamp_pattern`] captured: the part
/// in front of the stamp and the extension. The name as it stands where the
/// groups are not those of a match.
pub open spec fn name_of_groups(name: Seq<char>, groups: Option<Seq<Option<Seq<char>>>>) -> Seq<
    char,
> {
    match groups {
        Some(g) => if g.len() == 3 && g[1] is Some && g[2] is Some {
            g[1]->0 + g[2]->0
        } else {
            name
        },
        None => name,
    }
}

/// `name` without the time stamp in front of its extension.
pub open spec fn display_name(name: Seq<char>) -> Seq<char> {
    name_of_groups(name, regex_captures(stamp_pattern(), name))
}

/// The name shown for the file with the name `file_name`, and the default
/// name where there is none.
pub open spec fn transfer_name(file_name: Option<Seq<char>>) -> Seq<char> {
    match file_name {
        Some(name) => display_name(name),
        None => "output.html"@,
    }
}

/// Puts a name together from the groups captured in it.
pub fn name_from_groups(name: &str, groups: Option<Vec<Option<String>>>) -> (r: String)
    ensures
        r@ == name_of_groups(name@, group_texts(groups)),
{
    match groups {
        Some(g) => {
            if g.len() == 3 {
                match (&g[1], &g[2]) {
                    (Some(front), Some(extension)) => concat2(front.as_str(), extension.as_str()),
                    _ => name.to_owned(),
                }
            } else {
                name.to_owned()
            }
        },
        None => name.to_owned(),
    }
}

/// Removes the time stamp from a file name: `deck_1755325282888.pptx`
/// becomes `deck.pptx`.
pub fn strip_stamp(name: &str) -> (r: String)
    ensures
        r@ == display_name(name@),
{
    let groups = capture_groups("^(.*?)(?:_\\d+)?(\\.[^.]+)$", name);
    name_from_groups(name, groups)
}

/// The name shown for a file, given its file name.
pub fn name_for_transfer(file_name: Option<&str>) -> (r: String)
    ensures
        r@ == transfer_name(optional_text(file_name)),
{
    match file_name {
        Some(name) => strip_stamp(name),
        None => "output.html".to_owned(),
    }
}

/// `shown` is the name shown for a file name, not empty, at the end of
/// `path`.
pub open spec fn shows_end_of(shown: Seq<char>, path: Seq<char>) -> bool {
    exists|n: Seq<char>| n.len() > 0 && n.is_suffix_of(path) && shown == #[trigger] display_name(n)
}

/// The name shown for the file at `path`. What the file name of a path is
/// follows the host's rules; the name shown is the one that
/// [`name_for_transfer`] makes of it. In a path parted by `/` alone, such
/// as `/tmp/deck_1755325282888.html`, the file name is the plain name
/// behind the last `/` on every host.
pub fn download_name(path: &str) -> (r: String)
    ensures
        exists|file_name: Option<Seq<char>>| r@ == #[trigger] transfer_name(file_name),
        sure_file_name(path@) matches Some(f) ==> r@ == display_name(f),
        ends_in_name(path@) ==> shows_end_of(r@, path@),
{
    let file_name = path_file_name(path);
    let r = match &file_name {
        Some(name) => name_for_transfer(Some(name.as_str())),
        None => name_for_transfer(None),
    };
    assert(r@ == transfer_name(optional_string(file_name)));
    r
}

// ---------------------------------------------------------------------------
// The bytes of a rendered file
// ---------------------------------------------------------------------------

/// What the `base64` crate's standard engine encodes `bytes` to: the
/// standard alphabet, with padding.
pub uninterp spec fn base64_standard(bytes: Seq<u8>) -> Seq<char>;

/// The encoded text of `len` bytes can be allocated: its length, four
/// characters for every three bytes, stays within what one allocation holds.
pub open spec fn encodable(len: nat) -> bool {
    (len / 3 + 1) * 4 <= isize::MAX
}

/// The length of the encoded text of `len` bytes: four characters for every
/// three bytes begun.
pub open spec fn encoded_len(len: nat) -> nat {
    4 * ((len + 2) / 3)
}

/// Calls `Engine::encode` on `base64::engine::general_purpose::STANDARD`.
/// The call panics where the length of the result overflows; the
/// precondition leaves those inputs out. The contract claims that the result
/// is a function of the bytes, and its padded length.
#[verifier::external_body]
fn encode_base64(bytes: &Vec<u8>) -> (r: String)
    requires
        encodable(bytes@.len()),
    ensures
        r@ == base64_standard(bytes@),
        r@.len() == encoded_len(bytes@.len()),
{
    base64::Engine::encode(&base64::engine::general_purpose::STANDARD, bytes)
}

/// What the display layer is handed for a rendered file: the name to show
/// and the encoded bytes, or the error of reading the file.
pub open spec fn payload(name: Seq<char>, read: Result<Vec<u8>, String>) -> Result<
    (Seq<char>, Seq<char>),
    TransferFault,
> {
    match read {
        Ok(bytes) => Ok((name, base64_standard(bytes@))),
        Err(d) => Err(TransferFault::ReadFailed(d@)),
    }
}

/// The outcome of a hand-over, as the model sees it.
pub open spec fn payload_view(r: Result<(String, String), TransferError>) -> Result<
    (Seq<char>, Seq<char>),
    TransferFault,
> {
    match r {
        Ok((name, encoded)) => Ok((name@, encoded@)),
        Err(e) => Err(e@),
    }
}

/// Makes the payload for the rendered file with the name to show `name`,
/// from the host's report on reading it.
pub fn payload_for(name: String, read: Result<Vec<u8>, String>) -> (r: Result<
    (String, String),
    TransferError,
>)
    requires
        read matches Ok(bytes) ==> encodable(bytes@.len()),
    ensures
        payload_view(r) == payload(name@, read),
        read matches Ok(bytes) ==> r matches Ok(p) && p.1@.len() == encoded_len(bytes@.len()),
{
    match read {
        Ok(bytes) => {
            let encoded = encode_base64(&bytes);
            Ok((name, encoded))
        },
        Err(d) => Err(TransferError::ReadFailed(d)),
    }
}

/// Makes the payload for the rendered file at `path` from the host's report
/// on reading it: the name to show, found as [`download_name`] finds it, and
/// the encoded bytes; or the error of reading.
pub fn download_payload(path: &str, read: Result<Vec<u8>, String>) -> (r: Result<
    (String, String),
    TransferError,
>)
    requires
        read matches Ok(bytes) ==> encodable(bytes@.len()),
    ensures
        exists|file_name: Option<Seq<char>>|
            payload_view(r) == payload(#[trigger] transfer_name(file_name), read),
        sure_file_name(path@) matches Some(f) ==> payload_view(r) == payload(
            display_name(f),
            read,
        ),
        ends_in_name(path@) ==> exists|name: Seq<char>| #[trigger]
            shows_end_of(name, path@) && payload_view(r) == payload(name, read),
        read matches Ok(bytes) ==> r matches Ok(p) && p.1@.len() == encoded_len(bytes@.len()),
{
    let name = download_name(path);
    let ghost file_name = choose|file_name: Option<Seq<char>>|
        name@ == #[trigger] transfer_name(file_name);
    let r = payload_for(name, read);
    assert(payload_view(r) == payload(transfer_name(file_name), read));
    r
}

// ---------------------------------------------------------------------------
// Saving
// ---------------------------------------------------------------------------

/// A filter of the file picker: a label and the extensions it lets through.
#[derive(Debug, PartialEq, Eq)]
pub struct FileFilter {
    pub name: String,
    pub extensions: Vec<String>,
}

/// How the file picker is set up.
#[derive(Debug, PartialEq, Eq)]
pub struct SaveDialog {
    /// The file name that the picker suggests.
    pub file_name: String,
    /// The filters it offers, in order.
    pub filters: Vec<FileFilter>,
}

/// The mathematical content of a [`FileFilter`].
pub struct FilterModel {
    pub name: Seq<char>,
    pub extensions: Seq<Seq<char>>,
}

/// The mathematical content of a [`SaveDialog`].
pub struct DialogModel {
    pub file_name: Seq<char>,
    pub filters: Seq<FilterModel>,
}

impl View for FileFilter {
    type V = FilterModel;

    open spec fn view(&self) -> FilterModel {
        FilterModel { name: self.name@, extensions: crate::text::texts(self.extensions@) }
    }
}

impl View for SaveDialog {
    type V = DialogModel;

    open spec fn view(&self) -> DialogModel {
        DialogModel {
            file_name: self.file_name@,
            filters: Seq::new(self.filters@.len(), |i: int| self.filters@[i]@),
        }
    }
}

/// The filter that lets every file through.
pub open spec fn all_files() -> FilterModel {
    FilterModel { name: "All Files"@, extensions: seq!["*"@] }
}

/// The filter for one extension, labelled with it.
pub open spec fn only(extension: Seq<char>) -> FilterModel {
    FilterModel { name: extension, extensions: seq![extension] }
}

/// The picker for a suggested name with the extension `extension`: the
/// filter for that extension, where there is one, and the filter for all
/// files behind it.
pub open spec fn dialog(file_name: Seq<char>, extension: Option<Seq<char>>) -> DialogModel {
    DialogModel {
        file_name,
        filters: match extension {
            Some(e) => seq![only(e), all_files()],
            None => seq![all_files()],
        },
    }
}

/// The name suggested where the caller gave none.
pub open spec fn suggested_name(default_name: Option<String>) -> Seq<char> {
    match default_name {
        Some(n) => n@,
        None => "output.html"@,
    }
}

/// Sets up the picker for `file_name`, given the extension of that name.
pub fn dialog_for(file_name: String, extension: Option<String>) -> (r: SaveDialog)
    ensures
        r@ == dialog(file_name@, optional_string(extension)),
{
    let mut filters: Vec<FileFilter> = Vec::new();
    match extension {
        Some(e) => {
            let mut extensions: Vec<String> = Vec::new();
            extensions.push(e.clone());
            assert(crate::text::texts(extensions@) =~= seq![e@]);
            filters.push(FileFilter { name: e, extensions });
        },
        None => {},
    }
    let mut every: Vec<String> = Vec::new();
    every.push("*".to_owned());
    assert(crate::text::texts(every@) =~= seq!["*"@]);
    filters.push(FileFilter { name: "All Files".to_owned(), extensions: every });
    let r = SaveDialog { file_name, filters };
    assert(r@.filters =~= dialog(r.file_name@, optional_string(extension)).filters);
    r
}

/// The default name is plain, and its extension is `html`.
proof fn lemma_default_name()
    ensures
        sure_file_name("output.html"@) == Some("output.html"@),
        extension_of("output.html"@) == Some("html"@),
{
    reveal_strlit("output.html");
    reveal_strlit("html");
    let name = "output.html"@;
    lemma_last_dot_at(name, 6);
    assert(name.subrange(7, 11) =~= "html"@);
    assert(name != seq!['.']);
    assert(name != seq!['.', '.']);
    assert(is_plain_name(name));
    lemma_plain_name_is_sure(name);
}

/// Sets up the picker for saving a rendered file. The suggested name is
/// `default_name`, or `output.html` without one. Its extension is found by
/// the host's rules for paths; the picker is the one that [`dialog_for`]
/// makes of it.
pub fn save_dialog(default_name: Option<String>) -> (r: SaveDialog)
    ensures
        exists|extension: Option<Seq<char>>|
            r@ == #[trigger] dialog(suggested_name(default_name), extension),
        sure_file_name(suggested_name(default_name)) matches Some(f) ==> r@ == dialog(
            suggested_name(default_name),
            extension_of(f),
        ),
        default_name is None ==> r@ == dialog("output.html"@, Some("html"@)),
{
    proof {
        lemma_default_name();
    }
    let file_name = match default_name {
        Some(n) => n,
        None => "output.html".to_owned(),
    };
    let extension = path_extension(file_name.as_str());
    let ghost witness = optional_string(extension);
    let r = dialog_for(file_name, extension);
    assert(r@ == dialog(suggested_name(default_name), witness));
    r
}

/// Takes the host's report on reading the rendered file.
pub fn source_read(read: Result<Vec<u8>, String>) -> (r: Result<Vec<u8>, TransferError>)
    ensures
        match read {
            Ok(bytes) => r == Ok::<Vec<u8>, TransferError>(bytes),
            Err(d) => r matches Err(e) && e@ == TransferFault::ReadFailed(d@),
        },
{
    match read {
        Ok(bytes) => Ok(bytes),
        Err(d) => Err(TransferError::ReadFailed(d)),
    }
}

/// Takes the picker's answer: no answer at all, a dismissal, or the
/// destination the user chose.
pub fn destination_chosen(answer: Option<Option<String>>) -> (r: Result<String, TransferError>)
    ensures
        match answer {
            None => r matches Err(e) && e@ == TransferFault::DialogClosed,
            Some(None) => r matches Err(e) && e@ == TransferFault::Cancelled,
            Some(Some(path)) => r == Ok::<String, TransferError>(path),
        },
{
    match answer {
        None => Err(TransferError::DialogClosed),
        Some(None) => Err(TransferError::Cancelled),
        Some(Some(path)) => Ok(path),
    }
}

/// The text that confirms a save to `destination`.
pub open spec fn saved_message(destination: Seq<char>) -> Seq<char> {
    "저장 완료: "@ + destination
}

/// Takes the host's report on writing the destination.
pub fn destination_written(destination: &str, written: Result<(), String>) -> (r: Result<
    String,
    TransferError,
>)
    ensures
        match written {
            Ok(_) => r matches Ok(m) && m@ == saved_message(destination@),
            Err(d) => r matches Err(e) && e@ == TransferFault::WriteFailed(d@),
        },
{
    match written {
        Ok(_) => Ok(concat2("저장 완료: ", destination)),
        Err(d) => Err(TransferError::WriteFailed(d)),
    }
}

} // verus!
