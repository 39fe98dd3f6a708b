//! The header validator: finding the front matter block of a document and
//! holding what was decoded from it to the rendering policy. Decoding the
//! block is the caller's work.

use crate::text::{
    all_whitespace, concat2, concat3, is_whitespace, same_text, to_chars, trim, trim_bounds,
    trim_start_index, trimmed, char_is_whitespace,
};
use vstd::prelude::*;
use vstd::string::StrSliceExecFns;

verus! {

// ---------------------------------------------------------------------------
// Data
// ---------------------------------------------------------------------------

/// The header of a document, as decoded from its front matter block.
#[derive(Debug, PartialEq, Eq)]
pub struct FrontMatter {
    pub title: String,
    pub author: String,
    pub format: String,
    pub embed_resources: bool,
}

/// The mathematical content of a [`FrontMatter`].
pub struct HeaderFields {
    pub title: Seq<char>,
    pub author: Seq<char>,
    pub format: Seq<char>,
    pub embed_resources: bool,
}

impl View for FrontMatter {
    type V = HeaderFields;

    open spec fn view(&self) -> HeaderFields {
        HeaderFields {
            title: self.title@,
            author: self.author@,
            format: self.format@,
            embed_resources: self.embed_resources,
        }
    }
}

/// Why a document's header was refused.
#[derive(Debug, PartialEq, Eq)]
pub enum HeaderError {
    /// The document does not start with a delimited header block.
    MissingHeaderBlock,
    /// The block did not decode to a header; carries the decoder's
    /// diagnostic.
    MalformedHeader(String),
    /// `format` is none of the permitted values; carries the offending value.
    UnsupportedFormat(String),
    /// `embed-resources` is absent or `false`.
    MissingEmbedResources,
}

/// The mathematical content of a [`HeaderError`].
pub enum HeaderFault {
    MissingHeaderBlock,
    MalformedHeader(Seq<char>),
    UnsupportedFormat(Seq<char>),
    MissingEmbedResources,
}

impl View for HeaderError {
    type V = HeaderFault;

    open spec fn view(&self) -> HeaderFault {
        match self {
            HeaderError::MissingHeaderBlock => HeaderFault::MissingHeaderBlock,
            HeaderError::MalformedHeader(d) => HeaderFault::MalformedHeader(d@),
            HeaderError::UnsupportedFormat(f) => HeaderFault::UnsupportedFormat(f@),
            HeaderError::MissingEmbedResources => HeaderFault::MissingEmbedResources,
        }
    }
}

/// The text shown for a [`HeaderFault`].
pub open spec fn fault_message(fault: HeaderFault) -> Seq<char> {
    match fault {
        HeaderFault::MissingHeaderBlock =>
            "Missing YAML front matter (--- ... ---) at the top of the file."@,
        HeaderFault::MalformedHeader(d) => "Invalid YAML front matter: "@ + d,
        HeaderFault::UnsupportedFormat(f) => "Unsupported format: "@ + f
            + " (expected: revealjs, pptx, or beamer)"@,
        HeaderFault::MissingEmbedResources =>
            "`embed-resources: true` is required for self-contained slides."@,
    }
}

impl HeaderError {
    /// The human-readable diagnostic for this error.
    pub fn message(&self) -> (r: String)
        ensures
            r@ == fault_message(self@),
    {
        match self {
            HeaderError::MissingHeaderBlock => {
                "Missing YAML front matter (--- ... ---) at the top of the file.".to_owned()
            },
            HeaderError::MalformedHeader(d) => concat2("Invalid YAML front matter: ", d.as_str()),
            HeaderError::UnsupportedFormat(f) => concat3(
                "Unsupported format: ",
                f.as_str(),
                " (expected: revealjs, pptx, or beamer)",
            ),
            HeaderError::MissingEmbedResources => {
                "`embed-resources: true` is required for self-contained slides.".to_owned()
            },
        }
    }
}

// ---------------------------------------------------------------------------
// Finding the block
// ---------------------------------------------------------------------------

/// The marker that opens and closes a header block.
pub open spec fn delimiter() -> Seq<char> {
    seq!['-', '-', '-']
}

/// The index of the first line break at or after `from`, or `doc.len()`.
pub open spec fn line_end(doc: Seq<char>, from: int) -> int
    decreases doc.len() - from,
{
    if from >= doc.len() {
        doc.len() as int
    } else if from >= 0 && doc[from] == '\n' {
        from
    } else {
        line_end(doc, from + 1)
    }
}

/// The first line of `doc`, without its line break.
pub open spec fn first_line(doc: Seq<char>) -> Seq<char> {
    doc.subrange(0, line_end(doc, 0))
}

/// A line that holds the delimiter and, around it, whitespace only.
pub open spec fn is_delimiter_line(line: Seq<char>) -> bool {
    trim(line) == delimiter()
}

/// The document's first line is a delimiter line.
pub open spec fn opens_with_delimiter(doc: Seq<char>) -> bool {
    is_delimiter_line(first_line(doc))
}

/// Where the block starts: just behind the opening delimiter.
pub open spec fn block_start(doc: Seq<char>) -> int {
    trim_start_index(first_line(doc)) + 3
}

/// The line break at `p` is followed by a closing delimiter: a line that
/// starts with the delimiter and holds nothing else but whitespace.
pub open spec fn closes_at(doc: Seq<char>, p: int) -> bool {
    &&& 0 <= p
    &&& p + 3 < doc.len()
    &&& doc[p] == '\n'
    &&& doc[p + 1] == '-'
    &&& doc[p + 2] == '-'
    &&& doc[p + 3] == '-'
    &&& all_whitespace(doc.subrange(p + 4, line_end(doc, p + 4)))
}

/// `p` is the first line break behind the opening delimiter that a closing
/// delimiter follows.
pub open spec fn is_block_end(doc: Seq<char>, p: int) -> bool {
    &&& block_start(doc) <= p
    &&& closes_at(doc, p)
    &&& forall|q: int| block_start(doc) <= q < p ==> !closes_at(doc, q)
}

/// The block is closed somewhere.
pub open spec fn has_block_end(doc: Seq<char>) -> bool {
    exists|p: int| is_block_end(doc, p)
}

/// The line break in front of the closing delimiter.
pub open spec fn block_end(doc: Seq<char>) -> int {
    choose|p: int| is_block_end(doc, p)
}

/// The header block of `doc`: the text between the opening delimiter and the
/// closing one, up to and including the line break in front of the latter.
/// `None` where the first line is no delimiter line or no closing delimiter
/// follows.
pub open spec fn header_block(doc: Seq<char>) -> Option<Seq<char>> {
    if opens_with_delimiter(doc) && has_block_end(doc) {
        Some(doc.subrange(block_start(doc), block_end(doc) + 1))
    } else {
        None
    }
}

/// Any index that a line break or the end marks, with no line break before
/// it, is the line's end.
pub proof fn lemma_line_end_unique(doc: Seq<char>, from: int, e: int)
    requires
        0 <= from <= e <= doc.len(),
        forall|i: int| from <= i < e ==> #[trigger] doc[i] != '\n',
        e == doc.len() || doc[e] == '\n',
    ensures
        line_end(doc, from) == e,
    decreases e - from,
{
    if from < e {
        lemma_line_end_unique(doc, from + 1, e);
    }
}

/// There is at most one block end.
pub proof fn lemma_block_end_unique(doc: Seq<char>, p: int)
    requires
        is_block_end(doc, p),
    ensures
        has_block_end(doc),
        block_end(doc) == p,
{
    let q = block_end(doc);
    assert(is_block_end(doc, q));
    if q < p {
        assert(!closes_at(doc, q));
    } else if p < q {
        assert(!closes_at(doc, p));
    }
}

/// The index of the first line break at or after `from`, or the length.
fn find_line_end(chars: &Vec<char>, from: usize) -> (e: usize)
    requires
        from <= chars@.len(),
    ensures
        e == line_end(chars@, from as int),
        from <= e <= chars@.len(),
{
    let mut e: usize = from;
    while e < chars.len() && chars[e] != '\n'
        invariant
            from <= e <= chars@.len(),
            forall|i: int| from <= i < e ==> #[trigger] chars@[i] != '\n',
        decreases chars@.len() - e,
    {
        e += 1;
    }
    proof {
        lemma_line_end_unique(chars@, from as int, e as int);
    }
    e
}

/// Whether `chars[lo..hi]` is whitespace throughout.
fn range_is_whitespace(chars: &Vec<char>, lo: usize, hi: usize) -> (r: bool)
    requires
        lo <= hi <= chars@.len(),
    ensures
        r == all_whitespace(chars@.subrange(lo as int, hi as int)),
{
    let ghost part = chars@.subrange(lo as int, hi as int);
    let mut i: usize = lo;
    while i < hi
        invariant
            lo <= i <= hi <= chars@.len(),
            part == chars@.subrange(lo as int, hi as int),
            forall|j: int| 0 <= j < i - lo ==> is_whitespace(#[trigger] part[j]),
        decreases hi - i,
    {
        if !char_is_whitespace(chars[i]) {
            assert(part[i - lo] == chars@[i as int]);
            return false;
        }
        assert(part[i - lo] == chars@[i as int]);
        i += 1;
    }
    true
}

/// Whether a closing delimiter follows the character at `p`.
fn closes_here(chars: &Vec<char>, p: usize) -> (r: bool)
    requires
        p < chars@.len(),
    ensures
        r == closes_at(chars@, p as int),
{
    let n = chars.len();
    if chars[p] == '\n' && n - p > 3 && chars[p + 1] == '-' && chars[p + 2] == '-' && chars[p + 3]
        == '-' {
        let e = find_line_end(chars, p + 4);
        range_is_whitespace(chars, p + 4, e)
    } else {
        false
    }
}

/// Extracts the header block of a document.
///
/// The document must begin with a delimiter line: `---`, with nothing but
/// whitespace around it. The block runs from just behind that delimiter to
/// the first later line that starts with `---` and holds nothing else but
/// whitespace, and includes the line break in front of that line.
pub fn extract_yaml_front_matter(md: &str) -> (r: Option<&str>)
    ensures
        match r {
            Some(block) => header_block(md@) == Some(block@),
            None => header_block(md@) is None,
        },
{
    let chars = to_chars(md);
    let n = chars.len();
    let nl = find_line_end(&chars, 0);
    let (a, b) = trim_bounds(&chars, 0, nl);
    let ghost doc = md@;
    assert(chars@.subrange(a as int, b as int) == trim(first_line(doc)));
    if !(b - a == 3 && chars[a] == '-' && chars[a + 1] == '-' && chars[a + 2] == '-') {
        proof {
            let t = chars@.subrange(a as int, b as int);
            if t == delimiter() {
                assert(t.len() == 3);
                assert(t[0] == '-' && t[1] == '-' && t[2] == '-');
            }
        }
        return None;
    }
    assert(chars@.subrange(a as int, b as int) =~= delimiter());
    let start = a + 3;
    assert(start == block_start(doc));
    let mut p: usize = start;
    while p < n
        invariant
            start <= p <= n,
            n == chars@.len(),
            chars@ == doc,
            md@ == doc,
            opens_with_delimiter(doc),
            start == block_start(doc),
            forall|q: int| start <= q < p ==> !closes_at(doc, q),
        decreases n - p,
    {
        if closes_here(&chars, p) {
            proof {
                lemma_block_end_unique(doc, p as int);
            }
            return Some(md.substring_char(start, p + 1));
        }
        p += 1;
    }
    proof {
        if has_block_end(doc) {
            let q = block_end(doc);
            assert(is_block_end(doc, q));
            assert(closes_at(doc, q));
        }
    }
    None
}

// ---------------------------------------------------------------------------
// Policy
// ---------------------------------------------------------------------------

/// The formats that can be rendered.
pub open spec fn is_allowed_format(format: Seq<char>) -> bool {
    format == "revealjs"@ || format == "pptx"@ || format == "beamer"@
}

/// The policy, in order: the trimmed `format` must be permitted, then
/// `embed-resources` must be `true`. The first failure decides.
pub open spec fn check_policy(h: HeaderFields) -> Result<HeaderFields, HeaderFault> {
    if !is_allowed_format(trim(h.format)) {
        Err(HeaderFault::UnsupportedFormat(h.format))
    } else if !h.embed_resources {
        Err(HeaderFault::MissingEmbedResources)
    } else {
        Ok(h)
    }
}

/// What the decoder made of a header block, as the model sees it.
pub open spec fn decoded_view(decoded: Result<FrontMatter, String>) -> Result<
    HeaderFields,
    Seq<char>,
> {
    match decoded {
        Ok(fm) => Ok(fm@),
        Err(diagnostic) => Err(diagnostic@),
    }
}

/// What the decoder made of the header block of a document, if it was given
/// one, as the model sees it.
pub open spec fn framed_view(decoded: Option<Result<FrontMatter, String>>) -> Option<
    Result<HeaderFields, Seq<char>>,
> {
    match decoded {
        Some(d) => Some(decoded_view(d)),
        None => None,
    }
}

/// What validation makes of a decoder's outcome: a failure to decode is a
/// malformed header and carries the decoder's diagnostic; a header that
/// decodes is held to the policy.
pub open spec fn judge(decoded: Result<HeaderFields, Seq<char>>) -> Result<
    HeaderFields,
    HeaderFault,
> {
    match decoded {
        Err(d) => Err(HeaderFault::MalformedHeader(d)),
        Ok(h) => check_policy(h),
    }
}

/// What validation makes of a document, given what the decoder made of its
/// header block. A document without a header block is refused whatever was
/// decoded, and so is one whose block has not been decoded.
pub open spec fn validation(
    doc: Seq<char>,
    decoded: Option<Result<HeaderFields, Seq<char>>>,
) -> Result<HeaderFields, HeaderFault> {
    match (header_block(doc), decoded) {
        (Some(_), Some(d)) => judge(d),
        _ => Err(HeaderFault::MissingHeaderBlock),
    }
}

/// The outcome of validation, as the model sees it.
pub open spec fn outcome_view(r: Result<FrontMatter, HeaderError>) -> Result<
    HeaderFields,
    HeaderFault,
> {
    match r {
        Ok(fm) => Ok(fm@),
        Err(e) => Err(e@),
    }
}

/// Holds a decoded header to the policy.
pub fn check_front_matter(fm: FrontMatter) -> (r: Result<FrontMatter, HeaderError>)
    ensures
        match r {
            Ok(h) => check_policy(fm@) == Ok::<HeaderFields, HeaderFault>(h@) && h == fm,
            Err(e) => check_policy(fm@) == Err::<HeaderFields, HeaderFault>(e@),
        },
{
    let format = trimmed(fm.format.as_str());
    let allowed = same_text(format.as_str(), "revealjs") || same_text(format.as_str(), "pptx")
        || same_text(format.as_str(), "beamer");
    if !allowed {
        return Err(HeaderError::UnsupportedFormat(fm.format));
    }
    if !fm.embed_resources {
        return Err(HeaderError::MissingEmbedResources);
    }
    Ok(fm)
}

/// Judges what the decoder made of a header block: a failure to decode is
/// a malformed header, with the decoder's diagnostic; a header that decodes
/// is held to the policy.
pub fn header_from_decoded(decoded: Result<FrontMatter, String>) -> (r: Result<
    FrontMatter,
    HeaderError,
>)
    ensures
        outcome_view(r) == judge(decoded_view(decoded)),
{
    match decoded {
        Err(d) => Err(HeaderError::MalformedHeader(d)),
        Ok(fm) => check_front_matter(fm),
    }
}

/// Validates the header of a document.
///
/// Decoding the header block is the caller's work: `decoded` is what the
/// decoder made of the block that [`extract_yaml_front_matter`] finds in
/// `md`, and `None` where it finds none.
///
/// Fails with `MissingHeaderBlock` where the document has no header block,
/// with `MalformedHeader` where the block did not decode, with
/// `UnsupportedFormat` where the format is not permitted and with
/// `MissingEmbedResources` where `embed-resources` is not `true`; returns
/// the header otherwise.
pub fn validate_markdown_header(md: &str, decoded: Option<Result<FrontMatter, String>>) -> (r:
    Result<FrontMatter, HeaderError>)
    ensures
        outcome_view(r) == validation(md@, framed_view(decoded)),
{
    match (extract_yaml_front_matter(md), decoded) {
        (Some(_), Some(d)) => header_from_decoded(d),
        _ => Err(HeaderError::MissingHeaderBlock),
    }
}

// ---------------------------------------------------------------------------
// Laws
// ---------------------------------------------------------------------------

/// A document whose first line is not a delimiter line is refused for its
/// missing header block, whatever was decoded.
pub proof fn law_missing_opening_delimiter(
    doc: Seq<char>,
    decoded: Option<Result<HeaderFields, Seq<char>>>,
)
    requires
        !opens_with_delimiter(doc),
    ensures
        validation(doc, decoded) == Err::<HeaderFields, HeaderFault>(
            HeaderFault::MissingHeaderBlock,
        ),
{
}

/// A document in which no closing delimiter follows the opening one is
/// refused for its missing header block, whatever was decoded.
pub proof fn law_missing_closing_delimiter(
    doc: Seq<char>,
    decoded: Option<Result<HeaderFields, Seq<char>>>,
)
    requires
        !has_block_end(doc),
    ensures
        validation(doc, decoded) == Err::<HeaderFields, HeaderFault>(
            HeaderFault::MissingHeaderBlock,
        ),
{
}

/// A document whose header decodes, with a format that is not permitted, is
/// refused as unsupported, and the error names the format as written.
pub proof fn law_unsupported_format(doc: Seq<char>, h: HeaderFields)
    requires
        header_block(doc) is Some,
        !is_allowed_format(trim(h.format)),
    ensures
        validation(doc, Some(Ok(h))) == Err::<HeaderFields, HeaderFault>(
            HeaderFault::UnsupportedFormat(h.format),
        ),
        fault_message(HeaderFault::UnsupportedFormat(h.format)) == "Unsupported format: "@
            + h.format + " (expected: revealjs, pptx, or beamer)"@,
{
}

/// A document whose header decodes, with a permitted format and without
/// `embed-resources: true`, is refused for the missing flag.
pub proof fn law_missing_embed_resources(doc: Seq<char>, h: HeaderFields)
    requires
        header_block(doc) is Some,
        is_allowed_format(trim(h.format)),
        !h.embed_resources,
    ensures
        validation(doc, Some(Ok(h))) == Err::<HeaderFields, HeaderFault>(
            HeaderFault::MissingEmbedResources,
        ),
{
}

/// A document whose header block does not decode is refused as malformed,
/// and the error carries the decoder's diagnostic.
pub proof fn law_malformed_header(doc: Seq<char>, diagnostic: Seq<char>)
    requires
        header_block(doc) is Some,
    ensures
        validation(doc, Some(Err(diagnostic))) == Err::<HeaderFields, HeaderFault>(
            HeaderFault::MalformedHeader(diagnostic),
        ),
        fault_message(HeaderFault::MalformedHeader(diagnostic))
            == "Invalid YAML front matter: "@ + diagnostic,
{
}

/// Validation is a function of the document and of what was decoded: two
/// headers that it yields for them hold the same contents.
pub proof fn law_validation_repeatable(
    doc: Seq<char>,
    decoded: Option<Result<HeaderFields, Seq<char>>>,
    first: FrontMatter,
    second: FrontMatter,
)
    requires
        validation(doc, decoded) == Ok::<HeaderFields, HeaderFault>(first@),
        validation(doc, decoded) == Ok::<HeaderFields, HeaderFault>(second@),
    ensures
        first@ == second@,
{
}

/// A header that validation yields is the decoded one, passes the policy
/// again, unchanged, and has a permitted format and the flag set.
pub proof fn law_valid_header_meets_policy(
    doc: Seq<char>,
    decoded: Option<Result<HeaderFields, Seq<char>>>,
    h: HeaderFields,
)
    requires
        validation(doc, decoded) == Ok::<HeaderFields, HeaderFault>(h),
    ensures
        decoded == Some(Ok::<HeaderFields, Seq<char>>(h)),
        check_policy(h) == Ok::<HeaderFields, HeaderFault>(h),
        is_allowed_format(trim(h.format)),
        h.embed_resources,
{
}

} // verus!
