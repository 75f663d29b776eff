//! Dispatch from a document's declared type to the extractor for it.

use vstd::prelude::*;
use vstd::string::*;
use crate::normalize::{extract_text_from_html, normalize_html};

verus! {

/// The extractor a declared file type selects.
#[derive(Debug, Clone, Copy, PartialEq, Eq, Structural)]
pub enum FileKind {
    Pdf,
    Docx,
    Html,
    Unknown,
}

/// `resume_pdf` and `resume_docx` select the document decoders; the tags of
/// scraped web material select the HTML normalizer; any other tag selects
/// nothing.
pub open spec fn kind_of(tag: Seq<char>) -> FileKind {
    if tag == "resume_pdf"@ {
        FileKind::Pdf
    } else if tag == "resume_docx"@ {
        FileKind::Docx
    } else if tag == "readme"@ || tag == "public_dir"@ || tag == "docs_dir"@ || tag
        == "about_dir"@ || tag == "cv_dir"@ {
        FileKind::Html
    } else {
        FileKind::Unknown
    }
}

pub open spec fn pdf_placeholder(path: Seq<char>) -> Seq<char> {
    "PDF extraction not implemented for "@ + path
}

pub open spec fn docx_placeholder(path: Seq<char>) -> Seq<char> {
    "DOCX extraction not implemented for "@ + path
}

/// The text extracted from a document of kind `kind` at `path`, whose
/// contents, where they were read, are `contents`.
pub open spec fn extracted_text(kind: FileKind, path: Seq<char>, contents: Seq<char>) -> Seq<char> {
    match kind {
        FileKind::Pdf => pdf_placeholder(path),
        FileKind::Docx => docx_placeholder(path),
        FileKind::Html => normalize_html(contents),
        FileKind::Unknown => Seq::empty(),
    }
}

/// What one extractor produced.
#[derive(Debug, PartialEq, Eq)]
pub enum ExtractionResult {
    /// Normalized text of a document.
    Text(String),
    /// A diagnostic from an extractor that is not implemented.
    Placeholder(String),
    /// Nothing: the file type is not recognized.
    Empty,
}

impl ExtractionResult {
    pub open spec fn text_view(&self) -> Seq<char> {
        match self {
            ExtractionResult::Text(s) => s@,
            ExtractionResult::Placeholder(s) => s@,
            ExtractionResult::Empty => Seq::empty(),
        }
    }

    /// The result as plain text: an empty result is the empty string.
    pub fn into_text(self) -> (r: String)
        ensures
            r@ == self.text_view(),
    {
        match self {
            ExtractionResult::Text(s) => s,
            ExtractionResult::Placeholder(s) => s,
            ExtractionResult::Empty => String::new(),
        }
    }
}

fn same_text(a: &String, b: &str) -> (r: bool)
    ensures
        r == (a@ == b@),
{
    let b = String::from_str(b);
    *a == b
}

/// The extractor kind that a declared file type selects.
pub fn classify(file_type: &str) -> (k: FileKind)
    ensures
        k == kind_of(file_type@),
{
    let tag = String::from_str(file_type);
    if same_text(&tag, "resume_pdf") {
        FileKind::Pdf
    } else if same_text(&tag, "resume_docx") {
        FileKind::Docx
    } else if same_text(&tag, "readme") || same_text(&tag, "public_dir") || same_text(
        &tag,
        "docs_dir",
    ) || same_text(&tag, "about_dir") || same_text(&tag, "cv_dir") {
        FileKind::Html
    } else {
        FileKind::Unknown
    }
}

/// Placeholder for a PDF decoder: a fixed diagnostic that names the path.
pub fn extract_text_from_pdf(path: &str) -> (r: String)
    ensures
        r@ == pdf_placeholder(path@),
{
    let mut r = String::from_str("PDF extraction not implemented for ");
    r.append(path);
    r
}

/// Placeholder for a DOCX decoder: a fixed diagnostic that names the path.
pub fn extract_text_from_docx(path: &str) -> (r: String)
    ensures
        r@ == docx_placeholder(path@),
{
    let mut r = String::from_str("DOCX extraction not implemented for ");
    r.append(path);
    r
}

/// Runs the extractor that `file_type` selects on the document at
/// `file_path`; `contents` is the document's text, read by the caller (empty
/// when it could not be read), and only the HTML normalizer looks at it.
pub fn extract(file_type: &str, file_path: &str, contents: &str) -> (r: ExtractionResult)
    ensures
        r.text_view() == extracted_text(kind_of(file_type@), file_path@, contents@),
        r is Text <==> kind_of(file_type@) == FileKind::Html,
        r is Placeholder <==> (kind_of(file_type@) == FileKind::Pdf || kind_of(file_type@)
            == FileKind::Docx),
        r is Empty <==> kind_of(file_type@) == FileKind::Unknown,
{
    match classify(file_type) {
        FileKind::Pdf => ExtractionResult::Placeholder(extract_text_from_pdf(file_path)),
        FileKind::Docx => ExtractionResult::Placeholder(extract_text_from_docx(file_path)),
        FileKind::Html => ExtractionResult::Text(extract_text_from_html(contents)),
        FileKind::Unknown => ExtractionResult::Empty,
    }
}

} // verus!
