//! The manifest's entries, in order, turned into raw profile records.

use vstd::prelude::*;
use crate::extract::{classify, extract, extracted_text, kind_of, FileKind};

verus! {

/// One manifest entry: a document, where it lies, and its declared type.
#[derive(Debug, PartialEq, Eq)]
pub struct ProfileFile {
    pub url: String,
    pub file_path: String,
    pub file_type: String,
}

/// The ordered entries of a manifest.
#[derive(Debug, PartialEq, Eq)]
pub struct Manifest {
    pub profiles: Vec<ProfileFile>,
}

/// One output record: the entry's url and the text extracted for it.
#[derive(Debug, PartialEq, Eq)]
pub struct RawProfile {
    pub url: String,
    pub text: String,
}

impl ProfileFile {
    /// The extractor this entry's declared type selects; only an entry of
    /// kind `Html` needs its file's contents.
    pub fn kind(&self) -> (k: FileKind)
        ensures
            k == kind_of(self.file_type@),
    {
        classify(self.file_type.as_str())
    }
}

/// The text extracted for `f`, whose file holds `contents`.
pub open spec fn profile_text(f: ProfileFile, contents: Seq<char>) -> Seq<char> {
    extracted_text(kind_of(f.file_type@), f.file_path@, contents)
}

/// The contents read for entry `i`: a missing one counts as empty, as an
/// unreadable file does.
pub open spec fn contents_at(contents: Seq<String>, i: int) -> Seq<char> {
    if 0 <= i < contents.len() {
        contents[i]@
    } else {
        Seq::empty()
    }
}

/// The record made for `f`, as a url and a text.
pub open spec fn expected_record(f: ProfileFile, contents: Seq<char>) -> (Seq<char>, Seq<char>) {
    (f.url@, profile_text(f, contents))
}

/// One record per manifest entry, in manifest order. `contents[i]` is the
/// text read from the file of entry `i` (empty where it could not be read or
/// was not needed); an entry past the end of `contents` reads as empty.
pub fn extract_profiles(manifest: &Manifest, contents: &Vec<String>) -> (out: Vec<RawProfile>)
    ensures
        out.len() == manifest.profiles.len(),
        forall|i: int|
            0 <= i < out.len() ==> (#[trigger] out[i]).url@ == manifest.profiles[i].url@,
        forall|i: int|
            0 <= i < out.len() ==> (#[trigger] out[i]).text@ == profile_text(
                manifest.profiles[i],
                contents_at(contents@, i),
            ),
{
    let n = manifest.profiles.len();
    let mut out: Vec<RawProfile> = Vec::new();
    let mut i: usize = 0;
    while i < n
        invariant
            n == manifest.profiles.len(),
            i <= n,
            out.len() == i,
            forall|k: int|
                0 <= k < i ==> (#[trigger] out[k]).url@ == manifest.profiles[k].url@,
            forall|k: int|
                0 <= k < i ==> (#[trigger] out[k]).text@ == profile_text(
                    manifest.profiles[k],
                    contents_at(contents@, k),
                ),
        decreases n - i,
    {
        let file = &manifest.profiles[i];
        let text = if i < contents.len() {
            extract(file.file_type.as_str(), file.file_path.as_str(), contents[i].as_str())
        } else {
            proof {
                reveal_strlit("");
            }
            extract(file.file_type.as_str(), file.file_path.as_str(), "")
        };
        out.push(RawProfile { url: file.url.clone(), text: text.into_text() });
        i = i + 1;
    }
    out
}

/// A record depends on nothing but the views of its entry and of the
/// contents read for it: equal inputs give equal records.
pub proof fn lemma_record_deterministic(f: ProfileFile, c: Seq<char>, g: ProfileFile, d: Seq<char>)
    requires
        f.url@ == g.url@,
        f.file_path@ == g.file_path@,
        f.file_type@ == g.file_type@,
        c == d,
    ensures
        expected_record(f, c) == expected_record(g, d),
{
}

} // verus!
