use profile_extract::error::ErrorKind;
use profile_extract::extract::{
    classify, extract, extract_text_from_docx, extract_text_from_pdf, ExtractionResult, FileKind,
};
use profile_extract::normalize::extract_text_from_html;
use profile_extract::pipeline::{extract_profiles, Manifest, ProfileFile, RawProfile};

fn entry(url: &str, path: &str, file_type: &str) -> ProfileFile {
    ProfileFile {
        url: url.to_string(),
        file_path: path.to_string(),
        file_type: file_type.to_string(),
    }
}

fn has_tag(s: &str) -> bool {
    let chars: Vec<char> = s.chars().collect();
    for i in 0..chars.len() {
        if chars[i] == '<' {
            for j in (i + 1)..chars.len() {
                if chars[j] == '>' {
                    return true;
                }
            }
        }
    }
    false
}

fn has_double_white_space(s: &str) -> bool {
    let chars: Vec<char> = s.chars().collect();
    chars.windows(2).any(|w| w[0].is_whitespace() && w[1].is_whitespace())
}

#[test]
fn html_entry_is_normalized() {
    let manifest = Manifest { profiles: vec![entry("u1", "a.html", "readme")] };
    let contents = vec!["<p>Hello   <b>world</b></p>".to_string()];
    let out = extract_profiles(&manifest, &contents);
    assert_eq!(
        out,
        vec![RawProfile { url: "u1".to_string(), text: "Hello world".to_string() }]
    );
}

#[test]
fn missing_html_file_gives_empty_text() {
    let manifest = Manifest { profiles: vec![entry("u2", "missing.html", "docs_dir")] };
    let contents = vec![String::new()];
    let out = extract_profiles(&manifest, &contents);
    assert_eq!(out.len(), 1);
    assert_eq!(out[0].url, "u2");
    assert_eq!(out[0].text, "");
}

#[test]
fn contents_shorter_than_manifest_read_as_empty() {
    let manifest = Manifest {
        profiles: vec![entry("a", "a.html", "readme"), entry("b", "b.html", "cv_dir")],
    };
    let contents = vec!["<i>first</i>".to_string()];
    let out = extract_profiles(&manifest, &contents);
    assert_eq!(out.len(), 2);
    assert_eq!(out[0].text, "first");
    assert_eq!(out[1].url, "b");
    assert_eq!(out[1].text, "");
}

#[test]
fn pdf_entry_gives_placeholder() {
    let manifest = Manifest { profiles: vec![entry("u3", "cv.pdf", "resume_pdf")] };
    let out = extract_profiles(&manifest, &vec![String::new()]);
    assert_eq!(out[0].url, "u3");
    assert_eq!(out[0].text, "PDF extraction not implemented for cv.pdf");
}

#[test]
fn unknown_type_gives_empty_text() {
    let manifest = Manifest { profiles: vec![entry("u4", "x.html", "something_else")] };
    let out = extract_profiles(&manifest, &vec!["<p>ignored</p>".to_string()]);
    assert_eq!(out[0].text, "");
}

#[test]
fn order_and_count_are_kept() {
    let manifest = Manifest {
        profiles: vec![entry("h", "a.html", "public_dir"), entry("d", "b.docx", "resume_docx")],
    };
    let contents = vec!["<div>one\n\ttwo</div>".to_string(), String::new()];
    let out = extract_profiles(&manifest, &contents);
    assert_eq!(out.len(), 2);
    assert_eq!(out[0].url, "h");
    assert_eq!(out[0].text, "one two");
    assert_eq!(out[1].url, "d");
    assert_eq!(out[1].text, "DOCX extraction not implemented for b.docx");
}

#[test]
fn urls_follow_the_manifest() {
    let manifest = Manifest {
        profiles: vec![
            entry("p", "p.pdf", "resume_pdf"),
            entry("q", "q.html", "about_dir"),
            entry("r", "r.bin", "other"),
            entry("p", "p.html", "readme"),
        ],
    };
    let contents = vec![String::new(), "q <b>text</b>".to_string(), String::new(), "x".to_string()];
    let out = extract_profiles(&manifest, &contents);
    let urls: Vec<&str> = out.iter().map(|r| r.url.as_str()).collect();
    assert_eq!(urls, vec!["p", "q", "r", "p"]);
    assert_eq!(out[1].text, "q text");
    assert_eq!(out[3].text, "x");
}

#[test]
fn empty_manifest_gives_no_records() {
    let manifest = Manifest { profiles: Vec::new() };
    assert!(extract_profiles(&manifest, &Vec::new()).is_empty());
}

#[test]
fn empty_html_gives_empty_text() {
    assert_eq!(extract_text_from_html(""), "");
}

#[test]
fn text_without_tags_is_only_collapsed() {
    assert_eq!(extract_text_from_html("  a \t b\r\n\n c  "), "a b c");
}

#[test]
fn unicode_white_space_collapses() {
    assert_eq!(extract_text_from_html("\u{a0}a\u{2003}\u{2003}b\u{3000}"), "a b");
}

#[test]
fn empty_tag_is_removed() {
    assert_eq!(extract_text_from_html("a<>b"), "a b");
}

#[test]
fn unclosed_open_bracket_stays() {
    assert_eq!(extract_text_from_html("a < b"), "a < b");
    assert_eq!(extract_text_from_html("x <b>y</b> <z"), "x y <z");
}

#[test]
fn comparison_brackets_collapse_like_a_tag() {
    assert_eq!(extract_text_from_html("a < b > c"), "a c");
}

#[test]
fn tag_runs_to_first_close() {
    assert_eq!(extract_text_from_html("<a <b>c>d"), "c>d");
}

#[test]
fn entities_are_not_decoded() {
    assert_eq!(extract_text_from_html("<p>Tom &amp; Jerry&#39;s</p>"), "Tom &amp; Jerry&#39;s");
}

#[test]
fn script_body_remains_as_text() {
    assert_eq!(
        extract_text_from_html("<!-- note --><script>var x = 1;</script>\n<style>p {}</style>"),
        "var x = 1; p {}"
    );
}

#[test]
fn adjacent_tags_join_words_with_one_space() {
    assert_eq!(extract_text_from_html("one<br/><br/>two"), "one two");
}

#[test]
fn normalized_text_is_clean() {
    let inputs = [
        "<html>\n  <body> <h1>Title</h1>\n\n<p>Some   text</p> </body></html>",
        "\t<a href='x'>link</a>\r\n",
        "a<>b< c >d <e",
        "   ",
        "<<>>",
    ];
    for input in inputs.iter() {
        let out = extract_text_from_html(input);
        assert!(!has_tag(&out), "{:?}", out);
        assert!(!has_double_white_space(&out), "{:?}", out);
        assert_eq!(out.trim(), out);
    }
}

#[test]
fn normalizing_twice_changes_nothing() {
    let inputs = ["  plain\t\ttext \n here ", "<p>x</p>  <p>y</p>", "a < b", "<<>>", ""];
    for input in inputs.iter() {
        let once = extract_text_from_html(input);
        let twice = extract_text_from_html(&once);
        assert_eq!(once, twice);
    }
}

#[test]
fn extraction_is_repeatable() {
    let manifest = Manifest {
        profiles: vec![entry("u", "a.html", "readme"), entry("v", "b.pdf", "resume_pdf")],
    };
    let contents = vec!["<b>bold</b>  move".to_string(), String::new()];
    assert_eq!(extract_profiles(&manifest, &contents), extract_profiles(&manifest, &contents));
}

#[test]
fn placeholders_are_exact() {
    assert_eq!(extract_text_from_pdf("cv.pdf"), "PDF extraction not implemented for cv.pdf");
    assert_eq!(extract_text_from_docx("dir/r.docx"), "DOCX extraction not implemented for dir/r.docx");
    assert_eq!(extract_text_from_pdf(""), "PDF extraction not implemented for ");
}

#[test]
fn classify_covers_every_tag() {
    assert_eq!(classify("resume_pdf"), FileKind::Pdf);
    assert_eq!(classify("resume_docx"), FileKind::Docx);
    for tag in ["readme", "public_dir", "docs_dir", "about_dir", "cv_dir"].iter() {
        assert_eq!(classify(tag), FileKind::Html);
    }
    assert_eq!(classify("README"), FileKind::Unknown);
    assert_eq!(classify(""), FileKind::Unknown);
    assert_eq!(classify("resume_pdf "), FileKind::Unknown);
}

#[test]
fn extract_picks_the_variant() {
    assert_eq!(extract("readme", "a", "<b>x</b>"), ExtractionResult::Text("x".to_string()));
    assert_eq!(
        extract("resume_pdf", "a.pdf", "ignored"),
        ExtractionResult::Placeholder("PDF extraction not implemented for a.pdf".to_string())
    );
    assert_eq!(extract("zip", "a", "x"), ExtractionResult::Empty);
    assert_eq!(ExtractionResult::Empty.into_text(), "");
    assert_eq!(ExtractionResult::Text("t".to_string()).into_text(), "t");
}

#[test]
fn entry_kind_follows_its_type() {
    assert_eq!(entry("u", "p", "cv_dir").kind(), FileKind::Html);
    assert_eq!(entry("u", "p", "resume_docx").kind(), FileKind::Docx);
    assert_eq!(entry("u", "p", "misc").kind(), FileKind::Unknown);
}

#[test]
fn fatal_errors_are_manifest_and_output() {
    assert!(ErrorKind::ManifestMalformed.is_fatal());
    assert!(ErrorKind::OutputWriteFailed.is_fatal());
    assert!(!ErrorKind::FileUnreadable.is_fatal());
    assert!(!ErrorKind::UnknownFileType.is_fatal());
}
