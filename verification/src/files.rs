//! Which files of a folder are listed, and as what the pages of a document
//! are written.

use vstd::prelude::*;
use vstd::string::*;
use crate::args::{put, texts};
use crate::options::PdfToImagesOptions;
use crate::text::same_text;

verus! {

/// A text in lower case, as Unicode defines it.
pub uninterp spec fn lowercased(text: Seq<char>) -> Seq<char>;

/// `str::to_lowercase` of the standard library. The contract names the
/// text in lower case, which depends on the text alone, and says nothing
/// of which characters change.
#[verifier::external_body]
pub(crate) fn lowercase(text: &str) -> (r: String)
    ensures
        r@ == lowercased(text@),
{
    text.to_lowercase()
}

/// The extensions listed where none are asked for.
pub open spec fn default_extension_texts() -> Seq<Seq<char>> {
    seq!["mp4"@, "mkv"@, "avi"@, "mov"@, "webm"@, "flv"@, "wmv"@]
}

/// The extensions listed where none are asked for.
pub fn default_extensions() -> (list: Vec<String>)
    ensures
        texts(list@) == default_extension_texts(),
{
    let mut list: Vec<String> = Vec::new();
    assert(texts(list@) =~= Seq::<Seq<char>>::empty());
    put(&mut list, "mp4");
    put(&mut list, "mkv");
    put(&mut list, "avi");
    put(&mut list, "mov");
    put(&mut list, "webm");
    put(&mut list, "flv");
    put(&mut list, "wmv");
    assert(texts(list@) =~= default_extension_texts());
    list
}

/// Whether an extension is one of those wanted, small and capital letters
/// taken alike.
pub open spec fn listed(extension: Seq<char>, wanted: Seq<String>) -> bool {
    exists|i: int|
        0 <= i < wanted.len() && lowercased((#[trigger] wanted[i])@) == lowercased(extension)
}

/// Whether an extension is one of those wanted, small and capital letters
/// taken alike.
pub fn is_listed(extension: &str, wanted: &Vec<String>) -> (r: bool)
    ensures
        r == listed(extension@, wanted@),
{
    let small = lowercase(extension);
    let mut i: usize = 0;
    while i < wanted.len()
        invariant
            i <= wanted.len(),
            small@ == lowercased(extension@),
            forall|j: int| 0 <= j < i ==> lowercased((#[trigger] wanted@[j])@) != small@,
        decreases wanted.len() - i,
    {
        let other = lowercase(wanted[i].as_str());
        if same_text(other.as_str(), small.as_str()) {
            return true;
        }
        i = i + 1;
    }
    false
}

/// The extension of the images that pages are written as: `jpg` where the
/// format asked for is `jpg` or `jpeg` in any case, `png` otherwise.
pub open spec fn page_extension_of(format: Option<String>) -> Seq<char> {
    match format {
        Some(f) => if lowercased(f@) == "jpg"@ || lowercased(f@) == "jpeg"@ {
            "jpg"@
        } else {
            "png"@
        },
        None => "png"@,
    }
}

/// The extension for a format that is already in lower case.
pub fn extension_for(lowered: &str) -> (r: &'static str)
    ensures
        r@ == (if lowered@ == "jpg"@ || lowered@ == "jpeg"@ {
            "jpg"@
        } else {
            "png"@
        }),
{
    if same_text(lowered, "jpg") || same_text(lowered, "jpeg") {
        "jpg"
    } else {
        "png"
    }
}

/// The extension of the images that pages are written as.
pub fn page_extension(format: &Option<String>) -> (r: &'static str)
    ensures
        r@ == page_extension_of(*format),
{
    match format {
        Some(f) => {
            let small = lowercase(f.as_str());
            extension_for(small.as_str())
        },
        None => "png",
    }
}

/// The name of the folder that takes the pages of a document with this
/// stem; `pages` stands for a missing stem.
pub open spec fn pages_folder_of(stem: Option<String>) -> Seq<char> {
    (match stem {
        Some(s) => s@,
        None => "pages"@,
    }) + "_pages"@
}

/// The name of the folder that takes the pages of a document.
pub fn pages_folder(stem: &Option<String>) -> (r: String)
    ensures
        r@ == pages_folder_of(*stem),
{
    let mut r = match stem {
        Some(s) => s.clone(),
        None => "pages".to_owned(),
    };
    r.append("_pages");
    r
}

/// The pattern by which the pages are named: a number of four digits and
/// the extension.
pub open spec fn page_pattern_of(o: PdfToImagesOptions) -> Seq<char> {
    "page_%04d."@ + page_extension_of(o.format)
}

/// The pattern by which the pages are named.
pub fn page_pattern(o: &PdfToImagesOptions) -> (r: String)
    ensures
        r@ == page_pattern_of(*o),
{
    let mut r = "page_%04d.".to_owned();
    r.append(page_extension(&o.format));
    r
}

/// The argument list that writes every page of the document to a file
/// named by `pattern_path`.
pub open spec fn pages_arguments(o: PdfToImagesOptions, pattern_path: Seq<char>) -> Seq<Seq<char>> {
    seq!["-y"@, "-i"@, o.pdf_path@, "-vsync"@, "0"@, pattern_path]
}

/// The argument list that writes every page of the document to a file
/// named by `pattern_path`.
pub fn pages_args(o: &PdfToImagesOptions, pattern_path: &str) -> (list: Vec<String>)
    ensures
        texts(list@) == pages_arguments(*o, pattern_path@),
{
    let mut list: Vec<String> = Vec::new();
    assert(texts(list@) =~= Seq::<Seq<char>>::empty());
    put(&mut list, "-y");
    put(&mut list, "-i");
    put(&mut list, o.pdf_path.as_str());
    put(&mut list, "-vsync");
    put(&mut list, "0");
    put(&mut list, pattern_path);
    assert(texts(list@) =~= pages_arguments(*o, pattern_path@));
    list
}

} // verus!
