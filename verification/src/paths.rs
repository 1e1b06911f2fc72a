//! Where a result is written: in the folder asked for, or beside the
//! input.

use vstd::prelude::*;
use vstd::string::*;
use crate::encode::{encode_file_name, encoded_file_name};
use crate::extract::{extract_file_name, extracted_file_name};
use crate::options::{EncodeOptions, ExtractAudioOptions};

verus! {

/// What a path is made of, as the platform reads it.
#[derive(Clone, Debug, PartialEq, Eq)]
pub struct PathParts {
    /// The folder that holds the last component, where the path has one.
    pub parent: Option<String>,
    /// The last component without its extension, where the path has such a
    /// component.
    pub stem: Option<String>,
}

impl PathParts {
    /// The stem as text; empty where the path has none.
    pub open spec fn stem_text(&self) -> Seq<char> {
        match self.stem {
            Some(s) => s@,
            None => Seq::empty(),
        }
    }

    /// The stem as text; empty where the path has none.
    pub fn stem_or_empty(&self) -> (r: String)
        ensures
            r@ == self.stem_text(),
    {
        match &self.stem {
            Some(s) => s.clone(),
            None => String::new(),
        }
    }
}

/// `Path::parent` of the standard library, the result made a string with
/// `to_string_lossy`. How a path divides depends on the platform; the
/// contract claims only what holds on every one: the empty path has no
/// parent.
#[verifier::external_body]
pub(crate) fn parent_of(path: &str) -> (parent: Option<String>)
    ensures
        path@.len() == 0 ==> parent is None,
{
    std::path::Path::new(path).parent().map(|d| d.to_string_lossy().to_string())
}

/// `Path::file_stem` of the standard library, the result made a string
/// with `to_string_lossy`. How a path divides depends on the platform; the
/// contract claims only what holds on every one: the empty path, which has
/// no last component, has no stem.
#[verifier::external_body]
pub(crate) fn stem_of(path: &str) -> (stem: Option<String>)
    ensures
        path@.len() == 0 ==> stem is None,
{
    std::path::Path::new(path).file_stem().map(|s| s.to_string_lossy().to_string())
}

/// The parts of a path, as the platform reads it. The empty path has
/// neither parent nor stem; how any other path divides is the platform's.
pub fn parts_of(path: &str) -> (parts: PathParts)
    ensures
        path@.len() == 0 ==> parts.parent is None && parts.stem is None,
{
    PathParts { parent: parent_of(path), stem: stem_of(path) }
}

/// `Path::join` of the standard library, the result made a string with
/// `to_string_lossy`. Which separator joins the two depends on the
/// platform, so nothing is promised of the result.
#[verifier::external_body]
pub(crate) fn join_path(folder: &str, name: &str) -> (path: String) {
    std::path::Path::new(folder).join(name).to_string_lossy().to_string()
}

/// The folder that a result goes to: the one asked for, unless none or an
/// empty one is; else the one that holds the input, if there is one.
pub open spec fn chosen_folder(asked: Option<String>, parent: Option<String>) -> Option<
    Seq<char>,
> {
    if asked is Some && asked->0@.len() > 0 {
        Some(asked->0@)
    } else {
        match parent {
            Some(p) => Some(p@),
            None => None,
        }
    }
}

/// The folder that a result goes to.
pub fn choose_folder(asked: &Option<String>, parent: &Option<String>) -> (r: Option<String>)
    ensures
        match r {
            Some(f) => chosen_folder(*asked, *parent) == Some(f@),
            None => chosen_folder(*asked, *parent) is None,
        },
{
    match asked {
        Some(f) => {
            if !f.as_str().is_empty() {
                return Some(f.clone());
            }
        },
        None => {},
    }
    match parent {
        Some(p) => Some(p.clone()),
        None => None,
    }
}

/// Where a result goes: the folder, if there is one, and the name of the
/// file.
#[derive(Clone, Debug, PartialEq, Eq)]
pub struct OutputPlace {
    pub folder: Option<String>,
    pub name: String,
}

/// The text of an optional string.
pub open spec fn folder_text(folder: Option<String>) -> Option<Seq<char>> {
    match folder {
        Some(f) => Some(f@),
        None => None,
    }
}

/// The path of a place: the name joined to the folder as the platform
/// joins them; the bare name where no folder is.
pub fn path_in(place: &OutputPlace) -> (path: String)
    ensures
        place.folder is None ==> path@ == place.name@,
{
    match &place.folder {
        Some(f) => join_path(f.as_str(), place.name.as_str()),
        None => place.name.clone(),
    }
}

/// Where the result of an encode goes, given the parts of the input's
/// path: under the name made of the input's stem, into the folder chosen.
pub fn encode_output_place(o: &EncodeOptions, input: &PathParts) -> (place: OutputPlace)
    ensures
        place.name@ == encoded_file_name(*o, input.stem_text()),
        folder_text(place.folder) == chosen_folder(o.output_folder, input.parent),
{
    OutputPlace {
        folder: choose_folder(&o.output_folder, &input.parent),
        name: encode_file_name(o, input.stem_or_empty().as_str()),
    }
}

/// The path of the result of an encode. How the input's path divides and
/// how folder and name are joined is the platform's; which folder and which
/// name are joined is said by `encode_output_place`. Where the platform has
/// nothing to decide, for an empty input and no folder asked for, the path
/// is the bare file name, made of an empty stem.
pub fn encode_output_path(o: &EncodeOptions) -> (path: String)
    ensures
        o.input@.len() == 0 && chosen_folder(o.output_folder, None) is None ==> path@
            == encoded_file_name(*o, Seq::empty()),
{
    let input = parts_of(o.input.as_str());
    let place = encode_output_place(o, &input);
    path_in(&place)
}

/// Where the result of an audio extraction goes, given the parts of the
/// input's path.
pub fn extract_output_place(o: &ExtractAudioOptions, input: &PathParts) -> (place: OutputPlace)
    ensures
        place.name@ == extracted_file_name(*o, input.stem_text()),
        folder_text(place.folder) == chosen_folder(o.output_folder, input.parent),
{
    OutputPlace {
        folder: choose_folder(&o.output_folder, &input.parent),
        name: extract_file_name(o, input.stem_or_empty().as_str()),
    }
}

/// The path of the result of an audio extraction; see
/// `extract_output_place`. For an empty input and no folder asked for, the
/// path is the bare file name, made of an empty stem.
pub fn extract_output_path(o: &ExtractAudioOptions) -> (path: String)
    ensures
        o.input@.len() == 0 && chosen_folder(o.output_folder, None) is None ==> path@
            == extracted_file_name(*o, Seq::empty()),
{
    let input = parts_of(o.input.as_str());
    let place = extract_output_place(o, &input);
    path_in(&place)
}

} // verus!
