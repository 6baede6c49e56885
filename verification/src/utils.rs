//! What is decided about files without touching them: whether a file counts
//! as binary, which entries of a directory walk are listed, how bytes become
//! text, and how the output file is named.

use vstd::prelude::*;
use vstd::string::StringExecFns;
use vstd::utf8::{decode_utf8, valid_utf8};
use crate::text::{lowercase, trimmed};
use crate::types::option_view;

verus! {

/// How many leading bytes of a file are examined for a null byte.
pub const SNIFF_LENGTH: usize = 512;

/// The lowercase file extensions that mark a file as binary: executables and
/// libraries, images, audio and video, archives, compiled bytecode.
pub open spec fn is_binary_extension(extension: Seq<char>) -> bool {
    ||| extension == "exe"@
    ||| extension == "dll"@
    ||| extension == "so"@
    ||| extension == "dylib"@
    ||| extension == "bin"@
    ||| extension == "obj"@
    ||| extension == "o"@
    ||| extension == "a"@
    ||| extension == "lib"@
    ||| extension == "png"@
    ||| extension == "jpg"@
    ||| extension == "jpeg"@
    ||| extension == "gif"@
    ||| extension == "bmp"@
    ||| extension == "ico"@
    ||| extension == "tif"@
    ||| extension == "tiff"@
    ||| extension == "webp"@
    ||| extension == "mp3"@
    ||| extension == "mp4"@
    ||| extension == "avi"@
    ||| extension == "mov"@
    ||| extension == "wmv"@
    ||| extension == "flv"@
    ||| extension == "zip"@
    ||| extension == "tar"@
    ||| extension == "gz"@
    ||| extension == "7z"@
    ||| extension == "rar"@
    ||| extension == "jar"@
    ||| extension == "war"@
    ||| extension == "class"@
    ||| extension == "pyc"@
    ||| extension == "pyd"@
    ||| extension == "pyo"@
}

/// Tells whether a lowercase extension marks a file as binary.
pub fn has_binary_extension(extension: &str) -> (r: bool)
    ensures
        r == is_binary_extension(extension@),
{
    extension.eq("exe")
        || extension.eq("dll")
        || extension.eq("so")
        || extension.eq("dylib")
        || extension.eq("bin")
        || extension.eq("obj")
        || extension.eq("o")
        || extension.eq("a")
        || extension.eq("lib")
        || extension.eq("png")
        || extension.eq("jpg")
        || extension.eq("jpeg")
        || extension.eq("gif")
        || extension.eq("bmp")
        || extension.eq("ico")
        || extension.eq("tif")
        || extension.eq("tiff")
        || extension.eq("webp")
        || extension.eq("mp3")
        || extension.eq("mp4")
        || extension.eq("avi")
        || extension.eq("mov")
        || extension.eq("wmv")
        || extension.eq("flv")
        || extension.eq("zip")
        || extension.eq("tar")
        || extension.eq("gz")
        || extension.eq("7z")
        || extension.eq("rar")
        || extension.eq("jar")
        || extension.eq("war")
        || extension.eq("class")
        || extension.eq("pyc")
        || extension.eq("pyd")
        || extension.eq("pyo")
}

/// There is a null byte among the first `SNIFF_LENGTH` bytes.
pub open spec fn has_null_byte(head: Seq<u8>) -> bool {
    exists|i: int| 0 <= i < head.len() && i < SNIFF_LENGTH && #[trigger] head[i] == 0
}

/// Tells whether there is a null byte among the first `SNIFF_LENGTH` bytes.
pub fn contains_null_byte(head: &[u8]) -> (r: bool)
    ensures
        r == has_null_byte(head@),
{
    let mut i: usize = 0;
    while i < head.len() && i < SNIFF_LENGTH
        invariant
            forall|k: int| 0 <= k < i ==> #[trigger] head@[k] != 0,
        decreases head.len() - i,
    {
        if head[i] == 0 {
            return true;
        }
        i += 1;
    }
    false
}

/// When a file counts as binary: it is executable, or its extension, taken
/// in lowercase, is a binary one, or its first bytes hold a null byte.
pub open spec fn binary_file(executable: bool, extension: Option<Seq<char>>, head: Seq<u8>) -> bool {
    ||| executable
    ||| (extension matches Some(e) && is_binary_extension(lowercase(e)))
    ||| has_null_byte(head)
}

/// Classifies a file from what the file system reports of it: whether it is
/// executable, the extension of its name if it has one, and the bytes it
/// starts with.
pub fn is_binary_file(executable: bool, extension: Option<&str>, head: &[u8]) -> (r: bool)
    ensures
        r == binary_file(
            executable,
            match extension {
                Some(e) => Some(e@),
                None => None,
            },
            head@,
        ),
{
    if executable {
        return true;
    }
    match extension {
        Some(e) => {
            let lowered = e.to_lowercase();
            if has_binary_extension(lowered.as_str()) {
                return true;
            }
        },
        None => {},
    }
    contains_null_byte(head)
}

/// One entry that a directory walk came across: its path relative to the
/// root of the walk, if it lies under that root, and what kind of entry it is.
#[derive(Debug, PartialEq, Eq)]
pub struct WalkEntry {
    pub relative_path: Option<String>,
    pub is_directory: bool,
    pub ignored: bool,
    pub symlink: bool,
}

/// A walk entry as a mathematical value.
pub struct WalkEntryView {
    pub relative_path: Option<Seq<char>>,
    pub is_directory: bool,
    pub ignored: bool,
    pub symlink: bool,
}

impl View for WalkEntry {
    type V = WalkEntryView;

    open spec fn view(&self) -> WalkEntryView {
        WalkEntryView {
            relative_path: option_view(self.relative_path),
            is_directory: self.is_directory,
            ignored: self.ignored,
            symlink: self.symlink,
        }
    }
}

/// The views of a sequence of walk entries, in order.
pub open spec fn walk_views(entries: Seq<WalkEntry>) -> Seq<WalkEntryView> {
    Seq::new(entries.len(), |i: int| entries[i]@)
}

/// The views of a sequence of paths, in order.
pub open spec fn path_views(paths: Seq<String>) -> Seq<Seq<char>> {
    Seq::new(paths.len(), |i: int| paths[i]@)
}

/// An entry is a file of the listing when it is no directory, not ignored,
/// no symbolic link, and lies under the root.
pub open spec fn is_file_entry(entry: WalkEntryView) -> bool {
    &&& !entry.is_directory
    &&& !entry.ignored
    &&& !entry.symlink
    &&& entry.relative_path is Some
}

/// The relative paths of the entries that are files of the listing, in order.
pub open spec fn listed_paths(entries: Seq<WalkEntryView>) -> Seq<Seq<char>>
    decreases entries.len(),
{
    if entries.len() == 0 {
        Seq::empty()
    } else if is_file_entry(entries.last()) {
        listed_paths(entries.drop_last()).push(entries.last().relative_path->0)
    } else {
        listed_paths(entries.drop_last())
    }
}

/// Picks the files out of a directory walk: directories, ignored entries,
/// symbolic links and entries outside the root are left out.
pub fn list_files(entries: &Vec<WalkEntry>) -> (files: Vec<String>)
    ensures
        path_views(files@) == listed_paths(walk_views(entries@)),
{
    let ghost walked = walk_views(entries@);
    let mut files: Vec<String> = Vec::new();
    let mut i: usize = 0;
    assert(walked.take(0) =~= Seq::empty());
    assert(path_views(files@) =~= listed_paths(walked.take(0)));
    while i < entries.len()
        invariant
            i <= entries.len(),
            walked == walk_views(entries@),
            path_views(files@) == listed_paths(walked.take(i as int)),
        decreases entries.len() - i,
    {
        let entry = &entries[i];
        proof {
            assert(walked.take(i + 1).drop_last() =~= walked.take(i as int));
            assert(walked.take(i + 1).last() == entry@);
        }
        if !entry.is_directory && !entry.ignored && !entry.symlink {
            match &entry.relative_path {
                Some(path) => {
                    let ghost before = files@;
                    files.push(path.clone());
                    assert(path_views(files@) =~= path_views(before).push(path@));
                },
                None => {},
            }
        }
        i += 1;
    }
    assert(walked.take(i as int) =~= walked);
    files
}

/// The bytes read as Latin-1: each byte is the character with that code.
pub open spec fn latin1(bytes: Seq<u8>) -> Seq<char> {
    Seq::new(bytes.len(), |i: int| bytes[i] as char)
}

/// Reads bytes as Latin-1 text.
pub fn decode_latin1(bytes: &[u8]) -> (r: String)
    ensures
        r@ == latin1(bytes@),
{
    let mut text = String::new();
    let mut i: usize = 0;
    while i < bytes.len()
        invariant
            i <= bytes.len(),
            text@ == latin1(bytes@.take(i as int)),
        decreases bytes.len() - i,
    {
        text.push(bytes[i] as char);
        assert(text@ =~= latin1(bytes@.take(i + 1)));
        i += 1;
    }
    assert(bytes@.take(i as int) =~= bytes@);
    text
}

/// `std::str::from_utf8`: the text that the bytes encode, if they are valid
/// UTF-8.
#[verifier::external_body]
pub(crate) fn utf8_text(bytes: &[u8]) -> (r: Option<String>)
    ensures
        valid_utf8(bytes@) ==> r is Some && r->0@ == decode_utf8(bytes@),
        !valid_utf8(bytes@) ==> r is None,
{
    std::str::from_utf8(bytes).ok().map(String::from)
}

/// The text of a file with these bytes: their UTF-8 reading where they have
/// one, their Latin-1 reading otherwise.
pub open spec fn file_text(bytes: Seq<u8>) -> Seq<char> {
    if valid_utf8(bytes) {
        decode_utf8(bytes)
    } else {
        latin1(bytes)
    }
}

/// Turns the bytes of a file into text: as UTF-8 if they are valid UTF-8,
/// as Latin-1 if not.
pub fn read_file(bytes: &[u8]) -> (r: String)
    ensures
        r@ == file_text(bytes@),
{
    match utf8_text(bytes) {
        Some(text) => text,
        None => decode_latin1(bytes),
    }
}

/// The prompt that a prompt file with this content holds: the content
/// without leading and trailing whitespace.
pub fn read_prompt_file(content: &str) -> (r: String)
    ensures
        r@ == trimmed(content@),
{
    String::from_str(content.trim())
}

/// The name of the file that holds the results of a run.
pub open spec fn results_name(
    timestamp: Seq<char>,
    agent_type: Seq<char>,
    model_name: Seq<char>,
) -> Seq<char> {
    timestamp + "-"@ + agent_type + "-"@ + model_name + ".md"@
}

/// Names the Markdown file for the results of a run after the local time at
/// which it is written, the agent variant and the model.
pub fn results_file_name(timestamp: &str, agent_type: &str, model_name: &str) -> (r: String)
    ensures
        r@ == results_name(timestamp@, agent_type@, model_name@),
{
    String::from_str(timestamp).concat("-").concat(agent_type).concat("-").concat(
        model_name,
    ).concat(".md")
}

} // verus!
