//! The rules of the tools: what each of them makes of the facts that the file
//! system, the pattern matcher and the arithmetic evaluator report.

use vstd::prelude::*;
use vstd::string::StringExecFns;
use crate::pattern::{error_text, escaped, regex_compiles, regex_matches, regex_source};
use crate::registry::{ToolError, ToolErrorView};
use crate::text::{lines_of, split_lines, string_views};
use crate::types::{
    option_view, CalculationResult, CalculationResultView, CodeMatch, CodeMatchView, FileInfo,
    FileInfoView, FileResult, FileResultView,
};

verus! {

/// The most entries a listing or a search returns.
pub const MAX_RESULTS: usize = 50;

/// At most the first `limit` items of `items`.
pub open spec fn capped<T>(items: Seq<T>, limit: nat) -> Seq<T> {
    if items.len() <= limit {
        items
    } else {
        items.take(limit as int)
    }
}

/// A capped sequence holds at most `limit` items and opens the sequence it
/// was cut from.
pub proof fn lemma_capped<T>(items: Seq<T>, limit: nat)
    ensures
        capped(items, limit).len() <= limit,
        capped(items, limit).is_prefix_of(items),
        items.len() <= limit ==> capped(items, limit) == items,
{
    assert(capped(items, limit) =~= items.subrange(0, capped(items, limit).len() as int));
}

/// What the file system reports of a file's kind and size.
#[derive(Clone, Copy, Debug, PartialEq, Eq)]
pub struct FileMetadata {
    pub is_directory: bool,
    pub is_file: bool,
    pub size: u64,
}

/// A file found under the directory being listed: its path relative to that
/// directory, whether it was classified as binary, and its metadata where the
/// file system gave any.
#[derive(Debug, PartialEq, Eq)]
pub struct FileEntry {
    pub path: String,
    pub binary: bool,
    pub metadata: Option<FileMetadata>,
}

/// A file entry as a mathematical value.
pub struct FileEntryView {
    pub path: Seq<char>,
    pub binary: bool,
    pub metadata: Option<FileMetadata>,
}

impl View for FileEntry {
    type V = FileEntryView;

    open spec fn view(&self) -> FileEntryView {
        FileEntryView { path: self.path@, binary: self.binary, metadata: self.metadata }
    }
}

/// The views of a sequence of file entries, in order.
pub open spec fn entry_views(entries: Seq<FileEntry>) -> Seq<FileEntryView> {
    Seq::new(entries.len(), |i: int| entries[i]@)
}

/// The views of a sequence of listing entries, in order.
pub open spec fn info_views(infos: Seq<FileInfo>) -> Seq<FileInfoView> {
    Seq::new(infos.len(), |i: int| infos[i]@)
}

/// The filter that a requested pattern amounts to: a pattern that does not
/// compile filters nothing.
pub open spec fn path_filter(pattern: Option<Seq<char>>) -> Option<Seq<char>> {
    match pattern {
        Some(p) => if regex_compiles(p) {
            Some(p)
        } else {
            None
        },
        None => None,
    }
}

/// Whether a file is listed: it is not binary, its path passes the filter,
/// and its metadata could be read.
pub open spec fn is_listed(entry: FileEntryView, filter: Option<Seq<char>>) -> bool {
    &&& !entry.binary
    &&& (filter matches Some(p) ==> regex_matches(p, entry.path))
    &&& entry.metadata is Some
}

/// The listing entry of a file; only regular files have a size.
pub open spec fn listing_of(entry: FileEntryView) -> FileInfoView {
    FileInfoView {
        path: entry.path,
        is_directory: entry.metadata->0.is_directory,
        size: if entry.metadata->0.is_file {
            Some(entry.metadata->0.size)
        } else {
            None
        },
    }
}

/// The listing entries of the files that are listed, in order.
pub open spec fn matching_files(entries: Seq<FileEntryView>, filter: Option<Seq<char>>) -> Seq<
    FileInfoView,
>
    decreases entries.len(),
{
    if entries.len() == 0 {
        Seq::empty()
    } else if is_listed(entries.last(), filter) {
        matching_files(entries.drop_last(), filter).push(listing_of(entries.last()))
    } else {
        matching_files(entries.drop_last(), filter)
    }
}

/// The listing of a longer run of files starts with the listing of any
/// shorter run.
pub proof fn lemma_matching_files_grow(
    entries: Seq<FileEntryView>,
    filter: Option<Seq<char>>,
    k: int,
)
    requires
        0 <= k <= entries.len(),
    ensures
        matching_files(entries.take(k), filter).len() <= matching_files(entries, filter).len(),
        matching_files(entries, filter).take(
            matching_files(entries.take(k), filter).len() as int,
        ) == matching_files(entries.take(k), filter),
    decreases entries.len(),
{
    if k == entries.len() {
        assert(entries.take(k) =~= entries);
        assert(matching_files(entries, filter).take(
            matching_files(entries, filter).len() as int,
        ) =~= matching_files(entries, filter));
    } else {
        let shorter = entries.drop_last();
        lemma_matching_files_grow(shorter, filter, k);
        assert(shorter.take(k) =~= entries.take(k));
        let part = matching_files(entries.take(k), filter);
        assert(matching_files(entries, filter).take(part.len() as int) =~= matching_files(
            shorter,
            filter,
        ).take(part.len() as int));
    }
}

/// Lists the files that pass an already compiled filter, at most
/// `MAX_RESULTS` of them, in the order given.
pub fn select_files(files: &Vec<FileEntry>, filter: Option<&regex::Regex>) -> (r: Vec<FileInfo>)
    ensures
        info_views(r@) == capped(
            matching_files(
                entry_views(files@),
                match filter {
                    Some(re) => Some(regex_source(*re)),
                    None => None,
                },
            ),
            MAX_RESULTS as nat,
        ),
{
    let ghost entries = entry_views(files@);
    let ghost pattern: Option<Seq<char>> = match filter {
        Some(re) => Some(regex_source(*re)),
        None => None,
    };
    let mut results: Vec<FileInfo> = Vec::new();
    let mut i: usize = 0;
    assert(entries.take(0) =~= Seq::empty());
    assert(info_views(results@) =~= matching_files(entries.take(0), pattern));
    while i < files.len()
        invariant
            i <= files.len(),
            entries == entry_views(files@),
            pattern == match filter {
                Some(re) => Some(regex_source(*re)),
                None => None,
            },
            info_views(results@) == matching_files(entries.take(i as int), pattern),
            results.len() < MAX_RESULTS,
        decreases files.len() - i,
    {
        let entry = &files[i];
        proof {
            assert(entries.take(i + 1).drop_last() =~= entries.take(i as int));
            assert(entries.take(i + 1).last() == entry@);
        }
        let passes = !entry.binary && match filter {
            Some(re) => re.is_match(entry.path.as_str()),
            None => true,
        };
        if passes {
            match entry.metadata {
                Some(metadata) => {
                    let ghost before = results@;
                    results.push(
                        FileInfo {
                            path: entry.path.clone(),
                            is_directory: metadata.is_directory,
                            size: if metadata.is_file {
                                Some(metadata.size)
                            } else {
                                None
                            },
                        },
                    );
                    assert(info_views(results@) =~= info_views(before).push(listing_of(entry@)));
                },
                None => {},
            }
        }
        i += 1;
        if results.len() >= MAX_RESULTS {
            proof {
                lemma_matching_files_grow(entries, pattern, i as int);
            }
            return results;
        }
    }
    assert(entries.take(i as int) =~= entries);
    results
}

/// Lists the files whose relative path matches `pattern`, at most
/// `MAX_RESULTS` of them, in the order given. Binary files and files without
/// metadata are left out. Without a pattern, or with one that does not
/// compile, every path passes.
pub fn find_all_matching_files(files: &Vec<FileEntry>, pattern: Option<&str>) -> (r: Vec<FileInfo>)
    ensures
        info_views(r@) == capped(
            matching_files(
                entry_views(files@),
                path_filter(
                    match pattern {
                        Some(p) => Some(p@),
                        None => None,
                    },
                ),
            ),
            MAX_RESULTS as nat,
        ),
{
    match pattern {
        Some(p) => match regex::Regex::new(p) {
            Ok(re) => select_files(files, Some(&re)),
            Err(_) => select_files(files, None),
        },
        None => select_files(files, None),
    }
}

/// What the file system reports of the path that the file-reading tool was
/// given.
#[derive(Debug, PartialEq, Eq)]
pub enum FileProbe {
    /// Nothing exists at the path.
    Missing,
    /// The path is a directory.
    Directory,
    /// The file was classified as binary.
    Binary,
    /// The file's text.
    Text(String),
    /// Reading failed; the file system's message.
    Unreadable(String),
}

/// A probe as a mathematical value.
pub enum FileProbeView {
    Missing,
    Directory,
    Binary,
    Text(Seq<char>),
    Unreadable(Seq<char>),
}

impl View for FileProbe {
    type V = FileProbeView;

    open spec fn view(&self) -> FileProbeView {
        match self {
            FileProbe::Missing => FileProbeView::Missing,
            FileProbe::Directory => FileProbeView::Directory,
            FileProbe::Binary => FileProbeView::Binary,
            FileProbe::Text(content) => FileProbeView::Text(content@),
            FileProbe::Unreadable(message) => FileProbeView::Unreadable(message@),
        }
    }
}

/// The result of reading `file_path`, given what the file system reported:
/// the text, or else an error that says what is wrong with the path.
pub open spec fn file_result(file_path: Seq<char>, probe: FileProbeView) -> FileResultView {
    match probe {
        FileProbeView::Missing => FileResultView {
            file: Some(file_path),
            content: None,
            error: Some("File not found: "@ + file_path),
        },
        FileProbeView::Directory => FileResultView {
            file: Some(file_path),
            content: None,
            error: Some("Path is a directory, not a file: "@ + file_path),
        },
        FileProbeView::Binary => FileResultView {
            file: Some(file_path),
            content: None,
            error: Some("Cannot read binary file: "@ + file_path),
        },
        FileProbeView::Text(content) => FileResultView {
            file: Some(file_path),
            content: Some(content),
            error: None,
        },
        FileProbeView::Unreadable(message) => FileResultView {
            file: Some(file_path),
            content: None,
            error: Some("Error reading file: "@ + message),
        },
    }
}

/// Whenever the file's text could not be had, the result names the path,
/// holds no content, and carries an error text that is not empty; with the
/// text at hand it carries no error.
pub proof fn lemma_unread_file_is_data(file_path: Seq<char>, probe: FileProbeView)
    ensures
        file_result(file_path, probe).file == Some(file_path),
        !(probe is Text) ==> file_result(file_path, probe).content is None && file_result(
            file_path,
            probe,
        ).error is Some && file_result(file_path, probe).error->0.len() > 0,
        probe is Text ==> file_result(file_path, probe).content == Some(probe->Text_0)
            && file_result(file_path, probe).error is None,
{
    reveal_strlit("File not found: ");
    reveal_strlit("Path is a directory, not a file: ");
    reveal_strlit("Cannot read binary file: ");
    reveal_strlit("Error reading file: ");
}

fn unread(file_path: &str, reason: &str, detail: &str) -> (r: FileResult)
    ensures
        r@ == (FileResultView {
            file: Some(file_path@),
            content: None,
            error: Some(reason@ + detail@),
        }),
{
    FileResult {
        file: Some(String::from_str(file_path)),
        content: None,
        error: Some(String::from_str(reason).concat(detail)),
    }
}

/// Reports on the file at `file_path`. A file that cannot be read is no
/// failure of the tool: the result then carries an error text in place of
/// the content.
pub fn read_file_tool(file_path: &str, probe: FileProbe) -> (r: FileResult)
    ensures
        r@ == file_result(file_path@, probe@),
{
    match probe {
        FileProbe::Missing => unread(file_path, "File not found: ", file_path),
        FileProbe::Directory => unread(file_path, "Path is a directory, not a file: ", file_path),
        FileProbe::Binary => unread(file_path, "Cannot read binary file: ", file_path),
        FileProbe::Text(content) => FileResult {
            file: Some(String::from_str(file_path)),
            content: Some(content),
            error: None,
        },
        FileProbe::Unreadable(message) => unread(
            file_path,
            "Error reading file: ",
            message.as_str(),
        ),
    }
}

/// A file offered to the code search: its path relative to the directory
/// searched, whether it was classified as binary, and its text where it
/// could be read.
#[derive(Debug, PartialEq, Eq)]
pub struct SourceFile {
    pub path: String,
    pub binary: bool,
    pub content: Option<String>,
}

/// A source file as a mathematical value.
pub struct SourceFileView {
    pub path: Seq<char>,
    pub binary: bool,
    pub content: Option<Seq<char>>,
}

impl View for SourceFile {
    type V = SourceFileView;

    open spec fn view(&self) -> SourceFileView {
        SourceFileView {
            path: self.path@,
            binary: self.binary,
            content: option_view(self.content),
        }
    }
}

/// The views of a sequence of source files, in order.
pub open spec fn source_views(files: Seq<SourceFile>) -> Seq<SourceFileView> {
    Seq::new(files.len(), |i: int| files[i]@)
}

/// The views of a sequence of matches, in order.
pub open spec fn match_views(matches: Seq<CodeMatch>) -> Seq<CodeMatchView> {
    Seq::new(matches.len(), |i: int| matches[i]@)
}

/// The matches among the given lines of one file: each line that the pattern
/// matches, with its number counted from 1.
pub open spec fn line_matches(path: Seq<char>, lines: Seq<Seq<char>>, pattern: Seq<char>) -> Seq<
    CodeMatchView,
>
    decreases lines.len(),
{
    if lines.len() == 0 {
        Seq::empty()
    } else if regex_matches(pattern, lines.last()) {
        line_matches(path, lines.drop_last(), pattern).push(
            CodeMatchView { file: path, line: lines.len(), content: lines.last() },
        )
    } else {
        line_matches(path, lines.drop_last(), pattern)
    }
}

/// The matches in one file: none in a binary file or in one that could not
/// be read.
pub open spec fn file_matches(file: SourceFileView, pattern: Seq<char>) -> Seq<CodeMatchView> {
    if !file.binary && file.content is Some {
        line_matches(file.path, lines_of(file.content->0), pattern)
    } else {
        Seq::empty()
    }
}

/// The matches in all the files, file by file and line by line.
pub open spec fn code_matches(files: Seq<SourceFileView>, pattern: Seq<char>) -> Seq<
    CodeMatchView,
>
    decreases files.len(),
{
    if files.len() == 0 {
        Seq::empty()
    } else {
        code_matches(files.drop_last(), pattern) + file_matches(files.last(), pattern)
    }
}

/// The matches among the first lines of a file open the matches among all of
/// its lines.
pub proof fn lemma_line_matches_grow(
    path: Seq<char>,
    lines: Seq<Seq<char>>,
    pattern: Seq<char>,
    k: int,
)
    requires
        0 <= k <= lines.len(),
    ensures
        line_matches(path, lines.take(k), pattern).is_prefix_of(line_matches(path, lines, pattern)),
    decreases lines.len(),
{
    if k == lines.len() {
        assert(lines.take(k) =~= lines);
    } else {
        let shorter = lines.drop_last();
        lemma_line_matches_grow(path, shorter, pattern, k);
        assert(shorter.take(k) =~= lines.take(k));
    }
}

/// The matches in the first files open the matches in all the files.
pub proof fn lemma_code_matches_grow(files: Seq<SourceFileView>, pattern: Seq<char>, k: int)
    requires
        0 <= k <= files.len(),
    ensures
        code_matches(files.take(k), pattern).is_prefix_of(code_matches(files, pattern)),
    decreases files.len(),
{
    if k == files.len() {
        assert(files.take(k) =~= files);
    } else {
        let shorter = files.drop_last();
        lemma_code_matches_grow(shorter, pattern, k);
        assert(shorter.take(k) =~= files.take(k));
    }
}

/// A run of exactly `limit` items that opens a sequence is that sequence
/// capped at `limit`.
pub proof fn lemma_full_prefix_is_capped<T>(part: Seq<T>, whole: Seq<T>, limit: nat)
    requires
        part.is_prefix_of(whole),
        part.len() == limit,
    ensures
        capped(whole, limit) == part,
{
    assert(capped(whole, limit) =~= part);
}

/// Appends the matching lines of one file to `matches`, and stops as soon as
/// these number `MAX_RESULTS`. Tells whether that limit was reached.
fn search_text(path: &str, content: &str, re: &regex::Regex, matches: &mut Vec<CodeMatch>) -> (full:
    bool)
    requires
        old(matches).len() < MAX_RESULTS,
    ensures
        match_views(final(matches)@).is_prefix_of(
            match_views(old(matches)@) + line_matches(
                path@,
                lines_of(content@),
                regex_source(*re),
            ),
        ),
        full ==> final(matches).len() == MAX_RESULTS,
        !full ==> final(matches).len() < MAX_RESULTS && match_views(final(matches)@) == match_views(
            old(matches)@,
        ) + line_matches(path@, lines_of(content@), regex_source(*re)),
{
    let lines = split_lines(content);
    let ghost all_lines = lines_of(content@);
    let ghost pattern = regex_source(*re);
    let ghost earlier = match_views(matches@);
    let mut k: usize = 0;
    assert(all_lines.take(0) =~= Seq::empty());
    assert(match_views(matches@) =~= earlier + line_matches(path@, all_lines.take(0), pattern));
    while k < lines.len()
        invariant
            k <= lines.len(),
            string_views(lines@) == all_lines,
            all_lines == lines_of(content@),
            earlier == match_views(old(matches)@),
            pattern == regex_source(*re),
            match_views(matches@) == earlier + line_matches(
                path@,
                all_lines.take(k as int),
                pattern,
            ),
            matches.len() < MAX_RESULTS,
        decreases lines.len() - k,
    {
        let line = &lines[k];
        proof {
            assert(all_lines[k as int] == line@);
            assert(all_lines.take(k + 1).drop_last() =~= all_lines.take(k as int));
            assert(all_lines.take(k + 1).last() == line@);
        }
        if re.is_match(line.as_str()) {
            let ghost before = matches@;
            matches.push(
                CodeMatch { file: String::from_str(path), line: k + 1, content: line.clone() },
            );
            proof {
                let found = line_matches(path@, all_lines.take(k + 1), pattern);
                assert(match_views(matches@) =~= match_views(before).push(
                    CodeMatchView { file: path@, line: (k + 1) as nat, content: line@ },
                ));
                assert(match_views(matches@) =~= earlier + found);
            }
            if matches.len() >= MAX_RESULTS {
                proof {
                    let found = line_matches(path@, all_lines.take(k + 1), pattern);
                    let whole = earlier + line_matches(path@, all_lines, pattern);
                    lemma_line_matches_grow(path@, all_lines, pattern, k + 1);
                    assert((earlier + found) =~= whole.subrange(
                        0,
                        (earlier + found).len() as int,
                    ));
                }
                return true;
            }
        }
        k += 1;
    }
    proof {
        assert(all_lines.take(k as int) =~= all_lines);
        let whole = earlier + line_matches(path@, all_lines, pattern);
        assert(whole =~= whole.subrange(0, whole.len() as int));
    }
    false
}

/// Searches the files line by line with an already compiled expression and
/// returns the matching lines, at most `MAX_RESULTS` of them, in the order of
/// the files and of their lines.
pub fn search_lines(files: &Vec<SourceFile>, re: &regex::Regex) -> (r: Vec<CodeMatch>)
    ensures
        match_views(r@) == capped(
            code_matches(source_views(files@), regex_source(*re)),
            MAX_RESULTS as nat,
        ),
{
    let ghost sources = source_views(files@);
    let ghost pattern = regex_source(*re);
    let mut matches: Vec<CodeMatch> = Vec::new();
    let mut i: usize = 0;
    assert(sources.take(0) =~= Seq::empty());
    assert(match_views(matches@) =~= code_matches(sources.take(0), pattern));
    while i < files.len()
        invariant
            i <= files.len(),
            sources == source_views(files@),
            pattern == regex_source(*re),
            match_views(matches@) == code_matches(sources.take(i as int), pattern),
            matches.len() < MAX_RESULTS,
        decreases files.len() - i,
    {
        let file = &files[i];
        proof {
            assert(sources.take(i + 1).drop_last() =~= sources.take(i as int));
            assert(sources.take(i + 1).last() == file@);
        }
        let full = match &file.content {
            Some(content) => if file.binary {
                false
            } else {
                search_text(file.path.as_str(), content.as_str(), re, &mut matches)
            },
            None => false,
        };
        if full {
            proof {
                let upto = code_matches(sources.take(i + 1), pattern);
                let whole = code_matches(sources, pattern);
                lemma_code_matches_grow(sources, pattern, i + 1);
                assert(match_views(matches@) =~= whole.subrange(0, matches.len() as int));
                lemma_full_prefix_is_capped(match_views(matches@), whole, MAX_RESULTS as nat);
            }
            return matches;
        }
        assert(match_views(matches@) =~= code_matches(sources.take(i + 1), pattern));
        i += 1;
    }
    assert(sources.take(i as int) =~= sources);
    matches
}

/// Whether a search error says that the query could not be compiled.
pub open spec fn is_invalid_query(error: ToolErrorView) -> bool {
    error matches ToolErrorView::Failed(message) && "Invalid search query: "@.is_prefix_of(message)
}

/// Searches the files for `query`, taken literally: the query is escaped
/// before it is compiled, so a line matches when it contains the query as a
/// substring. Returns at most `MAX_RESULTS` matching lines. The search is
/// refused only if the escaped query does not compile.
pub fn search_code(files: &Vec<SourceFile>, query: &str) -> (r: Result<Vec<CodeMatch>, ToolError>)
    ensures
        regex_compiles(escaped(query@)) ==> r is Ok && match_views(r->Ok_0@) == capped(
            code_matches(source_views(files@), escaped(query@)),
            MAX_RESULTS as nat,
        ),
        !regex_compiles(escaped(query@)) ==> r is Err && is_invalid_query(r->Err_0@),
{
    let literal = regex::escape(query);
    match regex::Regex::new(literal.as_str()) {
        Ok(re) => Ok(search_lines(files, &re)),
        Err(error) => {
            let detail = error_text(&error);
            let message = String::from_str("Invalid search query: ").concat(detail.as_str());
            assert("Invalid search query: "@.is_prefix_of(message@)) by {
                assert("Invalid search query: "@ =~= message@.subrange(
                    0,
                    "Invalid search query: "@.len() as int,
                ));
            }
            Err(ToolError::Failed(message))
        },
    }
}

/// The characters an arithmetic expression may hold: digits, the four
/// operators, the decimal point, parentheses and the space.
pub open spec fn is_safe_character(c: char) -> bool {
    ||| '0' <= c <= '9'
    ||| c == '+'
    ||| c == '-'
    ||| c == '*'
    ||| c == '/'
    ||| c == '.'
    ||| c == '('
    ||| c == ')'
    ||| c == ' '
}

/// The expression without the characters that are not safe.
pub open spec fn sanitized(expression: Seq<char>) -> Seq<char>
    decreases expression.len(),
{
    if expression.len() == 0 {
        Seq::empty()
    } else if is_safe_character(expression.last()) {
        sanitized(expression.drop_last()).push(expression.last())
    } else {
        sanitized(expression.drop_last())
    }
}

/// Every character of the expression is safe.
pub open spec fn is_safe(expression: Seq<char>) -> bool {
    forall|i: int| 0 <= i < expression.len() ==> is_safe_character(#[trigger] expression[i])
}

/// Sanitizing never lengthens an expression.
pub proof fn lemma_sanitized_len(expression: Seq<char>)
    ensures
        sanitized(expression).len() <= expression.len(),
    decreases expression.len(),
{
    if expression.len() > 0 {
        lemma_sanitized_len(expression.drop_last());
    }
}

/// Sanitizing leaves an expression as it is exactly when all of its
/// characters are safe.
pub proof fn lemma_sanitized_unchanged_iff_safe(expression: Seq<char>)
    ensures
        sanitized(expression) == expression <==> is_safe(expression),
    decreases expression.len(),
{
    if expression.len() > 0 {
        let shorter = expression.drop_last();
        lemma_sanitized_unchanged_iff_safe(shorter);
        lemma_sanitized_len(shorter);
        if is_safe_character(expression.last()) {
            if sanitized(expression) == expression {
                assert(sanitized(shorter) =~= sanitized(expression).drop_last());
                assert forall|i: int| 0 <= i < expression.len() implies is_safe_character(
                    #[trigger] expression[i],
                ) by {
                    if i < shorter.len() {
                        assert(expression[i] == shorter[i]);
                    }
                }
            }
            if is_safe(expression) {
                assert forall|i: int| 0 <= i < shorter.len() implies is_safe_character(
                    #[trigger] shorter[i],
                ) by {
                    assert(shorter[i] == expression[i]);
                }
                assert(sanitized(expression) =~= expression);
            }
        } else {
            assert(!is_safe(expression)) by {
                if is_safe(expression) {
                    assert(is_safe_character(expression[expression.len() - 1]));
                }
            }
        }
    } else {
        assert(sanitized(expression) =~= expression);
    }
}

fn is_safe_char(c: char) -> (r: bool)
    ensures
        r == is_safe_character(c),
{
    (c >= '0' && c <= '9') || c == '+' || c == '-' || c == '*' || c == '/' || c == '.' || c == '('
        || c == ')' || c == ' '
}

/// Removes every character that is not safe.
pub fn sanitize(expression: &str) -> (r: String)
    ensures
        r@ == sanitized(expression@),
{
    let mut kept = String::new();
    assert(expression@.take(0) =~= Seq::empty());
    for c in it: expression.chars()
        invariant
            it.seq() == expression@,
            kept@ == sanitized(expression@.take(it.index() as int)),
    {
        proof {
            let k = it.index() as int;
            assert(expression@.take(k + 1).drop_last() =~= expression@.take(k));
            assert(expression@.take(k + 1).last() == c);
        }
        if is_safe_char(c) {
            kept.push(c);
        }
    }
    assert(expression@.take(expression@.len() as int) =~= expression@);
    kept
}

/// What is to be done with an expression handed to the arithmetic tool.
#[derive(Debug, PartialEq, Eq)]
pub enum Calculation {
    /// The expression is refused; this is the tool's result.
    Rejected(CalculationResult),
    /// The expression is safe and goes to the evaluator as it is.
    Evaluate(String),
}

/// A calculation as a mathematical value.
pub enum CalculationView {
    Rejected(CalculationResultView),
    Evaluate(Seq<char>),
}

impl View for Calculation {
    type V = CalculationView;

    open spec fn view(&self) -> CalculationView {
        match self {
            Calculation::Rejected(result) => CalculationView::Rejected(result@),
            Calculation::Evaluate(expression) => CalculationView::Evaluate(expression@),
        }
    }
}

/// The decision on an expression: it is evaluated if sanitizing leaves it as
/// it is, and rejected otherwise.
pub open spec fn calculation(expression: Seq<char>) -> CalculationView {
    if sanitized(expression) == expression {
        CalculationView::Evaluate(expression)
    } else {
        CalculationView::Rejected(
            CalculationResultView {
                expression,
                result: None,
                error: Some("Expression contains unsafe characters"@),
            },
        )
    }
}

/// An expression goes to the evaluator exactly when all of its characters
/// are safe; one with any other character is rejected.
pub proof fn lemma_only_safe_expressions_are_evaluated(expression: Seq<char>)
    ensures
        calculation(expression) is Evaluate <==> is_safe(expression),
        calculation(expression) is Rejected <==> !is_safe(expression),
{
    lemma_sanitized_unchanged_iff_safe(expression);
}

/// Decides whether an expression may be evaluated. One that holds anything
/// but safe characters is rejected and never reaches the evaluator.
pub fn calculate(expression: &str) -> (r: Calculation)
    ensures
        r@ == calculation(expression@),
{
    let cleaned = sanitize(expression);
    if cleaned.as_str().eq(expression) {
        Calculation::Evaluate(cleaned)
    } else {
        Calculation::Rejected(
            CalculationResult {
                expression: String::from_str(expression),
                result: None,
                error: Some(String::from_str("Expression contains unsafe characters")),
            },
        )
    }
}

/// The view of what the evaluator reported.
pub open spec fn outcome_view(outcome: Result<String, String>) -> Result<Seq<char>, Seq<char>> {
    match outcome {
        Ok(value) => Ok(value@),
        Err(message) => Err(message@),
    }
}

/// The tool's result for an expression that was evaluated: the value, or the
/// evaluator's complaint.
pub open spec fn evaluated(
    expression: Seq<char>,
    outcome: Result<Seq<char>, Seq<char>>,
) -> CalculationResultView {
    match outcome {
        Ok(value) => CalculationResultView { expression, result: Some(value), error: None },
        Err(message) => CalculationResultView {
            expression,
            result: None,
            error: Some("Error evaluating expression: "@ + message),
        },
    }
}

/// Builds the tool's result from what the evaluator reported for
/// `expression`: its value written as decimal text, or its error message.
pub fn calculation_result(expression: &str, outcome: Result<String, String>) -> (r:
    CalculationResult)
    ensures
        r@ == evaluated(expression@, outcome_view(outcome)),
{
    match outcome {
        Ok(value) => CalculationResult {
            expression: String::from_str(expression),
            result: Some(value),
            error: None,
        },
        Err(message) => CalculationResult {
            expression: String::from_str(expression),
            result: None,
            error: Some(String::from_str("Error evaluating expression: ").concat(message.as_str())),
        },
    }
}

/// The final answer is handed on as it is.
pub fn final_answer(answer: &str) -> (r: String)
    ensures
        r@ == answer@,
{
    String::from_str(answer)
}

} // verus!
