//! The reference tool, `search_files`: a bounded, case-insensitive search
//! of the local filesystem for files by name.
//!
//! The walk itself reads directories, so it runs in the application layer;
//! every decision it makes (how deep to go, which directories to skip,
//! which names match, when to stop) and everything it reports are here.

use vstd::prelude::*;
use crate::bridge::{string_argument_of, string_parameters, string_parameters_model};
use crate::decimal::{decimal, push_decimal};
use crate::json::{lemma_items_model_all, lemma_members_model_all, items_model, members_model, JsonModel, JsonValue};
use crate::risk::RiskLevel;
use crate::text::{chars_of, is_white_space, push_str, str_eq, string_from_chars, string_of, trailing_white, trim, trimmed, white_space};
use crate::tools::{ToolError, ToolMetadata, ToolResult, ToolSchema};

verus! {

/// The tool name registered in the registry.
pub const TOOL_NAME: &'static str = "search_files";

/// The maximum number of matches one call returns.
pub const MAX_RESULTS: usize = 25;

/// The maximum directory depth walked from the search root.
pub const MAX_DEPTH: usize = 8;

/// The lower-case form of a text (as `str::to_lowercase` returns it, by
/// Unicode's case mapping, the same everywhere).
pub uninterp spec fn lowercase(s: Seq<char>) -> Seq<char>;

/// `str::to_lowercase`. The result is named [`lowercase`] of the text.
#[verifier::external_body]
fn to_lowercase(s: &str) -> (r: String)
    ensures
        r@ == lowercase(s@),
{
    s.to_lowercase()
}

/// Whether `needle` occurs in `hay` as a contiguous run of characters.
pub open spec fn contains_text(hay: Seq<char>, needle: Seq<char>) -> bool {
    exists|i: int| 0 <= i <= hay.len() - needle.len() && #[trigger] hay.subrange(i, i + needle.len()) == needle
}

/// How many characters of `n` match `h` from position `i` on, stopping at
/// the first difference.
fn match_length(h: &Vec<char>, n: &Vec<char>, i: usize) -> (j: usize)
    requires
        i + n@.len() <= h@.len(),
    ensures
        j <= n@.len(),
        forall|k: int| 0 <= k < j ==> h@[i + k] == n@[k],
        j < n@.len() ==> h@[i + j] != n@[j as int],
{
    let hlen = h.len();
    let mut j: usize = 0;
    while j < n.len()
        invariant
            hlen == h@.len(),
            i + n@.len() <= h@.len(),
            j <= n@.len(),
            forall|k: int| 0 <= k < j ==> h@[i + k] == n@[k],
        decreases n.len() - j,
    {
        if h[i + j] != n[j] {
            return j;
        }
        j += 1;
    }
    j
}

/// Whether `needle` occurs in `hay`.
pub fn contains(hay: &str, needle: &str) -> (b: bool)
    ensures
        b == contains_text(hay@, needle@),
{
    let h = chars_of(hay);
    let n = chars_of(needle);
    if n.len() > h.len() {
        return false;
    }
    let last = h.len() - n.len();
    let mut i: usize = 0;
    while i <= last
        invariant
            h@ == hay@,
            n@ == needle@,
            last == h@.len() - n@.len(),
            n@.len() <= h@.len(),
            i <= last,
            forall|k: int| 0 <= k < i ==> #[trigger] hay@.subrange(k, k + needle@.len()) != needle@,
        decreases last + 1 - i,
    {
        let j = match_length(&h, &n, i);
        if j == n.len() {
            assert(hay@.subrange(i as int, i + needle@.len()) =~= needle@);
            return true;
        }
        assert(hay@.subrange(i as int, i + needle@.len())[j as int] != needle@[j as int]);
        if i == last {
            return false;
        }
        i += 1;
    }
    false
}

/// Whether a directory is skipped: build artifacts and version-control
/// internals that would otherwise dominate the results.
pub open spec fn skipped_dir(name: Seq<char>) -> bool {
    name == "target"@ || name == ".git"@ || name == "node_modules"@
}

/// What the walk does with one directory entry.
#[derive(Debug, Clone, Copy, PartialEq, Eq, Structural)]
pub enum EntryStep {
    /// The result cap is reached: stop walking this directory.
    Stop,
    /// A skipped directory.
    Skip,
    /// A directory to walk into, one level deeper.
    Descend,
    /// A file whose name matches.
    Match,
    /// A file whose name does not match.
    Ignore,
}

/// Whether the walk enters a directory at this depth, with this many
/// matches found so far.
pub fn walk_enters(depth: usize, found: usize) -> (b: bool)
    ensures
        b == (depth <= MAX_DEPTH && found < MAX_RESULTS),
{
    depth <= MAX_DEPTH && found < MAX_RESULTS
}

/// What the walk does with an entry, given how many matches it found so
/// far and the lower-cased query: stop at the cap, skip noisy directories,
/// walk into other directories, and keep files whose lower-cased name
/// contains the query.
pub fn entry_step(found: usize, is_dir: bool, name: &str, needle: &str) -> (s: EntryStep)
    ensures
        found >= MAX_RESULTS ==> s == EntryStep::Stop,
        found < MAX_RESULTS && is_dir && skipped_dir(name@) ==> s == EntryStep::Skip,
        found < MAX_RESULTS && is_dir && !skipped_dir(name@) ==> s == EntryStep::Descend,
        found < MAX_RESULTS && !is_dir && contains_text(lowercase(name@), needle@) ==> s == EntryStep::Match,
        found < MAX_RESULTS && !is_dir && !contains_text(lowercase(name@), needle@) ==> s == EntryStep::Ignore,
{
    if found >= MAX_RESULTS {
        EntryStep::Stop
    } else if is_dir {
        if str_eq(name, "target") || str_eq(name, ".git") || str_eq(name, "node_modules") {
            EntryStep::Skip
        } else {
            EntryStep::Descend
        }
    } else if contains(to_lowercase(name).as_str(), needle) {
        EntryStep::Match
    } else {
        EntryStep::Ignore
    }
}

/// The text a search looks for in lower-cased file names: the lower-cased
/// query.
pub fn search_needle(query: &str) -> (n: String)
    ensures
        n@ == lowercase(query@),
{
    to_lowercase(query)
}

/// The reference tool: search the local filesystem for files by name.
#[derive(Debug, Clone, Copy, Default)]
pub struct Filesearch;

/// The error when a call has no usable query.
pub open spec fn missing_query_text() -> Seq<char> {
    "query must be a non-empty string"@
}

/// `s` without its trailing whitespace (as `str::trim_end` returns it).
pub open spec fn trimmed_end(s: Seq<char>) -> Seq<char> {
    s.take(s.len() - trailing_white(s))
}

/// One listed path: `- <path>` and a newline.
pub open spec fn path_lines(paths: Seq<Seq<char>>) -> Seq<char>
    decreases paths.len(),
{
    if paths.len() == 0 {
        Seq::empty()
    } else {
        path_lines(paths.drop_last()) + "- "@ + paths.last() + "\n"@
    }
}

/// The report of a search that found nothing.
pub open spec fn no_match_text(query: Seq<char>, root: Seq<char>) -> Seq<char> {
    "no files matching '"@ + query + "' were found under "@ + root
}

/// The report of a search that found files: how many, for which query,
/// under which root, and one line per path (trailing whitespace removed).
pub open spec fn found_text(query: Seq<char>, root: Seq<char>, paths: Seq<Seq<char>>) -> Seq<char> {
    trimmed_end(
        "found "@ + decimal(paths.len()) + " file"@ + (if paths.len() == 1 {
            Seq::empty()
        } else {
            "s"@
        }) + " matching '"@ + query + "' under "@ + root + ":\n"@ + path_lines(paths),
    )
}

/// The structured data of a search that found files.
pub open spec fn found_data(query: Seq<char>, root: Seq<char>, paths: Seq<Seq<char>>) -> JsonModel {
    JsonModel::Object(
        seq![
            ("query"@, JsonModel::Str(query)),
            ("root"@, JsonModel::Str(root)),
            ("files"@, JsonModel::Array(paths.map_values(|p: Seq<char>| JsonModel::Str(p)))),
        ],
    )
}

/// `s` without its trailing whitespace.
pub fn trim_end(s: &str) -> (t: String)
    ensures
        t@ == trimmed_end(s@),
{
    let cs = chars_of(s);
    let mut hi: usize = cs.len();
    assert(s@.subrange(0, hi as int) =~= s@);
    while hi > 0 && white_space(cs[hi - 1])
        invariant
            hi <= cs@.len(),
            cs@ == s@,
            trailing_white(s@) == (cs@.len() - hi) + trailing_white(s@.subrange(0, hi as int)),
        decreases hi,
    {
        assert(s@.subrange(0, hi as int).drop_last() =~= s@.subrange(0, hi - 1));
        hi -= 1;
    }
    proof {
        let p = s@.subrange(0, hi as int);
        if hi > 0 {
            assert(p.last() == cs@[hi - 1]);
        }
        assert(trailing_white(p) == 0);
    }
    string_from_chars(&cs, 0, hi)
}

impl Filesearch {
    /// `search_files`, from this crate: a read-only, low-risk search.
    pub fn metadata(&self) -> (m: ToolMetadata)
        ensures
            m.name@ == "search_files"@,
            m.crate_name@ == "noema-filesearch"@,
            m.description@ == "Search for files on the local system"@,
            m.risk == RiskLevel::Low,
    {
        ToolMetadata {
            name: string_of("search_files"),
            crate_name: string_of("noema-filesearch"),
            description: string_of("Search for files on the local system"),
            risk: RiskLevel::Low,
        }
    }

    /// `search_files(query, path?)`, with the query required.
    pub fn schema(&self) -> (s: ToolSchema)
        ensures
            s.name@ == "search_files"@,
            s.description@ == "Search for files on the local system"@,
            s.parameters@ == string_parameters_model(
                seq![
                    ("query"@, "the filename text to look for"@),
                    ("path"@, "the directory to search (defaults to the current directory)"@),
                ],
                seq!["query"@],
            ),
    {
        let mut props: Vec<(&str, &str)> = Vec::new();
        props.push(("query", "the filename text to look for"));
        props.push(("path", "the directory to search (defaults to the current directory)"));
        let mut required: Vec<&str> = Vec::new();
        required.push("query");
        let parameters = string_parameters(props, required);
        proof {
            assert(props@.map_values(|p: (&str, &str)| (p.0@, p.1@)) =~= seq![
                ("query"@, "the filename text to look for"@),
                ("path"@, "the directory to search (defaults to the current directory)"@),
            ]);
            assert(required@.map_values(|r: &str| r@) =~= seq!["query"@]);
        }
        ToolSchema {
            name: string_of("search_files"),
            description: string_of("Search for files on the local system"),
            parameters,
        }
    }

    /// The query of a call: its `query` string, trimmed, which must not be
    /// empty.
    pub fn query_of(arguments: &JsonValue) -> (r: Result<String, ToolError>)
        ensures
            string_argument_of(arguments@, "query"@) is Some && trimmed(string_argument_of(arguments@, "query"@)->0).len()
                > 0 ==> (r matches Ok(t) && t@ == trimmed(string_argument_of(arguments@, "query"@)->0)),
            !(string_argument_of(arguments@, "query"@) is Some && trimmed(string_argument_of(arguments@, "query"@)->0).len()
                > 0) ==> (r matches Err(
                ToolError::InvalidCall(m),
            ) && m@ == missing_query_text()),
    {
        match arguments.get("query") {
            Some(JsonValue::Str(q)) => {
                let t = trim(q.as_str());
                if t.as_str().is_empty() {
                    Err(ToolError::InvalidCall(string_of("query must be a non-empty string")))
                } else {
                    Ok(t)
                }
            },
            _ => Err(ToolError::InvalidCall(string_of("query must be a non-empty string"))),
        }
    }

    /// The directory a call names: its `path` string, when that is not
    /// blank (the caller then searches the current directory).
    pub fn root_of(arguments: &JsonValue) -> (r: Option<String>)
        ensures
            string_argument_of(arguments@, "path"@) is Some && trimmed(string_argument_of(arguments@, "path"@)->0).len()
                > 0 ==> (r matches Some(t) && t@ == string_argument_of(arguments@, "path"@)->0),
            !(string_argument_of(arguments@, "path"@) is Some && trimmed(string_argument_of(arguments@, "path"@)->0).len()
                > 0) ==> r is None,
    {
        match arguments.get("path") {
            Some(JsonValue::Str(p)) => {
                let t = trim(p.as_str());
                if t.as_str().is_empty() {
                    None
                } else {
                    Some(p.clone())
                }
            },
            _ => None,
        }
    }

    /// What a search reports: with no match, a note saying so; otherwise
    /// the count, the paths one per line, and the structured data (query,
    /// root, and files).
    pub fn report(query: &str, root: &str, paths: Vec<String>) -> (r: ToolResult)
        requires
            paths@.len() <= u64::MAX,
        ensures
            r.success,
            paths@.len() == 0 ==> r.text@ == no_match_text(query@, root@) && r.data is None,
            paths@.len() > 0 ==> r.text@ == found_text(query@, root@, paths@.map_values(|p: String| p@)) && (r.data
                matches Some(d) && d@ == found_data(query@, root@, paths@.map_values(|p: String| p@))),
    {
        if paths.len() == 0 {
            let mut text = string_of("no files matching '");
            push_str(&mut text, query);
            push_str(&mut text, "' were found under ");
            push_str(&mut text, root);
            return ToolResult { success: true, text, data: None };
        }
        let ghost pv = paths@.map_values(|p: String| p@);
        let mut text = string_of("found ");
        push_decimal(&mut text, paths.len() as u64);
        push_str(&mut text, " file");
        if paths.len() != 1 {
            push_str(&mut text, "s");
        }
        push_str(&mut text, " matching '");
        push_str(&mut text, query);
        push_str(&mut text, "' under ");
        push_str(&mut text, root);
        push_str(&mut text, ":\n");
        let ghost head = text@;
        let mut files: Vec<JsonValue> = Vec::new();
        let mut i: usize = 0;
        while i < paths.len()
            invariant
                i <= paths@.len(),
                pv == paths@.map_values(|p: String| p@),
                text@ == head + path_lines(pv.subrange(0, i as int)),
                files@.len() == i,
                forall|j: int| 0 <= j < i ==> (#[trigger] files@[j])@ == JsonModel::Str(pv[j]),
            decreases paths.len() - i,
        {
            proof {
                assert(pv.subrange(0, i + 1).drop_last() =~= pv.subrange(0, i as int));
            }
            push_str(&mut text, "- ");
            push_str(&mut text, paths[i].as_str());
            push_str(&mut text, "\n");
            files.push(JsonValue::Str(paths[i].clone()));
            i += 1;
        }
        proof {
            assert(pv.subrange(0, pv.len() as int) =~= pv);
            let full = "found "@ + decimal(paths@.len() as nat) + " file"@ + (if paths@.len() == 1 {
                Seq::empty()
            } else {
                "s"@
            }) + " matching '"@ + query@ + "' under "@ + root@ + ":\n"@ + path_lines(pv);
            assert(text@ =~= full);
        }
        let trimmed_text = trim_end(text.as_str());
        let mut members: Vec<(String, JsonValue)> = Vec::new();
        members.push((string_of("query"), JsonValue::string(query)));
        members.push((string_of("root"), JsonValue::string(root)));
        proof {
            lemma_items_model_all(files@);
            assert(items_model(files@) =~= pv.map_values(|p: Seq<char>| JsonModel::Str(p)));
        }
        let files_value = JsonValue::Array(files);
        members.push((string_of("files"), files_value));
        proof {
            lemma_members_model_all(members@);
            assert(members_model(members@) =~= found_data(query@, root@, pv)->Object_0);
        }
        ToolResult { success: true, text: trimmed_text, data: Some(JsonValue::Object(members)) }
    }
}

} // verus!
