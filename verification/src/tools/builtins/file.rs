//! The file tool: reading, writing and editing files. The file system work
//! is its driver's; here is what each request asks for and what it answers.

use vstd::prelude::*;
use crate::outside::{json_field_str, json_field_u64, json_get_str, json_get_u64};
use crate::text::{
    chars_of, decimal, join, join_chars, push_decimal, replace_str, replaced, seq_contains, split_lines,
    split_lines_of, str_contains, str_eq, string_from_chars, utf8_len, utf8_len_of,
};

verus! {

broadcast use vstd::string::group_string_axioms;

/// The arguments of a read.
pub struct ReadArgs {
    pub path: String,
    pub offset: usize,
    pub limit: usize,
}

/// The first line read when the arguments give none.
pub fn default_offset() -> (r: usize)
    ensures
        r == 1,
{
    1
}

/// The number of lines read when the arguments give none.
pub fn default_limit() -> (r: usize)
    ensures
        r == 500,
{
    500
}

/// The arguments of a write.
pub struct WriteArgs {
    pub path: String,
    pub content: String,
}

/// The arguments of an edit.
pub struct EditArgs {
    pub path: String,
    pub old_string: String,
    pub new_string: String,
}

/// A request to the file tool.
#[derive(Debug)]
pub enum FileOp {
    Read { path: String, offset: u64, limit: u64 },
    Write { path: String, content: String },
    Edit { path: String, old_string: String, new_string: String },
}

/// A file request as plain values.
pub enum FileOpView {
    Read { path: Seq<char>, offset: u64, limit: u64 },
    Write { path: Seq<char>, content: Seq<char> },
    Edit { path: Seq<char>, old_string: Seq<char>, new_string: Seq<char> },
}

impl View for FileOp {
    type V = FileOpView;

    open spec fn view(&self) -> FileOpView {
        match self {
            FileOp::Read { path, offset, limit } => FileOpView::Read { path: path@, offset: *offset, limit: *limit },
            FileOp::Write { path, content } => FileOpView::Write { path: path@, content: content@ },
            FileOp::Edit { path, old_string, new_string } => FileOpView::Edit {
                path: path@,
                old_string: old_string@,
                new_string: new_string@,
            },
        }
    }
}

/// Field `key` of `args` as text, or `default` when it is missing or no text.
pub open spec fn text_field_or(args: serde_json::Value, key: Seq<char>, default: Seq<char>) -> Seq<char> {
    match json_field_str(args, key) {
        Some(t) => t,
        None => default,
    }
}

/// The error for an action the tool does not know.
pub open spec fn unknown_action_message(action: Seq<char>) -> Seq<char> {
    "Unknown action: "@ + action
}

/// Field `key` of `args` as a number, or `default` when it is missing or no
/// unsigned integer.
pub open spec fn number_field_or(args: serde_json::Value, key: Seq<char>, default: u64) -> u64 {
    match json_field_u64(args, key) {
        Some(n) => n,
        None => default,
    }
}

/// The request `args` makes: the action (a read by default) on the path (empty
/// by default), with the texts it needs (empty by default); a read starts at
/// line `offset` (1 by default) and takes at most `limit` lines (500 by
/// default).
pub open spec fn file_request(args: serde_json::Value) -> Result<FileOpView, Seq<char>> {
    let action = text_field_or(args, "action"@, "read"@);
    let path = text_field_or(args, "path"@, ""@);
    if action == "read"@ {
        Ok(
            FileOpView::Read {
                path,
                offset: number_field_or(args, "offset"@, 1),
                limit: number_field_or(args, "limit"@, 500),
            },
        )
    } else if action == "write"@ {
        Ok(FileOpView::Write { path, content: text_field_or(args, "content"@, ""@) })
    } else if action == "edit"@ {
        Ok(
            FileOpView::Edit {
                path,
                old_string: text_field_or(args, "old_string"@, ""@),
                new_string: text_field_or(args, "new_string"@, ""@),
            },
        )
    } else {
        Err(unknown_action_message(action))
    }
}

/// The lines of `content` a read from line `offset` (counted from 1; 0 reads
/// as 1) taking at most `limit` lines returns, joined by `\n`: nothing when
/// the offset is past the last line.
pub open spec fn read_window(content: Seq<char>, offset: u64, limit: u64) -> Seq<char> {
    let lines = split_lines(content);
    let start: int = if offset >= 1 { offset - 1 } else { 0 };
    if start >= lines.len() {
        Seq::empty()
    } else {
        let end: int = if start + limit < lines.len() { start + limit } else { lines.len() as int };
        join(lines.subrange(start, end), "\n"@)
    }
}

/// Reads, writes and edits files.
pub struct FileTools;

fn text_or(args: &serde_json::Value, key: &str, default: &str) -> (r: String)
    ensures
        r@ == text_field_or(*args, key@, default@),
{
    match json_get_str(args, key) {
        Some(t) => t,
        None => default.to_owned(),
    }
}

impl FileTools {
    pub fn new() -> (r: Self) {
        FileTools
    }

    /// The tool's name.
    pub fn name(&self) -> (r: &'static str)
        ensures
            r@ == "file"@,
    {
        "file"
    }

    /// The tool's description.
    pub fn description(&self) -> (r: &'static str)
        ensures
            r@ == "Read, write, or edit files on the filesystem"@,
    {
        "Read, write, or edit files on the filesystem"
    }

    /// The request `args` makes, or the error for an unknown action.
    pub fn plan(&self, args: &serde_json::Value) -> (r: Result<FileOp, String>)
        ensures
            match r {
                Ok(op) => file_request(*args) == Ok::<FileOpView, Seq<char>>(op@),
                Err(e) => file_request(*args) == Err::<FileOpView, Seq<char>>(e@),
            },
    {
        let action = text_or(args, "action", "read");
        let path = text_or(args, "path", "");
        proof {
            reveal_strlit("read");
            reveal_strlit("write");
            reveal_strlit("edit");
        }
        if str_eq(action.as_str(), "read") {
            let offset: u64 = match json_get_u64(args, "offset") {
                Some(n) => n,
                None => 1,
            };
            let limit: u64 = match json_get_u64(args, "limit") {
                Some(n) => n,
                None => 500,
            };
            Ok(FileOp::Read { path, offset, limit })
        } else if str_eq(action.as_str(), "write") {
            Ok(FileOp::Write { path, content: text_or(args, "content", "") })
        } else if str_eq(action.as_str(), "edit") {
            Ok(
                FileOp::Edit {
                    path,
                    old_string: text_or(args, "old_string", ""),
                    new_string: text_or(args, "new_string", ""),
                },
            )
        } else {
            let mut m = String::new();
            m.append("Unknown action: ");
            m.append(action.as_str());
            Err(m)
        }
    }

    /// The new content of an edit: every occurrence of `old_string` in
    /// `content` replaced, or an error when there is none.
    pub fn edited(&self, content: &str, old_string: &str, new_string: &str) -> (r: Result<String, String>)
        ensures
            seq_contains(content@, old_string@) ==> (r matches Ok(c) && c@ == replaced(
                content@,
                old_string@,
                new_string@,
            )),
            !seq_contains(content@, old_string@) ==> (r matches Err(e) && e@
                == "old_string not found in file"@),
    {
        if !str_contains(content, old_string) {
            return Err("old_string not found in file".to_owned());
        }
        Ok(replace_str(content, old_string, new_string))
    }

    /// The answer to a read of a file holding `content`: its lines from line
    /// `offset` (counted from 1), at most `limit` of them.
    pub fn read_lines(&self, content: &str, offset: u64, limit: u64) -> (r: String)
        ensures
            r@ == read_window(content@, offset, limit),
    {
        let v = chars_of(content);
        let lines = split_lines_of(&v);
        let ghost views = lines@.map_values(|l: Vec<char>| l@);
        let n = lines.len();
        let start: usize = if offset >= 1 {
            if offset - 1 < n as u64 {
                (offset - 1) as usize
            } else {
                n
            }
        } else {
            0
        };
        if start >= n {
            return String::new();
        }
        let end: usize = if (limit as u128) < (n - start) as u128 {
            start + limit as usize
        } else {
            n
        };
        let mut picked: Vec<Vec<char>> = Vec::new();
        for k in start..end
            invariant
                start <= end <= n,
                n == lines@.len(),
                views == lines@.map_values(|l: Vec<char>| l@),
                picked@.map_values(|l: Vec<char>| l@) == views.subrange(start as int, k as int),
        {
            let ghost before = picked@.map_values(|l: Vec<char>| l@);
            picked.push(lines[k].clone());
            assert(picked@.map_values(|l: Vec<char>| l@) =~= before.push(views[k as int]));
            assert(views.subrange(start as int, k + 1) =~= views.subrange(start as int, k as int).push(
                views[k as int],
            ));
        }
        let sep = chars_of("\n");
        let joined = join_chars(&picked, &sep);
        string_from_chars(joined.as_slice())
    }

    /// The answer to a write of `content` to `path`.
    pub fn written_message(&self, content: &str, path: &str) -> (r: String)
        ensures
            r@ == "Written "@ + decimal(utf8_len(content@)) + " bytes to "@ + path@,
    {
        let mut m = String::new();
        m.append("Written ");
        push_decimal(&mut m, utf8_len_of(content));
        m.append(" bytes to ");
        m.append(path);
        m
    }

    /// The answer to an edit of `path`.
    pub fn edited_message(&self, path: &str) -> (r: String)
        ensures
            r@ == "Edited "@ + path@,
    {
        let mut m = String::new();
        m.append("Edited ");
        m.append(path);
        m
    }

    /// The error of a failed read.
    pub fn read_error(&self, detail: &str) -> (r: String)
        ensures
            r@ == "Read error: "@ + detail@,
    {
        let mut m = String::new();
        m.append("Read error: ");
        m.append(detail);
        m
    }

    /// The error of a failed write.
    pub fn write_error(&self, detail: &str) -> (r: String)
        ensures
            r@ == "Write error: "@ + detail@,
    {
        let mut m = String::new();
        m.append("Write error: ");
        m.append(detail);
        m
    }
}

impl Default for FileTools {
    fn default() -> (r: Self) {
        FileTools
    }
}

/// What a file request asks for, field by field: the action is the text of
/// `action` (a read when it has none); the path is the text of `path`; a write
/// writes the text of `content`; an edit replaces the text of `old_string` by
/// the text of `new_string`; a read starts at the number in `offset` and
/// takes at most the number in `limit`. A missing text is empty; a missing
/// offset is 1 and a missing limit 500. Any other action is refused, naming
/// it.
pub proof fn law_file_request_fields(args: serde_json::Value)
    ensures
        ({
            let path = match json_field_str(args, "path"@) {
                Some(p) => p,
                None => ""@,
            };
            let content = match json_field_str(args, "content"@) {
                Some(x) => x,
                None => ""@,
            };
            let old_string = match json_field_str(args, "old_string"@) {
                Some(x) => x,
                None => ""@,
            };
            let new_string = match json_field_str(args, "new_string"@) {
                Some(x) => x,
                None => ""@,
            };
            let action = json_field_str(args, "action"@);
            &&& (action is None || action == Some("read"@)) ==> file_request(args) == Ok::<
                FileOpView,
                Seq<char>,
            >(
                FileOpView::Read {
                    path,
                    offset: match json_field_u64(args, "offset"@) {
                        Some(n) => n,
                        None => 1,
                    },
                    limit: match json_field_u64(args, "limit"@) {
                        Some(n) => n,
                        None => 500,
                    },
                },
            )
            &&& action == Some("write"@) ==> file_request(args) == Ok::<FileOpView, Seq<char>>(
                FileOpView::Write { path, content },
            )
            &&& action == Some("edit"@) ==> file_request(args) == Ok::<FileOpView, Seq<char>>(
                FileOpView::Edit { path, old_string, new_string },
            )
            &&& (action matches Some(a) && a != "read"@ && a != "write"@ && a != "edit"@)
                ==> file_request(args) == Err::<FileOpView, Seq<char>>(
                "Unknown action: "@ + action->0,
            )
        }),
{
    reveal_strlit("read");
    reveal_strlit("write");
    reveal_strlit("edit");
    assert("read"@.len() == 4 && "read"@[0] == 'r');
    assert("write"@.len() == 5);
    assert("edit"@.len() == 4 && "edit"@[0] == 'e');
    assert("write"@ != "read"@ && "edit"@ != "read"@ && "edit"@ != "write"@);
}

} // verus!
