//! The files of a run: where they lie, and the lines and records that go into them.
//!
//! Paths are text, and follow the rules of Unix.

use serde_json::Value;
use vstd::prelude::*;

use crate::error::outcome;
use crate::json::{
    all_flat, json_compact, json_get, json_list_parsed, json_pretty, json_pretty_bytes, json_str,
    json_text, json_view, json_views, parse_json_list, JsonView,
};
use crate::text::{char_vec, opt_text, same_text};

verus! {

/// Whether a path is absolute: it begins with a slash.
pub open spec fn is_absolute_path(path: Seq<char>) -> bool {
    path.len() > 0 && path[0] == '/'
}

/// A path inside another: an absolute `part` stands for itself, a relative one is put behind
/// `base`, with one slash between them unless `base` is empty or ends in one.
pub open spec fn path_joined(base: Seq<char>, part: Seq<char>) -> Seq<char> {
    if is_absolute_path(part) {
        part
    } else if base.len() == 0 || base.last() == '/' {
        base + part
    } else {
        base + "/"@ + part
    }
}

/// Whether a path is absolute.
pub fn absolute(path: &str) -> (b: bool)
    ensures
        b == is_absolute_path(path@),
{
    let chars = char_vec(path);
    chars.len() > 0 && chars[0] == '/'
}

/// Joins two paths.
pub fn join_path(base: &str, part: &str) -> (path: String)
    ensures
        path@ == path_joined(base@, part@),
{
    if absolute(part) {
        return part.to_owned();
    }
    let chars = char_vec(base);
    if chars.len() == 0 || chars[chars.len() - 1] == '/' {
        base.to_owned().concat(part)
    } else {
        base.to_owned().concat("/").concat(part)
    }
}

/// A path with one more part behind it. Empty parts are dropped, and so are parts that stand for the
/// directory itself, except at the beginning.
pub open spec fn with_part(path: Seq<char>, part: Seq<char>) -> Seq<char> {
    if part.len() == 0 || (part == seq!['.'] && path.len() > 0) {
        path
    } else if path.len() == 0 || path == seq!['/'] {
        path + part
    } else {
        path.push('/') + part
    }
}

/// A path read from left to right: the parts that a slash has ended, and the part that comes next.
pub open spec fn path_read(path: Seq<char>) -> (Seq<char>, Seq<char>)
    decreases path.len(),
{
    if path.len() == 0 {
        (Seq::empty(), Seq::empty())
    } else {
        let (done, part) = path_read(path.drop_last());
        if path.last() != '/' {
            (done, part.push(path.last()))
        } else if path.len() == 1 {
            (seq!['/'], Seq::empty())
        } else {
            (with_part(done, part), Seq::empty())
        }
    }
}

/// A path without repeated slashes, slashes at its end, and parts that stand for the directory itself,
/// except for a slash or such a part at its beginning.
pub open spec fn normalized_path(path: Seq<char>) -> Seq<char> {
    with_part(path_read(path).0, path_read(path).1)
}

/// Whether two paths are equal, part by part.
pub open spec fn path_equal(a: Seq<char>, b: Seq<char>) -> bool {
    normalized_path(a) == normalized_path(b)
}

fn add_part(path: String, part: &str) -> (longer: String)
    ensures
        longer@ == with_part(path@, part@),
{
    let part_chars = char_vec(part);
    let path_chars = char_vec(path.as_str());
    let here = part_chars.len() == 1 && part_chars[0] == '.';
    proof {
        assert(here == (part@ =~= seq!['.']));
    }
    if part_chars.len() == 0 || (here && path_chars.len() > 0) {
        return path;
    }
    let root = path_chars.len() == 1 && path_chars[0] == '/';
    proof {
        assert(root == (path@ =~= seq!['/']));
    }
    if path_chars.len() == 0 || root {
        return path.concat(part);
    }
    let mut longer = path;
    longer.push('/');
    longer.concat(part)
}

/// Puts a path into its normal form.
pub fn normalize_path(path: &str) -> (normal: String)
    ensures
        normal@ == normalized_path(path@),
{
    let chars = char_vec(path);
    let mut done = String::new();
    let mut part = String::new();
    let mut at: usize = 0;
    assert(path@.take(0) =~= Seq::empty());
    while at < chars.len()
        invariant
            chars@ == path@,
            at <= chars.len(),
            (done@, part@) == path_read(path@.take(at as int)),
        decreases chars.len() - at,
    {
        let ghost next = path@.take(at + 1);
        assert(next.drop_last() =~= path@.take(at as int));
        let c = chars[at];
        if c != '/' {
            part.push(c);
        } else if at == 0 {
            done = String::new();
            done.push('/');
            part = String::new();
            assert(done@ =~= seq!['/']);
        } else {
            done = add_part(done, part.as_str());
            part = String::new();
        }
        at = at + 1;
    }
    assert(path@.take(path@.len() as int) =~= path@);
    add_part(done, part.as_str())
}

/// Compares two paths part by part.
pub fn same_path(a: &str, b: &str) -> (r: bool)
    ensures
        r == path_equal(a@, b@),
{
    same_text(normalize_path(a).as_str(), normalize_path(b).as_str())
}

/// A path without the slashes, and the parts that stand for the directory itself, at its end.
pub open spec fn without_trailing(path: Seq<char>) -> Seq<char>
    decreases path.len(),
{
    if path.len() > 0 && path.last() == '/' {
        without_trailing(path.drop_last())
    } else if path.len() > 1 && path.last() == '.' && path[path.len() - 2] == '/' {
        without_trailing(path.drop_last())
    } else {
        path
    }
}

/// What stands behind the last slash of a path.
pub open spec fn last_part(path: Seq<char>) -> Seq<char>
    decreases path.len(),
{
    if path.len() == 0 || path.last() == '/' {
        Seq::empty()
    } else {
        last_part(path.drop_last()).push(path.last())
    }
}

/// Whether a path names a file: its last part is neither the directory itself nor the one above it.
pub open spec fn names_a_file(path: Seq<char>) -> bool {
    let name = last_part(without_trailing(path));
    name.len() > 0 && name != seq!['.'] && name != seq!['.', '.']
}

/// The path that a file is written to before it takes its place: the path with `.tmp` behind it.
pub open spec fn temporary_path(path: Seq<char>) -> Seq<char> {
    if names_a_file(path) {
        without_trailing(path) + ".tmp"@
    } else {
        path
    }
}

/// Finds the path that a file is written to before it takes its place.
pub fn temporary_file_path(path: &str) -> (temporary: String)
    ensures
        temporary@ == temporary_path(path@),
{
    let chars = char_vec(path);
    let mut end: usize = chars.len();
    assert(path@.take(end as int) =~= path@);
    while end > 0 && (chars[end - 1] == '/' || (end > 1 && chars[end - 1] == '.' && chars[end - 2]
        == '/'))
        invariant
            chars@ == path@,
            end <= chars.len(),
            without_trailing(path@) == without_trailing(path@.take(end as int)),
        decreases end,
    {
        let ghost prefix = path@.take(end as int);
        assert(prefix.last() == chars[end - 1]);
        assert(prefix.drop_last() =~= path@.take(end - 1));
        end = end - 1;
    }
    let ghost kept = path@.take(end as int);
    proof {
        if end > 0 {
            assert(kept.last() == chars[end - 1]);
            if end > 1 {
                assert(kept[end - 2] == chars[end - 2]);
            }
        }
        assert(without_trailing(path@) == kept);
    }
    let mut start: usize = end;
    assert(kept.subrange(end as int, end as int) =~= Seq::empty());
    assert(last_part(kept) =~= last_part(kept.take(end as int)) + kept.subrange(
        end as int,
        end as int,
    )) by {
        assert(kept.take(end as int) =~= kept);
    }
    while start > 0 && chars[start - 1] != '/'
        invariant
            chars@ == path@,
            start <= end <= chars.len(),
            kept == path@.take(end as int),
            last_part(kept) == last_part(kept.take(start as int)) + kept.subrange(
                start as int,
                end as int,
            ),
        decreases start,
    {
        let ghost prefix = kept.take(start as int);
        assert(prefix.last() == chars[start - 1]);
        assert(prefix.drop_last() =~= kept.take(start - 1));
        assert(last_part(prefix) + kept.subrange(start as int, end as int) =~= last_part(
            kept.take(start - 1),
        ) + kept.subrange(start - 1, end as int));
        start = start - 1;
    }
    proof {
        if start > 0 {
            assert(kept.take(start as int).last() == chars[start - 1]);
        }
        assert(last_part(kept) =~= kept.subrange(start as int, end as int));
    }
    let length: usize = end - start;
    let here = length == 1 && chars[start] == '.';
    let above = length == 2 && chars[start] == '.' && chars[start + 1] == '.';
    proof {
        let name = kept.subrange(start as int, end as int);
        assert(name.len() == length);
        if length > 0 {
            assert(name[0] == chars[start as int]);
        }
        if length > 1 {
            assert(name[1] == chars[start + 1]);
        }
        assert(here == (name =~= seq!['.']));
        assert(above == (name =~= seq!['.', '.']));
    }
    if length == 0 || here || above {
        return path.to_owned();
    }
    let mut temporary = String::new();
    assert(temporary@ =~= path@.take(0));
    let mut at: usize = 0;
    while at < end
        invariant
            chars@ == path@,
            at <= end <= chars.len(),
            temporary@ == path@.take(at as int),
        decreases end - at,
    {
        temporary.push(chars[at]);
        assert(temporary@ =~= path@.take(at + 1));
        at = at + 1;
    }
    temporary.concat(".tmp")
}

/// Where the files of a repository lie.
#[derive(Debug, Clone, PartialEq, Eq)]
pub struct AgentFlowPaths {
    pub repo_root: String,
    pub agentflow_dir: String,
    pub state_path: String,
    pub runs_dir: String,
}

/// The directory of a run, under the runs directory.
pub open spec fn run_dir_path(runs_dir: Seq<char>, item_id: Seq<char>) -> Seq<char> {
    path_joined(runs_dir, item_id)
}

impl AgentFlowPaths {
    /// The paths of a repository: everything lies in `.agentflow`, but for a state file that was
    /// put elsewhere.
    pub fn new(repo_root: String, state_override: Option<String>) -> (paths: Self)
        ensures
            paths.repo_root@ == repo_root@,
            paths.agentflow_dir@ == path_joined(repo_root@, ".agentflow"@),
            paths.state_path@ == (match opt_text(state_override) {
                Some(path) => path,
                None => path_joined(path_joined(repo_root@, ".agentflow"@), "state.json"@),
            }),
            paths.runs_dir@ == path_joined(path_joined(repo_root@, ".agentflow"@), "runs"@),
    {
        let agentflow_dir = join_path(repo_root.as_str(), ".agentflow");
        let state_path = match state_override {
            Some(path) => path,
            None => join_path(agentflow_dir.as_str(), "state.json"),
        };
        let runs_dir = join_path(agentflow_dir.as_str(), "runs");
        AgentFlowPaths { repo_root, agentflow_dir, state_path, runs_dir }
    }

    /// The directory of an item.
    pub fn run_dir(&self, item_id: &str) -> (path: String)
        ensures
            path@ == run_dir_path(self.runs_dir@, item_id@),
    {
        join_path(self.runs_dir.as_str(), item_id)
    }

    /// The file of the rendered prompts of an item.
    pub fn rendered_prompts_path(&self, item_id: &str) -> (path: String)
        ensures
            path@ == path_joined(
                run_dir_path(self.runs_dir@, item_id@),
                "rendered-prompts.jsonl"@,
            ),
    {
        join_path(self.run_dir(item_id).as_str(), "rendered-prompts.jsonl")
    }

    /// The file of the outputs of an item.
    pub fn outputs_path(&self, item_id: &str) -> (path: String)
        ensures
            path@ == path_joined(run_dir_path(self.runs_dir@, item_id@), "outputs.jsonl"@),
    {
        join_path(self.run_dir(item_id).as_str(), "outputs.jsonl")
    }

    /// The file of the sessions of an item.
    pub fn sessions_path(&self, item_id: &str) -> (path: String)
        ensures
            path@ == path_joined(run_dir_path(self.runs_dir@, item_id@), "sessions.json"@),
    {
        join_path(self.run_dir(item_id).as_str(), "sessions.json")
    }
}

/// Whether a text is one line: it ends with a line feed and holds no other.
pub open spec fn is_one_line(text: Seq<char>) -> bool {
    &&& text.len() > 0
    &&& text.last() == '\n'
    &&& forall|i: int| 0 <= i < text.len() - 1 ==> text[i] != '\n'
}

/// One line of a JSONL file: the compact JSON text and a line feed.
pub fn jsonl_line(record: &Value) -> (line: String)
    ensures
        line@ == json_compact(json_view(*record)) + "\n"@,
        is_one_line(line@),
{
    proof {
        reveal_strlit("\n");
    }
    json_text(record).concat("\n")
}

/// The line feed that ends a file.
pub const LINE_FEED: u8 = 10;

/// The records of a sessions file; a missing file holds none.
pub open spec fn session_records(contents: Option<Seq<u8>>) -> Result<Seq<JsonView>, Seq<char>> {
    match contents {
        None => Ok(Seq::empty()),
        Some(bytes) => json_list_parsed(bytes),
    }
}

/// A sessions file with one more record at its end.
pub open spec fn sessions_with(contents: Option<Seq<u8>>, record: JsonView) -> Result<
    Seq<u8>,
    Seq<char>,
> {
    match session_records(contents) {
        Err(error) => Err(error),
        Ok(records) => Ok(json_pretty(records.push(record)).push(LINE_FEED)),
    }
}

/// Appends a record to the records of a sessions file, and gives the new contents of the file. Where
/// all records are objects of strings and nulls, as session records are, the new contents are read
/// back as those records.
pub fn updated_sessions(contents: Option<&[u8]>, record: Value) -> (result: Result<
    Vec<u8>,
    String,
>)
    ensures
        outcome(result) == sessions_with(
            match contents {
                Some(bytes) => Some(bytes@),
                None => None,
            },
            json_view(record),
        ),
        ({
            let before = session_records(
                match contents {
                    Some(bytes) => Some(bytes@),
                    None => None,
                },
            );
            before is Ok && all_flat(before->Ok_0.push(json_view(record))) ==> session_records(
                Some(result->Ok_0@),
            ) == Ok::<Seq<JsonView>, Seq<char>>(before->Ok_0.push(json_view(record)))
        }),
{
    let mut records = match contents {
        None => Vec::new(),
        Some(bytes) => match parse_json_list(bytes) {
            Ok(records) => records,
            Err(error) => {
                return Err(error);
            },
        },
    };
    let ghost before = records@;
    assert(contents is None ==> json_views(before) =~= Seq::empty());
    records.push(record);
    assert(json_views(records@) =~= json_views(before).push(json_view(record)));
    match json_pretty_bytes(&records) {
        Ok(bytes) => {
            let mut bytes = bytes;
            bytes.push(LINE_FEED);
            Ok(bytes)
        },
        Err(error) => Err(error),
    }
}

/// The session file of the latest record that names one.
pub open spec fn latest_session_file(records: Seq<JsonView>) -> Option<Seq<char>>
    decreases records.len(),
{
    if records.len() == 0 {
        None
    } else {
        match records.last().member_text("session_file"@) {
            Some(file) => if file.len() > 0 {
                Some(file)
            } else {
                latest_session_file(records.drop_last())
            },
            None => latest_session_file(records.drop_last()),
        }
    }
}

/// Looks up the session file of the latest record that names one.
pub fn latest_session_in(records: &Vec<Value>) -> (file: Option<String>)
    ensures
        opt_text(file) == latest_session_file(json_views(records@)),
{
    let ghost views = json_views(records@);
    let mut n: usize = records.len();
    assert(views.take(n as int) =~= views);
    while n > 0
        invariant
            n <= records.len(),
            views == json_views(records@),
            latest_session_file(views) == latest_session_file(views.take(n as int)),
        decreases n,
    {
        let ghost prefix = views.take(n as int);
        assert(prefix.last() == json_view(records[n - 1]));
        assert(prefix.drop_last() =~= views.take(n - 1));
        if let Some(member) = json_get(&records[n - 1], "session_file") {
            if let Some(file) = json_str(member) {
                if !file.is_empty() {
                    return Some(file.to_owned());
                }
            }
        }
        n = n - 1;
    }
    None
}

/// The session file that a sessions file records last, or the error of its JSON.
pub open spec fn recorded_session_file(contents: Seq<u8>) -> Result<Option<Seq<char>>, Seq<char>> {
    match json_list_parsed(contents) {
        Err(error) => Err(error),
        Ok(records) => Ok(latest_session_file(records)),
    }
}

/// Reads the session file that a sessions file records last.
pub fn latest_recorded_session_file(contents: &[u8]) -> (result: Result<Option<String>, String>)
    ensures
        (match result {
            Ok(file) => recorded_session_file(contents@) == Ok::<Option<Seq<char>>, Seq<char>>(
                opt_text(file),
            ),
            Err(error) => recorded_session_file(contents@) == Err::<Option<Seq<char>>, Seq<char>>(
                error@,
            ),
        }),
{
    match parse_json_list(contents) {
        Ok(records) => Ok(latest_session_in(&records)),
        Err(error) => Err(error),
    }
}

} // verus!
