//! What holds of paths, and of the files of a run.

use vstd::prelude::*;

use crate::files::{
    is_absolute_path, is_one_line, last_part, latest_session_file, names_a_file, normalized_path,
    path_equal, path_joined, path_read, recorded_session_file, run_dir_path, session_records,
    sessions_with, temporary_path, with_part, without_trailing,
};
use crate::json::{json_list_parsed, json_pretty, JsonView};

verus! {

/// An absolute path stands for itself wherever it is seen from. A relative one is put behind the other
/// path, with one slash between them, unless the other path is empty or ends with a slash already.
pub proof fn relative_paths_are_put_behind(base: Seq<char>, part: Seq<char>)
    ensures
        part.len() > 0 && part[0] == '/' ==> path_joined(base, part) == part,
        part.len() == 0 || part[0] != '/' ==> {
            &&& base.len() == 0 ==> path_joined(base, part) == part
            &&& base.len() > 0 && base.last() == '/' ==> path_joined(base, part) == base + part
            &&& base.len() > 0 && base.last() != '/' ==> path_joined(base, part) == base + seq!['/']
                + part
        },
        is_absolute_path(part) <==> part.len() > 0 && part[0] == '/',
        run_dir_path(base, part) == path_joined(base, part),
{
    reveal_strlit("/");
    assert("/"@ =~= seq!['/']);
    assert(Seq::<char>::empty() + part =~= part);
    if base.len() == 0 {
        assert(base + part =~= part);
    }
}

proof fn lemma_read_on(a: Seq<char>, b: Seq<char>, rest: Seq<char>)
    requires
        a.len() > 0,
        b.len() > 0,
        path_read(a) == path_read(b),
    ensures
        path_read(a + rest) == path_read(b + rest),
    decreases rest.len(),
{
    if rest.len() == 0 {
        assert(a + rest =~= a);
        assert(b + rest =~= b);
    } else {
        lemma_read_on(a, b, rest.drop_last());
        assert((a + rest).drop_last() =~= a + rest.drop_last());
        assert((b + rest).drop_last() =~= b + rest.drop_last());
        assert((a + rest).last() == rest.last());
        assert((b + rest).last() == rest.last());
    }
}

proof fn lemma_something_is_read(path: Seq<char>)
    requires
        path.len() > 0,
    ensures
        path_read(path).0.len() > 0 || path_read(path).1.len() > 0,
        normalized_path(path).len() > 0,
    decreases path.len(),
{
    let before = path.drop_last();
    if before.len() > 0 {
        lemma_something_is_read(before);
    }
}

/// A slash more at the end of a path does not change what it stands for, nor does a slash more within
/// it, nor a part that stands for the directory itself.
pub proof fn paths_are_compared_part_by_part(a: Seq<char>, b: Seq<char>)
    ensures
        a.len() > 0 ==> path_equal(a.push('/'), a),
        path_equal(a + seq!['/', '/'] + b, a + seq!['/'] + b),
        path_equal(a + seq!['/', '.', '/'] + b, a + seq!['/'] + b),
        path_equal(a, b) ==> path_equal(b, a),
{
    let once = a.push('/');
    let twice = once.push('/');
    let dot = once.push('.');
    let here = dot.push('/');
    assert(once.drop_last() =~= a);
    assert(twice.drop_last() =~= once);
    assert(dot.drop_last() =~= once);
    assert(here.drop_last() =~= dot);
    assert(path_read(once).1.len() == 0);
    assert(path_read(once).0.len() > 0) by {
        lemma_something_is_read(once);
    }
    assert(path_read(twice) == path_read(once));
    assert(path_read(dot).1 =~= seq!['.']);
    assert(path_read(here) == path_read(once));
    lemma_read_on(twice, once, b);
    lemma_read_on(here, once, b);
    assert(twice + b =~= a + seq!['/', '/'] + b);
    assert(here + b =~= a + seq!['/', '.', '/'] + b);
    assert(once + b =~= a + seq!['/'] + b);
}

/// Whether a path is written without anything that could be left out: no slash stands at its end or
/// behind another, and no part behind a slash stands for the directory itself.
pub open spec fn is_plain(path: Seq<char>) -> bool {
    forall|i: int|
        0 <= i < path.len() && #[trigger] path[i] == '/' ==> {
            &&& i + 1 < path.len()
            &&& path[i + 1] != '/'
            &&& path[i + 1] == '.' ==> i + 2 < path.len() && path[i + 2] != '/'
        }
}

proof fn lemma_plain_read(path: Seq<char>, n: int)
    requires
        is_plain(path),
        0 <= n <= path.len(),
    ensures
        ({
            let (done, part) = path_read(path.take(n));
            &&& path.take(n) == (if done.len() == 0 || done == seq!['/'] {
                done + part
            } else {
                done.push('/') + part
            })
            &&& n > 0 && path[n - 1] == '/' <==> n > 0 && part.len() == 0
            &&& part.len() > 0 ==> part.last() == path[n - 1]
            &&& done.len() > 0 ==> part.len() < n && path[n - 1 - part.len()] == '/'
            &&& forall|i: int| 0 <= i < part.len() ==> #[trigger] part[i] == path[n - part.len() + i]
        }),
    decreases n,
{
    if n > 0 {
        lemma_plain_read(path, n - 1);
        let prefix = path.take(n);
        assert(prefix.drop_last() =~= path.take(n - 1));
        assert(prefix.last() == path[n - 1]);
        let (done, part) = path_read(path.take(n - 1));
        if path[n - 1] != '/' {
            let longer = part.push(path[n - 1]);
            assert(path_read(prefix) == (done, longer));
            assert(done + longer =~= (done + part).push(path[n - 1]));
            assert(done.push('/') + longer =~= (done.push('/') + part).push(path[n - 1]));
            assert(prefix =~= path.take(n - 1).push(path[n - 1]));
        } else if n == 1 {
            assert(path_read(prefix) == (seq!['/'], Seq::<char>::empty()));
            assert(prefix =~= seq!['/'] + Seq::<char>::empty());
        } else {
            assert(part.len() > 0) by {
                if part.len() == 0 {
                    assert(path[n - 2] == '/');
                    assert(path[n - 2 + 1] == '/');
                }
            }
            assert(!(part == seq!['.'] && done.len() > 0)) by {
                if part == seq!['.'] && done.len() > 0 {
                    assert(part[0] == path[n - 2]);
                    assert(path[n - 3] == '/');
                    assert(path[n - 3 + 1] == '.');
                    assert(path[n - 3 + 2] == '/');
                }
            }
            let closed = with_part(done, part);
            assert(closed == path.take(n - 1));
            assert(path_read(prefix) == (closed, Seq::<char>::empty()));
            assert(closed.len() == n - 1);
            assert(closed != seq!['/']) by {
                if closed == seq!['/'] {
                    assert(path.take(n - 1)[0] == '/');
                    assert(path[0] == '/');
                    assert(path[1] == '/');
                }
            }
            assert(prefix =~= closed.push('/') + Seq::<char>::empty());
        }
    } else {
        assert(path.take(0) =~= Seq::<char>::empty() + Seq::<char>::empty());
    }
}

/// Paths that are written without anything that could be left out stand for the same only where they
/// are the same.
pub proof fn plain_paths_are_compared_as_they_are(a: Seq<char>, b: Seq<char>)
    requires
        is_plain(a),
        is_plain(b),
    ensures
        normalized_path(a) == a,
        path_equal(a, b) <==> a == b,
{
    lemma_plain_path(a);
    lemma_plain_path(b);
}

proof fn lemma_plain_path(path: Seq<char>)
    requires
        is_plain(path),
    ensures
        normalized_path(path) == path,
{
    lemma_plain_read(path, path.len() as int);
    let n = path.len() as int;
    assert(path.take(n) =~= path);
    let (done, part) = path_read(path);
    if n > 0 {
        assert(part.len() > 0) by {
            if part.len() == 0 {
                assert(path[n - 1] == '/');
            }
        }
        assert(!(part == seq!['.'] && done.len() > 0)) by {
            if part == seq!['.'] && done.len() > 0 {
                assert(part[0] == path[n - 1]);
                assert(path[n - 2] == '/');
                assert(path[n - 2 + 1] == '.');
            }
        }
    }
}

proof fn lemma_last_part(dir: Seq<char>, name: Seq<char>)
    requires
        dir.len() == 0 || dir.last() == '/',
        forall|i: int| 0 <= i < name.len() ==> #[trigger] name[i] != '/',
    ensures
        last_part(dir + name) == name,
    decreases name.len(),
{
    let path = dir + name;
    if name.len() == 0 {
        assert(path =~= dir);
        assert(last_part(path) =~= name);
    } else {
        let before = name.drop_last();
        assert forall|i: int| 0 <= i < before.len() implies #[trigger] before[i] != '/' by {
            assert(name[i] != '/');
        }
        lemma_last_part(dir, before);
        assert(path.drop_last() =~= dir + before);
        assert(path.last() == name.last());
        assert(name[name.len() - 1] != '/');
        assert(last_part(path) =~= name);
    }
}

/// A file is written beside its place first: under its own name with `.tmp` behind it, in its own
/// directory. A path that ends in the directory itself or in the one above it names no file, and is
/// left as it is.
pub proof fn files_are_written_beside_their_place(dir: Seq<char>, name: Seq<char>)
    requires
        dir.len() == 0 || dir.last() == '/',
        name.len() > 0,
        forall|i: int| 0 <= i < name.len() ==> #[trigger] name[i] != '/',
    ensures
        name != seq!['.'] && name != seq!['.', '.'] ==> temporary_path(dir + name) == dir + name
            + ".tmp"@,
        name == seq!['.', '.'] ==> temporary_path(dir + name) == dir + name,
        name == seq!['.'] && dir.len() == 0 ==> temporary_path(dir + name) == dir + name,
        temporary_path(Seq::empty()).len() == 0,
{
    let path = dir + name;
    lemma_last_part(dir, name);
    assert(path.last() == name.last());
    assert(name[name.len() - 1] != '/');
    if name == seq!['.', '.'] {
        assert(path[path.len() - 2] == '.');
        assert(without_trailing(path) == path);
    } else if name != seq!['.'] || dir.len() == 0 {
        if name.last() == '.' && path.len() > 1 {
            if name.len() == 1 {
                assert(name =~= seq!['.']);
            } else {
                assert(path[path.len() - 2] == name[name.len() - 2]);
            }
        }
        assert(without_trailing(path) == path);
    }
    if name == seq!['.'] && dir.len() == 0 {
        assert(path =~= name);
    }
    assert(last_part(without_trailing(Seq::empty())).len() == 0);
}

/// A slash at the end of a path that names a file does not matter to where the file is written first.
pub proof fn slashes_at_the_end_do_not_matter(path: Seq<char>)
    requires
        path.len() > 0,
        names_a_file(path),
    ensures
        temporary_path(path.push('/')) == temporary_path(path),
        temporary_path(path + seq!['/', '.']) == temporary_path(path),
{
    let slashed = path.push('/');
    let dotted = path + seq!['/', '.'];
    assert(slashed.drop_last() =~= path);
    assert(dotted.drop_last() =~= slashed);
    assert(dotted.last() == '.' && dotted[dotted.len() - 2] == '/');
    assert(without_trailing(slashed) == without_trailing(path));
    assert(without_trailing(dotted) == without_trailing(path));
}

/// The session file that is found is that of the last record that names one, and none is found exactly
/// where no record names one.
pub proof fn the_latest_session_is_found(records: Seq<JsonView>)
    ensures
        match latest_session_file(records) {
            Some(file) => exists|i: int|
                0 <= i < records.len() && (#[trigger] records[i]).member("session_file"@) == Some(
                    JsonView::Text(file),
                ) && file.len() > 0 && forall|j: int|
                    i < j < records.len() ==> ((#[trigger] records[j]).member_text("session_file"@)
                        matches Some(other) ==> other.len() == 0),
            None => forall|j: int|
                0 <= j < records.len() ==> ((#[trigger] records[j]).member_text("session_file"@)
                    matches Some(other) ==> other.len() == 0),
        },
    decreases records.len(),
{
    if records.len() > 0 {
        let before = records.drop_last();
        let last = records.len() - 1;
        the_latest_session_is_found(before);
        assert(records[last] == records.last());
        let named = records.last().member_text("session_file"@);
        if named is Some && named->0.len() > 0 {
            assert(records[last].member("session_file"@) == Some(JsonView::Text(named->0)));
        } else {
            match latest_session_file(before) {
                Some(file) => {
                    let i = choose|i: int|
                        0 <= i < before.len() && (#[trigger] before[i]).member("session_file"@)
                            == Some(JsonView::Text(file)) && file.len() > 0 && forall|j: int|
                            i < j < before.len() ==> ((#[trigger] before[j]).member_text(
                                "session_file"@,
                            ) matches Some(other) ==> other.len() == 0);
                    assert(records[i] == before[i]);
                    assert forall|j: int| i < j < records.len() implies ((
                    #[trigger] records[j]).member_text("session_file"@) matches Some(other)
                        ==> other.len() == 0) by {
                        if j < last {
                            assert(records[j] == before[j]);
                        }
                    }
                },
                None => {
                    assert forall|j: int| 0 <= j < records.len() implies ((
                    #[trigger] records[j]).member_text("session_file"@) matches Some(other)
                        ==> other.len() == 0) by {
                        if j < last {
                            assert(records[j] == before[j]);
                        }
                    }
                },
            }
        }
    }
}

/// A sessions file holds a list of records, and a missing one holds none. A new record is put at the
/// end of the list, which is written with a line feed behind it. A file that is no list is an error,
/// and is neither added to nor searched.
pub proof fn sessions_are_added_at_the_end(
    bytes: Seq<u8>,
    records: Seq<JsonView>,
    error: Seq<char>,
    record: JsonView,
)
    ensures
        session_records(None) == Ok::<Seq<JsonView>, Seq<char>>(Seq::empty()),
        sessions_with(None, record) == Ok::<Seq<u8>, Seq<char>>(
            json_pretty(seq![record]).push(10u8),
        ),
        json_list_parsed(bytes) == Ok::<Seq<JsonView>, Seq<char>>(records) ==> {
            &&& session_records(Some(bytes)) == Ok::<Seq<JsonView>, Seq<char>>(records)
            &&& sessions_with(Some(bytes), record) == Ok::<Seq<u8>, Seq<char>>(
                json_pretty(records.push(record)).push(10u8),
            )
            &&& recorded_session_file(bytes) == Ok::<Option<Seq<char>>, Seq<char>>(
                latest_session_file(records),
            )
        },
        json_list_parsed(bytes) == Err::<Seq<JsonView>, Seq<char>>(error) ==> {
            &&& session_records(Some(bytes)) == Err::<Seq<JsonView>, Seq<char>>(error)
            &&& sessions_with(Some(bytes), record) == Err::<Seq<u8>, Seq<char>>(error)
            &&& recorded_session_file(bytes) == Err::<Option<Seq<char>>, Seq<char>>(error)
        },
{
    assert(Seq::<JsonView>::empty().push(record) =~= seq![record]);
}

/// A line ends with the only line feed in it.
pub proof fn lines_end_with_their_line_feed(text: Seq<char>)
    ensures
        is_one_line(text) <==> text.len() > 0 && text[text.len() - 1] == '\n' && forall|i: int|
            0 <= i < text.len() - 1 ==> #[trigger] text[i] != '\n',
{
}

} // verus!
