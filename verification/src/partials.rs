//! Inline partials: whether a template may call them without end.
//!
//! A template can define partials of its own and call them. A definition whose calls lead back to
//! itself may be called without end. To find such definitions the tags of the template are listed,
//! each definition gets the calls that stand in its body, and the definitions are ordered so that
//! each calls only earlier ones.

use vstd::prelude::*;

use crate::text::{char_vec, matches_at, occurs_at};

verus! {

/// Whether a character is blank space to the grammar of templates.
pub open spec fn is_tag_space(c: char) -> bool {
    c == ' ' || c == '\t' || c == '\n' || c == '\r'
}

/// The first position from `at` on that holds no blank space.
pub open spec fn after_space(template: Seq<char>, at: int) -> int
    decreases template.len() - at,
{
    if 0 <= at < template.len() && is_tag_space(template[at]) {
        after_space(template, at + 1)
    } else {
        at
    }
}

/// Whether a template holds a character at a position.
pub open spec fn holds_at(template: Seq<char>, at: int, c: char) -> bool {
    0 <= at < template.len() && template[at] == c
}

/// Whether a tag opens at a position.
pub open spec fn opens_tag(template: Seq<char>, at: int) -> bool {
    holds_at(template, at, '{') && holds_at(template, at + 1, '{')
}

/// Where the inside of a tag begins that opens at `at`: behind the braces, blank space and a `~`.
pub open spec fn tag_inside(template: Seq<char>, at: int) -> int {
    let inside = after_space(template, at + 2);
    if holds_at(template, inside, '~') {
        after_space(template, inside + 1)
    } else {
        inside
    }
}

fn skip_space(template: &Vec<char>, at: usize) -> (next: usize)
    ensures
        next == after_space(template@, at as int),
        at <= next,
        next <= template.len() || next == at,
{
    let mut next: usize = at;
    while next < template.len() && (template[next] == ' ' || template[next] == '\t'
        || template[next] == '\n' || template[next] == '\r')
        invariant
            at <= next,
            next <= template.len() || next == at,
            after_space(template@, next as int) == after_space(template@, at as int),
        decreases template.len() - next,
    {
        next = next + 1;
    }
    next
}

fn has_at(template: &Vec<char>, at: usize, c: char) -> (b: bool)
    ensures
        b == holds_at(template@, at as int, c),
{
    at < template.len() && template[at] == c
}

fn has_tag_at(template: &Vec<char>, at: usize) -> (b: bool)
    ensures
        b == opens_tag(template@, at as int),
{
    at < template.len() && template[at] == '{' && template.len() - at >= 2 && template[at + 1]
        == '{'
}

fn has_text_at(template: &Vec<char>, part: &str, at: usize) -> (b: bool)
    ensures
        b == occurs_at(template@, part@, at as int),
{
    let sought = char_vec(part);
    if at > template.len() || template.len() - at < sought.len() {
        return false;
    }
    matches_at(template, &sought, at)
}

/// The next tag from `at` on, or the end of the template. A tag behind a single backslash is text,
/// and so are braces that follow its own. `slashes` is how many backslashes stand before `at`.
pub open spec fn next_tag(template: Seq<char>, at: int, slashes: int) -> int
    decreases template.len() - at,
{
    if !(0 <= at < template.len()) {
        template.len() as int
    } else if opens_tag(template, at) {
        if slashes != 1 {
            at
        } else if opens_tag(template, at + 2) {
            next_tag(template, at + 4, 0)
        } else {
            next_tag(template, at + 2, 0)
        }
    } else if template[at] == '\\' {
        next_tag(template, at + 1, slashes + 1)
    } else {
        next_tag(template, at + 1, 0)
    }
}

/// The next tag lies ahead.
pub proof fn lemma_next_tag(template: Seq<char>, at: int, slashes: int)
    requires
        0 <= at <= template.len(),
    ensures
        at <= next_tag(template, at, slashes) <= template.len(),
        next_tag(template, at, slashes) < template.len() ==> opens_tag(
            template,
            next_tag(template, at, slashes),
        ),
    decreases template.len() - at,
{
    if at < template.len() {
        if opens_tag(template, at) {
            if slashes == 1 {
                if opens_tag(template, at + 2) {
                    lemma_next_tag(template, at + 4, 0);
                } else {
                    lemma_next_tag(template, at + 2, 0);
                }
            }
        } else if template[at] == '\\' {
            lemma_next_tag(template, at + 1, slashes + 1);
        } else {
            lemma_next_tag(template, at + 1, 0);
        }
    }
}

fn find_tag(template: &Vec<char>, start: usize) -> (open: usize)
    requires
        start <= template.len(),
    ensures
        open == next_tag(template@, start as int, 0),
        start <= open <= template.len(),
        open < template.len() ==> opens_tag(template@, open as int),
{
    let mut at: usize = start;
    let mut slashes: usize = 0;
    while at < template.len()
        invariant
            start <= at <= template.len(),
            slashes <= at - start,
            next_tag(template@, at as int, slashes as int) == next_tag(
                template@,
                start as int,
                0,
            ),
        decreases template.len() - at,
    {
        if has_tag_at(template, at) {
            if slashes != 1 {
                return at;
            }
            slashes = 0;
            at = if has_tag_at(template, at + 2) {
                at + 4
            } else {
                at + 2
            };
        } else {
            slashes = if template[at] == '\\' {
                slashes + 1
            } else {
                0
            };
            at = at + 1;
        }
    }
    at
}

/// What a part of a tag is: a plain part, a text between double or single quotes, or a name between
/// square brackets.
#[derive(Clone, Copy, PartialEq, Eq, Structural)]
pub enum Within {
    Plain,
    Double,
    Single,
    Brackets,
}

/// The end of a tag, behind its closing braces, from a position inside it on. `depth` is how many
/// braces of the tag are open there. There is no end where brackets hold a quote or a brace, or single
/// quotes hold a backslash: where those end depends on what they stand for.
pub open spec fn tag_end(template: Seq<char>, at: int, depth: int, within: Within) -> Option<int>
    decreases template.len() - at,
{
    if !(0 <= at < template.len()) {
        None
    } else {
        let c = template[at];
        match within {
            Within::Double => if c == '"' {
                tag_end(template, at + 1, depth, Within::Plain)
            } else if c == '\\' {
                if at + 1 < template.len() {
                    tag_end(template, at + 2, depth, Within::Double)
                } else {
                    None
                }
            } else {
                tag_end(template, at + 1, depth, Within::Double)
            },
            Within::Single => if c == '\'' {
                tag_end(template, at + 1, depth, Within::Plain)
            } else if c == '\\' {
                None
            } else {
                tag_end(template, at + 1, depth, Within::Single)
            },
            Within::Brackets => if c == ']' {
                tag_end(template, at + 1, depth, Within::Plain)
            } else if c == '"' || c == '\'' || c == '{' || c == '}' || c == '\\' {
                None
            } else {
                tag_end(template, at + 1, depth, Within::Brackets)
            },
            Within::Plain => if c == '}' {
                if depth > 0 {
                    tag_end(template, at + 1, depth - 1, Within::Plain)
                } else if holds_at(template, at + 1, '}') {
                    Some(at + 2)
                } else {
                    None
                }
            } else if c == '{' {
                tag_end(template, at + 1, depth + 1, Within::Plain)
            } else if c == '"' {
                tag_end(template, at + 1, depth, Within::Double)
            } else if c == '\'' {
                tag_end(template, at + 1, depth, Within::Single)
            } else if c == '[' {
                tag_end(template, at + 1, depth, Within::Brackets)
            } else if c == '\\' {
                None
            } else {
                tag_end(template, at + 1, depth, Within::Plain)
            },
        }
    }
}

/// A tag ends ahead.
pub proof fn lemma_tag_end(template: Seq<char>, at: int, depth: int, within: Within)
    requires
        0 <= at,
    ensures
        tag_end(template, at, depth, within) matches Some(end) ==> at < end <= template.len(),
    decreases template.len() - at,
{
    if at < template.len() {
        lemma_tag_end(template, at + 1, depth, Within::Plain);
        lemma_tag_end(template, at + 1, depth, Within::Double);
        if at + 1 < template.len() {
            lemma_tag_end(template, at + 2, depth, Within::Double);
        }
        lemma_tag_end(template, at + 1, depth, Within::Single);
        lemma_tag_end(template, at + 1, depth, Within::Brackets);
        lemma_tag_end(template, at + 1, depth - 1, Within::Plain);
        lemma_tag_end(template, at + 1, depth + 1, Within::Plain);
    }
}

fn find_tag_end(template: &Vec<char>, start: usize) -> (end: Option<usize>)
    requires
        start <= template.len(),
    ensures
        (match end {
            Some(e) => tag_end(template@, start as int, 0, Within::Plain) == Some(e as int),
            None => tag_end(template@, start as int, 0, Within::Plain) is None,
        }),
{
    let mut at: usize = start;
    let mut depth: usize = 0;
    let mut within = Within::Plain;
    while at < template.len()
        invariant
            start <= at,
            depth <= at - start,
            tag_end(template@, at as int, depth as int, within) == tag_end(
                template@,
                start as int,
                0,
                Within::Plain,
            ),
        decreases template.len() - at,
    {
        let c = template[at];
        match within {
            Within::Double => {
                if c == '"' {
                    within = Within::Plain;
                } else if c == '\\' {
                    if template.len() - at < 2 {
                        return None;
                    }
                    at = at + 1;
                }
            },
            Within::Single => {
                if c == '\'' {
                    within = Within::Plain;
                } else if c == '\\' {
                    return None;
                }
            },
            Within::Brackets => {
                if c == ']' {
                    within = Within::Plain;
                } else if c == '"' || c == '\'' || c == '{' || c == '}' || c == '\\' {
                    return None;
                }
            },
            Within::Plain => {
                if c == '}' {
                    if depth > 0 {
                        depth = depth - 1;
                    } else if template.len() - at >= 2 && template[at + 1] == '}' {
                        return Some(at + 2);
                    } else {
                        return None;
                    }
                } else if c == '{' {
                    depth = depth + 1;
                } else if c == '"' {
                    within = Within::Double;
                } else if c == '\'' {
                    within = Within::Single;
                } else if c == '[' {
                    within = Within::Brackets;
                } else if c == '\\' {
                    return None;
                }
            },
        }
        at = at + 1;
    }
    None
}

/// The first place from `from` on at which a text occurs.
pub open spec fn first_place(template: Seq<char>, part: Seq<char>, from: int) -> Option<int>
    decreases template.len() - from,
{
    if !(0 <= from < template.len()) {
        None
    } else if occurs_at(template, part, from) {
        Some(from)
    } else {
        first_place(template, part, from + 1)
    }
}

/// The end of a comment whose inside begins at `at`: behind `--}}` where the comment begins with two
/// dashes and those follow, and otherwise behind the next braces.
pub open spec fn comment_end(template: Seq<char>, at: int) -> Option<int> {
    let dashes = after_space(template, at);
    let long = if occurs_at(template, "--"@, dashes) {
        first_place(template, "--}}"@, dashes + 2)
    } else {
        None
    };
    match long {
        Some(end) => Some(end + 4),
        None => match first_place(template, "}}"@, at) {
            Some(end) => Some(end + 2),
            None => None,
        },
    }
}

proof fn lemma_first_place(template: Seq<char>, part: Seq<char>, from: int)
    requires
        0 <= from,
    ensures
        first_place(template, part, from) matches Some(place) ==> from <= place && place + part.len()
            <= template.len(),
    decreases template.len() - from,
{
    if from < template.len() && !occurs_at(template, part, from) {
        lemma_first_place(template, part, from + 1);
    }
}

proof fn lemma_after_space(template: Seq<char>, at: int)
    ensures
        at <= after_space(template, at),
    decreases template.len() - at,
{
    if 0 <= at < template.len() && is_tag_space(template[at]) {
        lemma_after_space(template, at + 1);
    }
}

/// A comment ends ahead.
pub proof fn lemma_comment_end(template: Seq<char>, at: int)
    requires
        0 <= at,
    ensures
        comment_end(template, at) matches Some(end) ==> at < end <= template.len(),
{
    reveal_strlit("--}}");
    reveal_strlit("}}");
    lemma_after_space(template, at);
    lemma_first_place(template, "--}}"@, after_space(template, at) + 2);
    lemma_first_place(template, "}}"@, at);
}

fn find_place(template: &Vec<char>, part: &str, from: usize) -> (place: Option<usize>)
    ensures
        (match place {
            Some(p) => first_place(template@, part@, from as int) == Some(p as int),
            None => first_place(template@, part@, from as int) is None,
        }),
{
    let mut at: usize = from;
    while at < template.len()
        invariant
            first_place(template@, part@, at as int) == first_place(
                template@,
                part@,
                from as int,
            ),
        decreases template.len() - at,
    {
        if has_text_at(template, part, at) {
            return Some(at);
        }
        at = at + 1;
    }
    None
}

fn find_comment_end(template: &Vec<char>, at: usize) -> (end: Option<usize>)
    requires
        at <= template.len(),
    ensures
        (match end {
            Some(e) => comment_end(template@, at as int) == Some(e as int),
            None => comment_end(template@, at as int) is None,
        }),
{
    proof {
        lemma_comment_end(template@, at as int);
        reveal_strlit("--");
    }
    let dashes: usize = skip_space(template, at);
    if has_text_at(template, "--", dashes) {
        if let Some(end) = find_place(template, "--}}", dashes + 2) {
            return Some(end + 4);
        }
    }
    match find_place(template, "}}", at) {
        Some(end) => Some(end + 2),
        None => None,
    }
}

/// What matters of a tag.
pub enum Tag {
    /// Opens the definition of an inline partial, under a name where it is written out.
    Define(Option<Vec<char>>),
    /// Calls a partial, by a name where it is written out. A block has a body and is closed.
    Call { name: Option<Vec<char>>, block: bool },
    /// Opens another block.
    Open,
    /// Closes a block.
    Close,
    Other,
}

/// What a [`Tag`] says.
pub enum TagView {
    Define(Option<Seq<char>>),
    Call { name: Option<Seq<char>>, block: bool },
    Open,
    Close,
    Other,
}

/// What an optional name says.
pub open spec fn opt_chars(name: Option<Vec<char>>) -> Option<Seq<char>> {
    match name {
        Some(chars) => Some(chars@),
        None => None,
    }
}

impl View for Tag {
    type V = TagView;

    open spec fn view(&self) -> TagView {
        match self {
            Tag::Define(name) => TagView::Define(opt_chars(*name)),
            Tag::Call { name, block } => TagView::Call { name: opt_chars(*name), block: *block },
            Tag::Open => TagView::Open,
            Tag::Close => TagView::Close,
            Tag::Other => TagView::Other,
        }
    }
}

/// What the tags of a sequence say.
pub open spec fn tag_views(tags: Seq<Tag>) -> Seq<TagView> {
    tags.map_values(|tag: Tag| tag@)
}

/// Whether a character can stand in the name of a partial.
pub open spec fn is_name_char(c: char) -> bool {
    ||| '0' <= c <= '9'
    ||| 'a' <= c <= 'z'
    ||| 'A' <= c <= 'Z'
    ||| c == '-' || c == '_' || c == '@' || c == '/' || c == '.'
    ||| c >= '\u{80}'
}

/// The end of a name that begins at a position.
pub open spec fn name_end(template: Seq<char>, at: int) -> int
    decreases template.len() - at,
{
    if 0 <= at < template.len() && is_name_char(template[at]) {
        name_end(template, at + 1)
    } else {
        at
    }
}

/// The call of a partial whose name begins at a position, or behind blank space there. The name of
/// another form is not known. `@partial-block` calls nothing: it writes a block that has been
/// rendered already, or else its own body.
pub open spec fn call_of(template: Seq<char>, at: int, block: bool) -> TagView {
    let start = after_space(template, at);
    let end = name_end(template, start);
    if start < end < template.len() && (is_tag_space(template[end]) || template[end] == '}'
        || template[end] == '~') {
        let name = template.subrange(start, end);
        if name == "@partial-block"@ {
            if block {
                TagView::Open
            } else {
                TagView::Other
            }
        } else {
            TagView::Call { name: Some(name), block }
        }
    } else {
        TagView::Call { name: None, block }
    }
}

/// The end of a quoted text without backslashes: where its closing quote stands.
pub open spec fn quote_end(template: Seq<char>, at: int, quote: char) -> Option<int>
    decreases template.len() - at,
{
    if !(0 <= at < template.len()) || template[at] == '\\' {
        None
    } else if template[at] == quote {
        Some(at)
    } else {
        quote_end(template, at + 1, quote)
    }
}

/// The text that is quoted at a position.
pub open spec fn quoted_at(template: Seq<char>, at: int) -> Option<Seq<char>> {
    if holds_at(template, at, '"') || holds_at(template, at, '\'') {
        match quote_end(template, at + 1, template[at]) {
            Some(end) => Some(template.subrange(at + 1, end)),
            None => None,
        }
    } else {
        None
    }
}

/// The tag that opens at a position.
pub open spec fn tag_of(template: Seq<char>, at: int) -> TagView {
    let inside = tag_inside(template, at);
    if holds_at(template, inside, '>') {
        call_of(template, inside + 1, false)
    } else if holds_at(template, inside, '/') {
        TagView::Close
    } else if holds_at(template, inside, '#') {
        let mark = after_space(template, inside + 1);
        let word = after_space(template, mark + 1);
        if holds_at(template, mark, '>') {
            call_of(template, mark + 1, true)
        } else if holds_at(template, mark, '*') && occurs_at(template, "inline"@, word) {
            TagView::Define(quoted_at(template, after_space(template, word + 6)))
        } else {
            TagView::Open
        }
    } else {
        TagView::Other
    }
}

/// The tags that follow those that have been seen, from a position on. They cannot be listed where
/// the end of one is not known, nor where a block of raw text opens with four braces.
pub open spec fn tags_from(template: Seq<char>, at: int, seen: Seq<TagView>) -> Option<Seq<TagView>>
    decreases template.len() - at,
{
    let open = next_tag(template, at, 0);
    proof {
        if 0 <= at <= template.len() {
            lemma_next_tag(template, at, 0);
            lemma_comment_end(template, open + 3);
            lemma_tag_end(template, open + 2, 0, Within::Plain);
        }
    }
    if !(0 <= at <= template.len()) {
        None
    } else if open >= template.len() {
        Some(seen)
    } else if opens_tag(template, open + 2) {
        None
    } else if holds_at(template, open + 2, '!') {
        match comment_end(template, open + 3) {
            Some(end) => tags_from(template, end, seen),
            None => None,
        }
    } else {
        match tag_end(template, open + 2, 0, Within::Plain) {
            Some(end) => tags_from(template, end, seen.push(tag_of(template, open))),
            None => None,
        }
    }
}

fn name_char(c: char) -> (b: bool)
    ensures
        b == is_name_char(c),
{
    ('0' <= c && c <= '9') || ('a' <= c && c <= 'z') || ('A' <= c && c <= 'Z') || c == '-' || c
        == '_' || c == '@' || c == '/' || c == '.' || c >= '\u{80}'
}

fn part_of(template: &Vec<char>, start: usize, end: usize) -> (part: Vec<char>)
    requires
        start <= end <= template.len(),
    ensures
        part@ == template@.subrange(start as int, end as int),
{
    let mut part: Vec<char> = Vec::new();
    for i in start..end
        invariant
            start <= end <= template.len(),
            part@ == template@.subrange(start as int, i as int),
    {
        part.push(template[i]);
        assert(part@ =~= template@.subrange(start as int, i + 1));
    }
    part
}

fn read_call(template: &Vec<char>, at: usize, block: bool) -> (tag: Tag)
    requires
        at <= template.len(),
    ensures
        tag@ == call_of(template@, at as int, block),
{
    let start: usize = skip_space(template, at);
    let mut end: usize = start;
    while end < template.len() && name_char(template[end])
        invariant
            start <= end <= template.len(),
            name_end(template@, end as int) == name_end(template@, start as int),
        decreases template.len() - end,
    {
        end = end + 1;
    }
    if start < end && end < template.len() && (template[end] == ' ' || template[end] == '\t'
        || template[end] == '\n' || template[end] == '\r' || template[end] == '}' || template[end]
        == '~') {
        let name = part_of(template, start, end);
        let sought = char_vec("@partial-block");
        if same_chars(&name, &sought) {
            return if block {
                Tag::Open
            } else {
                Tag::Other
            };
        }
        return Tag::Call { name: Some(name), block };
    }
    Tag::Call { name: None, block }
}

fn same_chars(a: &Vec<char>, b: &Vec<char>) -> (r: bool)
    ensures
        r == (a@ == b@),
{
    if a.len() != b.len() {
        return false;
    }
    let found = matches_at(a, b, 0);
    assert(a@.subrange(0, b@.len() as int) =~= a@);
    found
}

fn read_quoted(template: &Vec<char>, at: usize) -> (text: Option<Vec<char>>)
    ensures
        opt_chars(text) == quoted_at(template@, at as int),
{
    if at >= template.len() || (template[at] != '"' && template[at] != '\'') {
        return None;
    }
    let quote = template[at];
    let start: usize = at + 1;
    let mut end: usize = start;
    while end < template.len()
        invariant
            start <= end <= template.len(),
            start == at + 1,
            quote == template@[at as int],
            holds_at(template@, at as int, '"') || holds_at(template@, at as int, '\''),
            quote_end(template@, end as int, quote) == quote_end(
                template@,
                start as int,
                quote,
            ),
        decreases template.len() - end,
    {
        if template[end] == '\\' {
            return None;
        }
        if template[end] == quote {
            return Some(part_of(template, start, end));
        }
        end = end + 1;
    }
    None
}

fn read_tag(template: &Vec<char>, at: usize) -> (tag: Tag)
    requires
        opens_tag(template@, at as int),
        at + 2 <= template.len(),
    ensures
        tag@ == tag_of(template@, at as int),
{
    proof {
        reveal_strlit("inline");
    }
    let mut inside: usize = skip_space(template, at + 2);
    if has_at(template, inside, '~') {
        inside = skip_space(template, inside + 1);
    }
    assert(inside == tag_inside(template@, at as int));
    if has_at(template, inside, '>') {
        return read_call(template, inside + 1, false);
    }
    if has_at(template, inside, '/') {
        return Tag::Close;
    }
    if !has_at(template, inside, '#') {
        return Tag::Other;
    }
    let mark: usize = skip_space(template, inside + 1);
    if has_at(template, mark, '>') {
        return read_call(template, mark + 1, true);
    }
    if has_at(template, mark, '*') {
        let word: usize = skip_space(template, mark + 1);
        if has_text_at(template, "inline", word) {
            return Tag::Define(read_quoted(template, skip_space(template, word + 6)));
        }
    }
    Tag::Open
}

fn read_tags(template: &Vec<char>) -> (tags: Option<Vec<Tag>>)
    ensures
        (match tags {
            Some(listed) => tags_from(template@, 0, Seq::empty()) == Some(tag_views(listed@)),
            None => tags_from(template@, 0, Seq::empty()) is None,
        }),
{
    let mut tags: Vec<Tag> = Vec::new();
    let mut at: usize = 0;
    assert(tag_views(tags@) =~= Seq::empty());
    loop
        invariant
            at <= template.len(),
            tags_from(template@, at as int, tag_views(tags@)) == tags_from(
                template@,
                0,
                Seq::empty(),
            ),
        decreases template.len() - at,
    {
        let open: usize = find_tag(template, at);
        if open >= template.len() {
            return Some(tags);
        }
        proof {
            lemma_comment_end(template@, open + 3);
            lemma_tag_end(template@, open + 2, 0, Within::Plain);
        }
        if has_tag_at(template, open + 2) {
            return None;
        }
        if has_at(template, open + 2, '!') {
            match find_comment_end(template, open + 3) {
                Some(end) => {
                    at = end;
                },
                None => {
                    return None;
                },
            }
        } else {
            match find_tag_end(template, open + 2) {
                Some(end) => {
                    let ghost before = tags@;
                    let tag = read_tag(template, open);
                    tags.push(tag);
                    assert(tag_views(tags@) =~= tag_views(before).push(tag@));
                    at = end;
                },
                None => {
                    return None;
                },
            }
        }
    }
}

/// The innermost definition of those around a place, the last of which is the nearest block.
pub open spec fn innermost(around: Seq<Option<int>>) -> Option<int> {
    if around.len() == 0 {
        None
    } else {
        around.last()
    }
}

/// The blocks that are open before a tag, the outermost first, each by the innermost definition that
/// its body stands in.
pub open spec fn blocks_before(tags: Seq<TagView>, at: int) -> Seq<Option<int>>
    decreases at,
{
    if at <= 0 {
        Seq::empty()
    } else {
        let before = blocks_before(tags, at - 1);
        match tags[at - 1] {
            TagView::Define(_) => before.push(Some(at - 1)),
            TagView::Open | TagView::Call { block: true, .. } => before.push(innermost(before)),
            TagView::Close => if before.len() == 0 {
                before
            } else {
                before.drop_last()
            },
            _ => before,
        }
    }
}

/// Whether a call may be one of a definition: their names are equal, or one of them is not known.
pub open spec fn may_be(called: Option<Seq<char>>, defined: Option<Seq<char>>) -> bool {
    called is None || defined is None || called == defined
}

/// Whether a tag stands in the body of one definition and may call another.
pub open spec fn calls_at(tags: Seq<TagView>, at: int, caller: int, callee: int) -> bool {
    &&& 0 <= at < tags.len()
    &&& innermost(blocks_before(tags, at)) == Some(caller)
    &&& tags[at] matches TagView::Call { name: called, .. } && tags[callee] matches TagView::Define(
        defined,
    ) && may_be(called, defined)
}

/// Whether one definition may call another.
pub open spec fn may_call(tags: Seq<TagView>, caller: int, callee: int) -> bool {
    &&& 0 <= caller < tags.len()
    &&& 0 <= callee < tags.len()
    &&& exists|at: int| calls_at(tags, at, caller, callee)
}

/// Whether ranks put every definition behind all those that it may call.
pub open spec fn ranks_calls(tags: Seq<TagView>, ranks: Seq<nat>) -> bool {
    &&& ranks.len() == tags.len()
    &&& forall|caller: int, callee: int| #[trigger]
        may_call(tags, caller, callee) ==> ranks[callee] < ranks[caller]
}

/// Whether calls come to an end: the definitions can be put in an order in which each calls only
/// earlier ones.
pub open spec fn calls_end(tags: Seq<TagView>) -> bool {
    exists|ranks: Seq<nat>| ranks_calls(tags, ranks)
}

/// Whether the places of tags alone allow a definition that calls a partial: a definition opens, then
/// a partial is called, and then a block closes.
pub open spec fn calls_between(template: Seq<char>) -> bool {
    exists|opening: int, call: int, closing: int|
        opening < call < closing && #[trigger] opens_definition(template, opening)
            && #[trigger] opens_call(template, call) && #[trigger] opens_closing(template, closing)
}

/// Whether a definition opens at a position.
pub open spec fn opens_definition(template: Seq<char>, at: int) -> bool {
    opens_tag(template, at) && tag_of(template, at) is Define
}

/// Whether a call opens at a position.
pub open spec fn opens_call(template: Seq<char>, at: int) -> bool {
    opens_tag(template, at) && tag_of(template, at) is Call
}

/// Whether a tag that closes a block opens at a position.
pub open spec fn opens_closing(template: Seq<char>, at: int) -> bool {
    opens_tag(template, at) && tag_of(template, at) is Close
}

/// Whether a template may call its inline partials without end. Where its tags can be listed, it may
/// do so only if some definition can come to call itself: a call outside the definitions leads into
/// one of them, and from there each call leads to an earlier one. Where they cannot be listed, it may
/// do so if the places of its tags allow a definition that calls anything.
pub open spec fn may_recurse(template: Seq<char>) -> bool {
    match tags_from(template, 0, Seq::empty()) {
        Some(tags) => !calls_end(tags),
        None => calls_between(template),
    }
}

/// What optional indices say.
pub open spec fn index_views(indices: Seq<Option<usize>>) -> Seq<Option<int>> {
    indices.map_values(|index: Option<usize>| opt_index(index))
}

/// What an optional index says.
pub open spec fn opt_index(index: Option<usize>) -> Option<int> {
    match index {
        Some(i) => Some(i as int),
        None => None,
    }
}

/// Blocks stand in definitions that come before them.
proof fn lemma_blocks(tags: Seq<TagView>, at: int)
    requires
        at <= tags.len(),
    ensures
        forall|i: int|
            0 <= i < blocks_before(tags, at).len() ==> (#[trigger] blocks_before(
                tags,
                at,
            )[i] matches Some(definition) ==> 0 <= definition < at && tags[definition] is Define),
    decreases at,
{
    if at > 0 {
        lemma_blocks(tags, at - 1);
    }
}

fn innermost_of(around: &Vec<Option<usize>>) -> (definition: Option<usize>)
    ensures
        opt_index(definition) == innermost(index_views(around@)),
{
    if around.len() == 0 {
        None
    } else {
        around[around.len() - 1]
    }
}

/// Finds the definition that each tag stands in.
fn find_definitions(tags: &Vec<Tag>) -> (owners: Vec<Option<usize>>)
    ensures
        owners@.len() == tags@.len(),
        forall|at: int|
            0 <= at < tags@.len() ==> opt_index(#[trigger] owners@[at]) == innermost(
                blocks_before(tag_views(tags@), at),
            ),
{
    let ghost views = tag_views(tags@);
    let mut owners: Vec<Option<usize>> = Vec::new();
    let mut around: Vec<Option<usize>> = Vec::new();
    assert(index_views(around@) =~= Seq::empty());
    for at in 0..tags.len()
        invariant
            views == tag_views(tags@),
            owners@.len() == at,
            index_views(around@) == blocks_before(views, at as int),
            forall|i: int|
                0 <= i < at ==> opt_index(#[trigger] owners@[i]) == innermost(
                    blocks_before(views, i),
                ),
    {
        let ghost before = around@;
        let owner = innermost_of(&around);
        owners.push(owner);
        assert(views[at as int] == tags@[at as int]@);
        match &tags[at] {
            Tag::Define(_) => {
                around.push(Some(at));
                assert(index_views(around@) =~= index_views(before).push(Some(at as int)));
            },
            Tag::Open => {
                around.push(owner);
                assert(index_views(around@) =~= index_views(before).push(opt_index(owner)));
            },
            Tag::Call { block, .. } => {
                if *block {
                    around.push(owner);
                    assert(index_views(around@) =~= index_views(before).push(opt_index(owner)));
                }
            },
            Tag::Close => {
                if around.len() > 0 {
                    let _ = around.pop();
                    assert(index_views(around@) =~= index_views(before).drop_last());
                }
            },
            Tag::Other => {},
        }
    }
    owners
}

fn names_fit(called: &Option<Vec<char>>, defined: &Option<Vec<char>>) -> (b: bool)
    ensures
        b == may_be(opt_chars(*called), opt_chars(*defined)),
{
    match (called, defined) {
        (Some(one), Some(other)) => same_chars(one, other),
        _ => true,
    }
}

fn calls_definition(
    tags: &Vec<Tag>,
    owners: &Vec<Option<usize>>,
    caller: usize,
    callee: usize,
) -> (b: bool)
    requires
        caller < tags.len(),
        callee < tags.len(),
        owners@.len() == tags@.len(),
        forall|at: int|
            0 <= at < tags@.len() ==> opt_index(#[trigger] owners@[at]) == innermost(
                blocks_before(tag_views(tags@), at),
            ),
    ensures
        b == may_call(tag_views(tags@), caller as int, callee as int),
{
    let ghost views = tag_views(tags@);
    assert(views[callee as int] == tags@[callee as int]@);
    if let Tag::Define(defined) = &tags[callee] {
        for at in 0..tags.len()
            invariant
                caller < tags.len(),
                callee < tags.len(),
                views == tag_views(tags@),
                views[callee as int] == TagView::Define(opt_chars(*defined)),
                owners@.len() == tags@.len(),
                forall|i: int|
                    0 <= i < tags@.len() ==> opt_index(#[trigger] owners@[i]) == innermost(
                        blocks_before(views, i),
                    ),
                forall|i: int|
                    0 <= i < at ==> !#[trigger] calls_at(views, i, caller as int, callee as int),
        {
            assert(views[at as int] == tags@[at as int]@);
            assert(opt_index(owners@[at as int]) == innermost(blocks_before(views, at as int)));
            let inside = match owners[at] {
                Some(owner) => owner == caller,
                None => false,
            };
            if let Tag::Call { name, .. } = &tags[at] {
                if inside && names_fit(name, defined) {
                    assert(calls_at(views, at as int, caller as int, callee as int));
                    return true;
                }
            }
        }
    }
    false
}

/// Whether a definition is among those that wait for a rank.
spec fn waits(waiting: Seq<usize>, definition: int) -> bool {
    exists|i: int| 0 <= i < waiting.len() && #[trigger] waiting[i] == definition
}

/// Whether a definition that waits may call one that waits.
spec fn calls_waiting(tags: Seq<TagView>, waiting: Seq<usize>, i: int) -> bool {
    exists|k: int|
        0 <= k < waiting.len() && may_call(tags, waiting[i] as int, #[trigger] waiting[k] as int)
}

/// Definitions each of which may call one of them cannot be ranked.
proof fn lemma_stuck(tags: Seq<TagView>, ranks: Seq<nat>, waiting: Seq<usize>, i: int)
    requires
        0 <= i < waiting.len(),
        forall|j: int| 0 <= j < waiting.len() ==> #[trigger] calls_waiting(tags, waiting, j),
    ensures
        !ranks_calls(tags, ranks),
    decreases ranks[waiting[i] as int],
{
    if ranks_calls(tags, ranks) {
        assert(calls_waiting(tags, waiting, i));
        let k = choose|k: int|
            0 <= k < waiting.len() && may_call(
                tags,
                waiting[i] as int,
                #[trigger] waiting[k] as int,
            );
        lemma_stuck(tags, ranks, waiting, k);
    }
}

/// Finds a definition that may call none of those that wait.
fn find_free(tags: &Vec<Tag>, owners: &Vec<Option<usize>>, waiting: &Vec<usize>) -> (free: Option<
    usize,
>)
    requires
        owners@.len() == tags@.len(),
        forall|at: int|
            0 <= at < tags@.len() ==> opt_index(#[trigger] owners@[at]) == innermost(
                blocks_before(tag_views(tags@), at),
            ),
        forall|i: int| 0 <= i < waiting@.len() ==> #[trigger] waiting@[i] < tags@.len(),
    ensures
        (match free {
            Some(i) => {
                &&& i < waiting@.len()
                &&& forall|k: int|
                    0 <= k < waiting@.len() ==> !may_call(
                        tag_views(tags@),
                        waiting@[i as int] as int,
                        #[trigger] waiting@[k] as int,
                    )
            },
            None => forall|j: int|
                0 <= j < waiting@.len() ==> #[trigger] calls_waiting(
                    tag_views(tags@),
                    waiting@,
                    j,
                ),
        }),
{
    let ghost views = tag_views(tags@);
    for i in 0..waiting.len()
        invariant
            views == tag_views(tags@),
            owners@.len() == tags@.len(),
            forall|at: int|
                0 <= at < tags@.len() ==> opt_index(#[trigger] owners@[at]) == innermost(
                    blocks_before(views, at),
                ),
            forall|j: int| 0 <= j < waiting@.len() ==> #[trigger] waiting@[j] < tags@.len(),
            forall|j: int| 0 <= j < i ==> #[trigger] calls_waiting(views, waiting@, j),
    {
        let mut free = true;
        for k in 0..waiting.len()
            invariant
                i < waiting.len(),
                views == tag_views(tags@),
                owners@.len() == tags@.len(),
                forall|at: int|
                    0 <= at < tags@.len() ==> opt_index(#[trigger] owners@[at]) == innermost(
                        blocks_before(views, at),
                    ),
                forall|j: int| 0 <= j < waiting@.len() ==> #[trigger] waiting@[j] < tags@.len(),
                free ==> forall|j: int|
                    0 <= j < k ==> !may_call(
                        views,
                        waiting@[i as int] as int,
                        #[trigger] waiting@[j] as int,
                    ),
                !free ==> calls_waiting(views, waiting@, i as int),
        {
            if calls_definition(tags, owners, waiting[i], waiting[k]) {
                assert(may_call(views, waiting@[i as int] as int, waiting@[k as int] as int));
                free = false;
            }
        }
        if free {
            return Some(i);
        }
    }
    None
}

/// Lists the definitions.
fn list_definitions(tags: &Vec<Tag>) -> (listed: Vec<usize>)
    ensures
        listed@.no_duplicates(),
        forall|i: int| 0 <= i < listed@.len() ==> #[trigger] listed@[i] < tags@.len(),
        forall|at: int|
            0 <= at < tags@.len() && #[trigger] tag_views(tags@)[at] is Define ==> waits(
                listed@,
                at,
            ),
{
    let ghost views = tag_views(tags@);
    let mut listed: Vec<usize> = Vec::new();
    for at in 0..tags.len()
        invariant
            views == tag_views(tags@),
            listed@.no_duplicates(),
            forall|i: int| 0 <= i < listed@.len() ==> #[trigger] listed@[i] < at,
            forall|i: int| 0 <= i < at && #[trigger] views[i] is Define ==> waits(listed@, i),
    {
        let ghost before = listed@;
        assert(views[at as int] == tags@[at as int]@);
        if let Tag::Define(_) = &tags[at] {
            listed.push(at);
            assert(listed@[before.len() as int] == at);
        }
        assert forall|i: int| 0 <= i < at + 1 && #[trigger] views[i] is Define implies waits(
            listed@,
            i,
        ) by {
            if i < at {
                let j = choose|j: int| 0 <= j < before.len() && #[trigger] before[j] == i;
                assert(listed@[j] == i);
            }
        }
    }
    listed
}

/// Tests whether calls come to an end, by taking away one definition after the other that may call
/// none of those that are left.
fn order_calls(tags: &Vec<Tag>) -> (b: bool)
    ensures
        b == calls_end(tag_views(tags@)),
{
    let ghost views = tag_views(tags@);
    let owners = find_definitions(tags);
    let mut waiting = list_definitions(tags);
    let ghost mut ranks: Seq<nat> = Seq::new(tags@.len(), |i: int| 0nat);
    let ghost mut next: nat = 1;
    proof {
        assert forall|caller: int, callee: int| #[trigger] may_call(
            views,
            caller,
            callee,
        ) implies waits(waiting@, caller) by {
            let at = choose|at: int| calls_at(views, at, caller, callee);
            lemma_blocks(views, at);
            assert(views[caller] is Define);
        }
    }
    loop
        invariant
            views == tag_views(tags@),
            owners@.len() == tags@.len(),
            forall|at: int|
                0 <= at < tags@.len() ==> opt_index(#[trigger] owners@[at]) == innermost(
                    blocks_before(views, at),
                ),
            waiting@.no_duplicates(),
            forall|i: int| 0 <= i < waiting@.len() ==> #[trigger] waiting@[i] < tags@.len(),
            ranks.len() == tags@.len(),
            forall|i: int| 0 <= i < ranks.len() ==> #[trigger] ranks[i] < next,
            forall|caller: int, callee: int| #[trigger]
                may_call(views, caller, callee) && !waits(waiting@, caller) ==> !waits(
                    waiting@,
                    callee,
                ) && ranks[callee] < ranks[caller],
        decreases waiting@.len(),
    {
        if waiting.len() == 0 {
            proof {
                assert(ranks_calls(views, ranks));
            }
            return true;
        }
        match find_free(tags, &owners, &waiting) {
            None => {
                proof {
                    assert forall|other: Seq<nat>| !#[trigger] ranks_calls(views, other) by {
                        lemma_stuck(views, other, waiting@, 0);
                    }
                }
                return false;
            },
            Some(i) => {
                let ghost before = waiting@;
                let definition: usize = waiting.remove(i);
                proof {
                    let old_ranks = ranks;
                    ranks = ranks.update(definition as int, next);
                    next = next + 1;
                    assert forall|d: int| waits(waiting@, d) implies waits(before, d) && d
                        != definition by {
                        let j = choose|j: int| 0 <= j < waiting@.len() && #[trigger] waiting@[j] == d;
                        if j < i {
                            assert(before[j] == d);
                        } else {
                            assert(before[j + 1] == d);
                        }
                    }
                    assert forall|d: int| waits(before, d) && d != definition implies waits(
                        waiting@,
                        d,
                    ) by {
                        let j = choose|j: int| 0 <= j < before.len() && #[trigger] before[j] == d;
                        if j < i {
                            assert(waiting@[j] == d);
                        } else {
                            assert(waiting@[j - 1] == d);
                        }
                    }
                    assert forall|caller: int, callee: int| #[trigger]
                        may_call(views, caller, callee) && !waits(
                            waiting@,
                            caller,
                        ) implies !waits(waiting@, callee) && ranks[callee] < ranks[caller] by {
                        if caller == definition {
                            assert(!waits(before, callee));
                            assert(ranks[callee] == old_ranks[callee]);
                        } else {
                            assert(!waits(before, caller));
                            assert(before[i as int] == definition);
                            assert(waits(before, definition as int));
                        }
                    }
                }
            },
        }
    }
}

/// Tests whether the places of tags allow a definition that calls a partial.
fn places_allow_calls(template: &Vec<char>) -> (b: bool)
    ensures
        b == calls_between(template@),
{
    let mut opened = false;
    let mut called = false;
    for at in 0..template.len()
        invariant
            opened == exists|opening: int|
                opening < at && #[trigger] opens_definition(template@, opening),
            called == exists|opening: int, call: int|
                opening < call < at && #[trigger] opens_definition(template@, opening)
                    && #[trigger] opens_call(template@, call),
            forall|opening: int, call: int, closing: int|
                opening < call < closing < at && #[trigger] opens_definition(template@, opening)
                    && #[trigger] opens_call(template@, call) ==> !#[trigger] opens_closing(
                    template@,
                    closing,
                ),
    {
        let tag = if has_tag_at(template, at) {
            read_tag(template, at)
        } else {
            Tag::Other
        };
        assert(opens_definition(template@, at as int) == (tag is Define));
        assert(opens_call(template@, at as int) == (tag is Call));
        assert(opens_closing(template@, at as int) == (tag is Close));
        match tag {
            Tag::Define(_) => {
                opened = true;
            },
            Tag::Call { .. } => {
                if opened {
                    called = true;
                }
            },
            Tag::Close => {
                if called {
                    return true;
                }
            },
            _ => {},
        }
    }
    false
}

/// Tests whether a template may call its inline partials without end.
pub fn recursion_possible(template: &str) -> (b: bool)
    ensures
        b == may_recurse(template@),
{
    let chars = char_vec(template);
    match read_tags(&chars) {
        Some(tags) => !order_calls(&tags),
        None => places_allow_calls(&chars),
    }
}

} // verus!
