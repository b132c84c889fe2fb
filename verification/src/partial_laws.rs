//! How the tags of a template are read, and when its inline partials may call themselves.

use vstd::prelude::*;

use crate::partials::{
    after_space, blocks_before, call_of, calls_at, calls_between, calls_end, comment_end,
    first_place, holds_at, innermost, is_name_char, is_tag_space, may_be, may_call, may_recurse,
    name_end, next_tag, opens_call, opens_closing, opens_definition, opens_tag, quote_end,
    quoted_at, ranks_calls, tag_end, tag_inside, tag_of, tags_from, TagView, Within,
};
use crate::text::occurs_at;

verus! {

/// Blank space is skipped up to the first character that is none, or to the end.
pub proof fn blank_space_is_skipped(template: Seq<char>, at: int)
    requires
        0 <= at <= template.len(),
    ensures
        ({
            let next = after_space(template, at);
            &&& at <= next <= template.len()
            &&& forall|i: int| at <= i < next ==> is_tag_space(#[trigger] template[i])
            &&& next < template.len() ==> !is_tag_space(template[next])
        }),
    decreases template.len() - at,
{
    if at < template.len() && is_tag_space(template[at]) {
        blank_space_is_skipped(template, at + 1);
    }
}

/// What is blank space, what can stand in a name, and where a tag opens.
pub proof fn characters_have_their_place(template: Seq<char>, at: int, c: char)
    ensures
        is_tag_space(c) <==> c == ' ' || c == '\t' || c == '\n' || c == '\r',
        is_name_char(c) <==> '0' <= c <= '9' || 'a' <= c <= 'z' || 'A' <= c <= 'Z' || c == '-' || c
            == '_' || c == '@' || c == '/' || c == '.' || c as int >= 128,
        holds_at(template, at, c) <==> 0 <= at < template.len() && template[at] == c,
        opens_tag(template, at) <==> 0 <= at && at + 1 < template.len() && template[at] == '{'
            && template[at + 1] == '{',
        tag_inside(template, at) == (if holds_at(template, after_space(template, at + 2), '~') {
            after_space(template, after_space(template, at + 2) + 1)
        } else {
            after_space(template, at + 2)
        }),
{
}

/// Where there are no backslashes, the next tag is the first place at which two braces open.
pub proof fn tags_open_with_two_braces(template: Seq<char>, at: int)
    requires
        0 <= at <= template.len(),
        forall|i: int| at <= i < template.len() ==> #[trigger] template[i] != '\\',
    ensures
        ({
            let next = next_tag(template, at, 0);
            &&& at <= next <= template.len()
            &&& next < template.len() ==> opens_tag(template, next)
            &&& forall|i: int| at <= i < next ==> !#[trigger] opens_tag(template, i)
        }),
    decreases template.len() - at,
{
    if at < template.len() && !opens_tag(template, at) {
        assert(template[at] != '\\');
        tags_open_with_two_braces(template, at + 1);
    }
}

/// Backslashes are counted. A tag behind exactly one is text, with a second pair of braces that
/// follows at once; a tag behind none or behind more is a tag.
pub proof fn single_backslashes_make_tags_text(template: Seq<char>, at: int, slashes: int)
    requires
        0 <= at < template.len(),
    ensures
        opens_tag(template, at) && slashes != 1 ==> next_tag(template, at, slashes) == at,
        opens_tag(template, at) && slashes == 1 && opens_tag(template, at + 2) ==> next_tag(
            template,
            at,
            slashes,
        ) == next_tag(template, at + 4, 0),
        opens_tag(template, at) && slashes == 1 && !opens_tag(template, at + 2) ==> next_tag(
            template,
            at,
            slashes,
        ) == next_tag(template, at + 2, 0),
        !opens_tag(template, at) && template[at] == '\\' ==> next_tag(template, at, slashes)
            == next_tag(template, at + 1, slashes + 1),
        !opens_tag(template, at) && template[at] != '\\' ==> next_tag(template, at, slashes)
            == next_tag(template, at + 1, 0),
        next_tag(template, template.len() as int, slashes) == template.len(),
{
}

/// Whether a character has no meaning of its own within a tag.
pub open spec fn is_ordinary(c: char) -> bool {
    c != '{' && c != '}' && c != '"' && c != '\'' && c != '[' && c != '\\'
}

/// A tag ends with the first two braces that close it.
pub proof fn tags_end_with_two_braces(template: Seq<char>, at: int, end: int)
    requires
        0 <= at <= end,
        end + 1 < template.len(),
        forall|i: int| at <= i < end ==> is_ordinary(#[trigger] template[i]),
        template[end] == '}',
        template[end + 1] == '}',
    ensures
        tag_end(template, at, 0, Within::Plain) == Some(end + 2),
    decreases end - at,
{
    if at < end {
        assert(is_ordinary(template[at]));
        tags_end_with_two_braces(template, at + 1, end);
    }
}

/// A tag without an end has none: neither where the template ends, nor where a single brace closes it,
/// nor where a backslash stands in it.
pub proof fn open_tags_have_no_end(template: Seq<char>, at: int, depth: int, within: Within)
    ensures
        tag_end(template, template.len() as int, depth, within) is None,
        holds_at(template, at, '}') && !holds_at(template, at + 1, '}') ==> tag_end(
            template,
            at,
            0,
            Within::Plain,
        ) is None,
        holds_at(template, at, '\\') ==> tag_end(template, at, depth, Within::Plain) is None
            && tag_end(template, at, depth, Within::Single) is None && tag_end(
            template,
            at,
            depth,
            Within::Brackets,
        ) is None,
{
}

/// Braces within a tag are counted, and an ordinary character is passed over.
pub proof fn braces_are_counted(template: Seq<char>, at: int, depth: int)
    requires
        0 <= at < template.len(),
    ensures
        template[at] == '{' ==> tag_end(template, at, depth, Within::Plain) == tag_end(
            template,
            at + 1,
            depth + 1,
            Within::Plain,
        ),
        template[at] == '}' && depth > 0 ==> tag_end(template, at, depth, Within::Plain) == tag_end(
            template,
            at + 1,
            depth - 1,
            Within::Plain,
        ),
        is_ordinary(template[at]) ==> tag_end(template, at, depth, Within::Plain) == tag_end(
            template,
            at + 1,
            depth,
            Within::Plain,
        ),
{
}

proof fn lemma_quoted(template: Seq<char>, at: int, end: int, depth: int)
    requires
        0 <= at <= end < template.len(),
    ensures
        template[end] == '"' && (forall|i: int|
            at <= i < end ==> #[trigger] template[i] != '"' && template[i] != '\\') ==> tag_end(
            template,
            at,
            depth,
            Within::Double,
        ) == tag_end(template, end + 1, depth, Within::Plain),
        template[end] == '\'' && (forall|i: int|
            at <= i < end ==> #[trigger] template[i] != '\'' && template[i] != '\\') ==> tag_end(
            template,
            at,
            depth,
            Within::Single,
        ) == tag_end(template, end + 1, depth, Within::Plain),
        template[end] == ']' && (forall|i: int|
            at <= i < end ==> #[trigger] template[i] != ']' && is_ordinary(template[i]))
            ==> tag_end(template, at, depth, Within::Brackets) == tag_end(
            template,
            end + 1,
            depth,
            Within::Plain,
        ),
    decreases end - at,
{
    if at < end {
        lemma_quoted(template, at + 1, end, depth);
    }
}

/// What stands between quotes or brackets does not end a tag: the tag goes on behind them. Between
/// double quotes a backslash takes the character behind it along. Brackets that hold anything with a
/// meaning of its own leave the end unknown.
pub proof fn quoted_parts_are_passed_over(template: Seq<char>, at: int, end: int, depth: int)
    requires
        0 <= at < end < template.len(),
    ensures
        template[at] == '"' && template[end] == '"' && (forall|i: int|
            at < i < end ==> #[trigger] template[i] != '"' && template[i] != '\\') ==> tag_end(
            template,
            at,
            depth,
            Within::Plain,
        ) == tag_end(template, end + 1, depth, Within::Plain),
        template[at] == '\'' && template[end] == '\'' && (forall|i: int|
            at < i < end ==> #[trigger] template[i] != '\'' && template[i] != '\\') ==> tag_end(
            template,
            at,
            depth,
            Within::Plain,
        ) == tag_end(template, end + 1, depth, Within::Plain),
        template[at] == '[' && template[end] == ']' && (forall|i: int|
            at < i < end ==> #[trigger] template[i] != ']' && is_ordinary(template[i]))
            ==> tag_end(template, at, depth, Within::Plain) == tag_end(
            template,
            end + 1,
            depth,
            Within::Plain,
        ),
        template[at] == '\\' ==> tag_end(template, at, depth, Within::Double) == tag_end(
            template,
            at + 2,
            depth,
            Within::Double,
        ),
        template[at] == '"' || template[at] == '\'' || template[at] == '{' || template[at] == '}'
            ==> tag_end(template, at, depth, Within::Brackets) is None,
{
    lemma_quoted(template, at + 1, end, depth);
}

/// A text is found at its first place from a position on, and nowhere exactly where it has none.
pub proof fn texts_are_found_at_their_first_place(template: Seq<char>, part: Seq<char>, from: int)
    requires
        0 <= from,
        part.len() > 0,
    ensures
        match first_place(template, part, from) {
            Some(place) => from <= place && occurs_at(template, part, place) && forall|i: int|
                from <= i < place ==> !#[trigger] occurs_at(template, part, i),
            None => forall|i: int| from <= i ==> !#[trigger] occurs_at(template, part, i),
        },
    decreases template.len() - from,
{
    if from < template.len() && !occurs_at(template, part, from) {
        texts_are_found_at_their_first_place(template, part, from + 1);
    }
}

/// A comment that begins with two dashes ends with two dashes and two braces, where those follow;
/// every other comment ends with the first two braces.
pub proof fn comments_end_with_braces(template: Seq<char>, at: int)
    ensures
        ({
            let dashes = after_space(template, at);
            let long = first_place(template, "--}}"@, dashes + 2);
            let short = first_place(template, "}}"@, at);
            &&& occurs_at(template, "--"@, dashes) && long is Some ==> comment_end(template, at)
                == Some(long->0 + 4)
            &&& !(occurs_at(template, "--"@, dashes) && long is Some) && short is Some
                ==> comment_end(template, at) == Some(short->0 + 2)
            &&& !(occurs_at(template, "--"@, dashes) && long is Some) && short is None
                ==> comment_end(template, at) is None
        }),
{
}

/// A name goes on up to the first character that cannot stand in one.
pub proof fn names_go_on_to_their_end(template: Seq<char>, at: int)
    requires
        0 <= at <= template.len(),
    ensures
        ({
            let end = name_end(template, at);
            &&& at <= end <= template.len()
            &&& forall|i: int| at <= i < end ==> is_name_char(#[trigger] template[i])
            &&& end < template.len() ==> !is_name_char(template[end])
        }),
    decreases template.len() - at,
{
    if at < template.len() && is_name_char(template[at]) {
        names_go_on_to_their_end(template, at + 1);
    }
}

/// A call names its partial where a name is written out and ends within the tag. The block that a
/// partial is given is no call.
pub proof fn calls_name_their_partial(template: Seq<char>, at: int, block: bool)
    ensures
        ({
            let start = after_space(template, at);
            let end = name_end(template, start);
            let named = start < end < template.len() && (is_tag_space(template[end])
                || template[end] == '}' || template[end] == '~');
            let name = template.subrange(start, end);
            &&& !named ==> call_of(template, at, block) == (TagView::Call { name: None, block })
            &&& named && name != "@partial-block"@ ==> call_of(template, at, block) == (
            TagView::Call { name: Some(name), block })
            &&& named && name == "@partial-block"@ && block ==> call_of(template, at, block) is Open
            &&& named && name == "@partial-block"@ && !block ==> call_of(template, at, block)
                is Other
        }),
{
}

proof fn lemma_quote_end(template: Seq<char>, at: int, quote: char)
    requires
        0 <= at,
        quote != '\\',
    ensures
        match quote_end(template, at, quote) {
            Some(end) => at <= end < template.len() && template[end] == quote && forall|i: int|
                at <= i < end ==> #[trigger] template[i] != quote && template[i] != '\\',
            None => forall|end: int|
                at <= end < template.len() && #[trigger] template[end] == quote ==> exists|i: int|
                    at <= i < end && #[trigger] template[i] == '\\',
        },
    decreases template.len() - at,
{
    if at < template.len() && template[at] != '\\' && template[at] != quote {
        lemma_quote_end(template, at + 1, quote);
    }
}

/// A quoted text goes from its quote to the next one of the same kind, unless a backslash comes
/// before that.
pub proof fn quoted_texts_lie_between_quotes(template: Seq<char>, at: int, end: int)
    requires
        0 <= at < end < template.len(),
        template[at] == '"' || template[at] == '\'',
        template[end] == template[at],
        forall|i: int| at < i < end ==> #[trigger] template[i] != template[at],
    ensures
        (forall|i: int| at < i < end ==> #[trigger] template[i] != '\\') ==> quoted_at(template, at)
            == Some(template.subrange(at + 1, end)),
        (exists|i: int| at < i < end && #[trigger] template[i] == '\\') ==> quoted_at(
            template,
            at,
        ) is None,
{
    lemma_quote_end(template, at + 1, template[at]);
    if let Some(found) = quote_end(template, at + 1, template[at]) {
        assert(template[found] == template[at]);
        if found > end {
            assert(template[end] != template[at]);
        }
        assert(found == end);
    }
}

/// What is no quote quotes nothing.
pub proof fn only_quotes_quote(template: Seq<char>, at: int)
    requires
        !holds_at(template, at, '"'),
        !holds_at(template, at, '\''),
    ensures
        quoted_at(template, at) is None,
{
}

/// A tag is what its first mark says: a call, the end of a block, a block that calls a partial, a
/// definition with its name, another block, or something else.
pub proof fn tags_are_what_their_mark_says(template: Seq<char>, at: int)
    ensures
        ({
            let inside = tag_inside(template, at);
            let mark = after_space(template, inside + 1);
            let word = after_space(template, mark + 1);
            let tag = tag_of(template, at);
            &&& holds_at(template, inside, '>') ==> tag == call_of(template, inside + 1, false)
            &&& holds_at(template, inside, '/') ==> tag is Close
            &&& holds_at(template, inside, '#') ==> {
                &&& holds_at(template, mark, '>') ==> tag == call_of(template, mark + 1, true)
                &&& holds_at(template, mark, '*') && occurs_at(template, "inline"@, word) ==> tag
                    == TagView::Define(quoted_at(template, after_space(template, word + 6)))
                &&& !holds_at(template, mark, '>') && !(holds_at(template, mark, '*') && occurs_at(
                    template,
                    "inline"@,
                    word,
                )) ==> tag is Open
            }
            &&& !holds_at(template, inside, '>') && !holds_at(template, inside, '/') && !holds_at(
                template,
                inside,
                '#',
            ) ==> tag is Other
            &&& opens_definition(template, at) <==> opens_tag(template, at) && tag is Define
            &&& opens_call(template, at) <==> opens_tag(template, at) && tag is Call
            &&& opens_closing(template, at) <==> opens_tag(template, at) && tag is Close
        }),
{
}

/// The tags of a template are listed in order, without its comments. They are not listed where a tag
/// or a comment has no known end, or where raw text opens with four braces.
pub proof fn tags_are_listed_in_order(template: Seq<char>, at: int, seen: Seq<TagView>)
    requires
        0 <= at <= template.len(),
    ensures
        ({
            let open = next_tag(template, at, 0);
            let rest = tags_from(template, at, seen);
            let comment = comment_end(template, open + 3);
            let end = tag_end(template, open + 2, 0, Within::Plain);
            &&& open >= template.len() ==> rest == Some(seen)
            &&& open < template.len() && opens_tag(template, open + 2) ==> rest is None
            &&& open < template.len() && !opens_tag(template, open + 2) && holds_at(
                template,
                open + 2,
                '!',
            ) ==> rest == (if comment is Some {
                tags_from(template, comment->0, seen)
            } else {
                None
            })
            &&& open < template.len() && !opens_tag(template, open + 2) && !holds_at(
                template,
                open + 2,
                '!',
            ) ==> rest == (if end is Some {
                tags_from(template, end->0, seen.push(tag_of(template, open)))
            } else {
                None
            })
        }),
{
}

/// The blocks that are open before each tag: a definition opens one of its own, another block stands
/// in the same definition as what is around it, and the end of a block closes the nearest.
pub proof fn blocks_open_and_close(tags: Seq<TagView>, at: int)
    requires
        0 <= at < tags.len(),
    ensures
        ({
            let before = blocks_before(tags, at);
            let after = blocks_before(tags, at + 1);
            let around = if before.len() == 0 {
                None
            } else {
                before[before.len() - 1]
            };
            &&& blocks_before(tags, 0).len() == 0
            &&& innermost(before) == around
            &&& tags[at] is Define ==> after == before.push(Some(at))
            &&& tags[at] is Open ==> after == before.push(around)
            &&& tags[at] matches TagView::Call { block, .. } ==> (if block {
                after == before.push(around)
            } else {
                after == before
            })
            &&& tags[at] is Close && before.len() > 0 ==> after == before.take(before.len() - 1)
            &&& tags[at] is Close && before.len() == 0 ==> after == before
            &&& tags[at] is Other ==> after == before
        }),
{
    let before = blocks_before(tags, at);
    if before.len() > 0 {
        assert(before.drop_last() =~= before.take(before.len() - 1));
    }
}

/// A definition may call another exactly where a call stands in its body, and not in a definition
/// within it, that names the other or may name it.
pub proof fn definitions_call_what_their_bodies_name(
    tags: Seq<TagView>,
    at: int,
    caller: int,
    callee: int,
)
    requires
        0 <= at < tags.len(),
        0 <= caller < tags.len(),
        0 <= callee < tags.len(),
    ensures
        innermost(blocks_before(tags, at)) == Some(caller) && tags[at] is Call && tags[callee]
            is Define && (tags[at]->Call_name is None || tags[callee]->Define_0 is None
            || tags[at]->Call_name == tags[callee]->Define_0) ==> may_call(tags, caller, callee),
        may_call(tags, caller, callee) ==> exists|place: int| #[trigger]
            calls_at(tags, place, caller, callee) && 0 <= place < tags.len() && innermost(
                blocks_before(tags, place),
            ) == Some(caller) && tags[place] is Call && tags[callee] is Define && may_be(
                tags[place]->Call_name,
                tags[callee]->Define_0,
            ),
        may_be(tags[at]->Call_name, tags[callee]->Define_0) <==> tags[at]->Call_name is None
            || tags[callee]->Define_0 is None || tags[at]->Call_name == tags[callee]->Define_0,
{
    if innermost(blocks_before(tags, at)) == Some(caller) && tags[at] is Call && tags[callee] is Define
        && may_be(tags[at]->Call_name, tags[callee]->Define_0) {
        assert(calls_at(tags, at, caller, callee));
    }
}

/// An order of definitions is one in which every definition that may be called has a lower rank than
/// the one that may call it.
pub proof fn callers_stand_behind_what_they_call(tags: Seq<TagView>, ranks: Seq<nat>)
    ensures
        ranks_calls(tags, ranks) <==> ranks.len() == tags.len() && forall|caller: int, callee: int|
            #[trigger] may_call(tags, caller, callee) ==> ranks[callee] < ranks[caller],
{
}

/// A template whose tags can be listed is refused exactly where its definitions cannot be put in an
/// order in which each calls only earlier ones; a definition that may call itself is one reason.
/// Another template is refused exactly where a definition, a call and the end of a block follow each
/// other in it.
pub proof fn templates_that_call_themselves_are_refused(
    template: Seq<char>,
    tags: Seq<TagView>,
    definition: int,
)
    ensures
        tags_from(template, 0, Seq::empty()) == Some(tags) ==> (may_recurse(template)
            <==> !calls_end(tags)),
        calls_end(tags) <==> exists|ranks: Seq<nat>| #[trigger] ranks_calls(tags, ranks),
        may_call(tags, definition, definition) ==> !calls_end(tags),
        tags_from(template, 0, Seq::empty()) is None ==> (may_recurse(template) <==> calls_between(
            template,
        )),
        calls_between(template) <==> exists|opening: int, call: int, closing: int|
            opening < call < closing && #[trigger] opens_definition(template, opening)
                && #[trigger] opens_call(template, call) && #[trigger] opens_closing(
                template,
                closing,
            ),
{
}

} // verus!
