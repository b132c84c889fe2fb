//! Which loops can be planned.

use vstd::prelude::*;

use crate::config::LoopConfigView;
use crate::error::{ErrorView, Failure};
use crate::laws::plans_hold_the_items_of_the_loop;
use crate::loop_spec::{
    counter_at, end_count, first_items, item_of, lemma_end_count, named_item, planned_items, LoopItemView,
};
use crate::template::rendered_item_id;
use crate::text::is_blank;

verus! {

/// Whether the round with the given index has an identifier: the template renders for its counter, its
/// iteration and its index, to a text that is not blank.
pub open spec fn has_identifier(loop_: LoopConfigView, repo_root: Seq<char>, i: int) -> bool {
    rendered_item_id(
        loop_.item_id,
        (loop_.start + i * loop_.step) as i64,
        (i + 1) as u64,
        i as u64,
        repo_root,
    ) matches Some(id) && !is_blank(id)
}

/// Whether the round with the given index can be had: its counter and its iteration are in range, and
/// it has an identifier.
pub open spec fn round_can_be_had(loop_: LoopConfigView, repo_root: Seq<char>, i: int) -> bool {
    &&& loop_.start + i * loop_.step <= i64::MAX
    &&& i < u64::MAX
    &&& has_identifier(loop_, repo_root, i)
}

/// Whether the first `n` rounds can be had.
pub open spec fn rounds_can_be_had(loop_: LoopConfigView, repo_root: Seq<char>, n: int) -> bool {
    forall|i: int| 0 <= i < n ==> #[trigger] round_can_be_had(loop_, repo_root, i)
}

proof fn lemma_first_items(loop_: LoopConfigView, repo_root: Seq<char>, n: nat, overflow: Seq<char>)
    ensures
        first_items(loop_, repo_root, n, overflow) is Ok <==> rounds_can_be_had(
            loop_,
            repo_root,
            n as int,
        ),
    decreases n,
{
    if n > 0 {
        let last = n - 1;
        lemma_first_items(loop_, repo_root, last as nat, overflow);
        if rounds_can_be_had(loop_, repo_root, last) && round_can_be_had(loop_, repo_root, last) {
            assert forall|i: int| 0 <= i < n implies #[trigger] round_can_be_had(
                loop_,
                repo_root,
                i,
            ) by {
                if i == last {
                }
            }
        }
        if rounds_can_be_had(loop_, repo_root, n as int) {
            assert(round_can_be_had(loop_, repo_root, last));
        }
        if last > u64::MAX {
            assert(!round_can_be_had(loop_, repo_root, u64::MAX as int));
        } else if last < u64::MAX {
            let index = last as u64;
            assert(index as int == last);
            assert(item_of(loop_, repo_root, counter_at(loop_, last) as i64, index) is Ok
                <==> has_identifier(loop_, repo_root, last));
        }
    }
}

/// A loop can be planned exactly where it has one bound that lets it run and all its rounds can be
/// had. A loop with an end takes every counter up to the end, which the last need not stand on; then
/// the counter behind it must be in range.
pub proof fn sound_loops_are_planned(loop_: LoopConfigView, repo_root: Seq<char>)
    ensures
        planned_items(loop_, repo_root) is Ok <==> loop_.step > 0 && match (loop_.end, loop_.count) {
            (None, Some(count)) => count > 0 && rounds_can_be_had(loop_, repo_root, count as int),
            (Some(end), None) => {
                let rounds = (end - loop_.start) / (loop_.step as int) + 1;
                &&& loop_.start <= end
                &&& rounds_can_be_had(loop_, repo_root, rounds)
                &&& loop_.start + (rounds - 1) * loop_.step == end || loop_.start + rounds
                    * loop_.step <= i64::MAX
            },
            _ => false,
        },
{
    if loop_.step > 0 {
        match (loop_.end, loop_.count) {
            (None, Some(count)) => {
                lemma_first_items(
                    loop_,
                    repo_root,
                    count as nat,
                    "counter overflow while expanding count loop"@,
                );
            },
            (Some(end), None) => {
                if loop_.start <= end {
                    lemma_end_count(loop_, end);
                    lemma_first_items(
                        loop_,
                        repo_root,
                        end_count(loop_, end),
                        "counter overflow while expanding end loop"@,
                    );
                }
            },
            _ => {},
        }
    }
}

/// A loop whose end leaves room for one more step is planned where every counter up to the end gives
/// an identifier, whether or not a counter stands on the end.
pub proof fn every_counter_up_to_the_end_suffices(
    loop_: LoopConfigView,
    repo_root: Seq<char>,
    end: i64,
)
    requires
        loop_.step > 0,
        loop_.end == Some(end),
        loop_.count is None,
        loop_.start <= end,
        end - loop_.start < u64::MAX,
        end + loop_.step <= i64::MAX,
        forall|i: int|
            0 <= i && loop_.start + i * loop_.step <= end ==> #[trigger] has_identifier(
                loop_,
                repo_root,
                i,
            ),
    ensures
        planned_items(loop_, repo_root) is Ok,
{
    sound_loops_are_planned(loop_, repo_root);
    let d = end - loop_.start;
    let s = loop_.step as int;
    let rounds = d / s + 1;
    assert((d / s) * s <= d && d / s <= d && (d / s + 1) * s <= d + s) by (nonlinear_arith)
        requires
            d >= 0,
            s > 0,
    ;
    assert forall|i: int| 0 <= i < rounds implies #[trigger] round_can_be_had(
        loop_,
        repo_root,
        i,
    ) by {
        assert(i * s <= (d / s) * s) by (nonlinear_arith)
            requires
                i <= d / s,
                s > 0,
        ;
    }
}

/// A loop with a count is planned where its last counter is in range and every round has an
/// identifier.
pub proof fn every_counted_round_suffices(loop_: LoopConfigView, repo_root: Seq<char>, count: u64)
    requires
        loop_.step > 0,
        loop_.end is None,
        loop_.count == Some(count),
        count > 0,
        loop_.start + (count - 1) * loop_.step <= i64::MAX,
        forall|i: int| 0 <= i < count ==> #[trigger] has_identifier(loop_, repo_root, i),
    ensures
        planned_items(loop_, repo_root) is Ok,
{
    sound_loops_are_planned(loop_, repo_root);
    let s = loop_.step as int;
    assert forall|i: int| 0 <= i < count implies #[trigger] round_can_be_had(
        loop_,
        repo_root,
        i,
    ) by {
        assert(i * s <= (count - 1) * s) by (nonlinear_arith)
            requires
                i <= count - 1,
                s > 0,
        ;
    }
}

/// A loop that cannot be planned is refused for what is wrong with it: the step, the bounds, or else a
/// round that cannot be had.
pub proof fn unsound_loops_are_told_apart(loop_: LoopConfigView, repo_root: Seq<char>)
    ensures
        loop_.step <= 0 ==> planned_items(loop_, repo_root) == Err::<
            Seq<LoopItemView>,
            Failure<ErrorView>,
        >(Failure::Told(ErrorView::Loop("loop.step must be greater than 0"@))),
        loop_.step > 0 && (loop_.end is Some) == (loop_.count is Some) ==> planned_items(
            loop_,
            repo_root,
        ) == Err::<Seq<LoopItemView>, Failure<ErrorView>>(
            Failure::Told(ErrorView::Loop("exactly one of loop.end or loop.count must be set"@)),
        ),
        loop_.step > 0 && loop_.end is None && loop_.count == Some(0u64) ==> planned_items(
            loop_,
            repo_root,
        ) == Err::<Seq<LoopItemView>, Failure<ErrorView>>(
            Failure::Told(ErrorView::Loop("loop.count must be greater than 0"@)),
        ),
        loop_.step > 0 && loop_.count is None && loop_.end is Some && loop_.end->0 < loop_.start
            ==> planned_items(loop_, repo_root) == Err::<Seq<LoopItemView>, Failure<ErrorView>>(
            Failure::Told(
                ErrorView::Loop("loop.end must be greater than or equal to loop.start"@),
            ),
        ),
{
}

/// An identifier makes an item with the next iteration, unless it is blank; an error stays.
pub proof fn identifiers_name_items(counter: i64, iteration_index: u64, id: Seq<char>, error: ErrorView)
    requires
        iteration_index < u64::MAX,
    ensures
        is_blank(id) ==> named_item(counter, iteration_index, Ok(id)) == Err::<
            LoopItemView,
            ErrorView,
        >(ErrorView::Loop("loop.item_id rendered an empty item id"@)),
        !is_blank(id) ==> (named_item(counter, iteration_index, Ok(id)) matches Ok(item)
            && item.counter == counter && item.item_id == id && item.iteration == iteration_index + 1
            && item.iteration_index == iteration_index),
        named_item(counter, iteration_index, Err(error)) == Err::<LoopItemView, ErrorView>(error),
{
}

/// A plan holds one item for every counter of its loop: as many as the count says, or exactly those
/// that do not pass the end. Each item has the counter that lies as many steps behind the start as
/// there are items before it, and counts its iterations from one.
pub proof fn plans_hold_every_counter(loop_: LoopConfigView, repo_root: Seq<char>, k: int)
    requires
        planned_items(loop_, repo_root) is Ok,
        k >= 0,
    ensures
        ({
            let items = planned_items(loop_, repo_root)->Ok_0;
            &&& loop_.count matches Some(count) ==> items.len() == count
            &&& loop_.end matches Some(end) ==> (k < items.len() <==> loop_.start + k * loop_.step
                <= end)
            &&& k < items.len() ==> {
                &&& items[k].counter == loop_.start + k * loop_.step
                &&& items[k].iteration == k + 1
                &&& items[k].iteration_index == k
                &&& !is_blank(items[k].item_id)
                &&& rendered_item_id(
                    loop_.item_id,
                    items[k].counter,
                    items[k].iteration,
                    items[k].iteration_index,
                    repo_root,
                ) == Some(items[k].item_id)
            }
        }),
{
    plans_hold_the_items_of_the_loop(loop_, repo_root);
    let items = planned_items(loop_, repo_root)->Ok_0;
    let n = items.len() as int;
    let s = loop_.step as int;
    if k < n {
        assert(items[k].counter == loop_.start + k * s);
        assert(items[n - 1].counter == loop_.start + (n - 1) * s);
        assert(k * s <= (n - 1) * s) by (nonlinear_arith)
            requires
                k <= n - 1,
                s > 0,
        ;
    } else {
        assert(k * s >= n * s) by (nonlinear_arith)
            requires
                k >= n,
                s > 0,
        ;
    }
}

/// An item is made where its iteration can be counted and its identifier renders and is not blank.
pub proof fn items_are_made_one_by_one(
    loop_: LoopConfigView,
    repo_root: Seq<char>,
    counter: i64,
    iteration_index: u64,
)
    ensures
        iteration_index == u64::MAX ==> item_of(loop_, repo_root, counter, iteration_index) == Err::<
            LoopItemView,
            Failure<ErrorView>,
        >(Failure::Told(ErrorView::Loop("iteration overflow while expanding loop"@))),
        iteration_index < u64::MAX ==> ({
            let made = item_of(loop_, repo_root, counter, iteration_index);
            match rendered_item_id(
                loop_.item_id,
                counter,
                (iteration_index + 1) as u64,
                iteration_index,
                repo_root,
            ) {
                None => made == Err::<LoopItemView, Failure<ErrorView>>(Failure::Render),
                Some(id) => {
                    &&& is_blank(id) ==> made == Err::<LoopItemView, Failure<ErrorView>>(
                        Failure::Told(
                            ErrorView::Loop("loop.item_id rendered an empty item id"@),
                        ),
                    )
                    &&& !is_blank(id) ==> made == Ok::<LoopItemView, Failure<ErrorView>>(
                        LoopItemView {
                            counter,
                            item_id: id,
                            iteration: (iteration_index + 1) as u64,
                            iteration_index,
                        },
                    )
                },
            }
        }),
{
}

} // verus!
