//! The items of a loop: one for each value of the counter.

use vstd::prelude::*;

use crate::config::{Config, LoopConfigView};
use crate::error::{error_fits, outcome, AgentFlowError, ErrorView, Failure};
use crate::template::{render_item_id, rendered_item_id};
use crate::text::{blank, is_blank};

verus! {

/// One round of the loop.
#[derive(Debug, PartialEq, Eq)]
pub struct LoopItem {
    pub counter: i64,
    pub item_id: String,
    pub iteration: u64,
    pub iteration_index: u64,
}

/// All rounds of the loop, in order.
#[derive(Debug, Clone, PartialEq, Eq)]
pub struct LoopPlan {
    pub items: Vec<LoopItem>,
}

/// What a [`LoopItem`] says.
pub struct LoopItemView {
    pub counter: i64,
    pub item_id: Seq<char>,
    pub iteration: u64,
    pub iteration_index: u64,
}

impl View for LoopItem {
    type V = LoopItemView;

    open spec fn view(&self) -> LoopItemView {
        LoopItemView {
            counter: self.counter,
            item_id: self.item_id@,
            iteration: self.iteration,
            iteration_index: self.iteration_index,
        }
    }
}

/// What the items of a sequence say.
pub open spec fn item_views(items: Seq<LoopItem>) -> Seq<LoopItemView> {
    items.map_values(|item: LoopItem| item@)
}

impl View for LoopPlan {
    type V = Seq<LoopItemView>;

    open spec fn view(&self) -> Seq<LoopItemView> {
        item_views(self.items@)
    }
}

impl Clone for LoopItem {
    fn clone(&self) -> (copy: Self)
        ensures
            copy == *self,
    {
        LoopItem {
            counter: self.counter,
            item_id: self.item_id.clone(),
            iteration: self.iteration,
            iteration_index: self.iteration_index,
        }
    }
}

/// The counter of the item with the given index.
pub open spec fn counter_at(loop_: LoopConfigView, index: int) -> int {
    loop_.start + index * loop_.step
}

/// An item whose identifier has been rendered: the identifier must not be blank.
pub open spec fn named_item(
    counter: i64,
    iteration_index: u64,
    item_id: Result<Seq<char>, ErrorView>,
) -> Result<LoopItemView, ErrorView> {
    match item_id {
        Err(error) => Err(error),
        Ok(id) => if is_blank(id) {
            Err(ErrorView::Loop("loop.item_id rendered an empty item id"@))
        } else {
            Ok(
                LoopItemView {
                    counter: counter,
                    item_id: id,
                    iteration: (iteration_index + 1) as u64,
                    iteration_index: iteration_index,
                },
            )
        },
    }
}

/// The item with the given counter and index.
pub open spec fn item_of(
    loop_: LoopConfigView,
    repo_root: Seq<char>,
    counter: i64,
    iteration_index: u64,
) -> Result<LoopItemView, Failure<ErrorView>> {
    if iteration_index == u64::MAX {
        Err(Failure::Told(ErrorView::Loop("iteration overflow while expanding loop"@)))
    } else {
        match rendered_item_id(
            loop_.item_id,
            counter,
            (iteration_index + 1) as u64,
            iteration_index,
            repo_root,
        ) {
            None => Err(Failure::Render),
            Some(item_id) => match named_item(counter, iteration_index, Ok(item_id)) {
                Ok(item) => Ok(item),
                Err(error) => Err(Failure::Told(error)),
            },
        }
    }
}

/// The first `n` items of a loop, or the error of the first that cannot be had. `overflow` is the
/// error of a counter that leaves its range.
pub open spec fn first_items(
    loop_: LoopConfigView,
    repo_root: Seq<char>,
    n: nat,
    overflow: Seq<char>,
) -> Result<Seq<LoopItemView>, Failure<ErrorView>>
    decreases n,
{
    if n == 0 {
        Ok(Seq::empty())
    } else {
        match first_items(loop_, repo_root, (n - 1) as nat, overflow) {
            Err(error) => Err(error),
            Ok(items) => if counter_at(loop_, n - 1) > i64::MAX {
                Err(Failure::Told(ErrorView::Loop(overflow)))
            } else {
                match item_of(
                    loop_,
                    repo_root,
                    counter_at(loop_, n - 1) as i64,
                    (n - 1) as u64,
                ) {
                    Err(error) => Err(error),
                    Ok(item) => Ok(items.push(item)),
                }
            },
        }
    }
}

/// The number of items of a loop with an inclusive end.
pub open spec fn end_count(loop_: LoopConfigView, end: i64) -> nat {
    ((end - loop_.start) / (loop_.step as int) + 1) as nat
}

/// The items of a loop that is bounded by an inclusive end. The counter after the last item has to
/// stay in range, unless the last item stands on the end itself.
pub open spec fn end_items(loop_: LoopConfigView, repo_root: Seq<char>, end: i64) -> Result<
    Seq<LoopItemView>,
    Failure<ErrorView>,
> {
    let overflow = "counter overflow while expanding end loop"@;
    let n = end_count(loop_, end);
    match first_items(loop_, repo_root, n, overflow) {
        Err(error) => Err(error),
        Ok(items) => if counter_at(loop_, n - 1) != end && counter_at(loop_, n as int) > i64::MAX {
            Err(Failure::Told(ErrorView::Loop(overflow)))
        } else {
            Ok(items)
        },
    }
}

/// The items of a loop, or why there are none.
pub open spec fn planned_items(loop_: LoopConfigView, repo_root: Seq<char>) -> Result<
    Seq<LoopItemView>,
    Failure<ErrorView>,
> {
    if loop_.step <= 0 {
        Err(Failure::Told(ErrorView::Loop("loop.step must be greater than 0"@)))
    } else {
        match (loop_.end, loop_.count) {
            (None, Some(count)) => if count == 0 {
                Err(Failure::Told(ErrorView::Loop("loop.count must be greater than 0"@)))
            } else {
                first_items(
                    loop_,
                    repo_root,
                    count as nat,
                    "counter overflow while expanding count loop"@,
                )
            },
            (Some(end), None) => if end < loop_.start {
                Err(
                    Failure::Told(
                        ErrorView::Loop("loop.end must be greater than or equal to loop.start"@),
                    ),
                )
            } else {
                end_items(loop_, repo_root, end)
            },
            _ => Err(
                Failure::Told(
                    ErrorView::Loop("exactly one of loop.end or loop.count must be set"@),
                ),
            ),
        }
    }
}

/// Whether a result holds the planned items, or an error that their failure allows.
pub open spec fn plan_fits(
    result: Result<LoopPlan, AgentFlowError>,
    planned: Result<Seq<LoopItemView>, Failure<ErrorView>>,
) -> bool {
    match (result, planned) {
        (Ok(plan), Ok(items)) => plan@ == items,
        (Err(error), Err(failure)) => error_fits(error@, failure),
        _ => false,
    }
}

/// An error among the first items is the error of every longer loop.
proof fn lemma_first_items_error(
    loop_: LoopConfigView,
    repo_root: Seq<char>,
    m: nat,
    n: nat,
    overflow: Seq<char>,
)
    requires
        m <= n,
        first_items(loop_, repo_root, m, overflow) is Err,
    ensures
        first_items(loop_, repo_root, n, overflow) == first_items(loop_, repo_root, m, overflow),
    decreases n,
{
    if m < n {
        lemma_first_items_error(loop_, repo_root, m, (n - 1) as nat, overflow);
    }
}

/// Checks a rendered identifier, and gives it to the item with the given counter and index.
pub fn name_item(
    counter: i64,
    iteration_index: u64,
    rendered: Result<String, AgentFlowError>,
) -> (result: Result<LoopItem, AgentFlowError>)
    requires
        iteration_index < u64::MAX,
    ensures
        outcome(result) == named_item(counter, iteration_index, outcome(rendered)),
{
    match rendered {
        Err(error) => Err(error),
        Ok(item_id) => {
            if blank(item_id.as_str()) {
                return Err(
                    AgentFlowError::Loop("loop.item_id rendered an empty item id".to_owned()),
                );
            }
            Ok(LoopItem { counter, item_id, iteration: iteration_index + 1, iteration_index })
        },
    }
}

/// Makes the item with the given counter and index.
pub fn build_item(
    config: &Config,
    repo_root: &str,
    counter: i64,
    iteration_index: u64,
) -> (result: Result<LoopItem, AgentFlowError>)
    ensures
        (match (result, item_of(config@.loop_, repo_root@, counter, iteration_index)) {
            (Ok(item), Ok(planned)) => item@ == planned,
            (Err(error), Err(failure)) => error_fits(error@, failure),
            _ => false,
        }),
{
    if iteration_index == u64::MAX {
        return Err(AgentFlowError::Loop("iteration overflow while expanding loop".to_owned()));
    }
    let rendered = render_item_id(
        config.loop_.item_id.as_str(),
        counter,
        iteration_index + 1,
        iteration_index,
        repo_root,
    );
    name_item(counter, iteration_index, rendered)
}

fn count_plan(config: &Config, repo_root: &str, count: u64) -> (result: Result<
    LoopPlan,
    AgentFlowError,
>)
    requires
        config.loop_.step > 0,
        count > 0,
    ensures
        plan_fits(
            result,
            first_items(
                config@.loop_,
                repo_root@,
                count as nat,
                "counter overflow while expanding count loop"@,
            ),
        ),
{
    let ghost overflow = "counter overflow while expanding count loop"@;
    let ghost loop_ = config@.loop_;
    let mut items: Vec<LoopItem> = Vec::new();
    assert(item_views(items@) =~= Seq::empty());
    let mut counter: i64 = config.loop_.start;
    let mut index: u64 = 0;
    while index < count
        invariant
            config.loop_.step > 0,
            loop_ == config@.loop_,
            overflow == "counter overflow while expanding count loop"@,
            index <= count,
            index < count ==> counter == counter_at(loop_, index as int),
            first_items(loop_, repo_root@, index as nat, overflow) == Ok::<
                Seq<LoopItemView>,
                Failure<ErrorView>,
            >(item_views(items@)),
        decreases count - index,
    {
        let ghost before = items@;
        match build_item(config, repo_root, counter, index) {
            Ok(item) => {
                items.push(item);
                assert(item_views(items@) =~= item_views(before).push(item@));
            },
            Err(error) => {
                proof {
                    lemma_first_items_error(
                        loop_,
                        repo_root@,
                        (index + 1) as nat,
                        count as nat,
                        overflow,
                    );
                }
                return Err(error);
            },
        }
        index = index + 1;
        if index < count {
            proof {
                lemma_next_counter(loop_, index - 1);
            }
            match counter.checked_add(config.loop_.step) {
                Some(next) => {
                    counter = next;
                },
                None => {
                    proof {
                        lemma_first_items_error(
                            loop_,
                            repo_root@,
                            (index + 1) as nat,
                            count as nat,
                            overflow,
                        );
                    }
                    return Err(
                        AgentFlowError::Loop(
                            "counter overflow while expanding count loop".to_owned(),
                        ),
                    );
                },
            }
        }
    }
    Ok(LoopPlan { items })
}

/// One step more on the counter.
proof fn lemma_next_counter(loop_: LoopConfigView, index: int)
    ensures
        counter_at(loop_, index + 1) == counter_at(loop_, index) + loop_.step,
{
    assert((index + 1) * loop_.step == index * loop_.step + loop_.step) by (nonlinear_arith);
}

/// The counter does not fall from one item to a later one.
proof fn lemma_counter_rises(loop_: LoopConfigView, i: int, j: int)
    requires
        loop_.step > 0,
        i < j,
    ensures
        counter_at(loop_, i) < counter_at(loop_, j),
{
    assert(i * loop_.step < j * loop_.step) by (nonlinear_arith)
        requires
            loop_.step > 0,
            i < j,
    ;
}

/// The last counter of a loop with an inclusive end does not pass the end, and the next one would.
pub proof fn lemma_end_count(loop_: LoopConfigView, end: i64)
    requires
        loop_.step > 0,
        loop_.start <= end,
    ensures
        end_count(loop_, end) >= 1,
        counter_at(loop_, end_count(loop_, end) - 1) <= end,
        end < counter_at(loop_, end_count(loop_, end) as int),
{
    let d = end - loop_.start;
    let s = loop_.step as int;
    assert(0 <= d / s && (d / s) * s <= d && d < (d / s + 1) * s) by (nonlinear_arith)
        requires
            d >= 0,
            s > 0,
    ;
}

fn end_plan(config: &Config, repo_root: &str, end: i64) -> (result: Result<
    LoopPlan,
    AgentFlowError,
>)
    requires
        config.loop_.step > 0,
        config.loop_.start <= end,
    ensures
        plan_fits(result, end_items(config@.loop_, repo_root@, end)),
{
    let ghost overflow = "counter overflow while expanding end loop"@;
    let ghost loop_ = config@.loop_;
    let ghost n = end_count(loop_, end);
    let mut items: Vec<LoopItem> = Vec::new();
    assert(item_views(items@) =~= Seq::empty());
    let mut counter: i64 = config.loop_.start;
    let mut index: u64 = 0;
    proof {
        lemma_end_count(loop_, end);
        assert(counter_at(loop_, 0) == loop_.start);
    }
    while counter <= end
        invariant
            config.loop_.step > 0,
            loop_ == config@.loop_,
            overflow == "counter overflow while expanding end loop"@,
            n == end_count(loop_, end),
            n >= 1,
            counter_at(loop_, n - 1) <= end,
            end < counter_at(loop_, n as int),
            counter == counter_at(loop_, index as int),
            index <= n,
            first_items(loop_, repo_root@, index as nat, overflow) == Ok::<
                Seq<LoopItemView>,
                Failure<ErrorView>,
            >(item_views(items@)),
        decreases n - index,
    {
        let ghost before = items@;
        assert(index < n);
        match build_item(config, repo_root, counter, index) {
            Ok(item) => {
                items.push(item);
                assert(item_views(items@) =~= item_views(before).push(item@));
            },
            Err(error) => {
                proof {
                    lemma_first_items_error(loop_, repo_root@, (index + 1) as nat, n, overflow);
                }
                return Err(error);
            },
        }
        proof {
            lemma_next_counter(loop_, index as int);
            if index + 1 < n {
                lemma_counter_rises(loop_, index as int, n - 1);
                if index + 1 < n - 1 {
                    lemma_counter_rises(loop_, index + 1, n - 1);
                }
            }
        }
        if counter == end {
            return Ok(LoopPlan { items });
        }
        index = index + 1;
        match counter.checked_add(config.loop_.step) {
            Some(next) => {
                counter = next;
            },
            None => {
                return Err(
                    AgentFlowError::Loop("counter overflow while expanding end loop".to_owned()),
                );
            },
        }
    }
    proof {
        if index < n - 1 {
            lemma_counter_rises(loop_, index as int, n - 1);
        }
    }
    Ok(LoopPlan { items })
}

/// Expands the loop of a configuration into its items.
pub fn build_loop_plan(config: &Config, repo_root: &str) -> (result: Result<
    LoopPlan,
    AgentFlowError,
>)
    ensures
        plan_fits(result, planned_items(config@.loop_, repo_root@)),
{
    if config.loop_.step <= 0 {
        return Err(AgentFlowError::Loop("loop.step must be greater than 0".to_owned()));
    }
    match (config.loop_.end, config.loop_.count) {
        (None, Some(count)) => {
            if count == 0 {
                return Err(AgentFlowError::Loop("loop.count must be greater than 0".to_owned()));
            }
            count_plan(config, repo_root, count)
        },
        (Some(end), None) => {
            if end < config.loop_.start {
                return Err(
                    AgentFlowError::Loop(
                        "loop.end must be greater than or equal to loop.start".to_owned(),
                    ),
                );
            }
            end_plan(config, repo_root, end)
        },
        _ => Err(
            AgentFlowError::Loop("exactly one of loop.end or loop.count must be set".to_owned()),
        ),
    }
}

} // verus!
