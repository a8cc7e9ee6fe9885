//! Whole validations: what the validator has found once every call that
//! it asked for has been answered.

use vstd::prelude::*;
use crate::tasks::{awaiting, task_of, PendingModel, TaskDefinitionModel, TaskModel, TaskRecordModel};
use crate::validator::{
    after_page, after_target, start, with_definition, with_descriptions, with_task_page,
    Validation,
};

verus! {

/// One page of the task listing, with the answers to the calls that the
/// page gives rise to.
pub struct Exchange {
    /// The identifiers on the page.
    pub tasks: Seq<Seq<char>>,
    /// The token of the page.
    pub next_token: Option<Seq<char>>,
    /// The descriptions of the tasks of the page. They are asked for only
    /// where the page holds an identifier.
    pub described: Option<Seq<TaskRecordModel>>,
    /// The answers on the definitions of the page's targets, in the order of
    /// the targets.
    pub definitions: Seq<Option<TaskDefinitionModel>>,
}

/// The targets of a page: the tasks described as running and taking
/// commands that tell their identifier and their definition.
pub open spec fn targets_of(exchange: Exchange) -> Seq<PendingModel> {
    if exchange.tasks.len() == 0 {
        Seq::empty()
    } else {
        match exchange.described {
            Some(records) => awaiting(records),
            None => Seq::empty(),
        }
    }
}

/// Whether each target of the page has its answer.
pub open spec fn is_answered(exchange: Exchange) -> bool {
    exchange.definitions.len() == targets_of(exchange).len()
}

/// The candidates that `pending` make with the answers on their
/// definitions: one for each target whose definition was described, in the
/// order of the targets.
pub open spec fn candidates(
    pending: Seq<PendingModel>,
    answers: Seq<Option<TaskDefinitionModel>>,
) -> Seq<TaskModel>
    decreases pending.len(),
{
    if pending.len() == 0 || answers.len() == 0 {
        Seq::empty()
    } else {
        let rest = candidates(pending.drop_first(), answers.drop_first());
        match answers[0] {
            Some(definition) => seq![task_of(pending[0].arn, definition)] + rest,
            None => rest,
        }
    }
}

/// The candidates that a page adds.
pub open spec fn yield_of(exchange: Exchange) -> Seq<TaskModel> {
    candidates(targets_of(exchange), exchange.definitions)
}

/// The candidates that the pages add, page after page.
pub open spec fn all_yields(exchanges: Seq<Exchange>) -> Seq<TaskModel>
    decreases exchanges.len(),
{
    if exchanges.len() == 0 {
        Seq::empty()
    } else {
        all_yields(exchanges.drop_last()) + yield_of(exchanges.last())
    }
}

/// The validation after the answers on definitions, taken in turn.
pub open spec fn with_definitions(
    validation: Validation,
    answers: Seq<Option<TaskDefinitionModel>>,
) -> Validation
    decreases answers.len(),
{
    if answers.len() == 0 {
        validation
    } else {
        with_definitions(with_definition(validation, answers[0]), answers.drop_first())
    }
}

/// The validation after a page and the answers that belong to it, in the
/// order in which the validator asks for them.
pub open spec fn with_exchange(validation: Validation, exchange: Exchange) -> Validation {
    let listed = with_task_page(validation, exchange.tasks, exchange.next_token);
    if exchange.tasks.len() == 0 {
        listed
    } else {
        with_definitions(with_descriptions(listed, exchange.described), exchange.definitions)
    }
}

/// The validation after the pages of `exchanges`, each with its answers.
pub open spec fn with_exchanges(validation: Validation, exchanges: Seq<Exchange>) -> Validation
    decreases exchanges.len(),
{
    if exchanges.len() == 0 {
        validation
    } else {
        with_exchange(with_exchanges(validation, exchanges.drop_last()), exchanges.last())
    }
}

/// Whether `exchanges` make one whole run: every page but the last carries
/// a token, the last carries none, and every target has its answer.
pub open spec fn is_whole_run(exchanges: Seq<Exchange>) -> bool {
    &&& exchanges.len() > 0
    &&& forall|i: int|
        0 <= i < exchanges.len() - 1 ==> (#[trigger] exchanges[i]).next_token is Some
    &&& exchanges.last().next_token is None
    &&& forall|i: int| 0 <= i < exchanges.len() ==> is_answered(#[trigger] exchanges[i])
}

/// Once each of the targets that wait has its answer, the page is done
/// with, and its candidates stand behind those found before.
pub proof fn lemma_definitions_settle(
    validation: Validation,
    pending: Seq<PendingModel>,
    answers: Seq<Option<TaskDefinitionModel>>,
)
    requires
        validation.awaited == after_target(pending, validation.last_page),
        answers.len() == pending.len(),
    ensures
        with_definitions(validation, answers) == (Validation {
            found: validation.found + candidates(pending, answers),
            awaited: after_page(validation.last_page),
            ..validation
        }),
    decreases pending.len(),
{
    if pending.len() == 0 {
        assert(validation.found + candidates(pending, answers) == validation.found);
    } else {
        let next = with_definition(validation, answers[0]);
        lemma_definitions_settle(next, pending.drop_first(), answers.drop_first());
        let rest = candidates(pending.drop_first(), answers.drop_first());
        match answers[0] {
            Some(definition) => {
                let task = task_of(pending[0].arn, definition);
                assert(validation.found.push(task) + rest == validation.found + (seq![task]
                    + rest));
            },
            None => {},
        }
    }
}

/// A page with its answers adds its candidates, in their order, behind
/// those found before, and leaves the validator waiting for the next page,
/// or for nothing after the last.
pub proof fn lemma_exchange_settles(validation: Validation, exchange: Exchange)
    requires
        validation.awaited is TaskPage,
        is_answered(exchange),
    ensures
        with_exchange(validation, exchange) == (Validation {
            found: validation.found + yield_of(exchange),
            cursor: exchange.next_token,
            last_page: exchange.next_token is None,
            awaited: after_page(exchange.next_token is None),
            ..validation
        }),
{
    let listed = with_task_page(validation, exchange.tasks, exchange.next_token);
    if exchange.tasks.len() == 0 {
        assert(validation.found + yield_of(exchange) == validation.found);
    } else {
        let described = with_descriptions(listed, exchange.described);
        lemma_definitions_settle(described, targets_of(exchange), exchange.definitions);
    }
}

/// While every page carries a token the validator goes on listing, and has
/// found the candidates of the pages so far.
pub proof fn lemma_run_goes_on(validation: Validation, exchanges: Seq<Exchange>)
    requires
        validation.awaited is TaskPage,
        forall|i: int| 0 <= i < exchanges.len() ==> (#[trigger] exchanges[i]).next_token is Some,
        forall|i: int| 0 <= i < exchanges.len() ==> is_answered(#[trigger] exchanges[i]),
    ensures
        with_exchanges(validation, exchanges).awaited is TaskPage,
        with_exchanges(validation, exchanges).found == validation.found + all_yields(exchanges),
        with_exchanges(validation, exchanges).cluster == validation.cluster,
        with_exchanges(validation, exchanges).service_name == validation.service_name,
    decreases exchanges.len(),
{
    if exchanges.len() == 0 {
        assert(validation.found + all_yields(exchanges) == validation.found);
    } else {
        let front = exchanges.drop_last();
        assert forall|i: int| 0 <= i < front.len() implies (#[trigger] front[i]).next_token
            is Some && is_answered(front[i]) by {
            assert(front[i] == exchanges[i]);
        }
        lemma_run_goes_on(validation, front);
        let so_far = with_exchanges(validation, front);
        assert(exchanges.last() == exchanges[exchanges.len() - 1]);
        lemma_exchange_settles(so_far, exchanges.last());
        assert((validation.found + all_yields(front)) + yield_of(exchanges.last())
            == validation.found + all_yields(exchanges));
    }
}

/// A whole run finds the candidates of all its pages, no more and no less,
/// page after page and within a page in the order of the descriptions, and
/// then waits for nothing.
pub proof fn lemma_whole_run_finds_all(
    cluster: Seq<char>,
    service_name: Seq<char>,
    exchanges: Seq<Exchange>,
)
    requires
        is_whole_run(exchanges),
    ensures
        with_exchanges(start(cluster, service_name), exchanges).awaited is Nothing,
        with_exchanges(start(cluster, service_name), exchanges).found == all_yields(exchanges),
{
    let begin = start(cluster, service_name);
    let front = exchanges.drop_last();
    assert forall|i: int| 0 <= i < front.len() implies (#[trigger] front[i]).next_token is Some
        && is_answered(front[i]) by {
        assert(front[i] == exchanges[i]);
    }
    lemma_run_goes_on(begin, front);
    assert(exchanges.last() == exchanges[exchanges.len() - 1]);
    lemma_exchange_settles(with_exchanges(begin, front), exchanges.last());
    assert((begin.found + all_yields(front)) + yield_of(exchanges.last()) == all_yields(
        exchanges,
    ));
}

} // verus!
