use vstd::prelude::*;

verus! {

/// A step of the loading pipeline that completed successfully.
#[derive(Debug, Clone, Copy, PartialEq, Eq, Structural)]
pub enum Stage {
    Discover,
    Ingest,
    Verify,
    Resolve,
    RequestAuthority,
    RecordAuthority,
    Bind,
    Handoff,
}

/// The steps that must complete, in this order, before a handoff:
/// DISCOVER, INGEST, VERIFY, RESOLVE, AUTHORIZE (request, then Hacetime's
/// grant), BIND.
pub open spec fn pipeline_order() -> Seq<Stage> {
    seq![
        Stage::Discover,
        Stage::Ingest,
        Stage::Verify,
        Stage::Resolve,
        Stage::RequestAuthority,
        Stage::RecordAuthority,
        Stage::Bind,
    ]
}

/// The first `k` steps of the pipeline.
pub open spec fn completed_through(k: int) -> Seq<Stage> {
    pipeline_order().take(k)
}

/// `steps` occur in `log` in this order, not necessarily next to each other.
pub open spec fn contains_in_order(log: Seq<Stage>, steps: Seq<Stage>) -> bool
    decreases log.len(),
{
    if steps.len() == 0 {
        true
    } else if log.len() == 0 {
        false
    } else if log.last() == steps.last() {
        contains_in_order(log.drop_last(), steps.drop_last())
    } else {
        contains_in_order(log.drop_last(), steps)
    }
}

/// Dropping the last of the steps keeps them in order.
proof fn lemma_drop_last_step(log: Seq<Stage>, steps: Seq<Stage>)
    requires
        steps.len() > 0,
        contains_in_order(log, steps),
    ensures
        contains_in_order(log, steps.drop_last()),
    decreases log.len(),
{
    if log.len() > 0 {
        let rest = log.drop_last();
        let fewer = steps.drop_last();
        if log.last() == steps.last() {
            if fewer.len() > 0 {
                lemma_drop_last_step(rest, fewer);
            }
        } else {
            lemma_drop_last_step(rest, steps);
            if fewer.len() > 0 && log.last() == fewer.last() {
                lemma_drop_last_step(rest, fewer);
            }
        }
    }
}

/// Steps found in order in a log stay in order when the log grows.
pub proof fn lemma_push_keeps_order(log: Seq<Stage>, x: Stage)
    ensures
        forall|steps: Seq<Stage>| #[trigger]
            contains_in_order(log, steps) ==> contains_in_order(log.push(x), steps),
{
    assert forall|steps: Seq<Stage>| #[trigger] contains_in_order(log, steps) implies contains_in_order(
        log.push(x),
        steps,
    ) by {
        assert(log.push(x).drop_last() =~= log);
        if steps.len() > 0 && x == steps.last() {
            lemma_drop_last_step(log, steps);
        }
    }
}

/// Completing the next step of the pipeline extends the completed prefix.
pub proof fn lemma_next_step(log: Seq<Stage>, k: int)
    requires
        0 <= k < 7,
        contains_in_order(log, completed_through(k)),
    ensures
        contains_in_order(log.push(pipeline_order()[k]), completed_through(k + 1)),
        forall|steps: Seq<Stage>| #[trigger]
            contains_in_order(log, steps) ==> contains_in_order(log.push(pipeline_order()[k]), steps),
{
    let x = pipeline_order()[k];
    lemma_push_keeps_order(log, x);
    assert(log.push(x).drop_last() =~= log);
    assert(completed_through(k + 1).drop_last() =~= completed_through(k));
    assert(completed_through(k + 1).last() == x);
}

/// The whole pipeline is its own longest prefix.
pub proof fn lemma_completed_pipeline()
    ensures
        completed_through(7) == pipeline_order(),
{
    assert(completed_through(7) =~= pipeline_order());
}

} // verus!
