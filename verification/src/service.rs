//! The factory bridge and the handler construction protocol.
//!
//! For every connection the factory bridge builds one handler from a
//! make-service: it waits until the make-service is ready, has it make the
//! handler, and waits for the handler. Waiting is the caller's business. The
//! bridge decides what comes next from what the make-service answered, and
//! [`Construction::advance`] is that decision.

use vstd::prelude::*;

verus! {

/// Marker of the make-service abstraction, which is closed: nothing
/// outside the adapter is meant to implement it. `T` is the pair of the
/// target that a make-service is called with and the request that its
/// handlers take.
pub trait Sealed<T> {
}

/// How far the construction of a handler has come.
#[derive(Debug, Clone, Copy, PartialEq, Eq, Structural)]
pub enum Stage {
    /// Waiting for the make-service to become ready.
    Readying,
    /// Waiting for the handler that the make-service is making.
    Making,
    /// The construction has given its result.
    Done,
}

/// What the make-service answered to the step that was awaited.
pub enum Answer<S, E> {
    /// The outcome of waiting for readiness.
    Ready(Result<(), E>),
    /// The outcome of making the handler.
    Made(Result<S, E>),
}

/// What the caller does after an answer.
pub enum Step<S, E> {
    /// Have the make-service make the handler, and wait for it.
    Make,
    /// Give this result to the connection model.
    Finish(Result<S, E>),
}

/// Whether `answer` is the one that a construction in `stage` waits for.
pub open spec fn accepts<S, E>(stage: Stage, answer: Answer<S, E>) -> bool {
    ||| stage is Readying && answer is Ready
    ||| stage is Making && answer is Made
}

/// The stage that follows `stage` on `answer`, and the step to take. An
/// answer that the stage does not wait for changes nothing and asks for
/// nothing.
pub open spec fn advanced<S, E>(stage: Stage, answer: Answer<S, E>) -> (Stage, Option<Step<S, E>>) {
    match (stage, answer) {
        (Stage::Readying, Answer::Ready(Ok(_))) => (Stage::Making, Some(Step::Make)),
        (Stage::Readying, Answer::Ready(Err(error))) => (Stage::Done, Some(Step::Finish(Err(error)))),
        (Stage::Making, Answer::Made(made)) => (Stage::Done, Some(Step::Finish(made))),
        _ => (stage, None),
    }
}

/// A handler factory presented to the connection model as a service
/// factory.
pub struct MakeServiceToFactory<M> {
    pub make_service: M,
}

impl<M> MakeServiceToFactory<M> {
    /// Wraps a handler factory.
    pub fn new(make_service: M) -> (factory: Self)
        ensures
            factory.make_service == make_service,
    {
        Self { make_service }
    }
}

impl<M: Clone> MakeServiceToFactory<M> {
    /// Starts the construction of a handler for a new connection, on a
    /// handle of its own to the make-service.
    pub fn new_service(&self) -> (started: (M, Construction))
        ensures
            cloned(self.make_service, started.0),
            started.1.stage() == Stage::Readying,
    {
        (self.make_service.clone(), Construction { stage: Stage::Readying })
    }
}

/// The construction of one handler.
pub struct Construction {
    stage: Stage,
}

impl Construction {
    /// The stage that the construction is in.
    pub closed spec fn stage(&self) -> Stage {
        self.stage
    }

    /// The stage that the construction is in.
    pub fn current(&self) -> (stage: Stage)
        ensures
            stage == self.stage(),
    {
        self.stage
    }

    /// Takes an answer of the make-service and says what to do next.
    ///
    /// Readiness leads to making the handler; the handler, once made,
    /// is the result; an error at either point is the result at once. An
    /// answer that the construction does not wait for is refused with
    /// `None` and changes nothing.
    pub fn advance<S, E>(&mut self, answer: Answer<S, E>) -> (step: Option<Step<S, E>>)
        ensures
            (final(self).stage(), step) == advanced(old(self).stage(), answer),
            step is Some <==> accepts(old(self).stage(), answer),
    {
        match (self.stage, answer) {
            (Stage::Readying, Answer::Ready(Ok(_))) => {
                self.stage = Stage::Making;
                Some(Step::Make)
            },
            (Stage::Readying, Answer::Ready(Err(error))) => {
                self.stage = Stage::Done;
                Some(Step::Finish(Err(error)))
            },
            (Stage::Making, Answer::Made(made)) => {
                self.stage = Stage::Done;
                Some(Step::Finish(made))
            },
            _ => None,
        }
    }
}

/// The stage that a new construction is in after it has taken `answers`
/// one after the other.
pub open spec fn stage_after<S, E>(answers: Seq<Answer<S, E>>) -> Stage
    decreases answers.len(),
{
    if answers.len() == 0 {
        Stage::Readying
    } else {
        advanced(stage_after(answers.drop_last()), answers.last()).0
    }
}

/// The result that a new construction has given once it has taken
/// `answers` one after the other, if it has given one.
pub open spec fn result_after<S, E>(answers: Seq<Answer<S, E>>) -> Option<Result<S, E>>
    decreases answers.len(),
{
    if answers.len() == 0 {
        None
    } else {
        match advanced(stage_after(answers.drop_last()), answers.last()).1 {
            Some(Step::Finish(result)) => Some(result),
            _ => result_after(answers.drop_last()),
        }
    }
}

/// The error that an answer carries, if it carries one.
pub open spec fn failure<S, E>(answer: Answer<S, E>) -> Option<E> {
    match answer {
        Answer::Ready(Err(error)) => Some(error),
        Answer::Made(Err(error)) => Some(error),
        _ => None,
    }
}

/// The answer says that the make-service is ready.
pub open spec fn says_ready<S, E>(answer: Answer<S, E>) -> bool {
    answer matches Answer::Ready(Ok(_))
}

/// The answer says that the make-service made `service`.
pub open spec fn says_made<S, E>(answer: Answer<S, E>, service: S) -> bool {
    answer == Answer::<S, E>::Made(Ok(service))
}

/// The step is to give `result` to the connection model.
pub open spec fn finishes_with<S, E>(step: Option<Step<S, E>>, result: Result<S, E>) -> bool {
    step == Some(Step::Finish(result))
}

/// In the run `answers`, the construction was told at `i`, while it
/// waited for readiness, that the make-service was ready, and at `j`,
/// while it waited for the handler, that `service` was made.
pub open spec fn succeeded_at<S, E>(answers: Seq<Answer<S, E>>, i: int, j: int, service: S) -> bool {
    &&& 0 <= i < j < answers.len()
    &&& stage_after(answers.take(i)) is Readying
    &&& says_ready(answers[i])
    &&& stage_after(answers.take(j)) is Making
    &&& says_made(answers[j], service)
}

/// An error that the make-service answers with, when the construction
/// waits for that answer, is the result of the construction at once; a
/// handler is the result only when the make-service made it while the
/// construction waited for it, and the construction waits for it only
/// after it was told that the make-service was ready.
pub proof fn lemma_step_reports_failure<S, E>(stage: Stage, answer: Answer<S, E>)
    ensures
        accepts(stage, answer) && failure(answer) is Some ==> advanced(stage, answer).0 is Done
            && finishes_with(advanced(stage, answer).1, Err(failure(answer)->0)),
        forall|service: S| #[trigger]
            finishes_with(advanced(stage, answer).1, Ok(service)) ==> stage is Making && says_made(
                answer,
                service,
            ),
        advanced(stage, answer).0 is Making ==> stage is Making || (stage is Readying && says_ready(
            answer,
        )),
{
}

/// Once a construction has given its result it takes no further answer,
/// so it gives one result at most.
pub proof fn lemma_done_is_final<S, E>(answers: Seq<Answer<S, E>>, more: Seq<Answer<S, E>>)
    requires
        stage_after(answers) is Done,
    ensures
        stage_after(answers + more) is Done,
        result_after(answers + more) == result_after(answers),
    decreases more.len(),
{
    if more.len() == 0 {
        assert(answers + more == answers);
    } else {
        assert((answers + more).drop_last() == answers + more.drop_last());
        lemma_done_is_final(answers, more.drop_last());
    }
}

/// A construction has given a result exactly when it is done.
pub proof fn lemma_result_iff_done<S, E>(answers: Seq<Answer<S, E>>)
    ensures
        result_after(answers) is Some <==> stage_after(answers) is Done,
    decreases answers.len(),
{
    if answers.len() > 0 {
        lemma_result_iff_done(answers.drop_last());
    }
}

/// A construction that waits for the handler was told, at some point
/// when it waited for readiness, that the make-service was ready.
proof fn lemma_making_after_ready<S, E>(answers: Seq<Answer<S, E>>) -> (i: int)
    requires
        stage_after(answers) is Making,
    ensures
        0 <= i < answers.len(),
        stage_after(answers.take(i)) is Readying,
        says_ready(answers[i]),
    decreases answers.len(),
{
    let shorter = answers.drop_last();
    let last = answers.len() - 1;
    assert(answers.take(last) == shorter);
    if stage_after(shorter) is Readying {
        last
    } else {
        let i = lemma_making_after_ready(shorter);
        assert(answers.take(i) == shorter.take(i));
        i
    }
}

/// Whatever the make-service answers and in whatever order the answers are
/// handed in: a construction that ends with a handler was told that the
/// make-service was ready and, later, that it made this handler. A
/// failure to become ready or to make the handler never ends in a handler.
pub proof fn lemma_handler_only_after_success<S, E>(answers: Seq<Answer<S, E>>, service: S)
    requires
        result_after(answers) == Some(Ok::<S, E>(service)),
    ensures
        exists|i: int, j: int| succeeded_at(answers, i, j, service),
    decreases answers.len(),
{
    let shorter = answers.drop_last();
    let last = answers.len() - 1;
    assert(answers.take(last) == shorter);
    if advanced(stage_after(shorter), answers.last()).1 is Some && advanced(
        stage_after(shorter),
        answers.last(),
    ).1->0 is Finish {
        let i = lemma_making_after_ready(shorter);
        assert(answers.take(i) == shorter.take(i));
        assert(succeeded_at(answers, i, last, service));
    } else {
        lemma_handler_only_after_success(shorter, service);
        let (i, j) = choose|i: int, j: int| succeeded_at(shorter, i, j, service);
        assert(answers.take(i) == shorter.take(i));
        assert(answers.take(j) == shorter.take(j));
        assert(succeeded_at(answers, i, j, service));
    }
}

} // verus!
