use actix_axum::service::{Answer, Construction, MakeServiceToFactory, Stage, Step};

type Outcome = Option<Step<&'static str, &'static str>>;

fn started() -> Construction {
    MakeServiceToFactory::new(()).new_service().1
}

#[test]
fn factory_wraps_make_service() {
    let factory = MakeServiceToFactory::new("make");
    assert_eq!(factory.make_service, "make");
}

#[test]
fn construction_starts_on_a_clone_and_waits_for_readiness() {
    let factory = MakeServiceToFactory::new(vec![1, 2, 3]);
    let (handle, construction) = factory.new_service();
    assert_eq!(handle, vec![1, 2, 3]);
    assert_eq!(factory.make_service, vec![1, 2, 3]);
    assert_eq!(construction.current(), Stage::Readying);
}

#[test]
fn readiness_leads_to_making() {
    let mut construction = started();
    let step: Outcome = construction.advance(Answer::Ready(Ok(())));
    assert!(matches!(step, Some(Step::Make)));
    assert_eq!(construction.current(), Stage::Making);
}

#[test]
fn made_handler_is_the_result() {
    let mut construction = started();
    let _: Outcome = construction.advance(Answer::Ready(Ok(())));
    let step: Outcome = construction.advance(Answer::Made(Ok("handler")));
    assert!(matches!(step, Some(Step::Finish(Ok("handler")))));
    assert_eq!(construction.current(), Stage::Done);
}

#[test]
fn failure_to_become_ready_is_the_result() {
    let mut construction = started();
    let step: Outcome = construction.advance(Answer::Ready(Err("not ready")));
    assert!(matches!(step, Some(Step::Finish(Err("not ready")))));
    assert_eq!(construction.current(), Stage::Done);
}

#[test]
fn failure_to_make_is_the_result() {
    let mut construction = started();
    let _: Outcome = construction.advance(Answer::Ready(Ok(())));
    let step: Outcome = construction.advance(Answer::Made(Err("not made")));
    assert!(matches!(step, Some(Step::Finish(Err("not made")))));
    assert_eq!(construction.current(), Stage::Done);
}

#[test]
fn handler_before_readiness_is_refused() {
    let mut construction = started();
    let step: Outcome = construction.advance(Answer::Made(Ok("handler")));
    assert!(step.is_none());
    assert_eq!(construction.current(), Stage::Readying);
}

#[test]
fn second_readiness_is_refused() {
    let mut construction = started();
    let _: Outcome = construction.advance(Answer::Ready(Ok(())));
    let step: Outcome = construction.advance(Answer::Ready(Err("late")));
    assert!(step.is_none());
    assert_eq!(construction.current(), Stage::Making);
}

#[test]
fn nothing_is_taken_after_the_result() {
    let mut construction = started();
    let _: Outcome = construction.advance(Answer::Ready(Err("not ready")));
    let again: Outcome = construction.advance(Answer::Ready(Ok(())));
    assert!(again.is_none());
    let made: Outcome = construction.advance(Answer::Made(Ok("handler")));
    assert!(made.is_none());
    assert_eq!(construction.current(), Stage::Done);
}

#[test]
fn each_connection_gets_its_own_construction() {
    let factory = MakeServiceToFactory::new(());
    let (_, mut first) = factory.new_service();
    let (_, second) = factory.new_service();
    let _: Outcome = first.advance(Answer::Ready(Ok(())));
    assert_eq!(first.current(), Stage::Making);
    assert_eq!(second.current(), Stage::Readying);
}
