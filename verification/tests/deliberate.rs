use model_bridge::client::Failure;
use model_bridge::deliberate::{ask_deliberate, PLANNING_SYSTEM};

#[test]
fn planning_request_is_private_notes() {
    let (_, plan) = ask_deliberate("be exact", "make a torus", 2);
    assert_eq!(plan.system, PLANNING_SYSTEM);
    assert_eq!(
        plan.system,
        "You are an expert Blender engineer. Think privately and write short bullet notes about the best approach. Do NOT include code or backticks. Keep under 150 words."
    );
    assert_eq!(plan.user, "make a torus");
    let (_, other) = ask_deliberate("another system", "make a torus", 9);
    assert_eq!(other.system, plan.system);
    assert_eq!(other.user, plan.user);
}

#[test]
fn notes_are_carried_into_the_final_request() {
    let (planning, _) = ask_deliberate("be exact", "make a torus", 2);
    let (pausing, secs) = planning.planned(Ok("- use a primitive".to_string()), None);
    assert_eq!(secs, 2);
    let (answering, last) = pausing.rested();
    assert_eq!(
        last.system,
        "be exact\n\nInternal planning notes (use for quality, do not echo):\n- use a primitive"
    );
    assert_eq!(last.user, "make a torus");
    assert_eq!(answering.answered(Ok("code".to_string())), Ok("code".to_string()));
}

#[test]
fn pause_is_handed_out_after_every_planning_outcome() {
    let outcomes = vec![
        Ok("notes".to_string()),
        Ok(String::new()),
        Err(Failure::Timeout),
        Err(Failure::Connection),
        Err(Failure::Status),
        Err(Failure::Undecodable),
        Err(Failure::Other),
    ];
    for o in outcomes {
        let (planning, _) = ask_deliberate("s", "u", 5);
        let (_, secs) = planning.planned(o, None);
        assert_eq!(secs, 5);
    }
}

#[test]
fn pause_setting_overrides_the_callers_seconds() {
    let (planning, _) = ask_deliberate("s", "u", 2);
    let (_, secs) = planning.planned(Err(Failure::Timeout), Some(9));
    assert_eq!(secs, 9);
    let (planning, _) = ask_deliberate("s", "u", 2);
    let (_, secs) = planning.planned(Ok("n".to_string()), Some(0));
    assert_eq!(secs, 0);
}

#[test]
fn failed_planning_leaves_empty_notes() {
    let (planning, _) = ask_deliberate("sys", "usr", 2);
    let (pausing, secs) = planning.planned(Err(Failure::Connection), None);
    assert_eq!(secs, 2);
    let (answering, last) = pausing.rested();
    assert_eq!(last.system, "sys\n\nInternal planning notes (use for quality, do not echo):\n");
    assert_eq!(last.user, "usr");
    assert_eq!(answering.answered(Ok("fine".to_string())), Ok("fine".to_string()));
}

#[test]
fn result_is_the_final_outcome() {
    let (planning, _) = ask_deliberate("sys", "usr", 2);
    let (pausing, _) = planning.planned(Ok("good notes".to_string()), None);
    let (answering, _) = pausing.rested();
    assert_eq!(answering.answered(Err(Failure::Timeout)), Err(Failure::Timeout));
    let (planning, _) = ask_deliberate("sys", "usr", 2);
    let (pausing, _) = planning.planned(Err(Failure::Timeout), None);
    let (answering, _) = pausing.rested();
    assert_eq!(answering.answered(Ok(String::new())), Ok(String::new()));
}
