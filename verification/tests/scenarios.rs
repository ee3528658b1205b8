use rumbledome::scenarios::{
    convert_scenario_command, EngineCommand, ScenarioCommand, ScenarioRunner, SuccessCondition, TestScenario,
};

#[test]
fn idle_scenario_definition() {
    let s = TestScenario::idle_test();
    assert_eq!(s.name, "Idle Test");
    assert_eq!(s.duration, 30);
    assert_eq!(s.events.len(), 2);
    assert_eq!(s.events[1].time_ms, 5000);
    assert_eq!(s.events[1].command, ScenarioCommand::SetRpm(800));
    match &s.success_criteria[1].condition {
        SuccessCondition::BoostPressureRange(lo, hi) => {
            assert_eq!(f32::from_bits(*lo), -1.0);
            assert_eq!(f32::from_bits(*hi), 1.0);
        }
        _ => panic!(),
    }
    match &s.success_criteria[0].condition {
        SuccessCondition::SystemState(state) => assert_eq!(state, "Idle"),
        _ => panic!(),
    }
}

#[test]
fn other_scenario_definitions() {
    let wot = TestScenario::wot_run();
    assert_eq!(wot.events.len(), 6);
    assert_eq!(wot.events[2].command, ScenarioCommand::SetThrottle(100.0f32.to_bits()));
    assert_eq!(wot.success_criteria[1].time_range, (6000, 10000));
    let ob = TestScenario::overboost_test();
    assert_eq!(ob.events[2].command, ScenarioCommand::ForceOverboost);
    let cal = TestScenario::calibration_test();
    assert_eq!(cal.duration, 45);
    assert_eq!(cal.events.len(), 8);
    assert_eq!(cal.events[0].command, ScenarioCommand::StartCalibration { rpm: 4000, boost_bits: 8.0f32.to_bits() });
    let tq = TestScenario::torque_cooperation_test();
    assert_eq!(tq.events[2].command, ScenarioCommand::ApplyTorqueLimit(300.0f32.to_bits()));
    let pr = TestScenario::profile_switching_test();
    assert_eq!(pr.events.len(), 10);
    assert_eq!(pr.events[4].command, ScenarioCommand::SwitchProfile("aggressive".to_string()));
    assert_eq!(pr.success_criteria.len(), 3);
}

#[test]
fn runner_dispatches_due_events_in_order() {
    let wot = TestScenario::wot_run();
    let mut runner = ScenarioRunner::new();
    assert_eq!(runner.update_scenario(&wot, 1000), vec![EngineCommand::ResetToIdle]);
    assert_eq!(runner.start_time, Some(1000));
    assert_eq!(runner.update_scenario(&wot, 3500), vec![EngineCommand::SetRpm(2500)]);
    assert_eq!(runner.update_scenario(&wot, 3600), vec![]);
    assert_eq!(
        runner.update_scenario(&wot, 20000),
        vec![
            EngineCommand::SetThrottle(100.0f32.to_bits()),
            EngineCommand::SetRpm(4000),
            EngineCommand::SetRpm(6000),
            EngineCommand::SetThrottle(0),
        ]
    );
    assert_eq!(runner.current_event, 6);
    assert_eq!(runner.executed_events.len(), 6);
    assert_eq!(runner.update_scenario(&wot, 30000), vec![]);
    runner.reset();
    assert_eq!(runner.current_event, 0);
    assert!(runner.executed_events.is_empty());
    assert_eq!(runner.start_time, None);
}

#[test]
fn simulation_loop_commands_give_no_engine_command() {
    let pr = TestScenario::profile_switching_test();
    let mut runner = ScenarioRunner::default();
    assert_eq!(runner.update_scenario(&pr, 0), vec![]);
    assert_eq!(runner.executed_events.len(), 1);
    assert_eq!(convert_scenario_command(&ScenarioCommand::Wait(5)), None);
    assert_eq!(convert_scenario_command(&ScenarioCommand::SimulateKnock), Some(EngineCommand::SimulateKnock));
}
