use noise_sensor::indicator::Indicator;
use noise_sensor::sequence::ColorStep;
use noise_sensor::status::DeviceStatus;

fn nominal() -> Vec<ColorStep> {
    DeviceStatus::Nominal.light_sequence()
}

fn connectivity_fault() -> Vec<ColorStep> {
    DeviceStatus::ConnectivityFault.light_sequence()
}

fn telemetry_fault() -> Vec<ColorStep> {
    DeviceStatus::TelemetryFault.light_sequence()
}

#[test]
fn nothing_is_displayed_before_the_first_valid_status() {
    let mut ind = Indicator::new();
    assert_eq!(ind.tick(9), None);
    assert_eq!(ind.tick(255), None);
}

#[test]
fn steady_status_replays_its_sequence_exactly() {
    let mut ind = Indicator::new();
    let pattern = nominal();
    // Held steady for three full periods, the observed steps are exactly the
    // pattern repeated.
    for cycle in 0..3 {
        for (i, step) in pattern.iter().enumerate() {
            let lit = ind.tick(0);
            assert_eq!(lit, Some(*step), "cycle {cycle}, step {i}");
        }
    }
}

#[test]
fn transition_is_applied_at_the_next_step_boundary() {
    let mut ind = Indicator::new();
    assert_eq!(ind.tick(1), Some(connectivity_fault()[0]));
    // The status flips between boundaries; the running step is unaffected and
    // the new pattern starts at the very next boundary, from its first step.
    assert_eq!(ind.tick(0), Some(nominal()[0]));
    assert_eq!(ind.tick(0), Some(nominal()[1]));
    assert_eq!(ind.tick(0), Some(nominal()[0]));
}

#[test]
fn out_of_range_status_keeps_the_previous_sequence() {
    let mut ind = Indicator::new();
    assert_eq!(ind.tick(1), Some(connectivity_fault()[0]));
    // An undecodable byte neither resets to the Nominal pattern nor stalls:
    // the connectivity-fault pattern keeps replaying.
    assert_eq!(ind.tick(9), Some(connectivity_fault()[1]));
    assert_eq!(ind.tick(200), Some(connectivity_fault()[0]));
    assert_eq!(ind.tick(3), Some(connectivity_fault()[1]));
    // Once the byte decodes again, the same status does not restart the
    // pattern.
    assert_eq!(ind.tick(1), Some(connectivity_fault()[0]));
}

#[test]
fn scripted_status_writes_show_each_pattern_without_flicker() {
    // ConnectivityFault, then Nominal, then TelemetryFault, each held for at
    // least one full period: the observed steps show each pattern in turn and
    // never a step of an unrequested pattern.
    let mut ind = Indicator::new();
    let mut observed: Vec<ColorStep> = Vec::new();
    for _ in 0..4 {
        observed.push(ind.tick(1).unwrap());
    }
    for _ in 0..4 {
        observed.push(ind.tick(0).unwrap());
    }
    for _ in 0..4 {
        observed.push(ind.tick(2).unwrap());
    }
    let cf = connectivity_fault();
    let nom = nominal();
    let tf = telemetry_fault();
    let expected = vec![
        cf[0], cf[1], cf[0], cf[1], nom[0], nom[1], nom[0], nom[1], tf[0], tf[1], tf[0], tf[1],
    ];
    assert_eq!(observed, expected);
}
