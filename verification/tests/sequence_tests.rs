use noise_sensor::sequence::ColorStep;
use noise_sensor::status::DeviceStatus;

#[test]
fn nominal_sequence_is_green_pulse() {
    let sq = DeviceStatus::Nominal.light_sequence();
    assert_eq!(sq, vec![ColorStep::new(0, 255, 0, 500), ColorStep::new(0, 0, 0, 500)]);
}

#[test]
fn connectivity_fault_sequence_is_fast_red_blink() {
    let sq = DeviceStatus::ConnectivityFault.light_sequence();
    assert_eq!(sq, vec![ColorStep::new(255, 0, 0, 200), ColorStep::new(0, 0, 0, 100)]);
}

#[test]
fn telemetry_fault_sequence_is_magenta_pulse() {
    let sq = DeviceStatus::TelemetryFault.light_sequence();
    assert_eq!(sq, vec![ColorStep::new(255, 0, 255, 100), ColorStep::new(0, 0, 0, 300)]);
}

#[test]
fn sequences_are_nonempty_and_deterministic() {
    let variants = [
        DeviceStatus::Nominal,
        DeviceStatus::ConnectivityFault,
        DeviceStatus::TelemetryFault,
    ];
    for v in variants {
        let first = v.light_sequence();
        let second = v.light_sequence();
        assert!(!first.is_empty());
        assert_eq!(first, second);
    }
}

#[test]
fn color_step_new_stores_all_fields() {
    let step = ColorStep::new(10, 20, 30, 400);
    assert_eq!(step.red, 10);
    assert_eq!(step.green, 20);
    assert_eq!(step.blue, 30);
    assert_eq!(step.duration, 400);
}

#[test]
fn grb_frame_reorders_to_wire_order() {
    let step = ColorStep::new(10, 20, 30, 400);
    assert_eq!(step.grb_frame(), vec![20, 10, 30]);
}
