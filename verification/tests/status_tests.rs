use noise_sensor::status::DeviceStatus;
use noise_sensor::status::HealthCell;

#[test]
fn encoding_round_trips_for_every_variant() {
    let variants = [
        DeviceStatus::Nominal,
        DeviceStatus::ConnectivityFault,
        DeviceStatus::TelemetryFault,
    ];
    for v in variants {
        let raw = v.encoding();
        assert_eq!(DeviceStatus::try_from(raw), Ok(v));
    }
}

#[test]
fn decode_maps_each_valid_byte() {
    assert_eq!(DeviceStatus::try_from(0), Ok(DeviceStatus::Nominal));
    assert_eq!(DeviceStatus::try_from(1), Ok(DeviceStatus::ConnectivityFault));
    assert_eq!(DeviceStatus::try_from(2), Ok(DeviceStatus::TelemetryFault));
}

#[test]
fn decode_rejects_out_of_range_bytes() {
    assert!(DeviceStatus::try_from(3).is_err());
    assert!(DeviceStatus::try_from(7).is_err());
    assert!(DeviceStatus::try_from(255).is_err());
}

#[test]
fn health_cell_starts_nominal() {
    let cell = HealthCell::new();
    assert_eq!(cell.raw(), 0);
    assert_eq!(cell.get(DeviceStatus::TelemetryFault), DeviceStatus::Nominal);
}

#[test]
fn health_cell_set_overwrites() {
    let mut cell = HealthCell::new();
    cell.set(DeviceStatus::ConnectivityFault);
    assert_eq!(cell.raw(), 1);
    assert_eq!(cell.get(DeviceStatus::Nominal), DeviceStatus::ConnectivityFault);
    cell.set(DeviceStatus::TelemetryFault);
    assert_eq!(cell.get(DeviceStatus::Nominal), DeviceStatus::TelemetryFault);
}

#[test]
fn demonstration_cycle_visits_all_variants_in_order() {
    let a = DeviceStatus::Nominal.next_in_cycle();
    assert_eq!(a, DeviceStatus::ConnectivityFault);
    let b = a.next_in_cycle();
    assert_eq!(b, DeviceStatus::TelemetryFault);
    let c = b.next_in_cycle();
    assert_eq!(c, DeviceStatus::Nominal);
}
