use drone_flight_controller::accel::{AccelAndCompas, Veci32};

#[test]
fn new_sensor_reads_zero() {
    let mut s = AccelAndCompas::new();
    assert_eq!(s.get_accel_data(None), Veci32 { x: 0, y: 0, z: 0 });
    assert_eq!(s.get_mag_data(None), Veci32 { x: 0, y: 0, z: 0 });
    assert_eq!(s.total_acceleration(None), 0);
}

#[test]
fn total_acceleration_is_squared_sum() {
    let mut s = AccelAndCompas::new();
    let t = s.total_acceleration(Some(Veci32 { x: 3, y: -4, z: 12 }));
    assert_eq!(t, 169);
    // 1 g straight down, in milli-g
    let t = s.total_acceleration(Some(Veci32 { x: 0, y: 0, z: 1000 }));
    assert_eq!(t, 1_000_000);
    let t = s.total_acceleration(Some(Veci32 { x: -16000, y: 16000, z: 16000 }));
    assert_eq!(t, 768_000_000);
}

#[test]
fn stale_reading_keeps_last_sample() {
    let mut s = AccelAndCompas::new();
    let v = Veci32 { x: 10, y: 20, z: -30 };
    assert_eq!(s.get_accel_data(Some(v)), v);
    assert_eq!(s.get_accel_data(None), v);
    assert_eq!(s.total_acceleration(None), 1400);
    assert_eq!(s.get_mag_data(None), Veci32 { x: 0, y: 0, z: 0 });
}

#[test]
fn mag_and_accel_are_separate() {
    let mut s = AccelAndCompas::new();
    let m = Veci32 { x: -200, y: 150, z: 400 };
    assert_eq!(s.get_mag_data(Some(m)), m);
    assert_eq!(s.get_accel_data(None), Veci32 { x: 0, y: 0, z: 0 });
    let a = Veci32 { x: 1, y: 2, z: 3 };
    s.update_accel(Some(a));
    s.update_mag(None);
    assert_eq!(s.get_mag_data(None), m);
    assert_eq!(s.get_accel_data(None), a);
    let m2 = Veci32 { x: 7, y: 8, z: 9 };
    s.update_mag(Some(m2));
    assert_eq!(s.get_mag_data(None), m2);
    assert_eq!(s.get_accel_data(None), a);
}
