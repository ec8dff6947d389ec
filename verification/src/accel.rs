use vstd::prelude::*;

verus! {

/// A three-axis reading, in the sensor's units (milli-g for the
/// accelerometer, milli-gauss for the magnetometer).
#[derive(Clone, Copy, Debug, PartialEq, Eq, Structural)]
pub struct Veci32 {
    pub x: i32,
    pub y: i32,
    pub z: i32,
}

/// The squared length of a reading; for accelerations this is the total
/// acceleration in milli-g squared, which saves a square root.
pub open spec fn squared_norm(v: Veci32) -> int {
    v.x * v.x + v.y * v.y + v.z * v.z
}

/// The reading kept after an update with `reading`: a new sample replaces
/// the kept one, no new sample keeps it.
pub open spec fn updated(kept: Veci32, reading: Option<Veci32>) -> Veci32 {
    match reading {
        Some(r) => r,
        None => kept,
    }
}

/// The last accelerometer and magnetometer samples.
pub struct AccelView {
    pub accel: Veci32,
    pub mag: Veci32,
}

/// The last samples of the LSM303AGR's accelerometer and magnetometer.
/// Each operation takes the outcome of polling the sensor: `Some` sample
/// when its status reported new XYZ data, `None` when it did not.
pub struct AccelAndCompas {
    accel_data: Veci32,
    mag_data: Veci32,
}

impl View for AccelAndCompas {
    type V = AccelView;

    closed spec fn view(&self) -> AccelView {
        AccelView { accel: self.accel_data, mag: self.mag_data }
    }
}

proof fn lemma_square_bounds(a: int)
    ensures
        0 <= a * a,
{
    assert(0 <= a * a) by (nonlinear_arith);
}

impl AccelAndCompas {
    /// No sample yet: both readings are zero.
    pub fn new() -> (sensor: Self)
        ensures
            sensor@.accel == (Veci32 { x: 0, y: 0, z: 0 }),
            sensor@.mag == (Veci32 { x: 0, y: 0, z: 0 }),
    {
        AccelAndCompas { accel_data: Veci32 { x: 0, y: 0, z: 0 }, mag_data: Veci32 { x: 0, y: 0, z: 0 } }
    }

    /// Takes a new accelerometer sample, if there is one.
    pub fn update_accel(&mut self, reading: Option<Veci32>)
        ensures
            final(self)@.accel == updated(old(self)@.accel, reading),
            final(self)@.mag == old(self)@.mag,
    {
        if let Some(r) = reading {
            self.accel_data = r;
        }
    }

    /// Takes a new magnetometer sample, if there is one.
    pub fn update_mag(&mut self, reading: Option<Veci32>)
        ensures
            final(self)@.mag == updated(old(self)@.mag, reading),
            final(self)@.accel == old(self)@.accel,
    {
        if let Some(r) = reading {
            self.mag_data = r;
        }
    }

    /// Total acceleration in all directions: updates the accelerometer
    /// sample and returns its squared length.
    pub fn total_acceleration(&mut self, reading: Option<Veci32>) -> (total: i32)
        requires
            squared_norm(updated(old(self)@.accel, reading)) <= i32::MAX,
        ensures
            final(self)@.accel == updated(old(self)@.accel, reading),
            final(self)@.mag == old(self)@.mag,
            total == squared_norm(final(self)@.accel),
            total == final(self)@.accel.x * final(self)@.accel.x + final(self)@.accel.y
                * final(self)@.accel.y + final(self)@.accel.z * final(self)@.accel.z,
    {
        self.update_accel(reading);
        let a = self.accel_data;
        proof {
            lemma_square_bounds(a.x as int);
            lemma_square_bounds(a.y as int);
            lemma_square_bounds(a.z as int);
        }
        a.x * a.x + a.y * a.y + a.z * a.z
    }

    /// Updates the accelerometer sample and returns it.
    pub fn get_accel_data(&mut self, reading: Option<Veci32>) -> (data: Veci32)
        ensures
            final(self)@.accel == updated(old(self)@.accel, reading),
            final(self)@.mag == old(self)@.mag,
            data == final(self)@.accel,
    {
        self.update_accel(reading);
        Veci32 { x: self.accel_data.x, y: self.accel_data.y, z: self.accel_data.z }
    }

    /// Updates the magnetometer sample and returns it.
    pub fn get_mag_data(&mut self, reading: Option<Veci32>) -> (data: Veci32)
        ensures
            final(self)@.mag == updated(old(self)@.mag, reading),
            final(self)@.accel == old(self)@.accel,
            data == final(self)@.mag,
    {
        self.update_mag(reading);
        Veci32 { x: self.mag_data.x, y: self.mag_data.y, z: self.mag_data.z }
    }
}

/// The total acceleration is never negative.
pub proof fn lemma_squared_norm_nonnegative(v: Veci32)
    ensures
        squared_norm(v) >= 0,
{
    lemma_square_bounds(v.x as int);
    lemma_square_bounds(v.y as int);
    lemma_square_bounds(v.z as int);
}

/// A read gives back the last sample written: after an update with a new
/// sample, any number of updates without one keep that sample, and an
/// update without a sample changes nothing.
pub proof fn lemma_last_sample_kept(kept: Veci32, sample: Veci32)
    ensures
        updated(kept, Some(sample)) == sample,
        updated(updated(kept, Some(sample)), None) == sample,
        updated(kept, None) == kept,
{
}

/// The squared length of a reading is the sum of the squares of its three
/// axes, for every reading; it does not change when an axis flips its sign,
/// and it adds up over the axes.
pub proof fn lemma_squared_norm_is_sum_of_squares(v: Veci32)
    ensures
        squared_norm(v) == v.x * v.x + v.y * v.y + v.z * v.z,
        v.x > i32::MIN ==> squared_norm(Veci32 { x: -v.x as i32, ..v }) == squared_norm(v),
        v.y > i32::MIN ==> squared_norm(Veci32 { y: -v.y as i32, ..v }) == squared_norm(v),
        v.z > i32::MIN ==> squared_norm(Veci32 { z: -v.z as i32, ..v }) == squared_norm(v),
        squared_norm(v) == squared_norm(Veci32 { x: v.x, y: 0, z: 0 }) + squared_norm(
            Veci32 { x: 0, y: v.y, z: 0 },
        ) + squared_norm(Veci32 { x: 0, y: 0, z: v.z }),
{
    assert((-v.x) * (-v.x) == v.x * v.x) by (nonlinear_arith);
    assert((-v.y) * (-v.y) == v.y * v.y) by (nonlinear_arith);
    assert((-v.z) * (-v.z) == v.z * v.z) by (nonlinear_arith);
}

} // verus!
