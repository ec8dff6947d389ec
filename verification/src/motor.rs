use vstd::prelude::*;

verus! {

/// What the firmware has to do with the motor's indicator LED after an
/// operation of [`Motor1WithLed1`].
#[derive(Clone, Copy, Debug, PartialEq, Eq, Structural)]
pub enum LedCommand {
    /// Leave the LED as it is.
    Keep,
    /// Drive the LED pin high.
    On,
    /// Drive the LED pin low.
    Off,
}

/// What the firmware has to write after an operation of
/// [`Motor1WithLed1`]: the PWM duty for the ESC and the LED action.
#[derive(Clone, Copy, Debug, PartialEq, Eq, Structural)]
pub struct MotorOutput {
    pub duty: u16,
    pub led: LedCommand,
}

/// The abstract state of a motor: the duty cycle sent to the ESC, the
/// bounds it moves between and whether the indicator LED is lit.
pub struct MotorView {
    pub led_on: bool,
    pub duty: u16,
    pub min: u16,
    pub max: u16,
}

impl MotorView {
    /// The duty stays between the 1 ms and the 2 ms pulse, and the LED is
    /// dark only while the motor runs at its minimum.
    pub open spec fn wf(self) -> bool {
        &&& self.min <= self.duty <= self.max
        &&& !self.led_on ==> self.duty == self.min
    }

    /// The state after `increment_and_set(inc)`.
    pub open spec fn incremented(self, inc: u16) -> MotorView {
        MotorView {
            led_on: true,
            duty: if self.duty + inc <= self.max { (self.duty + inc) as u16 } else { self.max },
            min: self.min,
            max: self.max,
        }
    }

    /// The state after `decrement_and_set(dec)`.
    pub open spec fn decremented(self, dec: u16) -> MotorView {
        let duty: u16 = if self.duty - dec >= self.min { (self.duty - dec) as u16 } else { self.min };
        MotorView {
            led_on: self.led_on && duty != self.min,
            duty: duty,
            min: self.min,
            max: self.max,
        }
    }

    /// The state after `set_min()`.
    pub open spec fn at_min(self) -> MotorView {
        MotorView { led_on: false, duty: self.min, min: self.min, max: self.max }
    }
}

/// The state of a freshly set up motor on a PWM channel whose maximum
/// duty is `max_duty`: a 1 ms pulse (5 %) as minimum, a 2 ms pulse (10 %)
/// as maximum, started at the minimum with the LED dark.
pub open spec fn initial_motor(max_duty: u16) -> MotorView {
    MotorView { led_on: false, duty: max_duty / 20, min: max_duty / 20, max: max_duty / 10 }
}

/// ADC readings of the analog stick above this push the throttle up.
pub const STICK_HIGH: u16 = 3500;

/// ADC readings of the analog stick below this pull the throttle down.
pub const STICK_LOW: u16 = 500;

/// What a reading of the analog stick's Y axis asks of the motor.
#[derive(Clone, Copy, Debug, PartialEq, Eq, Structural)]
pub enum StickCommand {
    Increase,
    Decrease,
    Hold,
}

/// The command for a 12-bit ADC reading of the stick: high readings raise
/// the throttle, low ones lower it, the neutral band in between holds it.
pub open spec fn stick_command_of(adc: u16) -> StickCommand {
    if adc > STICK_HIGH {
        StickCommand::Increase
    } else if adc < STICK_LOW {
        StickCommand::Decrease
    } else {
        StickCommand::Hold
    }
}

/// Classifies a reading of the analog stick.
pub fn stick_command(adc: u16) -> (cmd: StickCommand)
    ensures
        cmd == stick_command_of(adc),
        cmd == StickCommand::Increase <==> adc > 3500,
        cmd == StickCommand::Decrease <==> adc < 500,
        cmd == StickCommand::Hold <==> 500 <= adc <= 3500,
{
    if adc > STICK_HIGH {
        StickCommand::Increase
    } else if adc < STICK_LOW {
        StickCommand::Decrease
    } else {
        StickCommand::Hold
    }
}

/// The duty controller of the ESC on TIM3 channel 2 (PA4) together with the
/// state of the north LED (PE9) that shows that the motor runs.
pub struct Motor1WithLed1 {
    led_on: bool,
    duty: u16,
    min: u16,
    max: u16,
}

impl View for Motor1WithLed1 {
    type V = MotorView;

    closed spec fn view(&self) -> MotorView {
        MotorView { led_on: self.led_on, duty: self.duty, min: self.min, max: self.max }
    }
}

impl Motor1WithLed1 {
    #[verifier::type_invariant]
    closed spec fn inv(self) -> bool {
        self@.wf()
    }

    /// A motor on a channel whose maximum duty is `max_duty`; the firmware
    /// writes `get_duty()` to the channel and enables it.
    pub fn new(max_duty: u16) -> (motor: Self)
        ensures
            motor@ == initial_motor(max_duty),
            motor@.duty == max_duty / 20,
            motor@.min == max_duty / 20,
            motor@.max == max_duty / 10,
            !motor@.led_on,
    {
        let min = max_duty / 20;
        let max = max_duty / 10;
        Motor1WithLed1 { led_on: false, duty: min, min, max }
    }

    /// The duty cycle last set.
    pub fn get_duty(&self) -> (duty: u16)
        ensures
            duty == self@.duty,
    {
        self.duty
    }

    /// Whether the indicator LED is lit.
    pub fn led_on(&self) -> (on: bool)
        ensures
            on == self@.led_on,
    {
        self.led_on
    }

    /// The duty of a 1 ms pulse, the motor's minimum.
    pub fn min_duty(&self) -> (min: u16)
        ensures
            min == self@.min,
    {
        self.min
    }

    /// The duty of a 2 ms pulse, the motor's maximum.
    pub fn max_duty(&self) -> (max: u16)
        ensures
            max == self@.max,
    {
        self.max
    }

    /// Raises the duty by `inc`, capped at the maximum, and lights the LED
    /// if it was dark.
    pub fn increment_and_set(&mut self, inc: u16) -> (out: MotorOutput)
        requires
            old(self)@.duty + inc <= u16::MAX,
        ensures
            final(self)@ == old(self)@.incremented(inc),
            final(self)@.wf(),
            out.duty == final(self)@.duty,
            out.led == (if old(self)@.led_on { LedCommand::Keep } else { LedCommand::On }),
    {
        proof { use_type_invariant(&*self); }
        let raised = self.duty + inc;
        let duty = if raised <= self.max { raised } else { self.max };
        let led = if self.led_on { LedCommand::Keep } else { LedCommand::On };
        self.led_on = true;
        self.duty = duty;
        proof { use_type_invariant(&*self); }
        MotorOutput { duty, led }
    }

    /// Lowers the duty by `dec`, floored at the minimum, and darkens the
    /// LED when the minimum is reached.
    pub fn decrement_and_set(&mut self, dec: u16) -> (out: MotorOutput)
        requires
            dec <= old(self)@.duty,
        ensures
            final(self)@ == old(self)@.decremented(dec),
            final(self)@.wf(),
            out.duty == final(self)@.duty,
            out.led == (if old(self)@.led_on && final(self)@.duty == old(self)@.min {
                LedCommand::Off
            } else {
                LedCommand::Keep
            }),
    {
        proof { use_type_invariant(&*self); }
        let lowered = self.duty - dec;
        let duty = if lowered >= self.min { lowered } else { self.min };
        let led = if self.led_on && duty == self.min { LedCommand::Off } else { LedCommand::Keep };
        self.duty = duty;
        if self.led_on && duty == self.min {
            self.led_on = false;
        }
        proof { use_type_invariant(&*self); }
        MotorOutput { duty, led }
    }

    /// Drops the duty to the minimum and darkens the LED.
    pub fn set_min(&mut self) -> (out: MotorOutput)
        ensures
            final(self)@ == old(self)@.at_min(),
            final(self)@.wf(),
            out == (MotorOutput { duty: old(self)@.min, led: LedCommand::Off }),
    {
        proof { use_type_invariant(&*self); }
        self.duty = self.min;
        self.led_on = false;
        MotorOutput { duty: self.min, led: LedCommand::Off }
    }

    /// One step of the throttle loop: a high stick reading raises the duty
    /// by one, a low one lowers it by one, a neutral one changes nothing.
    /// Returns what to write, or `None` when nothing changed.
    pub fn apply_stick(&mut self, adc: u16) -> (out: Option<MotorOutput>)
        requires
            stick_command_of(adc) == StickCommand::Increase ==> old(self)@.duty < u16::MAX,
            stick_command_of(adc) == StickCommand::Decrease ==> old(self)@.duty >= 1,
        ensures
            final(self)@ == (match stick_command_of(adc) {
                StickCommand::Increase => old(self)@.incremented(1),
                StickCommand::Decrease => old(self)@.decremented(1),
                StickCommand::Hold => old(self)@,
            }),
            out is None <==> stick_command_of(adc) == StickCommand::Hold,
            500 <= adc <= 3500 ==> out is None && final(self)@ == old(self)@,
            adc > 3500 ==> final(self)@.duty == (if old(self)@.duty + 1 <= old(self)@.max {
                old(self)@.duty + 1
            } else {
                old(self)@.max as int
            }) && final(self)@.led_on,
            adc < 500 ==> final(self)@.duty == (if old(self)@.duty - 1 >= old(self)@.min {
                old(self)@.duty - 1
            } else {
                old(self)@.min as int
            }),
            stick_command_of(adc) == StickCommand::Increase ==> out == Some(MotorOutput {
                duty: final(self)@.duty,
                led: if old(self)@.led_on { LedCommand::Keep } else { LedCommand::On },
            }),
            stick_command_of(adc) == StickCommand::Decrease ==> out == Some(MotorOutput {
                duty: final(self)@.duty,
                led: if old(self)@.led_on && final(self)@.duty == old(self)@.min {
                    LedCommand::Off
                } else {
                    LedCommand::Keep
                },
            }),
    {
        match stick_command(adc) {
            StickCommand::Increase => Some(self.increment_and_set(1)),
            StickCommand::Decrease => Some(self.decrement_and_set(1)),
            StickCommand::Hold => None,
        }
    }
}

/// Every operation keeps the motor well formed: a fresh motor is, and
/// raising, lowering or stopping it keeps the duty between the 1 ms and the
/// 2 ms pulse and the LED dark only at the minimum; none of them moves
/// the bounds.
pub proof fn lemma_operations_keep_bounds(v: MotorView, max_duty: u16, k: u16)
    requires
        v.wf(),
    ensures
        initial_motor(max_duty).wf(),
        v.incremented(k).wf(),
        k <= v.duty ==> v.decremented(k).wf(),
        v.at_min().wf(),
        v.incremented(k).min == v.min && v.incremented(k).max == v.max,
        v.decremented(k).min == v.min && v.decremented(k).max == v.max,
        v.at_min().min == v.min && v.at_min().max == v.max,
{
}

/// Raising the duty never lowers it, lowering it never raises it; a
/// raise lights the LED.
pub proof fn lemma_operations_are_monotone(v: MotorView, k: u16)
    requires
        v.wf(),
        k <= v.duty,
    ensures
        v.incremented(k).duty >= v.duty,
        v.incremented(k).led_on,
        v.decremented(k).duty <= v.duty,
{
}

/// A raise that does not hit the maximum is undone by a lowering of the
/// same amount, and a lowering that does not hit the minimum is undone by
/// a raise of the same amount.
pub proof fn lemma_increment_decrement_cancel(v: MotorView, k: u16)
    requires
        v.wf(),
    ensures
        v.duty + k <= v.max ==> v.incremented(k).decremented(k).duty == v.duty,
        k <= v.duty && v.duty - k >= v.min ==> v.decremented(k).incremented(k).duty == v.duty,
{
}

/// A raise past the maximum pins the duty at the maximum, a lowering past
/// the minimum pins it at the minimum with the LED dark.
pub proof fn lemma_saturation(v: MotorView, k: u16)
    requires
        v.wf(),
        k <= v.duty,
    ensures
        v.duty + k >= v.max ==> v.incremented(k).duty == v.max,
        v.duty - k <= v.min ==> v.decremented(k).duty == v.min && !v.decremented(k).led_on,
{
}

/// The user button stops the motor: after `set_min` the duty is the
/// minimum and the LED is dark, whatever the state was, and stopping
/// twice is stopping once.
pub proof fn lemma_stop(v: MotorView)
    requires
        v.wf(),
    ensures
        v.at_min().duty == v.min,
        !v.at_min().led_on,
        v.at_min().at_min() == v.at_min(),
{
}

/// One operation on a motor, as a law over runs of them speaks of it.
#[derive(Clone, Copy, Debug, PartialEq, Eq, Structural)]
pub enum MotorOp {
    /// `increment_and_set` by the amount.
    Increment(u16),
    /// `decrement_and_set` by the amount.
    Decrement(u16),
    /// `set_min`.
    Stop,
}

/// The state after one operation.
pub open spec fn apply_op(v: MotorView, op: MotorOp) -> MotorView {
    match op {
        MotorOp::Increment(k) => v.incremented(k),
        MotorOp::Decrement(k) => v.decremented(k),
        MotorOp::Stop => v.at_min(),
    }
}

/// The state after the operations `ops`, in order, from `v`.
pub open spec fn run_ops(v: MotorView, ops: Seq<MotorOp>) -> MotorView
    decreases ops.len(),
{
    if ops.len() == 0 {
        v
    } else {
        apply_op(run_ops(v, ops.drop_last()), ops.last())
    }
}

/// Whatever operations follow `new(max_duty)`, the duty stays between a
/// 1 ms and a 2 ms pulse of the 50 Hz period, that is between 5 % and 10 %
/// of `max_duty`, and the LED is dark only at the minimum.
pub proof fn lemma_any_run_within_pulse_bounds(max_duty: u16, ops: Seq<MotorOp>)
    ensures
        run_ops(initial_motor(max_duty), ops).wf(),
        run_ops(initial_motor(max_duty), ops).min == max_duty / 20,
        run_ops(initial_motor(max_duty), ops).max == max_duty / 10,
        max_duty / 20 <= run_ops(initial_motor(max_duty), ops).duty <= max_duty / 10,
    decreases ops.len(),
{
    if ops.len() > 0 {
        lemma_any_run_within_pulse_bounds(max_duty, ops.drop_last());
    }
}

/// The stick thresholds over every reading: a reading above 3500 raises
/// the throttle, one below 500 lowers it, and every reading from 500 to
/// 3500 (the neutral band round the centre) holds it; raising is monotone
/// in the reading, and so is lowering.
pub proof fn lemma_stick_thresholds(adc: u16, higher: u16)
    ensures
        stick_command_of(adc) == StickCommand::Increase <==> adc > 3500,
        stick_command_of(adc) == StickCommand::Decrease <==> adc < 500,
        stick_command_of(adc) == StickCommand::Hold <==> 500 <= adc <= 3500,
        stick_command_of(adc) == StickCommand::Increase && adc <= higher ==> stick_command_of(higher)
            == StickCommand::Increase,
        stick_command_of(higher) == StickCommand::Decrease && adc <= higher ==> stick_command_of(adc)
            == StickCommand::Decrease,
{
}

/// A fresh motor, whatever the channel's maximum duty `m`, starts at the
/// 1 ms pulse (`m / 20`) with the LED dark, and may go up to the 2 ms pulse
/// (`m / 10`), twice the minimum give or take a step.
pub proof fn lemma_initial_motor(m: u16)
    ensures
        initial_motor(m).duty == m / 20,
        initial_motor(m).min == m / 20,
        initial_motor(m).max == m / 10,
        !initial_motor(m).led_on,
        20 * initial_motor(m).min <= m < 20 * initial_motor(m).min + 20,
        10 * initial_motor(m).max <= m < 10 * initial_motor(m).max + 10,
{
}

} // verus!
