use vstd::prelude::*;

verus! {

/// Largest magnitude of a motor command; a command of this size (or more)
/// drives its channel at full duty.
pub const MAX_COMMAND: u8 = 127;

/// A pair of signed motor commands, one per side of the rover.
/// The sign gives the direction, the magnitude the speed.
#[derive(Clone, Copy, Debug, PartialEq, Eq, Structural)]
pub struct ActuatorCommand {
    pub right: i8,
    pub left: i8,
}

/// What one motor channel is set to: its direction line and its PWM duty.
#[derive(Clone, Copy, Debug, PartialEq, Eq, Structural)]
pub struct ChannelOutput {
    pub forward: bool,
    pub duty: u16,
}

/// The outputs of both motor channels.
#[derive(Clone, Copy, Debug, PartialEq, Eq, Structural)]
pub struct MotorOutputs {
    pub right: ChannelOutput,
    pub left: ChannelOutput,
}

/// Magnitude of a command, held to at most `MAX_COMMAND`.
pub open spec fn magnitude(c: i8) -> int {
    let a = if c < 0 { -(c as int) } else { c as int };
    if a > MAX_COMMAND as int { MAX_COMMAND as int } else { a }
}

/// Duty that a command asks for: the maximum scaled by the magnitude,
/// rounded down.
pub open spec fn spec_duty(max_duty: u16, c: i8) -> int {
    (max_duty as int * magnitude(c)) / (MAX_COMMAND as int)
}

/// Output of one channel for a command: zero counts as forward.
pub open spec fn spec_channel(max_duty: u16, c: i8) -> ChannelOutput {
    ChannelOutput { forward: c >= 0, duty: spec_duty(max_duty, c) as u16 }
}

proof fn lemma_duty_bounded(max_duty: u16, c: i8)
    ensures
        0 <= spec_duty(max_duty, c) <= max_duty,
{
    let m = magnitude(c);
    assert(0 <= max_duty as int * m <= max_duty as int * 127) by (nonlinear_arith)
        requires
            0 <= m <= 127,
            0 <= max_duty,
    ;
    assert((max_duty as int * m) / 127 <= max_duty as int) by (nonlinear_arith)
        requires
            0 <= max_duty as int * m <= max_duty as int * 127,
    ;
}

/// Duty cycle for one command: `max_duty * |c| / 127`, rounded down.
pub fn duty_for(max_duty: u16, c: i8) -> (d: u16)
    ensures
        d as int == spec_duty(max_duty, c),
        d <= max_duty,
{
    let mag: u32 = if c == i8::MIN {
        MAX_COMMAND as u32
    } else if c < 0 {
        (-c) as u32
    } else {
        c as u32
    };
    proof {
        lemma_duty_bounded(max_duty, c);
        assert(mag as int == magnitude(c));
        assert(max_duty as int * mag as int <= 65535 * 127) by (nonlinear_arith)
            requires
                mag <= 127,
                max_duty <= 65535,
        ;
    }
    let d = (max_duty as u32) * mag / (MAX_COMMAND as u32);
    d as u16
}

/// Turns a command pair into the direction and duty of both channels.
/// Each channel is handled on its own; the outputs replace whatever was
/// set before.
pub fn actuate(cmd: ActuatorCommand, max_duty: u16) -> (out: MotorOutputs)
    ensures
        out.right == spec_channel(max_duty, cmd.right),
        out.left == spec_channel(max_duty, cmd.left),
        out.right.duty <= max_duty,
        out.left.duty <= max_duty,
{
    let right = ChannelOutput { forward: cmd.right >= 0, duty: duty_for(max_duty, cmd.right) };
    let left = ChannelOutput { forward: cmd.left >= 0, duty: duty_for(max_duty, cmd.left) };
    MotorOutputs { right, left }
}

} // verus!
