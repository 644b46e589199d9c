use vstd::prelude::*;

use crate::geometry::{SolveError, Vector3, solve};

verus! {

/// One motor channel of a fixture; angles are in hundredths of a degree.
#[derive(Clone, Copy, Debug, PartialEq, Eq, Structural)]
pub struct MovingHeadChannel {
    /// The hardware channel this value is sent on.
    pub channel: u8,
    /// The last angle computed for this channel.
    pub value: i64,
    /// The largest magnitude the motor accepts.
    pub max_value: i64,
}

/// A pan/tilt pair in hundredths of a degree.
#[derive(Clone, Copy, Debug, PartialEq, Eq, Structural)]
pub struct Angles {
    pub pan: i64,
    pub tilt: i64,
}

/// A moving-head fixture: where it is mounted and its two channels.
#[derive(Clone, Copy, Debug, PartialEq, Eq, Structural)]
pub struct MovingHead {
    pub position: Vector3,
    pub pan: MovingHeadChannel,
    pub tilt: MovingHeadChannel,
}

/// `|value| <= max_value`.
pub open spec fn value_in_range(c: MovingHeadChannel) -> bool {
    -(c.max_value as int) <= c.value as int <= c.max_value as int
}

/// The channel with its value replaced.
pub open spec fn with_value(c: MovingHeadChannel, value: i64) -> MovingHeadChannel {
    MovingHeadChannel { channel: c.channel, value, max_value: c.max_value }
}

/// The fixture after aiming at `target` with `angles`, the angles solved for
/// the direction towards `target`: unchanged where the target sits on the
/// fixture, else both channel values replaced.
pub open spec fn pointed(m: MovingHead, target: Vector3, angles: Angles) -> MovingHead {
    if m.position == target {
        m
    } else {
        MovingHead {
            position: m.position,
            pan: with_value(m.pan, angles.pan),
            tilt: with_value(m.tilt, angles.tilt),
        }
    }
}

impl MovingHeadChannel {
    /// Builds a channel.
    pub fn new(channel: u8, value: i64, max_value: i64) -> (r: MovingHeadChannel)
        ensures
            r == (MovingHeadChannel { channel, value, max_value }),
    {
        MovingHeadChannel { channel, value, max_value }
    }

    /// Whether the value's magnitude is within the channel's maximum.
    pub fn in_range(&self) -> (r: bool)
        ensures
            r == value_in_range(*self),
    {
        let v = self.value as i128;
        let m = self.max_value as i128;
        -m <= v && v <= m
    }
}

impl MovingHead {
    /// Builds a fixture mounted at `position`.
    pub fn new(position: Vector3, pan: MovingHeadChannel, tilt: MovingHeadChannel) -> (r: MovingHead)
        ensures
            r == (MovingHead { position, pan, tilt }),
    {
        MovingHead { position, pan, tilt }
    }

    /// Aims the fixture at `target`, writing `angles` (solved for the direction
    /// from the fixture to `target`) into the pan and tilt channels.
    ///
    /// Where the target coincides with the fixture nothing changes and the
    /// call fails with `DegenerateGeometry`.
    pub fn point_to(&mut self, target: Vector3, angles: Angles) -> (r: Result<(), SolveError>)
        ensures
            *final(self) == pointed(*old(self), target, angles),
            r is Err <==> old(self).position == target,
            r is Err ==> r == Err::<(), SolveError>(SolveError::DegenerateGeometry),
    {
        match solve(self.position, target) {
            Err(e) => Err(e),
            Ok(_) => {
                self.pan.value = angles.pan;
                self.tilt.value = angles.tilt;
                Ok(())
            },
        }
    }
}

} // verus!
