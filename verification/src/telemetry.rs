//! Append-only multi-channel telemetry, one sample per simulation step.

use vstd::prelude::*;

verus! {

/// One recorded point of a channel: the step timestamp and the sampled
/// value, each held as the raw bit pattern of a 64-bit float.
#[derive(Clone, Copy, Debug, PartialEq, Eq, Structural)]
pub struct Sample {
    pub timestamp: u64,
    pub value: u64,
}

/// The sample a push appends to one channel.
pub open spec fn sample(timestamp: u64, value: u64) -> Sample {
    Sample { timestamp, value }
}

/// Selects one of the ten telemetry channels.
#[allow(non_camel_case_types)]
#[derive(Clone, Copy, Debug, PartialEq, Eq, Structural)]
pub enum Property {
    X_Position,
    Y_Position,
    X_Velocity,
    Y_Velocity,
    Rotation,
    Rotational_Velocity,
    Data_1,
    Data_2,
    Data_3,
    Data_4,
}

/// Ten independent append-only time series: position, velocity and rotation
/// channels plus four generic ones. A single `push` appends one entry to
/// every channel under a shared timestamp; entries are never removed or
/// rewritten.
pub struct Data {
    pub x_pos_data: Vec<Sample>,
    pub y_pos_data: Vec<Sample>,
    pub x_vel_data: Vec<Sample>,
    pub y_vel_data: Vec<Sample>,
    pub rot_data: Vec<Sample>,
    pub rot_vel_data: Vec<Sample>,
    pub data1: Vec<Sample>,
    pub data2: Vec<Sample>,
    pub data3: Vec<Sample>,
    pub data4: Vec<Sample>,
}

impl Data {
    /// The sequence held by the channel that `p` selects.
    pub open spec fn spec_channel(&self, p: Property) -> Seq<Sample> {
        match p {
            Property::X_Position => self.x_pos_data@,
            Property::Y_Position => self.y_pos_data@,
            Property::X_Velocity => self.x_vel_data@,
            Property::Y_Velocity => self.y_vel_data@,
            Property::Rotation => self.rot_data@,
            Property::Rotational_Velocity => self.rot_vel_data@,
            Property::Data_1 => self.data1@,
            Property::Data_2 => self.data2@,
            Property::Data_3 => self.data3@,
            Property::Data_4 => self.data4@,
        }
    }

    /// All ten channels hold the same number of samples, and samples at the
    /// same position share one timestamp.
    pub open spec fn synchronized(&self) -> bool {
        &&& forall|p: Property|
            (#[trigger] self.spec_channel(p)).len() == self.x_pos_data@.len()
        &&& forall|p: Property, k: int|
            0 <= k < self.x_pos_data@.len() ==> (#[trigger] self.spec_channel(p)[k]).timestamp
                == self.x_pos_data@[k].timestamp
    }

    /// A fresh recorder: every channel empty.
    pub fn new() -> (d: Data)
        ensures
            forall|p: Property| (#[trigger] d.spec_channel(p)) == Seq::<Sample>::empty(),
            d.synchronized(),
    {
        let d = Data {
            x_pos_data: Vec::new(),
            y_pos_data: Vec::new(),
            x_vel_data: Vec::new(),
            y_vel_data: Vec::new(),
            rot_data: Vec::new(),
            rot_vel_data: Vec::new(),
            data1: Vec::new(),
            data2: Vec::new(),
            data3: Vec::new(),
            data4: Vec::new(),
        };
        proof {
            assert forall|p: Property| (#[trigger] d.spec_channel(p)) == Seq::<Sample>::empty() by {
                assert(d.spec_channel(p) =~= Seq::<Sample>::empty());
            }
        }
        d
    }

    /// Appends `(timestamp, datum[i])` to channel `i` for all ten channels,
    /// in channel order x-position, y-position, x-velocity, y-velocity,
    /// rotation, rotational velocity, then the four generic channels. Every
    /// channel grows by exactly this one entry, so after N pushes on a fresh
    /// recorder each channel holds exactly N samples, aligned by timestamp.
    pub fn push(&mut self, timestamp: u64, datum: [u64; 10])
        ensures
            final(self).x_pos_data@ == old(self).x_pos_data@.push(sample(timestamp, datum[0])),
            final(self).y_pos_data@ == old(self).y_pos_data@.push(sample(timestamp, datum[1])),
            final(self).x_vel_data@ == old(self).x_vel_data@.push(sample(timestamp, datum[2])),
            final(self).y_vel_data@ == old(self).y_vel_data@.push(sample(timestamp, datum[3])),
            final(self).rot_data@ == old(self).rot_data@.push(sample(timestamp, datum[4])),
            final(self).rot_vel_data@ == old(self).rot_vel_data@.push(
                sample(timestamp, datum[5]),
            ),
            final(self).data1@ == old(self).data1@.push(sample(timestamp, datum[6])),
            final(self).data2@ == old(self).data2@.push(sample(timestamp, datum[7])),
            final(self).data3@ == old(self).data3@.push(sample(timestamp, datum[8])),
            final(self).data4@ == old(self).data4@.push(sample(timestamp, datum[9])),
            forall|p: Property| (#[trigger] final(self).spec_channel(p)).len() == old(
                self,
            ).spec_channel(p).len() + 1,
            old(self).synchronized() ==> final(self).synchronized(),
    {
        self.x_pos_data.push(Sample { timestamp, value: datum[0] });
        self.y_pos_data.push(Sample { timestamp, value: datum[1] });
        self.x_vel_data.push(Sample { timestamp, value: datum[2] });
        self.y_vel_data.push(Sample { timestamp, value: datum[3] });
        self.rot_data.push(Sample { timestamp, value: datum[4] });
        self.rot_vel_data.push(Sample { timestamp, value: datum[5] });
        self.data1.push(Sample { timestamp, value: datum[6] });
        self.data2.push(Sample { timestamp, value: datum[7] });
        self.data3.push(Sample { timestamp, value: datum[8] });
        self.data4.push(Sample { timestamp, value: datum[9] });
        proof {
            assert forall|p: Property| (#[trigger] self.spec_channel(p)).len() == old(
                self,
            ).spec_channel(p).len() + 1 by {}
            if old(self).synchronized() {
                assert forall|p: Property, k: int|
                    0 <= k < self.x_pos_data@.len() implies (#[trigger] self.spec_channel(
                    p,
                )[k]).timestamp == self.x_pos_data@[k].timestamp by {
                    assert(old(self).spec_channel(p).len() == old(self).x_pos_data@.len());
                    if k < old(self).x_pos_data@.len() {
                        assert(old(self).spec_channel(p)[k].timestamp == old(
                            self,
                        ).x_pos_data@[k].timestamp);
                    }
                }
            }
        }
    }

    /// Read view of one channel, in append order.
    pub fn channel(&self, p: Property) -> (r: &Vec<Sample>)
        ensures
            r@ == self.spec_channel(p),
    {
        match p {
            Property::X_Position => &self.x_pos_data,
            Property::Y_Position => &self.y_pos_data,
            Property::X_Velocity => &self.x_vel_data,
            Property::Y_Velocity => &self.y_vel_data,
            Property::Rotation => &self.rot_data,
            Property::Rotational_Velocity => &self.rot_vel_data,
            Property::Data_1 => &self.data1,
            Property::Data_2 => &self.data2,
            Property::Data_3 => &self.data3,
            Property::Data_4 => &self.data4,
        }
    }
}

} // verus!
