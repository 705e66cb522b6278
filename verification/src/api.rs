//! The actuator-facing data model: channel roles, mounts, calibration
//! points, and the desired-configuration records the convergence engine
//! consumes.

use crate::text::{dec_digits, u32_to_dec};
use vstd::prelude::*;
use vstd::string::StringExecFns;

verus! {

/// The camera this manager controls.
#[derive(Debug, Clone, Copy, PartialEq, Eq, Structural)]
pub enum CameraID {
    CAM1,
    CAM2,
}

impl CameraID {
    /// The numeric camera id.
    pub open spec fn code_spec(self) -> u8 {
        match self {
            CameraID::CAM1 => 1,
            CameraID::CAM2 => 2,
        }
    }

    /// The numeric camera id.
    pub fn code(&self) -> (r: u8)
        ensures
            r == self.code_spec(),
    {
        match self {
            CameraID::CAM1 => 1,
            CameraID::CAM2 => 2,
        }
    }
}

/// The mount whose pitch the tilt channel drives; the value is the
/// channel-function code of the mount's pitch output.
#[derive(Debug, Clone, Copy, PartialEq, Eq, Structural)]
pub enum TiltChannelFunction {
    /// Mount 1 pitch.
    MNT1,
    /// Mount 2 pitch.
    MNT2,
}

impl TiltChannelFunction {
    /// The channel-function code written to the FUNCTION parameter.
    pub open spec fn code_spec(self) -> u8 {
        match self {
            TiltChannelFunction::MNT1 => 7,
            TiltChannelFunction::MNT2 => 13,
        }
    }

    /// The channel-function code written to the FUNCTION parameter.
    pub fn code(&self) -> (r: u8)
        ensures
            r == self.code_spec(),
    {
        match self {
            TiltChannelFunction::MNT1 => 7,
            TiltChannelFunction::MNT2 => 13,
        }
    }

    /// The mount's parameter-name prefix.
    pub open spec fn prefix_spec(self) -> Seq<char> {
        match self {
            TiltChannelFunction::MNT1 => "MNT1"@,
            TiltChannelFunction::MNT2 => "MNT2"@,
        }
    }

    /// The mount's parameter-name prefix.
    pub fn prefix(&self) -> (r: &'static str)
        ensures
            r@ == self.prefix_spec(),
    {
        match self {
            TiltChannelFunction::MNT1 => "MNT1",
            TiltChannelFunction::MNT2 => "MNT2",
        }
    }
}

/// The mount hardware type.
#[derive(Debug, Clone, Copy, PartialEq, Eq, Structural)]
pub enum MountType {
    Servo,
    BrushlessPWM,
}

impl MountType {
    /// The numeric mount-type code.
    pub open spec fn code_spec(self) -> u8 {
        match self {
            MountType::Servo => 1,
            MountType::BrushlessPWM => 7,
        }
    }

    /// The numeric mount-type code.
    pub fn code(&self) -> (r: u8)
        ensures
            r == self.code_spec(),
    {
        match self {
            MountType::Servo => 1,
            MountType::BrushlessPWM => 7,
        }
    }
}

/// A servo output channel of the autopilot.
#[derive(Debug, Clone, Copy, PartialEq, Eq, Structural)]
pub enum ServoChannel {
    SERVO1,
    SERVO2,
    SERVO3,
    SERVO4,
    SERVO5,
    SERVO6,
    SERVO7,
    SERVO8,
    SERVO9,
    SERVO10,
    SERVO11,
    SERVO12,
    SERVO13,
    SERVO14,
    SERVO15,
    SERVO16,
    SERVO17,
    SERVO18,
    SERVO19,
    SERVO20,
    SERVO21,
    SERVO22,
    SERVO23,
    SERVO24,
    SERVO25,
    SERVO26,
    SERVO27,
    SERVO28,
    SERVO29,
    SERVO30,
    SERVO31,
    SERVO32,
}

impl ServoChannel {
    /// The channel number.
    pub open spec fn number_spec(self) -> u8 {
        match self {
            ServoChannel::SERVO1 => 1,
            ServoChannel::SERVO2 => 2,
            ServoChannel::SERVO3 => 3,
            ServoChannel::SERVO4 => 4,
            ServoChannel::SERVO5 => 5,
            ServoChannel::SERVO6 => 6,
            ServoChannel::SERVO7 => 7,
            ServoChannel::SERVO8 => 8,
            ServoChannel::SERVO9 => 9,
            ServoChannel::SERVO10 => 10,
            ServoChannel::SERVO11 => 11,
            ServoChannel::SERVO12 => 12,
            ServoChannel::SERVO13 => 13,
            ServoChannel::SERVO14 => 14,
            ServoChannel::SERVO15 => 15,
            ServoChannel::SERVO16 => 16,
            ServoChannel::SERVO17 => 17,
            ServoChannel::SERVO18 => 18,
            ServoChannel::SERVO19 => 19,
            ServoChannel::SERVO20 => 20,
            ServoChannel::SERVO21 => 21,
            ServoChannel::SERVO22 => 22,
            ServoChannel::SERVO23 => 23,
            ServoChannel::SERVO24 => 24,
            ServoChannel::SERVO25 => 25,
            ServoChannel::SERVO26 => 26,
            ServoChannel::SERVO27 => 27,
            ServoChannel::SERVO28 => 28,
            ServoChannel::SERVO29 => 29,
            ServoChannel::SERVO30 => 30,
            ServoChannel::SERVO31 => 31,
            ServoChannel::SERVO32 => 32,
        }
    }

    /// The channel number, between 1 and 32.
    pub fn number(&self) -> (r: u8)
        ensures
            r == self.number_spec(),
            1 <= r <= 32,
    {
        match self {
            ServoChannel::SERVO1 => 1,
            ServoChannel::SERVO2 => 2,
            ServoChannel::SERVO3 => 3,
            ServoChannel::SERVO4 => 4,
            ServoChannel::SERVO5 => 5,
            ServoChannel::SERVO6 => 6,
            ServoChannel::SERVO7 => 7,
            ServoChannel::SERVO8 => 8,
            ServoChannel::SERVO9 => 9,
            ServoChannel::SERVO10 => 10,
            ServoChannel::SERVO11 => 11,
            ServoChannel::SERVO12 => 12,
            ServoChannel::SERVO13 => 13,
            ServoChannel::SERVO14 => 14,
            ServoChannel::SERVO15 => 15,
            ServoChannel::SERVO16 => 16,
            ServoChannel::SERVO17 => 17,
            ServoChannel::SERVO18 => 18,
            ServoChannel::SERVO19 => 19,
            ServoChannel::SERVO20 => 20,
            ServoChannel::SERVO21 => 21,
            ServoChannel::SERVO22 => 22,
            ServoChannel::SERVO23 => 23,
            ServoChannel::SERVO24 => 24,
            ServoChannel::SERVO25 => 25,
            ServoChannel::SERVO26 => 26,
            ServoChannel::SERVO27 => 27,
            ServoChannel::SERVO28 => 28,
            ServoChannel::SERVO29 => 29,
            ServoChannel::SERVO30 => 30,
            ServoChannel::SERVO31 => 31,
            ServoChannel::SERVO32 => 32,
        }
    }
}

/// A scripting output function code.
#[derive(Debug, Clone, Copy, PartialEq, Eq, Structural)]
pub enum ScriptFunction {
    SCRIPT1,
    SCRIPT2,
    SCRIPT3,
    SCRIPT4,
    SCRIPT5,
    SCRIPT6,
    SCRIPT7,
    SCRIPT8,
    SCRIPT9,
    SCRIPT10,
    SCRIPT11,
    SCRIPT12,
    SCRIPT13,
    SCRIPT14,
    SCRIPT15,
    SCRIPT16,
}

impl ScriptFunction {
    /// The channel-function code of this scripting output.
    pub open spec fn code_spec(self) -> u8 {
        match self {
            ScriptFunction::SCRIPT1 => 94,
            ScriptFunction::SCRIPT2 => 95,
            ScriptFunction::SCRIPT3 => 96,
            ScriptFunction::SCRIPT4 => 97,
            ScriptFunction::SCRIPT5 => 98,
            ScriptFunction::SCRIPT6 => 99,
            ScriptFunction::SCRIPT7 => 100,
            ScriptFunction::SCRIPT8 => 101,
            ScriptFunction::SCRIPT9 => 102,
            ScriptFunction::SCRIPT10 => 103,
            ScriptFunction::SCRIPT11 => 104,
            ScriptFunction::SCRIPT12 => 105,
            ScriptFunction::SCRIPT13 => 106,
            ScriptFunction::SCRIPT14 => 107,
            ScriptFunction::SCRIPT15 => 108,
            ScriptFunction::SCRIPT16 => 109,
        }
    }

    /// The channel-function code of this scripting output.
    pub fn code(&self) -> (r: u8)
        ensures
            r == self.code_spec(),
    {
        match self {
            ScriptFunction::SCRIPT1 => 94,
            ScriptFunction::SCRIPT2 => 95,
            ScriptFunction::SCRIPT3 => 96,
            ScriptFunction::SCRIPT4 => 97,
            ScriptFunction::SCRIPT5 => 98,
            ScriptFunction::SCRIPT6 => 99,
            ScriptFunction::SCRIPT7 => 100,
            ScriptFunction::SCRIPT8 => 101,
            ScriptFunction::SCRIPT9 => 102,
            ScriptFunction::SCRIPT10 => 103,
            ScriptFunction::SCRIPT11 => 104,
            ScriptFunction::SCRIPT12 => 105,
            ScriptFunction::SCRIPT13 => 106,
            ScriptFunction::SCRIPT14 => 107,
            ScriptFunction::SCRIPT15 => 108,
            ScriptFunction::SCRIPT16 => 109,
        }
    }
}

/// One calibration point: the focus position paired with a zoom position.
#[derive(Debug, Clone, Copy, PartialEq, Eq, PartialOrd, Ord, Structural)]
pub struct FocusZoomPoint {
    pub zoom: u32,
    pub focus: u32,
}

/// A calibration table of focus-over-zoom points.
#[derive(Debug)]
pub struct FocusZoomPoints(pub Vec<FocusZoomPoint>);

/// The Lua text of one calibration point.
pub open spec fn lua_point(p: FocusZoomPoint) -> Seq<char> {
    "    {zoom = "@ + dec_digits(p.zoom as nat) + ", focus = "@ + dec_digits(p.focus as nat)
        + "}"@
}

/// The Lua text of a point list, one point per line.
pub open spec fn lua_points_join(points: Seq<FocusZoomPoint>) -> Seq<char>
    decreases points.len(),
{
    if points.len() == 0 {
        Seq::<char>::empty()
    } else if points.len() == 1 {
        lua_point(points[0])
    } else {
        lua_point(points[0]) + ",\n"@ + lua_points_join(points.drop_first())
    }
}

/// The Lua table literal of a calibration table.
pub open spec fn lua_points_table(points: Seq<FocusZoomPoint>) -> Seq<char> {
    "{\n"@ + lua_points_join(points) + "\n}"@
}

impl FocusZoomPoints {
    /// An owned copy of the table.
    pub fn duplicate(&self) -> (r: FocusZoomPoints)
        ensures
            r.0@ == self.0@,
    {
        let n = self.0.len();
        let mut v: Vec<FocusZoomPoint> = Vec::new();
        let mut i: usize = 0;
        while i < n
            invariant
                n == self.0@.len(),
                i <= n,
                v@ =~= self.0@.subrange(0, i as int),
            decreases n - i,
        {
            v.push(self.0[i]);
            i = i + 1;
        }
        proof {
            assert(v@ =~= self.0@);
        }
        FocusZoomPoints(v)
    }

    /// Renders the table as the Lua literal the autopilot script embeds.
    pub fn to_lua(&self) -> (s: String)
        ensures
            s@ == lua_points_table(self.0@),
    {
        proof {
            reveal_strlit("{\n");
            reveal_strlit("\n}");
        }
        let mut s = String::from_str("{\n");
        s.append(lua_join_from(&self.0, 0).as_str());
        s.append("\n}");
        proof {
            assert(self.0@.subrange(0, self.0@.len() as int) =~= self.0@);
            assert(s@ =~= lua_points_table(self.0@));
        }
        s
    }
}

/// Renders the points from index `i` on, joined by comma-newlines.
fn lua_join_from(v: &Vec<FocusZoomPoint>, i: usize) -> (s: String)
    requires
        i <= v@.len(),
    ensures
        s@ == lua_points_join(v@.subrange(i as int, v@.len() as int)),
    decreases v@.len() - i,
{
    let n = v.len();
    if i == n {
        let s = String::new();
        proof {
            assert(v@.subrange(i as int, v@.len() as int) =~= Seq::<FocusZoomPoint>::empty());
        }
        s
    } else {
        proof {
            reveal_strlit("    {zoom = ");
            reveal_strlit(", focus = ");
            reveal_strlit("}");
            reveal_strlit(",\n");
        }
        let p = v[i];
        let mut s = String::from_str("    {zoom = ");
        s.append(u32_to_dec(p.zoom).as_str());
        s.append(", focus = ");
        s.append(u32_to_dec(p.focus).as_str());
        s.append("}");
        let ghost suffix = v@.subrange(i as int, v@.len() as int);
        proof {
            assert(suffix[0] == v@[i as int]);
            assert(s@ =~= lua_point(v@[i as int]));
        }
        if i + 1 < n {
            s.append(",\n");
            let rest = lua_join_from(v, i + 1);
            s.append(rest.as_str());
            proof {
                assert(suffix.drop_first() =~= v@.subrange(i + 1, v@.len() as int));
                assert(s@ =~= lua_points_join(suffix));
            }
        } else {
            proof {
                assert(suffix.len() == 1);
                assert(s@ =~= lua_points_join(suffix));
            }
        }
        s
    }
}

} // verus!
