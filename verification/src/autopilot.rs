//! The configuration-convergence engine: diffs a desired actuator
//! configuration against the cached remote table, stages only the deltas
//! as set-parameter commands, and classifies whether the pass demands an
//! autopilot reboot or only a script reload.

use crate::api::{FocusZoomPoint, FocusZoomPoints, ServoChannel, TiltChannelFunction};
use crate::mavlink::{MavlinkComponent, ParamEncodingType, ParamSetData};
use crate::parameters::{valid_param_name, ParamError, ParamType, Parameter};
use crate::text::{dec_digits, digit_char, u32_to_dec};
use vstd::prelude::*;
use vstd::string::StringExecFns;

verus! {

/// The concrete actuator configuration: channel assignments, output
/// ranges, and mount limits for the focus, zoom and tilt roles.
#[derive(Debug, Clone, Copy, PartialEq, Eq, Structural)]
pub struct FocusAndZoomParameters {
    pub focus_channel: ServoChannel,
    pub focus_channel_function: u8,
    pub focus_channel_min: u16,
    pub focus_channel_trim: u16,
    pub focus_channel_max: u16,
    pub zoom_channel: ServoChannel,
    pub zoom_channel_function: u8,
    pub zoom_channel_min: u16,
    pub zoom_channel_trim: u16,
    pub zoom_channel_max: u16,
    pub tilt_channel: ServoChannel,
    pub tilt_channel_function: TiltChannelFunction,
    pub tilt_channel_min: u16,
    pub tilt_channel_trim: u16,
    pub tilt_channel_max: u16,
    pub tilt_channel_reversed: bool,
    pub tilt_mnt_type: u8,
    pub tilt_mnt_pitch_min: i32,
    pub tilt_mnt_pitch_max: i32,
}

/// The default actuator configuration.
pub open spec fn default_parameters() -> FocusAndZoomParameters {
    FocusAndZoomParameters {
        focus_channel: ServoChannel::SERVO10,
        focus_channel_function: 92,
        focus_channel_min: 870,
        focus_channel_trim: 1500,
        focus_channel_max: 2130,
        zoom_channel: ServoChannel::SERVO11,
        zoom_channel_function: 180,
        zoom_channel_min: 935,
        zoom_channel_trim: 1500,
        zoom_channel_max: 1850,
        tilt_channel: ServoChannel::SERVO16,
        tilt_channel_function: TiltChannelFunction::MNT1,
        tilt_channel_min: 750,
        tilt_channel_trim: 1500,
        tilt_channel_max: 2250,
        tilt_channel_reversed: false,
        tilt_mnt_type: 7,
        tilt_mnt_pitch_min: (-90) as i32,
        tilt_mnt_pitch_max: 90,
    }
}

impl Default for FocusAndZoomParameters {
    /// The default actuator configuration.
    fn default() -> (r: Self)
        ensures
            r == default_parameters(),
    {
        FocusAndZoomParameters {
            focus_channel: ServoChannel::SERVO10,
            focus_channel_function: 92,
            focus_channel_min: 870,
            focus_channel_trim: 1500,
            focus_channel_max: 2130,
            zoom_channel: ServoChannel::SERVO11,
            zoom_channel_function: 180,
            zoom_channel_min: 935,
            zoom_channel_trim: 1500,
            zoom_channel_max: 1850,
            tilt_channel: ServoChannel::SERVO16,
            tilt_channel_function: TiltChannelFunction::MNT1,
            tilt_channel_min: 750,
            tilt_channel_trim: 1500,
            tilt_channel_max: 2250,
            tilt_channel_reversed: false,
            tilt_mnt_type: 7,
            tilt_mnt_pitch_min: -90,
            tilt_mnt_pitch_max: 90,
        }
    }
}

/// The desired actuator configuration: `None` leaves a field unchanged,
/// except that a fully empty request is a defined reset-to-default.
#[derive(Debug, Clone, Copy)]
pub struct FocusAndZoomParametersQuery {
    pub focus_channel: Option<ServoChannel>,
    pub focus_channel_function: Option<u8>,
    pub focus_channel_min: Option<u16>,
    pub focus_channel_trim: Option<u16>,
    pub focus_channel_max: Option<u16>,
    pub zoom_channel: Option<ServoChannel>,
    pub zoom_channel_function: Option<u8>,
    pub zoom_channel_min: Option<u16>,
    pub zoom_channel_trim: Option<u16>,
    pub zoom_channel_max: Option<u16>,
    pub tilt_channel: Option<ServoChannel>,
    pub tilt_channel_function: Option<TiltChannelFunction>,
    pub tilt_channel_min: Option<u16>,
    pub tilt_channel_trim: Option<u16>,
    pub tilt_channel_max: Option<u16>,
    pub tilt_channel_reversed: Option<bool>,
    pub tilt_mnt_type: Option<u8>,
    pub tilt_mnt_pitch_min: Option<i32>,
    pub tilt_mnt_pitch_max: Option<i32>,
}

/// The request that asks for every field of a configuration.
pub open spec fn query_of(p: FocusAndZoomParameters) -> FocusAndZoomParametersQuery {
    FocusAndZoomParametersQuery {
        focus_channel: Some(p.focus_channel),
        focus_channel_function: Some(p.focus_channel_function),
        focus_channel_min: Some(p.focus_channel_min),
        focus_channel_trim: Some(p.focus_channel_trim),
        focus_channel_max: Some(p.focus_channel_max),
        zoom_channel: Some(p.zoom_channel),
        zoom_channel_function: Some(p.zoom_channel_function),
        zoom_channel_min: Some(p.zoom_channel_min),
        zoom_channel_trim: Some(p.zoom_channel_trim),
        zoom_channel_max: Some(p.zoom_channel_max),
        tilt_channel: Some(p.tilt_channel),
        tilt_channel_function: Some(p.tilt_channel_function),
        tilt_channel_min: Some(p.tilt_channel_min),
        tilt_channel_trim: Some(p.tilt_channel_trim),
        tilt_channel_max: Some(p.tilt_channel_max),
        tilt_channel_reversed: Some(p.tilt_channel_reversed),
        tilt_mnt_type: Some(p.tilt_mnt_type),
        tilt_mnt_pitch_min: Some(p.tilt_mnt_pitch_min),
        tilt_mnt_pitch_max: Some(p.tilt_mnt_pitch_max),
    }
}

impl FocusAndZoomParametersQuery {
    /// True when every field is `None`.
    pub open spec fn is_all_none_spec(self) -> bool {
        &&& self.focus_channel is None
        &&& self.focus_channel_function is None
        &&& self.focus_channel_min is None
        &&& self.focus_channel_trim is None
        &&& self.focus_channel_max is None
        &&& self.zoom_channel is None
        &&& self.zoom_channel_function is None
        &&& self.zoom_channel_min is None
        &&& self.zoom_channel_trim is None
        &&& self.zoom_channel_max is None
        &&& self.tilt_channel is None
        &&& self.tilt_channel_function is None
        &&& self.tilt_channel_min is None
        &&& self.tilt_channel_trim is None
        &&& self.tilt_channel_max is None
        &&& self.tilt_channel_reversed is None
        &&& self.tilt_mnt_type is None
        &&& self.tilt_mnt_pitch_min is None
        &&& self.tilt_mnt_pitch_max is None
    }

    /// The request that leaves every field unchanged — which, handed to
    /// the convergence engine, means reset-to-default.
    pub fn all_none() -> (r: Self)
        ensures
            r.is_all_none_spec(),
    {
        FocusAndZoomParametersQuery {
            focus_channel: None,
            focus_channel_function: None,
            focus_channel_min: None,
            focus_channel_trim: None,
            focus_channel_max: None,
            zoom_channel: None,
            zoom_channel_function: None,
            zoom_channel_min: None,
            zoom_channel_trim: None,
            zoom_channel_max: None,
            tilt_channel: None,
            tilt_channel_function: None,
            tilt_channel_min: None,
            tilt_channel_trim: None,
            tilt_channel_max: None,
            tilt_channel_reversed: None,
            tilt_mnt_type: None,
            tilt_mnt_pitch_min: None,
            tilt_mnt_pitch_max: None,
        }
    }

    /// Checks whether every field is `None`.
    pub fn is_all_none(&self) -> (r: bool)
        ensures
            r == self.is_all_none_spec(),
    {
        self.focus_channel.is_none() && self.focus_channel_function.is_none()
            && self.focus_channel_min.is_none() && self.focus_channel_trim.is_none()
            && self.focus_channel_max.is_none() && self.zoom_channel.is_none()
            && self.zoom_channel_function.is_none() && self.zoom_channel_min.is_none()
            && self.zoom_channel_trim.is_none() && self.zoom_channel_max.is_none()
            && self.tilt_channel.is_none() && self.tilt_channel_function.is_none()
            && self.tilt_channel_min.is_none() && self.tilt_channel_trim.is_none()
            && self.tilt_channel_max.is_none() && self.tilt_channel_reversed.is_none()
            && self.tilt_mnt_type.is_none() && self.tilt_mnt_pitch_min.is_none()
            && self.tilt_mnt_pitch_max.is_none()
    }
}

impl From<FocusAndZoomParameters> for FocusAndZoomParametersQuery {
    /// The request that asks for every field of the configuration.
    fn from(value: FocusAndZoomParameters) -> (r: Self) {
        FocusAndZoomParametersQuery {
            focus_channel: Some(value.focus_channel),
            focus_channel_function: Some(value.focus_channel_function),
            focus_channel_min: Some(value.focus_channel_min),
            focus_channel_trim: Some(value.focus_channel_trim),
            focus_channel_max: Some(value.focus_channel_max),
            zoom_channel: Some(value.zoom_channel),
            zoom_channel_function: Some(value.zoom_channel_function),
            zoom_channel_min: Some(value.zoom_channel_min),
            zoom_channel_trim: Some(value.zoom_channel_trim),
            zoom_channel_max: Some(value.zoom_channel_max),
            tilt_channel: Some(value.tilt_channel),
            tilt_channel_function: Some(value.tilt_channel_function),
            tilt_channel_min: Some(value.tilt_channel_min),
            tilt_channel_trim: Some(value.tilt_channel_trim),
            tilt_channel_max: Some(value.tilt_channel_max),
            tilt_channel_reversed: Some(value.tilt_channel_reversed),
            tilt_mnt_type: Some(value.tilt_mnt_type),
            tilt_mnt_pitch_min: Some(value.tilt_mnt_pitch_min),
            tilt_mnt_pitch_max: Some(value.tilt_mnt_pitch_max),
        }
    }
}

impl vstd::std_specs::convert::FromSpecImpl<FocusAndZoomParameters> for FocusAndZoomParametersQuery {
    open spec fn obeys_from_spec() -> bool {
        true
    }

    open spec fn from_spec(p: FocusAndZoomParameters) -> Self {
        query_of(p)
    }
}

/// The default calibration points for the closest focusing distance.
pub open spec fn default_closest_points() -> Seq<FocusZoomPoint> {
    seq![
        FocusZoomPoint { zoom: 900, focus: 882 },
        FocusZoomPoint { zoom: 1100, focus: 1253 },
        FocusZoomPoint { zoom: 1300, focus: 1498 },
        FocusZoomPoint { zoom: 1500, focus: 1669 },
        FocusZoomPoint { zoom: 1700, focus: 1759 },
        FocusZoomPoint { zoom: 1900, focus: 1862 },
        FocusZoomPoint { zoom: 2100, focus: 1883 },
    ]
}

/// The default calibration points for the furthest focusing distance.
pub open spec fn default_furthest_points() -> Seq<FocusZoomPoint> {
    seq![
        FocusZoomPoint { zoom: 900, focus: 935 },
        FocusZoomPoint { zoom: 1100, focus: 1305 },
        FocusZoomPoint { zoom: 1300, focus: 1520 },
        FocusZoomPoint { zoom: 1500, focus: 1696 },
        FocusZoomPoint { zoom: 1700, focus: 1811 },
        FocusZoomPoint { zoom: 1900, focus: 1911 },
        FocusZoomPoint { zoom: 2100, focus: 1930 },
    ]
}

/// The full zoom-and-focus configuration: actuator parameters plus the two
/// calibration tables the generated script embeds.
#[derive(Debug)]
pub struct ZoomAndFocusConfig {
    pub parameters: FocusAndZoomParameters,
    pub closest_points: FocusZoomPoints,
    pub furthest_points: FocusZoomPoints,
}

impl ZoomAndFocusConfig {
    /// An owned copy of the configuration.
    pub fn duplicate(&self) -> (r: ZoomAndFocusConfig)
        ensures
            r.parameters == self.parameters,
            r.closest_points.0@ == self.closest_points.0@,
            r.furthest_points.0@ == self.furthest_points.0@,
    {
        ZoomAndFocusConfig {
            parameters: self.parameters,
            closest_points: self.closest_points.duplicate(),
            furthest_points: self.furthest_points.duplicate(),
        }
    }
}

impl Default for ZoomAndFocusConfig {
    /// The default configuration: default parameters and the built-in
    /// calibration tables.
    fn default() -> (r: Self)
        ensures
            r.parameters == default_parameters(),
            r.closest_points.0@ == default_closest_points(),
            r.furthest_points.0@ == default_furthest_points(),
    {
        let mut closest: Vec<FocusZoomPoint> = Vec::new();
        closest.push(FocusZoomPoint { zoom: 900, focus: 882 });
        closest.push(FocusZoomPoint { zoom: 1100, focus: 1253 });
        closest.push(FocusZoomPoint { zoom: 1300, focus: 1498 });
        closest.push(FocusZoomPoint { zoom: 1500, focus: 1669 });
        closest.push(FocusZoomPoint { zoom: 1700, focus: 1759 });
        closest.push(FocusZoomPoint { zoom: 1900, focus: 1862 });
        closest.push(FocusZoomPoint { zoom: 2100, focus: 1883 });
        let mut furthest: Vec<FocusZoomPoint> = Vec::new();
        furthest.push(FocusZoomPoint { zoom: 900, focus: 935 });
        furthest.push(FocusZoomPoint { zoom: 1100, focus: 1305 });
        furthest.push(FocusZoomPoint { zoom: 1300, focus: 1520 });
        furthest.push(FocusZoomPoint { zoom: 1500, focus: 1696 });
        furthest.push(FocusZoomPoint { zoom: 1700, focus: 1811 });
        furthest.push(FocusZoomPoint { zoom: 1900, focus: 1911 });
        furthest.push(FocusZoomPoint { zoom: 2100, focus: 1930 });
        proof {
            assert(closest@ =~= default_closest_points());
            assert(furthest@ =~= default_furthest_points());
        }
        ZoomAndFocusConfig {
            parameters: FocusAndZoomParameters::default(),
            closest_points: FocusZoomPoints(closest),
            furthest_points: FocusZoomPoints(furthest),
        }
    }
}

/// A request against the full configuration: optional parameter deltas and
/// optional replacement calibration tables.
#[derive(Debug)]
pub struct ZoomAndFocusConfigQuery {
    pub parameters: Option<FocusAndZoomParametersQuery>,
    pub closest_points: Option<FocusZoomPoints>,
    pub furthest_points: Option<FocusZoomPoints>,
}

/// The wire name of a servo channel parameter: `SERVO{n}_{suffix}`.
pub open spec fn servo_name(ch: u8, suffix: Seq<char>) -> Seq<char> {
    "SERVO"@ + dec_digits(ch as nat) + "_"@ + suffix
}

/// The wire name of a mount parameter: `MNT{n}_{suffix}`.
pub open spec fn mnt_name(f: TiltChannelFunction, suffix: Seq<char>) -> Seq<char> {
    f.prefix_spec() + "_"@ + suffix
}

/// Decimal digit sequences use only digit characters.
pub proof fn lemma_dec_digits_chars(n: nat)
    ensures
        forall|i: int|
            0 <= i < dec_digits(n).len() ==> '0' <= #[trigger] dec_digits(n)[i] <= '9',
    decreases n,
{
    if n < 10 {
        assert(dec_digits(n) == seq![digit_char(n)]);
        assert(dec_digits(n)[0] == digit_char(n));
        assert('0' <= digit_char(n) <= '9');
    } else {
        lemma_dec_digits_chars(n / 10);
        let d = dec_digits(n / 10);
        assert(dec_digits(n) == d + seq![digit_char(n % 10)]);
        assert forall|i: int|
            0 <= i < dec_digits(n).len() implies '0' <= #[trigger] dec_digits(n)[i] <= '9' by {
            if i < d.len() {
                assert(dec_digits(n)[i] == d[i]);
            } else {
                assert(dec_digits(n)[i] == digit_char(n % 10));
                assert('0' <= digit_char(n % 10) <= '9');
            }
        }
    }
}

/// A number below one hundred has one or two digits.
pub proof fn lemma_dec_digits_len2(n: nat)
    requires
        n < 100,
    ensures
        1 <= dec_digits(n).len() <= 2,
        n < 10 ==> dec_digits(n).len() == 1,
        n >= 10 ==> dec_digits(n).len() == 2,
{
    if n < 10 {
        assert(dec_digits(n) == seq![digit_char(n)]);
    } else {
        assert(dec_digits(n) == dec_digits(n / 10) + seq![digit_char(n % 10)]);
        assert(n / 10 < 10);
        assert(dec_digits(n / 10) == seq![digit_char(n / 10)]);
    }
}

/// Distinct numbers below one hundred have distinct digit sequences.
pub proof fn lemma_dec_digits_ne(a: nat, b: nat)
    requires
        a < 100,
        b < 100,
        a != b,
    ensures
        dec_digits(a) != dec_digits(b),
{
    lemma_dec_digits_len2(a);
    lemma_dec_digits_len2(b);
    if a < 10 && b < 10 {
        assert(dec_digits(a) == seq![digit_char(a)]);
        assert(dec_digits(b) == seq![digit_char(b)]);
        assert(digit_char(a) != digit_char(b));
        assert(dec_digits(a)[0] != dec_digits(b)[0]);
    } else if a >= 10 && b >= 10 {
        assert(dec_digits(a) == dec_digits(a / 10) + seq![digit_char(a % 10)]);
        assert(dec_digits(b) == dec_digits(b / 10) + seq![digit_char(b % 10)]);
        assert(dec_digits(a / 10) == seq![digit_char(a / 10)]);
        assert(dec_digits(b / 10) == seq![digit_char(b / 10)]);
        if a / 10 != b / 10 {
            assert(digit_char(a / 10) != digit_char(b / 10));
            assert(dec_digits(a)[0] != dec_digits(b)[0]);
        } else {
            assert(a % 10 != b % 10) by {
                vstd::arithmetic::div_mod::lemma_fundamental_div_mod(a as int, 10);
                vstd::arithmetic::div_mod::lemma_fundamental_div_mod(b as int, 10);
            }
            assert(digit_char(a % 10) != digit_char(b % 10));
            assert(dec_digits(a)[1] != dec_digits(b)[1]);
        }
    }
}

/// Distinct channel or suffix makes a distinct servo parameter name.
pub proof fn lemma_servo_name_ne(ch1: u8, s1: Seq<char>, ch2: u8, s2: Seq<char>)
    requires
        1 <= ch1 <= 32,
        1 <= ch2 <= 32,
        ch1 != ch2 || s1 != s2,
        forall|i: int| 0 <= i < s1.len() ==> #[trigger] s1[i] != '_' && !('0' <= s1[i] <= '9'),
        forall|i: int| 0 <= i < s2.len() ==> #[trigger] s2[i] != '_' && !('0' <= s2[i] <= '9'),
    ensures
        servo_name(ch1, s1) != servo_name(ch2, s2),
{
    reveal_strlit("SERVO");
    reveal_strlit("_");
    let d1 = dec_digits(ch1 as nat);
    let d2 = dec_digits(ch2 as nat);
    lemma_dec_digits_len2(ch1 as nat);
    lemma_dec_digits_len2(ch2 as nat);
    lemma_dec_digits_chars(ch1 as nat);
    lemma_dec_digits_chars(ch2 as nat);
    let n1 = servo_name(ch1, s1);
    let n2 = servo_name(ch2, s2);
    assert("SERVO"@.len() == 5);
    assert("_"@.len() == 1);
    assert(n1.len() == 6 + d1.len() + s1.len());
    assert(n2.len() == 6 + d2.len() + s2.len());
    if n1 == n2 {
        if d1.len() != d2.len() {
            // The byte after the digits is an underscore on one side and a
            // digit on the other.
            if d1.len() == 1 {
                assert(n1[6] == '_');
                assert(n2[6] == d2[1]);
            } else {
                assert(n1[6] == d1[1]);
                assert(n2[6] == '_');
            }
            assert(false);
        } else {
            if ch1 != ch2 {
                lemma_dec_digits_ne(ch1 as nat, ch2 as nat);
                assert(exists|k: int| 0 <= k < d1.len() && d1[k] != d2[k]) by {
                    if forall|k: int| 0 <= k < d1.len() ==> #[trigger] d1[k] == d2[k] {
                        assert(d1 =~= d2);
                    }
                }
                let k = choose|k: int| 0 <= k < d1.len() && d1[k] != d2[k];
                assert(n1[5 + k] == d1[k]);
                assert(n2[5 + k] == d2[k]);
                assert(false);
            } else {
                let base = 5 + d1.len() + 1;
                assert(s1.len() == s2.len());
                assert(exists|k: int| 0 <= k < s1.len() && s1[k] != s2[k]) by {
                    if forall|k: int| 0 <= k < s1.len() ==> #[trigger] s1[k] == s2[k] {
                        assert(s1 =~= s2);
                    }
                }
                let k = choose|k: int| 0 <= k < s1.len() && s1[k] != s2[k];
                assert(n1[base + k] == s1[k]);
                assert(n2[base + k] == s2[k]);
                assert(false);
            }
        }
    }
}

/// Distinct mount or suffix makes a distinct mount parameter name.
pub proof fn lemma_mnt_name_ne(f1: TiltChannelFunction, s1: Seq<char>, f2: TiltChannelFunction, s2: Seq<char>)
    requires
        f1 != f2 || s1 != s2,
    ensures
        mnt_name(f1, s1) != mnt_name(f2, s2),
{
    reveal_strlit("MNT1");
    reveal_strlit("MNT2");
    reveal_strlit("_");
    let n1 = mnt_name(f1, s1);
    let n2 = mnt_name(f2, s2);
    assert(f1.prefix_spec().len() == 4);
    assert(f2.prefix_spec().len() == 4);
    assert("_"@.len() == 1);
    assert(n1.len() == 5 + s1.len());
    assert(n2.len() == 5 + s2.len());
    if n1 == n2 {
        if f1 != f2 {
            assert(n1[3] == f1.prefix_spec()[3]);
            assert(n2[3] == f2.prefix_spec()[3]);
            assert(n1[3] != n2[3]);
            assert(false);
        } else {
            assert(s1.len() == s2.len());
            assert(exists|k: int| 0 <= k < s1.len() && s1[k] != s2[k]) by {
                if forall|k: int| 0 <= k < s1.len() ==> #[trigger] s1[k] == s2[k] {
                    assert(s1 =~= s2);
                }
            }
            let k = choose|k: int| 0 <= k < s1.len() && s1[k] != s2[k];
            assert(n1[5 + k] == s1[k]);
            assert(n2[5 + k] == s2[k]);
            assert(false);
        }
    }
}

/// A servo name and a mount name never collide.
pub proof fn lemma_servo_mnt_ne(ch: u8, s1: Seq<char>, f: TiltChannelFunction, s2: Seq<char>)
    ensures
        servo_name(ch, s1) != mnt_name(f, s2),
{
    reveal_strlit("SERVO");
    reveal_strlit("MNT1");
    reveal_strlit("MNT2");
    let n1 = servo_name(ch, s1);
    let n2 = mnt_name(f, s2);
    assert(n1[0] == 'S');
    assert(n2[0] == 'M');
}

/// Builds the servo parameter name `SERVO{ch}_{suffix}`.
pub fn servo_param_name(ch: u8, suffix: &str) -> (s: String)
    requires
        1 <= ch <= 32,
        suffix@.len() <= 8,
        forall|i: int| 0 <= i < suffix@.len() ==> '\u{1}' <= #[trigger] suffix@[i] <= '\u{7f}',
    ensures
        s@ == servo_name(ch, suffix@),
        valid_param_name(s@),
{
    proof {
        reveal_strlit("SERVO");
        reveal_strlit("_");
        lemma_dec_digits_len2(ch as nat);
        lemma_dec_digits_chars(ch as nat);
    }
    let mut s = String::from_str("SERVO");
    s.append(u32_to_dec(ch as u32).as_str());
    s.append("_");
    s.append(suffix);
    proof {
        assert(s@ =~= servo_name(ch, suffix@));
        let d = dec_digits(ch as nat);
        assert forall|i: int| 0 <= i < s@.len() implies '\u{1}' <= #[trigger] s@[i] <= '\u{7f}' by {
            if i < 5 {
                assert(s@[i] == "SERVO"@[i]);
            } else if i < 5 + d.len() {
                assert(s@[i] == d[i - 5]);
                assert('0' <= d[i - 5] <= '9');
            } else if i == 5 + d.len() {
                assert(s@[i] == '_');
            } else {
                assert(s@[i] == suffix@[i - (6 + d.len())]);
            }
        }
    }
    s
}

/// Builds the mount parameter name `MNT{n}_{suffix}`.
pub fn mnt_param_name(f: TiltChannelFunction, suffix: &str) -> (s: String)
    requires
        suffix@.len() <= 11,
        forall|i: int| 0 <= i < suffix@.len() ==> '\u{1}' <= #[trigger] suffix@[i] <= '\u{7f}',
    ensures
        s@ == mnt_name(f, suffix@),
        valid_param_name(s@),
{
    proof {
        reveal_strlit("MNT1");
        reveal_strlit("MNT2");
        reveal_strlit("_");
    }
    let mut s = String::from_str(f.prefix());
    s.append("_");
    s.append(suffix);
    proof {
        assert(s@ =~= mnt_name(f, suffix@));
        assert forall|i: int| 0 <= i < s@.len() implies '\u{1}' <= #[trigger] s@[i] <= '\u{7f}' by {
            if i < 4 {
                assert(s@[i] == f.prefix_spec()[i]);
            } else if i == 4 {
                assert(s@[i] == '_');
            } else {
                assert(s@[i] == suffix@[i - 5]);
            }
        }
    }
    s
}

/// True when the cached value of `name` encodes to the same wire bits as
/// `v` under the component's mode (and both encode at all).
pub open spec fn cache_matches(mav: MavlinkComponent, name: Seq<char>, v: ParamType) -> bool {
    &&& mav.cache().contains_name(name)
    &&& v.encode_spec(mav.spec_encoding()) is Ok
    &&& mav.cache().value_of(name).encode_spec(mav.spec_encoding()) == v.encode_spec(
        mav.spec_encoding(),
    )
}

/// True when the pass writes `name`: the encoded values differ, or the
/// write is forced.
pub open spec fn would_write(
    mav: MavlinkComponent,
    name: Seq<char>,
    v: ParamType,
    force: bool,
) -> bool {
    force || mav.cache().value_of(name).encode_spec(mav.spec_encoding()) != v.encode_spec(
        mav.spec_encoding(),
    )
}

/// True when a read-compare-write of `name` can proceed: the name is
/// cached and its current value encodes under the mode.
pub open spec fn field_ready(mav: MavlinkComponent, name: Seq<char>) -> bool {
    &&& mav.cache().contains_name(name)
    &&& mav.cache().value_of(name).encode_spec(mav.spec_encoding()) is Ok
}

/// The channel a role ends up on: the requested one, or the current one.
pub open spec fn eff_channel(q: Option<ServoChannel>, cur: ServoChannel) -> ServoChannel {
    match q {
        Some(c) => c,
        None => cur,
    }
}

/// The value a field update aims at: the explicit request, the current
/// mirror value when forced, or nothing.
pub open spec fn desired_of<T>(q: Option<T>, cur: T, force: bool) -> Option<T> {
    match q {
        Some(v) => Some(v),
        None => if force {
            Some(cur)
        } else {
            None
        },
    }
}

/// True when `n` is one of the four servo parameters of channel `chn`.
pub open spec fn servo_role_touched(n: Seq<char>, chn: u8) -> bool {
    ||| n == servo_name(chn, "FUNCTION"@)
    ||| n == servo_name(chn, "MIN"@)
    ||| n == servo_name(chn, "TRIM"@)
    ||| n == servo_name(chn, "MAX"@)
}

/// How disruptively a parameter change must be applied.
#[derive(Debug, Clone, Copy, PartialEq, Eq, Structural)]
pub struct ConvergenceClass {
    /// A channel-function assignment, mount type or calibration table
    /// changed: the autopilot must reboot.
    pub reboot: bool,
    /// Only output ranges, trims or reversals changed: reloading the
    /// scripts suffices.
    pub reload: bool,
}

/// The four servo-role suffixes are usable parameter-name suffixes and
/// pairwise distinct.
proof fn lemma_servo_suffixes()
    ensures
        "FUNCTION"@.len() == 8,
        "MIN"@.len() == 3,
        "TRIM"@.len() == 4,
        "MAX"@.len() == 3,
        "REVERSED"@.len() == 8,
        forall|i: int|
            0 <= i < "FUNCTION"@.len() ==> '\u{1}' <= #[trigger] "FUNCTION"@[i] <= '\u{7f}'
                && "FUNCTION"@[i] != '_' && !('0' <= "FUNCTION"@[i] <= '9'),
        forall|i: int|
            0 <= i < "MIN"@.len() ==> '\u{1}' <= #[trigger] "MIN"@[i] <= '\u{7f}' && "MIN"@[i]
                != '_' && !('0' <= "MIN"@[i] <= '9'),
        forall|i: int|
            0 <= i < "TRIM"@.len() ==> '\u{1}' <= #[trigger] "TRIM"@[i] <= '\u{7f}' && "TRIM"@[i]
                != '_' && !('0' <= "TRIM"@[i] <= '9'),
        forall|i: int|
            0 <= i < "MAX"@.len() ==> '\u{1}' <= #[trigger] "MAX"@[i] <= '\u{7f}' && "MAX"@[i]
                != '_' && !('0' <= "MAX"@[i] <= '9'),
        forall|i: int|
            0 <= i < "REVERSED"@.len() ==> '\u{1}' <= #[trigger] "REVERSED"@[i] <= '\u{7f}'
                && "REVERSED"@[i] != '_' && !('0' <= "REVERSED"@[i] <= '9'),
        "FUNCTION"@ != "MIN"@,
        "FUNCTION"@ != "TRIM"@,
        "FUNCTION"@ != "MAX"@,
        "FUNCTION"@ != "REVERSED"@,
        "MIN"@ != "TRIM"@,
        "MIN"@ != "MAX"@,
        "TRIM"@ != "MAX"@,
        "REVERSED"@ != "MIN"@,
        "REVERSED"@ != "TRIM"@,
        "REVERSED"@ != "MAX"@,
{
    reveal_strlit("FUNCTION");
    reveal_strlit("MIN");
    reveal_strlit("TRIM");
    reveal_strlit("MAX");
    reveal_strlit("REVERSED");
    assert("MIN"@[1] != "MAX"@[1]);
    assert("FUNCTION"@[0] != "REVERSED"@[0]);
}

/// Reads one cached parameter, compares it to the desired value after
/// encoding, and on a difference (or under force) stages the write and
/// updates the cache.
fn apply_param(
    mav: &mut MavlinkComponent,
    name: String,
    new_value: ParamType,
    force: bool,
    writes: &mut Vec<ParamSetData>,
) -> (r: Result<bool, ParamError>)
    requires
        old(mav).wf(),
        valid_param_name(name@),
        !new_value.is_64bit(),
    ensures
        final(mav).wf(),
        final(mav).spec_system_id() == old(mav).spec_system_id(),
        final(mav).spec_component_id() == old(mav).spec_component_id(),
        final(mav).spec_encoding() == old(mav).spec_encoding(),
        r is Err ==> *final(mav) == *old(mav) && final(writes)@ == old(writes)@,
        !old(mav).cache().contains_name(name@) ==> r == Err::<bool, ParamError>(
            ParamError::ParameterNotFound,
        ),
        old(mav).cache().contains_name(name@) && old(mav).cache().value_of(name@).encode_spec(
            old(mav).spec_encoding(),
        ) is Err ==> r == Err::<bool, ParamError>(ParamError::EncodingUnsupported),
        field_ready(*old(mav), name@) ==> {
            let wrote = would_write(*old(mav), name@, new_value, force);
            &&& r == Ok::<bool, ParamError>(wrote)
            &&& (!wrote ==> *final(mav) == *old(mav) && final(writes)@ == old(writes)@)
            &&& (wrote ==> {
                &&& cache_matches(*final(mav), name@, new_value)
                &&& final(mav).cache().value_of(name@) == new_value
                &&& final(mav).cache().names() == old(mav).cache().names().insert(name@)
                &&& (forall|n: Seq<char>|
                    n != name@ ==> (final(mav).cache().contains_name(n) == old(mav).cache().contains_name(n)))
                &&& (forall|n: Seq<char>|
                    n != name@ && old(mav).cache().contains_name(n) ==> final(mav).cache().value_of(n) == old(mav).cache().value_of(n))
                &&& final(writes)@.len() == old(writes)@.len() + 1
                &&& final(writes)@.subrange(0, old(writes)@.len() as int) == old(writes)@
                &&& final(writes)@.last().param_id@ == crate::parameters::name_id_bytes(name@)
                &&& final(writes)@.last().param_value == new_value.encode_spec(
                    old(mav).spec_encoding(),
                )->Ok_0
                &&& final(writes)@.last().param_type == new_value.wire_type_spec()
            })
        },
{
    let ghost prev_writes = writes@;
    let cur = match mav.get_param(name.as_str()) {
        Some(p) => p.value,
        None => {
            return Err(ParamError::ParameterNotFound);
        },
    };
    let old_bits = match cur.encode(mav.encoding()) {
        Ok(b) => b,
        Err(e) => {
            return Err(e);
        },
    };
    let new_bits = match new_value.encode(mav.encoding()) {
        Ok(b) => b,
        Err(e) => {
            return Err(e);
        },
    };
    if old_bits != new_bits || force {
        let msg = match mav.set_param(Parameter { name, value: new_value }) {
            Ok(m) => m,
            Err(e) => {
                return Err(e);
            },
        };
        writes.push(msg);
        proof {
            assert(writes@.subrange(0, prev_writes.len() as int) =~= prev_writes);
        }
        Ok(true)
    } else {
        Ok(false)
    }
}

/// Converges one servo role (focus, zoom, or the tilt channel): the
/// FUNCTION assignment and the MIN, TRIM and MAX outputs of the role's
/// channel.
///
/// A requested channel switch re-targets every name to the new channel
/// and forces the re-assertion of the role's parameters there; a FUNCTION
/// write classifies as reboot-required, the others as reload-only.
#[verifier::rlimit(100)]
#[verifier::spinoff_prover]
fn update_servo_role(
    mav: &mut MavlinkComponent,
    ch: &mut ServoChannel,
    func: &mut u8,
    min: &mut u16,
    trim: &mut u16,
    max: &mut u16,
    q_ch: Option<ServoChannel>,
    q_func: Option<u8>,
    q_min: Option<u16>,
    q_trim: Option<u16>,
    q_max: Option<u16>,
    force: bool,
    writes: &mut Vec<ParamSetData>,
) -> (r: Result<ConvergenceClass, ParamError>)
    requires
        old(mav).wf(),
    ensures
        final(mav).wf(),
        final(mav).spec_system_id() == old(mav).spec_system_id(),
        final(mav).spec_component_id() == old(mav).spec_component_id(),
        final(mav).spec_encoding() == old(mav).spec_encoding(),
        ({
            let che = eff_channel(q_ch, *old(ch));
            let chn = che.number_spec();
            let force2 = force || che != *old(ch);
            let dfunc = desired_of(q_func, *old(func), force2);
            let dmin = desired_of(q_min, *old(min), force2);
            let dtrim = desired_of(q_trim, *old(trim), force2);
            let dmax = desired_of(q_max, *old(max), force2);
            &&& (r is Ok ==> {
                &&& *final(ch) == che
                &&& *final(func) == (match q_func {
                    Some(v) => v,
                    None => *old(func),
                })
                &&& *final(min) == (match q_min {
                    Some(v) => v,
                    None => *old(min),
                })
                &&& *final(trim) == (match q_trim {
                    Some(v) => v,
                    None => *old(trim),
                })
                &&& *final(max) == (match q_max {
                    Some(v) => v,
                    None => *old(max),
                })
                &&& (dfunc matches Some(v) ==> cache_matches(
                    *final(mav),
                    servo_name(chn, "FUNCTION"@),
                    ParamType::UINT8(v),
                ))
                &&& (dmin matches Some(v) ==> cache_matches(
                    *final(mav),
                    servo_name(chn, "MIN"@),
                    ParamType::UINT16(v),
                ))
                &&& (dtrim matches Some(v) ==> cache_matches(
                    *final(mav),
                    servo_name(chn, "TRIM"@),
                    ParamType::UINT16(v),
                ))
                &&& (dmax matches Some(v) ==> cache_matches(
                    *final(mav),
                    servo_name(chn, "MAX"@),
                    ParamType::UINT16(v),
                ))
                &&& (forall|n: Seq<char>|
                    !servo_role_touched(n, chn) ==> (#[trigger] final(mav).cache().contains_name(
                        n,
                    )) == old(mav).cache().contains_name(n))
                &&& (forall|n: Seq<char>|
                    !servo_role_touched(n, chn) && old(mav).cache().contains_name(n)
                        ==> (#[trigger] final(mav).cache().value_of(n)) == old(mav).cache().value_of(n))
                &&& r->Ok_0.reboot == (dfunc is Some && would_write(
                    *old(mav),
                    servo_name(chn, "FUNCTION"@),
                    ParamType::UINT8(dfunc->0),
                    force2,
                ))
                &&& r->Ok_0.reload == ((dmin is Some && would_write(
                    *old(mav),
                    servo_name(chn, "MIN"@),
                    ParamType::UINT16(dmin->0),
                    force2,
                )) || (dtrim is Some && would_write(
                    *old(mav),
                    servo_name(chn, "TRIM"@),
                    ParamType::UINT16(dtrim->0),
                    force2,
                )) || (dmax is Some && would_write(
                    *old(mav),
                    servo_name(chn, "MAX"@),
                    ParamType::UINT16(dmax->0),
                    force2,
                )))
            })
            &&& (servo_role_ready(*old(mav), chn, dfunc, dmin, dtrim, dmax) ==> r is Ok)
            &&& (r is Ok ==> servo_role_ready(*old(mav), chn, dfunc, dmin, dtrim, dmax))
            &&& (r matches Ok(c) && !c.reboot && !c.reload ==> *final(mav) == *old(mav) && final(writes)@ == old(writes)@)
        }),
{
    let ghost m0 = *mav;
    let cur_ch = *ch;
    let ch_eff = match q_ch {
        Some(c) => c,
        None => cur_ch,
    };
    let ch_changed = match q_ch {
        Some(c) => c != cur_ch,
        None => false,
    };
    let force2 = force || ch_changed;
    let chn = ch_eff.number();
    proof {
        lemma_servo_suffixes();
        lemma_servo_name_ne(chn, "FUNCTION"@, chn, "MIN"@);
        lemma_servo_name_ne(chn, "FUNCTION"@, chn, "TRIM"@);
        lemma_servo_name_ne(chn, "FUNCTION"@, chn, "MAX"@);
        lemma_servo_name_ne(chn, "MIN"@, chn, "TRIM"@);
        lemma_servo_name_ne(chn, "MIN"@, chn, "MAX"@);
        lemma_servo_name_ne(chn, "TRIM"@, chn, "MAX"@);
    }
    let ghost fname = servo_name(chn, "FUNCTION"@);
    let ghost mname = servo_name(chn, "MIN"@);
    let ghost tname = servo_name(chn, "TRIM"@);
    let ghost xname = servo_name(chn, "MAX"@);
    let ghost w0 = writes@;
    // FUNCTION
    let dfunc: Option<u8> = match q_func {
        Some(v) => Some(v),
        None => if force2 {
            Some(*func)
        } else {
            None
        },
    };
    let mut wrote_f = false;
    if let Some(v) = dfunc {
        let name = servo_param_name(chn, "FUNCTION");
        wrote_f = match apply_param(mav, name, ParamType::UINT8(v), force2, writes) {
            Ok(w) => w,
            Err(e) => {
                return Err(e);
            },
        };
    }
    let ghost m1 = *mav;
    let ghost w1 = writes@;
    proof {
        assert(dfunc is Some ==> field_ready(m0, fname));
        assert(wrote_f == (dfunc is Some && would_write(m0, fname, ParamType::UINT8(dfunc->0), force2)));
        assert(dfunc is Some ==> cache_matches(m1, fname, ParamType::UINT8(dfunc->0)));
        assert(w1.len() == w0.len() + (if wrote_f { 1int } else { 0int }));
        assert(!wrote_f ==> m1 == m0 && w1 == w0);
        assert(m1.cache().contains_name(mname) == m0.cache().contains_name(mname));
        assert(m0.cache().contains_name(mname) ==> m1.cache().value_of(mname) == m0.cache().value_of(mname));
        assert(m1.cache().contains_name(tname) == m0.cache().contains_name(tname));
        assert(m0.cache().contains_name(tname) ==> m1.cache().value_of(tname) == m0.cache().value_of(tname));
        assert(m1.cache().contains_name(xname) == m0.cache().contains_name(xname));
        assert(m0.cache().contains_name(xname) ==> m1.cache().value_of(xname) == m0.cache().value_of(xname));
    }
    // MIN
    let dmin: Option<u16> = match q_min {
        Some(v) => Some(v),
        None => if force2 {
            Some(*min)
        } else {
            None
        },
    };
    let mut wrote_m = false;
    if let Some(v) = dmin {
        let name = servo_param_name(chn, "MIN");
        wrote_m = match apply_param(mav, name, ParamType::UINT16(v), force2, writes) {
            Ok(w) => w,
            Err(e) => {
                return Err(e);
            },
        };
    }
    let ghost m2 = *mav;
    let ghost w2 = writes@;
    proof {
        assert(dmin is Some ==> field_ready(m0, mname));
        assert(wrote_m == (dmin is Some && would_write(m0, mname, ParamType::UINT16(dmin->0), force2)));
        assert(dmin is Some ==> cache_matches(m2, mname, ParamType::UINT16(dmin->0)));
        assert(dfunc is Some ==> cache_matches(m2, fname, ParamType::UINT8(dfunc->0)));
        assert(w2.len() == w1.len() + (if wrote_m { 1int } else { 0int }));
        assert(!wrote_m ==> m2 == m1 && w2 == w1);
        assert(m2.cache().contains_name(tname) == m0.cache().contains_name(tname));
        assert(m0.cache().contains_name(tname) ==> m2.cache().value_of(tname) == m0.cache().value_of(tname));
        assert(m2.cache().contains_name(xname) == m0.cache().contains_name(xname));
        assert(m0.cache().contains_name(xname) ==> m2.cache().value_of(xname) == m0.cache().value_of(xname));
    }
    // TRIM
    let dtrim: Option<u16> = match q_trim {
        Some(v) => Some(v),
        None => if force2 {
            Some(*trim)
        } else {
            None
        },
    };
    let mut wrote_t = false;
    if let Some(v) = dtrim {
        let name = servo_param_name(chn, "TRIM");
        wrote_t = match apply_param(mav, name, ParamType::UINT16(v), force2, writes) {
            Ok(w) => w,
            Err(e) => {
                return Err(e);
            },
        };
    }
    let ghost m3 = *mav;
    let ghost w3 = writes@;
    proof {
        assert(dtrim is Some ==> field_ready(m0, tname));
        assert(wrote_t == (dtrim is Some && would_write(m0, tname, ParamType::UINT16(dtrim->0), force2)));
        assert(dtrim is Some ==> cache_matches(m3, tname, ParamType::UINT16(dtrim->0)));
        assert(dmin is Some ==> cache_matches(m3, mname, ParamType::UINT16(dmin->0)));
        assert(dfunc is Some ==> cache_matches(m3, fname, ParamType::UINT8(dfunc->0)));
        assert(w3.len() == w2.len() + (if wrote_t { 1int } else { 0int }));
        assert(!wrote_t ==> m3 == m2 && w3 == w2);
        assert(m3.cache().contains_name(xname) == m0.cache().contains_name(xname));
        assert(m0.cache().contains_name(xname) ==> m3.cache().value_of(xname) == m0.cache().value_of(xname));
    }
    // MAX
    let dmax: Option<u16> = match q_max {
        Some(v) => Some(v),
        None => if force2 {
            Some(*max)
        } else {
            None
        },
    };
    let mut wrote_x = false;
    if let Some(v) = dmax {
        let name = servo_param_name(chn, "MAX");
        wrote_x = match apply_param(mav, name, ParamType::UINT16(v), force2, writes) {
            Ok(w) => w,
            Err(e) => {
                return Err(e);
            },
        };
    }
    let ghost m4 = *mav;
    let ghost w4 = writes@;
    proof {
        assert(dmax is Some ==> field_ready(m0, xname));
        assert(wrote_x == (dmax is Some && would_write(m0, xname, ParamType::UINT16(dmax->0), force2)));
        assert(dmax is Some ==> cache_matches(m4, xname, ParamType::UINT16(dmax->0)));
        assert(dtrim is Some ==> cache_matches(m4, tname, ParamType::UINT16(dtrim->0)));
        assert(dmin is Some ==> cache_matches(m4, mname, ParamType::UINT16(dmin->0)));
        assert(dfunc is Some ==> cache_matches(m4, fname, ParamType::UINT8(dfunc->0)));
        assert(w4.len() == w3.len() + (if wrote_x { 1int } else { 0int }));
        assert(!wrote_x ==> m4 == m3 && w4 == w3);
        assert(!wrote_f && !wrote_m && !wrote_t && !wrote_x ==> m4 == m0 && w4 == w0);
        assert forall|n: Seq<char>|
            !servo_role_touched(n, chn) implies (m4.cache().contains_name(n)
            == m0.cache().contains_name(n)) by {
            assert(m1.cache().contains_name(n) == m0.cache().contains_name(n));
            assert(m2.cache().contains_name(n) == m1.cache().contains_name(n));
            assert(m3.cache().contains_name(n) == m2.cache().contains_name(n));
            assert(m4.cache().contains_name(n) == m3.cache().contains_name(n));
        }
        assert forall|n: Seq<char>|
            !servo_role_touched(n, chn) && m0.cache().contains_name(n) implies (
        m4.cache().value_of(n) == m0.cache().value_of(n)) by {
            assert(m1.cache().contains_name(n) == m0.cache().contains_name(n));
            assert(m2.cache().contains_name(n) == m1.cache().contains_name(n));
            assert(m3.cache().contains_name(n) == m2.cache().contains_name(n));
            assert(m1.cache().value_of(n) == m0.cache().value_of(n));
            assert(m2.cache().value_of(n) == m1.cache().value_of(n));
            assert(m3.cache().value_of(n) == m2.cache().value_of(n));
            assert(m4.cache().value_of(n) == m3.cache().value_of(n));
        }
    }
    // Mirror updates: the role now sits on the effective channel with the
    // effective values.
    *ch = ch_eff;
    if let Some(v) = q_func {
        *func = v;
    }
    if let Some(v) = q_min {
        *min = v;
    }
    if let Some(v) = q_trim {
        *trim = v;
    }
    if let Some(v) = q_max {
        *max = v;
    }
    Ok(ConvergenceClass { reboot: wrote_f, reload: wrote_m || wrote_t || wrote_x })
}

/// True when `n` is the tilt reversal parameter or one of the three mount
/// parameters.
pub open spec fn tilt_mount_touched(n: Seq<char>, chn: u8, f: TiltChannelFunction) -> bool {
    ||| n == servo_name(chn, "REVERSED"@)
    ||| n == mnt_name(f, "TYPE"@)
    ||| n == mnt_name(f, "PITCH_MIN"@)
    ||| n == mnt_name(f, "PITCH_MAX"@)
}

/// The mount suffixes are usable parameter-name suffixes and pairwise
/// distinct.
proof fn lemma_mnt_suffixes()
    ensures
        "TYPE"@.len() == 4,
        "PITCH_MIN"@.len() == 9,
        "PITCH_MAX"@.len() == 9,
        forall|i: int|
            0 <= i < "TYPE"@.len() ==> '\u{1}' <= #[trigger] "TYPE"@[i] <= '\u{7f}',
        forall|i: int|
            0 <= i < "PITCH_MIN"@.len() ==> '\u{1}' <= #[trigger] "PITCH_MIN"@[i] <= '\u{7f}',
        forall|i: int|
            0 <= i < "PITCH_MAX"@.len() ==> '\u{1}' <= #[trigger] "PITCH_MAX"@[i] <= '\u{7f}',
        "TYPE"@ != "PITCH_MIN"@,
        "TYPE"@ != "PITCH_MAX"@,
        "PITCH_MIN"@ != "PITCH_MAX"@,
{
    reveal_strlit("TYPE");
    reveal_strlit("PITCH_MIN");
    reveal_strlit("PITCH_MAX");
    assert("PITCH_MIN"@[7] != "PITCH_MAX"@[7]);
}

/// Converges the tilt extras: the reversal flag of the tilt channel and
/// the type and pitch limits of the mount the tilt drives.
///
/// A mount-type write classifies as reboot-required; reversal and pitch
/// limits as reload-only.
#[verifier::rlimit(100)]
#[verifier::spinoff_prover]
fn update_tilt_mount(
    mav: &mut MavlinkComponent,
    reversed: &mut bool,
    mnt_type: &mut u8,
    pitch_min: &mut i32,
    pitch_max: &mut i32,
    chn: u8,
    f_eff: TiltChannelFunction,
    q_reversed: Option<bool>,
    q_mnt_type: Option<u8>,
    q_pitch_min: Option<i32>,
    q_pitch_max: Option<i32>,
    force2: bool,
    force3: bool,
    writes: &mut Vec<ParamSetData>,
) -> (r: Result<ConvergenceClass, ParamError>)
    requires
        old(mav).wf(),
        1 <= chn <= 32,
    ensures
        final(mav).wf(),
        final(mav).spec_system_id() == old(mav).spec_system_id(),
        final(mav).spec_component_id() == old(mav).spec_component_id(),
        final(mav).spec_encoding() == old(mav).spec_encoding(),
        ({
            let dr = desired_of(q_reversed, *old(reversed), force2);
            let dy = desired_of(q_mnt_type, *old(mnt_type), force3);
            let dpn = desired_of(q_pitch_min, *old(pitch_min), force3);
            let dpx = desired_of(q_pitch_max, *old(pitch_max), force3);
            &&& (r is Ok ==> {
                &&& *final(reversed) == (match q_reversed {
                    Some(v) => v,
                    None => *old(reversed),
                })
                &&& *final(mnt_type) == (match q_mnt_type {
                    Some(v) => v,
                    None => *old(mnt_type),
                })
                &&& *final(pitch_min) == (match q_pitch_min {
                    Some(v) => v,
                    None => *old(pitch_min),
                })
                &&& *final(pitch_max) == (match q_pitch_max {
                    Some(v) => v,
                    None => *old(pitch_max),
                })
                &&& (dr matches Some(v) ==> cache_matches(
                    *final(mav),
                    servo_name(chn, "REVERSED"@),
                    ParamType::UINT8(if v { 1 } else { 0 }),
                ))
                &&& (dy matches Some(v) ==> cache_matches(
                    *final(mav),
                    mnt_name(f_eff, "TYPE"@),
                    ParamType::UINT8(v),
                ))
                &&& (dpn matches Some(v) ==> cache_matches(
                    *final(mav),
                    mnt_name(f_eff, "PITCH_MIN"@),
                    ParamType::INT32(v),
                ))
                &&& (dpx matches Some(v) ==> cache_matches(
                    *final(mav),
                    mnt_name(f_eff, "PITCH_MAX"@),
                    ParamType::INT32(v),
                ))
                &&& (forall|n: Seq<char>|
                    !tilt_mount_touched(n, chn, f_eff) ==> (#[trigger] final(mav).cache().contains_name(n)) == old(mav).cache().contains_name(n))
                &&& (forall|n: Seq<char>|
                    !tilt_mount_touched(n, chn, f_eff) && old(mav).cache().contains_name(n)
                        ==> (#[trigger] final(mav).cache().value_of(n)) == old(mav).cache().value_of(n))
                &&& r->Ok_0.reboot == (dy is Some && would_write(
                    *old(mav),
                    mnt_name(f_eff, "TYPE"@),
                    ParamType::UINT8(dy->0),
                    force3,
                ))
                &&& r->Ok_0.reload == ((dr is Some && would_write(
                    *old(mav),
                    servo_name(chn, "REVERSED"@),
                    ParamType::UINT8(if dr->0 { 1 } else { 0 }),
                    force2,
                )) || (dpn is Some && would_write(
                    *old(mav),
                    mnt_name(f_eff, "PITCH_MIN"@),
                    ParamType::INT32(dpn->0),
                    force3,
                )) || (dpx is Some && would_write(
                    *old(mav),
                    mnt_name(f_eff, "PITCH_MAX"@),
                    ParamType::INT32(dpx->0),
                    force3,
                )))
            })
            &&& (tilt_mount_ready(*old(mav), chn, f_eff, dr, dy, dpn, dpx) ==> r is Ok)
            &&& (r is Ok ==> tilt_mount_ready(*old(mav), chn, f_eff, dr, dy, dpn, dpx))
            &&& (r matches Ok(c) && !c.reboot && !c.reload ==> *final(mav) == *old(mav)
                && final(writes)@ == old(writes)@)
        }),
{
    let ghost m0 = *mav;
    proof {
        lemma_servo_suffixes();
        lemma_mnt_suffixes();
        lemma_servo_mnt_ne(chn, "REVERSED"@, f_eff, "TYPE"@);
        lemma_servo_mnt_ne(chn, "REVERSED"@, f_eff, "PITCH_MIN"@);
        lemma_servo_mnt_ne(chn, "REVERSED"@, f_eff, "PITCH_MAX"@);
        lemma_mnt_name_ne(f_eff, "TYPE"@, f_eff, "PITCH_MIN"@);
        lemma_mnt_name_ne(f_eff, "TYPE"@, f_eff, "PITCH_MAX"@);
        lemma_mnt_name_ne(f_eff, "PITCH_MIN"@, f_eff, "PITCH_MAX"@);
    }
    let ghost rname = servo_name(chn, "REVERSED"@);
    let ghost yname = mnt_name(f_eff, "TYPE"@);
    let ghost nname = mnt_name(f_eff, "PITCH_MIN"@);
    let ghost xname = mnt_name(f_eff, "PITCH_MAX"@);
    let ghost w0 = writes@;
    // REVERSED
    let dr: Option<bool> = match q_reversed {
        Some(v) => Some(v),
        None => if force2 {
            Some(*reversed)
        } else {
            None
        },
    };
    let mut wrote_r = false;
    if let Some(v) = dr {
        let name = servo_param_name(chn, "REVERSED");
        let value = ParamType::UINT8(if v { 1 } else { 0 });
        wrote_r = match apply_param(mav, name, value, force2, writes) {
            Ok(w) => w,
            Err(e) => {
                return Err(e);
            },
        };
    }
    let ghost m1 = *mav;
    let ghost w1 = writes@;
    proof {
        assert(dr is Some ==> field_ready(m0, rname));
        assert(wrote_r == (dr is Some && would_write(
            m0,
            rname,
            ParamType::UINT8(if dr->0 { 1 } else { 0 }),
            force2,
        )));
        assert(dr is Some ==> cache_matches(m1, rname, ParamType::UINT8(if dr->0 { 1 } else { 0 })));
        assert(w1.len() == w0.len() + (if wrote_r { 1int } else { 0int }));
        assert(!wrote_r ==> m1 == m0 && w1 == w0);
        assert(m1.cache().contains_name(yname) == m0.cache().contains_name(yname));
        assert(m0.cache().contains_name(yname) ==> m1.cache().value_of(yname) == m0.cache().value_of(yname));
        assert(m1.cache().contains_name(nname) == m0.cache().contains_name(nname));
        assert(m0.cache().contains_name(nname) ==> m1.cache().value_of(nname) == m0.cache().value_of(nname));
        assert(m1.cache().contains_name(xname) == m0.cache().contains_name(xname));
        assert(m0.cache().contains_name(xname) ==> m1.cache().value_of(xname) == m0.cache().value_of(xname));
    }
    // MNT TYPE
    let dy: Option<u8> = match q_mnt_type {
        Some(v) => Some(v),
        None => if force3 {
            Some(*mnt_type)
        } else {
            None
        },
    };
    let mut wrote_y = false;
    if let Some(v) = dy {
        let name = mnt_param_name(f_eff, "TYPE");
        wrote_y = match apply_param(mav, name, ParamType::UINT8(v), force3, writes) {
            Ok(w) => w,
            Err(e) => {
                return Err(e);
            },
        };
    }
    let ghost m2 = *mav;
    let ghost w2 = writes@;
    proof {
        assert(dy is Some ==> field_ready(m0, yname));
        assert(wrote_y == (dy is Some && would_write(m0, yname, ParamType::UINT8(dy->0), force3)));
        assert(dy is Some ==> cache_matches(m2, yname, ParamType::UINT8(dy->0)));
        assert(dr is Some ==> cache_matches(m2, rname, ParamType::UINT8(if dr->0 { 1 } else { 0 })));
        assert(w2.len() == w1.len() + (if wrote_y { 1int } else { 0int }));
        assert(!wrote_y ==> m2 == m1 && w2 == w1);
        assert(m2.cache().contains_name(nname) == m0.cache().contains_name(nname));
        assert(m0.cache().contains_name(nname) ==> m2.cache().value_of(nname) == m0.cache().value_of(nname));
        assert(m2.cache().contains_name(xname) == m0.cache().contains_name(xname));
        assert(m0.cache().contains_name(xname) ==> m2.cache().value_of(xname) == m0.cache().value_of(xname));
    }
    // MNT PITCH_MIN
    let dpn: Option<i32> = match q_pitch_min {
        Some(v) => Some(v),
        None => if force3 {
            Some(*pitch_min)
        } else {
            None
        },
    };
    let mut wrote_n = false;
    if let Some(v) = dpn {
        let name = mnt_param_name(f_eff, "PITCH_MIN");
        wrote_n = match apply_param(mav, name, ParamType::INT32(v), force3, writes) {
            Ok(w) => w,
            Err(e) => {
                return Err(e);
            },
        };
    }
    let ghost m3 = *mav;
    let ghost w3 = writes@;
    proof {
        assert(dpn is Some ==> field_ready(m0, nname));
        assert(wrote_n == (dpn is Some && would_write(m0, nname, ParamType::INT32(dpn->0), force3)));
        assert(dpn is Some ==> cache_matches(m3, nname, ParamType::INT32(dpn->0)));
        assert(dy is Some ==> cache_matches(m3, yname, ParamType::UINT8(dy->0)));
        assert(dr is Some ==> cache_matches(m3, rname, ParamType::UINT8(if dr->0 { 1 } else { 0 })));
        assert(w3.len() == w2.len() + (if wrote_n { 1int } else { 0int }));
        assert(!wrote_n ==> m3 == m2 && w3 == w2);
        assert(m3.cache().contains_name(xname) == m0.cache().contains_name(xname));
        assert(m0.cache().contains_name(xname) ==> m3.cache().value_of(xname) == m0.cache().value_of(xname));
    }
    // MNT PITCH_MAX
    let dpx: Option<i32> = match q_pitch_max {
        Some(v) => Some(v),
        None => if force3 {
            Some(*pitch_max)
        } else {
            None
        },
    };
    let mut wrote_x = false;
    if let Some(v) = dpx {
        let name = mnt_param_name(f_eff, "PITCH_MAX");
        wrote_x = match apply_param(mav, name, ParamType::INT32(v), force3, writes) {
            Ok(w) => w,
            Err(e) => {
                return Err(e);
            },
        };
    }
    let ghost m4 = *mav;
    let ghost w4 = writes@;
    proof {
        assert(dpx is Some ==> field_ready(m0, xname));
        assert(wrote_x == (dpx is Some && would_write(m0, xname, ParamType::INT32(dpx->0), force3)));
        assert(dpx is Some ==> cache_matches(m4, xname, ParamType::INT32(dpx->0)));
        assert(dpn is Some ==> cache_matches(m4, nname, ParamType::INT32(dpn->0)));
        assert(dy is Some ==> cache_matches(m4, yname, ParamType::UINT8(dy->0)));
        assert(dr is Some ==> cache_matches(m4, rname, ParamType::UINT8(if dr->0 { 1 } else { 0 })));
        assert(w4.len() == w3.len() + (if wrote_x { 1int } else { 0int }));
        assert(!wrote_x ==> m4 == m3 && w4 == w3);
        assert(!wrote_r && !wrote_y && !wrote_n && !wrote_x ==> m4 == m0 && w4 == w0);
        assert forall|n: Seq<char>|
            !tilt_mount_touched(n, chn, f_eff) implies (m4.cache().contains_name(n)
            == m0.cache().contains_name(n)) by {
            assert(m1.cache().contains_name(n) == m0.cache().contains_name(n));
            assert(m2.cache().contains_name(n) == m1.cache().contains_name(n));
            assert(m3.cache().contains_name(n) == m2.cache().contains_name(n));
            assert(m4.cache().contains_name(n) == m3.cache().contains_name(n));
        }
        assert forall|n: Seq<char>|
            !tilt_mount_touched(n, chn, f_eff) && m0.cache().contains_name(n) implies (
        m4.cache().value_of(n) == m0.cache().value_of(n)) by {
            assert(m1.cache().contains_name(n) == m0.cache().contains_name(n));
            assert(m2.cache().contains_name(n) == m1.cache().contains_name(n));
            assert(m3.cache().contains_name(n) == m2.cache().contains_name(n));
            assert(m1.cache().value_of(n) == m0.cache().value_of(n));
            assert(m2.cache().value_of(n) == m1.cache().value_of(n));
            assert(m3.cache().value_of(n) == m2.cache().value_of(n));
            assert(m4.cache().value_of(n) == m3.cache().value_of(n));
        }
    }
    if let Some(v) = q_reversed {
        *reversed = v;
    }
    if let Some(v) = q_mnt_type {
        *mnt_type = v;
    }
    if let Some(v) = q_pitch_min {
        *pitch_min = v;
    }
    if let Some(v) = q_pitch_max {
        *pitch_max = v;
    }
    Ok(ConvergenceClass { reboot: wrote_y, reload: wrote_r || wrote_n || wrote_x })
}

/// Whether a role's writes are forced: the overall force, or a channel
/// switch that re-targets the role's parameters.
pub open spec fn role_force(force: bool, q_ch: Option<ServoChannel>, cur: ServoChannel) -> bool {
    force || (match q_ch {
        Some(c) => c != cur,
        None => false,
    })
}

/// Whether the mount's writes are forced: the overall force, or a mount
/// switch that re-targets the mount parameters.
pub open spec fn mount_force(
    force: bool,
    q_f: Option<TiltChannelFunction>,
    cur: TiltChannelFunction,
) -> bool {
    force || (match q_f {
        Some(f) => f != cur,
        None => false,
    })
}

/// The desired-configuration request a convergence pass effectively
/// serves: an all-empty request without force is the defined
/// reset-to-default, every other request is itself.
pub open spec fn effective_query(
    q: FocusAndZoomParametersQuery,
    force: bool,
) -> FocusAndZoomParametersQuery {
    if q.is_all_none_spec() && !force {
        query_of(default_parameters())
    } else {
        q
    }
}

/// The force flag a convergence pass effectively runs with.
pub open spec fn effective_force(q: FocusAndZoomParametersQuery, force: bool) -> bool {
    if q.is_all_none_spec() && !force {
        true
    } else {
        force
    }
}

/// The three roles sit on pairwise distinct channels after the pass.
pub open spec fn distinct_channels(
    p: FocusAndZoomParameters,
    q: FocusAndZoomParametersQuery,
) -> bool {
    let cf = eff_channel(q.focus_channel, p.focus_channel).number_spec();
    let cz = eff_channel(q.zoom_channel, p.zoom_channel).number_spec();
    let ct = eff_channel(q.tilt_channel, p.tilt_channel).number_spec();
    cf != cz && cf != ct && cz != ct
}

/// The read-compare-write of one servo role can proceed: every name the
/// role's desired fields target is cached with an encodable value.
pub open spec fn servo_role_ready(
    mav: MavlinkComponent,
    chn: u8,
    dfunc: Option<u8>,
    dmin: Option<u16>,
    dtrim: Option<u16>,
    dmax: Option<u16>,
) -> bool {
    &&& (dfunc is Some ==> field_ready(mav, servo_name(chn, "FUNCTION"@)))
    &&& (dmin is Some ==> field_ready(mav, servo_name(chn, "MIN"@)))
    &&& (dtrim is Some ==> field_ready(mav, servo_name(chn, "TRIM"@)))
    &&& (dmax is Some ==> field_ready(mav, servo_name(chn, "MAX"@)))
}

/// The read-compare-write of the tilt extras can proceed.
pub open spec fn tilt_mount_ready(
    mav: MavlinkComponent,
    chn: u8,
    f: TiltChannelFunction,
    dr: Option<bool>,
    dy: Option<u8>,
    dpn: Option<i32>,
    dpx: Option<i32>,
) -> bool {
    &&& (dr is Some ==> field_ready(mav, servo_name(chn, "REVERSED"@)))
    &&& (dy is Some ==> field_ready(mav, mnt_name(f, "TYPE"@)))
    &&& (dpn is Some ==> field_ready(mav, mnt_name(f, "PITCH_MIN"@)))
    &&& (dpx is Some ==> field_ready(mav, mnt_name(f, "PITCH_MAX"@)))
}

/// One servo role's reboot-class delta: its FUNCTION parameter would be
/// written.
pub open spec fn servo_role_reboot_would(
    mav: MavlinkComponent,
    chn: u8,
    dfunc: Option<u8>,
    force2: bool,
) -> bool {
    dfunc is Some && would_write(
        mav,
        servo_name(chn, "FUNCTION"@),
        ParamType::UINT8(dfunc->0),
        force2,
    )
}

/// One servo role's reload-class delta: a MIN, TRIM or MAX parameter
/// would be written.
pub open spec fn servo_role_reload_would(
    mav: MavlinkComponent,
    chn: u8,
    dmin: Option<u16>,
    dtrim: Option<u16>,
    dmax: Option<u16>,
    force2: bool,
) -> bool {
    ||| (dmin is Some && would_write(
        mav,
        servo_name(chn, "MIN"@),
        ParamType::UINT16(dmin->0),
        force2,
    ))
    ||| (dtrim is Some && would_write(
        mav,
        servo_name(chn, "TRIM"@),
        ParamType::UINT16(dtrim->0),
        force2,
    ))
    ||| (dmax is Some && would_write(
        mav,
        servo_name(chn, "MAX"@),
        ParamType::UINT16(dmax->0),
        force2,
    ))
}

/// The tilt extras' reboot-class delta: the mount type would be written.
pub open spec fn tilt_mount_reboot_would(
    mav: MavlinkComponent,
    f: TiltChannelFunction,
    dy: Option<u8>,
    force3: bool,
) -> bool {
    dy is Some && would_write(mav, mnt_name(f, "TYPE"@), ParamType::UINT8(dy->0), force3)
}

/// The tilt extras' reload-class delta: the reversal flag or a pitch
/// bound would be written.
pub open spec fn tilt_mount_reload_would(
    mav: MavlinkComponent,
    chn: u8,
    f: TiltChannelFunction,
    dr: Option<bool>,
    dpn: Option<i32>,
    dpx: Option<i32>,
    force2: bool,
    force3: bool,
) -> bool {
    ||| (dr is Some && would_write(
        mav,
        servo_name(chn, "REVERSED"@),
        ParamType::UINT8(
            if dr->0 {
                1
            } else {
                0
            },
        ),
        force2,
    ))
    ||| (dpn is Some && would_write(
        mav,
        mnt_name(f, "PITCH_MIN"@),
        ParamType::INT32(dpn->0),
        force3,
    ))
    ||| (dpx is Some && would_write(
        mav,
        mnt_name(f, "PITCH_MAX"@),
        ParamType::INT32(dpx->0),
        force3,
    ))
}

/// The channel number the focus role ends up on.
pub open spec fn pass_focus_chn(p: FocusAndZoomParameters, q: FocusAndZoomParametersQuery) -> u8 {
    eff_channel(q.focus_channel, p.focus_channel).number_spec()
}

/// The channel number the zoom role ends up on.
pub open spec fn pass_zoom_chn(p: FocusAndZoomParameters, q: FocusAndZoomParametersQuery) -> u8 {
    eff_channel(q.zoom_channel, p.zoom_channel).number_spec()
}

/// The channel number the tilt role ends up on.
pub open spec fn pass_tilt_chn(p: FocusAndZoomParameters, q: FocusAndZoomParametersQuery) -> u8 {
    eff_channel(q.tilt_channel, p.tilt_channel).number_spec()
}

/// The mount function the tilt role ends up on.
pub open spec fn pass_tilt_f(
    p: FocusAndZoomParameters,
    q: FocusAndZoomParametersQuery,
) -> TiltChannelFunction {
    match q.tilt_channel_function {
        Some(f) => f,
        None => p.tilt_channel_function,
    }
}

/// The tilt role's FUNCTION request, as the wire code.
pub open spec fn pass_tilt_qfunc(q: FocusAndZoomParametersQuery) -> Option<u8> {
    match q.tilt_channel_function {
        Some(f) => Some(f.code_spec()),
        None => None,
    }
}

/// The focus role's effective force flag.
pub open spec fn pass_focus_force(
    p: FocusAndZoomParameters,
    q: FocusAndZoomParametersQuery,
    force: bool,
) -> bool {
    role_force(force, q.focus_channel, p.focus_channel)
}

/// The zoom role's effective force flag.
pub open spec fn pass_zoom_force(
    p: FocusAndZoomParameters,
    q: FocusAndZoomParametersQuery,
    force: bool,
) -> bool {
    role_force(force, q.zoom_channel, p.zoom_channel)
}

/// The tilt role's effective force flag.
pub open spec fn pass_tilt_force(
    p: FocusAndZoomParameters,
    q: FocusAndZoomParametersQuery,
    force: bool,
) -> bool {
    role_force(force, q.tilt_channel, p.tilt_channel)
}

/// The mount's effective force flag.
pub open spec fn pass_mount_force(
    p: FocusAndZoomParameters,
    q: FocusAndZoomParametersQuery,
    force: bool,
) -> bool {
    mount_force(force, q.tilt_channel_function, p.tilt_channel_function)
}

/// A whole pass's reboot classification over the starting state: a
/// channel-function assignment or the mount type would be written.
pub open spec fn reboot_class_would(
    mav: MavlinkComponent,
    p: FocusAndZoomParameters,
    q: FocusAndZoomParametersQuery,
    force: bool,
) -> bool {
    ||| servo_role_reboot_would(
        mav,
        pass_focus_chn(p, q),
        desired_of(q.focus_channel_function, p.focus_channel_function, pass_focus_force(p, q, force)),
        pass_focus_force(p, q, force),
    )
    ||| servo_role_reboot_would(
        mav,
        pass_zoom_chn(p, q),
        desired_of(q.zoom_channel_function, p.zoom_channel_function, pass_zoom_force(p, q, force)),
        pass_zoom_force(p, q, force),
    )
    ||| servo_role_reboot_would(
        mav,
        pass_tilt_chn(p, q),
        desired_of(
            pass_tilt_qfunc(q),
            p.tilt_channel_function.code_spec(),
            pass_tilt_force(p, q, force),
        ),
        pass_tilt_force(p, q, force),
    )
    ||| tilt_mount_reboot_would(
        mav,
        pass_tilt_f(p, q),
        desired_of(q.tilt_mnt_type, p.tilt_mnt_type, pass_mount_force(p, q, force)),
        pass_mount_force(p, q, force),
    )
}

/// A whole pass's reload classification over the starting state: an
/// output range, trim, reversal or pitch bound would be written.
pub open spec fn reload_class_would(
    mav: MavlinkComponent,
    p: FocusAndZoomParameters,
    q: FocusAndZoomParametersQuery,
    force: bool,
) -> bool {
    ||| servo_role_reload_would(
        mav,
        pass_focus_chn(p, q),
        desired_of(q.focus_channel_min, p.focus_channel_min, pass_focus_force(p, q, force)),
        desired_of(q.focus_channel_trim, p.focus_channel_trim, pass_focus_force(p, q, force)),
        desired_of(q.focus_channel_max, p.focus_channel_max, pass_focus_force(p, q, force)),
        pass_focus_force(p, q, force),
    )
    ||| servo_role_reload_would(
        mav,
        pass_zoom_chn(p, q),
        desired_of(q.zoom_channel_min, p.zoom_channel_min, pass_zoom_force(p, q, force)),
        desired_of(q.zoom_channel_trim, p.zoom_channel_trim, pass_zoom_force(p, q, force)),
        desired_of(q.zoom_channel_max, p.zoom_channel_max, pass_zoom_force(p, q, force)),
        pass_zoom_force(p, q, force),
    )
    ||| servo_role_reload_would(
        mav,
        pass_tilt_chn(p, q),
        desired_of(q.tilt_channel_min, p.tilt_channel_min, pass_tilt_force(p, q, force)),
        desired_of(q.tilt_channel_trim, p.tilt_channel_trim, pass_tilt_force(p, q, force)),
        desired_of(q.tilt_channel_max, p.tilt_channel_max, pass_tilt_force(p, q, force)),
        pass_tilt_force(p, q, force),
    )
    ||| tilt_mount_reload_would(
        mav,
        pass_tilt_chn(p, q),
        pass_tilt_f(p, q),
        desired_of(q.tilt_channel_reversed, p.tilt_channel_reversed, pass_tilt_force(p, q, force)),
        desired_of(q.tilt_mnt_pitch_min, p.tilt_mnt_pitch_min, pass_mount_force(p, q, force)),
        desired_of(q.tilt_mnt_pitch_max, p.tilt_mnt_pitch_max, pass_mount_force(p, q, force)),
        pass_tilt_force(p, q, force),
        pass_mount_force(p, q, force),
    )
}

/// The three servo roles' readiness over the starting state.
pub open spec fn roles_ready(
    mav: MavlinkComponent,
    p: FocusAndZoomParameters,
    q: FocusAndZoomParametersQuery,
    force: bool,
) -> bool {
    &&& servo_role_ready(
        mav,
        pass_focus_chn(p, q),
        desired_of(q.focus_channel_function, p.focus_channel_function, pass_focus_force(p, q, force)),
        desired_of(q.focus_channel_min, p.focus_channel_min, pass_focus_force(p, q, force)),
        desired_of(q.focus_channel_trim, p.focus_channel_trim, pass_focus_force(p, q, force)),
        desired_of(q.focus_channel_max, p.focus_channel_max, pass_focus_force(p, q, force)),
    )
    &&& servo_role_ready(
        mav,
        pass_zoom_chn(p, q),
        desired_of(q.zoom_channel_function, p.zoom_channel_function, pass_zoom_force(p, q, force)),
        desired_of(q.zoom_channel_min, p.zoom_channel_min, pass_zoom_force(p, q, force)),
        desired_of(q.zoom_channel_trim, p.zoom_channel_trim, pass_zoom_force(p, q, force)),
        desired_of(q.zoom_channel_max, p.zoom_channel_max, pass_zoom_force(p, q, force)),
    )
    &&& servo_role_ready(
        mav,
        pass_tilt_chn(p, q),
        desired_of(
            pass_tilt_qfunc(q),
            p.tilt_channel_function.code_spec(),
            pass_tilt_force(p, q, force),
        ),
        desired_of(q.tilt_channel_min, p.tilt_channel_min, pass_tilt_force(p, q, force)),
        desired_of(q.tilt_channel_trim, p.tilt_channel_trim, pass_tilt_force(p, q, force)),
        desired_of(q.tilt_channel_max, p.tilt_channel_max, pass_tilt_force(p, q, force)),
    )
}

/// A whole pass's readiness over the starting state: every targeted name
/// is cached with an encodable value.
pub open spec fn ready_all(
    mav: MavlinkComponent,
    p: FocusAndZoomParameters,
    q: FocusAndZoomParametersQuery,
    force: bool,
) -> bool {
    &&& roles_ready(mav, p, q, force)
    &&& tilt_mount_ready(
        mav,
        pass_tilt_chn(p, q),
        pass_tilt_f(p, q),
        desired_of(q.tilt_channel_reversed, p.tilt_channel_reversed, pass_tilt_force(p, q, force)),
        desired_of(q.tilt_mnt_type, p.tilt_mnt_type, pass_mount_force(p, q, force)),
        desired_of(q.tilt_mnt_pitch_min, p.tilt_mnt_pitch_min, pass_mount_force(p, q, force)),
        desired_of(q.tilt_mnt_pitch_max, p.tilt_mnt_pitch_max, pass_mount_force(p, q, force)),
    )
}

/// True when `n` is one of the twelve names the three servo roles touch.
pub open spec fn roles_touched(n: Seq<char>, ncf: u8, ncz: u8, nct: u8) -> bool {
    ||| servo_role_touched(n, ncf)
    ||| servo_role_touched(n, ncz)
    ||| servo_role_touched(n, nct)
}

/// The cache matches one servo role's requested fields.
pub open spec fn servo_role_converged(
    mav: MavlinkComponent,
    chn: u8,
    q_func: Option<u8>,
    q_min: Option<u16>,
    q_trim: Option<u16>,
    q_max: Option<u16>,
) -> bool {
    &&& (q_func matches Some(v) ==> cache_matches(
        mav,
        servo_name(chn, "FUNCTION"@),
        ParamType::UINT8(v),
    ))
    &&& (q_min matches Some(v) ==> cache_matches(
        mav,
        servo_name(chn, "MIN"@),
        ParamType::UINT16(v),
    ))
    &&& (q_trim matches Some(v) ==> cache_matches(
        mav,
        servo_name(chn, "TRIM"@),
        ParamType::UINT16(v),
    ))
    &&& (q_max matches Some(v) ==> cache_matches(
        mav,
        servo_name(chn, "MAX"@),
        ParamType::UINT16(v),
    ))
}

/// The cache matches the tilt extras' requested fields.
pub open spec fn tilt_mount_converged(
    mav: MavlinkComponent,
    chn: u8,
    f: TiltChannelFunction,
    q_reversed: Option<bool>,
    q_mnt_type: Option<u8>,
    q_pitch_min: Option<i32>,
    q_pitch_max: Option<i32>,
) -> bool {
    &&& (q_reversed matches Some(v) ==> cache_matches(
        mav,
        servo_name(chn, "REVERSED"@),
        ParamType::UINT8(if v {
            1
        } else {
            0
        }),
    ))
    &&& (q_mnt_type matches Some(v) ==> cache_matches(
        mav,
        mnt_name(f, "TYPE"@),
        ParamType::UINT8(v),
    ))
    &&& (q_pitch_min matches Some(v) ==> cache_matches(
        mav,
        mnt_name(f, "PITCH_MIN"@),
        ParamType::INT32(v),
    ))
    &&& (q_pitch_max matches Some(v) ==> cache_matches(
        mav,
        mnt_name(f, "PITCH_MAX"@),
        ParamType::INT32(v),
    ))
}

/// The servo-role part of convergence: the three roles' requested
/// fields already hold on the remote table and the mirror channels agree
/// with the request.
pub open spec fn servo_part_converged(
    mav: MavlinkComponent,
    p: FocusAndZoomParameters,
    q: FocusAndZoomParametersQuery,
) -> bool {
    &&& (q.focus_channel matches Some(c) ==> p.focus_channel == c)
    &&& (q.zoom_channel matches Some(c) ==> p.zoom_channel == c)
    &&& (q.tilt_channel matches Some(c) ==> p.tilt_channel == c)
    &&& (q.tilt_channel_function matches Some(f) ==> p.tilt_channel_function == f)
    &&& servo_role_converged(
        mav,
        p.focus_channel.number_spec(),
        q.focus_channel_function,
        q.focus_channel_min,
        q.focus_channel_trim,
        q.focus_channel_max,
    )
    &&& servo_role_converged(
        mav,
        p.zoom_channel.number_spec(),
        q.zoom_channel_function,
        q.zoom_channel_min,
        q.zoom_channel_trim,
        q.zoom_channel_max,
    )
    &&& servo_role_converged(
        mav,
        p.tilt_channel.number_spec(),
        pass_tilt_qfunc(q),
        q.tilt_channel_min,
        q.tilt_channel_trim,
        q.tilt_channel_max,
    )
}

/// Convergence: every requested field already holds on the remote table
/// (compared after encoding), under a supported encoding, with the mirror
/// channels agreeing with the request.
pub open spec fn converged(
    mav: MavlinkComponent,
    p: FocusAndZoomParameters,
    q: FocusAndZoomParametersQuery,
) -> bool {
    &&& !(mav.spec_encoding() is Unsupported)
    &&& servo_part_converged(mav, p, q)
    &&& tilt_mount_converged(
        mav,
        p.tilt_channel.number_spec(),
        p.tilt_channel_function,
        q.tilt_channel_reversed,
        q.tilt_mnt_type,
        q.tilt_mnt_pitch_min,
        q.tilt_mnt_pitch_max,
    )
}

/// The outcome of one convergence pass: the aggregated disruption
/// classification and the set-parameter commands staged for transmission.
#[derive(Debug)]
pub struct ConvergenceOutcome {
    pub reboot_required: bool,
    pub reload_required: bool,
    pub writes: Vec<ParamSetData>,
}

/// The command a convergence pass ends with.
#[derive(Debug, Clone, Copy, PartialEq, Eq, Structural)]
pub enum AutopilotAction {
    /// Reboot the autopilot (supersedes a script reload).
    RebootAutopilot,
    /// Reload the autopilot's scripts.
    ReloadScripts,
}

impl ConvergenceOutcome {
    /// The command to issue after the pass: a required reboot supersedes a
    /// reload, a required reload alone asks for a reload, and otherwise
    /// nothing is issued.
    pub fn command(&self) -> (r: Option<AutopilotAction>)
        ensures
            self.reboot_required ==> r == Some(AutopilotAction::RebootAutopilot),
            !self.reboot_required && self.reload_required ==> r == Some(
                AutopilotAction::ReloadScripts,
            ),
            !self.reboot_required && !self.reload_required ==> r is None,
    {
        if self.reboot_required {
            Some(AutopilotAction::RebootAutopilot)
        } else if self.reload_required {
            Some(AutopilotAction::ReloadScripts)
        } else {
            None
        }
    }
}

/// The manager: the configuration mirror and the parameter client it
/// converges against.
pub struct Manager {
    pub config: ZoomAndFocusConfig,
    pub mavlink: MavlinkComponent,
}

impl Manager {
    /// Well-formed: the parameter cache carries distinct names.
    pub open spec fn wf(self) -> bool {
        self.mavlink.wf()
    }

    /// Builds the manager around a connected parameter client.
    pub fn new(config: ZoomAndFocusConfig, mavlink: MavlinkComponent) -> (r: Manager)
        ensures
            r.config.parameters == config.parameters,
            r.config.closest_points.0@ == config.closest_points.0@,
            r.config.furthest_points.0@ == config.furthest_points.0@,
            r.mavlink == mavlink,
            mavlink.wf() ==> r.wf(),
    {
        Manager { config, mavlink }
    }


    /// One convergence pass: reads each requested field from the cached
    /// remote table, stages a write for every difference (or for every
    /// field under force), updates the configuration mirror, and
    /// aggregates the disruption classification.
    ///
    /// An all-empty request without force is the defined reset path: it
    /// converges the default configuration with force applied.  The
    /// contract below speaks throughout of that effective request.
    pub fn converge(
        &mut self,
        desired: &FocusAndZoomParametersQuery,
        force_apply: bool,
    ) -> (r: Result<ConvergenceOutcome, ParamError>)
        requires
            old(self).wf(),
        ensures
            final(self).wf(),
            final(self).mavlink.spec_encoding() == old(self).mavlink.spec_encoding(),
            final(self).mavlink.spec_system_id() == old(self).mavlink.spec_system_id(),
            final(self).mavlink.spec_component_id() == old(self).mavlink.spec_component_id(),
            final(self).config.closest_points.0@ == old(self).config.closest_points.0@,
            final(self).config.furthest_points.0@ == old(self).config.furthest_points.0@,
            ({
                let eq = effective_query(*desired, force_apply);
                let ef = effective_force(*desired, force_apply);
                &&& (converged(old(self).mavlink, old(self).config.parameters, eq) && !ef ==> (
                r matches Ok(o) && o.writes@.len() == 0 && !o.reboot_required
                    && !o.reload_required && final(self).mavlink == old(self).mavlink))
                &&& (r is Ok && !(old(self).mavlink.spec_encoding() is Unsupported)
                    && distinct_channels(old(self).config.parameters, eq) ==> converged(
                    final(self).mavlink,
                    final(self).config.parameters,
                    eq,
                ))
                &&& (r matches Ok(o) ==> (!(old(self).mavlink.spec_encoding() is Unsupported)
                    && distinct_channels(old(self).config.parameters, eq) ==> (o.reboot_required
                    == reboot_class_would(
                    old(self).mavlink,
                    old(self).config.parameters,
                    eq,
                    ef,
                ) && o.reload_required == reload_class_would(
                    old(self).mavlink,
                    old(self).config.parameters,
                    eq,
                    ef,
                ))))
                &&& (!(old(self).mavlink.spec_encoding() is Unsupported) && distinct_channels(
                    old(self).config.parameters,
                    eq,
                ) && ready_all(old(self).mavlink, old(self).config.parameters, eq, ef) ==> r
                    is Ok)
            }),
    {
        if desired.is_all_none() && !force_apply {
            let defaults = FocusAndZoomParameters::default();
            let q = FocusAndZoomParametersQuery::from(defaults);
            proof {
                assert(q == query_of(defaults));
            }
            self.converge_fields(&q, true)
        } else {
            self.converge_fields(desired, force_apply)
        }
    }

    /// Applies a configuration request: converges the parameter deltas,
    /// replaces a changed calibration table (a calibration change
    /// classifies as reboot-required), and reports the aggregated
    /// outcome.  A per-field write never fails here — the staged commands
    /// are handed to the transport; a pass fails only on a protocol
    /// condition (unsupported encoding, a name absent from the cache).
    pub fn update_config(&mut self, new_config: &ZoomAndFocusConfigQuery) -> (r: Result<
        ConvergenceOutcome,
        ParamError,
    >)
        requires
            old(self).wf(),
        ensures
            final(self).wf(),
            final(self).mavlink.spec_encoding() == old(self).mavlink.spec_encoding(),
            r is Ok ==> (match new_config.closest_points {
                Some(ref p) => final(self).config.closest_points.0@ == p.0@,
                None => final(self).config.closest_points.0@ == old(self).config.closest_points.0@,
            }),
            r is Ok ==> (match new_config.furthest_points {
                Some(ref p) => final(self).config.furthest_points.0@ == p.0@,
                None => final(self).config.furthest_points.0@ == old(self).config.furthest_points.0@,
            }),
            ({
                let closest_changed = (match new_config.closest_points {
                    Some(ref pts) => old(self).config.closest_points.0@ != pts.0@,
                    None => false,
                });
                let furthest_changed = (match new_config.furthest_points {
                    Some(ref pts) => old(self).config.furthest_points.0@ != pts.0@,
                    None => false,
                });
                &&& (new_config.parameters matches Some(q) ==> {
                    let eq = effective_query(q, false);
                    let ef = effective_force(q, false);
                    &&& (r is Ok && !(old(self).mavlink.spec_encoding() is Unsupported)
                        && distinct_channels(old(self).config.parameters, eq) ==> converged(
                        final(self).mavlink,
                        final(self).config.parameters,
                        eq,
                    ))
                    &&& (r matches Ok(o) ==> (!(old(self).mavlink.spec_encoding() is Unsupported)
                        && distinct_channels(old(self).config.parameters, eq) ==> (
                    o.reboot_required == (reboot_class_would(
                        old(self).mavlink,
                        old(self).config.parameters,
                        eq,
                        ef,
                    ) || closest_changed || furthest_changed) && o.reload_required
                        == reload_class_would(
                        old(self).mavlink,
                        old(self).config.parameters,
                        eq,
                        ef,
                    ))))
                    &&& (converged(old(self).mavlink, old(self).config.parameters, eq) && !ef
                        ==> (r matches Ok(o) && o.writes@.len() == 0 && !o.reload_required
                        && o.reboot_required == (closest_changed || furthest_changed) && final(self).mavlink == old(self).mavlink))
                    &&& (!(old(self).mavlink.spec_encoding() is Unsupported) && distinct_channels(
                        old(self).config.parameters,
                        eq,
                    ) && ready_all(old(self).mavlink, old(self).config.parameters, eq, ef) ==> r
                        is Ok)
                })
                &&& (new_config.parameters is None ==> (r matches Ok(o) && o.writes@.len() == 0
                    && !o.reload_required && o.reboot_required == (closest_changed
                    || furthest_changed) && final(self).mavlink == old(self).mavlink && final(self).config.parameters == old(self).config.parameters))
            }),
    {
        let mut outcome = match &new_config.parameters {
            Some(q) => match self.converge(q, false) {
                Ok(o) => o,
                Err(e) => {
                    return Err(e);
                },
            },
            None => ConvergenceOutcome {
                reboot_required: false,
                reload_required: false,
                writes: Vec::new(),
            },
        };
        if let Some(points) = &new_config.closest_points {
            if !points_eq(&self.config.closest_points, points) {
                outcome.reboot_required = true;
            }
            self.config.closest_points = points.duplicate();
        }
        if let Some(points) = &new_config.furthest_points {
            if !points_eq(&self.config.furthest_points, points) {
                outcome.reboot_required = true;
            }
            self.config.furthest_points = points.duplicate();
        }
        Ok(outcome)
    }

    /// Resets the configuration: restores the default calibration tables
    /// and force-applies the default parameters.
    pub fn reset_config(&mut self) -> (r: Result<ConvergenceOutcome, ParamError>)
        requires
            old(self).wf(),
        ensures
            final(self).wf(),
            r is Ok ==> final(self).config.closest_points.0@ == default_closest_points(),
            r is Ok ==> final(self).config.furthest_points.0@ == default_furthest_points(),
            r is Ok && !(old(self).mavlink.spec_encoding() is Unsupported) ==> converged(
                final(self).mavlink,
                final(self).config.parameters,
                query_of(default_parameters()),
            ),
            r matches Ok(o) ==> (!(old(self).mavlink.spec_encoding() is Unsupported)
                ==> o.reboot_required),
            !(old(self).mavlink.spec_encoding() is Unsupported) && ready_all(
                old(self).mavlink,
                old(self).config.parameters,
                query_of(default_parameters()),
                true,
            ) ==> r is Ok,
    {
        let ghost p0 = self.config.parameters;
        let ghost mav0 = self.mavlink;
        let defaults = ZoomAndFocusConfig::default();
        self.config.closest_points = defaults.closest_points;
        self.config.furthest_points = defaults.furthest_points;
        let q = FocusAndZoomParametersQuery::from(defaults.parameters);
        proof {
            assert(q == query_of(default_parameters()));
            assert(distinct_channels(p0, query_of(default_parameters())));
        }
        let r = self.converge_fields(&q, true);
        proof {
            if r is Ok && !(mav0.spec_encoding() is Unsupported) {
                // Under force every requested field is written; the focus
                // FUNCTION field alone already classifies as reboot.
                assert(reboot_class_would(mav0, p0, query_of(default_parameters()), true));
            }
        }
        r
    }

    /// The current configuration.
    pub fn get_config(&self) -> (r: ZoomAndFocusConfig)
        ensures
            r.parameters == self.config.parameters,
            r.closest_points.0@ == self.config.closest_points.0@,
            r.furthest_points.0@ == self.config.furthest_points.0@,
    {
        self.config.duplicate()
    }

    /// Applies a configuration request and returns the configuration that
    /// resulted.
    pub fn set_config(&mut self, new_config: &ZoomAndFocusConfigQuery) -> (r: Result<
        ZoomAndFocusConfig,
        ParamError,
    >)
        requires
            old(self).wf(),
        ensures
            final(self).wf(),
            r matches Ok(c) ==> c.parameters == final(self).config.parameters
                && c.closest_points.0@ == final(self).config.closest_points.0@
                && c.furthest_points.0@ == final(self).config.furthest_points.0@,
            r is Ok ==> (match new_config.closest_points {
                Some(ref pts) => final(self).config.closest_points.0@ == pts.0@,
                None => final(self).config.closest_points.0@ == old(self).config.closest_points.0@,
            }),
            r is Ok ==> (match new_config.furthest_points {
                Some(ref pts) => final(self).config.furthest_points.0@ == pts.0@,
                None => final(self).config.furthest_points.0@ == old(self).config.furthest_points.0@,
            }),
            new_config.parameters matches Some(q) ==> (r is Ok && !(old(self).mavlink.spec_encoding() is Unsupported) && distinct_channels(
                old(self).config.parameters,
                effective_query(q, false),
            ) ==> converged(
                final(self).mavlink,
                final(self).config.parameters,
                effective_query(q, false),
            )),
            new_config.parameters matches Some(q) ==> (!(old(self).mavlink.spec_encoding()
                is Unsupported) && distinct_channels(
                old(self).config.parameters,
                effective_query(q, false),
            ) && ready_all(
                old(self).mavlink,
                old(self).config.parameters,
                effective_query(q, false),
                effective_force(q, false),
            ) ==> r is Ok),
    {
        match self.update_config(new_config) {
            Ok(_) => Ok(self.config.duplicate()),
            Err(e) => Err(e),
        }
    }

    /// Converges the three servo roles of one pass: focus, zoom, and the
    /// tilt channel.
    #[verifier::rlimit(100)]
    #[verifier::spinoff_prover]
    fn converge_servo_roles(
        &mut self,
        desired: &FocusAndZoomParametersQuery,
        force_apply: bool,
        writes: &mut Vec<ParamSetData>,
    ) -> (r: Result<(ConvergenceClass, ConvergenceClass, ConvergenceClass), ParamError>)
        requires
            old(self).wf(),
        ensures
            final(self).wf(),
            final(self).mavlink.spec_encoding() == old(self).mavlink.spec_encoding(),
            final(self).mavlink.spec_system_id() == old(self).mavlink.spec_system_id(),
            final(self).mavlink.spec_component_id() == old(self).mavlink.spec_component_id(),
            final(self).config.closest_points.0@ == old(self).config.closest_points.0@,
            final(self).config.furthest_points.0@ == old(self).config.furthest_points.0@,
            final(self).config.parameters.tilt_channel_reversed == old(self).config.parameters.tilt_channel_reversed,
            final(self).config.parameters.tilt_mnt_type == old(self).config.parameters.tilt_mnt_type,
            final(self).config.parameters.tilt_mnt_pitch_min == old(self).config.parameters.tilt_mnt_pitch_min,
            final(self).config.parameters.tilt_mnt_pitch_max == old(self).config.parameters.tilt_mnt_pitch_max,
            ({
                let p0 = old(self).config.parameters;
                let mav0 = old(self).mavlink;
                let ncf = pass_focus_chn(p0, *desired);
                let ncz = pass_zoom_chn(p0, *desired);
                let nct = pass_tilt_chn(p0, *desired);
                &&& (r is Ok ==> {
                    &&& final(self).config.parameters.focus_channel == eff_channel(
                        desired.focus_channel,
                        p0.focus_channel,
                    )
                    &&& final(self).config.parameters.zoom_channel == eff_channel(
                        desired.zoom_channel,
                        p0.zoom_channel,
                    )
                    &&& final(self).config.parameters.tilt_channel == eff_channel(
                        desired.tilt_channel,
                        p0.tilt_channel,
                    )
                    &&& final(self).config.parameters.tilt_channel_function == pass_tilt_f(
                        p0,
                        *desired,
                    )
                    &&& (forall|n: Seq<char>|
                        !roles_touched(n, ncf, ncz, nct) ==> (#[trigger] final(self).mavlink.cache().contains_name(n)) == mav0.cache().contains_name(n))
                    &&& (forall|n: Seq<char>|
                        !roles_touched(n, ncf, ncz, nct) && mav0.cache().contains_name(n)
                            ==> (#[trigger] final(self).mavlink.cache().value_of(n))
                            == mav0.cache().value_of(n))
                })
                &&& (r is Ok && !(mav0.spec_encoding() is Unsupported) && distinct_channels(
                    p0,
                    *desired,
                ) ==> servo_part_converged(
                    final(self).mavlink,
                    final(self).config.parameters,
                    *desired,
                ))
                &&& (converged(mav0, p0, *desired) && !force_apply ==> (r matches Ok(c)
                    && !c.0.reboot && !c.0.reload && !c.1.reboot && !c.1.reload && !c.2.reboot
                    && !c.2.reload && final(self).mavlink == mav0 && final(writes)@ == old(writes)@))
                &&& (r matches Ok(c) ==> (!(mav0.spec_encoding() is Unsupported)
                    && distinct_channels(p0, *desired) ==> {
                    &&& c.0.reboot == servo_role_reboot_would(
                        mav0,
                        ncf,
                        desired_of(
                            desired.focus_channel_function,
                            p0.focus_channel_function,
                            pass_focus_force(p0, *desired, force_apply),
                        ),
                        pass_focus_force(p0, *desired, force_apply),
                    )
                    &&& c.0.reload == servo_role_reload_would(
                        mav0,
                        ncf,
                        desired_of(
                            desired.focus_channel_min,
                            p0.focus_channel_min,
                            pass_focus_force(p0, *desired, force_apply),
                        ),
                        desired_of(
                            desired.focus_channel_trim,
                            p0.focus_channel_trim,
                            pass_focus_force(p0, *desired, force_apply),
                        ),
                        desired_of(
                            desired.focus_channel_max,
                            p0.focus_channel_max,
                            pass_focus_force(p0, *desired, force_apply),
                        ),
                        pass_focus_force(p0, *desired, force_apply),
                    )
                    &&& c.1.reboot == servo_role_reboot_would(
                        mav0,
                        ncz,
                        desired_of(
                            desired.zoom_channel_function,
                            p0.zoom_channel_function,
                            pass_zoom_force(p0, *desired, force_apply),
                        ),
                        pass_zoom_force(p0, *desired, force_apply),
                    )
                    &&& c.1.reload == servo_role_reload_would(
                        mav0,
                        ncz,
                        desired_of(
                            desired.zoom_channel_min,
                            p0.zoom_channel_min,
                            pass_zoom_force(p0, *desired, force_apply),
                        ),
                        desired_of(
                            desired.zoom_channel_trim,
                            p0.zoom_channel_trim,
                            pass_zoom_force(p0, *desired, force_apply),
                        ),
                        desired_of(
                            desired.zoom_channel_max,
                            p0.zoom_channel_max,
                            pass_zoom_force(p0, *desired, force_apply),
                        ),
                        pass_zoom_force(p0, *desired, force_apply),
                    )
                    &&& c.2.reboot == servo_role_reboot_would(
                        mav0,
                        nct,
                        desired_of(
                            pass_tilt_qfunc(*desired),
                            p0.tilt_channel_function.code_spec(),
                            pass_tilt_force(p0, *desired, force_apply),
                        ),
                        pass_tilt_force(p0, *desired, force_apply),
                    )
                    &&& c.2.reload == servo_role_reload_would(
                        mav0,
                        nct,
                        desired_of(
                            desired.tilt_channel_min,
                            p0.tilt_channel_min,
                            pass_tilt_force(p0, *desired, force_apply),
                        ),
                        desired_of(
                            desired.tilt_channel_trim,
                            p0.tilt_channel_trim,
                            pass_tilt_force(p0, *desired, force_apply),
                        ),
                        desired_of(
                            desired.tilt_channel_max,
                            p0.tilt_channel_max,
                            pass_tilt_force(p0, *desired, force_apply),
                        ),
                        pass_tilt_force(p0, *desired, force_apply),
                    )
                }))
                &&& (!(mav0.spec_encoding() is Unsupported) && distinct_channels(p0, *desired)
                    && roles_ready(mav0, p0, *desired, force_apply) ==> r is Ok)
            }),
    {
        let ghost p0 = self.config.parameters;
        let ghost mav0 = self.mavlink;
        proof {
            lemma_servo_suffixes();
        }
        let cf = match desired.focus_channel {
            Some(c) => c,
            None => self.config.parameters.focus_channel,
        };
        let cz = match desired.zoom_channel {
            Some(c) => c,
            None => self.config.parameters.zoom_channel,
        };
        let ct = match desired.tilt_channel {
            Some(c) => c,
            None => self.config.parameters.tilt_channel,
        };
        let ghost ncf = cf.number_spec();
        let ghost ncz = cz.number_spec();
        let ghost nct = ct.number_spec();
        // Focus role.
        let c1 = match update_servo_role(
            &mut self.mavlink,
            &mut self.config.parameters.focus_channel,
            &mut self.config.parameters.focus_channel_function,
            &mut self.config.parameters.focus_channel_min,
            &mut self.config.parameters.focus_channel_trim,
            &mut self.config.parameters.focus_channel_max,
            desired.focus_channel,
            desired.focus_channel_function,
            desired.focus_channel_min,
            desired.focus_channel_trim,
            desired.focus_channel_max,
            force_apply,
            writes,
        ) {
            Ok(c) => c,
            Err(e) => {
                return Err(e);
            },
        };
        let ghost mav1 = self.mavlink;
        // Zoom role.
        let c2 = match update_servo_role(
            &mut self.mavlink,
            &mut self.config.parameters.zoom_channel,
            &mut self.config.parameters.zoom_channel_function,
            &mut self.config.parameters.zoom_channel_min,
            &mut self.config.parameters.zoom_channel_trim,
            &mut self.config.parameters.zoom_channel_max,
            desired.zoom_channel,
            desired.zoom_channel_function,
            desired.zoom_channel_min,
            desired.zoom_channel_trim,
            desired.zoom_channel_max,
            force_apply,
            writes,
        ) {
            Ok(c) => c,
            Err(e) => {
                proof {
                    if !(mav0.spec_encoding() is Unsupported) && distinct_channels(p0, *desired)
                        && roles_ready(mav0, p0, *desired, force_apply) {
                        assert(false) by {
                            lemma_servo_role_facts_transfer(
                                mav0,
                                mav1,
                                ncf,
                                ncz,
                                desired_of(
                                    desired.zoom_channel_function,
                                    p0.zoom_channel_function,
                                    pass_zoom_force(p0, *desired, force_apply),
                                ),
                                desired_of(
                                    desired.zoom_channel_min,
                                    p0.zoom_channel_min,
                                    pass_zoom_force(p0, *desired, force_apply),
                                ),
                                desired_of(
                                    desired.zoom_channel_trim,
                                    p0.zoom_channel_trim,
                                    pass_zoom_force(p0, *desired, force_apply),
                                ),
                                desired_of(
                                    desired.zoom_channel_max,
                                    p0.zoom_channel_max,
                                    pass_zoom_force(p0, *desired, force_apply),
                                ),
                                pass_zoom_force(p0, *desired, force_apply),
                            );
                        }
                    }
                }
                return Err(e);
            },
        };
        let ghost mav2 = self.mavlink;
        // Tilt role: the FUNCTION value is the mount's pitch-function code.
        let q_tf_u8: Option<u8> = match desired.tilt_channel_function {
            Some(f) => Some(f.code()),
            None => None,
        };
        let mut tf_u8: u8 = self.config.parameters.tilt_channel_function.code();
        let c3 = match update_servo_role(
            &mut self.mavlink,
            &mut self.config.parameters.tilt_channel,
            &mut tf_u8,
            &mut self.config.parameters.tilt_channel_min,
            &mut self.config.parameters.tilt_channel_trim,
            &mut self.config.parameters.tilt_channel_max,
            desired.tilt_channel,
            q_tf_u8,
            desired.tilt_channel_min,
            desired.tilt_channel_trim,
            desired.tilt_channel_max,
            force_apply,
            writes,
        ) {
            Ok(c) => c,
            Err(e) => {
                proof {
                    if !(mav0.spec_encoding() is Unsupported) && distinct_channels(p0, *desired)
                        && roles_ready(mav0, p0, *desired, force_apply) {
                        assert(false) by {
                            lemma_servo_role_facts_transfer(
                                mav0,
                                mav1,
                                ncf,
                                nct,
                                desired_of(
                                    pass_tilt_qfunc(*desired),
                                    p0.tilt_channel_function.code_spec(),
                                    pass_tilt_force(p0, *desired, force_apply),
                                ),
                                desired_of(
                                    desired.tilt_channel_min,
                                    p0.tilt_channel_min,
                                    pass_tilt_force(p0, *desired, force_apply),
                                ),
                                desired_of(
                                    desired.tilt_channel_trim,
                                    p0.tilt_channel_trim,
                                    pass_tilt_force(p0, *desired, force_apply),
                                ),
                                desired_of(
                                    desired.tilt_channel_max,
                                    p0.tilt_channel_max,
                                    pass_tilt_force(p0, *desired, force_apply),
                                ),
                                pass_tilt_force(p0, *desired, force_apply),
                            );
                            lemma_servo_role_facts_transfer(
                                mav1,
                                mav2,
                                ncz,
                                nct,
                                desired_of(
                                    pass_tilt_qfunc(*desired),
                                    p0.tilt_channel_function.code_spec(),
                                    pass_tilt_force(p0, *desired, force_apply),
                                ),
                                desired_of(
                                    desired.tilt_channel_min,
                                    p0.tilt_channel_min,
                                    pass_tilt_force(p0, *desired, force_apply),
                                ),
                                desired_of(
                                    desired.tilt_channel_trim,
                                    p0.tilt_channel_trim,
                                    pass_tilt_force(p0, *desired, force_apply),
                                ),
                                desired_of(
                                    desired.tilt_channel_max,
                                    p0.tilt_channel_max,
                                    pass_tilt_force(p0, *desired, force_apply),
                                ),
                                pass_tilt_force(p0, *desired, force_apply),
                            );
                        }
                    }
                }
                return Err(e);
            },
        };
        if let Some(f) = desired.tilt_channel_function {
            self.config.parameters.tilt_channel_function = f;
        }
        let ghost mav3 = self.mavlink;
        let ghost p3 = self.config.parameters;
        proof {
            if converged(mav0, p0, *desired) && !force_apply {
                assert(mav1 == mav0 && !c1.reboot && !c1.reload);
                assert(mav2 == mav0 && !c2.reboot && !c2.reload);
                assert(mav3 == mav0 && !c3.reboot && !c3.reload);
            }
            if !(mav0.spec_encoding() is Unsupported) && distinct_channels(p0, *desired) {
                assert(servo_part_converged(mav3, p3, *desired)) by {
                    lemma_servo_part_assembly(mav1, mav2, mav3, p3, ncf, ncz, nct, *desired);
                }
                assert(c1.reboot == servo_role_reboot_would(
                    mav0,
                    ncf,
                    desired_of(
                        desired.focus_channel_function,
                        p0.focus_channel_function,
                        pass_focus_force(p0, *desired, force_apply),
                    ),
                    pass_focus_force(p0, *desired, force_apply),
                )) by {
                    assert(pass_focus_force(p0, *desired, force_apply) == (force_apply
                        || eff_channel(desired.focus_channel, p0.focus_channel)
                        != p0.focus_channel));
                }
                assert(c2.reboot == servo_role_reboot_would(
                    mav0,
                    ncz,
                    desired_of(
                        desired.zoom_channel_function,
                        p0.zoom_channel_function,
                        pass_zoom_force(p0, *desired, force_apply),
                    ),
                    pass_zoom_force(p0, *desired, force_apply),
                ) && c2.reload == servo_role_reload_would(
                    mav0,
                    ncz,
                    desired_of(
                        desired.zoom_channel_min,
                        p0.zoom_channel_min,
                        pass_zoom_force(p0, *desired, force_apply),
                    ),
                    desired_of(
                        desired.zoom_channel_trim,
                        p0.zoom_channel_trim,
                        pass_zoom_force(p0, *desired, force_apply),
                    ),
                    desired_of(
                        desired.zoom_channel_max,
                        p0.zoom_channel_max,
                        pass_zoom_force(p0, *desired, force_apply),
                    ),
                    pass_zoom_force(p0, *desired, force_apply),
                )) by {
                    lemma_servo_role_facts_transfer(
                        mav0,
                        mav1,
                        ncf,
                        ncz,
                        desired_of(
                            desired.zoom_channel_function,
                            p0.zoom_channel_function,
                            pass_zoom_force(p0, *desired, force_apply),
                        ),
                        desired_of(
                            desired.zoom_channel_min,
                            p0.zoom_channel_min,
                            pass_zoom_force(p0, *desired, force_apply),
                        ),
                        desired_of(
                            desired.zoom_channel_trim,
                            p0.zoom_channel_trim,
                            pass_zoom_force(p0, *desired, force_apply),
                        ),
                        desired_of(
                            desired.zoom_channel_max,
                            p0.zoom_channel_max,
                            pass_zoom_force(p0, *desired, force_apply),
                        ),
                        pass_zoom_force(p0, *desired, force_apply),
                    );
                }
                assert(c3.reboot == servo_role_reboot_would(
                    mav0,
                    nct,
                    desired_of(
                        pass_tilt_qfunc(*desired),
                        p0.tilt_channel_function.code_spec(),
                        pass_tilt_force(p0, *desired, force_apply),
                    ),
                    pass_tilt_force(p0, *desired, force_apply),
                ) && c3.reload == servo_role_reload_would(
                    mav0,
                    nct,
                    desired_of(
                        desired.tilt_channel_min,
                        p0.tilt_channel_min,
                        pass_tilt_force(p0, *desired, force_apply),
                    ),
                    desired_of(
                        desired.tilt_channel_trim,
                        p0.tilt_channel_trim,
                        pass_tilt_force(p0, *desired, force_apply),
                    ),
                    desired_of(
                        desired.tilt_channel_max,
                        p0.tilt_channel_max,
                        pass_tilt_force(p0, *desired, force_apply),
                    ),
                    pass_tilt_force(p0, *desired, force_apply),
                )) by {
                    lemma_servo_role_facts_transfer(
                        mav1,
                        mav2,
                        ncz,
                        nct,
                        desired_of(
                            pass_tilt_qfunc(*desired),
                            p0.tilt_channel_function.code_spec(),
                            pass_tilt_force(p0, *desired, force_apply),
                        ),
                        desired_of(
                            desired.tilt_channel_min,
                            p0.tilt_channel_min,
                            pass_tilt_force(p0, *desired, force_apply),
                        ),
                        desired_of(
                            desired.tilt_channel_trim,
                            p0.tilt_channel_trim,
                            pass_tilt_force(p0, *desired, force_apply),
                        ),
                        desired_of(
                            desired.tilt_channel_max,
                            p0.tilt_channel_max,
                            pass_tilt_force(p0, *desired, force_apply),
                        ),
                        pass_tilt_force(p0, *desired, force_apply),
                    );
                    lemma_servo_role_facts_transfer(
                        mav0,
                        mav1,
                        ncf,
                        nct,
                        desired_of(
                            pass_tilt_qfunc(*desired),
                            p0.tilt_channel_function.code_spec(),
                            pass_tilt_force(p0, *desired, force_apply),
                        ),
                        desired_of(
                            desired.tilt_channel_min,
                            p0.tilt_channel_min,
                            pass_tilt_force(p0, *desired, force_apply),
                        ),
                        desired_of(
                            desired.tilt_channel_trim,
                            p0.tilt_channel_trim,
                            pass_tilt_force(p0, *desired, force_apply),
                        ),
                        desired_of(
                            desired.tilt_channel_max,
                            p0.tilt_channel_max,
                            pass_tilt_force(p0, *desired, force_apply),
                        ),
                        pass_tilt_force(p0, *desired, force_apply),
                    );
                }
            }
        }
        Ok((c1, c2, c3))
    }

    /// One convergence pass over the request as given.
    #[verifier::rlimit(100)]
    #[verifier::spinoff_prover]
    fn converge_fields(
        &mut self,
        desired: &FocusAndZoomParametersQuery,
        force_apply: bool,
    ) -> (r: Result<ConvergenceOutcome, ParamError>)
        requires
            old(self).wf(),
        ensures
            final(self).wf(),
            final(self).mavlink.spec_encoding() == old(self).mavlink.spec_encoding(),
            final(self).mavlink.spec_system_id() == old(self).mavlink.spec_system_id(),
            final(self).mavlink.spec_component_id() == old(self).mavlink.spec_component_id(),
            final(self).config.closest_points.0@ == old(self).config.closest_points.0@,
            final(self).config.furthest_points.0@ == old(self).config.furthest_points.0@,
            r is Ok && !(old(self).mavlink.spec_encoding() is Unsupported) && distinct_channels(
                old(self).config.parameters,
                *desired,
            ) ==> converged(final(self).mavlink, final(self).config.parameters, *desired),
            converged(old(self).mavlink, old(self).config.parameters, *desired) && !force_apply
                ==> (r matches Ok(o) && o.writes@.len() == 0 && !o.reboot_required
                && !o.reload_required && final(self).mavlink == old(self).mavlink),
            r matches Ok(o) ==> (!(old(self).mavlink.spec_encoding() is Unsupported)
                && distinct_channels(old(self).config.parameters, *desired) ==> (
            o.reboot_required == reboot_class_would(
                old(self).mavlink,
                old(self).config.parameters,
                *desired,
                force_apply,
            ) && o.reload_required == reload_class_would(
                old(self).mavlink,
                old(self).config.parameters,
                *desired,
                force_apply,
            ))),
            !(old(self).mavlink.spec_encoding() is Unsupported) && distinct_channels(
                old(self).config.parameters,
                *desired,
            ) && ready_all(old(self).mavlink, old(self).config.parameters, *desired, force_apply)
                ==> r is Ok,
    {
        let mut writes: Vec<ParamSetData> = Vec::new();
        let ghost p0 = self.config.parameters;
        let ghost mav0 = self.mavlink;
        let ghost ncf = pass_focus_chn(p0, *desired);
        let ghost ncz = pass_zoom_chn(p0, *desired);
        let ghost nct = pass_tilt_chn(p0, *desired);
        let old_tilt_ch = self.config.parameters.tilt_channel;
        let old_tilt_f = self.config.parameters.tilt_channel_function;
        let (c1, c2, c3) = match self.converge_servo_roles(desired, force_apply, &mut writes) {
            Ok(t) => t,
            Err(e) => {
                return Err(e);
            },
        };
        let ghost mav_r = self.mavlink;
        let ghost p_r = self.config.parameters;
        // Tilt extras: reversal and the mount parameters.
        let f_eff = self.config.parameters.tilt_channel_function;
        let force2t = force_apply || (match desired.tilt_channel {
            Some(c) => c != old_tilt_ch,
            None => false,
        });
        let force3 = force_apply || (match desired.tilt_channel_function {
            Some(f) => f != old_tilt_f,
            None => false,
        });
        let ghost dr = desired_of(
            desired.tilt_channel_reversed,
            p0.tilt_channel_reversed,
            pass_tilt_force(p0, *desired, force_apply),
        );
        let ghost dy = desired_of(
            desired.tilt_mnt_type,
            p0.tilt_mnt_type,
            pass_mount_force(p0, *desired, force_apply),
        );
        let ghost dpn = desired_of(
            desired.tilt_mnt_pitch_min,
            p0.tilt_mnt_pitch_min,
            pass_mount_force(p0, *desired, force_apply),
        );
        let ghost dpx = desired_of(
            desired.tilt_mnt_pitch_max,
            p0.tilt_mnt_pitch_max,
            pass_mount_force(p0, *desired, force_apply),
        );
        let c4 = match update_tilt_mount(
            &mut self.mavlink,
            &mut self.config.parameters.tilt_channel_reversed,
            &mut self.config.parameters.tilt_mnt_type,
            &mut self.config.parameters.tilt_mnt_pitch_min,
            &mut self.config.parameters.tilt_mnt_pitch_max,
            self.config.parameters.tilt_channel.number(),
            f_eff,
            desired.tilt_channel_reversed,
            desired.tilt_mnt_type,
            desired.tilt_mnt_pitch_min,
            desired.tilt_mnt_pitch_max,
            force2t,
            force3,
            &mut writes,
        ) {
            Ok(c) => c,
            Err(e) => {
                proof {
                    if !(mav0.spec_encoding() is Unsupported) && distinct_channels(p0, *desired)
                        && ready_all(mav0, p0, *desired, force_apply) {
                        assert(false) by {
                            lemma_mount_facts_transfer(
                                mav0,
                                mav_r,
                                ncf,
                                ncz,
                                nct,
                                pass_tilt_f(p0, *desired),
                                dr,
                                dy,
                                dpn,
                                dpx,
                                pass_tilt_force(p0, *desired, force_apply),
                                pass_mount_force(p0, *desired, force_apply),
                            );
                        }
                    }
                }
                return Err(e);
            },
        };
        let ghost mav4 = self.mavlink;
        let ghost p4 = self.config.parameters;
        proof {
            if converged(mav0, p0, *desired) && !force_apply {
                assert(mav_r == mav0);
                assert(mav4 == mav0 && !c4.reboot && !c4.reload);
            }
            if !(mav0.spec_encoding() is Unsupported) && distinct_channels(p0, *desired) {
                assert(converged(mav4, p4, *desired)) by {
                    assert(servo_part_converged(mav_r, p4, *desired));
                    lemma_full_assembly(mav_r, mav4, p4, ncf, ncz, nct, f_eff, *desired);
                }
                assert(c4.reboot == tilt_mount_reboot_would(
                    mav0,
                    pass_tilt_f(p0, *desired),
                    dy,
                    pass_mount_force(p0, *desired, force_apply),
                ) && c4.reload == tilt_mount_reload_would(
                    mav0,
                    nct,
                    pass_tilt_f(p0, *desired),
                    dr,
                    dpn,
                    dpx,
                    pass_tilt_force(p0, *desired, force_apply),
                    pass_mount_force(p0, *desired, force_apply),
                )) by {
                    lemma_mount_facts_transfer(
                        mav0,
                        mav_r,
                        ncf,
                        ncz,
                        nct,
                        pass_tilt_f(p0, *desired),
                        dr,
                        dy,
                        dpn,
                        dpx,
                        pass_tilt_force(p0, *desired, force_apply),
                        pass_mount_force(p0, *desired, force_apply),
                    );
                }
            }
        }
        Ok(
            ConvergenceOutcome {
                reboot_required: c1.reboot || c2.reboot || c3.reboot || c4.reboot,
                reload_required: c1.reload || c2.reload || c3.reload || c4.reload,
                writes,
            },
        )
    }
}

/// Transfers one servo role's readiness and would-write classification
/// across another role's pass on a different channel: the role's four
/// names are untouched, so the facts agree between the two states.
#[verifier::rlimit(100)]
#[verifier::spinoff_prover]
proof fn lemma_servo_role_facts_transfer(
    mava: MavlinkComponent,
    mavb: MavlinkComponent,
    nco: u8,
    chn: u8,
    dfunc: Option<u8>,
    dmin: Option<u16>,
    dtrim: Option<u16>,
    dmax: Option<u16>,
    force2: bool,
)
    requires
        1 <= nco <= 32,
        1 <= chn <= 32,
        nco != chn,
        mavb.spec_encoding() == mava.spec_encoding(),
        forall|n: Seq<char>|
            !servo_role_touched(n, nco) ==> (#[trigger] mavb.cache().contains_name(n))
                == mava.cache().contains_name(n),
        forall|n: Seq<char>|
            !servo_role_touched(n, nco) && mava.cache().contains_name(n)
                ==> (#[trigger] mavb.cache().value_of(n)) == mava.cache().value_of(n),
    ensures
        servo_role_ready(mava, chn, dfunc, dmin, dtrim, dmax) == servo_role_ready(
            mavb,
            chn,
            dfunc,
            dmin,
            dtrim,
            dmax,
        ),
        servo_role_ready(mava, chn, dfunc, dmin, dtrim, dmax) ==> (servo_role_reboot_would(
            mava,
            chn,
            dfunc,
            force2,
        ) == servo_role_reboot_would(mavb, chn, dfunc, force2) && servo_role_reload_would(
            mava,
            chn,
            dmin,
            dtrim,
            dmax,
            force2,
        ) == servo_role_reload_would(mavb, chn, dmin, dtrim, dmax, force2)),
{
    lemma_servo_suffixes();
    lemma_servo_name_ne(chn, "FUNCTION"@, nco, "FUNCTION"@);
    lemma_servo_name_ne(chn, "FUNCTION"@, nco, "MIN"@);
    lemma_servo_name_ne(chn, "FUNCTION"@, nco, "TRIM"@);
    lemma_servo_name_ne(chn, "FUNCTION"@, nco, "MAX"@);
    lemma_servo_name_ne(chn, "MIN"@, nco, "FUNCTION"@);
    lemma_servo_name_ne(chn, "MIN"@, nco, "MIN"@);
    lemma_servo_name_ne(chn, "MIN"@, nco, "TRIM"@);
    lemma_servo_name_ne(chn, "MIN"@, nco, "MAX"@);
    lemma_servo_name_ne(chn, "TRIM"@, nco, "FUNCTION"@);
    lemma_servo_name_ne(chn, "TRIM"@, nco, "MIN"@);
    lemma_servo_name_ne(chn, "TRIM"@, nco, "TRIM"@);
    lemma_servo_name_ne(chn, "TRIM"@, nco, "MAX"@);
    lemma_servo_name_ne(chn, "MAX"@, nco, "FUNCTION"@);
    lemma_servo_name_ne(chn, "MAX"@, nco, "MIN"@);
    lemma_servo_name_ne(chn, "MAX"@, nco, "TRIM"@);
    lemma_servo_name_ne(chn, "MAX"@, nco, "MAX"@);
    let fname = servo_name(chn, "FUNCTION"@);
    let mname = servo_name(chn, "MIN"@);
    let tname = servo_name(chn, "TRIM"@);
    let xname = servo_name(chn, "MAX"@);
    assert(!servo_role_touched(fname, nco));
    assert(!servo_role_touched(mname, nco));
    assert(!servo_role_touched(tname, nco));
    assert(!servo_role_touched(xname, nco));
    assert(mavb.cache().contains_name(fname) == mava.cache().contains_name(fname));
    assert(mavb.cache().contains_name(mname) == mava.cache().contains_name(mname));
    assert(mavb.cache().contains_name(tname) == mava.cache().contains_name(tname));
    assert(mavb.cache().contains_name(xname) == mava.cache().contains_name(xname));
    assert(mava.cache().contains_name(fname) ==> mavb.cache().value_of(fname)
        == mava.cache().value_of(fname));
    assert(mava.cache().contains_name(mname) ==> mavb.cache().value_of(mname)
        == mava.cache().value_of(mname));
    assert(mava.cache().contains_name(tname) ==> mavb.cache().value_of(tname)
        == mava.cache().value_of(tname));
    assert(mava.cache().contains_name(xname) ==> mavb.cache().value_of(xname)
        == mava.cache().value_of(xname));
}

/// Transfers the tilt extras' readiness and would-write classification
/// across the three servo roles' passes: the reversal and mount names are
/// untouched by every role.
#[verifier::rlimit(100)]
#[verifier::spinoff_prover]
proof fn lemma_mount_facts_transfer(
    mava: MavlinkComponent,
    mavb: MavlinkComponent,
    ncf: u8,
    ncz: u8,
    nct: u8,
    f: TiltChannelFunction,
    dr: Option<bool>,
    dy: Option<u8>,
    dpn: Option<i32>,
    dpx: Option<i32>,
    force2: bool,
    force3: bool,
)
    requires
        1 <= ncf <= 32,
        1 <= ncz <= 32,
        1 <= nct <= 32,
        mavb.spec_encoding() == mava.spec_encoding(),
        forall|n: Seq<char>|
            !roles_touched(n, ncf, ncz, nct) ==> (#[trigger] mavb.cache().contains_name(n))
                == mava.cache().contains_name(n),
        forall|n: Seq<char>|
            !roles_touched(n, ncf, ncz, nct) && mava.cache().contains_name(n)
                ==> (#[trigger] mavb.cache().value_of(n)) == mava.cache().value_of(n),
    ensures
        tilt_mount_ready(mava, nct, f, dr, dy, dpn, dpx) == tilt_mount_ready(
            mavb,
            nct,
            f,
            dr,
            dy,
            dpn,
            dpx,
        ),
        tilt_mount_ready(mava, nct, f, dr, dy, dpn, dpx) ==> (tilt_mount_reboot_would(
            mava,
            f,
            dy,
            force3,
        ) == tilt_mount_reboot_would(mavb, f, dy, force3) && tilt_mount_reload_would(
            mava,
            nct,
            f,
            dr,
            dpn,
            dpx,
            force2,
            force3,
        ) == tilt_mount_reload_would(mavb, nct, f, dr, dpn, dpx, force2, force3)),
{
    lemma_servo_suffixes();
    lemma_mnt_suffixes();
    lemma_servo_name_ne(nct, "REVERSED"@, ncf, "FUNCTION"@);
    lemma_servo_name_ne(nct, "REVERSED"@, ncf, "MIN"@);
    lemma_servo_name_ne(nct, "REVERSED"@, ncf, "TRIM"@);
    lemma_servo_name_ne(nct, "REVERSED"@, ncf, "MAX"@);
    lemma_servo_name_ne(nct, "REVERSED"@, ncz, "FUNCTION"@);
    lemma_servo_name_ne(nct, "REVERSED"@, ncz, "MIN"@);
    lemma_servo_name_ne(nct, "REVERSED"@, ncz, "TRIM"@);
    lemma_servo_name_ne(nct, "REVERSED"@, ncz, "MAX"@);
    lemma_servo_name_ne(nct, "REVERSED"@, nct, "FUNCTION"@);
    lemma_servo_name_ne(nct, "REVERSED"@, nct, "MIN"@);
    lemma_servo_name_ne(nct, "REVERSED"@, nct, "TRIM"@);
    lemma_servo_name_ne(nct, "REVERSED"@, nct, "MAX"@);
    lemma_servo_mnt_ne(ncf, "FUNCTION"@, f, "TYPE"@);
    lemma_servo_mnt_ne(ncf, "MIN"@, f, "TYPE"@);
    lemma_servo_mnt_ne(ncf, "TRIM"@, f, "TYPE"@);
    lemma_servo_mnt_ne(ncf, "MAX"@, f, "TYPE"@);
    lemma_servo_mnt_ne(ncz, "FUNCTION"@, f, "TYPE"@);
    lemma_servo_mnt_ne(ncz, "MIN"@, f, "TYPE"@);
    lemma_servo_mnt_ne(ncz, "TRIM"@, f, "TYPE"@);
    lemma_servo_mnt_ne(ncz, "MAX"@, f, "TYPE"@);
    lemma_servo_mnt_ne(nct, "FUNCTION"@, f, "TYPE"@);
    lemma_servo_mnt_ne(nct, "MIN"@, f, "TYPE"@);
    lemma_servo_mnt_ne(nct, "TRIM"@, f, "TYPE"@);
    lemma_servo_mnt_ne(nct, "MAX"@, f, "TYPE"@);
    lemma_servo_mnt_ne(ncf, "FUNCTION"@, f, "PITCH_MIN"@);
    lemma_servo_mnt_ne(ncf, "MIN"@, f, "PITCH_MIN"@);
    lemma_servo_mnt_ne(ncf, "TRIM"@, f, "PITCH_MIN"@);
    lemma_servo_mnt_ne(ncf, "MAX"@, f, "PITCH_MIN"@);
    lemma_servo_mnt_ne(ncz, "FUNCTION"@, f, "PITCH_MIN"@);
    lemma_servo_mnt_ne(ncz, "MIN"@, f, "PITCH_MIN"@);
    lemma_servo_mnt_ne(ncz, "TRIM"@, f, "PITCH_MIN"@);
    lemma_servo_mnt_ne(ncz, "MAX"@, f, "PITCH_MIN"@);
    lemma_servo_mnt_ne(nct, "FUNCTION"@, f, "PITCH_MIN"@);
    lemma_servo_mnt_ne(nct, "MIN"@, f, "PITCH_MIN"@);
    lemma_servo_mnt_ne(nct, "TRIM"@, f, "PITCH_MIN"@);
    lemma_servo_mnt_ne(nct, "MAX"@, f, "PITCH_MIN"@);
    lemma_servo_mnt_ne(ncf, "FUNCTION"@, f, "PITCH_MAX"@);
    lemma_servo_mnt_ne(ncf, "MIN"@, f, "PITCH_MAX"@);
    lemma_servo_mnt_ne(ncf, "TRIM"@, f, "PITCH_MAX"@);
    lemma_servo_mnt_ne(ncf, "MAX"@, f, "PITCH_MAX"@);
    lemma_servo_mnt_ne(ncz, "FUNCTION"@, f, "PITCH_MAX"@);
    lemma_servo_mnt_ne(ncz, "MIN"@, f, "PITCH_MAX"@);
    lemma_servo_mnt_ne(ncz, "TRIM"@, f, "PITCH_MAX"@);
    lemma_servo_mnt_ne(ncz, "MAX"@, f, "PITCH_MAX"@);
    lemma_servo_mnt_ne(nct, "FUNCTION"@, f, "PITCH_MAX"@);
    lemma_servo_mnt_ne(nct, "MIN"@, f, "PITCH_MAX"@);
    lemma_servo_mnt_ne(nct, "TRIM"@, f, "PITCH_MAX"@);
    lemma_servo_mnt_ne(nct, "MAX"@, f, "PITCH_MAX"@);
    let rname = servo_name(nct, "REVERSED"@);
    let yname = mnt_name(f, "TYPE"@);
    let nname = mnt_name(f, "PITCH_MIN"@);
    let xname = mnt_name(f, "PITCH_MAX"@);
    assert(!roles_touched(rname, ncf, ncz, nct));
    assert(!roles_touched(yname, ncf, ncz, nct));
    assert(!roles_touched(nname, ncf, ncz, nct));
    assert(!roles_touched(xname, ncf, ncz, nct));
    assert(mavb.cache().contains_name(rname) == mava.cache().contains_name(rname));
    assert(mavb.cache().contains_name(yname) == mava.cache().contains_name(yname));
    assert(mavb.cache().contains_name(nname) == mava.cache().contains_name(nname));
    assert(mavb.cache().contains_name(xname) == mava.cache().contains_name(xname));
    assert(mava.cache().contains_name(rname) ==> mavb.cache().value_of(rname)
        == mava.cache().value_of(rname));
    assert(mava.cache().contains_name(yname) ==> mavb.cache().value_of(yname)
        == mava.cache().value_of(yname));
    assert(mava.cache().contains_name(nname) ==> mavb.cache().value_of(nname)
        == mava.cache().value_of(nname));
    assert(mava.cache().contains_name(xname) ==> mavb.cache().value_of(xname)
        == mava.cache().value_of(xname));
}

/// Assembles the servo-role part of convergence from the three roles'
/// matches, carried across the later roles' frames, given pairwise
/// distinct channels.
#[verifier::rlimit(100)]
#[verifier::spinoff_prover]
proof fn lemma_servo_part_assembly(
    mav1: MavlinkComponent,
    mav2: MavlinkComponent,
    mav3: MavlinkComponent,
    p3: FocusAndZoomParameters,
    ncf: u8,
    ncz: u8,
    nct: u8,
    q: FocusAndZoomParametersQuery,
)
    requires
        1 <= ncf <= 32,
        1 <= ncz <= 32,
        1 <= nct <= 32,
        ncf != ncz,
        ncf != nct,
        ncz != nct,
        mav2.spec_encoding() == mav1.spec_encoding(),
        mav3.spec_encoding() == mav2.spec_encoding(),
        p3.focus_channel.number_spec() == ncf,
        p3.zoom_channel.number_spec() == ncz,
        p3.tilt_channel.number_spec() == nct,
        q.focus_channel matches Some(c) ==> p3.focus_channel == c,
        q.zoom_channel matches Some(c) ==> p3.zoom_channel == c,
        q.tilt_channel matches Some(c) ==> p3.tilt_channel == c,
        q.tilt_channel_function matches Some(f) ==> p3.tilt_channel_function == f,
        servo_role_converged(
            mav1,
            ncf,
            q.focus_channel_function,
            q.focus_channel_min,
            q.focus_channel_trim,
            q.focus_channel_max,
        ),
        servo_role_converged(
            mav2,
            ncz,
            q.zoom_channel_function,
            q.zoom_channel_min,
            q.zoom_channel_trim,
            q.zoom_channel_max,
        ),
        servo_role_converged(
            mav3,
            nct,
            pass_tilt_qfunc(q),
            q.tilt_channel_min,
            q.tilt_channel_trim,
            q.tilt_channel_max,
        ),
        forall|n: Seq<char>|
            !servo_role_touched(n, ncz) ==> (#[trigger] mav2.cache().contains_name(n))
                == mav1.cache().contains_name(n),
        forall|n: Seq<char>|
            !servo_role_touched(n, ncz) && mav1.cache().contains_name(n)
                ==> (#[trigger] mav2.cache().value_of(n)) == mav1.cache().value_of(n),
        forall|n: Seq<char>|
            !servo_role_touched(n, nct) ==> (#[trigger] mav3.cache().contains_name(n))
                == mav2.cache().contains_name(n),
        forall|n: Seq<char>|
            !servo_role_touched(n, nct) && mav2.cache().contains_name(n)
                ==> (#[trigger] mav3.cache().value_of(n)) == mav2.cache().value_of(n),
    ensures
        servo_part_converged(mav3, p3, q),
{
    assert(servo_role_converged(
        mav3,
        ncf,
        q.focus_channel_function,
        q.focus_channel_min,
        q.focus_channel_trim,
        q.focus_channel_max,
    )) by {
        lemma_servo_suffixes();
        lemma_servo_name_ne(ncf, "FUNCTION"@, ncz, "FUNCTION"@);
        lemma_servo_name_ne(ncf, "FUNCTION"@, ncz, "MIN"@);
        lemma_servo_name_ne(ncf, "FUNCTION"@, ncz, "TRIM"@);
        lemma_servo_name_ne(ncf, "FUNCTION"@, ncz, "MAX"@);
        lemma_servo_name_ne(ncf, "MIN"@, ncz, "FUNCTION"@);
        lemma_servo_name_ne(ncf, "MIN"@, ncz, "MIN"@);
        lemma_servo_name_ne(ncf, "MIN"@, ncz, "TRIM"@);
        lemma_servo_name_ne(ncf, "MIN"@, ncz, "MAX"@);
        lemma_servo_name_ne(ncf, "TRIM"@, ncz, "FUNCTION"@);
        lemma_servo_name_ne(ncf, "TRIM"@, ncz, "MIN"@);
        lemma_servo_name_ne(ncf, "TRIM"@, ncz, "TRIM"@);
        lemma_servo_name_ne(ncf, "TRIM"@, ncz, "MAX"@);
        lemma_servo_name_ne(ncf, "MAX"@, ncz, "FUNCTION"@);
        lemma_servo_name_ne(ncf, "MAX"@, ncz, "MIN"@);
        lemma_servo_name_ne(ncf, "MAX"@, ncz, "TRIM"@);
        lemma_servo_name_ne(ncf, "MAX"@, ncz, "MAX"@);
        assert(servo_role_converged(
            mav2,
            ncf,
            q.focus_channel_function,
            q.focus_channel_min,
            q.focus_channel_trim,
            q.focus_channel_max,
        ));
        lemma_servo_name_ne(ncf, "FUNCTION"@, nct, "FUNCTION"@);
        lemma_servo_name_ne(ncf, "FUNCTION"@, nct, "MIN"@);
        lemma_servo_name_ne(ncf, "FUNCTION"@, nct, "TRIM"@);
        lemma_servo_name_ne(ncf, "FUNCTION"@, nct, "MAX"@);
        lemma_servo_name_ne(ncf, "MIN"@, nct, "FUNCTION"@);
        lemma_servo_name_ne(ncf, "MIN"@, nct, "MIN"@);
        lemma_servo_name_ne(ncf, "MIN"@, nct, "TRIM"@);
        lemma_servo_name_ne(ncf, "MIN"@, nct, "MAX"@);
        lemma_servo_name_ne(ncf, "TRIM"@, nct, "FUNCTION"@);
        lemma_servo_name_ne(ncf, "TRIM"@, nct, "MIN"@);
        lemma_servo_name_ne(ncf, "TRIM"@, nct, "TRIM"@);
        lemma_servo_name_ne(ncf, "TRIM"@, nct, "MAX"@);
        lemma_servo_name_ne(ncf, "MAX"@, nct, "FUNCTION"@);
        lemma_servo_name_ne(ncf, "MAX"@, nct, "MIN"@);
        lemma_servo_name_ne(ncf, "MAX"@, nct, "TRIM"@);
        lemma_servo_name_ne(ncf, "MAX"@, nct, "MAX"@);
    }
    assert(servo_role_converged(
        mav3,
        ncz,
        q.zoom_channel_function,
        q.zoom_channel_min,
        q.zoom_channel_trim,
        q.zoom_channel_max,
    )) by {
        lemma_servo_suffixes();
        lemma_servo_name_ne(ncz, "FUNCTION"@, nct, "FUNCTION"@);
        lemma_servo_name_ne(ncz, "FUNCTION"@, nct, "MIN"@);
        lemma_servo_name_ne(ncz, "FUNCTION"@, nct, "TRIM"@);
        lemma_servo_name_ne(ncz, "FUNCTION"@, nct, "MAX"@);
        lemma_servo_name_ne(ncz, "MIN"@, nct, "FUNCTION"@);
        lemma_servo_name_ne(ncz, "MIN"@, nct, "MIN"@);
        lemma_servo_name_ne(ncz, "MIN"@, nct, "TRIM"@);
        lemma_servo_name_ne(ncz, "MIN"@, nct, "MAX"@);
        lemma_servo_name_ne(ncz, "TRIM"@, nct, "FUNCTION"@);
        lemma_servo_name_ne(ncz, "TRIM"@, nct, "MIN"@);
        lemma_servo_name_ne(ncz, "TRIM"@, nct, "TRIM"@);
        lemma_servo_name_ne(ncz, "TRIM"@, nct, "MAX"@);
        lemma_servo_name_ne(ncz, "MAX"@, nct, "FUNCTION"@);
        lemma_servo_name_ne(ncz, "MAX"@, nct, "MIN"@);
        lemma_servo_name_ne(ncz, "MAX"@, nct, "TRIM"@);
        lemma_servo_name_ne(ncz, "MAX"@, nct, "MAX"@);
    }
}

/// Assembles convergence of the whole pass: the servo-role part carried
/// across the tilt extras' frame, together with the extras' own matches.
#[verifier::rlimit(100)]
#[verifier::spinoff_prover]
proof fn lemma_full_assembly(
    mav_r: MavlinkComponent,
    mav4: MavlinkComponent,
    p4: FocusAndZoomParameters,
    ncf: u8,
    ncz: u8,
    nct: u8,
    f_eff: TiltChannelFunction,
    q: FocusAndZoomParametersQuery,
)
    requires
        1 <= ncf <= 32,
        1 <= ncz <= 32,
        1 <= nct <= 32,
        !(mav_r.spec_encoding() is Unsupported),
        mav4.spec_encoding() == mav_r.spec_encoding(),
        p4.focus_channel.number_spec() == ncf,
        p4.zoom_channel.number_spec() == ncz,
        p4.tilt_channel.number_spec() == nct,
        p4.tilt_channel_function == f_eff,
        servo_part_converged(mav_r, p4, q),
        tilt_mount_converged(
            mav4,
            nct,
            f_eff,
            q.tilt_channel_reversed,
            q.tilt_mnt_type,
            q.tilt_mnt_pitch_min,
            q.tilt_mnt_pitch_max,
        ),
        forall|n: Seq<char>|
            !tilt_mount_touched(n, nct, f_eff) ==> (#[trigger] mav4.cache().contains_name(n))
                == mav_r.cache().contains_name(n),
        forall|n: Seq<char>|
            !tilt_mount_touched(n, nct, f_eff) && mav_r.cache().contains_name(n)
                ==> (#[trigger] mav4.cache().value_of(n)) == mav_r.cache().value_of(n),
    ensures
        converged(mav4, p4, q),
{
    lemma_servo_suffixes();
    lemma_mnt_suffixes();
    lemma_servo_name_ne(ncf, "FUNCTION"@, nct, "REVERSED"@);
    lemma_servo_name_ne(ncf, "MIN"@, nct, "REVERSED"@);
    lemma_servo_name_ne(ncf, "TRIM"@, nct, "REVERSED"@);
    lemma_servo_name_ne(ncf, "MAX"@, nct, "REVERSED"@);
    lemma_servo_name_ne(ncz, "FUNCTION"@, nct, "REVERSED"@);
    lemma_servo_name_ne(ncz, "MIN"@, nct, "REVERSED"@);
    lemma_servo_name_ne(ncz, "TRIM"@, nct, "REVERSED"@);
    lemma_servo_name_ne(ncz, "MAX"@, nct, "REVERSED"@);
    lemma_servo_name_ne(nct, "FUNCTION"@, nct, "REVERSED"@);
    lemma_servo_name_ne(nct, "MIN"@, nct, "REVERSED"@);
    lemma_servo_name_ne(nct, "TRIM"@, nct, "REVERSED"@);
    lemma_servo_name_ne(nct, "MAX"@, nct, "REVERSED"@);
    lemma_servo_mnt_ne(ncf, "FUNCTION"@, f_eff, "TYPE"@);
    lemma_servo_mnt_ne(ncf, "MIN"@, f_eff, "TYPE"@);
    lemma_servo_mnt_ne(ncf, "TRIM"@, f_eff, "TYPE"@);
    lemma_servo_mnt_ne(ncf, "MAX"@, f_eff, "TYPE"@);
    lemma_servo_mnt_ne(ncz, "FUNCTION"@, f_eff, "TYPE"@);
    lemma_servo_mnt_ne(ncz, "MIN"@, f_eff, "TYPE"@);
    lemma_servo_mnt_ne(ncz, "TRIM"@, f_eff, "TYPE"@);
    lemma_servo_mnt_ne(ncz, "MAX"@, f_eff, "TYPE"@);
    lemma_servo_mnt_ne(nct, "FUNCTION"@, f_eff, "TYPE"@);
    lemma_servo_mnt_ne(nct, "MIN"@, f_eff, "TYPE"@);
    lemma_servo_mnt_ne(nct, "TRIM"@, f_eff, "TYPE"@);
    lemma_servo_mnt_ne(nct, "MAX"@, f_eff, "TYPE"@);
    lemma_servo_mnt_ne(ncf, "FUNCTION"@, f_eff, "PITCH_MIN"@);
    lemma_servo_mnt_ne(ncf, "MIN"@, f_eff, "PITCH_MIN"@);
    lemma_servo_mnt_ne(ncf, "TRIM"@, f_eff, "PITCH_MIN"@);
    lemma_servo_mnt_ne(ncf, "MAX"@, f_eff, "PITCH_MIN"@);
    lemma_servo_mnt_ne(ncz, "FUNCTION"@, f_eff, "PITCH_MIN"@);
    lemma_servo_mnt_ne(ncz, "MIN"@, f_eff, "PITCH_MIN"@);
    lemma_servo_mnt_ne(ncz, "TRIM"@, f_eff, "PITCH_MIN"@);
    lemma_servo_mnt_ne(ncz, "MAX"@, f_eff, "PITCH_MIN"@);
    lemma_servo_mnt_ne(nct, "FUNCTION"@, f_eff, "PITCH_MIN"@);
    lemma_servo_mnt_ne(nct, "MIN"@, f_eff, "PITCH_MIN"@);
    lemma_servo_mnt_ne(nct, "TRIM"@, f_eff, "PITCH_MIN"@);
    lemma_servo_mnt_ne(nct, "MAX"@, f_eff, "PITCH_MIN"@);
    lemma_servo_mnt_ne(ncf, "FUNCTION"@, f_eff, "PITCH_MAX"@);
    lemma_servo_mnt_ne(ncf, "MIN"@, f_eff, "PITCH_MAX"@);
    lemma_servo_mnt_ne(ncf, "TRIM"@, f_eff, "PITCH_MAX"@);
    lemma_servo_mnt_ne(ncf, "MAX"@, f_eff, "PITCH_MAX"@);
    lemma_servo_mnt_ne(ncz, "FUNCTION"@, f_eff, "PITCH_MAX"@);
    lemma_servo_mnt_ne(ncz, "MIN"@, f_eff, "PITCH_MAX"@);
    lemma_servo_mnt_ne(ncz, "TRIM"@, f_eff, "PITCH_MAX"@);
    lemma_servo_mnt_ne(ncz, "MAX"@, f_eff, "PITCH_MAX"@);
    lemma_servo_mnt_ne(nct, "FUNCTION"@, f_eff, "PITCH_MAX"@);
    lemma_servo_mnt_ne(nct, "MIN"@, f_eff, "PITCH_MAX"@);
    lemma_servo_mnt_ne(nct, "TRIM"@, f_eff, "PITCH_MAX"@);
    lemma_servo_mnt_ne(nct, "MAX"@, f_eff, "PITCH_MAX"@);
    assert(servo_role_converged(
        mav4,
        ncf,
        q.focus_channel_function,
        q.focus_channel_min,
        q.focus_channel_trim,
        q.focus_channel_max,
    ));
    assert(servo_role_converged(
        mav4,
        ncz,
        q.zoom_channel_function,
        q.zoom_channel_min,
        q.zoom_channel_trim,
        q.zoom_channel_max,
    ));
    assert(servo_role_converged(
        mav4,
        nct,
        pass_tilt_qfunc(q),
        q.tilt_channel_min,
        q.tilt_channel_trim,
        q.tilt_channel_max,
    ));
}

/// Compares two calibration tables.

pub fn points_eq(a: &FocusZoomPoints, b: &FocusZoomPoints) -> (r: bool)
    ensures
        r == (a.0@ == b.0@),
{
    if a.0.len() != b.0.len() {
        proof {
            if a.0@ == b.0@ {
                assert(a.0@.len() == b.0@.len());
            }
        }
        return false;
    }
    let n = a.0.len();
    let mut i: usize = 0;
    while i < n
        invariant
            n == a.0@.len() == b.0@.len(),
            i <= n,
            forall|j: int| 0 <= j < i ==> #[trigger] a.0@[j] == b.0@[j],
        decreases n - i,
    {
        let pa = a.0[i];
        let pb = b.0[i];
        if pa.zoom != pb.zoom || pa.focus != pb.focus {
            proof {
                if a.0@ == b.0@ {
                    assert(a.0@[i as int] == b.0@[i as int]);
                }
            }
            return false;
        }
        i = i + 1;
    }
    proof {
        assert(a.0@ =~= b.0@);
    }
    true
}

/// All-empty request: a convergence pass over a request with every field
/// empty and no force is, by definition of the effective request, the
/// pass that force-applies the default configuration.
pub proof fn lemma_all_none_resets(q: FocusAndZoomParametersQuery, force: bool)
    requires
        q.is_all_none_spec(),
        !force,
    ensures
        effective_query(q, force) == query_of(default_parameters()),
        effective_force(q, force),
{
}

} // verus!
