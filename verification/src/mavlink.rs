//! Link-level state: the negotiated value encoding, the message data the
//! protocol exchanges, the parameter cache, and the bulk-sync state machine.
//!
//! The transport itself (dialing, reconnecting, blocking receives) lives
//! outside the library; everything here is a decision or a data
//! transformation on plain values and is verified.

use crate::parameters::{MavParamType, ParamError, ParamType, Parameter};
use crate::text::str_eq;
use vstd::prelude::*;
use vstd::seq_lib::*;

verus! {

/// How parameter values are bit-encoded inside the 32-bit float wire field.
///
/// Negotiated once at startup from the autopilot's capability flags and read
/// by every subsequent encode and decode.
#[derive(Debug, Default, Clone, Copy, PartialEq, Eq, Structural)]
pub enum ParamEncodingType {
    /// Values are numerically cast to a 32-bit float (lossy for wide
    /// integers).
    CCast,
    /// The value's bit pattern is reinterpreted as a 32-bit float
    /// (lossless).
    ByteWise,
    /// No supported convention was negotiated; every encode and decode
    /// fails.
    #[default]
    Unsupported,
}

/// Capability bit: the autopilot encodes float-carried parameters by
/// numeric cast (the older flag name for the same convention).
pub const CAP_PARAM_FLOAT: u64 = 2;

/// Capability bit: the autopilot encodes float-carried parameters bytewise.
pub const CAP_PARAM_ENCODE_BYTEWISE: u64 = 16;

/// Capability bit: the autopilot encodes float-carried parameters by
/// numeric cast (the newer flag name).
pub const CAP_PARAM_ENCODE_C_CAST: u64 = 0x20000;

/// True when the capability bitmask contains every bit of `flag`.
pub open spec fn has_cap(caps: u64, flag: u64) -> bool {
    caps & flag == flag
}

/// True when the capability bitmask advertises the numeric-cast encoding.
pub open spec fn cap_c_cast(caps: u64) -> bool {
    has_cap(caps, CAP_PARAM_FLOAT) || has_cap(caps, CAP_PARAM_ENCODE_C_CAST)
}

/// True when the capability bitmask advertises the bytewise encoding.
pub open spec fn cap_bytewise(caps: u64) -> bool {
    has_cap(caps, CAP_PARAM_ENCODE_BYTEWISE)
}

/// The deterministic resolution table of the capability negotiation.
pub open spec fn resolved_encoding(c_cast: bool, bytewise: bool) -> ParamEncodingType {
    if bytewise {
        ParamEncodingType::ByteWise
    } else if c_cast {
        ParamEncodingType::CCast
    } else {
        ParamEncodingType::Unsupported
    }
}

/// Resolves the two capability flags to an encoding.
///
/// Both set resolves to `ByteWise` (the tie-break), only the cast flag to
/// `CCast`, only the bytewise flag to `ByteWise`, and neither to
/// `Unsupported`.
pub fn resolve_encoding(c_cast: bool, bytewise: bool) -> (r: ParamEncodingType)
    ensures
        r == resolved_encoding(c_cast, bytewise),
        c_cast && bytewise ==> r == ParamEncodingType::ByteWise,
        c_cast && !bytewise ==> r == ParamEncodingType::CCast,
        !c_cast && bytewise ==> r == ParamEncodingType::ByteWise,
        !c_cast && !bytewise ==> r == ParamEncodingType::Unsupported,
{
    if bytewise {
        ParamEncodingType::ByteWise
    } else if c_cast {
        ParamEncodingType::CCast
    } else {
        ParamEncodingType::Unsupported
    }
}

/// Reads the two encoding flags out of an identity-response capability
/// bitmask and resolves them.
pub fn encoding_from_capabilities(caps: u64) -> (r: ParamEncodingType)
    ensures
        r == resolved_encoding(cap_c_cast(caps), cap_bytewise(caps)),
{
    let c_cast = (caps & CAP_PARAM_FLOAT == CAP_PARAM_FLOAT) || (caps & CAP_PARAM_ENCODE_C_CAST
        == CAP_PARAM_ENCODE_C_CAST);
    let bytewise = caps & CAP_PARAM_ENCODE_BYTEWISE == CAP_PARAM_ENCODE_BYTEWISE;
    resolve_encoding(c_cast, bytewise)
}

/// Outbound frame header; the sequence number is assigned under the same
/// lock that serializes sends.
#[derive(Debug, Clone, Copy, PartialEq, Eq, Structural)]
pub struct MavHeader {
    pub system_id: u8,
    pub component_id: u8,
    pub sequence: u8,
}

/// A received parameter value message: one row of the remote table.
/// `param_value` carries the binary32 bit pattern of the wire float;
/// `param_id` is the fixed 16-byte null-padded name buffer.
#[derive(Debug)]
pub struct ParamValueData {
    pub param_value: u32,
    pub param_count: u16,
    pub param_index: u16,
    pub param_id: Vec<u8>,
    pub param_type: MavParamType,
}

/// A read-parameter-by-name request (`param_index` of `-1` selects by
/// name).
#[derive(Debug)]
pub struct ParamRequestReadData {
    pub param_index: i16,
    pub target_system: u8,
    pub target_component: u8,
    pub param_id: Vec<u8>,
}

/// A list-all-parameters request.
#[derive(Debug, Clone, Copy, PartialEq, Eq, Structural)]
pub struct ParamRequestListData {
    pub target_system: u8,
    pub target_component: u8,
}

/// A set-parameter command carrying the encoded wire value.
#[derive(Debug)]
pub struct ParamSetData {
    pub param_value: u32,
    pub target_system: u8,
    pub target_component: u8,
    pub param_id: Vec<u8>,
    pub param_type: MavParamType,
}

/// A report-your-identity request opening the capability negotiation.
#[derive(Debug, Clone, Copy, PartialEq, Eq, Structural)]
pub struct AutopilotVersionRequestData {
    pub target_system: u8,
    pub target_component: u8,
}

/// The numeric code of a camera node in the heartbeat's type field.
pub const MAV_TYPE_CAMERA: u8 = 30;

/// The numeric code declaring no autopilot in the heartbeat.
pub const MAV_AUTOPILOT_INVALID: u8 = 8;

/// The numeric code of the standby system state in the heartbeat.
pub const MAV_STATE_STANDBY: u8 = 3;

/// The periodic keep-alive payload: this component beats as a camera node
/// with no autopilot, in standby, with no mode flags, speaking protocol
/// version 3.
#[derive(Debug, Clone, Copy, PartialEq, Eq, Structural)]
pub struct HeartbeatData {
    pub custom_mode: u32,
    pub mavtype: u8,
    pub autopilot: u8,
    pub base_mode: u8,
    pub system_status: u8,
    pub mavlink_version: u8,
}

/// Builds the fixed heartbeat payload the background task sends once a
/// second.
pub fn heartbeat_data() -> (r: HeartbeatData)
    ensures
        r.custom_mode == 0,
        r.mavtype == MAV_TYPE_CAMERA,
        r.autopilot == MAV_AUTOPILOT_INVALID,
        r.base_mode == 0,
        r.system_status == MAV_STATE_STANDBY,
        r.mavlink_version == 3,
{
    HeartbeatData {
        custom_mode: 0,
        mavtype: MAV_TYPE_CAMERA,
        autopilot: MAV_AUTOPILOT_INVALID,
        base_mode: 0,
        system_status: MAV_STATE_STANDBY,
        mavlink_version: 3,
    }
}

/// Builds the outbound frame header, defaulting the sequence number to 1.
pub fn header(system_id: u8, component_id: u8, sequence: Option<u8>) -> (h: MavHeader)
    ensures
        h.system_id == system_id,
        h.component_id == component_id,
        h.sequence == (match sequence {
            Some(s) => s,
            None => 1,
        }),
{
    let sequence = match sequence {
        Some(s) => s,
        None => 1,
    };
    MavHeader { system_id, component_id, sequence }
}

/// The next outbound sequence number, wrapping at the byte boundary.
pub fn next_sequence(sequence: u8) -> (r: u8)
    ensures
        r == (if sequence == 255 {
            0
        } else {
            sequence + 1
        }),
{
    if sequence == 255 {
        0
    } else {
        sequence + 1
    }
}

/// The receive filter: a message is delivered only when sender system,
/// sender component and message type all match exactly.
pub fn recv_filter_matches(
    header: &MavHeader,
    message_id: u32,
    want_system: u8,
    want_component: u8,
    want_message_id: u32,
) -> (r: bool)
    ensures
        r == (header.system_id == want_system && header.component_id == want_component
            && message_id == want_message_id),
{
    header.system_id == want_system && header.component_id == want_component && message_id
        == want_message_id
}

/// The last-known remote parameter table: a mapping from name to typed
/// value, keyed by the name's character sequence.
///
/// Backed by a vector whose entries carry pairwise distinct names, so that
/// its length equals the number of distinct cached names — the measure the
/// bulk sync compares against the server-reported total.
pub struct ParamCache {
    entries: Vec<Parameter>,
}

impl ParamCache {
    /// The cached names, in insertion order.
    pub closed spec fn name_seq(self) -> Seq<Seq<char>> {
        self.entries@.map_values(|p: Parameter| p.name@)
    }

    /// The set of cached names.
    pub open spec fn names(self) -> Set<Seq<char>> {
        self.name_seq().to_set()
    }

    /// Well-formed: no name occurs twice.
    pub closed spec fn wf(self) -> bool {
        self.name_seq().no_duplicates()
    }

    /// The number of entries.
    pub closed spec fn spec_len(self) -> nat {
        self.entries@.len()
    }

    /// True when a name is cached.
    pub open spec fn contains_name(self, n: Seq<char>) -> bool {
        self.names().contains(n)
    }

    /// The index of the entry carrying a name.
    spec fn idx_of(self, n: Seq<char>) -> int {
        choose|i: int| 0 <= i < self.entries@.len() && self.entries@[i].name@ == n
    }

    /// The cached value of a name.
    pub closed spec fn value_of(self, n: Seq<char>) -> ParamType {
        self.entries@[self.idx_of(n)].value
    }

    /// A well-formed cache holds exactly as many entries as distinct
    /// names.
    pub proof fn lemma_len_is_names(self)
        requires
            self.wf(),
        ensures
            self.names().finite(),
            self.names().len() == self.spec_len(),
    {
        broadcast use vstd::seq_lib::seq_to_set_is_finite;

        self.name_seq().unique_seq_to_set();
    }

    /// The cached value equals the value of any entry carrying the name.
    proof fn lemma_value_at(self, n: Seq<char>, i: int)
        requires
            self.wf(),
            0 <= i < self.entries@.len(),
            self.entries@[i].name@ == n,
        ensures
            self.contains_name(n),
            self.value_of(n) == self.entries@[i].value,
    {
        assert(self.name_seq()[i] == n);
        assert(exists|k: int| 0 <= k < self.entries@.len() && self.entries@[k].name@ == n);
        let j = self.idx_of(n);
        assert(0 <= j < self.entries@.len() && self.entries@[j].name@ == n);
        assert(self.name_seq()[j] == n);
        assert(i == j) by {
            if i < j {
                assert(self.name_seq()[i] == self.name_seq()[j]);
                assert(false);
            }
            if j < i {
                assert(self.name_seq()[i] == self.name_seq()[j]);
                assert(false);
            }
        }
    }

    /// An empty cache.
    pub fn new() -> (r: ParamCache)
        ensures
            r.wf(),
            r.spec_len() == 0,
            r.names() == Set::<Seq<char>>::empty(),
    {
        let r = ParamCache { entries: Vec::new() };
        proof {
            assert(r.names() =~= Set::<Seq<char>>::empty());
        }
        r
    }

    /// The number of cached parameters.
    pub fn len(&self) -> (n: usize)
        ensures
            n == self.spec_len(),
    {
        self.entries.len()
    }

    /// Looks a name up.
    pub fn get<'a>(&'a self, name: &str) -> (r: Option<&'a Parameter>)
        requires
            self.wf(),
        ensures
            r is Some <==> self.contains_name(name@),
            r matches Some(p) ==> p.name@ == name@ && p.value == self.value_of(name@),
    {
        let n = self.entries.len();
        let mut i: usize = 0;
        while i < n
            invariant
                self.wf(),
                n == self.entries@.len(),
                i <= n,
                forall|j: int| 0 <= j < i ==> #[trigger] self.entries@[j].name@ != name@,
            decreases n - i,
        {
            if str_eq(self.entries[i].name.as_str(), name) {
                proof {
                    self.lemma_value_at(name@, i as int);
                }
                return Some(&self.entries[i]);
            }
            i = i + 1;
        }
        proof {
            if self.contains_name(name@) {
                let j = choose|j: int| 0 <= j < self.name_seq().len() && self.name_seq()[j]
                    == name@;
                assert(self.entries@[j].name@ == name@);
            }
        }
        None
    }

    /// Inserts or overwrites a parameter: afterwards the name maps to the
    /// new value and every other name is untouched; the size grows by one
    /// exactly when the name was absent.
    pub fn upsert(&mut self, p: Parameter)
        requires
            old(self).wf(),
        ensures
            final(self).wf(),
            final(self).names() == old(self).names().insert(p.name@),
            final(self).contains_name(p.name@),
            final(self).value_of(p.name@) == p.value,
            forall|n: Seq<char>|
                n != p.name@ ==> (final(self).contains_name(n) == old(self).contains_name(n)),
            forall|n: Seq<char>|
                n != p.name@ && old(self).contains_name(n) ==> final(self).value_of(n)
                    == old(self).value_of(n),
            final(self).spec_len() == old(self).spec_len() + (if old(self).contains_name(p.name@) {
                0int
            } else {
                1int
            }),
    {
        let ghost prev = *self;
        let n = self.entries.len();
        let mut i: usize = 0;
        while i < n
            invariant
                prev == *old(self),
                *self == prev,
                prev.wf(),
                n == self.entries@.len(),
                i <= n,
                forall|j: int| 0 <= j < i ==> #[trigger] self.entries@[j].name@ != p.name@,
            decreases n - i,
        {
            if str_eq(self.entries[i].name.as_str(), p.name.as_str()) {
                proof {
                    prev.lemma_value_at(p.name@, i as int);
                }
                let ghost pname = p.name@;
                self.entries[i] = p;
                proof {
                    assert(self.name_seq() =~= prev.name_seq());
                    assert(self.names() =~= prev.names().insert(pname));
                    self.lemma_value_at(pname, i as int);
                    assert forall|m: Seq<char>|
                        m != pname && prev.contains_name(m) implies self.value_of(m)
                        == prev.value_of(m) by {
                        let j = choose|j: int|
                            0 <= j < prev.entries@.len() && prev.entries@[j].name@ == m;
                        assert(self.entries@[j].name@ == m);
                        self.lemma_value_at(m, j);
                        prev.lemma_value_at(m, j);
                    }
                }
                return ;
            }
            i = i + 1;
        }
        proof {
            if prev.contains_name(p.name@) {
                let j = choose|j: int| 0 <= j < prev.name_seq().len() && prev.name_seq()[j]
                    == p.name@;
                assert(prev.entries@[j].name@ == p.name@);
            }
        }
        let ghost pname = p.name@;
        self.entries.push(p);
        proof {
            assert(self.name_seq() =~= prev.name_seq().push(pname));
            assert forall|m: Seq<char>| #[trigger]
                self.names().contains(m) implies prev.names().insert(pname).contains(m) by {
                let k = choose|k: int| 0 <= k < self.name_seq().len() && self.name_seq()[k] == m;
                if k < prev.name_seq().len() {
                    assert(prev.name_seq()[k] == m);
                }
            }
            assert forall|m: Seq<char>| #[trigger]
                prev.names().insert(pname).contains(m) implies self.names().contains(m) by {
                if m == pname {
                    assert(self.name_seq()[prev.name_seq().len() as int] == m);
                } else {
                    let k = choose|k: int|
                        0 <= k < prev.name_seq().len() && prev.name_seq()[k] == m;
                    assert(self.name_seq()[k] == m);
                }
            }
            assert(self.names() =~= prev.names().insert(pname));
            assert(self.wf()) by {
                assert forall|j: int, k: int|
                    0 <= j < k < self.name_seq().len() implies self.name_seq()[j]
                    != self.name_seq()[k] by {
                    if k < prev.name_seq().len() {
                        assert(prev.name_seq()[j] == self.name_seq()[j]);
                        assert(prev.name_seq()[k] == self.name_seq()[k]);
                    } else {
                        assert(prev.entries@[j].name@ != pname);
                    }
                }
            }
            self.lemma_value_at(pname, prev.entries@.len() as int);
            assert forall|m: Seq<char>|
                m != pname && prev.contains_name(m) implies self.value_of(m) == prev.value_of(
                m,
            ) by {
                let j = choose|j: int| 0 <= j < prev.entries@.len() && prev.entries@[j].name@ == m;
                assert(self.entries@[j].name@ == m);
                self.lemma_value_at(m, j);
                prev.lemma_value_at(m, j);
            }
        }
    }

    /// Overwrites a parameter only when its name is already cached, as the
    /// background traffic does; an unknown name is ignored.
    pub fn update_existing(&mut self, p: Parameter)
        requires
            old(self).wf(),
        ensures
            final(self).wf(),
            final(self).names() == old(self).names(),
            final(self).spec_len() == old(self).spec_len(),
            old(self).contains_name(p.name@) ==> final(self).contains_name(p.name@)
                && final(self).value_of(p.name@) == p.value,
            forall|n: Seq<char>|
                n != p.name@ && old(self).contains_name(n) ==> final(self).contains_name(n)
                    && final(self).value_of(n) == old(self).value_of(n),
            !old(self).contains_name(p.name@) ==> *final(self) == *old(self),
    {
        let ghost prev = *self;
        let contains = self.get(p.name.as_str()).is_some();
        if contains {
            self.upsert(p);
            proof {
                assert(self.names() =~= prev.names());
            }
        }
    }
}

/// The component id of the autopilot's parameter service, the fixed target
/// of negotiation, sync and parameter traffic.
pub const MAV_COMP_ID_AUTOPILOT1: u8 = 1;

/// The sentinel index marking a parameter value message that is not part
/// of a table listing.
pub const PARAM_INDEX_SENTINEL: u16 = 0xFFFF;

/// The parameter-client state: identity, negotiated encoding and the
/// cached remote table.
///
/// The transport session itself is owned by the surrounding driver; every
/// message this component wants sent is returned as a plain data value.
/// `set_param` is fire-and-forget by design: the command is handed to the
/// driver and the cache assumes it takes effect, with no verification read
/// awaited.
pub struct MavlinkComponent {
    system_id: u8,
    component_id: u8,
    encoding: ParamEncodingType,
    parameters: ParamCache,
}

impl MavlinkComponent {
    /// The system id of this component.
    pub closed spec fn spec_system_id(self) -> u8 {
        self.system_id
    }

    /// The component id of this component.
    pub closed spec fn spec_component_id(self) -> u8 {
        self.component_id
    }

    /// The negotiated encoding.
    pub closed spec fn spec_encoding(self) -> ParamEncodingType {
        self.encoding
    }

    /// The cached remote table.
    pub closed spec fn cache(self) -> ParamCache {
        self.parameters
    }

    /// Well-formed: the cache carries distinct names.
    pub open spec fn wf(self) -> bool {
        self.cache().wf()
    }

    /// A fresh component: no encoding negotiated yet, empty cache.
    pub fn new(system_id: u8, component_id: u8) -> (r: MavlinkComponent)
        ensures
            r.wf(),
            r.spec_system_id() == system_id,
            r.spec_component_id() == component_id,
            r.spec_encoding() == ParamEncodingType::Unsupported,
            r.cache().spec_len() == 0,
            r.cache().names() == Set::<Seq<char>>::empty(),
    {
        MavlinkComponent {
            system_id,
            component_id,
            encoding: ParamEncodingType::Unsupported,
            parameters: ParamCache::new(),
        }
    }

    /// The system id.
    pub fn system_id(&self) -> (r: u8)
        ensures
            r == self.spec_system_id(),
    {
        self.system_id
    }

    /// The component id.
    pub fn component_id(&self) -> (r: u8)
        ensures
            r == self.spec_component_id(),
    {
        self.component_id
    }

    /// The negotiated encoding.
    pub fn encoding(&self) -> (r: ParamEncodingType)
        ensures
            r == self.spec_encoding(),
    {
        self.encoding
    }

    /// Publishes the encoding the negotiation resolved.
    pub fn set_encoding(&mut self, encoding: ParamEncodingType)
        ensures
            final(self).spec_encoding() == encoding,
            final(self).spec_system_id() == old(self).spec_system_id(),
            final(self).spec_component_id() == old(self).spec_component_id(),
            final(self).cache() == old(self).cache(),
    {
        self.encoding = encoding;
    }

    /// The request opening the capability negotiation.
    pub fn autopilot_version_request(&self) -> (r: AutopilotVersionRequestData)
        ensures
            r.target_system == self.spec_system_id(),
            r.target_component == MAV_COMP_ID_AUTOPILOT1,
    {
        AutopilotVersionRequestData {
            target_system: self.system_id,
            target_component: MAV_COMP_ID_AUTOPILOT1,
        }
    }

    /// The list-all-parameters request opening a bulk sync round.
    pub fn param_request_list(&self) -> (r: ParamRequestListData)
        ensures
            r.target_system == self.spec_system_id(),
            r.target_component == MAV_COMP_ID_AUTOPILOT1,
    {
        ParamRequestListData {
            target_system: self.system_id,
            target_component: MAV_COMP_ID_AUTOPILOT1,
        }
    }

    /// The read-parameter-by-name request the driver sends when a name is
    /// not cached.
    pub fn param_request_read(&self, param_name: &str) -> (r: ParamRequestReadData)
        requires
            crate::parameters::valid_param_name(param_name@),
        ensures
            r.param_index == -1,
            r.target_system == self.spec_system_id(),
            r.target_component == MAV_COMP_ID_AUTOPILOT1,
            r.param_id@ == crate::parameters::name_id_bytes(param_name@),
    {
        ParamRequestReadData {
            param_index: -1,
            target_system: self.system_id,
            target_component: MAV_COMP_ID_AUTOPILOT1,
            param_id: Parameter::param_name_to_id(param_name),
        }
    }

    /// Looks a parameter up in the cache; a miss means the driver must
    /// request it and feed the response through `handle_param_value`.
    pub fn get_param<'a>(&'a self, param_name: &str) -> (r: Option<&'a Parameter>)
        requires
            self.wf(),
        ensures
            r is Some <==> self.cache().contains_name(param_name@),
            r matches Some(p) ==> p.name@ == param_name@ && p.value == self.cache().value_of(
                param_name@,
            ),
    {
        self.parameters.get(param_name)
    }

    /// Decodes a received parameter value message and upserts it into the
    /// cache, returning the decoded parameter.
    pub fn handle_param_value(&mut self, data: &ParamValueData) -> (r: Result<
        Parameter,
        ParamError,
    >)
        requires
            old(self).wf(),
        ensures
            final(self).wf(),
            final(self).spec_system_id() == old(self).spec_system_id(),
            final(self).spec_component_id() == old(self).spec_component_id(),
            final(self).spec_encoding() == old(self).spec_encoding(),
            r is Ok <==> ParamType::decode_spec(
                data.param_type,
                data.param_value,
                old(self).spec_encoding(),
            ) is Ok,
            r matches Err(e) ==> *final(self) == *old(self) && Err::<ParamType, ParamError>(e)
                == ParamType::decode_spec(
                data.param_type,
                data.param_value,
                old(self).spec_encoding(),
            ),
            r matches Ok(p) ==> {
                let nm = crate::parameters::param_id_name(data.param_id@);
                &&& p.name@ == nm
                &&& p.value == ParamType::decode_spec(
                    data.param_type,
                    data.param_value,
                    old(self).spec_encoding(),
                )->Ok_0
                &&& final(self).cache().names() == old(self).cache().names().insert(nm)
                &&& final(self).cache().contains_name(nm)
                &&& final(self).cache().value_of(nm) == p.value
                &&& (forall|n: Seq<char>|
                    n != nm ==> (final(self).cache().contains_name(n) == old(self).cache().contains_name(n)))
                &&& (forall|n: Seq<char>|
                    n != nm && old(self).cache().contains_name(n) ==> final(self).cache().value_of(n) == old(self).cache().value_of(n))
                &&& final(self).cache().spec_len() == old(self).cache().spec_len() + (if old(self).cache().contains_name(nm) {
                    0int
                } else {
                    1int
                })
            },
    {
        match Parameter::try_new(data, self.encoding) {
            Ok(param) => {
                let out = param.duplicate();
                self.parameters.upsert(param);
                Ok(out)
            },
            Err(e) => Err(e),
        }
    }

    /// Applies a background unsolicited parameter update: an already-cached
    /// name is overwritten, an unknown one is ignored (entries are created
    /// only by bulk sync or an explicit read).
    pub fn handle_background_update(&mut self, data: &ParamValueData) -> (r: Result<
        (),
        ParamError,
    >)
        requires
            old(self).wf(),
        ensures
            final(self).wf(),
            final(self).spec_encoding() == old(self).spec_encoding(),
            final(self).spec_system_id() == old(self).spec_system_id(),
            final(self).spec_component_id() == old(self).spec_component_id(),
            final(self).cache().names() == old(self).cache().names(),
            final(self).cache().spec_len() == old(self).cache().spec_len(),
            r is Ok <==> ParamType::decode_spec(
                data.param_type,
                data.param_value,
                old(self).spec_encoding(),
            ) is Ok,
            r is Err ==> *final(self) == *old(self),
            r is Ok ==> {
                let nm = crate::parameters::param_id_name(data.param_id@);
                let v = ParamType::decode_spec(
                    data.param_type,
                    data.param_value,
                    old(self).spec_encoding(),
                )->Ok_0;
                &&& (old(self).cache().contains_name(nm) ==> final(self).cache().value_of(nm)
                    == v)
                &&& (forall|n: Seq<char>|
                    n != nm && old(self).cache().contains_name(n) ==> final(self).cache().value_of(n) == old(self).cache().value_of(n))
            },
    {
        match Parameter::try_new(data, self.encoding) {
            Ok(param) => {
                self.parameters.update_existing(param);
                Ok(())
            },
            Err(e) => Err(e),
        }
    }

    /// Encodes a parameter and stages the set-parameter command for the
    /// driver to transmit, updating the cache to the value being written.
    ///
    /// Fire-and-forget by design: no acknowledging read is awaited and no
    /// write verification happens; a write the autopilot rejects leaves
    /// the cache ahead of the remote table until background traffic
    /// corrects it.
    pub fn set_param(&mut self, parameter: Parameter) -> (r: Result<ParamSetData, ParamError>)
        requires
            old(self).wf(),
            crate::parameters::valid_param_name(parameter.name@),
        ensures
            final(self).wf(),
            final(self).spec_system_id() == old(self).spec_system_id(),
            final(self).spec_component_id() == old(self).spec_component_id(),
            final(self).spec_encoding() == old(self).spec_encoding(),
            r is Ok <==> parameter.value.encode_spec(old(self).spec_encoding()) is Ok,
            r matches Err(e) ==> *final(self) == *old(self) && Err::<u32, ParamError>(e)
                == parameter.value.encode_spec(old(self).spec_encoding()),
            r matches Ok(msg) ==> {
                &&& msg.param_value == parameter.value.encode_spec(
                    old(self).spec_encoding(),
                )->Ok_0
                &&& msg.param_type == parameter.value.wire_type_spec()
                &&& msg.param_id@ == crate::parameters::name_id_bytes(parameter.name@)
                &&& msg.target_system == old(self).spec_system_id()
                &&& msg.target_component == MAV_COMP_ID_AUTOPILOT1
                &&& final(self).cache().names() == old(self).cache().names().insert(
                    parameter.name@,
                )
                &&& final(self).cache().contains_name(parameter.name@)
                &&& final(self).cache().value_of(parameter.name@) == parameter.value
                &&& (forall|n: Seq<char>|
                    n != parameter.name@ ==> (final(self).cache().contains_name(n) == old(self).cache().contains_name(n)))
                &&& (forall|n: Seq<char>|
                    n != parameter.name@ && old(self).cache().contains_name(n) ==> final(self).cache().value_of(n) == old(self).cache().value_of(n))
            },
    {
        let bits = match parameter.value.encode(self.encoding) {
            Ok(bits) => bits,
            Err(e) => {
                return Err(e);
            },
        };
        let msg = ParamSetData {
            param_value: bits,
            target_system: self.system_id,
            target_component: MAV_COMP_ID_AUTOPILOT1,
            param_id: Parameter::param_name_to_id(parameter.name.as_str()),
            param_type: parameter.param_type(),
        };
        self.parameters.upsert(parameter);
        Ok(msg)
    }
}

/// The outcome of feeding one received message to the bulk sync.
#[derive(Debug, Clone, Copy, PartialEq, Eq, Structural)]
pub enum SyncStep {
    /// The message carried the sentinel index and was unrelated.
    Ignored,
    /// One row was cached; more are expected.
    Progress,
    /// The last row arrived but names are missing: the driver must
    /// re-issue the whole list request.
    Restart,
    /// The last row arrived and the cache holds the full table.
    Complete,
}

/// The bulk-sync state machine driving one full-table fetch.
///
/// The driver sends the list request, then feeds every matching received
/// message here; on `Restart` it re-sends the list request, on `Complete`
/// the table is synchronized.
pub struct BulkSync {
    expected_next: u16,
    params_to_refetch: Vec<u16>,
}

/// The name carried by one received parameter value message.
pub open spec fn msg_name(m: ParamValueData) -> Seq<char> {
    crate::parameters::param_id_name(m.param_id@)
}

/// The set of names carried by a batch of received messages.
pub open spec fn batch_names(msgs: Seq<ParamValueData>) -> Set<Seq<char>> {
    msgs.map_values(|m: ParamValueData| msg_name(m)).to_set()
}

/// Pushing one element extends a sequence-as-set by that element.
proof fn lemma_to_set_push<A>(s: Seq<A>, x: A)
    ensures
        s.push(x).to_set() == s.to_set().insert(x),
{
    let l = s.push(x);
    assert forall|m: A| #[trigger] l.to_set().contains(m) implies s.to_set().insert(x).contains(
        m,
    ) by {
        let k = choose|k: int| 0 <= k < l.len() && l[k] == m;
        if k < s.len() {
            assert(s[k] == m);
        }
    }
    assert forall|m: A| #[trigger] s.to_set().insert(x).contains(m) implies l.to_set().contains(
        m,
    ) by {
        if m == x {
            assert(l[s.len() as int] == m);
        } else {
            let k = choose|k: int| 0 <= k < s.len() && s[k] == m;
            assert(l[k] == m);
        }
    }
    assert(l.to_set() =~= s.to_set().insert(x));
}

/// A batch prefix extended by its next message carries that message's name
/// more.
proof fn lemma_batch_names_step(msgs: Seq<ParamValueData>, i: int)
    requires
        0 <= i < msgs.len(),
    ensures
        batch_names(msgs.subrange(0, i + 1)) == batch_names(msgs.subrange(0, i)).insert(
            msg_name(msgs[i]),
        ),
{
    let a = msgs.subrange(0, i);
    let b = msgs.subrange(0, i + 1);
    assert(b =~= a.push(msgs[i]));
    let f = |m: ParamValueData| msg_name(m);
    assert(b.map_values(f) =~= a.map_values(f).push(f(msgs[i])));
    lemma_to_set_push(a.map_values(f), f(msgs[i]));
}

impl BulkSync {
    /// The index the next in-order row would carry.
    pub closed spec fn spec_expected_next(self) -> u16 {
        self.expected_next
    }

    /// The indices seen out of order, kept for the restart decision's log.
    pub closed spec fn spec_refetch(self) -> Seq<u16> {
        self.params_to_refetch@
    }

    /// A fresh sync round.
    pub fn new() -> (r: BulkSync)
        ensures
            r.spec_expected_next() == 0,
            r.spec_refetch() == Seq::<u16>::empty(),
    {
        let r = BulkSync { expected_next: 0, params_to_refetch: Vec::new() };
        proof {
            assert(r.spec_refetch() =~= Seq::<u16>::empty());
        }
        r
    }

    /// Feeds one received parameter value message to the sync.
    ///
    /// A sentinel-indexed message is ignored; otherwise the row is decoded
    /// and upserted, a gap against the expected index is recorded, and on
    /// the table's last row the sync completes exactly when the cache
    /// holds as many names as the server reported.
    pub fn feed(&mut self, comp: &mut MavlinkComponent, data: &ParamValueData) -> (r: Result<
        SyncStep,
        ParamError,
    >)
        requires
            old(comp).wf(),
        ensures
            final(comp).wf(),
            final(comp).spec_system_id() == old(comp).spec_system_id(),
            final(comp).spec_component_id() == old(comp).spec_component_id(),
            final(comp).spec_encoding() == old(comp).spec_encoding(),
            data.param_index == PARAM_INDEX_SENTINEL ==> r == Ok::<SyncStep, ParamError>(
                SyncStep::Ignored,
            ) && *final(comp) == *old(comp) && *final(self) == *old(self),
            data.param_index != PARAM_INDEX_SENTINEL && ParamType::decode_spec(
                data.param_type,
                data.param_value,
                old(comp).spec_encoding(),
            ) is Err ==> (r matches Err(e) && Err::<ParamType, ParamError>(e)
                == ParamType::decode_spec(
                data.param_type,
                data.param_value,
                old(comp).spec_encoding(),
            ) && *final(comp) == *old(comp) && *final(self) == *old(self)),
            data.param_index != PARAM_INDEX_SENTINEL && ParamType::decode_spec(
                data.param_type,
                data.param_value,
                old(comp).spec_encoding(),
            ) is Ok ==> {
                let nm = msg_name(*data);
                &&& r is Ok
                &&& final(comp).cache().names() == old(comp).cache().names().insert(nm)
                &&& final(comp).cache().contains_name(nm)
                &&& final(comp).cache().value_of(nm) == ParamType::decode_spec(
                    data.param_type,
                    data.param_value,
                    old(comp).spec_encoding(),
                )->Ok_0
                &&& (forall|n: Seq<char>|
                    n != nm ==> (final(comp).cache().contains_name(n) == old(comp).cache().contains_name(n)))
                &&& (forall|n: Seq<char>|
                    n != nm && old(comp).cache().contains_name(n) ==> final(comp).cache().value_of(n) == old(comp).cache().value_of(n))
                &&& final(comp).cache().spec_len() == old(comp).cache().spec_len() + (if old(comp).cache().contains_name(nm) {
                    0int
                } else {
                    1int
                })
                &&& (r == Ok::<SyncStep, ParamError>(SyncStep::Complete) <==> data.param_index + 1
                    == data.param_count && final(comp).cache().spec_len() == data.param_count)
                &&& (r == Ok::<SyncStep, ParamError>(SyncStep::Restart) <==> data.param_index + 1
                    == data.param_count && final(comp).cache().spec_len() != data.param_count)
                &&& (r == Ok::<SyncStep, ParamError>(SyncStep::Progress) <==> data.param_index + 1
                    != data.param_count)
                &&& (r == Ok::<SyncStep, ParamError>(SyncStep::Complete) ==> final(comp).cache().spec_len() == data.param_count)
            },
    {
        if data.param_index == PARAM_INDEX_SENTINEL {
            return Ok(SyncStep::Ignored);
        }
        let param = match Parameter::try_new(data, comp.encoding()) {
            Ok(param) => param,
            Err(e) => {
                return Err(e);
            },
        };
        if data.param_index != self.expected_next {
            self.params_to_refetch.push(data.param_index);
        }
        self.expected_next = data.param_index + 1;
        comp.handle_param_value_inner(param);
        if data.param_index as u32 + 1 == data.param_count as u32 {
            if comp.cache_len() == data.param_count as usize {
                Ok(SyncStep::Complete)
            } else {
                self.expected_next = 0;
                self.params_to_refetch.clear();
                Ok(SyncStep::Restart)
            }
        } else {
            Ok(SyncStep::Progress)
        }
    }

    /// Drives one round of the sync over a batch of received messages,
    /// stopping at the first terminal row.
    ///
    /// Bulk sync completeness: when the batch's rows all decode, carry the
    /// server-reported total `n`, stay below it in index, and only the
    /// final row is the terminal one, then — starting from an empty cache —
    /// the round completes exactly when the batch carries `n` distinct
    /// names (out-of-order delivery and duplicates included), and
    /// otherwise demands a restart rather than terminating early.
    pub fn run_round(&mut self, comp: &mut MavlinkComponent, msgs: &Vec<ParamValueData>) -> (r:
        Result<SyncStep, ParamError>)
        requires
            old(comp).wf(),
            old(comp).cache().spec_len() == 0,
            old(comp).cache().names() == Set::<Seq<char>>::empty(),
            msgs@.len() > 0,
            forall|i: int|
                0 <= i < msgs@.len() ==> #[trigger] msgs@[i].param_index
                    != PARAM_INDEX_SENTINEL,
            forall|i: int|
                0 <= i < msgs@.len() ==> ParamType::decode_spec(
                    #[trigger] msgs@[i].param_type,
                    msgs@[i].param_value,
                    old(comp).spec_encoding(),
                ) is Ok,
            forall|i: int|
                0 <= i < msgs@.len() ==> #[trigger] msgs@[i].param_count == msgs@[msgs@.len()
                    - 1].param_count,
            forall|i: int|
                0 <= i < msgs@.len() - 1 ==> #[trigger] msgs@[i].param_index + 1
                    != msgs@[i].param_count,
            msgs@[msgs@.len() - 1].param_index + 1 == msgs@[msgs@.len() - 1].param_count,
        ensures
            final(comp).wf(),
            r is Ok,
            final(comp).cache().names() == batch_names(msgs@),
            r == Ok::<SyncStep, ParamError>(SyncStep::Complete) <==> batch_names(msgs@).len()
                == msgs@[msgs@.len() - 1].param_count,
            r == Ok::<SyncStep, ParamError>(SyncStep::Restart) <==> batch_names(msgs@).len()
                != msgs@[msgs@.len() - 1].param_count,
            r == Ok::<SyncStep, ParamError>(SyncStep::Complete) ==> final(comp).cache().spec_len()
                == msgs@[msgs@.len() - 1].param_count,
    {
        let ghost prev = *comp;
        let n = msgs.len();
        let mut i: usize = 0;
        proof {
            assert(batch_names(msgs@.subrange(0, 0)) =~= Set::<Seq<char>>::empty());
        }
        while i < n - 1
            invariant
                prev == *old(comp),
                comp.wf(),
                comp.spec_encoding() == prev.spec_encoding(),
                n == msgs@.len(),
                0 < n,
                i < n,
                forall|k: int|
                    0 <= k < msgs@.len() ==> #[trigger] msgs@[k].param_index
                        != PARAM_INDEX_SENTINEL,
                forall|k: int|
                    0 <= k < msgs@.len() ==> ParamType::decode_spec(
                        #[trigger] msgs@[k].param_type,
                        msgs@[k].param_value,
                        prev.spec_encoding(),
                    ) is Ok,
                forall|k: int|
                    0 <= k < msgs@.len() - 1 ==> #[trigger] msgs@[k].param_index + 1
                        != msgs@[k].param_count,
                comp.cache().names() == batch_names(msgs@.subrange(0, i as int)),
            decreases n - i,
        {
            let ghost pre = *comp;
            let step = self.feed(comp, &msgs[i]);
            proof {
                lemma_batch_names_step(msgs@, i as int);
            }
            i = i + 1;
        }
        let ghost pre_last = *comp;
        let last = self.feed(comp, &msgs[n - 1]);
        proof {
            lemma_batch_names_step(msgs@, n - 1 as int);
            assert(msgs@.subrange(0, n as int) =~= msgs@);
            final(comp).cache().lemma_len_is_names();
        }
        last
    }
}

impl MavlinkComponent {
    /// The number of cached parameters.
    pub fn cache_len(&self) -> (n: usize)
        ensures
            n == self.cache().spec_len(),
    {
        self.parameters.len()
    }

    /// Upserts an already-decoded parameter into the cache.
    fn handle_param_value_inner(&mut self, param: Parameter)
        requires
            old(self).wf(),
        ensures
            final(self).wf(),
            final(self).spec_system_id() == old(self).spec_system_id(),
            final(self).spec_component_id() == old(self).spec_component_id(),
            final(self).spec_encoding() == old(self).spec_encoding(),
            final(self).cache().names() == old(self).cache().names().insert(param.name@),
            final(self).cache().contains_name(param.name@),
            final(self).cache().value_of(param.name@) == param.value,
            forall|n: Seq<char>|
                n != param.name@ ==> (final(self).cache().contains_name(n) == old(self).cache().contains_name(n)),
            forall|n: Seq<char>|
                n != param.name@ && old(self).cache().contains_name(n) ==> final(self).cache().value_of(n) == old(self).cache().value_of(n),
            final(self).cache().spec_len() == old(self).cache().spec_len() + (if old(self).cache().contains_name(param.name@) {
                0int
            } else {
                1int
            }),
    {
        self.parameters.upsert(param);
    }
}

} // verus!
