//! PipeWire device discovery and capture planning: which registry nodes
//! are capture devices, the device lists kept up to date as nodes come and
//! go, and the streams a capture command opens.
//!
//! The PipeWire main loop, its registry callbacks and the streams
//! themselves run outside; they report nodes and commands here.

use vstd::prelude::*;
use vstd::string::*;
use std::collections::HashMap;
use crate::text::str_eq;
use crate::types::AudioSourceType;

verus! {

/// Audio device information from PipeWire.
pub struct PwAudioDevice {
    /// PipeWire node ID
    pub id: u32,
    /// Human-readable device name
    pub name: String,
    /// Source type (Input or System)
    pub source_type: AudioSourceType,
}

/// The name shown for a node: its description, else its node name, else
/// `Unknown`.
pub open spec fn node_display_name(node_name: Option<String>, node_desc: Option<String>) -> Seq<
    char,
> {
    match node_desc {
        Some(d) => d@,
        None => match node_name {
            Some(n) => n@,
            None => "Unknown"@,
        },
    }
}

/// The kind of capture device a node's media class stands for.
pub open spec fn node_kind(media_class: Option<String>) -> Option<AudioSourceType> {
    let class = match media_class {
        Some(c) => c@,
        None => Seq::<char>::empty(),
    };
    if class == "Audio/Source"@ {
        Some(AudioSourceType::Input)
    } else if class == "Audio/Sink"@ {
        Some(AudioSourceType::System)
    } else {
        None
    }
}

/// The capture device a registry node stands for: a microphone for an
/// `Audio/Source` node, the monitor of an output for an `Audio/Sink` node.
pub fn node_device(
    id: u32,
    media_class: Option<String>,
    node_name: Option<String>,
    node_desc: Option<String>,
) -> (r: Option<PwAudioDevice>)
    ensures
        ({
            let class = match media_class {
                Some(c) => c@,
                None => Seq::<char>::empty(),
            };
            let shown = node_display_name(node_name, node_desc);
            if class == "Audio/Source"@ {
                r matches Some(d) && d.id == id && d.name@ == shown && d.source_type
                    == AudioSourceType::Input
            } else if class == "Audio/Sink"@ {
                r matches Some(d) && d.id == id && d.name@ == shown + " (Monitor)"@
                    && d.source_type == AudioSourceType::System
            } else {
                r is None
            }
        }),
{
    proof {
        reveal_strlit("Audio/Source");
        reveal_strlit("Audio/Sink");
    }
    let class = match media_class {
        Some(c) => c,
        None => String::new(),
    };
    let shown = match node_desc {
        Some(d) => d,
        None => match node_name {
            Some(n) => n,
            None => String::from_str("Unknown"),
        },
    };
    if str_eq(class.as_str(), "Audio/Source") {
        Some(PwAudioDevice { id, name: shown, source_type: AudioSourceType::Input })
    } else if str_eq(class.as_str(), "Audio/Sink") {
        let name = shown.concat(" (Monitor)");
        Some(PwAudioDevice { id, name, source_type: AudioSourceType::System })
    } else {
        None
    }
}

/// The node IDs of a device list.
pub open spec fn device_ids(devices: Seq<PwAudioDevice>) -> Seq<u32> {
    devices.map_values(|d: PwAudioDevice| d.id)
}

/// The name a node's device entry is listed under: its shown name, with
/// ` (Monitor)` after it for an output's monitor.
pub open spec fn entry_name(
    kind: AudioSourceType,
    node_name: Option<String>,
    node_desc: Option<String>,
) -> Seq<char> {
    if kind == AudioSourceType::Input {
        node_display_name(node_name, node_desc)
    } else {
        node_display_name(node_name, node_desc) + " (Monitor)"@
    }
}

/// `a` is a copy of `b`: the same node, name and type.
pub open spec fn same_device(a: PwAudioDevice, b: PwAudioDevice) -> bool {
    a.id == b.id && a.name@ == b.name@ && a.source_type == b.source_type
}

/// Each device is filed under its own node ID.
pub open spec fn keyed_by_id(m: Map<u32, PwAudioDevice>) -> bool {
    forall|k: u32| #[trigger] m.contains_key(k) ==> m[k].id == k
}

/// `list` holds a copy of each device of `m`, once.
pub open spec fn lists_devices(list: Seq<PwAudioDevice>, m: Map<u32, PwAudioDevice>) -> bool {
    &&& list.len() == m.dom().len()
    &&& forall|i: int|
        0 <= i < list.len() ==> m.contains_key(#[trigger] list[i].id) && same_device(
            list[i],
            m[list[i].id],
        )
    &&& forall|k: u32| #[trigger] m.contains_key(k) ==> device_ids(list).contains(k)
}

/// The devices discovered so far, filed by node ID: the capture inputs and
/// the outputs whose monitors can be captured.
pub struct DeviceRegistry {
    input: HashMap<u32, PwAudioDevice>,
    system: HashMap<u32, PwAudioDevice>,
}

impl DeviceRegistry {
    pub closed spec fn spec_input(&self) -> Map<u32, PwAudioDevice> {
        self.input@
    }

    pub closed spec fn spec_system(&self) -> Map<u32, PwAudioDevice> {
        self.system@
    }

    /// Every device is filed under its own node ID.
    pub open spec fn wf(&self) -> bool {
        keyed_by_id(self.spec_input()) && keyed_by_id(self.spec_system())
    }

    /// No devices.
    pub fn new() -> (r: Self)
        ensures
            r.wf(),
            r.spec_input() == Map::<u32, PwAudioDevice>::empty(),
            r.spec_system() == Map::<u32, PwAudioDevice>::empty(),
    {
        DeviceRegistry { input: HashMap::new(), system: HashMap::new() }
    }

    /// A node appeared (or changed): record it if it is a capture device,
    /// replacing what was filed under its ID. Returns which lists changed
    /// (input, system).
    pub fn add_node(
        &mut self,
        id: u32,
        media_class: Option<String>,
        node_name: Option<String>,
        node_desc: Option<String>,
    ) -> (r: (bool, bool))
        requires
            old(self).wf(),
        ensures
            final(self).wf(),
            ({
                match node_kind(media_class) {
                    Some(kind) => (exists|d: PwAudioDevice|
                        #![trigger d.name]
                        d.id == id && d.source_type == kind && d.name@ == entry_name(
                            kind,
                            node_name,
                            node_desc,
                        ) && if kind == AudioSourceType::Input {
                            r == (true, false) && final(self).spec_system()
                                == old(self).spec_system() && final(self).spec_input()
                                == old(self).spec_input().insert(id, d)
                        } else {
                            r == (false, true) && final(self).spec_input()
                                == old(self).spec_input() && final(self).spec_system()
                                == old(self).spec_system().insert(id, d)
                        }),
                    None => r == (false, false) && final(self).spec_input() == old(self).spec_input() && final(self).spec_system() == old(self).spec_system(),
                }
            }),
    {
        broadcast use vstd::std_specs::hash::group_hash_axioms;
        match node_device(id, media_class, node_name, node_desc) {
            Some(device) => {
                let is_input = match device.source_type {
                    AudioSourceType::Input => true,
                    _ => false,
                };
                let ghost d = device;
                if is_input {
                    self.input.insert(id, device);
                    assert(self.input@ == old(self).input@.insert(id, d));
                    (true, false)
                } else {
                    self.system.insert(id, device);
                    assert(self.system@ == old(self).system@.insert(id, d));
                    (false, true)
                }
            },
            None => (false, false),
        }
    }

    /// A node went away: drop what was filed under its ID. Returns which
    /// lists changed (input, system).
    pub fn remove_node(&mut self, id: u32) -> (r: (bool, bool))
        requires
            old(self).wf(),
        ensures
            final(self).wf(),
            r.0 == old(self).spec_input().contains_key(id),
            r.1 == old(self).spec_system().contains_key(id),
            final(self).spec_input() == old(self).spec_input().remove(id),
            final(self).spec_system() == old(self).spec_system().remove(id),
    {
        broadcast use vstd::std_specs::hash::group_hash_axioms;
        let a = self.input.remove(&id).is_some();
        let b = self.system.remove(&id).is_some();
        (a, b)
    }

    fn list(m: &HashMap<u32, PwAudioDevice>) -> (r: Vec<PwAudioDevice>)
        requires
            keyed_by_id(m@),
        ensures
            lists_devices(r@, m@),
    {
        broadcast use vstd::std_specs::hash::group_hash_axioms;
        let mut r: Vec<PwAudioDevice> = Vec::new();
        for kd in it: m.iter()
            invariant
                r@.len() == it.index(),
                forall|j: int|
                    0 <= j < it.index() ==> (#[trigger] r@[j]).id == *it.seq()[j].0 && r@[j].name@
                        == it.seq()[j].1.name@ && r@[j].source_type == it.seq()[j].1.source_type,
        {
            let d = kd.1;
            r.push(PwAudioDevice { id: *kd.0, name: d.name.clone(), source_type: d.source_type });
        }
        proof {
            let v = vstd::std_specs::iter::IteratorSpec::remaining(
                &vstd::std_specs::hash::spec_hash_map_iter(m),
            );
            assert forall|k: u32| #[trigger] m@.contains_key(k) implies device_ids(r@).contains(k) by {
                assert(v.contains((&k, &m@[k])));
                let j = choose|j: int| 0 <= j < v.len() && v[j] == (&k, &m@[k]);
                assert(device_ids(r@)[j] == k);
            }
        }
        r
    }

    /// A copy of each input device, in the order the map is walked (which
    /// differs from one process to the next).
    pub fn input_devices(&self) -> (r: Vec<PwAudioDevice>)
        requires
            self.wf(),
        ensures
            lists_devices(r@, self.spec_input()),
    {
        Self::list(&self.input)
    }

    /// A copy of each output monitor, in the order the map is walked (which
    /// differs from one process to the next).
    pub fn system_devices(&self) -> (r: Vec<PwAudioDevice>)
        requires
            self.wf(),
        ensures
            lists_devices(r@, self.spec_system()),
    {
        Self::list(&self.system)
    }

    /// Whether a node is an output whose monitor can be captured.
    pub fn is_sink(&self, id: u32) -> (r: bool)
        ensures
            r == self.spec_system().contains_key(id),
    {
        broadcast use vstd::std_specs::hash::group_hash_axioms;
        self.system.contains_key(&id)
    }
}

/// A stream to open for a capture command.
pub struct StreamPlan {
    /// Node to capture
    pub device_id: u32,
    /// Capture an output's monitor rather than an input
    pub capture_sink: bool,
    /// Stream 1 or 2 of the mixer
    pub stream_index: usize,
    /// PipeWire stream name
    pub name: String,
}

/// The stream name for a capture stream.
pub open spec fn stream_name(capture_sink: bool, index: usize) -> Seq<char> {
    if capture_sink {
        if index == 1 {
            "stt-system-capture-1"@
        } else {
            "stt-system-capture-2"@
        }
    } else {
        if index == 1 {
            "stt-input-capture-1"@
        } else {
            "stt-input-capture-2"@
        }
    }
}

fn plan_stream(registry: &DeviceRegistry, device_id: u32, stream_index: usize) -> (r: StreamPlan)
    requires
        stream_index == 1 || stream_index == 2,
    ensures
        r.device_id == device_id,
        r.capture_sink == registry.spec_system().contains_key(device_id),
        r.stream_index == stream_index,
        r.name@ == stream_name(r.capture_sink, stream_index),
{
    let capture_sink = registry.is_sink(device_id);
    let name = if capture_sink {
        if stream_index == 1 {
            String::from_str("stt-system-capture-1")
        } else {
            String::from_str("stt-system-capture-2")
        }
    } else {
        if stream_index == 1 {
            String::from_str("stt-input-capture-1")
        } else {
            String::from_str("stt-input-capture-2")
        }
    };
    StreamPlan { device_id, capture_sink, stream_index, name }
}

/// The streams a capture command opens: one per given source, stream 1
/// for the first, stream 2 for the second; the mixer expects that many.
pub fn plan_capture(registry: &DeviceRegistry, source1_id: Option<u32>, source2_id: Option<u32>) -> (r:
    (usize, Vec<StreamPlan>))
    ensures
        r.0 == (if source1_id is Some {
            1nat
        } else {
            0nat
        }) + (if source2_id is Some {
            1nat
        } else {
            0nat
        }),
        r.1@.len() == r.0,
        source1_id matches Some(id1) ==> r.1@[0].device_id == id1 && r.1@[0].stream_index == 1
            && r.1@[0].capture_sink == registry.spec_system().contains_key(id1)
            && r.1@[0].name@ == stream_name(r.1@[0].capture_sink, 1),
        source2_id matches Some(id2) ==> ({
            let k = r.1@.len() - 1;
            &&& r.1@[k].device_id == id2
            &&& r.1@[k].stream_index == 2
            &&& r.1@[k].capture_sink == registry.spec_system().contains_key(id2)
            &&& r.1@[k].name@ == stream_name(r.1@[k].capture_sink, 2)
        }),
{
    let mut plans: Vec<StreamPlan> = Vec::new();
    let mut count: usize = 0;
    if let Some(id1) = source1_id {
        plans.push(plan_stream(registry, id1, 1));
        count = count + 1;
    }
    if let Some(id2) = source2_id {
        plans.push(plan_stream(registry, id2, 2));
        count = count + 1;
    }
    (count, plans)
}

} // verus!
