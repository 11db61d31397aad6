//! Audio device naming: which capture devices are monitors of an output,
//! the friendly names shown for monitors, and the device lists built from
//! the names the audio host reports.

use vstd::prelude::*;
use vstd::string::*;
use crate::text::{
    decimal, ends_with, find_first, find_last, first_index_of, has_prefix, has_suffix,
    last_index_of, replace_char, replace_char_spec, seq_contains, starts_with, str_contains,
    str_eq, usize_to_decimal,
};
use crate::types::{AudioDevice, AudioSourceType};

verus! {

/// What `str::to_lowercase` gives for a text: the Unicode lower-case
/// mapping, a fixed function of the text.
pub uninterp spec fn lowercased(s: Seq<char>) -> Seq<char>;

/// `str::to_lowercase`: the text in Unicode lower case.
#[verifier::external_body]
pub(crate) fn to_lowercase(s: &str) -> (r: String)
    ensures
        r@ == lowercased(s@),
{
    s.to_lowercase()
}

/// A lower-case device name that marks a monitor or loopback source.
pub open spec fn has_monitor_marker(lower: Seq<char>) -> bool {
    seq_contains(lower, "monitor"@) || seq_contains(lower, "loopback"@)
}

/// A device name that marks a monitor or loopback source.
pub open spec fn is_monitor_name(name: Seq<char>) -> bool {
    has_monitor_marker(lowercased(name))
}

/// Whether a device name, already in lower case, marks a monitor or
/// loopback source.
pub fn monitor_marker_in(lower: &str) -> (r: bool)
    ensures
        r == has_monitor_marker(lower@),
{
    str_contains(lower, "monitor") || str_contains(lower, "loopback")
}

/// Whether a device name indicates a monitor or loopback source.
pub fn is_monitor_source(name: &str) -> (r: bool)
    ensures
        r == is_monitor_name(name@),
{
    let lower = to_lowercase(name);
    monitor_marker_in(lower.as_str())
}

/// The text after the last `c` (all of `s` when there is none).
pub open spec fn after_last(s: Seq<char>, c: char) -> Seq<char> {
    match last_index_of(s, c) {
        Some(k) => s.subrange(k + 1, s.len() as int),
        None => s,
    }
}

/// The text before the last `c` (all of `s` when there is none).
pub open spec fn before_last(s: Seq<char>, c: char) -> Seq<char> {
    match last_index_of(s, c) {
        Some(k) => s.subrange(0, k),
        None => s,
    }
}

/// The text before the first `c` (all of `s` when there is none).
pub open spec fn before_first(s: Seq<char>, c: char) -> Seq<char> {
    match first_index_of(s, c) {
        Some(k) => s.subrange(0, k),
        None => s,
    }
}

/// The friendly name of a PCI output by its profile.
pub open spec fn pci_output_name(profile: Seq<char>) -> Seq<char> {
    if profile == "analog-stereo"@ {
        "Speakers"@
    } else if profile == "hdmi-stereo"@ {
        "HDMI"@
    } else if profile == "hdmi-stereo-extra1"@ {
        "HDMI 2"@
    } else if profile == "hdmi-stereo-extra2"@ {
        "HDMI 3"@
    } else {
        profile
    }
}

/// The output profiles a PCI sound card is known to report.
pub open spec fn is_known_pci_profile(profile: Seq<char>) -> bool {
    profile == "analog-stereo"@ || profile == "hdmi-stereo"@ || profile == "hdmi-stereo-extra1"@
        || profile == "hdmi-stereo-extra2"@
}

/// Known PCI profiles get names of their own, no two alike and none the
/// profile itself; the extra HDMI outputs `hdmi-stereo-extra<n>` are
/// numbered `HDMI <n + 1>` after the first one, `HDMI`; any other profile
/// is shown as it is.
pub proof fn lemma_pci_output_names(p: Seq<char>, q: Seq<char>)
    ensures
        is_known_pci_profile(p) && is_known_pci_profile(q) && p != q ==> pci_output_name(p)
            != pci_output_name(q),
        is_known_pci_profile(p) ==> pci_output_name(p) != p,
        !is_known_pci_profile(p) ==> pci_output_name(p) == p,
        pci_output_name("hdmi-stereo"@) == "HDMI"@,
        forall|d: char|
            '1' <= d <= '2' ==> pci_output_name(#[trigger] ("hdmi-stereo-extra"@.push(d)))
                == "HDMI "@.push(((d as u32) + 1) as char),
{
    reveal_strlit("analog-stereo");
    reveal_strlit("hdmi-stereo");
    reveal_strlit("hdmi-stereo-extra1");
    reveal_strlit("hdmi-stereo-extra2");
    reveal_strlit("hdmi-stereo-extra");
    reveal_strlit("Speakers");
    reveal_strlit("HDMI");
    reveal_strlit("HDMI 2");
    reveal_strlit("HDMI 3");
    reveal_strlit("HDMI ");
    assert("hdmi-stereo-extra"@.push('1') =~= "hdmi-stereo-extra1"@);
    assert("hdmi-stereo-extra"@.push('2') =~= "hdmi-stereo-extra2"@);
    assert("HDMI "@.push('2') =~= "HDMI 2"@);
    assert("HDMI "@.push('3') =~= "HDMI 3"@);
    assert("HDMI 2"@[5] != "HDMI 3"@[5]);
    assert("Speakers"@.len() == 8 && "HDMI"@.len() == 4 && "HDMI 2"@.len() == 6 && "HDMI 3"@.len()
        == 6);
    assert("analog-stereo"@.len() == 13 && "hdmi-stereo"@.len() == 11 && "hdmi-stereo-extra1"@.len()
        == 18 && "hdmi-stereo-extra2"@.len() == 18);
    assert("HDMI 2"@ != "HDMI 3"@);
    assert("hdmi-stereo-extra1"@[17] != "hdmi-stereo-extra2"@[17]);
    assert forall|d: char|
        '1' <= d <= '2' implies pci_output_name(#[trigger] ("hdmi-stereo-extra"@.push(d)))
            == "HDMI "@.push(((d as u32) + 1) as char) by {
        if d == '1' {
            assert("hdmi-stereo-extra"@.push(d) =~= "hdmi-stereo-extra1"@);
            assert("HDMI "@.push(((d as u32) + 1) as char) =~= "HDMI 2"@);
        } else {
            assert(d == '2');
            assert("hdmi-stereo-extra"@.push(d) =~= "hdmi-stereo-extra2"@);
            assert("HDMI "@.push(((d as u32) + 1) as char) =~= "HDMI 3"@);
        }
    }
}

/// The last dot-separated part of a monitor name, with dashes and
/// underscores shown as spaces.
pub open spec fn monitor_fallback_name(stripped: Seq<char>) -> Seq<char> {
    replace_char_spec(replace_char_spec(after_last(stripped, '.'), '-', ' '), '_', ' ')
}

/// The friendly name shown for a monitor source:
/// - `Monitor of <output>` shows the output's name;
/// - `alsa_output.usb-<device>-<serial>.<...>.<profile>.monitor` shows
///   `<device> (<profile>)`, underscores and dashes as spaces;
/// - `alsa_output.pci-<...>.<profile>.monitor` shows the kind of output;
/// - other `<...>.<last>.monitor` names show their last part;
/// - anything else is shown as it is.
pub open spec fn monitor_display_name(name: Seq<char>) -> Seq<char> {
    if has_prefix(name, "Monitor of "@) {
        name.subrange("Monitor of "@.len() as int, name.len() as int)
    } else if has_suffix(name, ".monitor"@) {
        let stripped = name.subrange(0, name.len() - ".monitor"@.len());
        if has_prefix(stripped, "alsa_output."@) {
            let rest = stripped.subrange("alsa_output."@.len() as int, stripped.len() as int);
            let first = before_first(rest, '.');
            let profile = after_last(rest, '.');
            if first_index_of(rest, '.') is Some && has_prefix(first, "usb-"@) {
                let usb = first.subrange(4, first.len() as int);
                replace_char_spec(before_last(usb, '-'), '_', ' ') + " ("@ + replace_char_spec(
                    profile,
                    '-',
                    ' ',
                ) + ")"@
            } else if first_index_of(rest, '.') is Some && has_prefix(first, "pci-"@) {
                pci_output_name(profile)
            } else {
                monitor_fallback_name(stripped)
            }
        } else {
            monitor_fallback_name(stripped)
        }
    } else {
        name
    }
}

pub(crate) fn after_last_str(s: &str, c: char) -> (r: &str)
    ensures
        r@ == after_last(s@, c),
{
    let n = s.unicode_len();
    match find_last(s, c) {
        Some(k) => s.substring_char(k + 1, n),
        None => s.substring_char(0, n),
    }
}

fn before_last_str(s: &str, c: char) -> (r: &str)
    ensures
        r@ == before_last(s@, c),
{
    let n = s.unicode_len();
    match find_last(s, c) {
        Some(k) => s.substring_char(0, k),
        None => s.substring_char(0, n),
    }
}

fn before_first_str(s: &str, c: char) -> (r: &str)
    ensures
        r@ == before_first(s@, c),
{
    let n = s.unicode_len();
    match find_first(s, c) {
        Some(k) => s.substring_char(0, k),
        None => s.substring_char(0, n),
    }
}

fn pci_output_text(profile: &str) -> (r: String)
    ensures
        r@ == pci_output_name(profile@),
{
    if str_eq(profile, "analog-stereo") {
        String::from_str("Speakers")
    } else if str_eq(profile, "hdmi-stereo") {
        String::from_str("HDMI")
    } else if str_eq(profile, "hdmi-stereo-extra1") {
        String::from_str("HDMI 2")
    } else if str_eq(profile, "hdmi-stereo-extra2") {
        String::from_str("HDMI 3")
    } else {
        String::from_str(profile)
    }
}

fn fallback_text(stripped: &str) -> (r: String)
    ensures
        r@ == monitor_fallback_name(stripped@),
{
    proof {
        reveal_strlit(" ");
    }
    let last = after_last_str(stripped, '.');
    let dashed = replace_char(last, '-', " ");
    replace_char(dashed.as_str(), '_', " ")
}

/// Create a user-friendly display name for a monitor source.
pub fn make_monitor_display_name(name: &str) -> (r: String)
    ensures
        r@ == monitor_display_name(name@),
{
    proof {
        reveal_strlit("Monitor of ");
        reveal_strlit(".monitor");
        reveal_strlit("alsa_output.");
        reveal_strlit("usb-");
        reveal_strlit(" ");
    }
    let n = name.unicode_len();
    if starts_with(name, "Monitor of ") {
        return String::from_str(name.substring_char(11, n));
    }
    if ends_with(name, ".monitor") {
        let stripped = name.substring_char(0, n - 8);
        if starts_with(stripped, "alsa_output.") {
            let sn = stripped.unicode_len();
            let rest = stripped.substring_char(12, sn);
            let has_dot = find_first(rest, '.').is_some();
            let first = before_first_str(rest, '.');
            let profile = after_last_str(rest, '.');
            if has_dot && starts_with(first, "usb-") {
                let fl = first.unicode_len();
                let usb = first.substring_char(4, fl);
                let device = before_last_str(usb, '-');
                let clean = replace_char(device, '_', " ");
                let kind = replace_char(profile, '-', " ");
                return clean.concat(" (").concat(kind.as_str()).concat(")");
            }
            if has_dot && starts_with(first, "pci-") {
                return pci_output_text(profile);
            }
        }
        return fallback_text(stripped);
    }
    String::from_str(name)
}

/// The ID and name of each device.
pub open spec fn device_views(s: Seq<AudioDevice>) -> Seq<(Seq<char>, Seq<char>)> {
    s.map_values(|d: AudioDevice| (d.id@, d.name@))
}

/// The name shown for the device at a position.
pub open spec fn shown_device_name(name: Option<String>, index: int) -> Seq<char> {
    match name {
        Some(n) => n@,
        None => "Unknown Device "@ + decimal(index as nat),
    }
}

/// ID and name of the input devices among the first `n` devices the host
/// lists: every device whose name does not mark a monitor, its position as ID.
pub open spec fn listed_inputs(names: Seq<Option<String>>, n: int) -> Seq<(Seq<char>, Seq<char>)>
    decreases n,
{
    if n <= 0 {
        Seq::empty()
    } else {
        let prev = listed_inputs(names, n - 1);
        let shown = shown_device_name(names[n - 1], n - 1);
        if !is_monitor_name(shown) {
            prev.push((decimal((n - 1) as nat), shown))
        } else {
            prev
        }
    }
}

/// ID and friendly name of the monitor sources among the first `n` devices
/// the host lists.
pub open spec fn listed_monitors(names: Seq<Option<String>>, n: int) -> Seq<(Seq<char>, Seq<char>)>
    decreases n,
{
    if n <= 0 {
        Seq::empty()
    } else {
        let prev = listed_monitors(names, n - 1);
        let shown = shown_device_name(names[n - 1], n - 1);
        if is_monitor_name(shown) {
            prev.push((decimal((n - 1) as nat), monitor_display_name(shown)))
        } else {
            prev
        }
    }
}

fn device_name_or_unknown(name: &Option<String>, index: usize) -> (r: String)
    ensures
        r@ == shown_device_name(*name, index as int),
{
    match name {
        Some(n) => n.clone(),
        None => String::from_str("Unknown Device ").concat(usize_to_decimal(index).as_str()),
    }
}

/// The input devices among the devices the audio host lists (by position;
/// `None` where a device's name could not be read): monitors are left out,
/// and an unreadable name is shown as `Unknown Device <position>`.
pub fn input_devices_from_names(names: &Vec<Option<String>>) -> (r: Vec<AudioDevice>)
    ensures
        device_views(r@) == listed_inputs(names@, names@.len() as int),
        forall|k: int| 0 <= k < r@.len() ==> (#[trigger] r@[k]).source_type == AudioSourceType::Input,
{
    let mut out: Vec<AudioDevice> = Vec::new();
    let mut i: usize = 0;
    while i < names.len()
        invariant
            i <= names@.len(),
            device_views(out@) == listed_inputs(names@, i as int),
            forall|k: int| 0 <= k < out@.len() ==> (#[trigger] out@[k]).source_type == AudioSourceType::Input,
        decreases names@.len() - i,
    {
        let ghost before = out@;
        let name = device_name_or_unknown(&names[i], i);
        if !is_monitor_source(name.as_str()) {
            let id = usize_to_decimal(i);
            out.push(AudioDevice { id, name, source_type: AudioSourceType::Input });
            assert(device_views(out@) =~= device_views(before).push(
                (out@.last().id@, out@.last().name@),
            ));
        }
        i = i + 1;
    }
    out
}

/// The monitor sources among the devices the audio host lists, with their
/// friendly names.
pub fn system_devices_from_names(names: &Vec<Option<String>>) -> (r: Vec<AudioDevice>)
    ensures
        device_views(r@) == listed_monitors(names@, names@.len() as int),
        forall|k: int| 0 <= k < r@.len() ==> (#[trigger] r@[k]).source_type == AudioSourceType::System,
{
    let mut out: Vec<AudioDevice> = Vec::new();
    let mut i: usize = 0;
    while i < names.len()
        invariant
            i <= names@.len(),
            device_views(out@) == listed_monitors(names@, i as int),
            forall|k: int| 0 <= k < out@.len() ==> (#[trigger] out@[k]).source_type == AudioSourceType::System,
        decreases names@.len() - i,
    {
        let ghost before = out@;
        let name = device_name_or_unknown(&names[i], i);
        if is_monitor_source(name.as_str()) {
            let display = make_monitor_display_name(name.as_str());
            let id = usize_to_decimal(i);
            out.push(AudioDevice { id, name: display, source_type: AudioSourceType::System });
            assert(device_views(out@) =~= device_views(before).push(
                (out@.last().id@, out@.last().name@),
            ));
        }
        i = i + 1;
    }
    out
}

} // verus!
