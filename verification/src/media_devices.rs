//! `navigator.mediaDevices`: persona-backed device lists; capture is never
//! granted.

use vstd::prelude::*;
use crate::text::{decimal_text, push_decimal};

verus! {

/// The kind of a media device (`MediaDeviceKind`).
#[derive(Clone, Copy, Debug)]
pub enum MediaDeviceKind {
    Audioinput,
    Videoinput,
    Audiooutput,
}

/// A device reported by `enumerateDevices`.
pub struct PersonaMediaDevice {
    pub kind: MediaDeviceKind,
    pub device_id: String,
    pub label: String,
    pub group_id: String,
}

/// The text of a reported device.
pub struct PersonaMediaDeviceView {
    pub kind: MediaDeviceKind,
    pub device_id: Seq<char>,
    pub label: Seq<char>,
    pub group_id: Seq<char>,
}

impl View for PersonaMediaDevice {
    type V = PersonaMediaDeviceView;

    open spec fn view(&self) -> PersonaMediaDeviceView {
        PersonaMediaDeviceView {
            kind: self.kind,
            device_id: self.device_id@,
            label: self.label@,
            group_id: self.group_id@,
        }
    }
}

/// Why a capture request is refused (a `DOMException` name).
#[derive(Clone, Copy, Debug)]
pub enum MediaError {
    NotAllowedError,
}

/// The number of devices of one kind: the preference kept within `0..=16`.
pub open spec fn device_count(count: i64) -> nat {
    if count < 0 {
        0
    } else if count > 16 {
        16
    } else {
        count as nat
    }
}

/// The devices of one kind: `<prefix>-<i>` in group `group-<i>`, no label.
pub open spec fn persona_devices_of(kind: MediaDeviceKind, prefix: Seq<char>, count: i64) -> Seq<PersonaMediaDeviceView> {
    Seq::new(
        device_count(count),
        |i: int| PersonaMediaDeviceView {
            kind: kind,
            device_id: prefix + "-"@ + decimal_text(i as nat),
            label: ""@,
            group_id: "group-"@ + decimal_text(i as nat),
        },
    )
}

/// All reported devices: audio inputs, then video inputs, then audio outputs.
pub open spec fn persona_device_list(audio_inputs: i64, video_inputs: i64, audio_outputs: i64) -> Seq<PersonaMediaDeviceView> {
    persona_devices_of(MediaDeviceKind::Audioinput, "audio-input"@, audio_inputs)
        + persona_devices_of(MediaDeviceKind::Videoinput, "video-input"@, video_inputs)
        + persona_devices_of(MediaDeviceKind::Audiooutput, "audio-output"@, audio_outputs)
}

/// Appends the persona's devices of one kind.
pub fn push_persona_media_devices(
    devices: &mut Vec<PersonaMediaDevice>,
    kind: MediaDeviceKind,
    prefix: &str,
    count: i64,
)
    ensures
        final(devices)@.map_values(|d: PersonaMediaDevice| d@) == old(devices)@.map_values(
            |d: PersonaMediaDevice| d@,
        ) + persona_devices_of(kind, prefix@, count),
{
    let n: u64 = if count < 0 {
        0
    } else if count > 16 {
        16
    } else {
        count as u64
    };
    let ghost start = old(devices)@.map_values(|d: PersonaMediaDevice| d@);
    let mut index: u64 = 0;
    while index < n
        invariant
            index <= n,
            n == device_count(count),
            start == old(devices)@.map_values(|d: PersonaMediaDevice| d@),
            devices@.map_values(|d: PersonaMediaDevice| d@) == start + persona_devices_of(kind, prefix@, count).subrange(
                0,
                index as int,
            ),
        decreases n - index,
    {
        let mut device_id = String::from_str(prefix);
        device_id.append("-");
        push_decimal(&mut device_id, index);
        let mut group_id = String::from_str("group-");
        push_decimal(&mut group_id, index);
        let device = PersonaMediaDevice { kind, device_id, label: String::from_str(""), group_id };
        let ghost prev = devices@;
        devices.push(device);
        proof {
            let all = persona_devices_of(kind, prefix@, count);
            assert(device@ == all[index as int]);
            assert(devices@.map_values(|d: PersonaMediaDevice| d@) =~= prev.map_values(
                |d: PersonaMediaDevice| d@,
            ).push(device@));
            assert(all.subrange(0, index + 1) =~= all.subrange(0, index as int).push(all[index as int]));
        }
        index = index + 1;
    }
    assert(persona_devices_of(kind, prefix@, count).subrange(0, index as int) =~= persona_devices_of(
        kind,
        prefix@,
        count,
    ));
}

/// The devices `enumerateDevices` reports for the persona's device counts.
pub fn persona_media_devices(audio_inputs: i64, video_inputs: i64, audio_outputs: i64) -> (r: Vec<PersonaMediaDevice>)
    ensures
        r@.map_values(|d: PersonaMediaDevice| d@) == persona_device_list(audio_inputs, video_inputs, audio_outputs),
{
    let mut devices: Vec<PersonaMediaDevice> = Vec::new();
    assert(devices@.map_values(|d: PersonaMediaDevice| d@) =~= Seq::<PersonaMediaDeviceView>::empty());
    push_persona_media_devices(&mut devices, MediaDeviceKind::Audioinput, "audio-input", audio_inputs);
    push_persona_media_devices(&mut devices, MediaDeviceKind::Videoinput, "video-input", video_inputs);
    push_persona_media_devices(&mut devices, MediaDeviceKind::Audiooutput, "audio-output", audio_outputs);
    assert(devices@.map_values(|d: PersonaMediaDevice| d@) =~= persona_device_list(
        audio_inputs,
        video_inputs,
        audio_outputs,
    ));
    devices
}

/// The `MediaDevices` interface object.
pub struct MediaDevices {}

impl MediaDevices {
    /// The object.
    pub fn new_inherited() -> MediaDevices {
        MediaDevices {}
    }

    /// The object.
    pub fn new() -> MediaDevices {
        MediaDevices::new_inherited()
    }

    /// `getUserMedia`: host capture devices are never opened, so every
    /// request is refused with `NotAllowedError`.
    #[allow(non_snake_case)]
    pub fn GetUserMedia(&self) -> (r: Result<(), MediaError>)
        ensures
            r == Err::<(), MediaError>(MediaError::NotAllowedError),
    {
        Err(MediaError::NotAllowedError)
    }

    /// `enumerateDevices`: the persona's devices, never the host's.
    #[allow(non_snake_case)]
    pub fn EnumerateDevices(&self, audio_inputs: i64, video_inputs: i64, audio_outputs: i64) -> (r: Vec<PersonaMediaDevice>)
        ensures
            r@.map_values(|d: PersonaMediaDevice| d@) == persona_device_list(audio_inputs, video_inputs, audio_outputs),
    {
        persona_media_devices(audio_inputs, video_inputs, audio_outputs)
    }
}

/// Law: the list holds the preference's count of each kind (none when it is
/// negative, at most sixteen): first the microphones `audio-input-0`, ...,
/// then the cameras `video-input-0`, ..., then the speakers `audio-output-0`,
/// ...; each device's kind matches its id, and the `n`-th device of a kind is
/// in group `group-n`.
pub proof fn law_device_kinds_follow_their_ids(a: i64, v: i64, o: i64, i: int)
    ensures
        device_count(a) == (if a < 0 { 0 } else if a > 16 { 16 } else { a as int }),
        device_count(v) == (if v < 0 { 0 } else if v > 16 { 16 } else { v as int }),
        device_count(o) == (if o < 0 { 0 } else if o > 16 { 16 } else { o as int }),
        persona_device_list(a, v, o).len() == device_count(a) + device_count(v) + device_count(o),
        0 <= i < device_count(a) ==> {
            &&& persona_device_list(a, v, o)[i].kind == MediaDeviceKind::Audioinput
            &&& persona_device_list(a, v, o)[i].device_id == "audio-input"@ + "-"@ + decimal_text(i as nat)
            &&& persona_device_list(a, v, o)[i].group_id == "group-"@ + decimal_text(i as nat)
        },
        device_count(a) <= i < device_count(a) + device_count(v) ==> {
            &&& persona_device_list(a, v, o)[i].kind == MediaDeviceKind::Videoinput
            &&& persona_device_list(a, v, o)[i].device_id == "video-input"@ + "-"@ + decimal_text(
                (i - device_count(a)) as nat,
            )
            &&& persona_device_list(a, v, o)[i].group_id == "group-"@ + decimal_text((i - device_count(a)) as nat)
        },
        device_count(a) + device_count(v) <= i < persona_device_list(a, v, o).len() ==> {
            &&& persona_device_list(a, v, o)[i].kind == MediaDeviceKind::Audiooutput
            &&& persona_device_list(a, v, o)[i].device_id == "audio-output"@ + "-"@ + decimal_text(
                (i - device_count(a) - device_count(v)) as nat,
            )
            &&& persona_device_list(a, v, o)[i].group_id == "group-"@ + decimal_text(
                (i - device_count(a) - device_count(v)) as nat,
            )
        },
{
    let la = persona_devices_of(MediaDeviceKind::Audioinput, "audio-input"@, a);
    let lv = persona_devices_of(MediaDeviceKind::Videoinput, "video-input"@, v);
    let lo = persona_devices_of(MediaDeviceKind::Audiooutput, "audio-output"@, o);
    let all = persona_device_list(a, v, o);
    if 0 <= i < la.len() {
        assert(all[i] == la[i]);
    } else if la.len() <= i < la.len() + lv.len() {
        assert(all[i] == lv[i - la.len()]);
    } else if la.len() + lv.len() <= i < all.len() {
        assert(all[i] == lo[i - la.len() - lv.len()]);
    }
}

/// Law: at most sixteen devices of each kind are reported, none with a label.
pub proof fn law_device_list_is_bounded_and_unlabelled(audio_inputs: i64, video_inputs: i64, audio_outputs: i64)
    ensures
        persona_device_list(audio_inputs, video_inputs, audio_outputs).len() == device_count(audio_inputs)
            + device_count(video_inputs) + device_count(audio_outputs),
        device_count(audio_inputs) <= 16 && device_count(video_inputs) <= 16 && device_count(audio_outputs) <= 16,
        forall|i: int| 0 <= i < persona_device_list(audio_inputs, video_inputs, audio_outputs).len()
            ==> (#[trigger] persona_device_list(audio_inputs, video_inputs, audio_outputs)[i]).label == ""@,
{
    let a = persona_devices_of(MediaDeviceKind::Audioinput, "audio-input"@, audio_inputs);
    let v = persona_devices_of(MediaDeviceKind::Videoinput, "video-input"@, video_inputs);
    let o = persona_devices_of(MediaDeviceKind::Audiooutput, "audio-output"@, audio_outputs);
    assert forall|i: int| 0 <= i < persona_device_list(audio_inputs, video_inputs, audio_outputs).len()
        implies (#[trigger] persona_device_list(audio_inputs, video_inputs, audio_outputs)[i]).label == ""@ by {
        if i < a.len() {
            assert(persona_device_list(audio_inputs, video_inputs, audio_outputs)[i] == a[i]);
        } else if i < a.len() + v.len() {
            assert(persona_device_list(audio_inputs, video_inputs, audio_outputs)[i] == v[i - a.len()]);
        } else {
            assert(persona_device_list(audio_inputs, video_inputs, audio_outputs)[i] == o[i - a.len() - v.len()]);
        }
    }
}

} // verus!
