//! The NanoKontrol2 control surface: decoding raw control-change data into
//! semantic messages, and folding those messages into a snapshot of the
//! device's state.

use vstd::prelude::*;

verus! {

/// The logical identity of one control on the surface. `S`, `M` and `R` are
/// the per-channel Solo, Mute and Record-arm buttons; `Record` is the global
/// transport record button. `Knob` and `Slider` are the only continuous
/// controls; everything else is a button.
#[derive(Clone, Copy, Debug, PartialEq, Eq, Structural)]
pub enum Korg {
    S,
    M,
    R,
    Knob,
    Slider,
    TrackLeft,
    TrackRight,
    Cycle,
    SetMarker,
    MarkerLeft,
    MarkerRight,
    Rewind,
    FastForward,
    Stop,
    Play,
    Record,
}

/// Which control a controller number selects. Five aligned ranges of eight
/// cover the per-channel controls; a fixed list of single numbers covers the
/// transport buttons; everything else falls back to `Cycle` so that decoding
/// is total and unexpected input never halts state tracking.
pub open spec fn spec_kind(data1: u8) -> Korg {
    if data1 <= 7 {
        Korg::Slider
    } else if 16 <= data1 <= 23 {
        Korg::Knob
    } else if 32 <= data1 <= 39 {
        Korg::S
    } else if 48 <= data1 <= 55 {
        Korg::M
    } else if 64 <= data1 <= 71 {
        Korg::R
    } else if data1 == 41 {
        Korg::Play
    } else if data1 == 42 {
        Korg::Stop
    } else if data1 == 43 {
        Korg::Rewind
    } else if data1 == 44 {
        Korg::FastForward
    } else if data1 == 45 {
        Korg::Record
    } else if data1 == 46 {
        Korg::Cycle
    } else if data1 == 58 {
        Korg::TrackLeft
    } else if data1 == 59 {
        Korg::TrackRight
    } else if data1 == 60 {
        Korg::SetMarker
    } else if data1 == 61 {
        Korg::MarkerLeft
    } else if data1 == 62 {
        Korg::MarkerRight
    } else {
        Korg::Cycle
    }
}

/// True of the five kinds that belong to one of the eight channel strips.
pub open spec fn is_channel(kind: Korg) -> bool {
    kind == Korg::Slider || kind == Korg::Knob || kind == Korg::S || kind == Korg::M || kind
        == Korg::R
}

/// The channel-strip index a controller number selects. Each per-channel
/// range spans exactly eight consecutive numbers aligned to the modulus, so
/// `data1 % 8` is the strip index for all five ranges. Global controls carry
/// no strip; they get 0 as a sentinel, which nothing ever uses as an index.
pub open spec fn spec_group(data1: u8) -> u8 {
    if is_channel(spec_kind(data1)) {
        data1 % 8
    } else {
        0
    }
}

/// True of the controller numbers that the device's fixed mapping table
/// lists; the rest decode to the fallback kind.
pub open spec fn mapped(data1: u8) -> bool {
    data1 <= 7 || 16 <= data1 <= 23 || 32 <= data1 <= 39 || 48 <= data1 <= 55 || 64 <= data1 <= 71
        || 41 <= data1 <= 46 || 58 <= data1 <= 62
}

/// The boolean reading of a button's value byte: any non-zero value means
/// the button is pressed.
pub open spec fn spec_pressed(value: u8) -> bool {
    value != 0
}

/// A decoded control-change message: which control moved, which channel
/// strip it belongs to (sentinel 0 for global controls), the raw value byte,
/// and the hardware timestamp.
pub struct Message {
    pub name: Korg,
    pub group: u8,
    pub value: u8,
    pub timestamp: u32,
}

impl Message {
    /// A message is well formed when its group is a valid channel-strip
    /// index; decoding always produces one.
    pub open spec fn wf(self) -> bool {
        self.group < 8
    }

    /// Decodes one raw control-change datum into a message. Total: every
    /// controller number maps to some kind, unmapped ones to the fallback.
    pub fn new(data1: u8, data2: u8, timestamp: u32) -> (message: Message)
        ensures
            message.name == spec_kind(data1),
            message.group == spec_group(data1),
            message.value == data2,
            message.timestamp == timestamp,
            message.wf(),
    {
        let name = if data1 <= 7 {
            Korg::Slider
        } else if 16 <= data1 && data1 <= 23 {
            Korg::Knob
        } else if 32 <= data1 && data1 <= 39 {
            Korg::S
        } else if 48 <= data1 && data1 <= 55 {
            Korg::M
        } else if 64 <= data1 && data1 <= 71 {
            Korg::R
        } else if data1 == 41 {
            Korg::Play
        } else if data1 == 42 {
            Korg::Stop
        } else if data1 == 43 {
            Korg::Rewind
        } else if data1 == 44 {
            Korg::FastForward
        } else if data1 == 45 {
            Korg::Record
        } else if data1 == 46 {
            Korg::Cycle
        } else if data1 == 58 {
            Korg::TrackLeft
        } else if data1 == 59 {
            Korg::TrackRight
        } else if data1 == 60 {
            Korg::SetMarker
        } else if data1 == 61 {
            Korg::MarkerLeft
        } else if data1 == 62 {
            Korg::MarkerRight
        } else {
            Korg::Cycle
        };

        let group: u8 = match name {
            Korg::Slider | Korg::Knob | Korg::S | Korg::M | Korg::R => data1 % 8,
            _ => 0,
        };

        Message { name, group, value: data2, timestamp }
    }

    /// The boolean reading of this message's value byte.
    pub fn to_bool(&self) -> (pressed: bool)
        ensures
            pressed == spec_pressed(self.value),
    {
        match self.value {
            0 => false,
            _ => true,
        }
    }
}

/// The number of channel strips on the surface.
pub const NUM_SLIDERS: usize = 8;

/// The snapshot of one channel strip: the two continuous controls keep their
/// last raw value byte, the three buttons their last boolean reading.
#[derive(Clone, Copy, Debug, PartialEq, Eq, Structural)]
pub struct Control {
    pub knob: u8,
    pub slider: u8,
    pub solo: bool,
    pub mute: bool,
    pub rec: bool,
}

impl Control {
    /// The all-zero, all-released state a strip starts in.
    pub open spec fn spec_default() -> Control {
        Control { knob: 0, slider: 0, solo: false, mute: false, rec: false }
    }
}

impl Default for Control {
    fn default() -> (control: Control)
        ensures
            control == Control::spec_default(),
    {
        Control { knob: 0, slider: 0, solo: false, mute: false, rec: false }
    }
}

/// The snapshot of the whole surface: eight channel strips plus one boolean
/// per transport control. Last writer wins on every field.
pub struct NK2 {
    pub controls: [Control; NUM_SLIDERS],
    pub track_left: bool,
    pub track_right: bool,
    pub cycle: bool,
    pub set: bool,
    pub marker_left: bool,
    pub marker_right: bool,
    pub rewind: bool,
    pub fast_forward: bool,
    pub stop: bool,
    pub play: bool,
    pub record: bool,
}

/// The mathematical model of an `NK2` snapshot: the strips as a sequence,
/// the transport booleans as they are.
#[verifier::ext_equal]
pub ghost struct NK2View {
    pub controls: Seq<Control>,
    pub track_left: bool,
    pub track_right: bool,
    pub cycle: bool,
    pub set: bool,
    pub marker_left: bool,
    pub marker_right: bool,
    pub rewind: bool,
    pub fast_forward: bool,
    pub stop: bool,
    pub play: bool,
    pub record: bool,
}

impl NK2View {
    /// A model is well formed when it has exactly eight channel strips.
    pub open spec fn wf(self) -> bool {
        self.controls.len() == 8
    }

    /// The model of a freshly constructed snapshot: every strip at its
    /// default and every transport control released.
    pub open spec fn spec_default() -> NK2View {
        NK2View {
            controls: Seq::new(8, |i: int| Control::spec_default()),
            track_left: false,
            track_right: false,
            cycle: false,
            set: false,
            marker_left: false,
            marker_right: false,
            rewind: false,
            fast_forward: false,
            stop: false,
            play: false,
            record: false,
        }
    }
}

impl View for NK2 {
    type V = NK2View;

    open spec fn view(&self) -> NK2View {
        NK2View {
            controls: self.controls@,
            track_left: self.track_left,
            track_right: self.track_right,
            cycle: self.cycle,
            set: self.set,
            marker_left: self.marker_left,
            marker_right: self.marker_right,
            rewind: self.rewind,
            fast_forward: self.fast_forward,
            stop: self.stop,
            play: self.play,
            record: self.record,
        }
    }
}

/// What applying one message to a snapshot yields: exactly the one field the
/// message's kind targets is overwritten — with the raw value byte for the
/// continuous controls, with the boolean reading for every button — and
/// every other field is kept.
pub open spec fn spec_update(s: NK2View, m: Message) -> NK2View {
    let g = m.group as int;
    let pressed = spec_pressed(m.value);
    match m.name {
        Korg::Knob => NK2View {
            controls: s.controls.update(g, Control { knob: m.value, ..s.controls[g] }),
            ..s
        },
        Korg::Slider => NK2View {
            controls: s.controls.update(g, Control { slider: m.value, ..s.controls[g] }),
            ..s
        },
        Korg::S => NK2View {
            controls: s.controls.update(g, Control { solo: pressed, ..s.controls[g] }),
            ..s
        },
        Korg::M => NK2View {
            controls: s.controls.update(g, Control { mute: pressed, ..s.controls[g] }),
            ..s
        },
        Korg::R => NK2View {
            controls: s.controls.update(g, Control { rec: pressed, ..s.controls[g] }),
            ..s
        },
        Korg::TrackLeft => NK2View { track_left: pressed, ..s },
        Korg::TrackRight => NK2View { track_right: pressed, ..s },
        Korg::Cycle => NK2View { cycle: pressed, ..s },
        Korg::SetMarker => NK2View { set: pressed, ..s },
        Korg::MarkerLeft => NK2View { marker_left: pressed, ..s },
        Korg::MarkerRight => NK2View { marker_right: pressed, ..s },
        Korg::Rewind => NK2View { rewind: pressed, ..s },
        Korg::FastForward => NK2View { fast_forward: pressed, ..s },
        Korg::Stop => NK2View { stop: pressed, ..s },
        Korg::Play => NK2View { play: pressed, ..s },
        Korg::Record => NK2View { record: pressed, ..s },
    }
}

impl Default for NK2 {
    fn default() -> (nk2: NK2)
        ensures
            nk2@ == NK2View::spec_default(),
            nk2@.wf(),
    {
        let control = Control::default();
        let nk2 = NK2 {
            controls: [control; NUM_SLIDERS],
            track_left: false,
            track_right: false,
            cycle: false,
            set: false,
            marker_left: false,
            marker_right: false,
            rewind: false,
            fast_forward: false,
            stop: false,
            play: false,
            record: false,
        };
        proof {
            assert(nk2@.controls =~= NK2View::spec_default().controls);
            assert(nk2@ =~= NK2View::spec_default());
        }
        nk2
    }
}

impl NK2 {
    /// Applies one decoded message to the snapshot: last writer wins on the
    /// one targeted field, everything else untouched.
    #[verifier::rlimit(50)]
    pub fn update(&mut self, message: &Message)
        requires
            message.wf(),
        ensures
            final(self)@ == spec_update(old(self)@, *message),
    {
        let idx = message.group as usize;
        let pressed = message.to_bool();

        match message.name {
            Korg::Knob | Korg::Slider | Korg::S | Korg::M | Korg::R => {
                let mut control = self.controls[idx];
                match message.name {
                    Korg::Knob => control.knob = message.value,
                    Korg::Slider => control.slider = message.value,
                    Korg::S => control.solo = pressed,
                    Korg::M => control.mute = pressed,
                    _ => control.rec = pressed,
                }
                self.controls[idx] = control;
            },
            Korg::TrackLeft => self.track_left = pressed,
            Korg::TrackRight => self.track_right = pressed,
            Korg::Cycle => self.cycle = pressed,
            Korg::SetMarker => self.set = pressed,
            Korg::MarkerLeft => self.marker_left = pressed,
            Korg::MarkerRight => self.marker_right = pressed,
            Korg::Rewind => self.rewind = pressed,
            Korg::FastForward => self.fast_forward = pressed,
            Korg::Stop => self.stop = pressed,
            Korg::Play => self.play = pressed,
            Korg::Record => self.record = pressed,
        }

        proof {
            assert(self@ =~= spec_update(old(self)@, *message));
        }
    }
}

/// Law: every controller number in one of the five aligned per-channel
/// ranges decodes to that range's kind, with the strip index given by the
/// number modulo eight (for the first range, the number itself).
pub proof fn lemma_decode_channel_ranges(data1: u8)
    ensures
        data1 <= 7 ==> spec_kind(data1) == Korg::Slider && spec_group(data1) == data1,
        16 <= data1 <= 23 ==> spec_kind(data1) == Korg::Knob && spec_group(data1) == data1 % 8,
        32 <= data1 <= 39 ==> spec_kind(data1) == Korg::S && spec_group(data1) == data1 % 8,
        48 <= data1 <= 55 ==> spec_kind(data1) == Korg::M && spec_group(data1) == data1 % 8,
        64 <= data1 <= 71 ==> spec_kind(data1) == Korg::R && spec_group(data1) == data1 % 8,
{
}

/// Law: each single controller number in the fixed transport list decodes
/// to its listed kind, and every message with a global kind carries the
/// sentinel group.
pub proof fn lemma_decode_transport()
    ensures
        spec_kind(41) == Korg::Play,
        spec_kind(42) == Korg::Stop,
        spec_kind(43) == Korg::Rewind,
        spec_kind(44) == Korg::FastForward,
        spec_kind(45) == Korg::Record,
        spec_kind(46) == Korg::Cycle,
        spec_kind(58) == Korg::TrackLeft,
        spec_kind(59) == Korg::TrackRight,
        spec_kind(60) == Korg::SetMarker,
        spec_kind(61) == Korg::MarkerLeft,
        spec_kind(62) == Korg::MarkerRight,
        forall|data1: u8| !is_channel(spec_kind(data1)) ==> #[trigger] spec_group(data1) == 0,
{
}

/// Law: a controller number outside the device's mapping table decodes to
/// the fallback kind `Cycle`, as a global control; decoding never fails.
pub proof fn lemma_decode_fallback(data1: u8)
    requires
        !mapped(data1),
    ensures
        spec_kind(data1) == Korg::Cycle,
        spec_group(data1) == 0,
{
}

/// Law: the boolean reading of a value byte is false exactly for zero and
/// true for every value from one upward.
pub proof fn lemma_pressed(value: u8)
    ensures
        !spec_pressed(0),
        1 <= value ==> spec_pressed(value),
{
}

/// Law: last writer wins. Applying two messages that target the same
/// control (same kind and same group) leaves exactly the state the second
/// message alone would leave.
#[verifier::rlimit(100)]
pub proof fn lemma_update_last_writer(s: NK2View, m1: Message, m2: Message)
    requires
        s.wf(),
        m1.wf(),
        m2.wf(),
        m1.name == m2.name,
        m1.group == m2.group,
    ensures
        spec_update(spec_update(s, m1), m2) == spec_update(s, m2),
{
    assert(spec_update(spec_update(s, m1), m2) =~= spec_update(s, m2));
}

/// Law: applying the same message twice yields the same state as applying
/// it once.
pub proof fn lemma_update_idempotent(s: NK2View, m: Message)
    requires
        s.wf(),
        m.wf(),
    ensures
        spec_update(spec_update(s, m), m) == spec_update(s, m),
{
    lemma_update_last_writer(s, m, m);
}

/// Law: isolation. One update touches at most the one field its message
/// targets: every other channel strip is unchanged, every untargeted field
/// of the targeted strip is unchanged, the strips as a whole are unchanged
/// by a global message, and every transport flag whose kind the message
/// does not carry is unchanged.
pub proof fn lemma_update_isolation(s: NK2View, m: Message)
    requires
        s.wf(),
        m.wf(),
    ensures
        spec_update(s, m).controls.len() == s.controls.len(),
        forall|j: int|
            0 <= j < s.controls.len() && j != m.group ==> spec_update(s, m).controls[j]
                == s.controls[j],
        !is_channel(m.name) ==> spec_update(s, m).controls == s.controls,
        m.name != Korg::Knob ==> spec_update(s, m).controls[m.group as int].knob == s.controls[
            m.group as int
        ].knob,
        m.name != Korg::Slider ==> spec_update(s, m).controls[m.group as int].slider == s.controls[
            m.group as int
        ].slider,
        m.name != Korg::S ==> spec_update(s, m).controls[m.group as int].solo == s.controls[
            m.group as int
        ].solo,
        m.name != Korg::M ==> spec_update(s, m).controls[m.group as int].mute == s.controls[
            m.group as int
        ].mute,
        m.name != Korg::R ==> spec_update(s, m).controls[m.group as int].rec == s.controls[
            m.group as int
        ].rec,
        m.name != Korg::TrackLeft ==> spec_update(s, m).track_left == s.track_left,
        m.name != Korg::TrackRight ==> spec_update(s, m).track_right == s.track_right,
        m.name != Korg::Cycle ==> spec_update(s, m).cycle == s.cycle,
        m.name != Korg::SetMarker ==> spec_update(s, m).set == s.set,
        m.name != Korg::MarkerLeft ==> spec_update(s, m).marker_left == s.marker_left,
        m.name != Korg::MarkerRight ==> spec_update(s, m).marker_right == s.marker_right,
        m.name != Korg::Rewind ==> spec_update(s, m).rewind == s.rewind,
        m.name != Korg::FastForward ==> spec_update(s, m).fast_forward == s.fast_forward,
        m.name != Korg::Stop ==> spec_update(s, m).stop == s.stop,
        m.name != Korg::Play ==> spec_update(s, m).play == s.play,
        m.name != Korg::Record ==> spec_update(s, m).record == s.record,
{
}

} // verus!
