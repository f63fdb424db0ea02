//! One sink or source as the sound server last reported it, and the
//! decisions that move its volume.

use vstd::prelude::*;
use vstd::string::StringExecFns;
use crate::adjustment::{Adjustment, VolumeStep};
use crate::codec::{percent_of, read_volume_as_pct, MAX_VOLUME, MAX_VOLUME_BOOSTED};

verus! {

/// The native value of a silent channel.
pub const MUTED: u32 = 0;

/// What a mute toggle does to a device.
#[derive(Clone, Copy, PartialEq, Eq, Debug, Structural)]
pub enum MuteStep {
    /// Save the current loudness, then set every channel to `MUTED`.
    Silence,
    /// Load the saved loudness and set every channel to it.
    Restore,
}

/// The model of a `Device`.
pub struct DeviceView {
    pub name: Seq<char>,
    pub index: u32,
    pub description: Seq<char>,
    pub volume: Seq<u32>,
    pub rendering: Seq<char>,
    pub base_volume: u32,
}

impl DeviceView {
    /// The percentage that the device reads.
    pub open spec fn percent(self) -> u8 {
        percent_of(self.rendering)
    }

    /// Whether every channel is silent.
    pub open spec fn is_muted(self) -> bool {
        forall|c: int| 0 <= c < self.volume.len() ==> self.volume[c] == MUTED
    }

    /// What a mute toggle does to the device: a silent device is restored,
    /// any other is silenced.
    pub open spec fn mute_step(self) -> MuteStep {
        if self.is_muted() {
            MuteStep::Restore
        } else {
            MuteStep::Silence
        }
    }

    /// The device after every channel was set to `MUTED` and the server
    /// rendered that as `rendering`.
    pub open spec fn silenced(self, rendering: Seq<char>) -> DeviceView {
        self.with_volume(Seq::new(self.volume.len(), |c: int| MUTED), rendering)
    }

    /// The device after the server reported a new volume.
    pub open spec fn with_volume(self, volume: Seq<u32>, rendering: Seq<char>) -> DeviceView {
        DeviceView { volume, rendering, ..self }
    }
}

/// A sink or a source: its identity, its native volume on every channel, and
/// the server's rendering of that volume.
pub struct Device {
    name: String,
    index: u32,
    description: String,
    volume: Vec<u32>,
    rendering: String,
    base_volume: u32,
}

impl View for Device {
    type V = DeviceView;

    closed spec fn view(&self) -> DeviceView {
        DeviceView {
            name: self.name@,
            index: self.index,
            description: self.description@,
            volume: self.volume@,
            rendering: self.rendering@,
            base_volume: self.base_volume,
        }
    }
}

impl Device {
    /// A device as the server reports it. `volume` holds the native value of
    /// each channel, `rendering` the server's text for the first of them.
    pub fn new(
        name: String,
        index: u32,
        description: String,
        volume: Vec<u32>,
        rendering: String,
        base_volume: u32,
    ) -> (device: Device)
        ensures
            device@ == (DeviceView {
                name: name@,
                index,
                description: description@,
                volume: volume@,
                rendering: rendering@,
                base_volume,
            }),
    {
        Device { name, index, description, volume, rendering, base_volume }
    }

    /// The index that the server gave the device.
    pub fn index(&self) -> (index: u32)
        ensures
            index == self@.index,
    {
        self.index
    }

    /// The device's name.
    pub fn name(&self) -> (name: &str)
        ensures
            name@ == self@.name,
    {
        self.name.as_str()
    }

    /// Tells whether the device is called `name`.
    pub fn is_named(&self, name: &String) -> (same: bool)
        ensures
            same == (self@.name == name@),
    {
        self.name == *name
    }

    /// The device's description.
    pub fn description(&self) -> (description: &str)
        ensures
            description@ == self@.description,
    {
        self.description.as_str()
    }

    /// The native volume of each channel.
    pub fn volume(&self) -> (volume: &Vec<u32>)
        ensures
            volume@ == self@.volume,
    {
        &self.volume
    }

    /// The server's rendering of the first channel's volume.
    pub fn rendering(&self) -> (rendering: &str)
        ensures
            rendering@ == self@.rendering,
    {
        self.rendering.as_str()
    }

    /// The native volume that the server holds to be the device's norm.
    pub fn base_volume(&self) -> (base_volume: u32)
        ensures
            base_volume == self@.base_volume,
    {
        self.base_volume
    }

    /// The percentage that the device reads, `UNKNOWN_VOLUME` where its
    /// rendering shows none.
    pub fn get_volume_as_pct(&self) -> (pct: u8)
        ensures
            pct == self@.percent(),
    {
        read_volume_as_pct(self.rendering.as_str())
    }

    /// Plans raising the volume by `inc` percent. The target stops at
    /// `MAX_VOLUME`, or with `boost` at `MAX_VOLUME_BOOSTED`.
    pub fn increase_volume(&self, inc: &u8, boost: bool) -> (plan: Adjustment)
        ensures
            plan == Adjustment::raise(self@.percent(), *inc, boost),
    {
        let initial: u8 = self.get_volume_as_pct();
        let mut new_vol: u8 = match initial.checked_add(*inc) {
            Some(sum) => sum,
            None => MAX_VOLUME_BOOSTED,
        };
        if boost {
            if new_vol > MAX_VOLUME_BOOSTED {
                new_vol = MAX_VOLUME_BOOSTED;
            }
        } else if new_vol > MAX_VOLUME {
            new_vol = MAX_VOLUME;
        }
        Adjustment { rising: true, target: new_vol }
    }

    /// Plans lowering the volume by `inc` percent. The target stops at zero.
    pub fn decrease_volume(&self, inc: &u8) -> (plan: Adjustment)
        ensures
            plan == Adjustment::lower(self@.percent(), *inc),
    {
        let initial: u8 = self.get_volume_as_pct();
        Adjustment { rising: false, target: initial.saturating_sub(*inc) }
    }

    /// Plans bringing the volume to `vol` percent: a decrease where the device
    /// reads more, an increase under the ceiling that `boost` selects where it
    /// reads less, and no plan where it reads `vol` already.
    pub fn set_volume(&self, vol: u8, boost: bool) -> (plan: Option<Adjustment>)
        ensures
            plan == Adjustment::set(self@.percent(), vol, boost),
    {
        let current_vol: u8 = self.get_volume_as_pct();
        if vol < current_vol {
            let inc: u8 = current_vol - vol;
            Some(self.decrease_volume(&inc))
        } else if vol > current_vol {
            let inc: u8 = vol - current_vol;
            Some(self.increase_volume(&inc, boost))
        } else {
            None
        }
    }

    /// Decides what `plan` asks of the device as it reads now.
    pub fn next_step(&self, plan: &Adjustment) -> (step: VolumeStep)
        ensures
            step == plan.step_at(self@.percent()),
    {
        plan.next_step(self.get_volume_as_pct())
    }

    /// Takes in the volume that the server reports after a step. A report
    /// with another number of channels is refused and changes nothing.
    pub fn update_volume(&mut self, volume: Vec<u32>, rendering: String) -> (accepted: bool)
        ensures
            accepted == (volume@.len() == old(self)@.volume.len()),
            accepted ==> final(self)@ == old(self)@.with_volume(volume@, rendering@),
            !accepted ==> final(self)@ == old(self)@,
    {
        if volume.len() == self.volume.len() {
            self.volume = volume;
            self.rendering = rendering;
            true
        } else {
            false
        }
    }

    /// Tells whether every channel is silent.
    pub fn is_muted(&self) -> (muted: bool)
        ensures
            muted == self@.is_muted(),
    {
        let n: usize = self.volume.len();
        let mut c: usize = 0;
        while c < n
            invariant
                n == self.volume.len(),
                c <= n,
                forall|d: int| 0 <= d < c ==> self.volume[d] == MUTED,
            decreases n - c,
        {
            if self.volume[c] != MUTED {
                assert(self@.volume[c as int] != MUTED);
                return false;
            }
            c += 1;
        }
        true
    }

    /// Decides what a mute toggle does: a silent device is restored, any
    /// other is silenced.
    pub fn toggle_mute(&self) -> (step: MuteStep)
        ensures
            step == self@.mute_step(),
    {
        if self.is_muted() {
            MuteStep::Restore
        } else {
            MuteStep::Silence
        }
    }

    /// The line that tells the current volume.
    pub fn print_volume(&self) -> (line: String)
        ensures
            line@ == "\nThe current volume is: "@ + self@.rendering,
    {
        String::from_str("\nThe current volume is: ").concat(self.rendering.as_str())
    }
}

/// A sink is a device that plays.
pub type PulseSinkInfo = Device;

/// A source is a device that records.
pub type PulseSourceInfo = Device;

/// The models of the devices in `devices`, in order.
pub open spec fn views(devices: Seq<Device>) -> Seq<DeviceView> {
    Seq::new(devices.len(), |i: int| devices[i]@)
}

/// A mute toggle silences a device that sounds and restores a device that is
/// silent. So a device that was silenced is restored by the next toggle, and
/// once it is given back the volume it had, it reads what it read before.
pub proof fn lemma_toggle_alternates(device: DeviceView, silent_rendering: Seq<char>)
    requires
        !device.is_muted(),
    ensures
        device.mute_step() == MuteStep::Silence,
        device.silenced(silent_rendering).is_muted(),
        device.silenced(silent_rendering).mute_step() == MuteStep::Restore,
        device.silenced(silent_rendering).with_volume(device.volume, device.rendering) == device,
        device.silenced(silent_rendering).with_volume(device.volume, device.rendering).percent()
            == device.percent(),
{
}

} // verus!
