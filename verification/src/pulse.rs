//! The mixer: what the server last reported, and what each request of the
//! user asks of it.

use vstd::prelude::*;
use crate::adjustment::Adjustment;
use crate::device::{views, Device, DeviceView, MuteStep};
use crate::device_manager::{
    has_name,
    name_view,
    DeviceError,
    DeviceManager,
    DeviceManagerView,
};
use crate::server_info::PulseServerInfo;
use crate::table::{device_table, line_texts, rule_width};

verus! {

/// The model of a `Pulse`.
pub struct PulseView {
    pub default_source_name: Seq<char>,
    pub default_sink_name: Seq<char>,
    pub devices: DeviceManagerView,
}

impl PulseView {
    /// The mixer that knows no device and no default name.
    pub open spec fn fresh() -> PulseView {
        PulseView {
            default_source_name: Seq::empty(),
            default_sink_name: Seq::empty(),
            devices: DeviceManagerView::empty(),
        }
    }

    /// Whether a sync with this report finds both defaults: a source with
    /// the default source name among the old and the new sources, and a sink
    /// with the default sink name among the old and the new sinks.
    pub open spec fn syncs(
        self,
        default_source_name: Seq<char>,
        default_sink_name: Seq<char>,
        sources: Seq<DeviceView>,
        sinks: Seq<DeviceView>,
    ) -> bool {
        &&& has_name(self.devices.sources + sources, default_source_name)
        &&& has_name(self.devices.sinks + sinks, default_sink_name)
    }

    /// The mixer after a sync with this report. The new sources follow the
    /// old. Where one of them has the default source name, the first such is
    /// the default source, the new sinks follow the old, and the first sink
    /// with the default sink name, if any, is the default sink. Where none
    /// has, sinks and defaults stay as they were.
    pub open spec fn synced(
        self,
        default_source_name: Seq<char>,
        default_sink_name: Seq<char>,
        sources: Seq<DeviceView>,
        sinks: Seq<DeviceView>,
    ) -> PulseView {
        let listed = self.devices.with_sources(sources);
        PulseView {
            default_source_name,
            default_sink_name,
            devices: if has_name(listed.sources, default_source_name) {
                listed.with_default_source(default_source_name).with_sinks(
                    sinks,
                ).with_default_sink(default_sink_name)
            } else {
                listed
            },
        }
    }

    /// What the error of a failed sync says: the default name that no device
    /// has, the source name first.
    pub open spec fn sync_failure(
        self,
        default_source_name: Seq<char>,
        sources: Seq<DeviceView>,
        default_sink_name: Seq<char>,
    ) -> Seq<char> {
        if has_name(self.devices.sources + sources, default_source_name) {
            "No sink found with name: "@ + default_sink_name
        } else {
            "No source found with name: "@ + default_source_name
        }
    }
}

/// The state of the mixer between two exchanges with the sound server: the
/// server's default names and the directory of its devices.
pub struct Pulse {
    server_info: PulseServerInfo,
    device_manager: DeviceManager,
}

impl View for Pulse {
    type V = PulseView;

    closed spec fn view(&self) -> PulseView {
        PulseView {
            default_source_name: self.server_info.default_source_name@,
            default_sink_name: self.server_info.default_sink_name@,
            devices: self.device_manager@,
        }
    }
}

impl Default for Pulse {
    fn default() -> (pulse: Pulse)
        ensures
            pulse.wf(),
            pulse@ == PulseView::fresh(),
    {
        Pulse { server_info: PulseServerInfo::default(), device_manager: DeviceManager::default() }
    }
}

impl Pulse {
    /// Whether the mixer's directory is consistent.
    pub closed spec fn wf(&self) -> bool {
        self.device_manager.wf()
    }

    /// A mixer that knows no device yet.
    pub fn new() -> (pulse: Pulse)
        ensures
            pulse.wf(),
            pulse@ == PulseView::fresh(),
    {
        Pulse::default()
    }

    /// The directory of devices.
    pub fn device_manager(&self) -> (manager: &DeviceManager)
        ensures
            manager@ == self@.devices,
            manager.wf() == self.wf(),
    {
        &self.device_manager
    }

    /// The server's default names.
    pub fn server_info(&self) -> (info: &PulseServerInfo)
        ensures
            info.default_source_name@ == self@.default_source_name,
            info.default_sink_name@ == self@.default_sink_name,
    {
        &self.server_info
    }

    /// Takes in what the server reports: its default names, its sources and
    /// its sinks. The devices are added after those already there, and the
    /// first source and the first sink with the default names become the
    /// defaults.
    ///
    /// Where no source has the default source name the sinks are left out;
    /// where no source or no sink has its default name the error is
    /// `NameNotFound`.
    pub fn sync(
        &mut self,
        default_source_name: &str,
        default_sink_name: &str,
        sources: Vec<Device>,
        sinks: Vec<Device>,
    ) -> (done: Result<(), DeviceError>)
        requires
            old(self).wf(),
            old(self)@.devices.sources.len() + sources@.len() <= u32::MAX,
            old(self)@.devices.sinks.len() + sinks@.len() <= u32::MAX,
        ensures
            final(self).wf(),
            final(self)@ == old(self)@.synced(
                default_source_name@,
                default_sink_name@,
                views(sources@),
                views(sinks@),
            ),
            done is Ok <==> old(self)@.syncs(
                default_source_name@,
                default_sink_name@,
                views(sources@),
                views(sinks@),
            ),
            done matches Err(e) ==> e is NameNotFound && e.detail() == old(self)@.sync_failure(
                default_source_name@,
                views(sources@),
                default_sink_name@,
            ),
    {
        self.server_info.update(default_source_name, default_sink_name);
        self.device_manager.add_sources(sources);
        match self.device_manager.set_default_source(default_source_name) {
            Ok(()) => {},
            Err(e) => {
                return Err(e);
            },
        }
        self.device_manager.add_sinks(sinks);
        self.device_manager.set_default_sink(default_sink_name)
    }

    /// Forgets what was known and takes in what the server reports now, as
    /// `sync` does on an empty directory: afterwards the directory holds the
    /// reported devices and no others.
    pub fn update(
        &mut self,
        default_source_name: &str,
        default_sink_name: &str,
        sources: Vec<Device>,
        sinks: Vec<Device>,
    ) -> (done: Result<(), DeviceError>)
        requires
            sources@.len() <= u32::MAX,
            sinks@.len() <= u32::MAX,
        ensures
            final(self).wf(),
            final(self)@ == PulseView::fresh().synced(
                default_source_name@,
                default_sink_name@,
                views(sources@),
                views(sinks@),
            ),
            final(self)@.devices.sources == views(sources@),
            final(self)@.devices.sinks.len() <= sinks@.len(),
            done is Ok <==> PulseView::fresh().syncs(
                default_source_name@,
                default_sink_name@,
                views(sources@),
                views(sinks@),
            ),
            done is Ok ==> final(self)@.devices.sinks == views(sinks@),
            done matches Err(e) ==> e is NameNotFound && e.detail() == PulseView::fresh().sync_failure(
                default_source_name@,
                views(sources@),
                default_sink_name@,
            ),
    {
        self.device_manager.reset();
        proof {
            let fresh = PulseView::fresh();
            assert(Seq::<DeviceView>::empty() + views(sources@) == views(sources@));
            assert(Seq::<DeviceView>::empty() + views(sinks@) == views(sinks@));
            assert(self@.devices == fresh.devices);
        }
        self.sync(default_source_name, default_sink_name, sources, sinks)
    }

    /// The table of the sources, with the default source marked. Without a
    /// default source the error is `DefaultNotFound`.
    pub fn print_sources(&self) -> (table: Result<Vec<String>, DeviceError>)
        requires
            self.wf(),
            rule_width(self@.devices.sources) <= usize::MAX,
        ensures
            table is Ok <==> self@.devices.default_source is Some,
            table matches Ok(lines) ==> line_texts(lines@) == device_table(
                self@.devices.sources,
                self@.devices.sources[self@.devices.default_source->0].name,
            ),
            table matches Err(e) ==> e is DefaultNotFound && e.detail()
                == "No default is currently set."@,
    {
        self.device_manager.print_sources()
    }

    /// The table of the sinks, with the default sink marked. Without a
    /// default sink the error is `DefaultNotFound`.
    pub fn print_sinks(&self) -> (table: Result<Vec<String>, DeviceError>)
        requires
            self.wf(),
            rule_width(self@.devices.sinks) <= usize::MAX,
        ensures
            table is Ok <==> self@.devices.default_sink is Some,
            table matches Ok(lines) ==> line_texts(lines@) == device_table(
                self@.devices.sinks,
                self@.devices.sinks[self@.devices.default_sink->0].name,
            ),
            table matches Err(e) ==> e is DefaultNotFound && e.detail()
                == "No default is currently set."@,
    {
        self.device_manager.print_sinks()
    }

    /// The line that tells the volume of the sink that the request means.
    pub fn print_sink_volume(&self, index: Option<u32>, name: Option<String>) -> (line: Result<
        String,
        DeviceError,
    >)
        requires
            self.wf(),
        ensures
            line is Ok <==> self@.devices.finds_sink(index, name_view(name)),
            line matches Ok(text) ==> exists|at: int|
                self@.devices.selects_sink(index, name_view(name), at)
                    && text@ == "\nThe current volume is: "@ + self@.devices.sinks[at].rendering,
            line matches Err(e) ==> self@.devices.explains_missing_sink(index, name_view(name), e),
    {
        self.device_manager.print_sink_volume(index, name)
    }

    /// Plans bringing the sink that the request means to `vol` percent.
    /// Gives the sink's position and the plan, if the sink needs one.
    pub fn set_sink_volume(
        &self,
        vol: u8,
        boost: bool,
        index: Option<u32>,
        name: Option<String>,
    ) -> (planned: Result<(usize, Option<Adjustment>), DeviceError>)
        requires
            self.wf(),
        ensures
            planned is Ok <==> self@.devices.finds_sink(index, name_view(name)),
            planned matches Ok(found) ==> self@.devices.selects_sink(
                index,
                name_view(name),
                found.0 as int,
            ) && found.1 == Adjustment::set(
                self@.devices.sinks[found.0 as int].percent(),
                vol,
                boost,
            ),
            planned matches Err(e) ==> self@.devices.explains_missing_sink(
                index,
                name_view(name),
                e,
            ),
    {
        match self.device_manager.get_sink(index, name) {
            Ok(at) => {
                proof {
                    self.device_manager.lemma_wf();
                }
                Ok((at, self.device_manager.sink(at).set_volume(vol, boost)))
            },
            Err(e) => Err(e),
        }
    }

    /// Plans raising the sink that the request means by `inc` percent.
    /// Gives the sink's position and the plan.
    pub fn increase_sink_volume(
        &self,
        inc: &u8,
        index: Option<u32>,
        name: Option<String>,
        boost: bool,
    ) -> (planned: Result<(usize, Adjustment), DeviceError>)
        requires
            self.wf(),
        ensures
            planned is Ok <==> self@.devices.finds_sink(index, name_view(name)),
            planned matches Ok(found) ==> self@.devices.selects_sink(
                index,
                name_view(name),
                found.0 as int,
            ) && found.1 == Adjustment::raise(
                self@.devices.sinks[found.0 as int].percent(),
                *inc,
                boost,
            ),
            planned matches Err(e) ==> self@.devices.explains_missing_sink(
                index,
                name_view(name),
                e,
            ),
    {
        match self.device_manager.get_sink(index, name) {
            Ok(at) => {
                proof {
                    self.device_manager.lemma_wf();
                }
                Ok((at, self.device_manager.sink(at).increase_volume(inc, boost)))
            },
            Err(e) => Err(e),
        }
    }

    /// Plans lowering the sink that the request means by `inc` percent.
    /// Gives the sink's position and the plan.
    pub fn decrease_sink_volume(&self, inc: &u8, index: Option<u32>, name: Option<String>) -> (planned:
        Result<(usize, Adjustment), DeviceError>)
        requires
            self.wf(),
        ensures
            planned is Ok <==> self@.devices.finds_sink(index, name_view(name)),
            planned matches Ok(found) ==> self@.devices.selects_sink(
                index,
                name_view(name),
                found.0 as int,
            ) && found.1 == Adjustment::lower(self@.devices.sinks[found.0 as int].percent(), *inc),
            planned matches Err(e) ==> self@.devices.explains_missing_sink(
                index,
                name_view(name),
                e,
            ),
    {
        match self.device_manager.get_sink(index, name) {
            Ok(at) => {
                proof {
                    self.device_manager.lemma_wf();
                }
                Ok((at, self.device_manager.sink(at).decrease_volume(inc)))
            },
            Err(e) => Err(e),
        }
    }

    /// Decides what a mute toggle does to the sink that the request means.
    /// Gives the sink's position and the step.
    pub fn toggle_mute(&self, index: Option<u32>, name: Option<String>) -> (planned: Result<
        (usize, MuteStep),
        DeviceError,
    >)
        requires
            self.wf(),
        ensures
            planned is Ok <==> self@.devices.finds_sink(index, name_view(name)),
            planned matches Ok(found) ==> self@.devices.selects_sink(
                index,
                name_view(name),
                found.0 as int,
            ) && found.1 == self@.devices.sinks[found.0 as int].mute_step(),
            planned matches Err(e) ==> self@.devices.explains_missing_sink(
                index,
                name_view(name),
                e,
            ),
    {
        match self.device_manager.get_sink(index, name) {
            Ok(at) => {
                proof {
                    self.device_manager.lemma_wf();
                }
                Ok((at, self.device_manager.sink(at).toggle_mute()))
            },
            Err(e) => Err(e),
        }
    }

    /// Takes in the volume that the server reports of the sink at `at`. A
    /// report with another number of channels is refused and changes nothing.
    pub fn update_sink_volume(&mut self, at: usize, volume: Vec<u32>, rendering: String) -> (accepted:
        bool)
        requires
            old(self).wf(),
            at < old(self)@.devices.sinks.len(),
        ensures
            final(self).wf(),
            accepted == (volume@.len() == old(self)@.devices.sinks[at as int].volume.len()),
            accepted ==> final(self)@ == (PulseView {
                devices: DeviceManagerView {
                    sinks: old(self)@.devices.sinks.update(
                        at as int,
                        old(self)@.devices.sinks[at as int].with_volume(volume@, rendering@),
                    ),
                    ..old(self)@.devices
                },
                ..old(self)@
            }),
            !accepted ==> final(self)@ == old(self)@,
    {
        self.device_manager.update_sink_volume(at, volume, rendering)
    }
}

} // verus!
