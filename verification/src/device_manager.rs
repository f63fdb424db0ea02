//! The directory of sinks and sources, and how a request finds its device.

use vstd::prelude::*;
use vstd::string::StringExecFns;
use crate::device::{views, Device, DeviceView};
use crate::table::{device_table, line_texts, rule_width, table_of};
use crate::text::{decimal_digits, push_decimal};

verus! {

/// Why no device could be handed out. Each kind carries its detail as text.
#[derive(Debug)]
pub enum DeviceError {
    /// No device has the name asked for.
    NameNotFound(String),
    /// No device has the index asked for.
    IndexNotFound(String),
    /// No default device is set.
    DefaultNotFound(String),
    /// The directory holds no sink at all.
    NoSinks(String),
}

impl DeviceError {
    /// The detail that the error carries.
    pub open spec fn detail(self) -> Seq<char> {
        match self {
            DeviceError::NameNotFound(e) => e@,
            DeviceError::IndexNotFound(e) => e@,
            DeviceError::DefaultNotFound(e) => e@,
            DeviceError::NoSinks(e) => e@,
        }
    }

    /// The words that introduce an error of this kind.
    pub open spec fn heading(self) -> Seq<char> {
        match self {
            DeviceError::NameNotFound(_) => "Device NameNotFound Error: "@,
            DeviceError::IndexNotFound(_) => "Device IndexNotFound Error: "@,
            DeviceError::DefaultNotFound(_) => "Device DefaultNotFound Error: "@,
            DeviceError::NoSinks(_) => "Device NoSinks Error: "@,
        }
    }

    /// The error as one line for the user: its heading, then its detail.
    pub fn message(&self) -> (line: String)
        ensures
            line@ == self.heading() + self.detail(),
    {
        match self {
            DeviceError::NameNotFound(e) => String::from_str("Device NameNotFound Error: ").concat(
                e.as_str(),
            ),
            DeviceError::IndexNotFound(e) => String::from_str(
                "Device IndexNotFound Error: ",
            ).concat(e.as_str()),
            DeviceError::DefaultNotFound(e) => String::from_str(
                "Device DefaultNotFound Error: ",
            ).concat(e.as_str()),
            DeviceError::NoSinks(e) => String::from_str("Device NoSinks Error: ").concat(
                e.as_str(),
            ),
        }
    }
}

/// Whether `at` is the position of the first device called `name`.
pub open spec fn first_named(devices: Seq<DeviceView>, name: Seq<char>, at: int) -> bool {
    &&& 0 <= at < devices.len()
    &&& devices[at].name == name
    &&& forall|j: int| 0 <= j < at ==> (#[trigger] devices[j]).name != name
}

/// Whether some device is called `name`.
pub open spec fn has_name(devices: Seq<DeviceView>, name: Seq<char>) -> bool {
    exists|j: int| 0 <= j < devices.len() && (#[trigger] devices[j]).name == name
}

/// The position of the first device called `name`, where there is one.
pub open spec fn named_position(devices: Seq<DeviceView>, name: Seq<char>) -> Option<int> {
    if has_name(devices, name) {
        Some(choose|at: int| first_named(devices, name, at))
    } else {
        None
    }
}

/// The first device called `name` is the one at `named_position`.
pub proof fn lemma_named_position(devices: Seq<DeviceView>, name: Seq<char>, at: int)
    requires
        first_named(devices, name, at),
    ensures
        named_position(devices, name) == Some(at),
{
    assert(has_name(devices, name));
    let chosen = choose|at: int| first_named(devices, name, at);
    assert(first_named(devices, name, chosen));
    if chosen < at {
        assert(devices[chosen].name != name);
    } else if at < chosen {
        assert(devices[at].name != name);
    }
}

/// Whether `at` is the position of the first device with the index `index`.
pub open spec fn first_indexed(devices: Seq<DeviceView>, index: u32, at: int) -> bool {
    &&& 0 <= at < devices.len()
    &&& devices[at].index == index
    &&& forall|j: int| 0 <= j < at ==> (#[trigger] devices[j]).index != index
}

/// Whether some device has the index `index`.
pub open spec fn has_index(devices: Seq<DeviceView>, index: u32) -> bool {
    exists|j: int| 0 <= j < devices.len() && (#[trigger] devices[j]).index == index
}

/// Finds the first device called `name`.
fn position_by_name(devices: &Vec<Device>, name: &str) -> (found: Option<usize>)
    ensures
        found matches Some(at) ==> first_named(views(devices@), name@, at as int),
        found matches Some(at) ==> named_position(views(devices@), name@) == Some(at as int),
        found is None ==> !has_name(views(devices@), name@),
{
    let wanted: String = name.to_owned();
    let n: usize = devices.len();
    let mut i: usize = 0;
    while i < n
        invariant
            n == devices.len(),
            i <= n,
            wanted@ == name@,
            forall|j: int| 0 <= j < i ==> (#[trigger] views(devices@)[j]).name != name@,
        decreases n - i,
    {
        if devices[i].is_named(&wanted) {
            proof {
                lemma_named_position(views(devices@), name@, i as int);
            }
            return Some(i);
        }
        i += 1;
    }
    None
}

/// Finds the first device with the index `index`.
fn position_by_index(devices: &Vec<Device>, index: u32) -> (found: Option<usize>)
    ensures
        found matches Some(at) ==> first_indexed(views(devices@), index, at as int),
        found is None ==> !has_index(views(devices@), index),
{
    let n: usize = devices.len();
    let mut i: usize = 0;
    while i < n
        invariant
            n == devices.len(),
            i <= n,
            forall|j: int| 0 <= j < i ==> (#[trigger] views(devices@)[j]).index != index,
        decreases n - i,
    {
        if devices[i].index() == index {
            return Some(i);
        }
        i += 1;
    }
    None
}

/// The model of a `DeviceManager`: its devices in the order in which they
/// were added, and the position of each default.
pub struct DeviceManagerView {
    pub sources: Seq<DeviceView>,
    pub sinks: Seq<DeviceView>,
    pub default_sink: Option<int>,
    pub default_source: Option<int>,
}

impl DeviceManagerView {
    /// The directory that holds nothing.
    pub open spec fn empty() -> DeviceManagerView {
        DeviceManagerView {
            sources: Seq::empty(),
            sinks: Seq::empty(),
            default_sink: None,
            default_source: None,
        }
    }

    /// Whether `at` is the sink that a request with these selectors means: the
    /// first with the index where one is given, else the first with the name
    /// where one is given, else the default.
    pub open spec fn selects_sink(self, index: Option<u32>, name: Option<Seq<char>>, at: int) -> bool {
        match index {
            Some(index) => first_indexed(self.sinks, index, at),
            None => match name {
                Some(name) => first_named(self.sinks, name, at),
                None => self.default_sink == Some(at),
            },
        }
    }

    /// Whether `e` is the error of a request that means no sink: `NoSinks`
    /// where there is no sink at all, else the kind of the selector that
    /// decided, with the selector in its detail.
    pub open spec fn explains_missing_sink(
        self,
        index: Option<u32>,
        name: Option<Seq<char>>,
        e: DeviceError,
    ) -> bool {
        if self.sinks.len() == 0 {
            e is NoSinks && e.detail() == "No sinks are known."@
        } else {
            match index {
                Some(index) => e is IndexNotFound && e.detail() == "No sink found with index: "@
                    + decimal_digits(index as nat),
                None => match name {
                    Some(name) => e is NameNotFound && e.detail() == "No sink found with name: "@
                        + name,
                    None => e is DefaultNotFound && e.detail() == "No default is currently set."@,
                },
            }
        }
    }

    /// The directory after the first source called `name` was made the
    /// default; the directory itself where no source is called so.
    pub open spec fn with_default_source(self, name: Seq<char>) -> DeviceManagerView {
        match named_position(self.sources, name) {
            Some(at) => DeviceManagerView { default_source: Some(at), ..self },
            None => self,
        }
    }

    /// The directory after the first sink called `name` was made the
    /// default; the directory itself where no sink is called so.
    pub open spec fn with_default_sink(self, name: Seq<char>) -> DeviceManagerView {
        match named_position(self.sinks, name) {
            Some(at) => DeviceManagerView { default_sink: Some(at), ..self },
            None => self,
        }
    }

    /// The directory after the sinks `added` were added, in order, after
    /// those already there.
    pub open spec fn with_sinks(self, added: Seq<DeviceView>) -> DeviceManagerView {
        DeviceManagerView { sinks: self.sinks + added, ..self }
    }

    /// The directory after the sources `added` were added, in order, after
    /// those already there.
    pub open spec fn with_sources(self, added: Seq<DeviceView>) -> DeviceManagerView {
        DeviceManagerView { sources: self.sources + added, ..self }
    }

    /// Whether a request with these selectors means any sink.
    pub open spec fn finds_sink(self, index: Option<u32>, name: Option<Seq<char>>) -> bool {
        match index {
            Some(index) => has_index(self.sinks, index),
            None => match name {
                Some(name) => has_name(self.sinks, name),
                None => self.default_sink is Some,
            },
        }
    }
}

/// Taking in what the server lists adds to what the directory held: without
/// a reset it then holds the old devices and the listed ones. After a reset
/// it holds exactly what was listed, as many sinks and sources as the
/// listing has.
pub proof fn lemma_reset_then_sync(
    before: DeviceManagerView,
    sources: Seq<DeviceView>,
    sinks: Seq<DeviceView>,
)
    ensures
        before.with_sources(sources).with_sinks(sinks).sinks.len() == before.sinks.len()
            + sinks.len(),
        before.with_sources(sources).with_sinks(sinks).sources.len() == before.sources.len()
            + sources.len(),
        DeviceManagerView::empty().with_sources(sources).with_sinks(sinks).sinks == sinks,
        DeviceManagerView::empty().with_sources(sources).with_sinks(sinks).sources == sources,
        DeviceManagerView::empty().with_sources(sources).with_sinks(sinks).sinks.len()
            == sinks.len(),
        DeviceManagerView::empty().with_sources(sources).with_sinks(sinks).sources.len()
            == sources.len(),
{
    let empty = DeviceManagerView::empty();
    assert(empty.sources + sources == sources);
    assert(empty.sinks + sinks == sinks);
}

/// Where a request gives an index, the index decides alone: whatever name
/// comes with it, the request means the same sink, or none.
pub proof fn lemma_index_decides_alone(
    directory: DeviceManagerView,
    index: u32,
    name: Option<Seq<char>>,
    other: Option<Seq<char>>,
    at: int,
)
    ensures
        directory.selects_sink(Some(index), name, at) == directory.selects_sink(
            Some(index),
            other,
            at,
        ),
        directory.selects_sink(Some(index), name, at) == first_indexed(directory.sinks, index, at),
        directory.finds_sink(Some(index), name) == directory.finds_sink(Some(index), other),
{
}

/// The name that an optional text carries, as a model.
pub open spec fn name_view(name: Option<String>) -> Option<Seq<char>> {
    match name {
        Some(name) => Some(name@),
        None => None,
    }
}

/// The sinks and sources that the sound server reported, and which of them
/// is the default of its class. A device is known by its position, which it
/// keeps until `reset`.
pub struct DeviceManager {
    sources: Vec<Device>,
    sinks: Vec<Device>,
    sources_count: u32,
    sinks_count: u32,
    default_sink: Option<usize>,
    default_source: Option<usize>,
}

impl View for DeviceManager {
    type V = DeviceManagerView;

    closed spec fn view(&self) -> DeviceManagerView {
        DeviceManagerView {
            sources: views(self.sources@),
            sinks: views(self.sinks@),
            default_sink: match self.default_sink {
                Some(at) => Some(at as int),
                None => None,
            },
            default_source: match self.default_source {
                Some(at) => Some(at as int),
                None => None,
            },
        }
    }
}

impl Default for DeviceManager {
    fn default() -> (manager: DeviceManager)
        ensures
            manager.wf(),
            manager@ == DeviceManagerView::empty(),
    {
        let manager = DeviceManager {
            sources: Vec::new(),
            sinks: Vec::new(),
            sources_count: 0,
            sinks_count: 0,
            default_sink: None,
            default_source: None,
        };
        assert(manager@.sources == Seq::<DeviceView>::empty());
        assert(manager@.sinks == Seq::<DeviceView>::empty());
        manager
    }
}

impl DeviceManager {
    /// Whether the directory is consistent: each count is the number of
    /// devices of its class, and each default is one of them.
    pub closed spec fn wf(&self) -> bool {
        &&& self.sources_count == self.sources.len()
        &&& self.sinks_count == self.sinks.len()
        &&& self.default_sink matches Some(at) ==> at < self.sinks.len()
        &&& self.default_source matches Some(at) ==> at < self.sources.len()
    }

    /// A consistent directory has its defaults among its devices, and as many
    /// devices of each class as a 32-bit count holds.
    pub proof fn lemma_wf(&self)
        requires
            self.wf(),
        ensures
            self@.sinks.len() <= u32::MAX,
            self@.sources.len() <= u32::MAX,
            self@.default_sink matches Some(at) ==> 0 <= at < self@.sinks.len(),
            self@.default_source matches Some(at) ==> 0 <= at < self@.sources.len(),
    {
    }

    /// The sources, in the order in which they were added.
    pub fn sources(&self) -> (sources: &Vec<Device>)
        ensures
            views(sources@) == self@.sources,
    {
        &self.sources
    }

    /// The sinks, in the order in which they were added.
    pub fn sinks(&self) -> (sinks: &Vec<Device>)
        ensures
            views(sinks@) == self@.sinks,
    {
        &self.sinks
    }

    /// The number of sources.
    pub fn sources_count(&self) -> (count: u32)
        requires
            self.wf(),
        ensures
            count == self@.sources.len(),
    {
        self.sources_count
    }

    /// The number of sinks.
    pub fn sinks_count(&self) -> (count: u32)
        requires
            self.wf(),
        ensures
            count == self@.sinks.len(),
    {
        self.sinks_count
    }

    /// Forgets every device and both defaults.
    pub fn reset(&mut self)
        ensures
            final(self).wf(),
            final(self)@ == DeviceManagerView::empty(),
    {
        self.sinks = Vec::new();
        self.sources = Vec::new();
        self.default_sink = None;
        self.default_source = None;
        self.sources_count = 0;
        self.sinks_count = 0;
        assert(self@.sources == Seq::<DeviceView>::empty());
        assert(self@.sinks == Seq::<DeviceView>::empty());
    }

    /// Adds a source after those already there, and returns how many sources
    /// there are now.
    pub fn add_source(&mut self, source: Device) -> (count: u32)
        requires
            old(self).wf(),
            old(self)@.sources.len() < u32::MAX,
        ensures
            final(self).wf(),
            final(self)@ == old(self)@.with_sources(seq![source@]),
            count == old(self)@.sources.len() + 1,
    {
        self.sources.push(source);
        self.sources_count += 1;
        assert(views(self.sources@) == views(old(self).sources@) + seq![source@]);
        self.sources_count
    }

    /// Adds a sink after those already there, and returns how many sinks
    /// there are now.
    pub fn add_sink(&mut self, sink: Device) -> (count: u32)
        requires
            old(self).wf(),
            old(self)@.sinks.len() < u32::MAX,
        ensures
            final(self).wf(),
            final(self)@ == old(self)@.with_sinks(seq![sink@]),
            count == old(self)@.sinks.len() + 1,
    {
        self.sinks.push(sink);
        self.sinks_count += 1;
        assert(views(self.sinks@) == views(old(self).sinks@) + seq![sink@]);
        self.sinks_count
    }

    /// Makes the first source called `name` the default source. Where there
    /// is none, nothing changes and the error is `NameNotFound`.
    pub fn set_default_source(&mut self, name: &str) -> (done: Result<(), DeviceError>)
        requires
            old(self).wf(),
        ensures
            final(self).wf(),
            final(self)@ == old(self)@.with_default_source(name@),
            done is Ok <==> has_name(old(self)@.sources, name@),
            done matches Err(e) ==> e is NameNotFound && e.detail() == "No source found with name: "@
                + name@,
    {
        match position_by_name(&self.sources, name) {
            Some(at) => {
                self.default_source = Some(at);
                Ok(())
            },
            None => Err(
                DeviceError::NameNotFound(
                    String::from_str("No source found with name: ").concat(name),
                ),
            ),
        }
    }

    /// Makes the first sink called `name` the default sink. Where there is
    /// none, nothing changes and the error is `NameNotFound`.
    pub fn set_default_sink(&mut self, name: &str) -> (done: Result<(), DeviceError>)
        requires
            old(self).wf(),
        ensures
            final(self).wf(),
            final(self)@ == old(self)@.with_default_sink(name@),
            done is Ok <==> has_name(old(self)@.sinks, name@),
            done matches Err(e) ==> e is NameNotFound && e.detail() == "No sink found with name: "@
                + name@,
    {
        match position_by_name(&self.sinks, name) {
            Some(at) => {
                self.default_sink = Some(at);
                Ok(())
            },
            None => Err(
                DeviceError::NameNotFound(
                    String::from_str("No sink found with name: ").concat(name),
                ),
            ),
        }
    }

    /// The position of the default sink. The error is `DefaultNotFound`
    /// where none is set.
    pub fn default_sink(&self) -> (found: Result<usize, DeviceError>)
        requires
            self.wf(),
        ensures
            found matches Ok(at) ==> self@.default_sink == Some(at as int) && at
                < self@.sinks.len(),
            found matches Err(e) ==> self@.default_sink is None && e is DefaultNotFound
                && e.detail() == "No default is currently set."@,
    {
        match self.default_sink {
            Some(at) => Ok(at),
            None => Err(
                DeviceError::DefaultNotFound(String::from_str("No default is currently set.")),
            ),
        }
    }

    /// The position of the default source. The error is `DefaultNotFound`
    /// where none is set.
    pub fn default_source(&self) -> (found: Result<usize, DeviceError>)
        requires
            self.wf(),
        ensures
            found matches Ok(at) ==> self@.default_source == Some(at as int) && at
                < self@.sources.len(),
            found matches Err(e) ==> self@.default_source is None && e is DefaultNotFound
                && e.detail() == "No default is currently set."@,
    {
        match self.default_source {
            Some(at) => Ok(at),
            None => Err(
                DeviceError::DefaultNotFound(String::from_str("No default is currently set.")),
            ),
        }
    }

    /// The position of the first sink called `name`. The error is
    /// `NameNotFound` where no sink has that name.
    pub fn get_sink_by_name(&self, name: &str) -> (found: Result<usize, DeviceError>)
        ensures
            found matches Ok(at) ==> first_named(self@.sinks, name@, at as int),
            found matches Err(e) ==> !has_name(self@.sinks, name@) && e is NameNotFound
                && e.detail() == "No sink found with name: "@ + name@,
    {
        match position_by_name(&self.sinks, name) {
            Some(at) => Ok(at),
            None => Err(
                DeviceError::NameNotFound(
                    String::from_str("No sink found with name: ").concat(name),
                ),
            ),
        }
    }

    /// The position of the first sink with the index `index`. The error is
    /// `IndexNotFound` where no sink has that index.
    pub fn get_sink_by_index(&self, index: u32) -> (found: Result<usize, DeviceError>)
        ensures
            found matches Ok(at) ==> first_indexed(self@.sinks, index, at as int),
            found matches Err(e) ==> !has_index(self@.sinks, index) && e is IndexNotFound
                && e.detail() == "No sink found with index: "@ + decimal_digits(index as nat),
    {
        match position_by_index(&self.sinks, index) {
            Some(at) => Ok(at),
            None => {
                let mut detail: String = String::from_str("No sink found with index: ");
                push_decimal(&mut detail, index);
                Err(DeviceError::IndexNotFound(detail))
            },
        }
    }

    /// The position of the first source called `name`. The error is
    /// `NameNotFound` where no source has that name.
    pub fn get_source_by_name(&self, name: &str) -> (found: Result<usize, DeviceError>)
        ensures
            found matches Ok(at) ==> first_named(self@.sources, name@, at as int),
            found matches Err(e) ==> !has_name(self@.sources, name@) && e is NameNotFound
                && e.detail() == "No source found with name: "@ + name@,
    {
        match position_by_name(&self.sources, name) {
            Some(at) => Ok(at),
            None => Err(
                DeviceError::NameNotFound(
                    String::from_str("No source found with name: ").concat(name),
                ),
            ),
        }
    }

    /// The position of the first source with the index `index`. The error is
    /// `IndexNotFound` where no source has that index.
    pub fn get_source_by_index(&self, index: u32) -> (found: Result<usize, DeviceError>)
        ensures
            found matches Ok(at) ==> first_indexed(self@.sources, index, at as int),
            found matches Err(e) ==> !has_index(self@.sources, index) && e is IndexNotFound
                && e.detail() == "No source found with index: "@ + decimal_digits(index as nat),
    {
        match position_by_index(&self.sources, index) {
            Some(at) => Ok(at),
            None => {
                let mut detail: String = String::from_str("No source found with index: ");
                push_decimal(&mut detail, index);
                Err(DeviceError::IndexNotFound(detail))
            },
        }
    }

    /// The position of the sink that a request means. An index, where given,
    /// decides alone; else a name, where given; else the default sink.
    ///
    /// Where the request means no sink, the error tells why: `NoSinks` where
    /// the directory holds no sink at all, else `IndexNotFound`,
    /// `NameNotFound` or `DefaultNotFound` after the selector that decided.
    pub fn get_sink(&self, index: Option<u32>, name: Option<String>) -> (found: Result<
        usize,
        DeviceError,
    >)
        requires
            self.wf(),
        ensures
            found is Ok <==> self@.finds_sink(index, name_view(name)),
            found matches Ok(at) ==> self@.selects_sink(index, name_view(name), at as int),
            found matches Err(e) ==> self@.explains_missing_sink(index, name_view(name), e),
    {
        proof {
            self.lemma_wf();
        }
        if self.sinks.len() == 0 {
            return Err(DeviceError::NoSinks(String::from_str("No sinks are known.")));
        }
        match index {
            Some(index) => self.get_sink_by_index(index),
            None => match name {
                Some(name) => self.get_sink_by_name(name.as_str()),
                None => self.default_sink(),
            },
        }
    }

    /// The sink at the position `at`.
    pub fn sink(&self, at: usize) -> (sink: &Device)
        requires
            at < self@.sinks.len(),
        ensures
            sink@ == self@.sinks[at as int],
    {
        &self.sinks[at]
    }

    /// The source at the position `at`.
    pub fn source(&self, at: usize) -> (source: &Device)
        requires
            at < self@.sources.len(),
        ensures
            source@ == self@.sources[at as int],
    {
        &self.sources[at]
    }

    /// The line that tells the volume of the sink that a request means. The
    /// request is read, and fails, as in `get_sink`.
    pub fn print_sink_volume(&self, index: Option<u32>, name: Option<String>) -> (line: Result<
        String,
        DeviceError,
    >)
        requires
            self.wf(),
        ensures
            line is Ok <==> self@.finds_sink(index, name_view(name)),
            line matches Ok(text) ==> exists|at: int|
                self@.selects_sink(index, name_view(name), at)
                    && text@ == "\nThe current volume is: "@ + self@.sinks[at].rendering,
            line matches Err(e) ==> self@.explains_missing_sink(index, name_view(name), e),
    {
        match self.get_sink(index, name) {
            Ok(at) => {
                proof {
                    self.lemma_wf();
                }
                Ok(self.sinks[at].print_volume())
            },
            Err(e) => Err(e),
        }
    }

    /// The table of the sources, with the default source marked. Without a
    /// default source there is no table and the error is `DefaultNotFound`.
    pub fn print_sources(&self) -> (table: Result<Vec<String>, DeviceError>)
        requires
            self.wf(),
            rule_width(self@.sources) <= usize::MAX,
        ensures
            table is Ok <==> self@.default_source is Some,
            table matches Ok(lines) ==> line_texts(lines@) == device_table(
                self@.sources,
                self@.sources[self@.default_source->0].name,
            ),
            table matches Err(e) ==> e is DefaultNotFound && e.detail()
                == "No default is currently set."@,
    {
        match self.default_source() {
            Ok(at) => Ok(table_of(&self.sources, self.sources[at].name())),
            Err(e) => Err(e),
        }
    }

    /// The table of the sinks, with the default sink marked. Without a
    /// default sink there is no table and the error is `DefaultNotFound`.
    pub fn print_sinks(&self) -> (table: Result<Vec<String>, DeviceError>)
        requires
            self.wf(),
            rule_width(self@.sinks) <= usize::MAX,
        ensures
            table is Ok <==> self@.default_sink is Some,
            table matches Ok(lines) ==> line_texts(lines@) == device_table(
                self@.sinks,
                self@.sinks[self@.default_sink->0].name,
            ),
            table matches Err(e) ==> e is DefaultNotFound && e.detail()
                == "No default is currently set."@,
    {
        match self.default_sink() {
            Ok(at) => Ok(table_of(&self.sinks, self.sinks[at].name())),
            Err(e) => Err(e),
        }
    }

    /// Takes in the volume that the server reports of the sink at `at`. A
    /// report with another number of channels is refused and changes nothing.
    pub fn update_sink_volume(&mut self, at: usize, volume: Vec<u32>, rendering: String) -> (accepted:
        bool)
        requires
            old(self).wf(),
            at < old(self)@.sinks.len(),
        ensures
            final(self).wf(),
            accepted == (volume@.len() == old(self)@.sinks[at as int].volume.len()),
            accepted ==> final(self)@ == (DeviceManagerView {
                sinks: old(self)@.sinks.update(
                    at as int,
                    old(self)@.sinks[at as int].with_volume(volume@, rendering@),
                ),
                ..old(self)@
            }),
            !accepted ==> final(self)@ == old(self)@,
    {
        let accepted: bool = self.sinks[at].update_volume(volume, rendering);
        assert(views(self.sinks@) == views(old(self).sinks@).update(
            at as int,
            self.sinks[at as int]@,
        ));
        assert(!accepted ==> views(self.sinks@) == views(old(self).sinks@));
        accepted
    }

    /// Adds every sink of `sinks`, in order, and returns how many sinks there
    /// are now.
    pub fn add_sinks(&mut self, sinks: Vec<Device>) -> (count: u32)
        requires
            old(self).wf(),
            old(self)@.sinks.len() + sinks@.len() <= u32::MAX,
        ensures
            final(self).wf(),
            final(self)@ == old(self)@.with_sinks(views(sinks@)),
            count == old(self)@.sinks.len() + sinks@.len(),
    {
        let ghost added = views(sinks@);
        for sink in it: sinks
            invariant
                self.wf(),
                added == views(it.seq()),
                self@ == old(self)@.with_sinks(added.subrange(0, it.index() as int)),
                old(self)@.sinks.len() + added.len() <= u32::MAX,
                self@.sinks.len() == old(self)@.sinks.len() + it.index(),
        {
            let ghost held = self@.sinks;
            self.add_sink(sink);
            assert(self@.sinks == old(self)@.sinks + added.subrange(0, it.index() + 1)) by {
                assert(held + seq![sink@] == old(self)@.sinks + added.subrange(
                    0,
                    it.index() + 1,
                ));
            }
        }
        assert(added.subrange(0, added.len() as int) == added);
        self.sinks_count
    }

    /// Adds every source of `sources`, in order, and returns how many sources
    /// there are now.
    pub fn add_sources(&mut self, sources: Vec<Device>) -> (count: u32)
        requires
            old(self).wf(),
            old(self)@.sources.len() + sources@.len() <= u32::MAX,
        ensures
            final(self).wf(),
            final(self)@ == old(self)@.with_sources(views(sources@)),
            count == old(self)@.sources.len() + sources@.len(),
    {
        let ghost added = views(sources@);
        for source in it: sources
            invariant
                self.wf(),
                added == views(it.seq()),
                self@ == old(self)@.with_sources(added.subrange(0, it.index() as int)),
                old(self)@.sources.len() + added.len() <= u32::MAX,
                self@.sources.len() == old(self)@.sources.len() + it.index(),
        {
            let ghost held = self@.sources;
            self.add_source(source);
            assert(self@.sources == old(self)@.sources + added.subrange(0, it.index() + 1)) by {
                assert(held + seq![source@] == old(self)@.sources + added.subrange(
                    0,
                    it.index() + 1,
                ));
            }
        }
        assert(added.subrange(0, added.len() as int) == added);
        self.sources_count
    }
}

} // verus!
