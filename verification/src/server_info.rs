//! What is kept of the sound server's report about itself.

use vstd::prelude::*;

verus! {

/// The names of the devices that the server uses where a request names none.
pub struct PulseServerInfo {
    pub default_source_name: String,
    pub default_sink_name: String,
}

impl Default for PulseServerInfo {
    fn default() -> (info: PulseServerInfo)
        ensures
            info.default_source_name@ == Seq::<char>::empty(),
            info.default_sink_name@ == Seq::<char>::empty(),
    {
        PulseServerInfo { default_source_name: String::new(), default_sink_name: String::new() }
    }
}

impl PulseServerInfo {
    /// Takes over the default names that the server reports now.
    pub fn update(&mut self, default_source_name: &str, default_sink_name: &str)
        ensures
            final(self).default_source_name@ == default_source_name@,
            final(self).default_sink_name@ == default_sink_name@,
    {
        self.default_source_name = default_source_name.to_owned();
        self.default_sink_name = default_sink_name.to_owned();
    }
}

} // verus!
