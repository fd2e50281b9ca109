//! The configuration record of one instance.

use crate::layout::{is_instance_id, is_valid_instance_id};
use crate::text::texts_of;
use vstd::prelude::*;

verus! {

/// The port on which the application listens inside the guest.
pub const APP_PORT: u64 = 8080;

/// The durable record of one instance.
#[derive(Clone, Debug, PartialEq, Eq)]
pub struct Config {
    /// Names every host resource of the instance.
    pub id: String,
    /// The externally routable name.
    pub sub: String,
    /// The port the application listens on inside the guest.
    pub port: u64,
    /// Shell commands run at boot, in order, before the run command.
    pub build_commands: Vec<String>,
    /// The command that starts the application.
    pub run_command: String,
}

/// A configuration as plain values.
pub struct ConfigView {
    pub id: Seq<char>,
    pub sub: Seq<char>,
    pub port: u64,
    pub build_commands: Seq<Seq<char>>,
    pub run_command: Seq<char>,
}

impl View for Config {
    type V = ConfigView;

    open spec fn view(&self) -> ConfigView {
        ConfigView {
            id: self.id@,
            sub: self.sub@,
            port: self.port,
            build_commands: texts_of(self.build_commands@),
            run_command: self.run_command@,
        }
    }
}

impl Config {
    /// A configuration is well formed when its id has the shape of an
    /// instance id.
    pub open spec fn wf(&self) -> bool {
        is_instance_id(self.id@)
    }

    /// Tells whether the configuration is well formed.
    pub fn is_well_formed(&self) -> (ok: bool)
        ensures
            ok == self.wf(),
    {
        is_valid_instance_id(self.id.as_str())
    }
}

} // verus!
