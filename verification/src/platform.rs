//! The platform families the supervisor knows, and what differs between them.

use vstd::prelude::*;

verus! {

/// The two platform families: one with a POSIX shell, one with a command shell.
#[derive(Clone, Copy, Debug, PartialEq, Eq, Structural)]
pub enum Platform {
    Posix,
    Windows,
}

impl Platform {
    /// File name of the startup script on this platform.
    pub open spec fn script_name(self) -> Seq<char> {
        match self {
            Platform::Posix => "start-server.sh"@,
            Platform::Windows => "start-server.bat"@,
        }
    }

    /// Name of the shell that runs the startup script.
    pub open spec fn shell(self) -> Seq<char> {
        match self {
            Platform::Posix => "bash"@,
            Platform::Windows => "cmd"@,
        }
    }

    /// Whether terminating a process started through the shell needs a
    /// forceful kill of the whole process tree first.
    pub open spec fn kills_tree(self) -> bool {
        self is Windows
    }

    pub fn startup_script(&self) -> (name: &'static str)
        ensures
            name@ == self.script_name(),
    {
        match self {
            Platform::Posix => "start-server.sh",
            Platform::Windows => "start-server.bat",
        }
    }

    pub fn interpreter(&self) -> (name: &'static str)
        ensures
            name@ == self.shell(),
    {
        match self {
            Platform::Posix => "bash",
            Platform::Windows => "cmd",
        }
    }

    pub fn needs_tree_kill(&self) -> (b: bool)
        ensures
            b == self.kills_tree(),
    {
        match self {
            Platform::Posix => false,
            Platform::Windows => true,
        }
    }
}

} // verus!
