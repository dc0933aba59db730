use vstd::prelude::*;

verus! {

/// One entry of a process-table snapshot. `pid` identifies the process only within the
/// snapshot it came from: the OS reuses pids.
pub struct ProcessInfo {
    pub name: String,
    pub pid: u32,
    /// The executable's path; empty when it could not be read.
    pub exe: String,
}

impl ProcessInfo {
    /// A record for a process whose executable path may be unknown, in which case the
    /// record holds an empty path.
    pub fn new(name: String, pid: u32, exe: Option<String>) -> (r: ProcessInfo)
        ensures
            r.name == name,
            r.pid == pid,
            match exe {
                Some(p) => r.exe == p,
                None => r.exe@ == Seq::<char>::empty(),
            },
    {
        let exe = match exe {
            Some(p) => p,
            None => String::new(),
        };
        ProcessInfo { name, pid, exe }
    }

    /// Whether there is a path to extract an icon from.
    pub fn has_exe(&self) -> (r: bool)
        ensures
            r == (self.exe@.len() > 0),
    {
        !self.exe.as_str().is_empty()
    }
}

} // verus!
