//! What one invocation asks for, and the connection settings it runs with.
use vstd::prelude::*;

verus! {

/// The choices of one invocation.
///
/// Several operations may be asked for at once; they run in the order
/// download, wipe, upload, build. `directories` gives the local directories
/// of download and upload: the first goes to the first of the two asked for,
/// the second to the other; a missing one is the current directory.
#[derive(Default, Clone, Debug)]
pub struct Ftc {
    pub download: bool,
    pub upload: bool,
    pub build: bool,
    pub wipe: bool,
    pub directories: Vec<String>,
    pub host: Option<String>,
    pub host_timeout_ms: Option<u64>,
    pub build_timeout_sec: Option<u64>,
    pub restore_defaults: bool,
}

/// The kind of an operation against the device.
#[derive(PartialEq, Eq, Structural, Clone, Copy, Debug)]
pub enum Operation {
    Download,
    Wipe,
    Upload,
    Build,
}

/// One operation of an invocation, with the local directory it works on.
#[derive(Clone, Debug)]
pub enum Action {
    Download(String),
    Wipe,
    Upload(String),
    Build,
}

/// What an invocation does.
#[derive(Clone, Debug)]
pub enum Command {
    /// Store the default settings.
    RestoreDefaults,
    /// Run these operations against the device, in order.
    Run(Vec<Action>),
    /// Nothing was asked for: show how to get help.
    Usage,
}

/// The operation and directory of an action; wipe and build take none.
pub open spec fn action_view(a: Action) -> (Operation, Seq<char>) {
    match a {
        Action::Download(d) => (Operation::Download, d@),
        Action::Wipe => (Operation::Wipe, Seq::empty()),
        Action::Upload(d) => (Operation::Upload, d@),
        Action::Build => (Operation::Build, Seq::empty()),
    }
}

/// The `i`-th directory given, or the current directory `.` where fewer
/// were given.
pub open spec fn dir_at(dirs: Seq<String>, i: int) -> Seq<char> {
    if 0 <= i < dirs.len() {
        dirs[i]@
    } else {
        seq!['.']
    }
}

pub open spec fn one_if<T>(cond: bool, x: T) -> Seq<T> {
    if cond {
        seq![x]
    } else {
        Seq::empty()
    }
}

/// The operations that the choices ask for, in the order in which they run.
pub open spec fn planned(opt: Ftc) -> Seq<(Operation, Seq<char>)> {
    let dirs = opt.directories@;
    one_if(opt.download, (Operation::Download, dir_at(dirs, 0))) + one_if(
        opt.wipe,
        (Operation::Wipe, Seq::empty()),
    ) + one_if(
        opt.upload,
        (Operation::Upload, dir_at(dirs, if opt.download { 1 } else { 0 })),
    ) + one_if(opt.build, (Operation::Build, Seq::empty()))
}

fn dir_at_exec(dirs: &Vec<String>, i: usize) -> (r: String)
    ensures
        r@ == dir_at(dirs@, i as int),
{
    if i < dirs.len() {
        dirs[i].clone()
    } else {
        proof {
            reveal_strlit(".");
        }
        ".".to_owned()
    }
}

impl Ftc {
    /// What these choices make an invocation do.
    pub fn command(&self) -> (r: Command)
        ensures
            self.restore_defaults ==> r is RestoreDefaults,
            !self.restore_defaults && (self.download || self.wipe || self.upload || self.build)
                ==> (r matches Command::Run(acts) && acts@.map_values(|a: Action| action_view(a))
                == planned(*self)),
            !self.restore_defaults && !(self.download || self.wipe || self.upload || self.build)
                ==> r is Usage,
    {
        if self.restore_defaults {
            return Command::RestoreDefaults;
        }
        if !(self.download || self.wipe || self.upload || self.build) {
            return Command::Usage;
        }
        let mut acts: Vec<Action> = Vec::new();
        if self.download {
            acts.push(Action::Download(dir_at_exec(&self.directories, 0)));
        }
        if self.wipe {
            acts.push(Action::Wipe);
        }
        if self.upload {
            let i: usize = if self.download { 1 } else { 0 };
            acts.push(Action::Upload(dir_at_exec(&self.directories, i)));
        }
        if self.build {
            acts.push(Action::Build);
        }
        assert(acts@.map_values(|a: Action| action_view(a)) =~= planned(*self));
        Command::Run(acts)
    }
}

/// The settings kept between invocations: the addresses of the device, most
/// recently chosen first, and the two time limits.
#[derive(Clone, Debug)]
pub struct AppConfig {
    pub hosts: Vec<String>,
    pub host_timeout_ms: u64,
    pub build_timeout_sec: u64,
}

/// Whether `host` is among `hosts`.
pub open spec fn has_host(hosts: Seq<String>, host: Seq<char>) -> bool {
    exists|i: int| 0 <= i < hosts.len() && hosts[i]@ == host
}

/// The addresses after `host` was asked for: it goes first unless it is
/// already known.
pub open spec fn hosts_with(hosts: Seq<String>, host: String) -> Seq<String> {
    if has_host(hosts, host@) {
        hosts
    } else {
        seq![host] + hosts
    }
}

/// The address of the device where it runs its own network.
pub const DEFAULT_HOST: &'static str = "http://192.168.43.1:8080";

/// The address of the device where it runs its own network on newer systems.
pub const ALTERNATE_HOST: &'static str = "http://192.168.49.1:8080";

pub const DEFAULT_HOST_TIMEOUT_MS: u64 = 1000;

pub const DEFAULT_BUILD_TIMEOUT_SEC: u64 = 60;

impl Default for AppConfig {
    fn default() -> (r: AppConfig)
        ensures
            r.hosts@.len() == 2,
            r.hosts@[0]@ == DEFAULT_HOST@,
            r.hosts@[1]@ == ALTERNATE_HOST@,
            r.host_timeout_ms == DEFAULT_HOST_TIMEOUT_MS,
            r.build_timeout_sec == DEFAULT_BUILD_TIMEOUT_SEC,
    {
        let mut hosts: Vec<String> = Vec::new();
        hosts.push(DEFAULT_HOST.to_owned());
        hosts.push(ALTERNATE_HOST.to_owned());
        AppConfig {
            hosts,
            host_timeout_ms: DEFAULT_HOST_TIMEOUT_MS,
            build_timeout_sec: DEFAULT_BUILD_TIMEOUT_SEC,
        }
    }
}

impl AppConfig {
    /// Takes over the address and time limits that the choices give.
    pub fn apply(&mut self, opt: &Ftc)
        ensures
            final(self).hosts@ == (match opt.host {
                Some(h) => hosts_with(old(self).hosts@, h),
                None => old(self).hosts@,
            }),
            final(self).host_timeout_ms == (match opt.host_timeout_ms {
                Some(ms) => ms,
                None => old(self).host_timeout_ms,
            }),
            final(self).build_timeout_sec == (match opt.build_timeout_sec {
                Some(s) => s,
                None => old(self).build_timeout_sec,
            }),
    {
        match &opt.host {
            Some(h) => {
                let mut found = false;
                let mut i: usize = 0;
                while i < self.hosts.len()
                    invariant
                        i <= self.hosts@.len(),
                        found == exists|j: int| 0 <= j < i && self.hosts@[j]@ == h@,
                    decreases self.hosts@.len() - i,
                {
                    if self.hosts[i] == *h {
                        found = true;
                    }
                    i = i + 1;
                }
                if !found {
                    self.hosts.insert(0, h.clone());
                    assert(self.hosts@ =~= seq![*h] + old(self).hosts@);
                }
            },
            None => {},
        }
        match opt.host_timeout_ms {
            Some(ms) => self.host_timeout_ms = ms,
            None => {},
        }
        match opt.build_timeout_sec {
            Some(s) => self.build_timeout_sec = s,
            None => {},
        }
    }
}

} // verus!
