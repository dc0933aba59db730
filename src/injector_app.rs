use vstd::prelude::*;
use std::collections::HashMap;
use crate::clock::now_millis;
use crate::config::Config;
use crate::dll_manager::DLLManager;
use crate::icon::IconImage;
use crate::pipeline::BackgroundMessage;
use crate::process::ProcessInfo;
use crate::toast::{Toast, ToastLevel};

verus! {

/// The age after which an idle process list counts as stale, in milliseconds.
pub const AUTO_REFRESH_MS: i64 = 5000;

/// How far in the past the last refresh is placed at start, in milliseconds.
pub const INITIAL_REFRESH_AGE_MS: i64 = 10000;

/// The consumer side of the background pipeline: the latest snapshot, the selection, the
/// icon cache keyed by pid, the library list and the settings that mirror it.
pub struct InjectorApp {
    pub processes: Vec<ProcessInfo>,
    pub selected_process: Option<u32>,
    pub dll_manager: DLLManager,
    pub config: Config,
    pub is_loading_processes: bool,
    pub auto_refresh: bool,
    pub icon_cache: HashMap<u32, IconImage>,
    pub toasts: Vec<Toast>,
    pub process_search: String,
    /// When the process list was last refreshed, in milliseconds since the Unix epoch.
    pub last_refresh: i64,
}

/// The icon requests issued for the snapshot `procs`, in snapshot order: one for each
/// process with a known executable path whose pid has no cached icon.
pub open spec fn missing_icons(procs: Seq<ProcessInfo>, cached: Map<u32, IconImage>) -> Seq<
    (u32, String),
>
    decreases procs.len(),
{
    if procs.len() == 0 {
        Seq::empty()
    } else {
        let rest = missing_icons(procs.drop_last(), cached);
        let p = procs.last();
        if p.exe@.len() > 0 && !cached.contains_key(p.pid) {
            rest.push((p.pid, p.exe))
        } else {
            rest
        }
    }
}

/// `i` is the first position in `procs` of a process named `name`.
pub open spec fn is_first_named(procs: Seq<ProcessInfo>, name: Seq<char>, i: int) -> bool {
    &&& 0 <= i < procs.len()
    &&& procs[i].name@ == name
    &&& forall|j: int| 0 <= j < i ==> procs[j].name@ != name
}

/// Some process in `procs` is named `name`.
pub open spec fn has_named(procs: Seq<ProcessInfo>, name: Seq<char>) -> bool {
    exists|i: int| 0 <= i < procs.len() && procs[i].name@ == name
}

/// `i` is the first position in `procs` of the process with id `pid`.
pub open spec fn is_first_with_pid(procs: Seq<ProcessInfo>, pid: u32, i: int) -> bool {
    &&& 0 <= i < procs.len()
    &&& procs[i].pid == pid
    &&& forall|j: int| 0 <= j < i ==> procs[j].pid != pid
}

/// Some process in `procs` has id `pid`.
pub open spec fn has_pid(procs: Seq<ProcessInfo>, pid: u32) -> bool {
    exists|i: int| 0 <= i < procs.len() && procs[i].pid == pid
}

/// The selection after looking up the last chosen process by name in `procs`: the pid of
/// the first process with that name, or the selection `sel` unchanged.
pub open spec fn reselected(procs: Seq<ProcessInfo>, last: Option<String>, sel: Option<u32>) -> Option<
    u32,
> {
    match last {
        Some(n) => if has_named(procs, n@) {
            Some(procs[choose|i: int| is_first_named(procs, n@, i)].pid)
        } else {
            sel
        },
        None => sel,
    }
}

/// The notifications of `ts` that are still shown at `now`, in order.
pub open spec fn alive_toasts(ts: Seq<Toast>, now: int) -> Seq<Toast>
    decreases ts.len(),
{
    if ts.len() == 0 {
        Seq::empty()
    } else {
        let rest = alive_toasts(ts.drop_last(), now);
        if ts.last().alive_at(now) {
            rest.push(ts.last())
        } else {
            rest
        }
    }
}

/// `b` is `a` with, at most, other notifications.
pub open spec fn same_but_toasts(a: InjectorApp, b: InjectorApp) -> bool {
    &&& b.processes == a.processes
    &&& b.selected_process == a.selected_process
    &&& b.dll_manager == a.dll_manager
    &&& b.config == a.config
    &&& b.is_loading_processes == a.is_loading_processes
    &&& b.auto_refresh == a.auto_refresh
    &&& b.icon_cache == a.icon_cache
    &&& b.process_search == a.process_search
    &&& b.last_refresh == a.last_refresh
}

/// `b` is `a` with, at most, another loading state and time of the last refresh.
pub open spec fn same_but_refresh(a: InjectorApp, b: InjectorApp) -> bool {
    &&& b.processes == a.processes
    &&& b.selected_process == a.selected_process
    &&& b.dll_manager == a.dll_manager
    &&& b.config == a.config
    &&& b.auto_refresh == a.auto_refresh
    &&& b.icon_cache == a.icon_cache
    &&& b.toasts == a.toasts
    &&& b.process_search == a.process_search
}

/// Dropping expired notifications keeps only notifications that were there.
proof fn lemma_alive_toasts_wf(ts: Seq<Toast>, now: int)
    requires
        forall|i: int| 0 <= i < ts.len() ==> (#[trigger] ts[i]).wf(),
    ensures
        forall|k: int|
            0 <= k < alive_toasts(ts, now).len() ==> (#[trigger] alive_toasts(ts, now)[k]).wf(),
    decreases ts.len(),
{
    if ts.len() > 0 {
        let prefix = ts.drop_last();
        assert forall|i: int| 0 <= i < prefix.len() implies (#[trigger] prefix[i]).wf() by {
            assert(prefix[i] == ts[i]);
        }
        lemma_alive_toasts_wf(prefix, now);
        let rest = alive_toasts(prefix, now);
        let last = ts.last();
        assert(last == ts[ts.len() - 1]);
        if last.alive_at(now) {
            assert forall|k: int| 0 <= k < rest.len() + 1 implies (#[trigger] rest.push(
                last,
            )[k]).wf() by {
                if k < rest.len() {
                    assert(rest.push(last)[k] == rest[k]);
                }
            }
        }
    }
}

/// No two processes of the snapshot share a pid.
pub open spec fn distinct_pids(procs: Seq<ProcessInfo>) -> bool {
    forall|a: int, b: int| 0 <= a < b < procs.len() ==> procs[a].pid != procs[b].pid
}

/// Every icon request names a process of the snapshot that has a known executable path
/// and no cached icon, and when the snapshot's pids are distinct no pid is requested twice.
pub proof fn lemma_icon_requests_sound(procs: Seq<ProcessInfo>, cached: Map<u32, IconImage>)
    ensures
        ({
            let r = missing_icons(procs, cached);
            &&& forall|k: int|
                0 <= k < r.len() ==> {
                    &&& (#[trigger] r[k]).1@.len() > 0
                    &&& !cached.contains_key(r[k].0)
                    &&& exists|i: int|
                        0 <= i < procs.len() && procs[i].pid == r[k].0 && procs[i].exe == r[k].1
                }
            &&& distinct_pids(procs) ==> forall|a: int, b: int|
                0 <= a < b < r.len() ==> r[a].0 != r[b].0
        }),
    decreases procs.len(),
{
    if procs.len() > 0 {
        let prefix = procs.drop_last();
        lemma_icon_requests_sound(prefix, cached);
        let rest = missing_icons(prefix, cached);
        let r = missing_icons(procs, cached);
        let last = procs.len() - 1;
        assert forall|k: int| 0 <= k < rest.len() implies exists|i: int|
            0 <= i < procs.len() && procs[i].pid == (#[trigger] rest[k]).0 && procs[i].exe == rest[k].1 by {
            let i = choose|i: int|
                0 <= i < prefix.len() && prefix[i].pid == rest[k].0 && prefix[i].exe == rest[k].1;
            assert(procs[i] == prefix[i]);
        }
        if distinct_pids(procs) {
            assert(distinct_pids(prefix)) by {
                assert forall|a: int, b: int| 0 <= a < b < prefix.len() implies prefix[a].pid
                    != prefix[b].pid by {
                    assert(prefix[a] == procs[a] && prefix[b] == procs[b]);
                }
            }
            assert forall|k: int| 0 <= k < rest.len() implies (#[trigger] rest[k]).0
                != procs[last].pid by {
                let i = choose|i: int|
                    0 <= i < prefix.len() && prefix[i].pid == rest[k].0 && prefix[i].exe
                        == rest[k].1;
                assert(procs[i] == prefix[i]);
            }
        }
        if r != rest {
            assert(r == rest.push((procs[last].pid, procs[last].exe)));
        }
    }
}

/// Whether `s` holds a string equal to `t`.
pub open spec fn contains_string(s: Seq<String>, t: Seq<char>) -> bool {
    exists|i: int| 0 <= i < s.len() && s[i]@ == t
}

proof fn lemma_first_named_unique(procs: Seq<ProcessInfo>, name: Seq<char>, i: int, k: int)
    requires
        is_first_named(procs, name, i),
        is_first_named(procs, name, k),
    ensures
        i == k,
{
    if i < k {
        assert(procs[i].name@ != name);
    } else if k < i {
        assert(procs[k].name@ != name);
    }
}

fn position_of_name(procs: &Vec<ProcessInfo>, name: &String) -> (r: Option<usize>)
    ensures
        match r {
            Some(i) => is_first_named(procs@, name@, i as int),
            None => !has_named(procs@, name@),
        },
{
    let mut i: usize = 0;
    while i < procs.len()
        invariant
            i <= procs@.len(),
            forall|j: int| 0 <= j < i ==> procs@[j].name@ != name@,
        decreases procs@.len() - i,
    {
        if procs[i].name == *name {
            return Some(i);
        }
        i = i + 1;
    }
    None
}

fn position_of_pid(procs: &Vec<ProcessInfo>, pid: u32) -> (r: Option<usize>)
    ensures
        match r {
            Some(i) => is_first_with_pid(procs@, pid, i as int),
            None => !has_pid(procs@, pid),
        },
{
    let mut i: usize = 0;
    while i < procs.len()
        invariant
            i <= procs@.len(),
            forall|j: int| 0 <= j < i ==> procs@[j].pid != pid,
        decreases procs@.len() - i,
    {
        if procs[i].pid == pid {
            return Some(i);
        }
        i = i + 1;
    }
    None
}

fn contains_path(paths: &Vec<String>, path: &String) -> (r: bool)
    ensures
        r == contains_string(paths@, path@),
{
    let mut i: usize = 0;
    while i < paths.len()
        invariant
            i <= paths@.len(),
            forall|j: int| 0 <= j < i ==> paths@[j]@ != path@,
        decreases paths@.len() - i,
    {
        if paths[i] == *path {
            return true;
        }
        i = i + 1;
    }
    false
}

impl InjectorApp {
    /// The library list and the saved settings hold the same paths, a selection points
    /// into the list, and every notification lives the standard time.
    pub open spec fn wf(&self) -> bool {
        &&& self.dll_manager.wf()
        &&& self.config.dlls@ == self.dll_manager.paths()
        &&& forall|i: int| 0 <= i < self.toasts@.len() ==> (#[trigger] self.toasts@[i]).wf()
    }

    /// The state at start, at time `now_ms`: the saved libraries listed, no snapshot yet,
    /// a refresh under way and the last refresh placed well in the past.
    pub fn new_at(config: Config, now_ms: i64) -> (r: InjectorApp)
        ensures
            r.wf(),
            r.config == config,
            r.dll_manager.paths() == config.dlls@,
            r.dll_manager.selection() is None,
            r.processes@.len() == 0,
            r.selected_process is None,
            r.is_loading_processes,
            r.auto_refresh,
            r.icon_cache@ == Map::<u32, IconImage>::empty(),
            r.toasts@.len() == 0,
            r.process_search@.len() == 0,
            r.last_refresh == if now_ms >= i64::MIN + INITIAL_REFRESH_AGE_MS {
                now_ms - INITIAL_REFRESH_AGE_MS
            } else {
                i64::MIN as int
            },
    {
        let mut dll_manager = DLLManager::new();
        let mut i: usize = 0;
        while i < config.dlls.len()
            invariant
                i <= config.dlls@.len(),
                dll_manager.wf(),
                dll_manager.selection() is None,
                dll_manager.paths() == config.dlls@.subrange(0, i as int),
            decreases config.dlls@.len() - i,
        {
            dll_manager.add(config.dlls[i].clone());
            assert(config.dlls@.subrange(0, i as int).push(config.dlls@[i as int])
                =~= config.dlls@.subrange(0, i + 1));
            i = i + 1;
        }
        assert(config.dlls@.subrange(0, config.dlls@.len() as int) =~= config.dlls@);
        let mut app = InjectorApp {
            processes: Vec::new(),
            selected_process: None,
            dll_manager,
            config,
            is_loading_processes: true,
            auto_refresh: true,
            icon_cache: HashMap::new(),
            toasts: Vec::new(),
            process_search: String::new(),
            last_refresh: if now_ms >= i64::MIN + INITIAL_REFRESH_AGE_MS {
                now_ms - INITIAL_REFRESH_AGE_MS
            } else {
                i64::MIN
            },
        };
        app.try_select_last_app();
        app
    }

    /// The state at start, with the clock read now.
    pub fn new(config: Config) -> (r: InjectorApp)
        ensures
            r.wf(),
            r.config == config,
            r.dll_manager.paths() == config.dlls@,
            r.dll_manager.selection() is None,
            r.processes@.len() == 0,
            r.selected_process is None,
            r.is_loading_processes,
            r.auto_refresh,
            r.icon_cache@ == Map::<u32, IconImage>::empty(),
            r.toasts@.len() == 0,
            r.process_search@.len() == 0,
            r.last_refresh >= -INITIAL_REFRESH_AGE_MS,
    {
        let now = now_millis();
        InjectorApp::new_at(config, now)
    }

    /// Takes in one message from the workers and returns the icon requests to queue.
    /// A snapshot replaces the process list whole, whatever the previous one held (pids
    /// are not assumed to keep their process across snapshots), ends the loading state,
    /// selects the last chosen process again by name, and asks for the icons that are
    /// missing. An icon is stored under its pid.
    pub fn handle_background_message(&mut self, msg: BackgroundMessage) -> (requests: Vec<
        (u32, String),
    >)
        requires
            old(self).wf(),
        ensures
            final(self).wf(),
            final(self).dll_manager == old(self).dll_manager,
            final(self).config == old(self).config,
            final(self).auto_refresh == old(self).auto_refresh,
            final(self).toasts == old(self).toasts,
            final(self).process_search == old(self).process_search,
            final(self).last_refresh == old(self).last_refresh,
            match msg {
                BackgroundMessage::Processes(procs) => {
                    &&& final(self).processes@ == procs@
                    &&& !final(self).is_loading_processes
                    &&& final(self).selected_process == reselected(
                        procs@,
                        old(self).config.last_selected_app,
                        old(self).selected_process,
                    )
                    &&& final(self).icon_cache == old(self).icon_cache
                    &&& requests@ == missing_icons(procs@, old(self).icon_cache@)
                },
                BackgroundMessage::Icon((pid, img)) => {
                    &&& final(self).processes == old(self).processes
                    &&& final(self).is_loading_processes == old(self).is_loading_processes
                    &&& final(self).selected_process == old(self).selected_process
                    &&& final(self).icon_cache@ == old(self).icon_cache@.insert(pid, img)
                    &&& requests@.len() == 0
                },
            },
    {
        match msg {
            BackgroundMessage::Processes(procs) => {
                self.processes = procs;
                self.is_loading_processes = false;
                self.try_select_last_app();
                self.request_missing_icons()
            },
            BackgroundMessage::Icon((pid, img)) => {
                self.icon_cache.insert(pid, img);
                Vec::new()
            },
        }
    }

    /// Starts a refresh at time `now_ms`, unless one is already under way.
    pub fn refresh_processes_at(&mut self, now_ms: i64)
        ensures
            final(self).is_loading_processes,
            final(self).last_refresh == if old(self).is_loading_processes {
                old(self).last_refresh
            } else {
                now_ms
            },
            same_but_refresh(*old(self), *final(self)),
    {
        if !self.is_loading_processes {
            self.is_loading_processes = true;
            self.last_refresh = now_ms;
        }
    }

    /// Starts a refresh now, unless one is already under way.
    pub fn refresh_processes(&mut self)
        ensures
            final(self).is_loading_processes,
            old(self).is_loading_processes ==> final(self).last_refresh == old(self).last_refresh,
            !old(self).is_loading_processes ==> final(self).last_refresh >= 0,
            same_but_refresh(*old(self), *final(self)),
    {
        let now = now_millis();
        self.refresh_processes_at(now);
    }

    /// Whether an idle process list is older than the auto-refresh interval at `now_ms`.
    pub open spec fn refresh_due(&self, now_ms: int) -> bool {
        self.auto_refresh && !self.is_loading_processes && now_ms - self.last_refresh
            > AUTO_REFRESH_MS
    }

    /// One frame's bookkeeping at time `now_ms`: a due auto-refresh restarts its interval.
    pub fn tick_at(&mut self, now_ms: i64)
        ensures
            final(self).last_refresh == if old(self).refresh_due(now_ms as int) {
                now_ms
            } else {
                old(self).last_refresh
            },
            final(self).is_loading_processes == old(self).is_loading_processes,
            same_but_refresh(*old(self), *final(self)),
    {
        if self.auto_refresh && !self.is_loading_processes && (now_ms as i128) - (
        self.last_refresh as i128) > (AUTO_REFRESH_MS as i128) {
            self.last_refresh = now_ms;
        }
    }

    /// One frame's bookkeeping now: a due auto-refresh restarts its interval.
    pub fn tick(&mut self)
        ensures
            exists|now: i64|
                now >= 0 && final(self).last_refresh == if old(self).refresh_due(now as int) {
                    now
                } else {
                    old(self).last_refresh
                },
            final(self).is_loading_processes == old(self).is_loading_processes,
            same_but_refresh(*old(self), *final(self)),
    {
        let now = now_millis();
        self.tick_at(now);
    }

    /// The icon requests for the current snapshot: each process with a known executable
    /// path whose pid has no cached icon, in snapshot order.
    pub fn request_missing_icons(&self) -> (r: Vec<(u32, String)>)
        ensures
            r@ == missing_icons(self.processes@, self.icon_cache@),
    {
        let mut out: Vec<(u32, String)> = Vec::new();
        let mut i: usize = 0;
        while i < self.processes.len()
            invariant
                i <= self.processes@.len(),
                out@ == missing_icons(self.processes@.subrange(0, i as int), self.icon_cache@),
            decreases self.processes@.len() - i,
        {
            let p = &self.processes[i];
            let ghost prefix = self.processes@.subrange(0, i + 1);
            assert(prefix.drop_last() =~= self.processes@.subrange(0, i as int));
            assert(prefix.last() == self.processes@[i as int]);
            if p.has_exe() && !self.icon_cache.contains_key(&p.pid) {
                out.push((p.pid, p.exe.clone()));
            }
            i = i + 1;
        }
        assert(self.processes@.subrange(0, self.processes@.len() as int) =~= self.processes@);
        out
    }

    /// Selects, by name, the process that was chosen last, when the snapshot holds one.
    pub fn try_select_last_app(&mut self)
        ensures
            final(self).selected_process == reselected(
                old(self).processes@,
                old(self).config.last_selected_app,
                old(self).selected_process,
            ),
            final(self).processes == old(self).processes,
            final(self).dll_manager == old(self).dll_manager,
            final(self).config == old(self).config,
            final(self).is_loading_processes == old(self).is_loading_processes,
            final(self).auto_refresh == old(self).auto_refresh,
            final(self).icon_cache == old(self).icon_cache,
            final(self).toasts == old(self).toasts,
            final(self).process_search == old(self).process_search,
            final(self).last_refresh == old(self).last_refresh,
    {
        match &self.config.last_selected_app {
            Some(last_app_name) => {
                match position_of_name(&self.processes, last_app_name) {
                    Some(i) => {
                        proof {
                            let k = choose|k: int|
                                is_first_named(self.processes@, last_app_name@, k);
                            lemma_first_named_unique(
                                self.processes@,
                                last_app_name@,
                                i as int,
                                k,
                            );
                        }
                        self.selected_process = Some(self.processes[i].pid);
                    },
                    None => {},
                }
            },
            None => {},
        }
    }

    /// The name of the selected process in the current snapshot, if it is there.
    pub fn selected_process_name(&self) -> (r: Option<&str>)
        ensures
            match self.selected_process {
                Some(pid) => if has_pid(self.processes@, pid) {
                    exists|i: int|
                        is_first_with_pid(self.processes@, pid, i) && (r matches Some(s)
                            && s@ == self.processes@[i].name@)
                } else {
                    r is None
                },
                None => r is None,
            },
    {
        match self.selected_process {
            Some(pid) => match position_of_pid(&self.processes, pid) {
                Some(i) => Some(self.processes[i].name.as_str()),
                None => None,
            },
            None => None,
        }
    }

    /// Adds a notification created now.
    pub fn add_toast(&mut self, level: ToastLevel, message: String)
        ensures
            final(self).toasts@.len() == old(self).toasts@.len() + 1,
            final(self).toasts@.drop_last() == old(self).toasts@,
            final(self).toasts@.last().spec_level() == level,
            final(self).toasts@.last().spec_message() == message,
            same_but_toasts(*old(self), *final(self)),
            old(self).wf() ==> final(self).wf(),
    {
        self.toasts.push(Toast::new(level, message));
    }

    /// Drops the notifications that are no longer shown at `now_ms`, keeping the order.
    pub fn retain_alive_toasts_at(&mut self, now_ms: i64)
        ensures
            final(self).toasts@ == alive_toasts(old(self).toasts@, now_ms as int),
            same_but_toasts(*old(self), *final(self)),
            old(self).wf() ==> final(self).wf(),
    {
        let ghost all = self.toasts@;
        let mut kept: Vec<Toast> = Vec::new();
        let total = self.toasts.len();
        let mut n: usize = 0;
        while self.toasts.len() > 0
            invariant
                all.len() == total,
                n + self.toasts@.len() == all.len(),
                self.toasts@ == all.subrange(n as int, all.len() as int),
                kept@ == alive_toasts(all.subrange(0, n as int), now_ms as int),
                same_but_toasts(*old(self), *self),
            decreases self.toasts@.len(),
        {
            let t = self.toasts.remove(0);
            let ghost prefix = all.subrange(0, n + 1);
            assert(prefix.drop_last() =~= all.subrange(0, n as int));
            assert(t == all[n as int]);
            if t.is_alive_at(now_ms) {
                kept.push(t);
            }
            n = n + 1;
            assert(self.toasts@ =~= all.subrange(n as int, all.len() as int));
        }
        assert(all.subrange(0, all.len() as int) =~= all);
        proof {
            if old(self).wf() {
                lemma_alive_toasts_wf(all, now_ms as int);
            }
        }
        self.toasts = kept;
    }

    /// Drops the notifications that are no longer shown now, keeping the order.
    pub fn retain_alive_toasts(&mut self)
        ensures
            exists|now: int|
                now >= 0 && final(self).toasts@ == alive_toasts(old(self).toasts@, now),
            same_but_toasts(*old(self), *final(self)),
            old(self).wf() ==> final(self).wf(),
    {
        let now = now_millis();
        self.retain_alive_toasts_at(now);
    }

    /// Selects the process `pid` named `name` and remembers the name for the next start.
    pub fn select_process(&mut self, pid: u32, name: String)
        requires
            old(self).wf(),
        ensures
            final(self).wf(),
            final(self).selected_process == Some(pid),
            final(self).config.last_selected_app == Some(name),
            final(self).config.dlls == old(self).config.dlls,
            final(self).dll_manager == old(self).dll_manager,
            final(self).processes == old(self).processes,
            final(self).icon_cache == old(self).icon_cache,
    {
        self.selected_process = Some(pid);
        self.config.last_selected_app = Some(name);
    }

    /// Adds a library path to the list and to the settings, unless it is listed already;
    /// returns whether it was added.
    pub fn add_dll(&mut self, path: String) -> (added: bool)
        requires
            old(self).wf(),
        ensures
            final(self).wf(),
            added == !contains_string(old(self).dll_manager.paths(), path@),
            added ==> final(self).dll_manager.paths() == old(self).dll_manager.paths().push(path),
            !added ==> final(self).dll_manager.paths() == old(self).dll_manager.paths(),
            final(self).dll_manager.selection() == old(self).dll_manager.selection(),
            final(self).config.last_selected_app == old(self).config.last_selected_app,
            final(self).selected_process == old(self).selected_process,
            final(self).processes == old(self).processes,
    {
        if contains_path(self.dll_manager.get_dlls(), &path) {
            false
        } else {
            self.dll_manager.add(path.clone());
            self.config.dlls.push(path);
            true
        }
    }

    /// Removes the selected library from the list and from the settings, and clears the
    /// selection; returns whether a library was selected.
    pub fn remove_selected_dll(&mut self) -> (removed: bool)
        requires
            old(self).wf(),
        ensures
            final(self).wf(),
            removed == old(self).dll_manager.selection() is Some,
            match old(self).dll_manager.selection() {
                Some(i) => {
                    &&& final(self).dll_manager.paths() == old(self).dll_manager.paths().remove(
                        i as int,
                    )
                    &&& final(self).dll_manager.selection() is None
                },
                None => final(self).dll_manager == old(self).dll_manager,
            },
            final(self).config.last_selected_app == old(self).config.last_selected_app,
            final(self).selected_process == old(self).selected_process,
            final(self).processes == old(self).processes,
    {
        match self.dll_manager.selected_dll() {
            Some(selected_index) => {
                self.dll_manager.remove(selected_index);
                self.config.dlls.remove(selected_index);
                true
            },
            None => false,
        }
    }

    /// The process and library an injection would use: both must be selected.
    pub fn injection_target(&self) -> (r: Option<(u32, String)>)
        requires
            self.wf(),
        ensures
            match (self.selected_process, self.dll_manager.selection()) {
                (Some(pid), Some(i)) => r == Some((pid, self.dll_manager.paths()[i as int])),
                _ => r is None,
            },
    {
        match self.selected_process {
            Some(pid) => match self.dll_manager.selected_path() {
                Some(path) => Some((pid, path)),
                None => None,
            },
            None => None,
        }
    }
}

} // verus!
