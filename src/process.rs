//! Liveness of the WeeChat daemon, read from the OS process table.
use vstd::prelude::*;
use sysinfo::{PidExt, ProcessExt, System, SystemExt};
use crate::text::{concat, same_text};

verus! {

/// The process table of sysinfo; its contents are read through the
/// wrappers below.
#[verifier::external_type_specification]
#[verifier::external_body]
pub struct ExSystem(System);

/// A snapshot of one process.
pub struct ProcessHandle {
    pub name: String,
    pub pid: usize,
    pub exe: String,
}

/// Relies on `SystemExt::refresh_processes`: reloads the process table.
#[verifier::external_body]
fn refresh_process_table(sys: &mut System) {
    sys.refresh_processes()
}

/// Relies on `SystemExt::processes`: every process of the last refresh.
/// The table depends on the machine, so nothing is promised of it.
#[verifier::external_body]
fn process_table(sys: &System) -> (r: Vec<ProcessHandle>) {
    sys.processes().values().map(|p| ProcessHandle {
        name: p.name().to_string(),
        pid: p.pid().as_u32() as usize,
        exe: p.exe().display().to_string(),
    }).collect()
}

/// Relies on `ProcessExt::kill`: sends the kill signal to the process
/// `pid`, if the table still holds it; tells whether it was sent.
#[verifier::external_body]
fn kill_process(sys: &System, pid: usize) -> (r: bool) {
    match sys.process(sysinfo::Pid::from(pid)) {
        Some(p) => p.kill(),
        None => false,
    }
}

/// Whether a process name is the daemon's: exactly `weechat` or the
/// configured program name.
pub open spec fn is_host_name(name: Seq<char>, program_name: Seq<char>) -> bool {
    name == "weechat"@ || name == program_name
}

/// The processes of `table` that are the daemon, in table order.
pub open spec fn host_processes(table: Seq<ProcessHandle>, program_name: Seq<char>) -> Seq<ProcessHandle>
    decreases table.len(),
{
    if table.len() == 0 {
        Seq::empty()
    } else {
        host_processes(table.drop_last(), program_name) + if is_host_name(
            table.last().name@,
            program_name,
        ) {
            seq![table.last()]
        } else {
            Seq::empty()
        }
    }
}

fn copy_handle(h: &ProcessHandle) -> (r: ProcessHandle)
    ensures
        r == *h,
{
    ProcessHandle { name: h.name.clone(), pid: h.pid, exe: h.exe.clone() }
}

/// Keeps the processes whose name is exactly `weechat` or `program_name`.
pub fn select_host_processes(table: &Vec<ProcessHandle>, program_name: &str) -> (r: Vec<ProcessHandle>)
    ensures
        r@ == host_processes(table@, program_name@),
{
    proof { reveal_strlit("weechat"); }
    let mut r: Vec<ProcessHandle> = Vec::new();
    let n = table.len();
    let mut i: usize = 0;
    while i < n
        invariant
            n == table@.len(),
            i <= n,
            r@ == host_processes(table@.subrange(0, i as int), program_name@),
        decreases n - i,
    {
        let ghost after = table@.subrange(0, i + 1);
        assert(after.drop_last() == table@.subrange(0, i as int));
        let h = &table[i];
        if same_text(h.name.as_str(), "weechat") || same_text(h.name.as_str(), program_name) {
            r.push(copy_handle(h));
        } else {
            assert(host_processes(after, program_name@) =~= host_processes(
                table@.subrange(0, i as int),
                program_name@,
            ));
        }
        i = i + 1;
    }
    assert(table@.subrange(0, n as int) == table@);
    r
}

/// The daemon's processes of a process table, in table order; `None`
/// when the table holds none.
pub fn find_host_processes(table: &Vec<ProcessHandle>, program_name: &str) -> (r: Option<Vec<ProcessHandle>>)
    ensures
        r is None <==> host_processes(table@, program_name@).len() == 0,
        r is Some ==> r->0@ == host_processes(table@, program_name@),
{
    let found = select_host_processes(table, program_name);
    if found.len() == 0 {
        None
    } else {
        Some(found)
    }
}

/// Whether a process table holds one of the daemon's processes.
pub fn is_host_running(table: &Vec<ProcessHandle>, program_name: &str) -> (r: bool)
    ensures
        r == (host_processes(table@, program_name@).len() > 0),
{
    find_host_processes(table, program_name).is_some()
}

/// The pids of the daemon's processes in a process table, in table order.
pub fn host_pids(table: &Vec<ProcessHandle>, program_name: &str) -> (r: Vec<usize>)
    ensures
        r@ == host_processes(table@, program_name@).map_values(|p: ProcessHandle| p.pid),
{
    let found = select_host_processes(table, program_name);
    let mut pids: Vec<usize> = Vec::new();
    let n = found.len();
    let mut i: usize = 0;
    while i < n
        invariant
            n == found@.len(),
            i <= n,
            pids@ == found@.subrange(0, i as int).map_values(|p: ProcessHandle| p.pid),
        decreases n - i,
    {
        pids.push(found[i].pid);
        assert(found@.subrange(0, i + 1).map_values(|p: ProcessHandle| p.pid) =~= found@.subrange(
            0,
            i as int,
        ).map_values(|p: ProcessHandle| p.pid).push(found@[i as int].pid));
        i = i + 1;
    }
    assert(found@.subrange(0, n as int) == found@);
    pids
}

/// The daemon's processes in the current table, `None` when there are
/// none; the choice is `find_host_processes` on the table. Whatever the
/// table holds, each one returned is the daemon's.
pub fn get_weechat_processes(sys: &System, program_name: &str) -> (r: Option<Vec<ProcessHandle>>)
    ensures
        r is Some ==> r->0@.len() > 0 && forall|i: int|
            0 <= i < r->0@.len() ==> is_host_name(#[trigger] r->0@[i].name@, program_name@),
{
    let table = process_table(sys);
    proof { lemma_host_processes_named(table@, program_name@); }
    find_host_processes(&table, program_name)
}

/// Every process that `host_processes` keeps is the daemon's.
pub proof fn lemma_host_processes_named(table: Seq<ProcessHandle>, program_name: Seq<char>)
    ensures
        forall|i: int|
            0 <= i < host_processes(table, program_name).len() ==> is_host_name(
                #[trigger] host_processes(table, program_name)[i].name@,
                program_name,
            ),
    decreases table.len(),
{
    if table.len() > 0 {
        let prefix = host_processes(table.drop_last(), program_name);
        lemma_host_processes_named(table.drop_last(), program_name);
        assert forall|i: int|
            0 <= i < host_processes(table, program_name).len() implies is_host_name(
                #[trigger] host_processes(table, program_name)[i].name@,
                program_name,
            ) by {
            if i < prefix.len() {
                assert(host_processes(table, program_name)[i] == prefix[i]);
            }
        }
    }
}

/// Refreshes the process table, then tells whether the daemon is in it,
/// as `is_host_running` decides on the table.
pub fn is_weechat_running(sys: &mut System, program_name: &str) -> (r: bool) {
    refresh_process_table(sys);
    let table = process_table(sys);
    is_host_running(&table, program_name)
}

/// Refreshes the process table and sends the kill signal to each pid that
/// `host_pids` picks from it; returns how many signals were sent. It
/// neither waits for nor checks their exit.
pub fn kill_weechat_processes(sys: &mut System, program_name: &str) -> (r: usize) {
    refresh_process_table(sys);
    let table = process_table(sys);
    let pids = host_pids(&table, program_name);
    let mut sent: usize = 0;
    let n = pids.len();
    let mut i: usize = 0;
    while i < n
        invariant
            n == pids@.len(),
            i <= n,
            sent <= i,
        decreases n - i,
    {
        if kill_process(sys, pids[i]) {
            sent = sent + 1;
        }
        i = i + 1;
    }
    sent
}

/// The daemon's executable could not be started.
pub struct WeechatSpawnFailed {
    pub program_name: String,
}

impl WeechatSpawnFailed {
    /// The error's description.
    pub fn message(&self) -> (r: String)
        ensures
            r@ == "[Error WeechatSpawnFailed] program_name: "@ + self.program_name@,
    {
        concat("[Error WeechatSpawnFailed] program_name: ", self.program_name.as_str())
    }

    /// What the user should check.
    pub fn advice(&self) -> (r: String)
        ensures
            r@ == "Please check that "@ + self.program_name@ + " is present in $PATH"@,
    {
        let mut a = concat("Please check that ", self.program_name.as_str());
        a.append(" is present in $PATH");
        a
    }
}

} // verus!
