//! Health-check rules: how probe results become a node status, how results
//! and saved state are written back to the node list, and when scans run.
use vstd::prelude::*;
use crate::types::{NodeStatus, StreamNode, StreamNodeView, Timestamp, views, with_health};
use crate::text::has_char;

verus! {

/// The status that probe results give a node.
///
/// | primary_ok | tcp_ok | secondary_ok | status   |
/// |------------|--------|--------------|----------|
/// | true       | true   | any          | Online   |
/// | true       | false  | any          | Degraded |
/// | false      | any    | Some(true)   | Degraded |
/// | false      | any    | None/false   | Offline  |
pub open spec fn status_from(primary_ok: bool, secondary_ok: Option<bool>, tcp_ok: bool) -> NodeStatus {
    if primary_ok && tcp_ok {
        NodeStatus::Online
    } else if primary_ok {
        NodeStatus::Degraded
    } else if secondary_ok == Some(true) {
        NodeStatus::Degraded
    } else {
        NodeStatus::Offline
    }
}

/// Derives a node's status from its probes: the primary URL's HTTP probe, the
/// secondary URL's HTTP probe (if the node has one) and the TCP probe of its
/// address. A working primary URL with an unreachable address is `Degraded`;
/// so is a failing primary URL with a working secondary URL.
pub fn derive_status(primary_ok: bool, secondary_ok: Option<bool>, tcp_ok: bool) -> (s: NodeStatus)
    ensures
        s == status_from(primary_ok, secondary_ok, tcp_ok),
{
    if primary_ok && tcp_ok {
        NodeStatus::Online
    } else if primary_ok {
        NodeStatus::Degraded
    } else {
        match secondary_ok {
            Some(true) => NodeStatus::Degraded,
            _ => NodeStatus::Offline,
        }
    }
}

/// Law: the status table. Primary URL and address reachable means `Online`
/// whatever the secondary URL does; a reachable primary URL alone, or a
/// failing primary URL with a working secondary one, means `Degraded`; a
/// failing primary URL without a working secondary one means `Offline`
/// whatever the address does.
pub proof fn law_status_table(secondary_ok: Option<bool>, tcp_ok: bool)
    ensures
        status_from(true, secondary_ok, true) == NodeStatus::Online,
        status_from(true, secondary_ok, false) == NodeStatus::Degraded,
        status_from(false, Some(true), tcp_ok) == NodeStatus::Degraded,
        secondary_ok != Some(true) ==> status_from(false, secondary_ok, tcp_ok) == NodeStatus::Offline,
        status_from(false, secondary_ok, tcp_ok) != NodeStatus::Online,
{
}

/// The status of a node from its probes, where a node without an address has
/// no TCP probe (`tcp_ok` is `None`), which counts as a success.
pub fn status_from_probes(primary_ok: bool, secondary_ok: Option<bool>, tcp_ok: Option<bool>) -> (s:
    NodeStatus)
    ensures
        s == status_from(
            primary_ok,
            secondary_ok,
            match tcp_ok {
                Some(b) => b,
                None => true,
            },
        ),
{
    let tcp = match tcp_ok {
        Some(b) => b,
        None => true,
    };
    derive_status(primary_ok, secondary_ok, tcp)
}

/// How an HTTP `HEAD` request ended.
#[derive(Debug, Clone, Copy, PartialEq, Eq, Structural)]
pub enum HttpOutcome {
    /// The server answered with a success status.
    Responded,
    /// The server answered with an error status code.
    Status(u16),
    /// No answer: invalid URL, unreachable host, timeout...
    Failed,
}

/// Whether an HTTP probe counts as a reachable server: any answer with a code
/// below 500 does; server errors and transport failures do not.
pub fn http_probe_ok(outcome: HttpOutcome) -> (ok: bool)
    ensures
        ok == match outcome {
            HttpOutcome::Responded => true,
            HttpOutcome::Status(code) => code < 500,
            HttpOutcome::Failed => false,
        },
{
    match outcome {
        HttpOutcome::Responded => true,
        HttpOutcome::Status(code) => code < 500,
        HttpOutcome::Failed => false,
    }
}

/// The address the TCP probe connects to: `addr` itself when it names a
/// port (holds a `:`), else `addr` on port 80.
pub open spec fn tcp_target_spec(addr: Seq<char>) -> Seq<char> {
    if addr.contains(':') {
        addr
    } else {
        addr + seq![':', '8', '0']
    }
}

/// The `host:port` the TCP probe of an address connects to; the port defaults to 80.
pub fn tcp_target(addr: &str) -> (t: String)
    ensures
        t@ == tcp_target_spec(addr@),
{
    if has_char(addr, ':') {
        addr.to_owned()
    } else {
        let base = addr.to_owned();
        proof {
            reveal_strlit(":80");
        }
        base.concat(":80")
    }
}

/// The address the TCP probe of a node connects to, if the node has an address.
pub fn tcp_probe_target(node: &StreamNode) -> (t: Option<String>)
    ensures
        match node@.ip_address {
            Some(a) => t matches Some(s) && s@ == tcp_target_spec(a),
            None => t is None,
        },
{
    match &node.ip_address {
        Some(a) => Some(tcp_target(a.as_str())),
        None => None,
    }
}

/// The first node of `saved` with the given name.
pub open spec fn find_by_name(saved: Seq<StreamNodeView>, name: Seq<char>) -> Option<StreamNodeView>
    decreases saved.len(),
{
    if saved.len() == 0 {
        None
    } else if saved[0].name == name {
        Some(saved[0])
    } else {
        find_by_name(saved.drop_first(), name)
    }
}

/// A node after restoring saved state: status and time of the last check come
/// from the first saved node with the same name; without one it is unchanged.
pub open spec fn restored(node: StreamNodeView, saved: Seq<StreamNodeView>) -> StreamNodeView {
    match find_by_name(saved, node.name) {
        Some(s) => with_health(node, s.status, s.last_checked),
        None => node,
    }
}

proof fn lemma_find_step(saved: Seq<StreamNodeView>, j: int, name: Seq<char>)
    requires
        0 <= j < saved.len(),
        saved[j].name != name,
    ensures
        find_by_name(saved.subrange(j, saved.len() as int), name) == find_by_name(
            saved.subrange(j + 1, saved.len() as int),
            name,
        ),
{
    assert(saved.subrange(j, saved.len() as int).drop_first() =~= saved.subrange(
        j + 1,
        saved.len() as int,
    ));
}

/// Index of the first node of `saved` named like `name`.
fn position_by_name(saved: &[StreamNode], name: &String) -> (r: Option<usize>)
    ensures
        match r {
            Some(i) => i < saved@.len() && find_by_name(views(saved@), name@) == Some(
                saved@[i as int]@,
            ),
            None => find_by_name(views(saved@), name@) is None,
        },
{
    let ghost v = views(saved@);
    let n = saved.len();
    let mut j: usize = 0;
    assert(v.subrange(0, v.len() as int) =~= v);
    while j < n
        invariant
            n == saved@.len(),
            v == views(saved@),
            j <= n,
            find_by_name(v, name@) == find_by_name(v.subrange(j as int, v.len() as int), name@),
        decreases n - j,
    {
        if saved[j].name == *name {
            assert(v.subrange(j as int, v.len() as int)[0] == v[j as int]);
            return Some(j);
        }
        proof {
            lemma_find_step(v, j as int, name@);
        }
        j = j + 1;
    }
    assert(v.subrange(n as int, v.len() as int).len() == 0);
    None
}

/// Restores saved health state into `nodes`, matching nodes by name: each
/// node takes status and time of the last check from the first saved node
/// with its name; nodes without such a saved node are left unchanged.
pub fn apply_saved_state(nodes: &mut Vec<StreamNode>, saved: &[StreamNode])
    ensures
        views(final(nodes)@) == views(old(nodes)@).map_values(
            |n: StreamNodeView| restored(n, views(saved@)),
        ),
{
    let n = nodes.len();
    let ghost start = views(nodes@);
    let mut i: usize = 0;
    while i < n
        invariant
            n == nodes@.len(),
            start.len() == n,
            i <= n,
            forall|k: int| 0 <= k < i ==> nodes@[k]@ == restored(start[k], views(saved@)),
            forall|k: int| i <= k < n ==> nodes@[k]@ == start[k],
        decreases n - i,
    {
        match position_by_name(saved, &nodes[i].name) {
            Some(p) => {
                let status = saved[p].status;
                let checked = saved[p].last_checked;
                nodes[i].status = status;
                nodes[i].last_checked = checked;
            },
            None => {},
        }
        i = i + 1;
    }
    assert(views(nodes@) =~= start.map_values(|m: StreamNodeView| restored(m, views(saved@))));
}

/// Law: restoring the same saved state twice is the same as restoring it once.
pub proof fn law_restore_idempotent(node: StreamNodeView, saved: Seq<StreamNodeView>)
    ensures
        restored(restored(node, saved), saved) == restored(node, saved),
{
}

/// Law: a node that is itself the first saved node of its name keeps its state.
pub proof fn law_restore_own_state(node: StreamNodeView, saved: Seq<StreamNodeView>)
    requires
        find_by_name(saved, node.name) == Some(node),
    ensures
        restored(node, saved) == node,
{
}

/// One probe result: index of the node in the scanned snapshot, its new
/// status and when it was checked.
pub type ScanResult = (usize, NodeStatus, Timestamp);

/// Nodes after writing back one result; a result whose index is out of range is dropped.
pub open spec fn apply_result(nodes: Seq<StreamNodeView>, r: ScanResult) -> Seq<StreamNodeView> {
    if r.0 < nodes.len() {
        nodes.update(r.0 as int, with_health(nodes[r.0 as int], r.1, Some(r.2)))
    } else {
        nodes
    }
}

/// Nodes after writing back results in order.
pub open spec fn apply_results(nodes: Seq<StreamNodeView>, rs: Seq<ScanResult>) -> Seq<StreamNodeView>
    decreases rs.len(),
{
    if rs.len() == 0 {
        nodes
    } else {
        apply_result(apply_results(nodes, rs.drop_last()), rs.last())
    }
}

/// Writes scan results back into the node list: each result sets the status
/// and the time of the last check of the node at its index; results for
/// indices past the end of the list (the list shrank during the scan) are
/// ignored. Results are applied in order.
pub fn apply_scan_results(nodes: &mut Vec<StreamNode>, results: &Vec<ScanResult>)
    ensures
        views(final(nodes)@) == apply_results(views(old(nodes)@), results@),
{
    let ghost start = views(nodes@);
    let n = results.len();
    let mut k: usize = 0;
    assert(results@.take(0) =~= Seq::<ScanResult>::empty());
    while k < n
        invariant
            n == results@.len(),
            k <= n,
            views(nodes@) == apply_results(start, results@.take(k as int)),
        decreases n - k,
    {
        let (idx, status, checked_at) = results[k];
        assert(results@.take(k + 1).drop_last() =~= results@.take(k as int));
        if idx < nodes.len() {
            nodes[idx].status = status;
            nodes[idx].last_checked = Some(checked_at);
        }
        assert(views(nodes@) =~= apply_results(start, results@.take(k + 1)));
        k = k + 1;
    }
    assert(results@.take(n as int) =~= results@);
}

/// The last result of `rs` for node index `j`, if any.
pub open spec fn last_result_for(rs: Seq<ScanResult>, j: int) -> Option<ScanResult>
    decreases rs.len(),
{
    if rs.len() == 0 {
        None
    } else if rs.last().0 == j {
        Some(rs.last())
    } else {
        last_result_for(rs.drop_last(), j)
    }
}

/// Law: after writing back scan results, every node holds the status and
/// check time of the last result for its index, and a node without a result
/// is unchanged; the list keeps its length.
pub proof fn law_scan_results_last_wins(nodes: Seq<StreamNodeView>, rs: Seq<ScanResult>)
    ensures
        apply_results(nodes, rs).len() == nodes.len(),
        forall|j: int|
            0 <= j < nodes.len() ==> #[trigger] apply_results(nodes, rs)[j] == match last_result_for(
                rs,
                j,
            ) {
                Some(r) => with_health(nodes[j], r.1, Some(r.2)),
                None => nodes[j],
            },
    decreases rs.len(),
{
    if rs.len() > 0 {
        law_scan_results_last_wins(nodes, rs.drop_last());
    }
}

/// Milliseconds in one second.
pub const MILLIS_PER_SEC: u128 = 1000;

/// The longest a scan loop waits for a manual trigger before looking at the
/// clock again, in milliseconds.
pub const MAX_WAIT_MS: u128 = 1000;

/// When the periodic health check runs, on a monotonic clock in milliseconds.
pub struct ScanSchedule {
    /// The time at which the next periodic scan is due.
    pub next_check_ms: u128,
    /// Time between two periodic scans.
    pub interval_ms: u128,
}

/// What ended a wait for a manual scan trigger.
#[derive(Debug, Clone, Copy, PartialEq, Eq, Structural)]
pub enum WakeReason {
    /// A manual scan was requested.
    Triggered,
    /// The wait timed out.
    TimedOut,
    /// The trigger channel is gone: the service must stop.
    Disconnected,
}

/// What the scan loop does after a wait.
#[derive(Debug, Clone, Copy, PartialEq, Eq, Structural)]
pub enum WakeAction {
    /// Scan all nodes now (and save state), then reschedule.
    ScanNow,
    /// Nothing to do; go round the loop.
    Continue,
    /// Leave the loop.
    Stop,
}

/// The schedule a scan service starts with at `now_ms`: first scan due at once.
pub open spec fn initial_schedule(now_ms: u128, interval_secs: u64) -> ScanSchedule {
    ScanSchedule { next_check_ms: now_ms, interval_ms: (interval_secs * MILLIS_PER_SEC) as u128 }
}

/// Whether a periodic scan is due at `now_ms`.
pub open spec fn due(s: ScanSchedule, now_ms: u128) -> bool {
    now_ms >= s.next_check_ms
}

/// The schedule after a scan that ended at `now_ms`: the next one is due one interval later.
pub open spec fn after_scan(s: ScanSchedule, now_ms: u128) -> ScanSchedule {
    ScanSchedule { next_check_ms: (now_ms + s.interval_ms) as u128, interval_ms: s.interval_ms }
}

/// What ending a wait for a manual trigger leads to.
pub open spec fn wake_action(reason: WakeReason) -> WakeAction {
    match reason {
        WakeReason::Triggered => WakeAction::ScanNow,
        WakeReason::TimedOut => WakeAction::Continue,
        WakeReason::Disconnected => WakeAction::Stop,
    }
}

impl ScanSchedule {
    /// A schedule with the given period whose first scan is due at once.
    pub fn new(now_ms: u128, interval_secs: u64) -> (s: Self)
        ensures
            s == initial_schedule(now_ms, interval_secs),
    {
        assert(interval_secs * MILLIS_PER_SEC <= u128::MAX) by (nonlinear_arith)
            requires
                interval_secs <= u64::MAX,
        ;
        ScanSchedule { next_check_ms: now_ms, interval_ms: (interval_secs as u128) * MILLIS_PER_SEC }
    }

    /// Whether a periodic scan is due at `now_ms`.
    pub fn is_due(&self, now_ms: u128) -> (d: bool)
        ensures
            d == due(*self, now_ms),
    {
        now_ms >= self.next_check_ms
    }

    /// Records that a scan finished at `now_ms`: the next one is due one interval later.
    pub fn mark_scanned(&mut self, now_ms: u128)
        requires
            now_ms + old(self).interval_ms <= u128::MAX,
        ensures
            *final(self) == after_scan(*old(self), now_ms),
    {
        self.next_check_ms = now_ms + self.interval_ms;
    }

    /// How long to wait for a manual trigger at `now_ms`: until the next
    /// periodic scan, but never more than [`MAX_WAIT_MS`].
    pub fn wait_ms(&self, now_ms: u128) -> (w: u128)
        ensures
            w == wait_for(self.next_check_ms, now_ms),
    {
        let remaining = if self.next_check_ms > now_ms {
            self.next_check_ms - now_ms
        } else {
            0
        };
        if remaining < MAX_WAIT_MS {
            remaining
        } else {
            MAX_WAIT_MS
        }
    }

    /// What to do once a wait ended: a manual trigger scans at once, a time
    /// out goes round the loop, a lost trigger channel stops the service.
    pub fn on_wake(&self, reason: WakeReason) -> (a: WakeAction)
        ensures
            a == wake_action(reason),
    {
        match reason {
            WakeReason::Triggered => WakeAction::ScanNow,
            WakeReason::TimedOut => WakeAction::Continue,
            WakeReason::Disconnected => WakeAction::Stop,
        }
    }
}

/// Law: when scans happen. A service started at `start` scans at once; a
/// manual trigger scans at once and a lost trigger channel stops the
/// service; after a scan ending at `t`, the next periodic scan is due exactly
/// from `t` plus the interval on, whatever happened before.
pub proof fn law_scan_timing(start: u128, interval_secs: u64, t: u128, now: u128, earlier: ScanSchedule)
    requires
        earlier.interval_ms == interval_secs * MILLIS_PER_SEC,
        t + interval_secs * MILLIS_PER_SEC <= u128::MAX,
    ensures
        due(initial_schedule(start, interval_secs), start),
        wake_action(WakeReason::Triggered) == WakeAction::ScanNow,
        wake_action(WakeReason::Disconnected) == WakeAction::Stop,
        wake_action(WakeReason::TimedOut) == WakeAction::Continue,
        due(after_scan(earlier, t), now) <==> now >= t + interval_secs * MILLIS_PER_SEC,
        after_scan(earlier, t).interval_ms == earlier.interval_ms,
{
    assert(interval_secs * MILLIS_PER_SEC <= u128::MAX) by (nonlinear_arith)
        requires
            interval_secs <= u64::MAX,
    ;
}

/// The wait before looking at the clock again: the time left until
/// `next_check_ms`, capped at [`MAX_WAIT_MS`], and nothing once it is due.
pub open spec fn wait_for(next_check_ms: u128, now_ms: u128) -> u128 {
    if next_check_ms > now_ms {
        if next_check_ms - now_ms < MAX_WAIT_MS {
            (next_check_ms - now_ms) as u128
        } else {
            MAX_WAIT_MS
        }
    } else {
        0
    }
}

/// Law: a wait never exceeds one second, never runs past the time the next
/// scan is due, and is zero once a scan is due.
pub proof fn law_wait_bounded(next_check_ms: u128, now_ms: u128)
    ensures
        wait_for(next_check_ms, now_ms) <= MAX_WAIT_MS,
        now_ms < next_check_ms ==> now_ms + wait_for(next_check_ms, now_ms) <= next_check_ms,
        now_ms < next_check_ms ==> wait_for(next_check_ms, now_ms) > 0,
        now_ms >= next_check_ms ==> wait_for(next_check_ms, now_ms) == 0,
{
}

/// Law: the TCP probe of an address without a `:` goes to that address on
/// port 80, whatever its characters (a host name as well as an IP address);
/// an address with a `:` is used as it is. Either way the target names a port.
pub proof fn law_tcp_default_port(addr: Seq<char>)
    ensures
        !addr.contains(':') ==> tcp_target_spec(addr) == addr + seq![':', '8', '0'],
        addr.contains(':') ==> tcp_target_spec(addr) == addr,
        tcp_target_spec(addr).contains(':'),
        tcp_target_spec(addr).subrange(0, addr.len() as int) == addr,
{
    if !addr.contains(':') {
        let t = addr + seq![':', '8', '0'];
        assert(t[addr.len() as int] == ':');
        assert(t.subrange(0, addr.len() as int) =~= addr);
    } else {
        assert(addr.subrange(0, addr.len() as int) =~= addr);
    }
}

/// Law: a scan service started with `interval_secs` waits exactly
/// `interval_secs` seconds (in milliseconds, `interval_secs * 1000`) between
/// the end of a scan and the next periodic one, for every interval and start.
pub proof fn law_interval_exact(start: u128, interval_secs: u64, t: u128, now: u128)
    requires
        t + interval_secs * 1000 <= u128::MAX,
    ensures
        initial_schedule(start, interval_secs).interval_ms == interval_secs * 1000,
        initial_schedule(start, interval_secs).next_check_ms == start,
        after_scan(initial_schedule(start, interval_secs), t).next_check_ms == t + interval_secs * 1000,
        due(after_scan(initial_schedule(start, interval_secs), t), now) <==> now >= t + interval_secs * 1000,
{
    assert(interval_secs * 1000 <= u128::MAX) by (nonlinear_arith)
        requires
            interval_secs <= u64::MAX,
    ;
}

proof fn lemma_find_first(saved: Seq<StreamNodeView>, name: Seq<char>, k: int)
    requires
        0 <= k < saved.len(),
        saved[k].name == name,
        forall|j: int| 0 <= j < k ==> saved[j].name != name,
    ensures
        find_by_name(saved, name) == Some(saved[k]),
    decreases k,
{
    if k > 0 {
        lemma_find_first(saved.drop_first(), name, k - 1);
    }
}

proof fn lemma_find_none(saved: Seq<StreamNodeView>, name: Seq<char>)
    requires
        forall|j: int| 0 <= j < saved.len() ==> saved[j].name != name,
    ensures
        find_by_name(saved, name) is None,
    decreases saved.len(),
{
    if saved.len() > 0 {
        lemma_find_none(saved.drop_first(), name);
    }
}

/// Law: restoring saved state gives a node exactly the status and the time
/// of the last check of the first saved node with its name (the one at
/// index `k`), whatever that status is, and keeps everything else of the node.
pub proof fn law_restore_first_namesake(node: StreamNodeView, saved: Seq<StreamNodeView>, k: int)
    requires
        0 <= k < saved.len(),
        saved[k].name == node.name,
        forall|j: int| 0 <= j < k ==> saved[j].name != node.name,
    ensures
        restored(node, saved).status == saved[k].status,
        restored(node, saved).last_checked == saved[k].last_checked,
        restored(node, saved).name == node.name,
        restored(node, saved).primary_url == node.primary_url,
        restored(node, saved).secondary_url == node.secondary_url,
        restored(node, saved).ip_address == node.ip_address,
{
    lemma_find_first(saved, node.name, k);
}

/// Law: a node with no saved namesake is left as it is by a restore.
pub proof fn law_restore_without_namesake(node: StreamNodeView, saved: Seq<StreamNodeView>)
    requires
        forall|j: int| 0 <= j < saved.len() ==> saved[j].name != node.name,
    ensures
        restored(node, saved) == node,
{
    lemma_find_none(saved, node.name);
}

} // verus!
