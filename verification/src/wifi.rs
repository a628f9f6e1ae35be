use vstd::prelude::*;

verus! {

/// What the Wi-Fi supervision loop does after one of its ten-second pauses.
#[derive(Clone, Copy, Debug, PartialEq, Eq, Structural)]
pub enum MonitorAction {
    /// Nothing: pause again.
    Wait,
    /// Disconnect, stop, connect afresh and set the clock.
    Reconnect,
    /// Set the clock from the network, and report whether that worked.
    CheckTime,
}

/// The counters of the Wi-Fi supervision loop: pauses since the last
/// reconnect window (below 8), and time checks that failed in a row.
#[derive(Clone, Copy, Debug, PartialEq, Eq, Structural)]
pub struct WifiMonitor {
    pub count: u8,
    pub fail_count: u8,
}

/// One pause of the supervision loop: the counters after it, and what to do.
/// Every eighth pause opens a reconnect window (reconnecting if checks have
/// failed); the sixth and seventh pause check the time while checks fail.
pub open spec fn tick_spec(m: WifiMonitor) -> (WifiMonitor, MonitorAction) {
    let count = m.count + 1;
    if count == 8 {
        (
            WifiMonitor { count: 0, fail_count: m.fail_count },
            if m.fail_count > 0 {
                MonitorAction::Reconnect
            } else {
                MonitorAction::Wait
            },
        )
    } else {
        (
            WifiMonitor { count: count as u8, fail_count: m.fail_count },
            if count >= 6 && m.fail_count > 0 {
                MonitorAction::CheckTime
            } else {
                MonitorAction::Wait
            },
        )
    }
}

/// The counters after `n` pauses from `m`, with no time check in between.
pub open spec fn after_ticks(m: WifiMonitor, n: nat) -> WifiMonitor
    decreases n,
{
    if n == 0 {
        m
    } else {
        tick_spec(after_ticks(m, (n - 1) as nat)).0
    }
}

impl WifiMonitor {
    /// The counters when the loop starts.
    pub fn new() -> (r: WifiMonitor)
        ensures
            r.count == 0,
            r.fail_count == 0,
    {
        WifiMonitor { count: 0, fail_count: 0 }
    }

    /// One pause of the loop.
    pub fn tick(self) -> (r: (WifiMonitor, MonitorAction))
        requires
            self.count < 8,
        ensures
            r == tick_spec(self),
            r.0.count < 8,
            self.count == 7 ==> r.0.count == 0,
            self.count < 7 ==> r.0.count == self.count + 1,
            r.1 is Reconnect <==> (self.count == 7 && self.fail_count > 0),
            r.1 is CheckTime <==> ((self.count == 5 || self.count == 6) && self.fail_count > 0),
            r.0.fail_count == self.fail_count,
            self.fail_count == 0 ==> r.1 is Wait,
    {
        let count = self.count + 1;
        if count == 8 {
            let action = if self.fail_count > 0 {
                MonitorAction::Reconnect
            } else {
                MonitorAction::Wait
            };
            (WifiMonitor { count: 0, fail_count: self.fail_count }, action)
        } else {
            let action = if count >= 6 && self.fail_count > 0 {
                MonitorAction::CheckTime
            } else {
                MonitorAction::Wait
            };
            (WifiMonitor { count, fail_count: self.fail_count }, action)
        }
    }

    /// The counters after a time check: a failure adds one, a success clears them.
    pub fn time_checked(self, succeeded: bool) -> (r: WifiMonitor)
        requires
            succeeded || self.fail_count < u8::MAX,
        ensures
            r.count == self.count,
            r.fail_count == (if succeeded {
                0
            } else {
                self.fail_count + 1
            }),
    {
        if succeeded {
            WifiMonitor { count: self.count, fail_count: 0 }
        } else {
            WifiMonitor { count: self.count, fail_count: self.fail_count + 1 }
        }
    }
}

/// Started from fresh counters, the supervision loop only ever waits: no
/// time check is asked for, so no check can fail and no reconnect happens.
pub proof fn lemma_monitor_only_waits(n: nat)
    ensures
        after_ticks(WifiMonitor { count: 0, fail_count: 0 }, n).fail_count == 0,
        after_ticks(WifiMonitor { count: 0, fail_count: 0 }, n).count < 8,
        tick_spec(after_ticks(WifiMonitor { count: 0, fail_count: 0 }, n)).1 is Wait,
    decreases n,
{
    if n > 0 {
        lemma_monitor_only_waits((n - 1) as nat);
    }
}

/// A list of at most 32 access point addresses.
pub type MacList = heapless::Vec<[u8; 6], 32>;

#[verifier::external_type_specification]
#[verifier::external_body]
#[verifier::reject_recursive_types(T)]
pub struct ExHeaplessVec<T, const N: usize>(heapless::Vec<T, N>);

/// The addresses a `MacList` holds, in order.
pub uninterp spec fn mac_list_items(list: heapless::Vec<[u8; 6], 32>) -> Seq<[u8; 6]>;

/// `heapless::Vec::new`: an empty list.
#[verifier::external_body]
fn mac_list_new() -> (r: MacList)
    ensures
        mac_list_items(r) == Seq::<[u8; 6]>::empty(),
{
    heapless::Vec::new()
}

/// `heapless::Vec::push`: the `heapless` crate appends `item` where fewer than 32
/// items are held and returns `Ok`, and otherwise leaves the list as it is
/// and hands `item` back in `Err`.
#[verifier::external_body]
fn mac_list_push(list: &mut MacList, item: [u8; 6]) -> (r: Result<(), [u8; 6]>)
    ensures
        mac_list_items(*old(list)).len() < 32 ==> r is Ok && mac_list_items(*final(list))
            == mac_list_items(*old(list)).push(item),
        mac_list_items(*old(list)).len() >= 32 ==> (r matches Err(x) && x == item)
            && mac_list_items(*final(list)) == mac_list_items(*old(list)),
{
    list.push(item)
}

/// The addresses of the access points a scan found, in the scan's order.
/// A scan reports at most 32 of them.
pub fn collect_bssids(scan: &Vec<[u8; 6]>) -> (r: MacList)
    requires
        scan.len() <= 32,
    ensures
        mac_list_items(r) == scan@,
{
    let mut list = mac_list_new();
    let mut i: usize = 0;
    while i < scan.len()
        invariant
            i <= scan.len(),
            scan.len() <= 32,
            mac_list_items(list) == scan@.subrange(0, i as int),
        decreases scan.len() - i,
    {
        let r = mac_list_push(&mut list, scan[i]);
        assert(scan@.subrange(0, i + 1) =~= scan@.subrange(0, i as int).push(scan@[i as int]));
        i = i + 1;
    }
    assert(scan@.subrange(0, scan.len() as int) =~= scan@);
    list
}

/// How long to wait, in milliseconds, from the instant `now_ms` (since the
/// epoch) to the next multiple of five seconds; a whole period when `now_ms`
/// is one.  Devices that wait so blink in step without talking to each
/// other.
pub fn ms_until_next_mark(now_ms: u128) -> (r: u64)
    ensures
        1 <= r <= 5000,
        (now_ms + r) % 5000 == 0,
        r == 5000 - now_ms % 5000,
{
    (5000 - now_ms % 5000) as u64
}

} // verus!
