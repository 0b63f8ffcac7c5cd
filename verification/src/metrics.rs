use vstd::prelude::*;

verus! {

/// The capacity of one disk, in bytes.
#[derive(Debug, Clone, Copy, PartialEq, Eq, Structural)]
pub struct DiskSpace {
    pub total_bytes: u64,
    pub available_bytes: u64,
}

/// The bytes a network interface received and sent since the last refresh.
#[derive(Debug, Clone, Copy, PartialEq, Eq, Structural)]
pub struct InterfaceTraffic {
    pub received_bytes: u64,
    pub transmitted_bytes: u64,
}

/// The sum of the numbers.
pub open spec fn sum(values: Seq<u64>) -> int
    decreases values.len(),
{
    if values.len() == 0 {
        0
    } else {
        sum(values.drop_last()) + values.last()
    }
}

/// `v`, or `u64::MAX` when it does not fit: what a run of saturating
/// additions of non-negative numbers ends at.
pub open spec fn saturate(v: int) -> u64 {
    if v > u64::MAX {
        u64::MAX
    } else {
        v as u64
    }
}

/// `a - b`, or 0 when `b` is the larger.
pub open spec fn saturating_difference(a: u64, b: u64) -> u64 {
    if a >= b {
        (a - b) as u64
    } else {
        0
    }
}

/// The total capacities of the disks.
pub open spec fn disk_totals(disks: Seq<DiskSpace>) -> Seq<u64> {
    disks.map_values(|d: DiskSpace| d.total_bytes)
}

/// The available capacities of the disks.
pub open spec fn disk_available(disks: Seq<DiskSpace>) -> Seq<u64> {
    disks.map_values(|d: DiskSpace| d.available_bytes)
}

/// Adding a further number to a saturated sum saturates the longer sum.
proof fn lemma_saturate_step(prefix: Seq<u64>, x: u64)
    ensures
        saturate(saturate(sum(prefix)) + x) == saturate(sum(prefix.push(x))),
{
    assert(prefix.push(x).drop_last() =~= prefix);
    lemma_sum_nonnegative(prefix);
}

/// A sum of unsigned numbers is not negative.
proof fn lemma_sum_nonnegative(values: Seq<u64>)
    ensures
        sum(values) >= 0,
    decreases values.len(),
{
    if values.len() > 0 {
        lemma_sum_nonnegative(values.drop_last());
    }
}

/// The capacity of all disks together and the part of it in use, each
/// summed with saturation at `u64::MAX`; the used part is the total less the
/// available space, or 0 when the available space exceeds the total.
pub fn storage_totals(disks: &Vec<DiskSpace>) -> (totals: (u64, u64))
    ensures
        totals.0 == saturate(sum(disk_totals(disks@))),
        totals.1 == saturating_difference(totals.0, saturate(sum(disk_available(disks@)))),
{
    let mut total: u64 = 0;
    let mut available: u64 = 0;
    let mut i: usize = 0;
    while i < disks.len()
        invariant
            0 <= i <= disks@.len(),
            total == saturate(sum(disk_totals(disks@.subrange(0, i as int)))),
            available == saturate(sum(disk_available(disks@.subrange(0, i as int)))),
        decreases disks@.len() - i,
    {
        let disk = disks[i];
        proof {
            let before = disks@.subrange(0, i as int);
            let after = disks@.subrange(0, i + 1);
            assert(disk_totals(after) =~= disk_totals(before).push(disk.total_bytes));
            assert(disk_available(after) =~= disk_available(before).push(disk.available_bytes));
            lemma_saturate_step(disk_totals(before), disk.total_bytes);
            lemma_saturate_step(disk_available(before), disk.available_bytes);
        }
        total = total.saturating_add(disk.total_bytes);
        available = available.saturating_add(disk.available_bytes);
        i = i + 1;
    }
    proof {
        assert(disks@.subrange(0, disks@.len() as int) =~= disks@);
    }
    (total, total.saturating_sub(available))
}

/// The bytes received by the interfaces.
pub open spec fn received(interfaces: Seq<InterfaceTraffic>) -> Seq<u64> {
    interfaces.map_values(|t: InterfaceTraffic| t.received_bytes)
}

/// The bytes sent by the interfaces.
pub open spec fn transmitted(interfaces: Seq<InterfaceTraffic>) -> Seq<u64> {
    interfaces.map_values(|t: InterfaceTraffic| t.transmitted_bytes)
}

/// The bytes received and sent by all interfaces together, each summed with
/// saturation at `u64::MAX`.
pub fn traffic_totals(interfaces: &Vec<InterfaceTraffic>) -> (totals: (u64, u64))
    ensures
        totals.0 == saturate(sum(received(interfaces@))),
        totals.1 == saturate(sum(transmitted(interfaces@))),
{
    let mut rx: u64 = 0;
    let mut tx: u64 = 0;
    let mut i: usize = 0;
    while i < interfaces.len()
        invariant
            0 <= i <= interfaces@.len(),
            rx == saturate(sum(received(interfaces@.subrange(0, i as int)))),
            tx == saturate(sum(transmitted(interfaces@.subrange(0, i as int)))),
        decreases interfaces@.len() - i,
    {
        let traffic = interfaces[i];
        proof {
            let before = interfaces@.subrange(0, i as int);
            let after = interfaces@.subrange(0, i + 1);
            assert(received(after) =~= received(before).push(traffic.received_bytes));
            assert(transmitted(after) =~= transmitted(before).push(traffic.transmitted_bytes));
            lemma_saturate_step(received(before), traffic.received_bytes);
            lemma_saturate_step(transmitted(before), traffic.transmitted_bytes);
        }
        rx = rx.saturating_add(traffic.received_bytes);
        tx = tx.saturating_add(traffic.transmitted_bytes);
        i = i + 1;
    }
    proof {
        assert(interfaces@.subrange(0, interfaces@.len() as int) =~= interfaces@);
    }
    (rx, tx)
}

/// The used disk space never exceeds the total.
pub proof fn lemma_used_within_total(total: u64, available: u64)
    ensures
        saturating_difference(total, available) <= total,
{
}

} // verus!
