use vstd::prelude::*;
use crate::config::SerialDeviceConfig;
use crate::text::str_eq;

verus! {

/// Why an outbound send was refused.
#[derive(Debug, Clone, PartialEq, Eq)]
pub enum SendError {
    /// The device is not in the running set: never started, failed to open,
    /// or already stopped — the manager does not distinguish these after the
    /// fact.
    DeviceNotRunning,
    /// The write on the port failed, with the I/O error's description.
    WriteError(String),
}

/// One running device: its id and the live handle the caller uses to signal
/// cancellation and to write to the port.
pub struct RunningEntry<H> {
    pub device_id: String,
    pub handle: H,
}

/// The handles of the entries, in order.
pub open spec fn entry_handles<H>(s: Seq<RunningEntry<H>>) -> Seq<H> {
    s.map_values(|e: RunningEntry<H>| e.handle)
}

/// The running set: which devices are live, and the handle each send is
/// routed to. The handle type is the caller's own; it bundles whatever the
/// transport needs (a shared cancellation flag, a write port). This type
/// decides membership and routing; the caller performs the port I/O, spawns
/// the read threads, and serializes concurrent use behind one lock.
pub struct SerialManager<H> {
    entries: Vec<RunningEntry<H>>,
}

impl<H> SerialManager<H> {
    /// The running entries, in insertion order.
    pub closed spec fn entries_seq(self) -> Seq<RunningEntry<H>> {
        self.entries@
    }

    /// The device with this id is running.
    pub open spec fn spec_running(self, id: Seq<char>) -> bool {
        exists|i: int|
            0 <= i < self.entries_seq().len() && (#[trigger] self.entries_seq()[i]).device_id@
                == id
    }

    /// At most one entry per device id.
    pub open spec fn wf(self) -> bool {
        forall|i: int, j: int|
            0 <= i < j < self.entries_seq().len() ==> (#[trigger] self.entries_seq()[i]).device_id@
                != (#[trigger] self.entries_seq()[j]).device_id@
    }

    /// An empty running set: the manager's initial state.
    pub fn new() -> (m: SerialManager<H>)
        ensures
            m.entries_seq() == Seq::<RunningEntry<H>>::empty(),
            m.wf(),
    {
        SerialManager { entries: Vec::new() }
    }

    /// How many devices are running.
    pub fn running_count(&self) -> (n: usize)
        ensures
            n == self.entries_seq().len(),
    {
        self.entries.len()
    }

    /// Index of the entry with this id, if any.
    fn find_index(&self, device_id: &str) -> (r: Option<usize>)
        ensures
            match r {
                Some(i) => i < self.entries_seq().len() && self.entries_seq()[
                    i as int
                ].device_id@ == device_id@,
                None => !self.spec_running(device_id@),
            },
    {
        let n = self.entries.len();
        for i in 0..n
            invariant
                n == self.entries_seq().len(),
                forall|j: int|
                    0 <= j < i ==> (#[trigger] self.entries_seq()[j]).device_id@ != device_id@,
        {
            if str_eq(self.entries[i].device_id.as_str(), device_id) {
                return Some(i);
            }
        }
        None
    }

    /// Whether the device with this id is currently tracked.
    pub fn is_running(&self, device_id: &str) -> (b: bool)
        ensures
            b == self.spec_running(device_id@),
    {
        self.find_index(device_id).is_some()
    }

    /// The start decision for one configured device: spawn it only when it is
    /// enabled and not already running. A device already running is left
    /// untouched, which makes starting the fleet idempotent and safe to use
    /// as a "start any stopped ones" operation.
    pub fn should_start(&self, dev: &SerialDeviceConfig) -> (b: bool)
        ensures
            b == (dev.enabled && !self.spec_running(dev.device_id@)),
    {
        dev.enabled && !self.is_running(dev.device_id.as_str())
    }

    /// Tracks a freshly spawned device, unless its id is already running: the
    /// running set never holds two handles for one id. Called after the port
    /// opened; opening happens before this, never under the caller's lock.
    pub fn register(&mut self, device_id: &str, handle: H) -> (inserted: bool)
        requires
            old(self).wf(),
        ensures
            final(self).wf(),
            inserted == !old(self).spec_running(device_id@),
            !inserted ==> final(self).entries_seq() == old(self).entries_seq(),
            inserted ==> {
                &&& final(self).entries_seq().len() == old(self).entries_seq().len() + 1
                &&& final(self).entries_seq().take(old(self).entries_seq().len() as int) == old(
                    self,
                ).entries_seq()
                &&& final(self).entries_seq().last().device_id@ == device_id@
                &&& final(self).entries_seq().last().handle == handle
            },
            final(self).spec_running(device_id@),
    {
        if self.is_running(device_id) {
            return false;
        }
        let ghost pre: Seq<RunningEntry<H>> = self.entries@;
        self.entries.push(RunningEntry { device_id: device_id.to_owned(), handle });
        proof {
            assert(self.entries@.take(pre.len() as int) =~= pre);
            assert(self.entries@.last().device_id@ == device_id@);
            assert forall|i: int, j: int|
                0 <= i < j < self.entries@.len() implies (#[trigger] self.entries@[i]).device_id@
                != (#[trigger] self.entries@[j]).device_id@ by {
                assert(self.entries@[i] == pre[i]);
                if j == self.entries@.len() - 1 {
                    assert(self.entries@[j].device_id@ == device_id@);
                    if pre[i].device_id@ == device_id@ {
                        assert(old(self).entries_seq()[i].device_id@ == device_id@);
                        assert(old(self).spec_running(device_id@));
                    }
                } else {
                    assert(self.entries@[j] == pre[j]);
                    assert((old(self).entries_seq()[i]).device_id@ != (old(
                        self,
                    ).entries_seq()[j]).device_id@);
                }
            }
        }
        true
    }

    /// Removes every running device at once and returns their handles in
    /// insertion order; the caller signals cancellation on each. The manager
    /// routes nothing afterwards; the read threads observe their flags and
    /// exit on their own schedule, so a caller that needs quiescence waits a
    /// grace period of its choosing.
    pub fn stop_all(&mut self) -> (handles: Vec<H>)
        ensures
            final(self).entries_seq() == Seq::<RunningEntry<H>>::empty(),
            final(self).wf(),
            handles@ == entry_handles(old(self).entries_seq()),
    {
        let mut drained: Vec<RunningEntry<H>> = Vec::new();
        core::mem::swap(&mut drained, &mut self.entries);
        let ghost orig: Seq<RunningEntry<H>> = drained@;
        let mut handles: Vec<H> = Vec::new();
        proof {
            assert(handles@ + entry_handles(drained@) =~= entry_handles(orig));
        }
        while drained.len() > 0
            invariant
                handles@ + entry_handles(drained@) == entry_handles(orig),
            decreases drained.len(),
        {
            let ghost pre_handles: Seq<H> = handles@;
            let ghost pre_drained: Seq<RunningEntry<H>> = drained@;
            let e = drained.remove(0);
            handles.push(e.handle);
            proof {
                assert(entry_handles(pre_drained)[0] == e.handle);
                assert(entry_handles(pre_drained).skip(1) =~= entry_handles(drained@));
                assert(handles@ + entry_handles(drained@) =~= pre_handles + entry_handles(
                    pre_drained,
                ));
            }
        }
        proof {
            assert(self.entries@ =~= Seq::<RunningEntry<H>>::empty());
            assert(entry_handles(drained@) =~= Seq::<H>::empty());
            assert(handles@ =~= handles@ + entry_handles(drained@));
        }
        handles
    }

    /// Resolves the routing of an outbound send: the handle of the running
    /// device with this id, or `DeviceNotRunning` when there is none — never
    /// started, failed to open, or already stopped, all alike. The caller
    /// performs the write under the handle's own lock, never touching the
    /// read side, and maps an I/O failure to `WriteError`.
    pub fn send_to_device(&self, device_id: &str) -> (r: Result<&H, SendError>)
        ensures
            match r {
                Ok(h) => exists|i: int|
                    {
                        &&& 0 <= i < self.entries_seq().len()
                        &&& (#[trigger] self.entries_seq()[i]).device_id@ == device_id@
                        &&& *h == self.entries_seq()[i].handle
                    },
                Err(e) => !self.spec_running(device_id@) && e == SendError::DeviceNotRunning,
            },
    {
        match self.find_index(device_id) {
            Some(i) => Ok(&self.entries[i].handle),
            None => Err(SendError::DeviceNotRunning),
        }
    }
}

/// A well-formed running set never holds two handles for one device id: any
/// two entries that share an id are the same entry. Together with `register`,
/// which declines an id that is already running, starting the fleet twice
/// can never yield a duplicate handle.
pub proof fn lemma_at_most_one_entry<H>(m: SerialManager<H>, i: int, j: int)
    requires
        m.wf(),
        0 <= i < m.entries_seq().len(),
        0 <= j < m.entries_seq().len(),
        m.entries_seq()[i].device_id@ == m.entries_seq()[j].device_id@,
    ensures
        i == j,
{
}

/// An emptied running set routes nothing: after `stop_all`, a send for any
/// id — previously running or never started alike — finds the device absent
/// and is refused with `DeviceNotRunning`.
pub proof fn lemma_empty_set_runs_nothing<H>(m: SerialManager<H>, id: Seq<char>)
    requires
        m.entries_seq().len() == 0,
    ensures
        !m.spec_running(id),
{
}

} // verus!
