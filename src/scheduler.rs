use vstd::prelude::*;
use std::collections::HashMap;
use crate::interest::{INTERRUPTED, Interest, OsError, Registration};

verus! {

broadcast use vstd::std_specs::hash::group_hash_axioms;

/// The state of one task slot.
#[derive(Clone, Copy, Debug, PartialEq, Eq, Structural)]
pub enum SlotState {
    /// No computation lives here; the slot is on the free list.
    Vacant,
    /// A computation lives here and has never been polled.
    Fresh,
    /// A computation lives here and has been polled at least once.
    Started,
}

/// How a task's poll ended.
#[derive(Clone, Copy, Debug, PartialEq, Eq, Structural)]
pub enum TaskPoll {
    /// The computation finished.
    Complete,
    /// The computation suspended and asked for this registration.
    Suspended(Registration),
}

/// What the caller must do to the multiplexer after a poll.
#[derive(Clone, Copy, Debug, PartialEq, Eq, Structural)]
pub enum Action {
    /// Leave the multiplexer as it is.
    Nothing,
    /// Start watching the registration's descriptor.
    Add(Registration),
    /// Change the interest of a registration in place.
    Modify(Registration),
}

/// What the caller must do after a wait on the multiplexer.
#[derive(Clone, Copy, Debug, PartialEq, Eq, Structural)]
pub enum WaitStep {
    /// Dispatch this many events, in the order given.
    Dispatch(usize),
    /// The wait was interrupted: wait again, dispatching nothing.
    Retry,
    /// The wait failed for good.
    Fatal(OsError),
}

/// Decides what follows a wait on the multiplexer, given its outcome.
pub fn after_wait(outcome: Result<usize, OsError>) -> (r: WaitStep)
    ensures
        outcome is Ok ==> r == WaitStep::Dispatch(outcome->Ok_0),
        outcome is Err && outcome->Err_0.code == INTERRUPTED ==> r == WaitStep::Retry,
        outcome is Err && outcome->Err_0.code != INTERRUPTED ==> r == WaitStep::Fatal(
            outcome->Err_0,
        ),
{
    match outcome {
        Ok(n) => WaitStep::Dispatch(n),
        Err(e) => {
            if e.code == INTERRUPTED {
                WaitStep::Retry
            } else {
                WaitStep::Fatal(e)
            }
        },
    }
}

proof fn lemma_push_unique(s: Seq<usize>, x: usize)
    requires
        s.no_duplicates(),
        !s.contains(x),
    ensures
        s.push(x).no_duplicates(),
{
    let t = s.push(x);
    assert forall|i: int, j: int| 0 <= i < t.len() && 0 <= j < t.len() && i != j implies t[i] != t[j] by {
        if i < s.len() && j < s.len() {
            assert(t[i] == s[i] && t[j] == s[j]);
        } else if i < s.len() {
            assert(t[i] == s[i] && s.contains(s[i]));
        } else if j < s.len() {
            assert(t[j] == s[j] && s.contains(s[j]));
        }
    }
}

proof fn lemma_drop_last_unique(s: Seq<usize>)
    requires
        s.no_duplicates(),
        s.len() > 0,
    ensures
        s.drop_last().no_duplicates(),
        !s.drop_last().contains(s.last()),
{
    let t = s.drop_last();
    assert forall|i: int, j: int| 0 <= i < t.len() && 0 <= j < t.len() && i != j implies t[i] != t[j] by {
        assert(t[i] == s[i] && t[j] == s[j]);
    }
    if t.contains(s.last()) {
        let k = choose|k: int| 0 <= k < t.len() && t[k] == s.last();
        assert(s[k] == s[s.len() - 1]);
    }
}

/// The scheduler's bookkeeping: the task arena's slot states, the free list,
/// the stack of never-polled tasks, and the descriptor registry.
pub struct Scheduler {
    slots: Vec<SlotState>,
    free: Vec<usize>,
    new_tasks: Vec<usize>,
    registry: HashMap<i32, (usize, Interest)>,
}

impl Scheduler {
    /// The state of each slot of the arena, by index.
    pub closed spec fn slots(&self) -> Seq<SlotState> {
        self.slots@
    }

    /// The recycled slot indices; the last is handed out first.
    pub closed spec fn free_list(&self) -> Seq<usize> {
        self.free@
    }

    /// The slots awaiting their first poll; the last is polled first.
    pub closed spec fn new_task_stack(&self) -> Seq<usize> {
        self.new_tasks@
    }

    /// Each watched descriptor, with the slot of the task waiting on it and
    /// the interest it is registered with.
    pub closed spec fn registry(&self) -> Map<i32, (usize, Interest)> {
        self.registry@
    }

    pub open spec fn has_slot(&self, slot: int) -> bool {
        0 <= slot < self.slots().len()
    }

    pub open spec fn state_of(&self, slot: int) -> SlotState {
        self.slots()[slot]
    }

    pub open spec fn is_vacant(&self, slot: int) -> bool {
        self.has_slot(slot) && self.state_of(slot) == SlotState::Vacant
    }

    pub open spec fn is_fresh(&self, slot: int) -> bool {
        self.has_slot(slot) && self.state_of(slot) == SlotState::Fresh
    }

    pub open spec fn is_live(&self, slot: int) -> bool {
        self.has_slot(slot) && self.state_of(slot) != SlotState::Vacant
    }

    /// Every free slot is vacant and listed once; every never-polled slot is
    /// fresh and listed once.
    pub open spec fn wf(&self) -> bool {
        &&& self.free_list().no_duplicates()
        &&& forall|i: int|
            #![trigger self.free_list()[i]]
            0 <= i < self.free_list().len() ==> self.is_vacant(self.free_list()[i] as int)
        &&& self.new_task_stack().no_duplicates()
        &&& forall|i: int|
            #![trigger self.new_task_stack()[i]]
            0 <= i < self.new_task_stack().len() ==> self.is_fresh(self.new_task_stack()[i] as int)
        &&& self.hash_model()
    }

    /// The descriptor registry's key type and hasher behave as a map.
    pub closed spec fn hash_model(&self) -> bool {
        vstd::std_specs::hash::obeys_key_model::<i32>()
            && vstd::std_specs::hash::builds_valid_hashers::<std::hash::RandomState>()
    }

    pub fn new() -> (r: Scheduler)
        ensures
            r.wf(),
            r.slots() == Seq::<SlotState>::empty(),
            r.free_list() == Seq::<usize>::empty(),
            r.new_task_stack() == Seq::<usize>::empty(),
            r.registry() == Map::<i32, (usize, Interest)>::empty(),
    {
        let r = Scheduler {
            slots: Vec::new(),
            free: Vec::new(),
            new_tasks: Vec::new(),
            registry: HashMap::new(),
        };
        assert(r.hash_model());
        r
    }

    /// Places a new computation: in the most recently freed slot if there is
    /// one, else in a new slot at the end of the arena. The slot was vacant
    /// or did not exist, and now awaits its first poll.
    pub fn spawn(&mut self) -> (r: usize)
        requires
            old(self).wf(),
            old(self).slots().len() < usize::MAX,
        ensures
            final(self).wf(),
            !old(self).is_live(r as int),
            final(self).has_slot(r as int),
            final(self).state_of(r as int) == SlotState::Fresh,
            old(self).free_list().len() > 0 ==> {
                &&& r == old(self).free_list().last()
                &&& final(self).free_list() == old(self).free_list().drop_last()
                &&& final(self).slots() == old(self).slots().update(r as int, SlotState::Fresh)
            },
            old(self).free_list().len() == 0 ==> {
                &&& r == old(self).slots().len()
                &&& final(self).free_list() == old(self).free_list()
                &&& final(self).slots() == old(self).slots().push(SlotState::Fresh)
            },
            final(self).new_task_stack() == old(self).new_task_stack().push(r),
            final(self).registry() == old(self).registry(),
    {
        let idx: usize;
        match self.free.pop() {
            Some(i) => {
                assert(old(self).free_list()[old(self).free_list().len() - 1] == i);
                assert(old(self).is_vacant(old(self).free_list()[old(self).free_list().len() - 1] as int));
                proof { lemma_drop_last_unique(old(self).free_list()); }
                assert(self.free_list() == old(self).free_list().drop_last());
                idx = i;
                self.slots.set(idx, SlotState::Fresh);
                proof {
                    assert forall|j: int| 0 <= j < self.free_list().len() implies self.free_list()[j] != idx by {
                        assert(old(self).free_list()[j] == self.free_list()[j]);
                    }
                }
            },
            None => {
                idx = self.slots.len();
                self.slots.push(SlotState::Fresh);
            },
        }
        assert(!self.new_tasks@.contains(idx)) by {
            if self.new_tasks@.contains(idx) {
                let j = choose|j: int| 0 <= j < self.new_tasks@.len() && self.new_tasks@[j] == idx;
                assert(old(self).is_fresh(old(self).new_task_stack()[j] as int));
            }
        }
        proof { lemma_push_unique(self.new_tasks@, idx); }
        self.new_tasks.push(idx);
        proof {
            assert forall|i: int| 0 <= i < self.free_list().len() implies self.is_vacant(self.free_list()[i] as int) by {
                    assert(old(self).free_list()[i] == self.free_list()[i]);
            }
            assert forall|i: int| 0 <= i < self.new_task_stack().len() implies self.is_fresh(self.new_task_stack()[i] as int) by {
                if i < old(self).new_task_stack().len() {
                    assert(old(self).is_fresh(old(self).new_task_stack()[i] as int));
                }
            }
        }
        idx
    }

    /// Takes the most recently spawned never-polled task, if any, and marks
    /// its slot as started: the caller polls it now.
    pub fn next_new_task(&mut self) -> (r: Option<usize>)
        requires
            old(self).wf(),
        ensures
            final(self).wf(),
            final(self).registry() == old(self).registry(),
            final(self).free_list() == old(self).free_list(),
            old(self).new_task_stack().len() == 0 ==> r is None && final(self).slots() == old(
                self,
            ).slots() && final(self).new_task_stack() == old(self).new_task_stack(),
            old(self).new_task_stack().len() > 0 ==> {
                &&& r == Some(old(self).new_task_stack().last())
                &&& old(self).has_slot(r->Some_0 as int)
                &&& old(self).state_of(r->Some_0 as int) == SlotState::Fresh
                &&& final(self).new_task_stack() == old(self).new_task_stack().drop_last()
                &&& final(self).slots() == old(self).slots().update(
                    r->Some_0 as int,
                    SlotState::Started,
                )
            },
    {
        match self.new_tasks.pop() {
            Some(idx) => {
                assert(old(self).new_task_stack()[old(self).new_task_stack().len() - 1] == idx);
                assert(old(self).is_fresh(old(self).new_task_stack()[old(self).new_task_stack().len() - 1] as int));
                proof { lemma_drop_last_unique(old(self).new_task_stack()); }
                assert(self.new_task_stack() == old(self).new_task_stack().drop_last());
                self.slots.set(idx, SlotState::Started);
                proof {
                    assert forall|i: int| 0 <= i < self.free_list().len() implies self.is_vacant(self.free_list()[i] as int) by {
                    assert(old(self).free_list()[i] == self.free_list()[i]);
                    }
                    assert forall|i: int| 0 <= i < self.new_task_stack().len() implies self.is_fresh(self.new_task_stack()[i] as int) by {
                        assert(old(self).new_task_stack()[i] == self.new_task_stack()[i]);
                        assert(old(self).is_fresh(old(self).new_task_stack()[i] as int));
                    }
                }
                Some(idx)
            },
            None => None,
        }
    }

    /// Returns a started slot whose computation finished to the free list.
    fn finish(&mut self, slot: usize)
        requires
            old(self).wf(),
            old(self).has_slot(slot as int),
            old(self).state_of(slot as int) == SlotState::Started,
        ensures
            final(self).wf(),
            final(self).slots() == old(self).slots().update(slot as int, SlotState::Vacant),
            final(self).free_list() == old(self).free_list().push(slot),
            final(self).new_task_stack() == old(self).new_task_stack(),
            final(self).registry() == old(self).registry(),
    {
        assert(!self.free@.contains(slot)) by {
            if self.free@.contains(slot) {
                let j = choose|j: int| 0 <= j < self.free@.len() && self.free@[j] == slot;
                assert(old(self).is_vacant(old(self).free_list()[j] as int));
            }
        }
        proof { lemma_push_unique(self.free@, slot); }
        self.slots.set(slot, SlotState::Vacant);
        self.free.push(slot);
        proof {
            assert forall|i: int| 0 <= i < self.free_list().len() implies self.is_vacant(self.free_list()[i] as int) by {
                if i < old(self).free_list().len() {
                    assert(old(self).free_list()[i] == self.free_list()[i]);
                    assert(old(self).is_vacant(old(self).free_list()[i] as int));
                }
            }
            assert forall|i: int| 0 <= i < self.new_task_stack().len() implies self.is_fresh(self.new_task_stack()[i] as int) by {
                assert(old(self).is_fresh(old(self).new_task_stack()[i] as int));
            }
        }
    }

    /// Records the outcome of a task's first poll. A finished task's slot
    /// goes to the free list; a suspended task is entered in the registry
    /// under the descriptor it asked for, and the caller adds that
    /// registration to the multiplexer.
    pub fn after_first_poll(&mut self, slot: usize, outcome: TaskPoll) -> (r: Action)
        requires
            old(self).wf(),
            old(self).has_slot(slot as int),
            old(self).state_of(slot as int) == SlotState::Started,
        ensures
            final(self).wf(),
            final(self).new_task_stack() == old(self).new_task_stack(),
            outcome == TaskPoll::Complete ==> {
                &&& r == Action::Nothing
                &&& final(self).slots() == old(self).slots().update(slot as int, SlotState::Vacant)
                &&& final(self).free_list() == old(self).free_list().push(slot)
                &&& final(self).registry() == old(self).registry()
            },
            outcome is Suspended ==> {
                let reg = outcome->Suspended_0;
                &&& r == Action::Add(reg)
                &&& final(self).slots() == old(self).slots()
                &&& final(self).free_list() == old(self).free_list()
                &&& final(self).registry() == old(self).registry().insert(
                    reg.fd,
                    (slot, reg.interest),
                )
            },
    {
        match outcome {
            TaskPoll::Complete => {
                self.finish(slot);
                Action::Nothing
            },
            TaskPoll::Suspended(reg) => {
                self.registry.insert(reg.fd, (slot, reg.interest));
                Action::Add(reg)
            },
        }
    }

    /// The started task that waits on `fd`, if the registry names one. An
    /// entry whose task has finished, or whose slot now holds a task not yet
    /// polled, wakes nothing.
    pub fn task_for(&self, fd: i32) -> (r: Option<(usize, Interest)>)
        requires
            self.wf(),
        ensures
            r is Some <==> self.registry().contains_key(fd) && self.has_slot(
                self.registry()[fd].0 as int,
            ) && self.state_of(self.registry()[fd].0 as int) == SlotState::Started,
            r is Some ==> r->Some_0 == self.registry()[fd],
    {
        match self.registry.get(&fd) {
            Some(entry) => {
                let (slot, interest) = *entry;
                if slot < self.slots.len() && self.slots[slot] == SlotState::Started {
                    Some((slot, interest))
                } else {
                    None
                }
            },
            None => None,
        }
    }

    /// Records the outcome of polling the task in `slot`, which an event on
    /// `fd` woke while registered with `old_interest` (as `task_for` gave
    /// them before the poll). A finished task's slot goes to the free list
    /// and the registry is left as it is. A task that suspended again on
    /// another descriptor is entered under that descriptor, and the caller
    /// adds the registration; the entry for `fd` stays. On the same
    /// descriptor with other interest, the entry's interest changes and the
    /// caller modifies the registration; with the same interest nothing
    /// changes.
    pub fn after_wake_poll(
        &mut self,
        fd: i32,
        slot: usize,
        old_interest: Interest,
        outcome: TaskPoll,
    ) -> (r: Action)
        requires
            old(self).wf(),
            old(self).has_slot(slot as int),
            old(self).state_of(slot as int) == SlotState::Started,
        ensures
            final(self).wf(),
            final(self).new_task_stack() == old(self).new_task_stack(),
            outcome == TaskPoll::Complete ==> {
                &&& r == Action::Nothing
                &&& final(self).slots() == old(self).slots().update(slot as int, SlotState::Vacant)
                &&& final(self).free_list() == old(self).free_list().push(slot)
                &&& final(self).registry() == old(self).registry()
            },
            outcome is Suspended ==> {
                let reg = outcome->Suspended_0;
                &&& final(self).slots() == old(self).slots()
                &&& final(self).free_list() == old(self).free_list()
                &&& reg.fd != fd ==> r == Action::Add(reg) && final(self).registry() == old(
                    self,
                ).registry().insert(reg.fd, (slot, reg.interest))
                &&& reg.fd == fd && reg.interest != old_interest ==> r == Action::Modify(reg)
                    && final(self).registry() == old(self).registry().insert(
                    fd,
                    (slot, reg.interest),
                )
                &&& reg.fd == fd && reg.interest == old_interest ==> r == Action::Nothing
                    && final(self).registry() == old(self).registry()
                // the registry then holds what the task has just asked for
                &&& old(self).registry().contains_key(fd) && old(self).registry()[fd] == (
                    slot,
                    old_interest,
                ) ==> final(self).registry().contains_key(reg.fd) && final(self).registry()[reg.fd]
                    == (slot, reg.interest)
            },
    {
        match outcome {
            TaskPoll::Complete => {
                self.finish(slot);
                Action::Nothing
            },
            TaskPoll::Suspended(reg) => {
                if reg.fd != fd {
                    self.registry.insert(reg.fd, (slot, reg.interest));
                    Action::Add(reg)
                } else if reg.interest != old_interest {
                    self.registry.insert(fd, (slot, reg.interest));
                    Action::Modify(reg)
                } else {
                    Action::Nothing
                }
            },
        }
    }

    /// Forgets the registry entry of a descriptor that is being closed.
    pub fn release(&mut self, fd: i32)
        requires
            old(self).wf(),
        ensures
            final(self).wf(),
            final(self).registry() == old(self).registry().remove(fd),
            final(self).slots() == old(self).slots(),
            final(self).free_list() == old(self).free_list(),
            final(self).new_task_stack() == old(self).new_task_stack(),
    {
        self.registry.remove(&fd);
    }
}

/// Slot reuse is sound: a slot on the free list holds no computation, and
/// appears there only once, so handing it out again never puts two live
/// computations in one slot.
pub proof fn lemma_free_slots_hold_nothing(s: Scheduler)
    requires
        s.wf(),
    ensures
        s.free_list().no_duplicates(),
        forall|i: int|
            0 <= i < s.free_list().len() ==> !s.is_live(#[trigger] s.free_list()[i] as int)
                && s.has_slot(s.free_list()[i] as int),
{
}

} // verus!
