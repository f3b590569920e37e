use vstd::prelude::*;
use crate::model::{at_index, children_flat, ActionInstance, Context, ContextView};

verus! {

/// One button slot of a loaded profile and what is bound to it.
#[derive(Debug)]
pub struct Slot {
    pub context: Context,
    pub instance: Option<ActionInstance>,
}

/// The profile currently selected on a device.
#[derive(Debug, Clone)]
pub struct Selection {
    pub device: String,
    pub profile: String,
}

/// Why a context could not be resolved.
#[derive(Debug, Clone, Copy, PartialEq, Eq, Structural)]
pub enum StoreError {
    DeviceUnknown,
    ProfileNotLoaded,
    InstanceNotFound,
}

/// The selected profile of each device and the slots of every loaded profile.
#[derive(Debug)]
pub struct ProfileStore {
    pub selections: Vec<Selection>,
    pub slots: Vec<Slot>,
}

/// Whether slot `i` of `slots` is the slot `c`.
pub open spec fn slot_is(slots: Seq<Slot>, i: int, c: ContextView) -> bool {
    0 <= i < slots.len() && slots[i].context@ == c
}

/// Whether some slot of `slots` is the slot `c`.
pub open spec fn has_slot(slots: Seq<Slot>, c: ContextView) -> bool {
    exists|i: int| slot_is(slots, i, c)
}

/// What a slot at `c` may hold: nothing, or an instance at index 0 of `c`
/// whose children carry no children.
pub open spec fn slot_wf(c: ContextView, o: Option<ActionInstance>) -> bool {
    o is Some ==> o.unwrap().context@ == at_index(c, 0) && children_flat(o.unwrap())
        && state_in_bounds(o.unwrap())
}

/// The current state of `i` indexes its states or its children (0 where it
/// has neither).
pub open spec fn state_in_bounds(i: ActionInstance) -> bool {
    let n = if i.children is Some {
        i.children.unwrap()@.len()
    } else {
        0
    };
    (i.current_state as int) < i.states@.len() || (i.current_state as int) < n
        || i.current_state == 0
}

/// Whether the current state of `i` indexes its states or its children.
pub fn is_in_bounds(i: &ActionInstance) -> (r: bool)
    ensures
        r == state_in_bounds(*i),
{
    let n: usize = match &i.children {
        None => 0,
        Some(c) => c.len(),
    };
    (i.current_state as usize) < i.states.len() || (i.current_state as usize) < n
        || i.current_state == 0
}

/// Whether a slot at `context` may hold `instance`.
pub fn fits_slot(context: &Context, instance: &Option<ActionInstance>) -> (r: bool)
    ensures
        r == slot_wf(context@, *instance),
{
    match instance {
        None => true,
        Some(i) => {
            if !is_in_bounds(i) {
                return false;
            }
            let c = &i.context;
            if !(c.device == context.device && c.profile == context.profile && c.controller
                == context.controller && c.position == context.position && c.index == 0) {
                return false;
            }
            match &i.children {
                None => true,
                Some(cs) => {
                    let mut k: usize = 0;
                    while k < cs.len()
                        invariant
                            *instance == Some(*i),
                            i.children == Some(*cs),
                            k <= cs@.len(),
                            forall|j: int| 0 <= j < k ==> (#[trigger] cs@[j]).children is None,
                        decreases cs@.len() - k,
                    {
                        if cs[k].children.is_some() {
                            assert(cs@[k as int].children is Some);
                            return false;
                        }
                        k = k + 1;
                    }
                    true
                },
            }
        },
    }
}

impl ProfileStore {
    /// No two slots share a context, no two selections a device, and every
    /// slot holds what it may.
    pub open spec fn wf(&self) -> bool {
        &&& forall|i: int|
            0 <= i < self.slots@.len() ==> slot_wf(
                (#[trigger] self.slots@[i]).context@,
                self.slots@[i].instance,
            )
        &&& forall|i: int, j: int|
            0 <= i < self.slots@.len() && 0 <= j < self.slots@.len() && i != j
                ==> (#[trigger] self.slots@[i]).context@ != (#[trigger] self.slots@[j]).context@
        &&& forall|i: int, j: int|
            0 <= i < self.selections@.len() && 0 <= j < self.selections@.len() && i != j
                ==> (#[trigger] self.selections@[i]).device@
                != (#[trigger] self.selections@[j]).device@
    }

    /// The position of slot `context`, or `ProfileNotLoaded` where no loaded
    /// profile holds it.
    pub fn find_slot(&self, context: &Context) -> (r: Result<usize, StoreError>)
        ensures
            match r {
                Ok(i) => slot_is(self.slots@, i as int, context@),
                Err(e) => e == StoreError::ProfileNotLoaded && !has_slot(self.slots@, context@),
            },
    {
        let mut i: usize = 0;
        while i < self.slots.len()
            invariant
                i <= self.slots@.len(),
                forall|k: int| 0 <= k < i ==> !slot_is(self.slots@, k, context@),
            decreases self.slots@.len() - i,
        {
            let c = &self.slots[i].context;
            if c.device == context.device && c.profile == context.profile && c.controller
                == context.controller && c.position == context.position {
                return Ok(i);
            }
            i = i + 1;
        }
        Err(StoreError::ProfileNotLoaded)
    }

    /// The profile selected on `device`, or `DeviceUnknown`.
    pub fn get_selected_profile(&self, device: &String) -> (r: Result<String, StoreError>)
        ensures
            match r {
                Ok(p) => exists|i: int|
                    0 <= i < self.selections@.len() && self.selections@[i].device@ == device@
                        && self.selections@[i].profile@ == p@,
                Err(e) => e == StoreError::DeviceUnknown && forall|i: int|
                    0 <= i < self.selections@.len() ==> self.selections@[i].device@ != device@,
            },
    {
        let mut i: usize = 0;
        while i < self.selections.len()
            invariant
                i <= self.selections@.len(),
                forall|k: int| 0 <= k < i ==> self.selections@[k].device@ != device@,
            decreases self.selections@.len() - i,
        {
            if self.selections[i].device == *device {
                return Ok(self.selections[i].profile.clone());
            }
            i = i + 1;
        }
        Err(StoreError::DeviceUnknown)
    }

    /// A store with no device and no loaded profile.
    pub fn new() -> (r: ProfileStore)
        ensures
            r.wf(),
            r.selections@.len() == 0,
            r.slots@.len() == 0,
    {
        ProfileStore { selections: Vec::new(), slots: Vec::new() }
    }

    /// Adds a slot at `context` holding `instance`, unless one is there
    /// already or the slot may not hold it. Returns whether it was added.
    pub fn add_slot(&mut self, context: Context, instance: Option<ActionInstance>) -> (r: bool)
        requires
            old(self).wf(),
        ensures
            final(self).wf(),
            final(self).selections == old(self).selections,
            r == (!has_slot(old(self).slots@, context@) && slot_wf(context@, instance)),
            r ==> final(self).slots@ == old(self).slots@.push(Slot { context, instance }),
            !r ==> *final(self) == *old(self),
    {
        if !fits_slot(&context, &instance) {
            return false;
        }
        match self.find_slot(&context) {
            Ok(_) => false,
            Err(_) => {
                let ghost before = self.slots@;
                let ghost c = context@;
                self.slots.push(Slot { context, instance });
                assert forall|i: int| 0 <= i < before.len() implies #[trigger] before[i].context@ != c by {
                    assert(!slot_is(before, i, c));
                }
                true
            },
        }
    }

    /// Makes `profile` the selected profile of `device`.
    pub fn select_profile(&mut self, device: String, profile: String)
        requires
            old(self).wf(),
        ensures
            final(self).wf(),
            final(self).slots == old(self).slots,
            exists|s: int|
                0 <= s < final(self).selections@.len() && final(self).selections@[s].device@
                    == device@ && final(self).selections@[s].profile@ == profile@,
            forall|s: int|
                0 <= s < final(self).selections@.len() && final(self).selections@[s].device@
                    != device@ ==> old(self).selections@.contains(final(self).selections@[s]),
    {
        let mut s: usize = 0;
        while s < self.selections.len()
            invariant
                *self == *old(self),
                old(self).wf(),
                s <= self.selections@.len(),
                forall|k: int| 0 <= k < s ==> #[trigger] self.selections@[k].device@ != device@,
            decreases self.selections@.len() - s,
        {
            if self.selections[s].device == device {
                self.selections[s].profile = profile;
                assert forall|k: int| 0 <= k < self.selections@.len() implies #[trigger] self.selections@[k].device@
                    == old(self).selections@[k].device@ by {}
                assert forall|i: int, j: int|
                    0 <= i < self.selections@.len() && 0 <= j < self.selections@.len() && i != j
                        implies (#[trigger] self.selections@[i]).device@
                        != (#[trigger] self.selections@[j]).device@ by {
                    assert(old(self).selections@[i].device@ != old(self).selections@[j].device@);
                }
                assert(self.selections@[s as int].device@ == device@);
                assert forall|k: int|
                    0 <= k < self.selections@.len() && self.selections@[k].device@ != device@
                        implies old(self).selections@.contains(self.selections@[k]) by {
                    assert(k != s);
                    assert(old(self).selections@[k] == self.selections@[k]);
                }
                return;
            }
            s = s + 1;
        }
        self.selections.push(Selection { device, profile });
        assert(self.selections@[s as int].device@ == device@);
        assert forall|k: int|
            0 <= k < self.selections@.len() && self.selections@[k].device@ != device@
                implies old(self).selections@.contains(self.selections@[k]) by {
            assert(old(self).selections@[k] == self.selections@[k]);
        }
    }

    /// Takes the instance out of slot `i`, leaving it empty.
    pub fn take_slot(&mut self, i: usize) -> (r: Option<ActionInstance>)
        requires
            i < old(self).slots@.len(),
        ensures
            r == old(self).slots@[i as int].instance,
            final(self).selections == old(self).selections,
            final(self).slots@.len() == old(self).slots@.len(),
            final(self).slots@[i as int].context == old(self).slots@[i as int].context,
            final(self).slots@[i as int].instance is None,
            forall|j: int| 0 <= j < old(self).slots@.len() && j != i ==> final(self).slots@[j]
                == old(self).slots@[j],
    {
        let mut out: Option<ActionInstance> = None;
        std::mem::swap(&mut out, &mut self.slots[i].instance);
        out
    }

    /// Puts `value` into slot `i`, which it returns to the caller.
    pub fn put_slot(&mut self, i: usize, value: Option<ActionInstance>)
        requires
            i < old(self).slots@.len(),
        ensures
            final(self).selections == old(self).selections,
            final(self).slots@.len() == old(self).slots@.len(),
            final(self).slots@[i as int].context == old(self).slots@[i as int].context,
            final(self).slots@[i as int].instance == value,
            forall|j: int| 0 <= j < old(self).slots@.len() && j != i ==> final(self).slots@[j]
                == old(self).slots@[j],
    {
        self.slots[i].instance = value;
    }
}

} // verus!
