use vstd::prelude::*;
use crate::effect::{saves, updates, Effect, KeyEvent, Outcome};
use crate::instances::{action_kind, kind_of, ActionKind};
use crate::model::{ActionInstance, Context, ContextView, KEYPAD};
use crate::store::{slot_is, ProfileStore, StoreError};

verus! {

/// The pause, in milliseconds, before and after each child's key-up in a
/// multi-action.
pub const MULTI_ACTION_PAUSE_MS: u64 = 100;

/// How long, in milliseconds, a double-tap window stays open.
pub const DOUBLE_TAP_WINDOW_MS: u64 = 200;

/// The presses counted so far in the open double-tap window of a key.
#[derive(Debug, Clone)]
pub struct TapCounter {
    pub device: String,
    pub key: u8,
    pub count: u8,
}

/// The open double-tap windows.
#[derive(Debug, Clone)]
pub struct TapCounters {
    pub entries: Vec<TapCounter>,
}

/// The count of the open window of `key` on `device`: that of the last entry
/// for it.
pub open spec fn counter(s: Seq<TapCounter>, device: Seq<char>, key: u8) -> Option<u8>
    decreases s.len(),
{
    if s.len() == 0 {
        None
    } else if s.last().device@ == device && s.last().key == key {
        Some(s.last().count)
    } else {
        counter(s.drop_last(), device, key)
    }
}

/// The count after one more press.
pub open spec fn bumped(c: Option<u8>) -> u8 {
    match c {
        None => 1,
        Some(n) => if n == u8::MAX {
            n
        } else {
            (n + 1) as u8
        },
    }
}

/// The child a closed window dispatches to: 0 for one press, 1 for more.
pub open spec fn tap_target(count: u8) -> int {
    if count == 1 {
        0
    } else {
        1
    }
}

impl TapCounters {
    pub fn new() -> (r: TapCounters)
        ensures
            r.entries@.len() == 0,
    {
        TapCounters { entries: Vec::new() }
    }

    /// Closes the window of `key` on `device`, returning its count.
    pub fn close(&mut self, device: &String, key: u8) -> (r: Option<u8>)
        ensures
            r == counter(old(self).entries@, device@, key),
            counter(final(self).entries@, device@, key) is None,
            forall|d: Seq<char>, k: u8|
                !(d == device@ && k == key) ==> #[trigger] counter(final(self).entries@, d, k) == counter(old(self).entries@, d, k),
    {
        let mut out: Vec<TapCounter> = Vec::new();
        let mut found: Option<u8> = None;
        let mut i: usize = 0;
        while i < self.entries.len()
            invariant
                i <= self.entries@.len(),
                found == counter(self.entries@.subrange(0, i as int), device@, key),
                counter(out@, device@, key) is None,
                forall|d: Seq<char>, k: u8|
                    !(d == device@ && k == key) ==> #[trigger] counter(out@, d, k) == counter(
                        self.entries@.subrange(0, i as int),
                        d,
                        k,
                    ),
            decreases self.entries@.len() - i,
        {
            let e = &self.entries[i];
            let ghost pre = self.entries@.subrange(0, i as int);
            let ghost before = out@;
            assert(self.entries@.subrange(0, i + 1).drop_last() =~= pre);
            if e.device == *device && e.key == key {
                found = Some(e.count);
            } else {
                out.push(TapCounter { device: e.device.clone(), key: e.key, count: e.count });
                assert(out@.drop_last() =~= before);
            }
            assert forall|d: Seq<char>, k: u8| !(d == device@ && k == key) implies #[trigger] counter(
                out@,
                d,
                k,
            ) == counter(self.entries@.subrange(0, i + 1), d, k) by {
                assert(counter(before, d, k) == counter(pre, d, k));
                assert(self.entries@.subrange(0, i + 1).last() == self.entries@[i as int]);
            }
            i = i + 1;
        }
        assert(self.entries@.subrange(0, i as int) =~= self.entries@);
        self.entries = out;
        found
    }

    /// Counts a press of `key` on `device`. Returns whether it opened a new
    /// window.
    pub fn tap(&mut self, device: &String, key: u8) -> (r: bool)
        ensures
            r == (counter(old(self).entries@, device@, key) is None),
            counter(final(self).entries@, device@, key) == Some(bumped(counter(old(self).entries@, device@, key))),
            forall|d: Seq<char>, k: u8|
                !(d == device@ && k == key) ==> #[trigger] counter(final(self).entries@, d, k) == counter(old(self).entries@, d, k),
    {
        let before = self.close(device, key);
        let count = match before {
            None => 1,
            Some(n) => if n == u8::MAX {
                n
            } else {
                n + 1
            },
        };
        let ghost s = self.entries@;
        self.entries.push(TapCounter { device: device.clone(), key, count });
        assert(self.entries@.drop_last() =~= s);
        assert forall|d: Seq<char>, k: u8| !(d == device@ && k == key) implies #[trigger] counter(
            self.entries@,
            d,
            k,
        ) == counter(s, d, k) by {}
        before.is_none()
    }
}

/// A key event for `instance`, with a snapshot of it.
pub fn key_event(event: &str, instance: &ActionInstance, in_multi_action: bool) -> (r: KeyEvent)
    ensures
        r.event@ == event@,
        r.plugin@ == instance.action.plugin@,
        r.action@ == instance.action.uuid@,
        r.context@ == instance.context@,
        r.device@ == instance.context.device@,
        r.instance@ == instance@,
        r.in_multi_action == in_multi_action,
{
    KeyEvent {
        plugin: instance.action.plugin.clone(),
        event: event.to_owned(),
        action: instance.action.uuid.clone(),
        context: instance.context.copy(),
        device: instance.context.device.clone(),
        instance: instance.copy(),
        in_multi_action,
    }
}

/// Whether `e` sends `event` to `target`, with a snapshot of it.
pub open spec fn sends(e: Effect, event: Seq<char>, target: ActionInstance) -> bool {
    match e {
        Effect::Send(k) => k.event@ == event && k.context@ == target.context@ && k.plugin@
            == target.action.plugin@ && k.action@ == target.action.uuid@ && k.device@
            == target.context.device@ && k.instance@ == target@,
        _ => false,
    }
}

/// Closes the double-tap window of `key` on `device` and picks what it
/// dispatches among `children`: one press goes to the first child, more to
/// the second. Nothing is dispatched where no window was open or the child is
/// missing.
pub fn resolve_taps(
    counters: &mut TapCounters,
    device: &String,
    key: u8,
    children: &Vec<ActionInstance>,
) -> (r: Option<KeyEvent>)
    ensures
        counter(final(counters).entries@, device@, key) is None,
        forall|d: Seq<char>, k: u8|
            !(d == device@ && k == key) ==> #[trigger] counter(final(counters).entries@, d, k) == counter(old(counters).entries@, d, k),
        match counter(old(counters).entries@, device@, key) {
            None => r is None,
            Some(c) => {
                let t = tap_target(c);
                if t < children@.len() {
                    &&& r is Some
                    &&& sends(Effect::Send(r.unwrap()), "keyDown"@, children@[t])
                    &&& !r.unwrap().in_multi_action
                } else {
                    r is None
                }
            },
        },
{
    match counters.close(device, key) {
        None => None,
        Some(c) => {
            let t: usize = if c == 1 {
                0
            } else {
                1
            };
            if t < children.len() {
                Some(key_event("keyDown", &children[t], false))
            } else {
                None
            }
        },
    }
}

/// The notice that the key at `context` went down (`pressed`) or up.
pub fn key_moved(context: &Context, pressed: bool) -> (r: Effect)
    ensures
        r matches Effect::KeyMoved { context: c, pressed: p } && c@ == context@ && p == pressed,
{
    Effect::KeyMoved { context: context.copy(), pressed }
}

/// The keypad slot of `key` under `profile` on `device`.
pub open spec fn keypad_slot(device: Seq<char>, profile: Seq<char>, key: u8) -> ContextView {
    ContextView { device, profile, controller: KEYPAD@, position: key }
}

/// Whether the selected profile of `device` in `store` is selection `sel`
/// and slot `i` is the keypad slot of `key` in it.
pub open spec fn is_key_slot(store: ProfileStore, device: Seq<char>, key: u8, sel: int, i: int) -> bool {
    &&& 0 <= sel < store.selections@.len()
    &&& store.selections@[sel].device@ == device
    &&& slot_is(store.slots@, i, keypad_slot(device, store.selections@[sel].profile@, key))
}

/// How resolving the keypad slot of `key` on `device` fails, if it does.
pub open spec fn key_error(store: ProfileStore, device: Seq<char>, key: u8) -> Option<StoreError> {
    if forall|sel: int|
        0 <= sel < store.selections@.len() ==> #[trigger] store.selections@[sel].device@ != device {
        Some(StoreError::DeviceUnknown)
    } else if forall|sel: int, i: int| !#[trigger] is_key_slot(store, device, key, sel, i) {
        Some(StoreError::ProfileNotLoaded)
    } else {
        None
    }
}

/// The state a two-state instance moves to on release: the other one, unless
/// automatic states are off or it has some other number of states.
pub open spec fn advanced(o: ActionInstance) -> u16 {
    if o.states@.len() == 2 && !o.action.disable_automatic_states {
        ((o.current_state + 1) % 2) as u16
    } else {
        o.current_state
    }
}

/// `n` is `o` with its current state advanced.
pub open spec fn advanced_from(o: ActionInstance, n: ActionInstance) -> bool {
    &&& n.action == o.action
    &&& n.context == o.context
    &&& n.states == o.states
    &&& n.settings == o.settings
    &&& n.children == o.children
    &&& n.current_state == advanced(o)
}

fn advance(instance: &mut ActionInstance)
    ensures
        advanced_from(*old(instance), *final(instance)),
{
    if instance.states.len() == 2 && !instance.action.disable_automatic_states {
        instance.current_state = ((instance.current_state as u32 + 1) % 2) as u16;
    }
}

fn find_selection(store: &ProfileStore, device: &String) -> (r: Option<usize>)
    ensures
        match r {
            Some(s) => s < store.selections@.len() && store.selections@[s as int].device@ == device@,
            None => forall|k: int|
                0 <= k < store.selections@.len() ==> #[trigger] store.selections@[k].device@ != device@,
        },
{
    let mut s: usize = 0;
    while s < store.selections.len()
        invariant
            s <= store.selections@.len(),
            forall|k: int| 0 <= k < s ==> #[trigger] store.selections@[k].device@ != device@,
        decreases store.selections@.len() - s,
    {
        if store.selections[s].device == *device {
            return Some(s);
        }
        s = s + 1;
    }
    None
}

/// Finds the keypad slot of `key` on `device`, and its context.
fn key_slot(store: &ProfileStore, device: &String, key: u8) -> (r: Result<(usize, Context), StoreError>)
    requires
        store.wf(),
    ensures
        r is Ok ==> key_error(*store, device@, key) is None && exists|sel: int|
            #[trigger] is_key_slot(*store, device@, key, sel, r.unwrap().0 as int) && r.unwrap().1@
                == keypad_slot(device@, store.selections@[sel].profile@, key),
        r is Err ==> key_error(*store, device@, key) == Some(r->Err_0),
{
    let s = match find_selection(store, device) {
        None => {
            assert(key_error(*store, device@, key) == Some(StoreError::DeviceUnknown));
            return Err(StoreError::DeviceUnknown);
        },
        Some(s) => s,
    };
    let context = Context {
        device: device.clone(),
        profile: store.selections[s].profile.clone(),
        controller: KEYPAD.to_owned(),
        position: key,
    };
    assert(context@ == keypad_slot(device@, store.selections@[s as int].profile@, key));
    match store.find_slot(&context) {
        Ok(i) => {
            assert(is_key_slot(*store, device@, key, s as int, i as int));
            assert(context@ == keypad_slot(device@, store.selections@[s as int].profile@, key));
            assert(key_error(*store, device@, key) is None);
            let r: Result<(usize, Context), StoreError> = Ok((i, context));
            assert(r.unwrap().1@ == keypad_slot(device@, store.selections@[s as int].profile@, key));
            assert(is_key_slot(*store, device@, key, s as int, r.unwrap().0 as int));
            r
        },
        Err(_) => {
            assert forall|sel: int, i: int| !#[trigger] is_key_slot(*store, device@, key, sel, i) by {
                if is_key_slot(*store, device@, key, sel, i) {
                    assert(sel == s);
                    assert(slot_is(store.slots@, i, context@));
                }
            }
            assert(!(forall|sel: int|
                0 <= sel < store.selections@.len() ==> #[trigger] store.selections@[sel].device@ != device@));
            assert(key_error(*store, device@, key) == Some(StoreError::ProfileNotLoaded));
            Err(StoreError::ProfileNotLoaded)
        },
    }
}

/// Handles a key press on `device`. A multi-action presses and releases each
/// child in turn, paced, advancing two-state children; a toggle-action
/// presses its current child; a double-tap action counts the press into the
/// key's window, opening one if none is open; any other action is pressed.
pub fn key_down(store: &mut ProfileStore, counters: &mut TapCounters, device: &String, key: u8) -> (r:
    Result<Outcome<()>, StoreError>)
    requires
        old(store).wf(),
    ensures
        final(store).wf(),
        final(store).selections == old(store).selections,
        final(store).slots@.len() == old(store).slots@.len(),
        key_error(*old(store), device@, key) is Some ==> r == Err::<Outcome<()>, StoreError>(
            key_error(*old(store), device@, key).unwrap(),
        ) && *final(store) == *old(store) && *final(counters) == *old(counters),
        forall|sel: int, i: int| #[trigger]
            is_key_slot(*old(store), device@, key, sel, i) ==> {
                let o = old(store).slots@[i].instance;
                let n = final(store).slots@[i].instance;
                let fx = r.unwrap().effects@;
                &&& r is Ok
                &&& forall|j: int|
                    0 <= j < old(store).slots@.len() && j != i ==> final(store).slots@[j]
                        == old(store).slots@[j]
                &&& final(store).slots@[i].context == old(store).slots@[i].context
                &&& fx.len() >= 1
                &&& fx[0] matches Effect::KeyMoved { context, pressed } && pressed
                    && context@ == keypad_slot(device@, old(store).selections@[sel].profile@, key)
                &&& match o {
                    None => n == o && fx.len() == 1 && *final(counters) == *old(counters),
                    Some(p) => key_down_spec(p, n.unwrap(), fx, *old(counters), *final(counters), device@, key) && n is Some,
                }
            },
{
    let (i, context) = match key_slot(store, device, key) {
        Ok(x) => x,
        Err(e) => return Err(e),
    };
    let mut effects: Vec<Effect> = Vec::new();
    let moved = key_moved(&context, true);
    assert(moved matches Effect::KeyMoved { context: c, pressed } && pressed && c@ == context@);
    effects.push(moved);
    let taken = store.take_slot(i);
    let mut instance = match taken {
        None => return Ok(Outcome { value: (), effects }),
        Some(p) => p,
    };
    let kind = action_kind(&instance.action.uuid);
    if kind == ActionKind::Multi {
        let mut kids: Option<Vec<ActionInstance>> = None;
        std::mem::swap(&mut kids, &mut instance.children);
        match kids {
            None => {},
            Some(mut children) => {
                let ghost oc = children@;
                let mut k: usize = 0;
                while k < children.len()
                    invariant
                        k <= children@.len(),
                        children@.len() == oc.len(),
                        effects@.len() == 1 + 4 * k,
                        effects@[0] matches Effect::KeyMoved { context: c, pressed } && pressed && c@ == context@,
                        forall|j: int| 0 <= j < k ==> advanced_from(#[trigger] oc[j], children@[j]),
                        forall|j: int| k <= j < oc.len() ==> children@[j] == oc[j],
                        forall|j: int|
                            0 <= j < k ==> sends(#[trigger] effects@[1 + 4 * j], "keyDown"@, oc[j])
                                && sends(effects@[3 + 4 * j], "keyUp"@, children@[j])
                                && effects@[2 + 4 * j] == Effect::Pause(MULTI_ACTION_PAUSE_MS)
                                && effects@[4 + 4 * j] == Effect::Pause(MULTI_ACTION_PAUSE_MS),
                    decreases children@.len() - k,
                {
                    effects.push(Effect::Send(key_event("keyDown", &children[k], true)));
                    effects.push(Effect::Pause(MULTI_ACTION_PAUSE_MS));
                    advance(&mut children[k]);
                    effects.push(Effect::Send(key_event("keyUp", &children[k], true)));
                    effects.push(Effect::Pause(MULTI_ACTION_PAUSE_MS));
                    k = k + 1;
                }
                let mut k: usize = 0;
                while k < children.len()
                    invariant
                        k <= children@.len(),
                        children@.len() == oc.len(),
                        effects@.len() == 1 + 4 * oc.len() + k,
                        forall|j: int|
                            0 <= j < k ==> updates(#[trigger] effects@[1 + 4 * oc.len() + j], oc[j].context@),
                        effects@[0] matches Effect::KeyMoved { context: c, pressed } && pressed && c@ == context@,
                        forall|j: int| 0 <= j < oc.len() ==> advanced_from(#[trigger] oc[j], children@[j]),
                        forall|j: int|
                            0 <= j < oc.len() ==> sends(#[trigger] effects@[1 + 4 * j], "keyDown"@, oc[j])
                                && sends(effects@[3 + 4 * j], "keyUp"@, children@[j])
                                && effects@[2 + 4 * j] == Effect::Pause(MULTI_ACTION_PAUSE_MS)
                                && effects@[4 + 4 * j] == Effect::Pause(MULTI_ACTION_PAUSE_MS),
                    decreases children@.len() - k,
                {
                    let ghost prev = effects@;
                    effects.push(Effect::UpdateState(children[k].context.copy()));
                    assert forall|j: int| 0 <= j < k + 1 implies updates(
                        #[trigger] effects@[1 + 4 * oc.len() + j],
                        oc[j].context@,
                    ) by {
                        if j < k {
                            assert(effects@[1 + 4 * oc.len() + j] == prev[1 + 4 * oc.len() + j]);
                        }
                    }
                    assert forall|j: int| 0 <= j < oc.len() implies sends(
                        #[trigger] effects@[1 + 4 * j],
                        "keyDown"@,
                        oc[j],
                    ) && sends(effects@[3 + 4 * j], "keyUp"@, children@[j]) && effects@[2 + 4 * j]
                        == Effect::Pause(MULTI_ACTION_PAUSE_MS) && effects@[4 + 4 * j]
                        == Effect::Pause(MULTI_ACTION_PAUSE_MS) by {
                        assert(effects@[1 + 4 * j] == prev[1 + 4 * j]);
                        assert(effects@[2 + 4 * j] == prev[2 + 4 * j]);
                        assert(effects@[3 + 4 * j] == prev[3 + 4 * j]);
                        assert(effects@[4 + 4 * j] == prev[4 + 4 * j]);
                    }
                    k = k + 1;
                }
                assert forall|j: int| 0 <= j < children@.len() implies (#[trigger] children@[j]).children
                    is None by {
                    assert(advanced_from(oc[j], children@[j]));
                }
                instance.children = Some(children);
                effects.push(Effect::SaveProfile(device.clone()));
            },
        }
    } else if kind == ActionKind::Toggle {
        match &instance.children {
            None => {},
            Some(children) => {
                let c = instance.current_state as usize;
                if c < children.len() {
                    effects.push(Effect::Send(key_event("keyDown", &children[c], false)));
                }
            },
        }
    } else if kind == ActionKind::DoubleTap {
        match &instance.children {
            None => {},
            Some(children) => {
                if children.len() > 0 {
                    let opened = counters.tap(device, key);
                    if opened {
                        let mut snapshot: Vec<ActionInstance> = Vec::new();
                        let mut k: usize = 0;
                        while k < children.len()
                            invariant
                                k <= children@.len(),
                                snapshot@.len() == k,
                                forall|j: int| 0 <= j < k ==> (#[trigger] snapshot@[j])@ == children@[j]@,
                            decreases children@.len() - k,
                        {
                            snapshot.push(children[k].copy());
                            k = k + 1;
                        }
                        effects.push(
                            Effect::StartTapTimer { device: device.clone(), key, children: snapshot },
                        );
                    }
                }
            },
        }
    } else {
        effects.push(Effect::Send(key_event("keyDown", &instance, false)));
    }
    store.put_slot(i, Some(instance));
    Ok(Outcome { value: (), effects })
}

/// What a key press does to the bound instance `p` (now `n`), to the tap
/// windows, and which effects follow the key-moved notice.
pub open spec fn key_down_spec(
    p: ActionInstance,
    n: ActionInstance,
    fx: Seq<Effect>,
    oc: TapCounters,
    nc: TapCounters,
    device: Seq<char>,
    key: u8,
) -> bool {
    match kind_of(p.action.uuid@) {
        ActionKind::Multi => {
            &&& oc == nc
            &&& n.action == p.action && n.context == p.context && n.states == p.states
            &&& n.current_state == p.current_state && n.settings == p.settings
            &&& (n.children is Some) == (p.children is Some)
            &&& p.children is None ==> fx.len() == 1
            &&& p.children is Some ==> {
                let cs = p.children.unwrap()@;
                let ns = n.children.unwrap()@;
                &&& ns.len() == cs.len()
                &&& fx.len() == 2 + 5 * cs.len()
                &&& forall|j: int| 0 <= j < cs.len() ==> advanced_from(#[trigger] cs[j], ns[j])
                &&& forall|j: int|
                    0 <= j < cs.len() ==> sends(#[trigger] fx[1 + 4 * j], "keyDown"@, cs[j])
                        && sends(fx[3 + 4 * j], "keyUp"@, ns[j]) && fx[2 + 4 * j] == Effect::Pause(
                        MULTI_ACTION_PAUSE_MS,
                    ) && fx[4 + 4 * j] == Effect::Pause(MULTI_ACTION_PAUSE_MS)
                &&& forall|j: int|
                    0 <= j < cs.len() ==> updates(#[trigger] fx[1 + 4 * cs.len() + j], cs[j].context@)
                &&& saves(fx.last(), device)
            }
        },
        ActionKind::Toggle => {
            &&& oc == nc && n == p
            &&& if p.children is Some && (p.current_state as int) < p.children.unwrap()@.len() {
                fx.len() == 2 && sends(fx[1], "keyDown"@, p.children.unwrap()@[p.current_state as int])
            } else {
                fx.len() == 1
            }
        },
        ActionKind::DoubleTap => {
            &&& n == p
            &&& if p.children is Some && p.children.unwrap()@.len() > 0 {
                let opened = counter(oc.entries@, device, key) is None;
                &&& counter(nc.entries@, device, key) == Some(bumped(counter(oc.entries@, device, key)))
                &&& forall|d: Seq<char>, k: u8|
                    !(d == device && k == key) ==> #[trigger] counter(nc.entries@, d, k) == counter(oc.entries@, d, k)
                &&& fx.len() == if opened { 2int } else { 1int }
                &&& opened ==> (fx[1] matches Effect::StartTapTimer { device: d, key: k, children: c }
                    && d@ == device && k == key && c@.len() == p.children.unwrap()@.len() && forall|j: int|
                    0 <= j < c@.len() ==> (#[trigger] c@[j])@ == p.children.unwrap()@[j]@)
            } else {
                oc == nc && fx.len() == 1
            }
        },
        ActionKind::Simple => oc == nc && n == p && fx.len() == 2 && sends(fx[1], "keyDown"@, p),
    }
}

/// The state a toggle-action with `len` children moves to from `current`.
pub open spec fn toggled(current: u16, len: int) -> u16 {
    ((current as int + 1) % len) as u16
}

/// What a key release does to the bound instance `p` (now `n`), and which
/// effects follow the key-moved notice.
pub open spec fn key_up_spec(p: ActionInstance, n: ActionInstance, fx: Seq<Effect>, device: Seq<char>) -> bool {
    match kind_of(p.action.uuid@) {
        ActionKind::Multi => n == p && fx.len() == 1,
        ActionKind::Toggle => if p.children is Some && p.children.unwrap()@.len() > 0 {
            let cs = p.children.unwrap()@;
            &&& n.action == p.action && n.context == p.context && n.states == p.states
            &&& n.settings == p.settings && n.children == p.children
            &&& n.current_state == toggled(p.current_state, cs.len() as int)
            &&& updates(fx[fx.len() - 2], p.context@)
            &&& saves(fx[fx.len() - 1], device)
            &&& if (p.current_state as int) < cs.len() {
                fx.len() == 4 && sends(fx[1], "keyUp"@, cs[p.current_state as int])
            } else {
                fx.len() == 3
            }
        } else {
            n == p && fx.len() == 1
        },
        _ => {
            &&& advanced_from(p, n)
            &&& fx.len() == 4
            &&& sends(fx[1], "keyUp"@, n)
            &&& updates(fx[2], p.context@)
            &&& saves(fx[3], device)
        },
    }
}

/// Handles a key release on `device`. A toggle-action releases its current
/// child and moves on to the next, cyclically; a multi-action does nothing
/// more; any other action advances a two-state instance and is released.
pub fn key_up(store: &mut ProfileStore, device: &String, key: u8) -> (r: Result<Outcome<()>, StoreError>)
    requires
        old(store).wf(),
    ensures
        final(store).wf(),
        final(store).selections == old(store).selections,
        final(store).slots@.len() == old(store).slots@.len(),
        key_error(*old(store), device@, key) is Some ==> r == Err::<Outcome<()>, StoreError>(
            key_error(*old(store), device@, key).unwrap(),
        ) && *final(store) == *old(store),
        forall|sel: int, i: int| #[trigger]
            is_key_slot(*old(store), device@, key, sel, i) ==> {
                let o = old(store).slots@[i].instance;
                let n = final(store).slots@[i].instance;
                let fx = r.unwrap().effects@;
                &&& r is Ok
                &&& forall|j: int|
                    0 <= j < old(store).slots@.len() && j != i ==> final(store).slots@[j]
                        == old(store).slots@[j]
                &&& final(store).slots@[i].context == old(store).slots@[i].context
                &&& fx.len() >= 1
                &&& fx[0] matches Effect::KeyMoved { context, pressed } && !pressed
                    && context@ == keypad_slot(device@, old(store).selections@[sel].profile@, key)
                &&& match o {
                    None => n == o && fx.len() == 1,
                    Some(p) => n is Some && key_up_spec(p, n.unwrap(), fx, device@),
                }
            },
{
    let (i, context) = match key_slot(store, device, key) {
        Ok(x) => x,
        Err(e) => return Err(e),
    };
    let mut effects: Vec<Effect> = Vec::new();
    effects.push(key_moved(&context, false));
    let taken = store.take_slot(i);
    let mut instance = match taken {
        None => return Ok(Outcome { value: (), effects }),
        Some(p) => p,
    };
    let kind = action_kind(&instance.action.uuid);
    if kind == ActionKind::Multi {
        store.put_slot(i, Some(instance));
        return Ok(Outcome { value: (), effects });
    } else if kind == ActionKind::Toggle {
        let len = match &instance.children {
            None => 0,
            Some(children) => children.len(),
        };
        if len == 0 {
            store.put_slot(i, Some(instance));
            return Ok(Outcome { value: (), effects });
        }
        let index = instance.current_state as usize;
        match &instance.children {
            None => {},
            Some(children) => {
                if index < children.len() {
                    effects.push(Effect::Send(key_event("keyUp", &children[index], false)));
                }
            },
        }
        instance.current_state = ((index + 1) % len) as u16;
    } else {
        advance(&mut instance);
        effects.push(Effect::Send(key_event("keyUp", &instance, false)));
    }
    effects.push(Effect::UpdateState(instance.context.copy()));
    store.put_slot(i, Some(instance));
    effects.push(Effect::SaveProfile(device.clone()));
    Ok(Outcome { value: (), effects })
}

} // verus!
