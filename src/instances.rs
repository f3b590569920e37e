use vstd::prelude::*;
use crate::effect::{appears, disappears, saves, updates, Effect, Outcome, UpdateStateEvent};
use crate::model::{
    at_index, empty_settings, images_of, Action, ActionContext, ActionContextView, ActionInstance,
    slot_of, ActionState, ActionView, Context, MULTI_ACTION, TOGGLE_ACTION, DOUBLE_TAP,
    TOGGLE_STATE_IMAGE,
};
use crate::paths::{images_dir, instance_images_dir, rebase_image, rebased};
use crate::store::{has_slot, slot_is, ProfileStore, StoreError};

verus! {

/// The behaviour an action uuid selects.
#[derive(Debug, Clone, Copy, PartialEq, Eq, Structural)]
pub enum ActionKind {
    Simple,
    Multi,
    Toggle,
    DoubleTap,
}

pub open spec fn kind_of(uuid: Seq<char>) -> ActionKind {
    if uuid == MULTI_ACTION@ {
        ActionKind::Multi
    } else if uuid == TOGGLE_ACTION@ {
        ActionKind::Toggle
    } else if uuid == DOUBLE_TAP@ {
        ActionKind::DoubleTap
    } else {
        ActionKind::Simple
    }
}

/// The behaviour that `uuid` selects.
pub fn action_kind(uuid: &String) -> (r: ActionKind)
    ensures
        r == kind_of(uuid@),
{
    if *uuid == MULTI_ACTION.to_owned() {
        ActionKind::Multi
    } else if *uuid == TOGGLE_ACTION.to_owned() {
        ActionKind::Toggle
    } else if *uuid == DOUBLE_TAP.to_owned() {
        ActionKind::DoubleTap
    } else {
        ActionKind::Simple
    }
}

/// `n` is a fresh instance of `action` at `c`: the action's states, the first
/// of them current, and no children.
pub open spec fn fresh(n: ActionInstance, action: ActionView, c: ActionContextView) -> bool {
    &&& n.action@ == action
    &&& n.context@ == c
    &&& images_of(n.states@) == action.images
    &&& n.current_state == 0
}

/// A top-level instance starts with an empty child list exactly when it is a
/// multi-action or a toggle-action.
pub open spec fn starts_with_children(uuid: Seq<char>) -> bool {
    kind_of(uuid) == ActionKind::Multi || kind_of(uuid) == ActionKind::Toggle
}

/// The index a new child takes after `children`: one past the last, or 1.
pub open spec fn next_child_index(children: Seq<ActionInstance>) -> int {
    if children.len() == 0 {
        1
    } else {
        children.last().context.index + 1
    }
}

fn new_instance(action: &Action, context: &Context, index: u16) -> (r: ActionInstance)
    ensures
        fresh(r, action@, at_index(context@, index)),
        r.children is None,
{
    ActionInstance {
        action: action.copy(),
        context: ActionContext::from_context(context, index),
        states: crate::model::copy_states(&action.states),
        current_state: 0,
        settings: empty_settings(),
        children: None,
    }
}

/// What creating `action` at slot `context` does to the instance `old` held
/// there (`new`, `made`), given that the action supports the slot.
pub open spec fn create_spec(
    old: Option<ActionInstance>,
    new: Option<ActionInstance>,
    made: Option<ActionInstance>,
    action: ActionView,
    context: crate::model::ContextView,
) -> bool {
    match old {
        None => {
            &&& new is Some
            &&& fresh(new.unwrap(), action, at_index(context, 0))
            &&& (new.unwrap().children is Some) == starts_with_children(action.uuid)
            &&& (new.unwrap().children is Some ==> new.unwrap().children.unwrap()@.len() == 0)
            &&& made is Some && made.unwrap()@ == new.unwrap()@
        },
        Some(p) => match p.children {
            None => new == old && made is None,
            Some(cs) => if next_child_index(cs@) > u16::MAX {
                new == old && made is None
            } else {
                let n = new.unwrap();
                let ncs = n.children.unwrap();
                let child = ncs@.last();
                &&& new is Some
                &&& n.action == p.action
                &&& n.context == p.context
                &&& n.current_state == p.current_state
                &&& n.settings == p.settings
                &&& n.children is Some
                &&& ncs@.len() == cs@.len() + 1
                &&& ncs@.drop_last() == cs@
                &&& fresh(child, action, at_index(context, next_child_index(cs@) as u16))
                &&& child.children is None
                &&& made is Some && made.unwrap()@ == child@
                &&& if kind_of(p.action.uuid@) == ActionKind::Toggle {
                    images_of(n.states@) == images_of(p.states@).push(TOGGLE_STATE_IMAGE@)
                } else {
                    n.states == p.states
                }
            },
        },
    }
}

/// The effects of a create that made `made` in a slot that held `o`: a
/// toggle-action parent's new state is shown, then the profile is saved and
/// the new instance announced.
pub open spec fn create_effects(
    o: Option<ActionInstance>,
    made: ActionInstance,
    fx: Seq<Effect>,
    device: Seq<char>,
) -> bool {
    let grows = o is Some && kind_of(o.unwrap().action.uuid@) == ActionKind::Toggle;
    &&& fx.len() == if grows {
        3int
    } else {
        2int
    }
    &&& grows ==> updates(fx[0], o.unwrap().context@)
    &&& saves(fx[fx.len() - 2], device)
    &&& appears(fx[fx.len() - 1], made)
}

/// Binds `action` to slot `context`. An empty slot gets a new top-level
/// instance; a slot holding a composite gets it appended as the next child.
/// Returns the instance created, if any.
pub fn create_instance(store: &mut ProfileStore, action: &Action, context: &Context) -> (r:
    Result<Outcome<Option<ActionInstance>>, StoreError>)
    requires
        old(store).wf(),
    ensures
        final(store).wf(),
        !action@.controllers.contains(context.controller@) ==> r is Ok && r.unwrap().value is None
            && r.unwrap().effects@.len() == 0 && *final(store) == *old(store),
        action@.controllers.contains(context.controller@) ==> {
            &&& (r is Err <==> !has_slot(old(store).slots@, context@))
            &&& r is Err ==> r == Err::<Outcome<Option<ActionInstance>>, StoreError>(
                StoreError::ProfileNotLoaded,
            ) && *final(store) == *old(store)
            &&& r is Ok && r.unwrap().value is None ==> r.unwrap().effects@.len() == 0
            &&& r is Ok ==> final(store).selections == old(store).selections
                && final(store).slots@.len() == old(store).slots@.len()
                && forall|i: int| #[trigger]
                slot_is(old(store).slots@, i, context@) ==> {
                    &&& final(store).slots@[i].context == old(store).slots@[i].context
                    &&& create_spec(
                        old(store).slots@[i].instance,
                        final(store).slots@[i].instance,
                        r.unwrap().value,
                        action@,
                        context@,
                    )
                    &&& r.unwrap().value is Some ==> create_effects(
                        old(store).slots@[i].instance,
                        r.unwrap().value.unwrap(),
                        r.unwrap().effects@,
                        context.device@,
                    )
                    &&& forall|j: int|
                        0 <= j < old(store).slots@.len() && j != i ==> final(store).slots@[j]
                            == old(store).slots@[j]
                }
        },
{
    if !action.supports(&context.controller) {
        return Ok(Outcome { value: None, effects: Vec::new() });
    }
    let i = match store.find_slot(context) {
        Ok(i) => i,
        Err(e) => return Err(e),
    };
    let mut effects: Vec<Effect> = Vec::new();
    let slot = store.take_slot(i);
    match slot {
        Some(mut parent) => {
            let mut kids: Option<Vec<ActionInstance>> = None;
            std::mem::swap(&mut kids, &mut parent.children);
            match kids {
                None => {
                    store.put_slot(i, Some(parent));
                    Ok(Outcome { value: None, effects })
                },
                Some(mut children) => {
                    let n = children.len();
                    let index: u32 = if n == 0 {
                        1
                    } else {
                        children[n - 1].context.index as u32 + 1
                    };
                    if index > u16::MAX as u32 {
                        parent.children = Some(children);
                        store.put_slot(i, Some(parent));
                        return Ok(Outcome { value: None, effects });
                    }
                    let instance = new_instance(action, context, index as u16);
                    let made = instance.copy();
                    children.push(instance);
                    proof {
                        assert(children@.drop_last() =~= old(store).slots@[i as int].instance.unwrap().children.unwrap()@);
                    }
                    parent.children = Some(children);
                    if action_kind(&parent.action.uuid) == ActionKind::Toggle {
                        parent.states.push(ActionState { image: TOGGLE_STATE_IMAGE.to_owned() });
                        assert(images_of(parent.states@) =~= images_of(
                            old(store).slots@[i as int].instance.unwrap().states@,
                        ).push(TOGGLE_STATE_IMAGE@));
                        effects.push(Effect::UpdateState(parent.context.copy()));
                    }
                    store.put_slot(i, Some(parent));
                    effects.push(Effect::SaveProfile(context.device.clone()));
                    effects.push(Effect::WillAppear(made.copy()));
                    Ok(Outcome { value: Some(made), effects })
                },
            }
        },
        None => {
            let mut instance = new_instance(action, context, 0);
            let kind = action_kind(&action.uuid);
            if kind == ActionKind::Multi || kind == ActionKind::Toggle {
                instance.children = Some(Vec::new());
            }
            let made = instance.copy();
            store.put_slot(i, Some(instance));
            effects.push(Effect::SaveProfile(context.device.clone()));
            effects.push(Effect::WillAppear(made.copy()));
            Ok(Outcome { value: Some(made), effects })
        },
    }
}

/// `n` is `o` relocated to slot `base`, from asset directory `old_dir` to
/// `new_dir`: contexts renumbered, and every image under `old_dir`, its own
/// and its children's, moved under `new_dir`.
pub open spec fn relocated(
    o: ActionInstance,
    n: ActionInstance,
    base: crate::model::ContextView,
    old_dir: Seq<char>,
    new_dir: Seq<char>,
) -> bool {
    &&& n.action@ == o.action@
    &&& n.context@ == at_index(base, 0)
    &&& n.current_state == o.current_state
    &&& n.settings == o.settings
    &&& images_of(n.states@) == images_of(o.states@).map_values(
        |m: Seq<char>| rebased(m, old_dir, new_dir),
    )
    &&& (n.children is Some) == (o.children is Some)
    &&& n.children is Some ==> {
        let nc = n.children.unwrap()@;
        let oc = o.children.unwrap()@;
        &&& nc.len() == oc.len()
        &&& forall|k: int| 0 <= k < nc.len() ==> relocated_child(#[trigger] oc[k], nc[k], base, k, old_dir, new_dir)
    }
}

/// `n` is the child `o` renumbered as child `k + 1` of slot `base`, its
/// images under `old_dir` moved under `new_dir`.
pub open spec fn relocated_child(
    o: ActionInstance,
    n: ActionInstance,
    base: crate::model::ContextView,
    k: int,
    old_dir: Seq<char>,
    new_dir: Seq<char>,
) -> bool {
    &&& n.action@ == o.action@
    &&& n.context@ == at_index(base, (k + 1) as u16)
    &&& n.current_state == o.current_state
    &&& n.settings == o.settings
    &&& images_of(n.states@) == images_of(o.states@).map_values(
        |m: Seq<char>| rebased(m, old_dir, new_dir),
    )
}

/// Moves every image of `states` under `old_dir` to under `new_dir`.
fn rebase_states(states: &mut Vec<ActionState>, old_dir: &String, new_dir: &String)
    ensures
        images_of(final(states)@) == images_of(old(states)@).map_values(
            |m: Seq<char>| rebased(m, old_dir@, new_dir@),
        ),
        final(states)@.len() == old(states)@.len(),
{
    let mut i: usize = 0;
    while i < states.len()
        invariant
            i <= states@.len(),
            states@.len() == old(states)@.len(),
            forall|j: int|
                0 <= j < i ==> (#[trigger] states@[j]).image@ == rebased(
                    old(states)@[j].image@,
                    old_dir@,
                    new_dir@,
                ),
            forall|j: int| i <= j < states@.len() ==> states@[j] == old(states)@[j],
        decreases states@.len() - i,
    {
        let image = rebase_image(&states[i].image, old_dir, new_dir);
        states[i].image = image;
        i = i + 1;
    }
    assert(images_of(states@) =~= images_of(old(states)@).map_values(
        |m: Seq<char>| rebased(m, old_dir@, new_dir@),
    ));
}

fn relocate_child(child: &mut ActionInstance, base_context: &Context, k: usize, old_dir: &String, new_dir: &String)
    requires
        k < u16::MAX,
    ensures
        relocated_child(*old(child), *final(child), base_context@, k as int, old_dir@, new_dir@),
        final(child).children == old(child).children,
{
    child.context = ActionContext::from_context(base_context, (k + 1) as u16);
    rebase_states(&mut child.states, old_dir, new_dir);
}

/// Moves `instance` to slot `base_context`: it becomes index 0 there, each
/// child becomes index k + 1 in order, and each image under `old_dir`, of the
/// instance or of a child, moves under `new_dir`.
pub fn update_children_and_states(
    instance: &mut ActionInstance,
    base_context: &Context,
    old_dir: &String,
    new_dir: &String,
)
    requires
        old(instance).children is Some ==> old(instance).children.unwrap()@.len() <= u16::MAX,
    ensures
        relocated(*old(instance), *final(instance), base_context@, old_dir@, new_dir@),
        final(instance).states@.len() == old(instance).states@.len(),
        final(instance).current_state == old(instance).current_state,
        final(instance).children is Some ==> final(instance).children.unwrap()@.len()
            == old(instance).children.unwrap()@.len(),
        crate::model::children_flat(*old(instance)) ==> crate::model::children_flat(*final(instance)),
{
    instance.context = ActionContext::from_context(base_context, 0);
    let mut kids: Option<Vec<ActionInstance>> = None;
    std::mem::swap(&mut kids, &mut instance.children);
    match kids {
        None => {},
        Some(mut children) => {
            let ghost oc = children@;
            let mut k: usize = 0;
            while k < children.len()
                invariant
                    k <= children@.len(),
                    children@.len() == oc.len(),
                    oc.len() <= u16::MAX,
                    forall|j: int|
                        0 <= j < k ==> relocated_child(
                            #[trigger] oc[j],
                            children@[j],
                            base_context@,
                            j,
                            old_dir@,
                            new_dir@,
                        ),
                    forall|j: int| k <= j < children@.len() ==> children@[j] == oc[j],
                    forall|j: int| 0 <= j < k ==> (#[trigger] children@[j]).children == oc[j].children,
                decreases children@.len() - k,
            {
                relocate_child(&mut children[k], base_context, k, old_dir, new_dir);
                k = k + 1;
            }
            instance.children = Some(children);
        },
    }
    rebase_states(&mut instance.states, old_dir, new_dir);
}

/// What `move_instance` returns: the instance now at the destination and
/// the one it displaced, now at the source.
#[derive(Debug)]
pub struct MoveInstanceResponse {
    pub moved_instance: ActionInstance,
    pub replaced_instance: Option<ActionInstance>,
}

/// Child indices of this instance fit in a `u16`.
pub open spec fn indexable(i: Option<ActionInstance>) -> bool {
    i is Some && i.unwrap().children is Some ==> i.unwrap().children.unwrap()@.len() <= u16::MAX
}

/// Whether the child indices of `i` fit in a `u16`.
pub fn is_indexable(i: &Option<ActionInstance>) -> (r: bool)
    ensures
        r == indexable(*i),
{
    match i {
        None => true,
        Some(p) => match &p.children {
            None => true,
            Some(c) => c.len() <= 65535,
        },
    }
}

/// Whether `a` and `b` are one slot.
pub fn same_slot(a: &Context, b: &Context) -> (r: bool)
    ensures
        r == (a@ == b@),
{
    a.device == b.device && a.profile == b.profile && a.controller == b.controller && a.position
        == b.position
}

/// Moves the instance at `source` to `destination`, or, with `retain`, a copy
/// of it. Whatever occupied `destination` moves to `source`. The asset
/// directories of the two top-level instances (under `root`) are exchanged,
/// and each moved instance is relocated with `update_children_and_states`.
pub fn move_instance(
    store: &mut ProfileStore,
    root: &String,
    source: &Context,
    destination: &Context,
    retain: bool,
) -> (r: Result<Outcome<Option<MoveInstanceResponse>>, StoreError>)
    requires
        old(store).wf(),
        forall|i: int|
            0 <= i < old(store).slots@.len() ==> indexable(#[trigger] old(store).slots@[i].instance),
    ensures
        final(store).wf(),
        source.controller@ != destination.controller@ || source@ == destination@ ==> r is Ok
            && r.unwrap().value is None && r.unwrap().effects@.len() == 0 && *final(store)
            == *old(store),
        source.controller@ == destination.controller@ && source@ != destination@ ==> {
            &&& (r is Err <==> !has_slot(old(store).slots@, source@) || !has_slot(
                old(store).slots@,
                destination@,
            ))
            &&& r is Err ==> r == Err::<Outcome<Option<MoveInstanceResponse>>, StoreError>(
                StoreError::ProfileNotLoaded,
            ) && *final(store) == *old(store)
            &&& r is Ok ==> forall|si: int, di: int|
                #![trigger slot_is(old(store).slots@, si, source@), slot_is(old(store).slots@, di, destination@)]
                slot_is(old(store).slots@, si, source@) && slot_is(old(store).slots@, di, destination@)
                    ==> move_spec(
                    old(store).slots@,
                    final(store).slots@,
                    si,
                    di,
                    retain,
                    r.unwrap().value,
                    images_dir(root@, at_index(source@, 0)),
                    images_dir(root@, at_index(destination@, 0)),
                    source@,
                    destination@,
                ) && final(store).selections == old(store).selections && move_effects(
                    old(store).slots@[si].instance,
                    old(store).slots@[di].instance,
                    retain,
                    r.unwrap().value,
                    r.unwrap().effects@,
                    images_dir(root@, at_index(source@, 0)),
                    images_dir(root@, at_index(destination@, 0)),
                    destination.device@,
                )
        },
{
    if !(source.controller == destination.controller) || same_slot(source, destination) {
        return Ok(Outcome { value: None, effects: Vec::new() });
    }
    let si = match store.find_slot(source) {
        Ok(i) => i,
        Err(e) => return Err(e),
    };
    let di = match store.find_slot(destination) {
        Ok(i) => i,
        Err(e) => return Err(e),
    };
    let mut effects: Vec<Effect> = Vec::new();
    let taken = store.take_slot(si);
    let mut moved = match taken {
        None => return Ok(Outcome { value: None, effects }),
        Some(i) => i,
    };
    if retain {
        store.put_slot(si, Some(moved.copy()));
    }
    let replaced = store.take_slot(di);
    let src_dir = instance_images_dir(root, &ActionContext::from_context(source, 0));
    let dst_dir = instance_images_dir(root, &ActionContext::from_context(destination, 0));
    effects.push(Effect::SwapDirs { source: src_dir.clone(), destination: dst_dir.clone() });
    if !retain {
        effects.push(Effect::WillDisappear(moved.copy()));
    }
    match &replaced {
        None => {},
        Some(d) => effects.push(Effect::WillDisappear(d.copy())),
    }
    update_children_and_states(&mut moved, destination, &src_dir, &dst_dir);
    store.put_slot(di, Some(moved.copy()));
    effects.push(Effect::WillAppear(moved.copy()));
    let replaced = match replaced {
        None => None,
        Some(mut d) => {
            update_children_and_states(&mut d, source, &dst_dir, &src_dir);
            store.put_slot(si, Some(d.copy()));
            effects.push(Effect::WillAppear(d.copy()));
            Some(d)
        },
    };
    effects.push(Effect::SaveProfile(destination.device.clone()));
    Ok(
        Outcome {
            value: Some(MoveInstanceResponse { moved_instance: moved, replaced_instance: replaced }),
            effects,
        },
    )
}

/// The effects of a move of `a` onto a slot that held `b`: the two asset
/// directories are exchanged, whatever leaves a slot is announced as gone
/// before anything is announced in its place, and the destination's profile
/// is saved once, last. Nothing happens where the source was empty.
pub open spec fn move_effects(
    a: Option<ActionInstance>,
    b: Option<ActionInstance>,
    retain: bool,
    value: Option<MoveInstanceResponse>,
    fx: Seq<Effect>,
    src_dir: Seq<char>,
    dst_dir: Seq<char>,
    device: Seq<char>,
) -> bool {
    if a is None {
        fx.len() == 0
    } else {
        let res = value.unwrap();
        let k = 1 + (if retain {
            0int
        } else {
            1int
        }) + (if b is Some {
            1int
        } else {
            0int
        });
        &&& fx.len() == k + (if b is Some {
            2int
        } else {
            1int
        }) + 1
        &&& fx[0] matches Effect::SwapDirs { source: s, destination: d } && s@ == src_dir && d@
            == dst_dir
        &&& !retain ==> disappears(fx[1], a.unwrap())
        &&& b is Some ==> disappears(fx[k - 1], b.unwrap())
        &&& appears(fx[k], res.moved_instance)
        &&& b is Some ==> appears(fx[k + 1], res.replaced_instance.unwrap())
        &&& saves(fx[fx.len() - 1], device)
    }
}

/// The slots after a move from slot `si` to slot `di`.
pub open spec fn move_spec(
    old: Seq<crate::store::Slot>,
    new: Seq<crate::store::Slot>,
    si: int,
    di: int,
    retain: bool,
    value: Option<MoveInstanceResponse>,
    src_dir: Seq<char>,
    dst_dir: Seq<char>,
    source: crate::model::ContextView,
    destination: crate::model::ContextView,
) -> bool {
    &&& new.len() == old.len()
    &&& forall|j: int| 0 <= j < old.len() ==> (#[trigger] new[j]).context == old[j].context
    &&& forall|j: int| 0 <= j < old.len() && j != si && j != di ==> new[j] == old[j]
    &&& match old[si].instance {
        None => value is None && new[si] == old[si] && new[di] == old[di],
        Some(a) => {
            let res = value.unwrap();
            &&& value is Some
            &&& new[di].instance is Some
            &&& relocated(a, res.moved_instance, destination, src_dir, dst_dir)
            &&& new[di].instance.unwrap()@ == res.moved_instance@
            &&& match old[di].instance {
                Some(b) => {
                    &&& res.replaced_instance is Some
                    &&& relocated(b, res.replaced_instance.unwrap(), source, dst_dir, src_dir)
                    &&& new[si].instance is Some
                    &&& new[si].instance.unwrap()@ == res.replaced_instance.unwrap()@
                },
                None => {
                    &&& res.replaced_instance is None
                    &&& if retain {
                        new[si].instance is Some && new[si].instance.unwrap()@ == a@
                    } else {
                        new[si].instance is None
                    }
                },
            }
        },
    }
}

/// Whether `e` deletes the directory `dir`.
pub open spec fn is_remove_dir(e: Effect, dir: Seq<char>) -> bool {
    match e {
        Effect::RemoveDir(d) => d@ == dir,
        _ => false,
    }
}

/// The effects of removing the top-level instance `p`: it is announced as
/// gone, then each child is announced as gone and its asset directory
/// deleted, then `p`'s own directory is deleted and the profile saved.
pub open spec fn remove_top_effects(
    p: ActionInstance,
    fx: Seq<Effect>,
    root: Seq<char>,
    device: Seq<char>,
) -> bool {
    let cs = if p.children is Some {
        p.children.unwrap()@
    } else {
        Seq::empty()
    };
    &&& fx.len() == 3 + 2 * cs.len()
    &&& disappears(fx[0], p)
    &&& forall|k: int|
        0 <= k < cs.len() ==> disappears(#[trigger] fx[1 + 2 * k], cs[k]) && is_remove_dir(
            fx[2 + 2 * k],
            images_dir(root, cs[k].context@),
        )
    &&& is_remove_dir(fx[1 + 2 * cs.len() as int], images_dir(root, p.context@))
    &&& saves(fx[2 + 2 * cs.len() as int], device)
}

/// The effects of removing child `k` of `p`, giving `n`: the child is
/// announced as gone and its directory deleted, a toggle-action that keeps
/// children shows its new state, and the profile is saved.
pub open spec fn remove_child_effects(
    p: ActionInstance,
    n: ActionInstance,
    k: int,
    fx: Seq<Effect>,
    root: Seq<char>,
    device: Seq<char>,
) -> bool {
    let child = p.children.unwrap()@[k];
    let shows = kind_of(p.action.uuid@) == ActionKind::Toggle && n.children.unwrap()@.len() > 0;
    &&& fx.len() == if shows {
        4int
    } else {
        3int
    }
    &&& disappears(fx[0], child)
    &&& is_remove_dir(fx[1], images_dir(root, child.context@))
    &&& shows ==> updates(fx[2], p.context@)
    &&& saves(fx[fx.len() - 1], device)
}

/// The position of the first child of `children` at `c`, or the length.
pub open spec fn child_position(children: Seq<ActionInstance>, c: ActionContextView) -> int
    decreases children.len(),
{
    if children.len() == 0 {
        0
    } else if children.last().context@ == c && child_position(children.drop_last(), c)
        == children.len() - 1 {
        children.len() - 1
    } else if child_position(children.drop_last(), c) < children.len() - 1 {
        child_position(children.drop_last(), c)
    } else {
        children.len() as int
    }
}

/// The current state of a toggle-action after its children shrank to `len`.
pub open spec fn clamped(current: u16, len: int) -> u16 {
    if current as int >= len {
        if len == 0 {
            0
        } else {
            (len - 1) as u16
        }
    } else {
        current
    }
}

/// The current state of an instance with `states` states and `children`
/// children: kept while it indexes either, else the last index of the longer.
pub open spec fn refit(current: u16, states: int, children: int) -> u16 {
    if (current as int) < states || (current as int) < children || current == 0 {
        current
    } else if states >= children {
        (states - 1) as u16
    } else {
        (children - 1) as u16
    }
}

/// What removing child position `k` does to the composite `p`, giving `n`.
pub open spec fn remove_child_spec(p: ActionInstance, n: ActionInstance, k: int) -> bool {
    let cs = p.children.unwrap()@;
    let ncs = n.children.unwrap()@;
    &&& n.children is Some
    &&& ncs == cs.remove(k)
    &&& n.action == p.action
    &&& n.context == p.context
    &&& n.settings == p.settings
    &&& if kind_of(p.action.uuid@) == ActionKind::Toggle {
        &&& n.current_state == clamped(p.current_state, ncs.len() as int)
        &&& if ncs.len() > 0 {
            n.states@ == p.states@.subrange(0, p.states@.len() - 1) || (p.states@.len() == 0
                && n.states@.len() == 0)
        } else {
            n.states == p.states
        }
    } else {
        n.current_state == refit(p.current_state, p.states@.len() as int, ncs.len() as int)
            && n.states == p.states
    }
}

/// Finds the child of `children` at `c`.
fn find_child(children: &Vec<ActionInstance>, c: &ActionContext) -> (r: usize)
    ensures
        r as int == child_position(children@, c@),
        r <= children@.len(),
        r < children@.len() ==> children@[r as int].context@ == c@,
        forall|k: int| 0 <= k < r ==> children@[k].context@ != c@,
{
    let mut i: usize = 0;
    while i < children.len()
        invariant
            i <= children@.len(),
            forall|k: int| 0 <= k < i ==> children@[k].context@ != c@,
            child_position(children@.subrange(0, i as int), c@) == i,
        decreases children@.len() - i,
    {
        proof {
            assert(children@.subrange(0, i + 1).drop_last() =~= children@.subrange(0, i as int));
        }
        if children[i].context.same(c) {
            proof {
                lemma_position_stable(children@, c@, i as int);
            }
            return i;
        }
        i = i + 1;
    }
    assert(children@.subrange(0, i as int) =~= children@);
    i
}

proof fn lemma_position_stable(s: Seq<ActionInstance>, c: ActionContextView, i: int)
    requires
        0 <= i < s.len(),
        s[i].context@ == c,
        child_position(s.subrange(0, i), c) == i,
    ensures
        child_position(s, c) == i,
    decreases s.len() - i,
{
    if i + 1 == s.len() {
        assert(s.subrange(0, i) =~= s.drop_last());
    } else {
        assert(s.drop_last().subrange(0, i) =~= s.subrange(0, i));
        lemma_position_stable(s.drop_last(), c, i);
    }
}

/// Unbinds the instance at `context`. A top-level instance leaves its slot
/// empty and its asset directory, and each child's, is deleted. A child is
/// taken out of its parent, the others keeping their order; a toggle-action
/// parent then has its current state clamped and its last synthetic state
/// dropped.
pub fn remove_instance(store: &mut ProfileStore, root: &String, context: &ActionContext) -> (r:
    Result<Outcome<()>, StoreError>)
    requires
        old(store).wf(),
    ensures
        final(store).wf(),
        final(store).selections == old(store).selections,
        !has_slot(old(store).slots@, slot_of(context@)) ==> r == Err::<Outcome<()>, StoreError>(
            StoreError::ProfileNotLoaded,
        ) && *final(store) == *old(store),
        forall|i: int| #[trigger]
            slot_is(old(store).slots@, i, slot_of(context@)) ==> {
                let o = old(store).slots@[i].instance;
                let n = final(store).slots@[i].instance;
                &&& final(store).slots@.len() == old(store).slots@.len()
                &&& final(store).slots@[i].context == old(store).slots@[i].context
                &&& forall|j: int|
                    0 <= j < old(store).slots@.len() && j != i ==> final(store).slots@[j]
                        == old(store).slots@[j]
                &&& match o {
                    None => r == Err::<Outcome<()>, StoreError>(StoreError::InstanceNotFound)
                        && n is None,
                    Some(p) => if p.context@ == context@ {
                        &&& r is Ok
                        &&& n is None
                        &&& remove_top_effects(p, r.unwrap().effects@, root@, context.device@)
                    } else if p.children is None || child_position(p.children.unwrap()@, context@)
                        == p.children.unwrap()@.len() {
                        r == Err::<Outcome<()>, StoreError>(StoreError::InstanceNotFound) && n == o
                    } else {
                        &&& r is Ok
                        &&& n is Some
                        &&& remove_child_spec(
                            p,
                            n.unwrap(),
                            child_position(p.children.unwrap()@, context@),
                        )
                        &&& remove_child_effects(
                            p,
                            n.unwrap(),
                            child_position(p.children.unwrap()@, context@),
                            r.unwrap().effects@,
                            root@,
                            context.device@,
                        )
                    },
                }
            },
{
    let i = match store.find_slot(&context.slot()) {
        Ok(i) => i,
        Err(e) => return Err(e),
    };
    let mut effects: Vec<Effect> = Vec::new();
    let taken = store.take_slot(i);
    let mut instance = match taken {
        None => return Err(StoreError::InstanceNotFound),
        Some(p) => p,
    };
    if instance.context.same(context) {
        effects.push(Effect::WillDisappear(instance.copy()));
        match &instance.children {
            None => {
                assert(effects@.len() == 1 && disappears(effects@[0], instance));
            },
            Some(children) => {
                let mut k: usize = 0;
                while k < children.len()
                    invariant
                        k <= children@.len(),
                        effects@.len() == 1 + 2 * k,
                        disappears(effects@[0], instance),
                        forall|m: int|
                            0 <= m < k ==> is_remove_dir(
                                #[trigger] effects@[2 + 2 * m],
                                images_dir(root@, children@[m].context@),
                            ) && disappears(effects@[1 + 2 * m], children@[m]),
                    decreases children@.len() - k,
                {
                    effects.push(Effect::WillDisappear(children[k].copy()));
                    effects.push(
                        Effect::RemoveDir(instance_images_dir(root, &children[k].context)),
                    );
                    k = k + 1;
                }
            },
        }
        let ghost before = effects@;
        effects.push(Effect::RemoveDir(instance_images_dir(root, &instance.context)));
        effects.push(Effect::SaveProfile(context.device.clone()));
        proof {
            let cs = if instance.children is Some {
                instance.children.unwrap()@
            } else {
                Seq::empty()
            };
            assert(before.len() == 1 + 2 * cs.len());
            assert forall|k: int| 0 <= k < cs.len() implies disappears(
                #[trigger] effects@[1 + 2 * k],
                cs[k],
            ) && is_remove_dir(effects@[2 + 2 * k], images_dir(root@, cs[k].context@)) by {
                assert(effects@[1 + 2 * k] == before[1 + 2 * k]);
                assert(effects@[2 + 2 * k] == before[2 + 2 * k]);
            }
            assert(effects@[0] == before[0]);
        }
        return Ok(Outcome { value: (), effects });
    }
    let ghost p = instance;
    let mut kids: Option<Vec<ActionInstance>> = None;
    std::mem::swap(&mut kids, &mut instance.children);
    let mut children = match kids {
        None => {
            store.put_slot(i, Some(instance));
            return Err(StoreError::InstanceNotFound);
        },
        Some(c) => c,
    };
    let k = find_child(&children, context);
    if k == children.len() {
        instance.children = Some(children);
        store.put_slot(i, Some(instance));
        return Err(StoreError::InstanceNotFound);
    }
    let gone = children.remove(k);
    effects.push(Effect::WillDisappear(gone.copy()));
    effects.push(Effect::RemoveDir(instance_images_dir(root, &gone.context)));
    let len = children.len();
    instance.children = Some(children);
    if action_kind(&instance.action.uuid) == ActionKind::Toggle {
        if instance.current_state as usize >= len {
            instance.current_state = if len == 0 {
                0
            } else {
                (len - 1) as u16
            };
        }
        if len > 0 {
            instance.states.pop();
            assert(instance.states@ =~= p.states@.subrange(0, p.states@.len() - 1) || (
            p.states@.len() == 0 && instance.states@.len() == 0));
            effects.push(Effect::UpdateState(instance.context.copy()));
        }
    } else {
        let cur = instance.current_state as usize;
        let ns = instance.states.len();
        if !(cur < ns || cur < len || cur == 0) {
            instance.current_state = if ns >= len {
                (ns - 1) as u16
            } else {
                (len - 1) as u16
            };
        }
    }
    store.put_slot(i, Some(instance));
    effects.push(Effect::SaveProfile(context.device.clone()));
    Ok(Outcome { value: (), effects })
}

/// The instance at index `index` of a slot that holds `o`: the slot's own
/// instance for 0, its child `index - 1` otherwise.
pub open spec fn instance_in(o: Option<ActionInstance>, index: u16) -> Option<ActionInstance> {
    match o {
        None => None,
        Some(p) => if index == 0 {
            Some(p)
        } else {
            match p.children {
                None => None,
                Some(cs) => if index - 1 < cs@.len() {
                    Some(cs@[index - 1])
                } else {
                    None
                },
            }
        },
    }
}

/// A copy of the instance at `context`: `ProfileNotLoaded` where its slot is
/// not loaded, `None` where nothing is bound there.
pub fn get_instance(store: &ProfileStore, context: &ActionContext) -> (r: Result<
    Option<ActionInstance>,
    StoreError,
>)
    requires
        store.wf(),
    ensures
        !has_slot(store.slots@, slot_of(context@)) ==> r == Err::<Option<ActionInstance>, StoreError>(
            StoreError::ProfileNotLoaded,
        ),
        forall|i: int| #[trigger]
            slot_is(store.slots@, i, slot_of(context@)) ==> {
                let x = instance_in(store.slots@[i].instance, context.index);
                &&& r is Ok
                &&& (r.unwrap() is Some) == (x is Some)
                &&& x is Some ==> r.unwrap().unwrap()@ == x.unwrap()@
            },
{
    let i = match store.find_slot(&context.slot()) {
        Ok(i) => i,
        Err(e) => return Err(e),
    };
    match &store.slots[i].instance {
        None => Ok(None),
        Some(p) => if context.index == 0 {
            Ok(Some(p.copy()))
        } else {
            match &p.children {
                None => Ok(None),
                Some(cs) => if ((context.index - 1) as usize) < cs.len() {
                    Ok(Some(cs[(context.index - 1) as usize].copy()))
                } else {
                    Ok(None)
                },
            }
        },
    }
}

/// The UI notice for `context`, carrying a copy of what is stored there now.
pub fn update_state(store: &ProfileStore, context: &ActionContext) -> (r: UpdateStateEvent)
    requires
        store.wf(),
    ensures
        r.context@ == context@,
        !has_slot(store.slots@, slot_of(context@)) ==> r.contents is None,
        forall|i: int| #[trigger]
            slot_is(store.slots@, i, slot_of(context@)) ==> {
                let x = instance_in(store.slots@[i].instance, context.index);
                &&& (r.contents is Some) == (x is Some)
                &&& x is Some ==> r.contents.unwrap()@ == x.unwrap()@
            },
{
    let contents = match get_instance(store, context) {
        Ok(c) => c,
        Err(_) => None,
    };
    UpdateStateEvent { context: context.copy(), contents }
}

/// Whether `profile` is the profile selected on `device`.
pub fn is_selected(store: &ProfileStore, device: &String, profile: &String) -> (r: bool)
    requires
        store.wf(),
    ensures
        r == exists|s: int|
            0 <= s < store.selections@.len() && store.selections@[s].device@ == device@
                && store.selections@[s].profile@ == profile@,
{
    match store.get_selected_profile(device) {
        Ok(p) => {
            let r = p == *profile;
            proof {
                if !r {
                    assert forall|s: int|
                        0 <= s < store.selections@.len() && store.selections@[s].device@
                            == device@ implies store.selections@[s].profile@ != profile@ by {
                        let w = choose|w: int|
                            0 <= w < store.selections@.len() && store.selections@[w].device@
                                == device@ && store.selections@[w].profile@ == p@;
                        assert(s == w);
                    }
                }
            }
            r
        },
        Err(_) => false,
    }
}

/// Asks for `image` to be shown on the device key of `context`, which is
/// only done while its profile is the one selected on the device.
pub fn update_image(store: &ProfileStore, context: &Context, image: String) -> (r: Option<Effect>)
    requires
        store.wf(),
    ensures
        (r is Some) == exists|s: int|
            0 <= s < store.selections@.len() && store.selections@[s].device@ == context.device@
                && store.selections@[s].profile@ == context.profile@,
        r is Some ==> (r.unwrap() matches Effect::DeviceImage { context: c, image: i } && c@
            == context@ && i == image),
{
    if is_selected(store, &context.device, &context.profile) {
        Some(Effect::DeviceImage { context: context.copy(), image })
    } else {
        None
    }
}

/// `i` can be stored at its own context: its children carry no children,
/// and as a child it carries none itself.
pub open spec fn storable(i: ActionInstance) -> bool {
    &&& crate::model::children_flat(i)
    &&& i.context.index > 0 ==> i.children is None
    &&& i.context.index == 0 ==> crate::store::state_in_bounds(i)
}

/// Whether `i` can be stored at its own context.
pub fn is_storable(i: &ActionInstance) -> (r: bool)
    ensures
        r == storable(*i),
{
    if i.context.index == 0 && !crate::store::is_in_bounds(i) {
        return false;
    }
    match &i.children {
        None => true,
        Some(c) => {
            if i.context.index > 0 {
                return false;
            }
            let mut k: usize = 0;
            while k < c.len()
                invariant
                    i.children == Some(*c),
                    k <= c@.len(),
                    forall|j: int| 0 <= j < k ==> (#[trigger] c@[j]).children is None,
                decreases c@.len() - k,
            {
                if c[k].children.is_some() {
                    assert(c@[k as int].children is Some);
                    return false;
                }
                k = k + 1;
            }
            true
        },
    }
}

/// Replaces the instance stored at `instance.context` with `instance`, as a
/// whole, and raises a title-parameters change for `state`.
pub fn set_state(store: &mut ProfileStore, instance: ActionInstance, state: u16) -> (r: Result<
    Outcome<()>,
    StoreError,
>)
    requires
        old(store).wf(),
        storable(instance),
    ensures
        r is Ok ==> {
            let fx = r.unwrap().effects@;
            &&& fx.len() == 2
            &&& saves(fx[0], instance.context.device@)
            &&& fx[1] matches Effect::TitleParametersChanged { instance: x, state: t } && x@
                == instance@ && t == state
        },
        final(store).wf(),
        final(store).selections == old(store).selections,
        !has_slot(old(store).slots@, slot_of(instance.context@)) ==> r == Err::<
            Outcome<()>,
            StoreError,
        >(StoreError::ProfileNotLoaded) && *final(store) == *old(store),
        forall|i: int| #[trigger]
            slot_is(old(store).slots@, i, slot_of(instance.context@)) ==> {
                let o = old(store).slots@[i].instance;
                let n = final(store).slots@[i].instance;
                let idx = instance.context.index;
                &&& final(store).slots@.len() == old(store).slots@.len()
                &&& final(store).slots@[i].context == old(store).slots@[i].context
                &&& forall|j: int|
                    0 <= j < old(store).slots@.len() && j != i ==> final(store).slots@[j]
                        == old(store).slots@[j]
                &&& if instance_in(o, idx) is None {
                    r == Err::<Outcome<()>, StoreError>(StoreError::InstanceNotFound) && n == o
                } else if idx == 0 {
                    r is Ok && n == Some(instance)
                } else {
                    let p = o.unwrap();
                    let q = n.unwrap();
                    &&& r is Ok
                    &&& n is Some
                    &&& q.action == p.action
                    &&& q.context == p.context
                    &&& q.states == p.states
                    &&& q.current_state == p.current_state
                    &&& q.settings == p.settings
                    &&& q.children is Some
                    &&& q.children.unwrap()@ == p.children.unwrap()@.update(idx - 1, instance)
                }
            },
{
    let i = match store.find_slot(&instance.context.slot()) {
        Ok(i) => i,
        Err(e) => return Err(e),
    };
    let mut effects: Vec<Effect> = Vec::new();
    let idx = instance.context.index;
    let taken = store.take_slot(i);
    let mut parent = match taken {
        None => return Err(StoreError::InstanceNotFound),
        Some(p) => p,
    };
    let note = Effect::TitleParametersChanged { instance: instance.copy(), state };
    let device = instance.context.device.clone();
    if idx == 0 {
        store.put_slot(i, Some(instance));
    } else {
        let mut kids: Option<Vec<ActionInstance>> = None;
        std::mem::swap(&mut kids, &mut parent.children);
        let mut children = match kids {
            None => {
                store.put_slot(i, Some(parent));
                return Err(StoreError::InstanceNotFound);
            },
            Some(c) => c,
        };
        if ((idx - 1) as usize) >= children.len() {
            parent.children = Some(children);
            store.put_slot(i, Some(parent));
            return Err(StoreError::InstanceNotFound);
        }
        children.set((idx - 1) as usize, instance);
        parent.children = Some(children);
        store.put_slot(i, Some(parent));
    }
    effects.push(Effect::SaveProfile(device));
    effects.push(note);
    Ok(Outcome { value: (), effects })
}

} // verus!
