use vstd::prelude::*;
use crate::instances::{
    create_spec, kind_of, move_spec, relocated, relocated_child, remove_child_spec,
    ActionKind,
};
use crate::keypad::{bumped, counter, tap_target, toggled, TapCounters};
use crate::model::{at_index, images_of, ActionInstance, ActionView, ContextView};
use crate::paths::{rebased, under};

verus! {

/// Two instances created in turn under a composite with no children become
/// its children 1 and 2, in the order they were created.
pub proof fn lemma_children_numbered_in_order(
    first: ActionInstance,
    second: Option<ActionInstance>,
    third: Option<ActionInstance>,
    m1: Option<ActionInstance>,
    m2: Option<ActionInstance>,
    a1: ActionView,
    a2: ActionView,
    c: ContextView,
)
    requires
        first.children is Some,
        first.children.unwrap()@.len() == 0,
        create_spec(Some(first), second, m1, a1, c),
        create_spec(second, third, m2, a2, c),
    ensures
        third is Some,
        third.unwrap().children is Some,
        third.unwrap().children.unwrap()@.len() == 2,
        third.unwrap().children.unwrap()@[0].context.index == 1,
        third.unwrap().children.unwrap()@[1].context.index == 2,
        third.unwrap().children.unwrap()@[0]@ == m1.unwrap()@,
        third.unwrap().children.unwrap()@[1]@ == m2.unwrap()@,
{
    let c1 = second.unwrap().children.unwrap()@;
    let c2 = third.unwrap().children.unwrap()@;
    assert(c2.drop_last() == c1);
    assert(c2[0] == c1[0]);
}

/// A new top-level instance starts with an empty child list when its action
/// is a multi-action or a toggle-action, and with none otherwise.
pub proof fn lemma_fresh_children(
    new: Option<ActionInstance>,
    made: Option<ActionInstance>,
    action: ActionView,
    c: ContextView,
)
    requires
        create_spec(None, new, made, action, c),
    ensures
        (kind_of(action.uuid) == ActionKind::Simple || kind_of(action.uuid) == ActionKind::DoubleTap)
            ==> new.unwrap().children is None,
        (kind_of(action.uuid) == ActionKind::Multi || kind_of(action.uuid) == ActionKind::Toggle)
            ==> new.unwrap().children is Some && new.unwrap().children.unwrap()@.len() == 0,
        new.unwrap().context.index == 0,
{
}

/// Rebasing a path from `a` to `b` and back gives it back, unless it already
/// lay in `b`.
pub proof fn lemma_rebase_round_trip(x: Seq<char>, a: Seq<char>, b: Seq<char>)
    requires
        x != b,
        !under(x, b),
    ensures
        rebased(rebased(x, a, b), b, a) == x,
{
    if x == a {
    } else if under(x, a) {
        let rest = x.subrange(a.len() as int, x.len() as int);
        let y = b + rest;
        assert(y.subrange(0, b.len() as int) =~= b);
        assert(y[b.len() as int] == rest[0]);
        assert(y != b) by {
            assert(y.len() > b.len());
        }
        assert(y.subrange(b.len() as int, y.len() as int) =~= rest);
        assert(a + rest =~= x) by {
            assert(x.subrange(0, a.len() as int) == a);
        }
    }
}

/// No image of `states` lies in the directory `dir` or below it.
pub open spec fn clear_of(states: Seq<crate::model::ActionState>, dir: Seq<char>) -> bool {
    forall|i: int|
        0 <= i < states.len() ==> (#[trigger] states[i]).image@ != dir && !under(states[i].image@, dir)
}

/// `o` is laid out as slot `a` gives it, index 0 at `a` and children
/// numbered 1.. in order, and no image of it or of a child lies inside the
/// directory `other`.
pub open spec fn laid_out(o: ActionInstance, a: ContextView, other: Seq<char>) -> bool {
    &&& o.context@ == at_index(a, 0)
    &&& clear_of(o.states@, other)
    &&& o.children is Some ==> forall|k: int|
        0 <= k < o.children.unwrap()@.len() ==> {
            let ch = #[trigger] o.children.unwrap()@[k];
            &&& ch.context@ == at_index(a, (k + 1) as u16)
            &&& clear_of(ch.states@, other)
        }
}

/// States whose images were rebased from `da` to `db`, and then (as stored)
/// back, have the images they started with, where none lay in `db`.
pub proof fn lemma_images_back(
    o: Seq<crate::model::ActionState>,
    m: Seq<crate::model::ActionState>,
    stored: Seq<crate::model::ActionState>,
    back: Seq<crate::model::ActionState>,
    da: Seq<char>,
    db: Seq<char>,
)
    requires
        clear_of(o, db),
        images_of(m) == images_of(o).map_values(|x: Seq<char>| rebased(x, da, db)),
        images_of(stored) == images_of(m),
        images_of(back) == images_of(stored).map_values(|x: Seq<char>| rebased(x, db, da)),
    ensures
        images_of(back) == images_of(o),
{
    assert(images_of(o).len() == o.len());
    assert forall|i: int| 0 <= i < o.len() implies images_of(back)[i] == images_of(o)[i] by {
        assert(images_of(o)[i] == o[i].image@);
        lemma_rebase_round_trip(o[i].image@, da, db);
        assert(images_of(stored)[i] == images_of(m)[i]);
    }
    assert(images_of(back) =~= images_of(o));
}

/// An instance moved from slot `a` (asset directory `da`) to slot `b` (`db`)
/// and then, as stored there, straight back is what it was, provided it was
/// laid out as its slot gives it.
pub proof fn lemma_move_back_restores(
    o: ActionInstance,
    m: ActionInstance,
    stored: ActionInstance,
    back: ActionInstance,
    a: ContextView,
    b: ContextView,
    da: Seq<char>,
    db: Seq<char>,
)
    requires
        laid_out(o, a, db),
        relocated(o, m, b, da, db),
        stored@ == m@,
        relocated(stored, back, a, db, da),
    ensures
        back@ == o@,
{
    assert(stored.flat() == m.flat());
    lemma_images_back(o.states@, m.states@, stored.states@, back.states@, da, db);
    assert(back.flat() == o.flat());
    if o.children is Some {
        let oc = o.children.unwrap()@;
        let mc = m.children.unwrap()@;
        let sc = stored.children.unwrap()@;
        let bc = back.children.unwrap()@;
        assert(sc.map_values(|x: ActionInstance| x.flat()) == mc.map_values(
            |x: ActionInstance| x.flat(),
        ));
        assert(sc.len() == mc.len());
        assert forall|k: int| 0 <= k < oc.len() implies (#[trigger] bc[k]).flat() == oc[k].flat() by {
            assert(relocated_child(oc[k], mc[k], b, k, da, db));
            assert(relocated_child(sc[k], bc[k], a, k, db, da));
            assert(sc.map_values(|x: ActionInstance| x.flat())[k] == mc.map_values(
                |x: ActionInstance| x.flat(),
            )[k]);
            assert(sc[k].flat() == mc[k].flat());
            assert(clear_of(oc[k].states@, db));
            lemma_images_back(oc[k].states@, mc[k].states@, sc[k].states@, bc[k].states@, da, db);
        }
        assert(bc.map_values(|x: ActionInstance| x.flat()) =~= oc.map_values(
            |x: ActionInstance| x.flat(),
        ));
    }
}

/// Moving the instance at slot `a` to slot `b` and then moving what is at
/// `b` back to `a`, without retaining either time, restores both slots and
/// leaves every other slot alone, provided each instance was laid out as its
/// slot gives it.
pub proof fn lemma_move_and_back(
    s0: Seq<crate::store::Slot>,
    s1: Seq<crate::store::Slot>,
    s2: Seq<crate::store::Slot>,
    ai: int,
    bi: int,
    r1: Option<crate::instances::MoveInstanceResponse>,
    r2: Option<crate::instances::MoveInstanceResponse>,
    a: ContextView,
    b: ContextView,
    da: Seq<char>,
    db: Seq<char>,
)
    requires
        0 <= ai < s0.len(),
        0 <= bi < s0.len(),
        ai != bi,
        s0[ai].instance is Some,
        laid_out(s0[ai].instance.unwrap(), a, db),
        s0[bi].instance is Some ==> laid_out(s0[bi].instance.unwrap(), b, da),
        move_spec(s0, s1, ai, bi, false, r1, da, db, a, b),
        move_spec(s1, s2, bi, ai, false, r2, db, da, b, a),
    ensures
        s2.len() == s0.len(),
        s2[ai].instance is Some && s2[ai].instance.unwrap()@ == s0[ai].instance.unwrap()@,
        (s2[bi].instance is Some) == (s0[bi].instance is Some),
        s0[bi].instance is Some ==> s2[bi].instance.unwrap()@ == s0[bi].instance.unwrap()@,
        forall|j: int| 0 <= j < s0.len() && j != ai && j != bi ==> s2[j] == s0[j],
{
    let o = s0[ai].instance.unwrap();
    let m = r1.unwrap().moved_instance;
    lemma_move_back_restores(o, m, s1[bi].instance.unwrap(), r2.unwrap().moved_instance, a, b, da, db);
    if s0[bi].instance is Some {
        let p = s0[bi].instance.unwrap();
        let q = r1.unwrap().replaced_instance.unwrap();
        lemma_move_back_restores(p, q, s1[ai].instance.unwrap(), r2.unwrap().replaced_instance.unwrap(), b, a, db, da);
    }
}

/// A move between two occupied slots exchanges them: each instance takes the
/// other's slot, at index 0, keeps every state image, and keeps unchanged
/// each image that lay outside its own asset directory; so do the moved
/// instance's children.
pub proof fn lemma_move_swaps(
    old: Seq<crate::store::Slot>,
    new: Seq<crate::store::Slot>,
    si: int,
    di: int,
    retain: bool,
    value: Option<crate::instances::MoveInstanceResponse>,
    src_dir: Seq<char>,
    dst_dir: Seq<char>,
    source: ContextView,
    destination: ContextView,
)
    requires
        0 <= si < old.len(),
        0 <= di < old.len(),
        old[si].instance is Some,
        old[di].instance is Some,
        move_spec(old, new, si, di, retain, value, src_dir, dst_dir, source, destination),
    ensures
        new[di].instance is Some,
        new[si].instance is Some,
        new[di].instance.unwrap()@.top.context == at_index(destination, 0),
        new[si].instance.unwrap()@.top.context == at_index(source, 0),
        new[di].instance.unwrap()@.top.images.len() == old[si].instance.unwrap()@.top.images.len(),
        new[si].instance.unwrap()@.top.images.len() == old[di].instance.unwrap()@.top.images.len(),
        forall|i: int|
            0 <= i < old[si].instance.unwrap()@.top.images.len() && {
                let x = #[trigger] old[si].instance.unwrap()@.top.images[i];
                x != src_dir && !under(x, src_dir)
            } ==> new[di].instance.unwrap()@.top.images[i] == old[si].instance.unwrap()@.top.images[i],
        forall|i: int|
            0 <= i < old[di].instance.unwrap()@.top.images.len() && {
                let x = #[trigger] old[di].instance.unwrap()@.top.images[i];
                x != dst_dir && !under(x, dst_dir)
            } ==> new[si].instance.unwrap()@.top.images[i] == old[di].instance.unwrap()@.top.images[i],
        old[si].instance.unwrap().children is Some ==> {
            let oc = old[si].instance.unwrap()@.children.unwrap();
            let nc = new[di].instance.unwrap()@.children.unwrap();
            &&& new[di].instance.unwrap()@.children is Some
            &&& nc.len() == oc.len()
            &&& forall|k: int, i: int|
                0 <= k < oc.len() && 0 <= i < oc[k].images.len() && oc[k].images[i] != src_dir
                    && !under(oc[k].images[i], src_dir) ==> #[trigger] nc[k].images[i]
                    == oc[k].images[i]
        },
{
    let a = old[si].instance.unwrap();
    let m = value.unwrap().moved_instance;
    if a.children is Some {
        let oc = a.children.unwrap()@;
        let mc = m.children.unwrap()@;
        assert forall|k: int, i: int|
            0 <= k < oc.len() && 0 <= i < oc[k].flat().images.len() && oc[k].flat().images[i]
                != src_dir && !under(oc[k].flat().images[i], src_dir) implies #[trigger] mc[k].flat().images[i]
            == oc[k].flat().images[i] by {
            assert(relocated_child(oc[k], mc[k], destination, k, src_dir, dst_dir));
        }
        assert(new[di].instance.unwrap()@.children == m@.children);
    }
}

/// Removing a child of a toggle-action leaves its current state within the
/// remaining children (0 where none remain); one that pointed at the removed
/// last child moves to the new last.
pub proof fn lemma_toggle_clamped(p: ActionInstance, n: ActionInstance, k: int)
    requires
        kind_of(p.action.uuid@) == ActionKind::Toggle,
        p.children is Some,
        0 <= k < p.children.unwrap()@.len(),
        remove_child_spec(p, n, k),
    ensures
        (n.current_state as int) < if n.children.unwrap()@.len() == 0 {
            1
        } else {
            n.children.unwrap()@.len() as int
        },
        k == p.children.unwrap()@.len() - 1 && p.current_state as int == k ==> n.current_state
            as int == if k == 0 {
            0
        } else {
            k - 1
        },
{
}

/// Releasing a toggle-action with two children alternates between them, and
/// with any number of children it stays among them.
pub proof fn lemma_toggle_cycles(current: u16, len: int)
    requires
        0 < len <= u16::MAX + 1,
    ensures
        (toggled(current, len) as int) < len,
        len == 2 && current == 0 ==> toggled(current, len) == 1,
        len == 2 && current == 1 ==> toggled(current, len) == 0,
{
    assert((current as int + 1) % len < len);
    if len == 2 {
        assert(1int % 2 == 1);
        assert(2int % 2 == 0);
    }
}

/// One press in a window that was closed opens it with a count that goes to
/// the first child; a second press before it closes sends it to the second.
pub proof fn lemma_taps_classified(
    t0: TapCounters,
    t1: TapCounters,
    t2: TapCounters,
    device: Seq<char>,
    key: u8,
)
    requires
        counter(t0.entries@, device, key) is None,
        counter(t1.entries@, device, key) == Some(bumped(counter(t0.entries@, device, key))),
        counter(t2.entries@, device, key) == Some(bumped(counter(t1.entries@, device, key))),
    ensures
        tap_target(counter(t1.entries@, device, key).unwrap()) == 0,
        tap_target(counter(t2.entries@, device, key).unwrap()) == 1,
{
}

} // verus!
