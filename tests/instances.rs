use opendeck::effect::Effect;
use opendeck::instances::{
    create_instance, get_instance, move_instance, remove_instance, set_state, update_children_and_states,
};
use opendeck::model::{Action, ActionContext, ActionInstance, ActionState, Context};
use opendeck::paths::{instance_images_dir, rebase_image};
use opendeck::store::{ProfileStore, Selection, Slot, StoreError};

fn action(uuid: &str, controllers: &[&str], images: &[&str]) -> Action {
    Action {
        name: uuid.to_owned(),
        uuid: uuid.to_owned(),
        plugin: "plugin.one".to_owned(),
        icon: "icon.png".to_owned(),
        disable_automatic_states: false,
        controllers: controllers.iter().map(|c| c.to_string()).collect(),
        states: images.iter().map(|i| ActionState { image: i.to_string() }).collect(),
    }
}

fn ctx(device: &str, position: u8) -> Context {
    Context {
        device: device.to_owned(),
        profile: "Default".to_owned(),
        controller: "Keypad".to_owned(),
        position,
    }
}

fn store(slots: &[(&str, u8)]) -> ProfileStore {
    ProfileStore {
        selections: vec![Selection { device: "dev".to_owned(), profile: "Default".to_owned() }],
        slots: slots.iter().map(|(d, p)| Slot { context: ctx(d, *p), instance: None }).collect(),
    }
}

fn slot(store: &ProfileStore, position: u8) -> &Option<ActionInstance> {
    &store.slots.iter().find(|s| s.context.position == position).unwrap().instance
}

#[test]
fn create_simple_has_no_children() {
    let mut s = store(&[("dev", 0)]);
    let a = action("plugin.one.press", &["Keypad"], &["a.png", "b.png"]);
    let out = create_instance(&mut s, &a, &ctx("dev", 0)).unwrap();
    let made = out.value.unwrap();
    assert!(made.children.is_none());
    assert_eq!(made.context.index, 0);
    assert_eq!(made.current_state, 0);
    assert_eq!(made.states.len(), 2);
    assert_eq!(made.settings, serde_json::Value::Object(serde_json::Map::new()));
    assert!(slot(&s, 0).is_some());
    assert!(matches!(out.effects.last(), Some(Effect::WillAppear(_))));
}

#[test]
fn create_composites_start_empty() {
    let mut s = store(&[("dev", 0), ("dev", 1), ("dev", 2)]);
    for (uuid, pos) in [("opendeck.multiaction", 0u8), ("opendeck.toggleaction", 1u8)] {
        let a = action(uuid, &["Keypad"], &[]);
        let made = create_instance(&mut s, &a, &ctx("dev", pos)).unwrap().value.unwrap();
        assert_eq!(made.children.map(|c| c.len()), Some(0));
    }
    let a = action("opendeck.doubletap", &["Keypad"], &[]);
    let made = create_instance(&mut s, &a, &ctx("dev", 2)).unwrap().value.unwrap();
    assert!(made.children.is_none());
}

#[test]
fn create_two_children_numbered_in_order() {
    let mut s = store(&[("dev", 0)]);
    let multi = action("opendeck.multiaction", &["Keypad"], &[]);
    create_instance(&mut s, &multi, &ctx("dev", 0)).unwrap();
    let first = action("plugin.one.first", &["Keypad"], &["f.png"]);
    let second = action("plugin.one.second", &["Keypad"], &["s.png"]);
    let m1 = create_instance(&mut s, &first, &ctx("dev", 0)).unwrap().value.unwrap();
    let m2 = create_instance(&mut s, &second, &ctx("dev", 0)).unwrap().value.unwrap();
    assert_eq!(m1.context.index, 1);
    assert_eq!(m2.context.index, 2);
    let parent = slot(&s, 0).as_ref().unwrap();
    let children = parent.children.as_ref().unwrap();
    assert_eq!(children.len(), 2);
    assert_eq!(children[0].action.uuid, "plugin.one.first");
    assert_eq!(children[1].action.uuid, "plugin.one.second");
    assert_eq!(children[1].context.index, 2);
}

#[test]
fn create_under_toggle_always_adds_state() {
    let mut s = store(&[("dev", 0)]);
    let toggle = action("opendeck.toggleaction", &["Keypad"], &["armed.png"]);
    create_instance(&mut s, &toggle, &ctx("dev", 0)).unwrap();
    let child = action("plugin.one.press", &["Keypad"], &[]);
    let out = create_instance(&mut s, &child, &ctx("dev", 0)).unwrap();
    assert_eq!(out.effects.len(), 3);
    assert_eq!(slot(&s, 0).as_ref().unwrap().states.len(), 2);
}

#[test]
fn remove_from_empty_slot_is_not_found() {
    let mut s = store(&[("dev", 0)]);
    let r = remove_instance(&mut s, &"/cfg".to_owned(), &ActionContext::from_context(&ctx("dev", 0), 0));
    assert_eq!(r.err(), Some(StoreError::InstanceNotFound));
}

#[test]
fn create_under_toggle_adds_state() {
    let mut s = store(&[("dev", 0)]);
    let toggle = action("opendeck.toggleaction", &["Keypad"], &[]);
    create_instance(&mut s, &toggle, &ctx("dev", 0)).unwrap();
    let child = action("plugin.one.press", &["Keypad"], &["c.png"]);
    let out = create_instance(&mut s, &child, &ctx("dev", 0)).unwrap();
    assert!(matches!(out.effects[0], Effect::UpdateState(_)));
    let parent = slot(&s, 0).as_ref().unwrap();
    assert_eq!(parent.states.len(), 1);
    assert_eq!(parent.states[0].image, "opendeck/toggle-action.png");
}

#[test]
fn create_under_simple_makes_nothing() {
    let mut s = store(&[("dev", 0)]);
    let a = action("plugin.one.press", &["Keypad"], &[]);
    create_instance(&mut s, &a, &ctx("dev", 0)).unwrap();
    let out = create_instance(&mut s, &a, &ctx("dev", 0)).unwrap();
    assert!(out.value.is_none());
    assert!(out.effects.is_empty());
}

#[test]
fn create_rejects_unsupported_controller() {
    let mut s = store(&[("dev", 0)]);
    let a = action("plugin.one.dial", &["Encoder"], &[]);
    let out = create_instance(&mut s, &a, &ctx("dev", 0)).unwrap();
    assert!(out.value.is_none());
    assert!(slot(&s, 0).is_none());
}

#[test]
fn create_in_unloaded_profile_fails() {
    let mut s = store(&[("dev", 0)]);
    let a = action("plugin.one.press", &["Keypad"], &[]);
    let r = create_instance(&mut s, &a, &ctx("other", 0));
    assert_eq!(r.err(), Some(StoreError::ProfileNotLoaded));
}

#[test]
fn images_dir_layout() {
    let c = ActionContext::from_context(&ctx("dev", 13), 205);
    assert_eq!(instance_images_dir(&"/cfg".to_owned(), &c), "/cfg/images/dev/Default/Keypad.13.205");
    let c = ActionContext::from_context(&ctx("dev", 0), 0);
    assert_eq!(instance_images_dir(&"/cfg".to_owned(), &c), "/cfg/images/dev/Default/Keypad.0.0");
}

#[test]
fn rebase_only_inside_old_dir() {
    let old = "/cfg/a".to_owned();
    let new = "/cfg/b".to_owned();
    assert_eq!(rebase_image(&"/cfg/a/0.png".to_owned(), &old, &new), "/cfg/b/0.png");
    assert_eq!(rebase_image(&"/cfg/a".to_owned(), &old, &new), "/cfg/b");
    assert_eq!(rebase_image(&"/cfg/ab/0.png".to_owned(), &old, &new), "/cfg/ab/0.png");
    assert_eq!(rebase_image(&"shared/x.png".to_owned(), &old, &new), "shared/x.png");
}

#[test]
fn update_children_renumbers_and_rebases() {
    let mut s = store(&[("dev", 0)]);
    let multi = action("opendeck.multiaction", &["Keypad"], &["/cfg/old/m.png", "shared.png"]);
    create_instance(&mut s, &multi, &ctx("dev", 0)).unwrap();
    let child = action("plugin.one.press", &["Keypad"], &["", "two.png"]);
    create_instance(&mut s, &child, &ctx("dev", 0)).unwrap();
    let mut inst = slot(&s, 0).clone().unwrap();
    inst.children.as_mut().unwrap()[0].states[0].image = "custom.png".to_owned();
    inst.children.as_mut().unwrap()[0].states[1].image = "/cfg/old/two.png".to_owned();
    update_children_and_states(&mut inst, &ctx("dev", 4), &"/cfg/old".to_owned(), &"/cfg/new".to_owned());
    assert_eq!(inst.context.position, 4);
    assert_eq!(inst.context.index, 0);
    assert_eq!(inst.states[0].image, "/cfg/new/m.png");
    assert_eq!(inst.states[1].image, "shared.png");
    let c = &inst.children.as_ref().unwrap()[0];
    assert_eq!(c.context.position, 4);
    assert_eq!(c.context.index, 1);
    assert_eq!(c.states[0].image, "custom.png");
    assert_eq!(c.states[1].image, "/cfg/new/two.png");
}

fn own_image(position: u8) -> String {
    format!("/cfg/images/dev/Default/Keypad.{}.0/0.png", position)
}

#[test]
fn move_swaps_occupied_slots() {
    let mut s = store(&[("dev", 0), ("dev", 1)]);
    let root = "/cfg".to_owned();
    let a = action("plugin.one.a", &["Keypad"], &["x.png", "shared/y.png"]);
    let b = action("plugin.one.b", &["Keypad"], &["z.png"]);
    create_instance(&mut s, &a, &ctx("dev", 0)).unwrap();
    create_instance(&mut s, &b, &ctx("dev", 1)).unwrap();
    s.slots[0].instance.as_mut().unwrap().states[0].image = own_image(0);
    let out = move_instance(&mut s, &root, &ctx("dev", 0), &ctx("dev", 1), false).unwrap();
    let res = out.value.unwrap();
    assert_eq!(res.moved_instance.context.position, 1);
    assert_eq!(res.replaced_instance.as_ref().unwrap().context.position, 0);
    let at1 = slot(&s, 1).as_ref().unwrap();
    let at0 = slot(&s, 0).as_ref().unwrap();
    assert_eq!(at1.action.uuid, "plugin.one.a");
    assert_eq!(at0.action.uuid, "plugin.one.b");
    assert_eq!(at1.states[0].image, own_image(1));
    assert_eq!(at1.states[1].image, "shared/y.png");
    match &out.effects[0] {
        Effect::SwapDirs { source, destination } => {
            assert_eq!(source, "/cfg/images/dev/Default/Keypad.0.0");
            assert_eq!(destination, "/cfg/images/dev/Default/Keypad.1.0");
        },
        _ => panic!("the directories are not swapped first"),
    }
    assert!(matches!(out.effects.last(), Some(Effect::SaveProfile(d)) if d == "dev"));
}

#[test]
fn move_and_back_restores() {
    let mut s = store(&[("dev", 0), ("dev", 1)]);
    let root = "/cfg".to_owned();
    let a = action("plugin.one.a", &["Keypad"], &["x.png"]);
    create_instance(&mut s, &a, &ctx("dev", 0)).unwrap();
    s.slots[0].instance.as_mut().unwrap().states[0].image = own_image(0);
    move_instance(&mut s, &root, &ctx("dev", 0), &ctx("dev", 1), false).unwrap();
    assert!(slot(&s, 0).is_none());
    move_instance(&mut s, &root, &ctx("dev", 1), &ctx("dev", 0), false).unwrap();
    assert!(slot(&s, 1).is_none());
    let back = slot(&s, 0).as_ref().unwrap();
    assert_eq!(back.context.position, 0);
    assert_eq!(back.states[0].image, own_image(0));
}

#[test]
fn move_with_retain_keeps_source() {
    let mut s = store(&[("dev", 0), ("dev", 1)]);
    let a = action("plugin.one.a", &["Keypad"], &["x.png"]);
    create_instance(&mut s, &a, &ctx("dev", 0)).unwrap();
    move_instance(&mut s, &"/cfg".to_owned(), &ctx("dev", 0), &ctx("dev", 1), true).unwrap();
    assert_eq!(slot(&s, 0).as_ref().unwrap().context.position, 0);
    assert_eq!(slot(&s, 1).as_ref().unwrap().context.position, 1);
}

#[test]
fn move_to_same_slot_or_other_controller_does_nothing() {
    let mut s = store(&[("dev", 0), ("dev", 1)]);
    let a = action("plugin.one.a", &["Keypad"], &[]);
    create_instance(&mut s, &a, &ctx("dev", 0)).unwrap();
    let out = move_instance(&mut s, &"/cfg".to_owned(), &ctx("dev", 0), &ctx("dev", 0), false).unwrap();
    assert!(out.value.is_none());
    let mut dial = ctx("dev", 1);
    dial.controller = "Encoder".to_owned();
    let out = move_instance(&mut s, &"/cfg".to_owned(), &ctx("dev", 0), &dial, false).unwrap();
    assert!(out.value.is_none());
    assert!(slot(&s, 0).is_some());
}

#[test]
fn remove_top_level_deletes_all_dirs() {
    let mut s = store(&[("dev", 0)]);
    let multi = action("opendeck.multiaction", &["Keypad"], &[]);
    create_instance(&mut s, &multi, &ctx("dev", 0)).unwrap();
    let child = action("plugin.one.press", &["Keypad"], &[]);
    create_instance(&mut s, &child, &ctx("dev", 0)).unwrap();
    create_instance(&mut s, &child, &ctx("dev", 0)).unwrap();
    let out = remove_instance(&mut s, &"/cfg".to_owned(), &ActionContext::from_context(&ctx("dev", 0), 0)).unwrap();
    assert!(slot(&s, 0).is_none());
    let dirs: Vec<&String> = out
        .effects
        .iter()
        .filter_map(|e| match e {
            Effect::RemoveDir(d) => Some(d),
            _ => None,
        })
        .collect();
    assert_eq!(
        dirs,
        vec![
            "/cfg/images/dev/Default/Keypad.0.1",
            "/cfg/images/dev/Default/Keypad.0.2",
            "/cfg/images/dev/Default/Keypad.0.0",
        ]
    );
}

#[test]
fn remove_child_keeps_sibling_order() {
    let mut s = store(&[("dev", 0)]);
    let multi = action("opendeck.multiaction", &["Keypad"], &[]);
    create_instance(&mut s, &multi, &ctx("dev", 0)).unwrap();
    for uuid in ["plugin.one.a", "plugin.one.b", "plugin.one.c"] {
        create_instance(&mut s, &action(uuid, &["Keypad"], &[]), &ctx("dev", 0)).unwrap();
    }
    remove_instance(&mut s, &"/cfg".to_owned(), &ActionContext::from_context(&ctx("dev", 0), 2)).unwrap();
    let children = slot(&s, 0).as_ref().unwrap().children.as_ref().unwrap();
    let names: Vec<&str> = children.iter().map(|c| c.action.uuid.as_str()).collect();
    assert_eq!(names, vec!["plugin.one.a", "plugin.one.c"]);
    assert_eq!(children[0].context.index, 1);
    assert_eq!(children[1].context.index, 3);
}

#[test]
fn remove_last_toggle_child_clamps_state() {
    let mut s = store(&[("dev", 0)]);
    let toggle = action("opendeck.toggleaction", &["Keypad"], &[]);
    create_instance(&mut s, &toggle, &ctx("dev", 0)).unwrap();
    let child = action("plugin.one.press", &["Keypad"], &[]);
    create_instance(&mut s, &child, &ctx("dev", 0)).unwrap();
    create_instance(&mut s, &child, &ctx("dev", 0)).unwrap();
    s.slots[0].instance.as_mut().unwrap().current_state = 1;
    remove_instance(&mut s, &"/cfg".to_owned(), &ActionContext::from_context(&ctx("dev", 0), 2)).unwrap();
    let parent = slot(&s, 0).as_ref().unwrap();
    assert_eq!(parent.current_state, 0);
    assert_eq!(parent.states.len(), 1);
    remove_instance(&mut s, &"/cfg".to_owned(), &ActionContext::from_context(&ctx("dev", 0), 1)).unwrap();
    let parent = slot(&s, 0).as_ref().unwrap();
    assert_eq!(parent.current_state, 0);
    assert_eq!(parent.children.as_ref().unwrap().len(), 0);
}

#[test]
fn remove_missing_child_is_not_found() {
    let mut s = store(&[("dev", 0)]);
    let a = action("plugin.one.press", &["Keypad"], &[]);
    create_instance(&mut s, &a, &ctx("dev", 0)).unwrap();
    let r = remove_instance(&mut s, &"/cfg".to_owned(), &ActionContext::from_context(&ctx("dev", 0), 1));
    assert_eq!(r.err(), Some(StoreError::InstanceNotFound));
    assert!(slot(&s, 0).is_some());
}

#[test]
fn set_state_replaces_instance() {
    let mut s = store(&[("dev", 0)]);
    let a = action("plugin.one.press", &["Keypad"], &["a.png", "b.png"]);
    let mut made = create_instance(&mut s, &a, &ctx("dev", 0)).unwrap().value.unwrap();
    made.current_state = 1;
    made.states[1].image = "c.png".to_owned();
    let out = set_state(&mut s, made, 1).unwrap();
    let now = get_instance(&s, &ActionContext::from_context(&ctx("dev", 0), 0)).unwrap().unwrap();
    assert_eq!(now.current_state, 1);
    assert_eq!(now.states[1].image, "c.png");
    assert!(matches!(out.effects[1], Effect::TitleParametersChanged { state: 1, .. }));
}

#[test]
fn set_state_on_empty_slot_is_not_found() {
    let mut s = store(&[("dev", 0), ("dev", 1)]);
    let a = action("plugin.one.press", &["Keypad"], &[]);
    let made = create_instance(&mut s, &a, &ctx("dev", 0)).unwrap().value.unwrap();
    let mut moved = made.clone();
    moved.context.position = 1;
    assert_eq!(set_state(&mut s, moved, 0).err(), Some(StoreError::InstanceNotFound));
}

#[test]
fn move_announces_departures_first() {
    let mut s = store(&[("dev", 0), ("dev", 1)]);
    create_instance(&mut s, &action("plugin.one.a", &["Keypad"], &[]), &ctx("dev", 0)).unwrap();
    create_instance(&mut s, &action("plugin.one.b", &["Keypad"], &[]), &ctx("dev", 1)).unwrap();
    let out = move_instance(&mut s, &"/cfg".to_owned(), &ctx("dev", 0), &ctx("dev", 1), false).unwrap();
    let kinds: Vec<&str> = out
        .effects
        .iter()
        .map(|e| match e {
            Effect::SwapDirs { .. } => "swap",
            Effect::WillDisappear(_) => "gone",
            Effect::WillAppear(_) => "here",
            Effect::SaveProfile(_) => "save",
            _ => "other",
        })
        .collect();
    assert_eq!(kinds, vec!["swap", "gone", "gone", "here", "here", "save"]);
}

#[test]
fn remove_child_of_multi_refits_state() {
    let mut s = store(&[("dev", 0)]);
    create_instance(&mut s, &action("opendeck.multiaction", &["Keypad"], &[]), &ctx("dev", 0)).unwrap();
    let child = action("plugin.one.press", &["Keypad"], &[]);
    create_instance(&mut s, &child, &ctx("dev", 0)).unwrap();
    create_instance(&mut s, &child, &ctx("dev", 0)).unwrap();
    s.slots[0].instance.as_mut().unwrap().current_state = 1;
    let out = remove_instance(&mut s, &"/cfg".to_owned(), &ActionContext::from_context(&ctx("dev", 0), 2)).unwrap();
    assert_eq!(slot(&s, 0).as_ref().unwrap().current_state, 0);
    assert_eq!(out.effects.len(), 3);
}
