use opendeck::effect::Effect;
use opendeck::instances::create_instance;
use opendeck::keypad::{key_down, key_up, resolve_taps, TapCounters};
use opendeck::model::{Action, ActionState, Context};
use opendeck::store::{ProfileStore, Selection, Slot, StoreError};

fn action(uuid: &str, images: &[&str]) -> Action {
    Action {
        name: uuid.to_owned(),
        uuid: uuid.to_owned(),
        plugin: "plugin.two".to_owned(),
        icon: "icon.png".to_owned(),
        disable_automatic_states: false,
        controllers: vec!["Keypad".to_owned()],
        states: images.iter().map(|i| ActionState { image: i.to_string() }).collect(),
    }
}

fn key(position: u8) -> Context {
    Context {
        device: "dev".to_owned(),
        profile: "Main".to_owned(),
        controller: "Keypad".to_owned(),
        position,
    }
}

fn keypad_store() -> ProfileStore {
    ProfileStore {
        selections: vec![Selection { device: "dev".to_owned(), profile: "Main".to_owned() }],
        slots: (0..4).map(|p| Slot { context: key(p), instance: None }).collect(),
    }
}

fn sent(e: &Effect) -> Option<(String, String)> {
    match e {
        Effect::Send(k) => Some((k.event.clone(), k.action.clone())),
        _ => None,
    }
}

#[test]
fn unbound_key_only_moves() {
    let mut s = keypad_store();
    let mut t = TapCounters::new();
    let out = key_down(&mut s, &mut t, &"dev".to_owned(), 2).unwrap();
    assert_eq!(out.effects.len(), 1);
    assert!(matches!(&out.effects[0], Effect::KeyMoved { pressed: true, context } if context.position == 2));
}

#[test]
fn unknown_device_fails() {
    let mut s = keypad_store();
    let mut t = TapCounters::new();
    assert_eq!(key_down(&mut s, &mut t, &"ghost".to_owned(), 0).err(), Some(StoreError::DeviceUnknown));
    assert_eq!(key_up(&mut s, &"ghost".to_owned(), 0).err(), Some(StoreError::DeviceUnknown));
}

#[test]
fn simple_action_press_and_release() {
    let mut s = keypad_store();
    let mut t = TapCounters::new();
    create_instance(&mut s, &action("plugin.two.press", &["a.png", "b.png"]), &key(0)).unwrap();
    let down = key_down(&mut s, &mut t, &"dev".to_owned(), 0).unwrap();
    assert_eq!(sent(&down.effects[1]), Some(("keyDown".to_owned(), "plugin.two.press".to_owned())));
    let up = key_up(&mut s, &"dev".to_owned(), 0).unwrap();
    assert_eq!(sent(&up.effects[1]), Some(("keyUp".to_owned(), "plugin.two.press".to_owned())));
    assert_eq!(s.slots[0].instance.as_ref().unwrap().current_state, 1);
    assert!(matches!(up.effects[3], Effect::SaveProfile(_)));
}

#[test]
fn multi_action_runs_children_paced() {
    let mut s = keypad_store();
    let mut t = TapCounters::new();
    create_instance(&mut s, &action("opendeck.multiaction", &[]), &key(1)).unwrap();
    create_instance(&mut s, &action("plugin.two.a", &["a.png", "b.png"]), &key(1)).unwrap();
    create_instance(&mut s, &action("plugin.two.b", &["c.png"]), &key(1)).unwrap();
    let out = key_down(&mut s, &mut t, &"dev".to_owned(), 1).unwrap();
    assert_eq!(out.effects.len(), 12);
    assert_eq!(sent(&out.effects[1]), Some(("keyDown".to_owned(), "plugin.two.a".to_owned())));
    assert!(matches!(out.effects[2], Effect::Pause(100)));
    assert_eq!(sent(&out.effects[3]), Some(("keyUp".to_owned(), "plugin.two.a".to_owned())));
    assert_eq!(sent(&out.effects[5]), Some(("keyDown".to_owned(), "plugin.two.b".to_owned())));
    let children = s.slots[1].instance.as_ref().unwrap().children.as_ref().unwrap();
    assert_eq!(children[0].current_state, 1);
    assert_eq!(children[1].current_state, 0);
    let up = key_up(&mut s, &"dev".to_owned(), 1).unwrap();
    assert_eq!(up.effects.len(), 1);
}

#[test]
fn toggle_cycles_on_release() {
    let mut s = keypad_store();
    let mut t = TapCounters::new();
    create_instance(&mut s, &action("opendeck.toggleaction", &[]), &key(2)).unwrap();
    create_instance(&mut s, &action("plugin.two.on", &[]), &key(2)).unwrap();
    create_instance(&mut s, &action("plugin.two.off", &[]), &key(2)).unwrap();
    let mut seen = Vec::new();
    for _ in 0..4 {
        let down = key_down(&mut s, &mut t, &"dev".to_owned(), 2).unwrap();
        seen.push(sent(&down.effects[1]).unwrap().1);
        key_up(&mut s, &"dev".to_owned(), 2).unwrap();
        let state = s.slots[2].instance.as_ref().unwrap().current_state;
        assert!(state <= 1);
    }
    assert_eq!(seen, vec!["plugin.two.on", "plugin.two.off", "plugin.two.on", "plugin.two.off"]);
}

fn double_tap_store() -> ProfileStore {
    let mut s = keypad_store();
    let mut dt = action("opendeck.doubletap", &[]);
    dt.uuid = "opendeck.doubletap".to_owned();
    create_instance(&mut s, &dt, &key(3)).unwrap();
    let inst = s.slots[3].instance.as_mut().unwrap();
    inst.children = Some(Vec::new());
    create_instance(&mut s, &action("plugin.two.single", &[]), &key(3)).unwrap();
    create_instance(&mut s, &action("plugin.two.double", &[]), &key(3)).unwrap();
    s
}

#[test]
fn double_tap_single_press_goes_to_first_child() {
    let mut s = double_tap_store();
    let mut t = TapCounters::new();
    let out = key_down(&mut s, &mut t, &"dev".to_owned(), 3).unwrap();
    let children = match &out.effects[1] {
        Effect::StartTapTimer { children, key: 3, .. } => children.clone(),
        _ => panic!("no window opened"),
    };
    let ev = resolve_taps(&mut t, &"dev".to_owned(), 3, &children).unwrap();
    assert_eq!(ev.action, "plugin.two.single");
    assert_eq!(ev.event, "keyDown");
    assert!(resolve_taps(&mut t, &"dev".to_owned(), 3, &children).is_none());
}

#[test]
fn double_tap_two_presses_go_to_second_child() {
    let mut s = double_tap_store();
    let mut t = TapCounters::new();
    let first = key_down(&mut s, &mut t, &"dev".to_owned(), 3).unwrap();
    let second = key_down(&mut s, &mut t, &"dev".to_owned(), 3).unwrap();
    assert_eq!(second.effects.len(), 1);
    let children = match &first.effects[1] {
        Effect::StartTapTimer { children, .. } => children.clone(),
        _ => panic!("no window opened"),
    };
    let ev = resolve_taps(&mut t, &"dev".to_owned(), 3, &children).unwrap();
    assert_eq!(ev.action, "plugin.two.double");
    assert!(resolve_taps(&mut t, &"dev".to_owned(), 3, &children).is_none());
}

#[test]
fn tap_counts_saturate_per_key() {
    let mut t = TapCounters::new();
    let dev = "dev".to_owned();
    assert!(t.tap(&dev, 1));
    for _ in 0..300 {
        assert!(!t.tap(&dev, 1));
    }
    assert!(t.tap(&dev, 2));
    assert_eq!(t.close(&dev, 1), Some(255));
    assert_eq!(t.close(&dev, 2), Some(1));
    assert_eq!(t.close(&dev, 1), None);
}
