use opendeck::effect::Effect;
use opendeck::instances::{create_instance, update_image, update_state};
use opendeck::keypad::{key_down, key_moved, TapCounters};
use opendeck::model::{Action, ActionContext, ActionState, Context};
use opendeck::store::{ProfileStore, StoreError};

fn ctx(profile: &str, position: u8) -> Context {
    Context {
        device: "deck".to_owned(),
        profile: profile.to_owned(),
        controller: "Keypad".to_owned(),
        position,
    }
}

fn built_store() -> ProfileStore {
    let mut s = ProfileStore::new();
    assert!(s.add_slot(ctx("Main", 0), None));
    assert!(!s.add_slot(ctx("Main", 0), None));
    assert!(s.add_slot(ctx("Other", 0), None));
    s.select_profile("deck".to_owned(), "Other".to_owned());
    s.select_profile("deck".to_owned(), "Main".to_owned());
    s
}

#[test]
fn store_builders_keep_one_entry_each() {
    let s = built_store();
    assert_eq!(s.slots.len(), 2);
    assert_eq!(s.selections.len(), 1);
    assert_eq!(s.get_selected_profile(&"deck".to_owned()).unwrap(), "Main");
}

#[test]
fn update_state_reports_contents() {
    let mut s = built_store();
    let a = Action {
        name: "Press".to_owned(),
        uuid: "plugin.three.press".to_owned(),
        plugin: "plugin.three".to_owned(),
        icon: "i.png".to_owned(),
        disable_automatic_states: false,
        controllers: vec!["Keypad".to_owned()],
        states: vec![ActionState { image: "a.png".to_owned() }],
    };
    create_instance(&mut s, &a, &ctx("Main", 0)).unwrap();
    let top = update_state(&s, &ActionContext::from_context(&ctx("Main", 0), 0));
    assert_eq!(top.contents.unwrap().action.uuid, "plugin.three.press");
    let child = update_state(&s, &ActionContext::from_context(&ctx("Main", 0), 1));
    assert!(child.contents.is_none());
    let unloaded = update_state(&s, &ActionContext::from_context(&ctx("Gone", 0), 0));
    assert!(unloaded.contents.is_none());
    assert_eq!(unloaded.context.profile, "Gone");
}

#[test]
fn update_image_only_for_selected_profile() {
    let s = built_store();
    let shown = update_image(&s, &ctx("Main", 0), "pic.png".to_owned());
    assert!(matches!(shown, Some(Effect::DeviceImage { ref image, .. }) if image == "pic.png"));
    assert!(update_image(&s, &ctx("Other", 0), "pic.png".to_owned()).is_none());
}

#[test]
fn key_moved_carries_context() {
    match key_moved(&ctx("Main", 5), false) {
        Effect::KeyMoved { context, pressed } => {
            assert_eq!(context.position, 5);
            assert!(!pressed);
        },
        _ => panic!("not a key-moved notice"),
    }
}

#[test]
fn key_on_unloaded_profile_fails() {
    let mut s = built_store();
    let mut t = TapCounters::new();
    assert_eq!(
        key_down(&mut s, &mut t, &"deck".to_owned(), 9).err(),
        Some(StoreError::ProfileNotLoaded)
    );
}
