use vstd::prelude::*;

verus! {

/// The reserved uuid of the multi-action composite.
pub const MULTI_ACTION: &'static str = "opendeck.multiaction";

/// The reserved uuid of the toggle-action composite.
pub const TOGGLE_ACTION: &'static str = "opendeck.toggleaction";

/// The reserved uuid of the double-tap composite.
pub const DOUBLE_TAP: &'static str = "opendeck.doubletap";

/// The controller kind of a physical key.
pub const KEYPAD: &'static str = "Keypad";

/// The image of the synthetic state a toggle-action gains per child.
pub const TOGGLE_STATE_IMAGE: &'static str = "opendeck/toggle-action.png";

#[verifier::external_type_specification]
#[verifier::external_body]
pub struct ExJsonValue(serde_json::Value);

/// Relies on the derived `Clone` of `serde_json::Value`: a clone equals its source.
pub assume_specification[ <serde_json::Value as Clone>::clone ](v: &serde_json::Value) -> (r:
    serde_json::Value)
    ensures
        r == *v,
;

/// Relies on `serde_json::Map::new` and the `Object` variant: the settings
/// document of a fresh instance is an empty JSON object.
#[verifier::external_body]
pub(crate) fn empty_settings() -> serde_json::Value {
    serde_json::Value::Object(serde_json::Map::new())
}

/// A button slot: device, profile, controller kind and position.
#[derive(Debug, Clone)]
pub struct Context {
    pub device: String,
    pub profile: String,
    pub controller: String,
    pub position: u8,
}

/// A slot plus the index of an instance in it: 0 for the top-level instance,
/// 1..N for the children of a composite.
#[derive(Debug, Clone)]
pub struct ActionContext {
    pub device: String,
    pub profile: String,
    pub controller: String,
    pub position: u8,
    pub index: u16,
}

/// One visual state of an instance.
#[derive(Debug, Clone)]
pub struct ActionState {
    pub image: String,
}

/// A catalog definition of a bindable behaviour.
#[derive(Debug, Clone)]
pub struct Action {
    pub name: String,
    pub uuid: String,
    pub plugin: String,
    pub icon: String,
    pub disable_automatic_states: bool,
    pub controllers: Vec<String>,
    pub states: Vec<ActionState>,
}

/// A configured binding of an action to a slot.
#[derive(Debug)]
pub struct ActionInstance {
    pub action: Action,
    pub context: ActionContext,
    pub states: Vec<ActionState>,
    pub current_state: u16,
    pub settings: serde_json::Value,
    pub children: Option<Vec<ActionInstance>>,
}

pub struct ContextView {
    pub device: Seq<char>,
    pub profile: Seq<char>,
    pub controller: Seq<char>,
    pub position: u8,
}

pub struct ActionContextView {
    pub device: Seq<char>,
    pub profile: Seq<char>,
    pub controller: Seq<char>,
    pub position: u8,
    pub index: u16,
}

pub struct ActionView {
    pub name: Seq<char>,
    pub uuid: Seq<char>,
    pub plugin: Seq<char>,
    pub icon: Seq<char>,
    pub disable_automatic_states: bool,
    pub controllers: Seq<Seq<char>>,
    pub images: Seq<Seq<char>>,
}

/// What an instance holds apart from its children.
pub struct InstanceCore {
    pub action: ActionView,
    pub context: ActionContextView,
    pub images: Seq<Seq<char>>,
    pub current_state: u16,
    pub settings: serde_json::Value,
}

pub struct InstanceView {
    pub top: InstanceCore,
    pub children: Option<Seq<InstanceCore>>,
}

impl View for Context {
    type V = ContextView;

    open spec fn view(&self) -> ContextView {
        ContextView {
            device: self.device@,
            profile: self.profile@,
            controller: self.controller@,
            position: self.position,
        }
    }
}

impl View for ActionContext {
    type V = ActionContextView;

    open spec fn view(&self) -> ActionContextView {
        ActionContextView {
            device: self.device@,
            profile: self.profile@,
            controller: self.controller@,
            position: self.position,
            index: self.index,
        }
    }
}

pub open spec fn images_of(states: Seq<ActionState>) -> Seq<Seq<char>> {
    states.map_values(|s: ActionState| s.image@)
}

impl View for Action {
    type V = ActionView;

    open spec fn view(&self) -> ActionView {
        ActionView {
            name: self.name@,
            uuid: self.uuid@,
            plugin: self.plugin@,
            icon: self.icon@,
            disable_automatic_states: self.disable_automatic_states,
            controllers: self.controllers@.map_values(|c: String| c@),
            images: images_of(self.states@),
        }
    }
}

impl ActionInstance {
    pub open spec fn flat(&self) -> InstanceCore {
        InstanceCore {
            action: self.action@,
            context: self.context@,
            images: images_of(self.states@),
            current_state: self.current_state,
            settings: self.settings,
        }
    }
}

impl View for ActionInstance {
    type V = InstanceView;

    open spec fn view(&self) -> InstanceView {
        InstanceView {
            top: self.flat(),
            children: match self.children {
                Some(c) => Some(c@.map_values(|x: ActionInstance| x.flat())),
                None => None,
            },
        }
    }
}

/// The action context of index `index` within slot `c`.
pub open spec fn at_index(c: ContextView, index: u16) -> ActionContextView {
    ActionContextView {
        device: c.device,
        profile: c.profile,
        controller: c.controller,
        position: c.position,
        index,
    }
}

/// The slot that an action context lies in.
pub open spec fn slot_of(c: ActionContextView) -> ContextView {
    ContextView {
        device: c.device,
        profile: c.profile,
        controller: c.controller,
        position: c.position,
    }
}

pub open spec fn is_composite_uuid(u: Seq<char>) -> bool {
    u == MULTI_ACTION@ || u == TOGGLE_ACTION@ || u == DOUBLE_TAP@
}

/// Every child carries no children of its own.
pub open spec fn children_flat(i: ActionInstance) -> bool {
    match i.children {
        Some(c) => forall|k: int| 0 <= k < c@.len() ==> (#[trigger] c@[k]).children is None,
        None => true,
    }
}

pub fn copy_string_list(v: &Vec<String>) -> (r: Vec<String>)
    ensures
        r@.map_values(|c: String| c@) == v@.map_values(|c: String| c@),
{
    let mut r: Vec<String> = Vec::new();
    let mut i: usize = 0;
    while i < v.len()
        invariant
            i <= v@.len(),
            r@.len() == i,
            forall|k: int| 0 <= k < i ==> (#[trigger] r@[k])@ == v@[k]@,
        decreases v@.len() - i,
    {
        r.push(v[i].clone());
        i = i + 1;
    }
    assert(r@.map_values(|c: String| c@) =~= v@.map_values(|c: String| c@));
    r
}

pub fn copy_states(v: &Vec<ActionState>) -> (r: Vec<ActionState>)
    ensures
        images_of(r@) == images_of(v@),
        r@.len() == v@.len(),
{
    let mut r: Vec<ActionState> = Vec::new();
    let mut i: usize = 0;
    while i < v.len()
        invariant
            i <= v@.len(),
            r@.len() == i,
            forall|k: int| 0 <= k < i ==> (#[trigger] r@[k]).image@ == v@[k].image@,
        decreases v@.len() - i,
    {
        r.push(ActionState { image: v[i].image.clone() });
        i = i + 1;
    }
    assert(images_of(r@) =~= images_of(v@));
    r
}

impl Context {
    pub fn copy(&self) -> (r: Context)
        ensures
            r@ == self@,
    {
        Context {
            device: self.device.clone(),
            profile: self.profile.clone(),
            controller: self.controller.clone(),
            position: self.position,
        }
    }
}

impl ActionContext {
    /// The action context of index `index` within slot `context`.
    pub fn from_context(context: &Context, index: u16) -> (r: ActionContext)
        ensures
            r@ == at_index(context@, index),
    {
        ActionContext {
            device: context.device.clone(),
            profile: context.profile.clone(),
            controller: context.controller.clone(),
            position: context.position,
            index,
        }
    }

    /// The slot this action context lies in.
    pub fn slot(&self) -> (r: Context)
        ensures
            r@ == slot_of(self@),
    {
        Context {
            device: self.device.clone(),
            profile: self.profile.clone(),
            controller: self.controller.clone(),
            position: self.position,
        }
    }

    pub fn copy(&self) -> (r: ActionContext)
        ensures
            r@ == self@,
    {
        ActionContext {
            device: self.device.clone(),
            profile: self.profile.clone(),
            controller: self.controller.clone(),
            position: self.position,
            index: self.index,
        }
    }

    /// Whether two action contexts name the same instance.
    pub fn same(&self, other: &ActionContext) -> (r: bool)
        ensures
            r == (self@ == other@),
    {
        self.device == other.device && self.profile == other.profile && self.controller
            == other.controller && self.position == other.position && self.index == other.index
    }
}

impl Action {
    pub fn copy(&self) -> (r: Action)
        ensures
            r@ == self@,
    {
        Action {
            name: self.name.clone(),
            uuid: self.uuid.clone(),
            plugin: self.plugin.clone(),
            icon: self.icon.clone(),
            disable_automatic_states: self.disable_automatic_states,
            controllers: copy_string_list(&self.controllers),
            states: copy_states(&self.states),
        }
    }

    /// Whether this action can be bound to a slot of the given controller kind.
    pub fn supports(&self, controller: &String) -> (r: bool)
        ensures
            r == self@.controllers.contains(controller@),
    {
        let mut i: usize = 0;
        while i < self.controllers.len()
            invariant
                i <= self.controllers@.len(),
                forall|k: int| 0 <= k < i ==> self.controllers@[k]@ != controller@,
            decreases self.controllers@.len() - i,
        {
            if self.controllers[i] == *controller {
                assert(self@.controllers[i as int] == controller@);
                return true;
            }
            i = i + 1;
        }
        assert forall|k: int| 0 <= k < self@.controllers.len() implies self@.controllers[k]
            != controller@ by {
            assert(self@.controllers[k] == self.controllers@[k]@);
        }
        false
    }
}

impl ActionInstance {
    /// A copy of this instance without its children.
    pub fn copy_core(&self) -> (r: ActionInstance)
        ensures
            r.flat() == self.flat(),
            r.children is None,
    {
        ActionInstance {
            action: self.action.copy(),
            context: self.context.copy(),
            states: copy_states(&self.states),
            current_state: self.current_state,
            settings: self.settings.clone(),
            children: None,
        }
    }

    /// A copy of this instance, children included.
    pub fn copy(&self) -> (r: ActionInstance)
        ensures
            r@ == self@,
            children_flat(r),
            r.states@.len() == self.states@.len(),
            r.current_state == self.current_state,
            (r.children is Some) == (self.children is Some),
            r.children is Some ==> r.children.unwrap()@.len() == self.children.unwrap()@.len(),
    {
        let children = match &self.children {
            None => None,
            Some(c) => {
                let mut out: Vec<ActionInstance> = Vec::new();
                let mut i: usize = 0;
                while i < c.len()
                    invariant
                        i <= c@.len(),
                        out@.len() == i,
                        forall|k: int| 0 <= k < i ==> (#[trigger] out@[k]).flat() == c@[k].flat(),
                        forall|k: int| 0 <= k < i ==> (#[trigger] out@[k]).children is None,
                    decreases c@.len() - i,
                {
                    out.push(c[i].copy_core());
                    i = i + 1;
                }
                assert(out@.map_values(|x: ActionInstance| x.flat()) =~= c@.map_values(
                    |x: ActionInstance| x.flat(),
                ));
                Some(out)
            },
        };
        ActionInstance {
            action: self.action.copy(),
            context: self.context.copy(),
            states: copy_states(&self.states),
            current_state: self.current_state,
            settings: self.settings.clone(),
            children,
        }
    }
}

impl Clone for ActionInstance {
    fn clone(&self) -> (r: ActionInstance)
        ensures
            r@ == self@,
    {
        self.copy()
    }
}

} // verus!
