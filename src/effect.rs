use vstd::prelude::*;
use crate::model::{ActionContext, ActionContextView, ActionInstance, Context};

verus! {

/// A key event addressed to the plugin that owns an action.
#[derive(Debug)]
pub struct KeyEvent {
    /// The plugin the event goes to.
    pub plugin: String,
    /// `keyDown` or `keyUp`.
    pub event: String,
    pub action: String,
    pub context: ActionContext,
    pub device: String,
    /// A snapshot of the instance, from which the payload is built.
    pub instance: ActionInstance,
    pub in_multi_action: bool,
}

/// Outside work that an operation asks for, in the order it is to be done.
#[derive(Debug)]
pub enum Effect {
    /// Tell the owning plugin that the instance became bound to a visible slot.
    WillAppear(ActionInstance),
    /// Tell the owning plugin that the instance was unbound for good.
    WillDisappear(ActionInstance),
    /// Push the current contents of this context to the UI.
    UpdateState(ActionContext),
    /// Delete an asset directory and everything under it.
    RemoveDir(String),
    /// Exchange the contents of two asset directories through a temporary
    /// sibling, creating missing ones first and removing what was created.
    SwapDirs { source: String, destination: String },
    /// Persist the profile of this device.
    SaveProfile(String),
    /// Tell the UI that a physical key went down or up.
    KeyMoved { context: Context, pressed: bool },
    /// Deliver a key event to a plugin.
    Send(KeyEvent),
    /// Wait this many milliseconds.
    Pause(u64),
    /// Start the double-tap window of a key; when it closes, resolve the taps
    /// against these children.
    StartTapTimer { device: String, key: u8, children: Vec<ActionInstance> },
    /// Tell the owning plugin that the title parameters changed for a state.
    TitleParametersChanged { instance: ActionInstance, state: u16 },
    /// Show this image on the device key of this slot.
    DeviceImage { context: Context, image: String },
}

/// What the UI is told of an instance: its current contents, or `None` where
/// the context no longer resolves.
#[derive(Debug)]
pub struct UpdateStateEvent {
    pub context: ActionContext,
    pub contents: Option<ActionInstance>,
}

/// Whether `e` announces that `i` appears.
pub open spec fn appears(e: Effect, i: ActionInstance) -> bool {
    match e {
        Effect::WillAppear(x) => x@ == i@,
        _ => false,
    }
}

/// Whether `e` announces that `i` disappears.
pub open spec fn disappears(e: Effect, i: ActionInstance) -> bool {
    match e {
        Effect::WillDisappear(x) => x@ == i@,
        _ => false,
    }
}

/// Whether `e` persists the profile of `device`.
pub open spec fn saves(e: Effect, device: Seq<char>) -> bool {
    match e {
        Effect::SaveProfile(d) => d@ == device,
        _ => false,
    }
}

/// Whether `e` pushes the contents of `c` to the UI.
pub open spec fn updates(e: Effect, c: ActionContextView) -> bool {
    match e {
        Effect::UpdateState(x) => x@ == c,
        _ => false,
    }
}

/// A result together with the outside work it asks for.
#[derive(Debug)]
pub struct Outcome<T> {
    pub value: T,
    pub effects: Vec<Effect>,
}

} // verus!
