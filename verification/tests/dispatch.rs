use wlc::{init, Callback, Context, Error, KeyState, Point, Runtime, TouchType, View, WeakView};

/// A callback that records which events it saw.
#[derive(Default)]
struct Recorder {
    created: Vec<u64>,
    destroyed: Vec<u64>,
    keys: Vec<(u32, u32)>,
    buttons: Vec<u32>,
    touches: Vec<u32>,
}

impl Callback for Recorder {
    type OutputData = i32;
    type ViewData = i32;

    fn view_created(&mut self, _ctx: &mut Context<i32, i32>, view: &View) -> bool {
        self.created.push(view.handle());
        true
    }

    fn view_destroyed(&mut self, _ctx: &mut Context<i32, i32>, view: &View) {
        self.destroyed.push(view.handle());
    }

    fn keyboard_key(
        &mut self,
        _ctx: &mut Context<i32, i32>,
        _view: Option<&View>,
        _time: u32,
        _modifiers: wlc::Modifiers,
        key: wlc::Key,
        state: wlc::KeyState,
    ) -> bool {
        self.keys.push((key.code(), state.to_u32()));
        true
    }

    fn pointer_button(
        &mut self,
        _ctx: &mut Context<i32, i32>,
        _view: Option<&View>,
        _time: u32,
        _modifiers: wlc::Modifiers,
        button: wlc::Button,
        _state: wlc::ButtonState,
        _origin: Point,
    ) -> bool {
        self.buttons.push(button.code());
        true
    }

    fn touch(
        &mut self,
        _ctx: &mut Context<i32, i32>,
        _view: Option<&View>,
        _time: u32,
        _modifiers: wlc::Modifiers,
        touch_type: wlc::TouchType,
        _slot: i32,
        _origin: Point,
    ) -> bool {
        self.touches.push(touch_type.to_u32());
        true
    }
}

#[test]
fn init_rejects_a_second_compositor() {
    let mut runtime = Runtime::new();
    let first = init(&mut runtime, Recorder::default(), true);
    assert!(first.is_ok());
    let second = init(&mut runtime, Recorder::default(), true);
    match second {
        Err(e) => assert_eq!(e, Error::AlreadyRunning),
        Ok(_) => panic!("second init must fail"),
    }
}

#[test]
fn init_reports_a_backend_failure_and_stays_inactive() {
    let mut runtime = Runtime::new();
    let failed = init(&mut runtime, Recorder::default(), false);
    match failed {
        Err(e) => assert_eq!(e, Error::InternalError),
        Ok(_) => panic!("init must fail when the backend is not ready"),
    }
    assert!(!runtime.active());

    // No partial state was left behind: a retry succeeds.
    assert!(init(&mut runtime, Recorder::default(), true).is_ok());
}

#[test]
fn error_descriptions_are_distinct() {
    assert_eq!(
        Error::AlreadyRunning.description(),
        "An instance of Wlc is already running"
    );
    assert_eq!(
        Error::InternalError.description(),
        "Wlc encountered an internal Error"
    );
}

#[test]
fn created_and_destroyed_events_reach_the_callback() {
    let mut runtime = Runtime::new();
    let (_wlc, mut dispatcher) = init(&mut runtime, Recorder::default(), true).ok().unwrap();
    assert!(dispatcher.dispatch_view_created(12));
    dispatcher.dispatch_view_destroyed(12);
    assert_eq!(dispatcher.callback().created, vec![12]);
    assert_eq!(dispatcher.callback().destroyed, vec![12]);
}

#[test]
fn unknown_key_is_dropped_not_handled() {
    let mut runtime = Runtime::new();
    let (_wlc, mut dispatcher) = init(&mut runtime, Recorder::default(), true).ok().unwrap();
    // Code 84 is a hole in the key vocabulary; the state code is sound,
    // as the boundary guarantees before dispatching.
    let handled = dispatcher.dispatch_keyboard_key(0, 1000, 0, 0, 84, 1);
    assert!(!handled);
    assert!(dispatcher.callback().keys.is_empty());
}

#[test]
fn unknown_key_state_is_rejected_at_the_boundary() {
    // A key event whose state code is unknown must never reach dispatch:
    // the boundary checks the code and aborts.  This is that check.
    assert!(KeyState::from_u32(7).is_none());
    assert!(KeyState::from_u32(0).is_some());
    assert!(KeyState::from_u32(1).is_some());
}

#[test]
fn known_key_reaches_the_callback() {
    let mut runtime = Runtime::new();
    let (_wlc, mut dispatcher) = init(&mut runtime, Recorder::default(), true).ok().unwrap();
    let handled = dispatcher.dispatch_keyboard_key(0, 1000, 0, 0, 30, 1);
    assert!(handled);
    assert_eq!(dispatcher.callback().keys, vec![(30, 1)]);
}

#[test]
fn unknown_button_is_dropped_known_button_is_dispatched() {
    let mut runtime = Runtime::new();
    let (_wlc, mut dispatcher) = init(&mut runtime, Recorder::default(), true).ok().unwrap();
    let origin = Point { x: 0, y: 0 };
    let handled = dispatcher.dispatch_pointer_button(0, 1000, 0, 0, 9999, 1, origin);
    assert!(!handled);
    let handled = dispatcher.dispatch_pointer_button(0, 1000, 0, 0, 272, 0, origin);
    assert!(handled);
    assert_eq!(dispatcher.callback().buttons, vec![272]);
}

#[test]
fn known_touch_type_is_dispatched() {
    let mut runtime = Runtime::new();
    let (_wlc, mut dispatcher) = init(&mut runtime, Recorder::default(), true).ok().unwrap();
    let origin = Point { x: 5, y: 5 };
    // An unknown touch-type code must never reach dispatch; the boundary
    // checks it, as here, and aborts instead of calling.
    assert!(TouchType::from_u32(11).is_none());
    let handled = dispatcher.dispatch_touch(0, 1000, 0, 0, 2, 0, origin);
    assert!(handled);
    assert_eq!(dispatcher.callback().touches, vec![2]);
}

#[test]
fn destroy_clears_the_view_user_data() {
    let mut runtime = Runtime::new();
    let (_wlc, mut dispatcher) = init(&mut runtime, Recorder::default(), true).ok().unwrap();
    dispatcher.dispatch_view_created(9);
    dispatcher
        .context_mut()
        .view_data_mut()
        .set_user_data(9, 41);
    dispatcher.dispatch_view_destroyed(9);
    assert!(dispatcher.context_mut().view_data_mut().user_data(9).is_none());
}

/// A callback that, inside its destruction handler, tries to upgrade a
/// weak reference captured earlier for the same view.
#[derive(Default)]
struct ReentrantUpgrader {
    weak: Option<WeakView>,
    observed_alive: Option<bool>,
}

impl Callback for ReentrantUpgrader {
    type OutputData = ();
    type ViewData = ();

    fn view_destroyed(&mut self, ctx: &mut Context<(), ()>, _view: &View) {
        if let Some(w) = &self.weak {
            self.observed_alive = Some(w.upgrade(ctx.views()).is_some());
        }
    }
}

#[test]
fn reentrant_upgrade_inside_destruction_handler_observes_none() {
    let mut runtime = Runtime::new();
    let (_wlc, mut dispatcher) =
        init(&mut runtime, ReentrantUpgrader::default(), true).ok().unwrap();
    dispatcher.dispatch_view_created(9);

    let weak = View::from_handle(9).weak_reference(dispatcher.context_mut().views_mut());
    assert!(weak.upgrade(dispatcher.context().views()).is_some());
    dispatcher.callback_mut().weak = Some(weak);

    dispatcher.dispatch_view_destroyed(9);
    assert_eq!(dispatcher.callback().observed_alive, Some(false));
}
