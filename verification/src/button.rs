use vstd::prelude::*;

verus! {

/// What a poll of the user button found.
#[derive(Clone, Copy, Debug, PartialEq, Eq, Structural)]
pub enum ButtonAction {
    /// Nothing changed since the last poll.
    NoAction,
    /// The button went down.
    Pressed,
    /// The button came up again.
    Released,
}

/// The action for a poll that reads the pin `high`, when the button was
/// last seen `pressed`: a new press is reported once, a release once,
/// anything else is no action.
pub open spec fn button_action(pressed: bool, high: bool) -> ButtonAction {
    if !pressed && high {
        ButtonAction::Pressed
    } else if pressed && !high {
        ButtonAction::Released
    } else {
        ButtonAction::NoAction
    }
}

/// Whether the button counts as held after an action.
pub open spec fn pressed_after(pressed: bool, action: ButtonAction) -> bool {
    match action {
        ButtonAction::Pressed => true,
        ButtonAction::Released => false,
        ButtonAction::NoAction => pressed,
    }
}

/// Edge detector for the user button (PA0): reacts once to each press.
/// Its view is whether the button is currently held down.
pub struct ResetButton {
    pressed: bool,
}

impl View for ResetButton {
    type V = bool;

    closed spec fn view(&self) -> bool {
        self.pressed
    }
}

impl ResetButton {
    /// A button that is not held.
    pub fn new() -> (button: Self)
        ensures
            !button@,
    {
        ResetButton { pressed: false }
    }

    /// Whether the button is held, as far as the polls went.
    pub fn is_pressed(&self) -> (pressed: bool)
        ensures
            pressed == self@,
    {
        self.pressed
    }

    /// Classifies a reading `high` of the button pin.
    pub fn get_button_state(&self, high: bool) -> (action: ButtonAction)
        ensures
            action == button_action(self@, high),
    {
        if !self.pressed && high {
            return ButtonAction::Pressed;
        }
        if self.pressed && !high {
            return ButtonAction::Released;
        }
        ButtonAction::NoAction
    }

    /// Polls the button with the pin reading `high`: on a new press records
    /// the press and runs `on_press`, on a release records the release.
    /// Returns what was found; `on_press` has run whenever that is
    /// `Pressed` (and, being called only under `Pressed`, at no other
    /// time).
    pub fn check_reset_press<F: FnOnce()>(&mut self, high: bool, on_press: F) -> (action: ButtonAction)
        requires
            button_action(old(self)@, high) == ButtonAction::Pressed ==> call_requires(on_press, ()),
        ensures
            action == button_action(old(self)@, high),
            final(self)@ == pressed_after(old(self)@, action),
            action == ButtonAction::Pressed ==> call_ensures(on_press, (), ()),
    {
        let action = self.get_button_state(high);
        match action {
            ButtonAction::Pressed => {
                self.pressed = true;
                on_press();
            },
            ButtonAction::Released => {
                self.pressed = false;
            },
            ButtonAction::NoAction => {},
        }
        action
    }
}

/// The actions reported by a button created with `new` and then polled
/// with the pin readings `levels`, in order.
pub open spec fn button_actions(levels: Seq<bool>) -> Seq<ButtonAction>
    decreases levels.len(),
{
    if levels.len() == 0 {
        Seq::empty()
    } else {
        let prev = button_state_after(levels.drop_last());
        button_actions(levels.drop_last()).push(button_action(prev, levels.last()))
    }
}

/// Whether the button counts as held after a button created with `new`
/// was polled with `levels`.
pub open spec fn button_state_after(levels: Seq<bool>) -> bool
    decreases levels.len(),
{
    if levels.len() == 0 {
        false
    } else {
        let prev = button_state_after(levels.drop_last());
        pressed_after(prev, button_action(prev, levels.last()))
    }
}

/// After any poll, the button counts as held exactly when the pin read
/// high in that poll.
pub proof fn lemma_state_follows_pin(pressed: bool, high: bool)
    ensures
        pressed_after(pressed, button_action(pressed, high)) == high,
{
}

/// A button held down over several polls is reported pressed only once:
/// the poll after a press with the pin still high is no action.
pub proof fn lemma_press_reported_once(pressed: bool)
    ensures
        button_action(pressed_after(pressed, button_action(pressed, true)), true)
            == ButtonAction::NoAction,
{
}

/// Over any sequence of polls of a new button, a poll reports `Pressed`
/// exactly at a rising edge of the pin (high now, low at the poll before or
/// no poll before) and `Released` exactly at a falling edge.
pub proof fn lemma_actions_are_edges(levels: Seq<bool>)
    ensures
        button_actions(levels).len() == levels.len(),
        levels.len() > 0 ==> button_state_after(levels) == levels.last(),
        forall|i: int|
            0 <= i < levels.len() ==> (#[trigger] button_actions(levels)[i] == ButtonAction::Pressed
                <==> levels[i] && (i == 0 || !levels[i - 1])),
        forall|i: int|
            0 <= i < levels.len() ==> (#[trigger] button_actions(levels)[i] == ButtonAction::Released
                <==> !levels[i] && i > 0 && levels[i - 1]),
    decreases levels.len(),
{
    if levels.len() > 0 {
        let init = levels.drop_last();
        lemma_actions_are_edges(init);
        assert forall|i: int| 0 <= i < init.len() implies #[trigger] init[i] == levels[i] by {}
    }
}

} // verus!
