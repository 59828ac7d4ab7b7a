//! Simulating the paste keystroke: which way to send it, and the one-time
//! accessibility prompt.
use vstd::prelude::*;

verus! {

/// The virtual key code of the V key.
pub const KEY_V: u16 = 9;

/// How to send the paste keystroke.
#[derive(Debug, Clone, Copy, PartialEq, Eq, Structural)]
pub enum KeystrokeRoute {
    /// Post keyboard events directly (needs accessibility access).
    Events,
    /// Ask System Events through a script, prompting for accessibility
    /// access first when this is the first time.
    Script { prompt_first: bool },
}

/// Remembers whether the user was already asked for accessibility access.
pub struct AccessibilityPrompt {
    prompted: bool,
}

impl View for AccessibilityPrompt {
    type V = bool;

    /// Whether the prompt was already shown.
    closed spec fn view(&self) -> bool {
        self.prompted
    }
}

impl AccessibilityPrompt {
    /// Not prompted yet.
    pub fn new() -> (r: Self)
        ensures
            !r@,
    {
        AccessibilityPrompt { prompted: false }
    }

    /// Whether to prompt now: only the first time it is asked.
    pub fn should_prompt(&mut self) -> (r: bool)
        ensures
            r == !old(self)@,
            final(self)@,
    {
        let before = self.prompted;
        self.prompted = true;
        !before
    }
}

/// The route of the paste keystroke: events when the process is trusted for
/// accessibility, else the script (prompting once).
pub fn keystroke_route(prompt: &mut AccessibilityPrompt, trusted: bool) -> (r: KeystrokeRoute)
    ensures
        trusted ==> r == KeystrokeRoute::Events && final(prompt)@ == old(prompt)@,
        !trusted ==> r == (KeystrokeRoute::Script { prompt_first: !old(prompt)@ }) && final(prompt)@,
{
    if trusted {
        KeystrokeRoute::Events
    } else {
        KeystrokeRoute::Script { prompt_first: prompt.should_prompt() }
    }
}

/// Simulates the paste keystroke where no native keyboard events are
/// available: always the error below.
pub fn simulate_cmd_v() -> (r: Result<(), String>)
    ensures
        r matches Err(e) && e@ == "Keyboard simulation not implemented for this platform"@,
{
    Err(String::from_str("Keyboard simulation not implemented for this platform"))
}

} // verus!
