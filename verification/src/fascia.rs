//! The strips under the display: the on-screen keyboard and the front panels
//! of the synthesizers. The drawing of each is the host's; what a press means
//! and what is said about it is here.

use vstd::prelude::*;

use crate::effects::Effect;
use crate::effects::Effects;
use crate::menu::Mt32Mode;
use crate::text::put;

verus! {

/// A strip takes its height from the canvas, so the flag and the canvas move
/// together: the canvas follows the flag, and where it cannot the flag goes
/// back.
#[derive(Clone, Copy, PartialEq, Eq, Structural, Debug)]
pub struct Strip {
    pub shown: bool,
}

impl Strip {
    /// The strip is to be shown or hidden. Says whether the canvas is to
    /// follow, which `strip_resized` takes the outcome of.
    pub fn set_panel_shown(&mut self, want: bool) -> (resize: bool)
        ensures
            final(self).shown == want,
            resize == (old(self).shown != want),
    {
        let resize: bool = self.shown != want;
        self.shown = want;
        resize
    }

    /// The same for the keyboard, which lets go of its keys before it goes.
    pub fn set_keyboard_panel_shown(&mut self, fx: &mut Effects, want: bool) -> (resize: bool)
        ensures
            final(self).shown == want,
            resize == (old(self).shown != want),
            final(fx)@ == (if resize && !want {
                old(fx)@.push(Effect::ReleaseKeyboardHolds)
            } else {
                old(fx)@
            }),
    {
        let resize: bool = self.shown != want;
        if resize && !want {
            fx.push(Effect::ReleaseKeyboardHolds);
        }
        self.shown = want;
        resize
    }

    /// The canvas followed the flag, or could not.
    pub fn strip_resized(&mut self, fx: &mut Effects, ok: bool)
        ensures
            final(self).shown == (old(self).shown == ok),
            final(fx)@ == old(fx)@.push(Effect::Redraw),
    {
        if !ok {
            self.shown = !self.shown;
        }
        fx.redraw();
    }
}

/// A change of a strip that the canvas did not follow is no change.
pub proof fn lemma_strip_and_canvas_agree(before: Strip, asked: Strip, after: Strip, ok: bool)
    requires
        asked.shown != before.shown,
        after.shown == (asked.shown == ok),
    ensures
        ok ==> after == asked,
        !ok ==> after == before,
{
}

/// The keyboard was switched on or off by its button.
pub fn keyboard_toggled(fx: &mut Effects, shown: bool)
    ensures
        final(fx)@ == old(fx)@.push(
            Effect::Osd(
                if shown {
                    "On-screen keyboard shown"@
                } else {
                    "On-screen keyboard hidden"@
                },
            ),
        ),
{
    if shown {
        fx.osd("On-screen keyboard shown");
    } else {
        fx.osd("On-screen keyboard hidden");
    }
}

pub open spec fn panel_keys(keys: Seq<(u8, bool)>) -> Seq<Effect<Seq<char>>> {
    keys.map_values(|k: (u8, bool)| Effect::<Seq<char>>::PanelKey(k.0, k.1))
}

/// The keys that a press on the keyboard moved go to the machine, in order.
pub fn apply_keyboard_panel_outcome(fx: &mut Effects, keys: &Vec<(u8, bool)>)
    ensures
        final(fx)@ == old(fx)@ + panel_keys(keys@),
{
    let mut i: usize = 0;
    assert(fx@ + panel_keys(keys@.take(0)) =~= fx@);
    while i < keys.len()
        invariant
            i <= keys@.len(),
            fx@ == old(fx)@ + panel_keys(keys@.take(i as int)),
        decreases keys@.len() - i,
    {
        let (k, down): (u8, bool) = keys[i];
        fx.push(Effect::PanelKey(k, down));
        i += 1;
        assert(fx@ =~= old(fx)@ + panel_keys(keys@.take(i as int)));
    }
    assert(keys@.take(i as int) =~= keys@);
}

/// A press on the keyboard: its keys go to the machine, and its close box
/// hides it. Says whether the canvas is to follow.
pub fn press_keyboard_panel_control(
    strip: &mut Strip,
    fx: &mut Effects,
    keys: &Vec<(u8, bool)>,
    close: bool,
) -> (resize: bool)
    ensures
        final(strip).shown == (old(strip).shown && !close),
        resize == (old(strip).shown && close),
        final(fx)@ == old(fx)@ + panel_keys(keys@) + (if resize {
            seq![Effect::ReleaseKeyboardHolds]
        } else {
            Seq::empty()
        }) + seq![Effect::Redraw],
{
    apply_keyboard_panel_outcome(fx, keys);
    let mut resize: bool = false;
    if close {
        resize = strip.set_keyboard_panel_shown(fx, false);
    }
    fx.redraw();
    assert(fx@ =~= old(fx)@ + panel_keys(keys@) + (if resize {
        seq![Effect::ReleaseKeyboardHolds]
    } else {
        Seq::empty()
    }) + seq![Effect::Redraw]);
    resize
}

/// The mouse button was let go over the keyboard: a key that was held by it
/// comes up. Says whether there was one, and the click was the keyboard's.
pub fn release_keyboard_panel_key(fx: &mut Effects, holding: bool, keys: &Vec<(u8, bool)>) -> (
    taken: bool)
    ensures
        taken == holding,
        final(fx)@ == (if holding {
            old(fx)@ + panel_keys(keys@) + seq![Effect::Redraw]
        } else {
            old(fx)@
        }),
{
    if !holding {
        return false;
    }
    apply_keyboard_panel_outcome(fx, keys);
    fx.redraw();
    assert(fx@ =~= old(fx)@ + panel_keys(keys@) + seq![Effect::Redraw]);
    true
}

fn said(head: &str, rest: &str) -> (r: String)
    ensures
        r@ == head@ + rest@,
{
    let mut text: String = head.to_owned();
    put(&mut text, rest);
    text
}

/// A fault is said once, in amber; without one nothing is said.
pub open spec fn fault_effects(head: Seq<char>, fault: Option<String>) -> Seq<Effect<Seq<char>>> {
    match fault {
        Some(f) => seq![Effect::Warning(head + f@)],
        None => Seq::empty(),
    }
}

fn tell_fault(fx: &mut Effects, head: &str, fault: &Option<String>)
    ensures
        final(fx)@ == old(fx)@ + fault_effects(head@, *fault),
{
    match fault {
        Some(f) => {
            let text: String = said(head, f.as_str());
            fx.push(Effect::Warning(text));
            assert(fx@ =~= old(fx)@ + seq![Effect::Warning(head@ + f@)]);
        },
        None => {
            assert(fx@ =~= old(fx)@ + Seq::empty());
        },
    }
}

/// Why the MT-32 is not there, if it was asked for and could not be fitted.
pub fn report_mt32_fault(fx: &mut Effects, fault: &Option<String>)
    ensures
        final(fx)@ == old(fx)@ + fault_effects("MT-32: "@, *fault),
{
    tell_fault(fx, "MT-32: ", fault);
}

pub fn report_csynth(fx: &mut Effects, fault: &Option<String>)
    ensures
        final(fx)@ == old(fx)@ + fault_effects("Coppersynth: "@, *fault),
{
    tell_fault(fx, "Coppersynth: ", fault);
}

/// What the MT-32's front panel asks for beyond its own reach.
#[derive(PartialEq, Eq, Debug)]
pub enum PanelAction {
    Nothing,
    Say(String),
    Power,
    /// Off and on again: the engine comes back at its defaults.
    Recycle,
}

#[derive(Clone, Copy, PartialEq, Eq, Structural, Debug)]
pub enum Mt32Step {
    Done,
    TogglePower,
    Recycle,
}

pub fn apply_mt32_action(fx: &mut Effects, action: &PanelAction) -> (step: Mt32Step)
    ensures
        step == (match *action {
            PanelAction::Power => Mt32Step::TogglePower,
            PanelAction::Recycle => Mt32Step::Recycle,
            _ => Mt32Step::Done,
        }),
        final(fx)@ == (match *action {
            PanelAction::Say(t) => old(fx)@.push(Effect::Osd(t@)),
            _ => old(fx)@,
        }),
{
    match action {
        PanelAction::Nothing => Mt32Step::Done,
        PanelAction::Say(t) => {
            fx.osd(t.as_str());
            Mt32Step::Done
        },
        PanelAction::Power => Mt32Step::TogglePower,
        PanelAction::Recycle => Mt32Step::Recycle,
    }
}

pub fn mt32_recycled(fx: &mut Effects)
    ensures
        final(fx)@ == old(fx)@.push(Effect::Osd("MT-32: all reset"@)),
{
    fx.osd("MT-32: all reset");
}

/// The power switch was thrown: a unit that was to come up and did not has
/// its fault told, rather than be said to run.
pub fn toggle_mt32_power(fx: &mut Effects, was_on: bool, came_up: bool, fault: &Option<String>)
    ensures
        final(fx)@ == old(fx)@ + (if !was_on && !came_up {
            fault_effects("MT-32: "@, *fault)
        } else if was_on {
            seq![Effect::Osd("MT-32: power off"@)]
        } else {
            seq![Effect::Osd("MT-32: power on"@)]
        }),
{
    if !was_on && !came_up {
        tell_fault(fx, "MT-32: ", fault);
    } else if was_on {
        fx.osd("MT-32: power off");
        assert(fx@ =~= old(fx)@ + seq![Effect::Osd("MT-32: power off"@)]);
    } else {
        fx.osd("MT-32: power on");
        assert(fx@ =~= old(fx)@ + seq![Effect::Osd("MT-32: power on"@)]);
    }
}

/// One half of the MT-32's firmware was chosen. The unit that is plugged in
/// is fitted with it, and tells its fault where it cannot be.
pub fn load_mt32_rom(
    fx: &mut Effects,
    name: &str,
    selected: bool,
    fitted: bool,
    fault: &Option<String>,
)
    ensures
        final(fx)@ == old(fx)@ + (if selected && !fitted {
            fault_effects("MT-32: "@, *fault)
        } else {
            seq![Effect::Osd("MT-32: "@ + name@)]
        }),
{
    if selected && !fitted {
        tell_fault(fx, "MT-32: ", fault);
    } else {
        let text: String = said("MT-32: ", name);
        fx.osd(text.as_str());
        assert(fx@ =~= old(fx)@ + seq![Effect::Osd("MT-32: "@ + name@)]);
    }
}

/// What the panel asks of the demonstration songs: to play one, or to stop.
#[derive(Clone, Copy, PartialEq, Eq, Structural, Debug)]
pub enum DemoWant {
    Play,
    Stop,
}

/// Serves the panel's wish for a demonstration song, and gives the title that
/// it is to show. Only the later ROMs carry any; without a unit, and for a
/// stop, the title is empty. A song that ran out hands on to the next.
pub fn serve_mt32_demo(
    fx: &mut Effects,
    ran_out: bool,
    want: Option<DemoWant>,
    unit: bool,
    title: Option<String>,
) -> (r: Option<String>)
    ensures
        final(fx)@ == (if ran_out {
            old(fx)@.push(Effect::Redraw)
        } else {
            old(fx)@
        }),
        r is Some == want is Some,
        r matches Some(t) ==> t@ == (if !unit || want == Some(DemoWant::Stop) {
            Seq::empty()
        } else {
            match title {
                Some(s) => s@,
                None => "Needs v2.0x ROM"@,
            }
        }),
{
    if ran_out {
        fx.redraw();
    }
    match want {
        None => None,
        Some(DemoWant::Stop) => Some(String::new()),
        Some(DemoWant::Play) => {
            if !unit {
                return Some(String::new());
            }
            match title {
                Some(t) => Some(t),
                None => Some("Needs v2.0x ROM".to_owned()),
            }
        },
    }
}

/// Who takes a press on the Coppersynth's panel.
#[derive(Clone, Copy, PartialEq, Eq, Structural, Debug)]
pub enum CsynthRoute {
    /// The volume knob, which turns whether or not the unit is on.
    Dial,
    Ignored,
    Press,
}

/// While an edit or a question has the glass, a press with the other button
/// means nothing.
pub fn press_csynth_control(dial: bool, left: bool, in_edit: bool) -> (r: CsynthRoute)
    ensures
        r == (if dial {
            CsynthRoute::Dial
        } else if !left && in_edit {
            CsynthRoute::Ignored
        } else {
            CsynthRoute::Press
        }),
{
    if dial {
        CsynthRoute::Dial
    } else if !left && in_edit {
        CsynthRoute::Ignored
    } else {
        CsynthRoute::Press
    }
}

/// What a press on the Coppersynth's panel comes to.
#[derive(Clone, Copy, PartialEq, Eq, Structural, Debug)]
pub enum CsynthPress {
    Nothing,
    Button,
    PowerOn,
    PowerOff,
    Load,
}

/// What the unit asks for when one of its buttons is pressed.
#[derive(Clone, Copy, PartialEq, Eq, Structural, Debug)]
pub enum PanelRequest {
    /// It has switched itself; the choice is to outlive a power cycle.
    Mode(Mt32Mode),
    ResetSoundfont,
}

/// What is done about a press.
#[derive(Clone, Copy, PartialEq, Eq, Structural, Debug)]
pub enum CsynthOrder {
    Nothing,
    KeepMode(Mt32Mode),
    /// Refit the unit around the sounds it comes with, and hold the glass on
    /// its greeting.
    ResetSoundfont,
    /// Switch it on with what is held on the panel, or off.
    Power(bool),
    PickSoundfont,
}

/// `request` is what the unit asked for, where the press was on a button.
pub fn apply_csynth_press(press: CsynthPress, request: Option<PanelRequest>) -> (r: CsynthOrder)
    ensures
        r == (match press {
            CsynthPress::Nothing => CsynthOrder::Nothing,
            CsynthPress::Button => match request {
                Some(PanelRequest::Mode(m)) => CsynthOrder::KeepMode(m),
                Some(PanelRequest::ResetSoundfont) => CsynthOrder::ResetSoundfont,
                None => CsynthOrder::Nothing,
            },
            CsynthPress::PowerOn => CsynthOrder::Power(true),
            CsynthPress::PowerOff => CsynthOrder::Power(false),
            CsynthPress::Load => CsynthOrder::PickSoundfont,
        }),
{
    match press {
        CsynthPress::Nothing => CsynthOrder::Nothing,
        CsynthPress::Button => match request {
            Some(PanelRequest::Mode(m)) => CsynthOrder::KeepMode(m),
            Some(PanelRequest::ResetSoundfont) => CsynthOrder::ResetSoundfont,
            None => CsynthOrder::Nothing,
        },
        CsynthPress::PowerOn => CsynthOrder::Power(true),
        CsynthPress::PowerOff => CsynthOrder::Power(false),
        CsynthPress::Load => CsynthOrder::PickSoundfont,
    }
}

/// How a mode is written in the session's options.
pub open spec fn mode_text(mode: Mt32Mode) -> Seq<char> {
    match mode {
        Mt32Mode::On => "on"@,
        Mt32Mode::Off => "off"@,
        Mt32Mode::Auto => "auto"@,
    }
}

pub fn mode_name(mode: Mt32Mode) -> (r: &'static str)
    ensures
        r@ == mode_text(mode),
{
    match mode {
        Mt32Mode::On => "on",
        Mt32Mode::Off => "off",
        Mt32Mode::Auto => "auto",
    }
}

/// The Coppersynth's switch was thrown.
pub fn csynth_switched(fx: &mut Effects, on: bool, came_up: bool, fault: &Option<String>)
    ensures
        final(fx)@ == old(fx)@ + (if on && !came_up {
            fault_effects("Coppersynth: "@, *fault)
        } else if on {
            seq![Effect::Osd("Coppersynth: power on"@)]
        } else {
            seq![Effect::Osd("Coppersynth: power off"@)]
        }),
{
    if on && !came_up {
        tell_fault(fx, "Coppersynth: ", fault);
    } else if on {
        fx.osd("Coppersynth: power on");
        assert(fx@ =~= old(fx)@ + seq![Effect::Osd("Coppersynth: power on"@)]);
    } else {
        fx.osd("Coppersynth: power off");
        assert(fx@ =~= old(fx)@ + seq![Effect::Osd("Coppersynth: power off"@)]);
    }
}

/// A file of sounds was chosen for the Coppersynth.
pub fn load_csynth_soundfont(fx: &mut Effects, name: &str, fitted: bool, fault: &Option<String>)
    ensures
        final(fx)@ == old(fx)@ + (if fitted {
            seq![Effect::Osd("Coppersynth: "@ + name@)]
        } else {
            fault_effects("Coppersynth: "@, *fault)
        }),
{
    if fitted {
        let text: String = said("Coppersynth: ", name);
        fx.osd(text.as_str());
        assert(fx@ =~= old(fx)@ + seq![Effect::Osd("Coppersynth: "@ + name@)]);
    } else {
        tell_fault(fx, "Coppersynth: ", fault);
    }
}

/// The glass of the Coppersynth: when it was last drawn, in milliseconds.
#[derive(Clone, Copy, PartialEq, Eq, Structural, Debug)]
pub struct Glass {
    pub drawn_at: u64,
}

/// The least time between two drawings of the glass.
pub const GLASS_EVERY: u64 = 50;

impl Glass {
    /// A blinking lamp is lit in this moment.
    pub open spec fn lit(now: u64) -> bool {
        (now / 300) % 2 == 0
    }

    pub open spec fn draws(self, shown: bool, selected: bool, changed: bool, now: u64) -> bool {
        shown && selected && changed && crate::menu::since(now, self.drawn_at) >= GLASS_EVERY
    }

    pub fn blink_on(now: u64) -> (r: bool)
        ensures
            r == Glass::lit(now),
    {
        (now / 300) % 2 == 0
    }

    /// Draws a changed glass when the pace allows; until then the change
    /// stays pending. Says whether it is drawn.
    pub fn animate_csynth_panel(
        &mut self,
        fx: &mut Effects,
        shown: bool,
        selected: bool,
        changed: bool,
        now: u64,
    ) -> (drawn: bool)
        ensures
            drawn == old(self).draws(shown, selected, changed, now),
            final(self).drawn_at == (if drawn {
                now
            } else {
                old(self).drawn_at
            }),
            final(fx)@ == (if drawn {
                old(fx)@.push(Effect::Redraw)
            } else {
                old(fx)@
            }),
    {
        if !shown || !selected || !changed {
            return false;
        }
        let gone: u64 = if now >= self.drawn_at {
            now - self.drawn_at
        } else {
            0
        };
        if gone < GLASS_EVERY {
            return false;
        }
        self.drawn_at = now;
        fx.redraw();
        true
    }
}

/// The glass is drawn twenty times a second at most.
pub proof fn lemma_glass_is_paced(g: Glass, now: u64, later: u64)
    requires
        g.drawn_at == now,
        later < now + GLASS_EVERY,
    ensures
        !g.draws(true, true, true, later),
{
}

/// A synthesizer that is not plugged in any more takes its panel down with
/// it; says whether the canvas is to follow.
pub fn sync_panel(strip: &mut Strip, selected: bool) -> (resize: bool)
    ensures
        final(strip).shown == (old(strip).shown && selected),
        resize == (old(strip).shown && !selected),
{
    if selected {
        return false;
    }
    strip.set_panel_shown(false)
}

} // verus!
