//! When a recording, a clip or a scheduled capture takes a frame, what is refused and why,
//! and what the front panels say.

use vstd::prelude::*;

use crate::app::App;
use crate::captures::ClipOutcome;
use crate::captures::Clips;
use crate::captures::FrameDump;
use crate::captures::GifCapture;
use crate::captures::Schedule;
use crate::captures::all_finished;
use crate::captures::any_due;
use crate::captures::record_line;
use crate::captures::recorded_line;
use crate::effects::Effect;
use crate::fascia::Glass;
use crate::fascia::fault_effects;
use crate::fascia::mode_text;
use crate::fascia::panel_keys;
use crate::menu::Mt32Mode;
use crate::states::deleted_line;
use crate::states::listed_told;
use crate::ui::Panel;

verus! {

/// A recording that starts or ends well names its file, one that does not says so.
pub proof fn lemma_recordings_say(name: Seq<char>, seconds: Seq<char>)
    ensures
        record_line(name, true) == "Recording "@ + name,
        record_line(name, false) == "Recording start failed (see log)"@,
        recorded_line(name, seconds, true) == "Saved "@ + name + " ("@ + seconds + "s)"@,
        recorded_line(name, seconds, false) == "Recording save failed (see log)"@,
{
}

/// The clip ring takes rendered frames of a machine that is on, in a window, where it is
/// not switched off; a clip needs frames and is saved one at a time.
pub proof fn lemma_clip_ring(c: Clips, rendered: bool, powered_on: bool, headless: bool, frames: bool)
    ensures
        c.running(rendered, powered_on, headless) <==> rendered && powered_on && c.seconds > 0
            && !headless,
        c.clip_refusal(frames) is None <==> c.seconds > 0 && frames && !c.saving,
        c.seconds == 0 ==> c.clip_refusal(frames) == Some(
            "Clip ring is off ([recording] clip_seconds = 0)"@,
        ),
        c.seconds > 0 && !frames ==> c.clip_refusal(frames) == Some("No clip yet"@),
        c.seconds > 0 && frames && c.saving ==> c.clip_refusal(frames) == Some(
            "Still saving the previous clip"@,
        ),
{
}

/// A clip that is still being saved says nothing; one that is saved names its file, and any
/// other outcome is a failure.
pub proof fn lemma_clip_outcomes(outcome: ClipOutcome)
    ensures
        outcome is Pending <==> Clips::clip_line(outcome) is None,
        outcome matches ClipOutcome::Saved { name, seconds } ==> Clips::clip_line(outcome) == Some(
            "Saved "@ + name@ + " ("@ + seconds@ + "s)"@,
        ),
        !(outcome is Pending) && !(outcome is Saved) ==> Clips::clip_line(outcome) == Some(
            "Clip save failed (see log)"@,
        ),
{
}

/// A scheduled clip takes each frame of its time once: from its start up to, and not with,
/// its end.
pub proof fn lemma_scheduled_clips(c: GifCapture, now: u64, frame: u64)
    ensures
        c.due(now, frame) <==> !c.finished && c.start <= now < c.end && c.last_frame != Some(frame),
        c.due(now, frame) ==> c.seen(now, frame).last_frame == Some(frame) && c.seen(
            now,
            frame,
        ).start == c.start && c.seen(now, frame).end == c.end,
        !c.due(now, frame) ==> c.seen(now, frame) == c,
        c.passed(now) <==> !c.finished && now >= c.end,
{
}

/// A run without a window captures while it has pictures to take, a dump to write or clips
/// to make, and is not done while any of those, or an expectation, is left.
pub proof fn lemma_captures_pending(s: Schedule, i: int, now: u64, frame: u64)
    ensures
        s.capturing() <==> s.shots > 0 || s.dump is Some || s.gifs@.len() > 0,
        s.shots > 0 || s.expectations > 0 || s.dump is Some ==> s.pending(),
        0 <= i < s.gifs@.len() && !s.gifs@[i].finished ==> s.pending(),
        s.shots == 0 && s.expectations == 0 && s.dump is None && all_finished(s.gifs@)
            ==> !s.pending(),
        0 <= i < s.gifs@.len() && s.gifs@[i].due(now, frame) ==> any_due(s.gifs@, now, frame),
{
}

/// A dump of frames starts at its time, writes each frame once, and numbers its files from
/// zero in six digits.
pub proof fn lemma_frame_dumps(d: FrameDump, now: u64, frame: u64)
    ensures
        d.due(now, frame) <==> now >= d.start && d.last_frame != Some(frame),
        d.next_name() == "frame-"@ + crate::number::dec_wide(d.dumped as int, 6) + ".png"@,
{
}

/// The keys of the on-screen keyboard go to the machine as they came, in order.
pub proof fn lemma_panel_keys(keys: Seq<(u8, bool)>, i: int)
    requires
        0 <= i < keys.len(),
    ensures
        panel_keys(keys).len() == keys.len(),
        panel_keys(keys)[i] == Effect::<Seq<char>>::PanelKey(keys[i].0, keys[i].1),
{
}

/// A fault of a synthesiser is shown as a warning after its name; without one nothing is.
pub proof fn lemma_faults(head: Seq<char>, fault: Option<String>)
    ensures
        fault is None ==> fault_effects(head, fault).len() == 0,
        fault matches Some(f) ==> fault_effects(head, fault) == seq![
            Effect::<Seq<char>>::Warning(head + f@),
        ],
        mode_text(Mt32Mode::On) == "on"@,
        mode_text(Mt32Mode::Off) == "off"@,
        mode_text(Mt32Mode::Auto) == "auto"@,
{
}

/// A panel's light blinks every three hundred milliseconds, and its glass is drawn when it
/// shows, is in use and has changed, at most twenty times a second.
pub proof fn lemma_panel_glass(g: Glass, now: u64, shown: bool, selected: bool, changed: bool)
    requires
        now < 0xFFFF_FFFF,
        g.drawn_at <= now,
    ensures
        Glass::lit(now) != Glass::lit((now + 300) as u64),
        Glass::lit(now) == Glass::lit((now + 600) as u64),
        Glass::lit(0),
        g.draws(shown, selected, changed, now) <==> shown && selected && changed && now - g.drawn_at
            >= 50,
{
}

/// A listed state that loaded is named; one that did not leaves the list open, with nothing
/// about to be deleted.
pub proof fn lemma_listed_states(b: &App, n: &App, label: Seq<char>, dir: bool, e: String)
    ensures
        listed_told(b, n, label, true, dir) ==> n.fx@.last() == Effect::Osd("Loaded "@ + label)
            && n.ui == b.ui,
        listed_told(b, n, label, false, true) ==> n.ui.panel == Some(
            Panel::States { confirm_delete: false },
        ) && !n.ui.nav.showing,
        listed_told(b, n, label, false, false) ==> n.ui == b.ui && n.fx@ == b.fx@,
        deleted_line(label, Ok(())) == "Deleted "@ + label,
        deleted_line(label, Err(e)) == "Could not delete "@ + label + ": "@ + e@,
{
}

} // verus!
