//! Recordings, clips and scheduled captures: when a frame is taken, when a
//! capture is over, and what the user is told.

use vstd::prelude::*;

use crate::effects::Effect;
use crate::effects::Effects;
use crate::number::dec_wide;
use crate::number::put_dec_wide;
use crate::text::put;

verus! {

/// The video recording, as far as whether one is running.
#[derive(Clone, Copy, PartialEq, Eq, Structural, Debug)]
pub struct Recording {
    pub active: bool,
}

/// What a recording takes of a quantum that was just stepped.
#[derive(Clone, Copy, PartialEq, Eq, Structural, Debug)]
pub enum RecordStep {
    Nothing,
    /// The sound alone.
    Sound,
    /// The sound and the picture; a wider picture is averaged down first.
    Picture { narrow: bool },
}

pub open spec fn record_line(name: Seq<char>, ok: bool) -> Seq<char> {
    if ok {
        "Recording "@ + name
    } else {
        "Recording start failed (see log)"@
    }
}

pub open spec fn recorded_line(name: Seq<char>, seconds: Seq<char>, ok: bool) -> Seq<char> {
    if ok {
        "Saved "@ + name + " ("@ + seconds + "s)"@
    } else {
        "Recording save failed (see log)"@
    }
}

fn saved_text(name: &str, seconds: &str) -> (r: String)
    ensures
        r@ == "Saved "@ + name@ + " ("@ + seconds@ + "s)"@,
{
    let mut text: String = "Saved ".to_owned();
    put(&mut text, name);
    put(&mut text, " (");
    put(&mut text, seconds);
    put(&mut text, "s)");
    text
}

impl Recording {
    /// The recorder was opened, or could not be.
    pub fn start_recording(&mut self, fx: &mut Effects, name: &str, ok: bool)
        ensures
            final(self).active == (ok || old(self).active),
            final(fx)@ == old(fx)@ + seq![Effect::Osd(record_line(name@, ok)), Effect::Redraw],
    {
        if ok {
            let mut text: String = "Recording ".to_owned();
            put(&mut text, name);
            fx.osd(text.as_str());
            self.active = true;
        } else {
            fx.osd("Recording start failed (see log)");
        }
        fx.redraw();
        assert(fx@ =~= old(fx)@ + seq![Effect::Osd(record_line(name@, ok)), Effect::Redraw]);
    }

    /// The recording is started or stopped. Says whether the host is to open
    /// one; it closes the running one otherwise.
    pub fn toggle_recording(&self) -> (start: bool)
        ensures
            start == !self.active,
    {
        !self.active
    }

    /// The recording was closed; `seconds` is how much time of the machine it
    /// holds, in words. Without a recording there is nothing to close.
    pub fn stop_recording(&mut self, fx: &mut Effects, name: &str, seconds: &str, ok: bool)
        ensures
            !final(self).active,
            final(fx)@ == (if old(self).active {
                old(fx)@ + seq![Effect::Osd(recorded_line(name@, seconds@, ok)), Effect::Redraw]
            } else {
                old(fx)@
            }),
    {
        if !self.active {
            return;
        }
        self.active = false;
        if ok {
            let text: String = saved_text(name, seconds);
            fx.osd(text.as_str());
        } else {
            fx.osd("Recording save failed (see log)");
        }
        fx.redraw();
        assert(fx@ =~= old(fx)@ + seq![
            Effect::Osd(recorded_line(name@, seconds@, ok)),
            Effect::Redraw,
        ]);
    }

    /// What the recording takes now; `rendered` says that a new frame was
    /// drawn, `width` how wide it is and `fixed` how wide the recording is.
    pub fn capture_recorder_output(&self, rendered: bool, width: u32, fixed: u32) -> (r: RecordStep)
        ensures
            r == (if !self.active {
                RecordStep::Nothing
            } else if !rendered {
                RecordStep::Sound
            } else {
                RecordStep::Picture { narrow: width != fixed }
            }),
    {
        if !self.active {
            RecordStep::Nothing
        } else if !rendered {
            RecordStep::Sound
        } else {
            RecordStep::Picture { narrow: width != fixed }
        }
    }
}

/// What a picture of the clip ring was built from.
#[derive(Clone, Copy, PartialEq, Eq, Structural, Debug)]
pub struct ClipSource {
    pub generation: u64,
    pub overscan: u8,
    pub centre_h: i32,
    pub centre_v: i32,
    pub aperture_rows: Option<u32>,
    pub capture_rows: u32,
    pub rtg: bool,
}

#[derive(Clone, Copy, PartialEq, Eq, Structural, Debug)]
pub enum ClipStep {
    Skip,
    /// The newest picture of the ring still stands.
    Repeat,
    /// The picture is to be built and stored.
    Store,
}

/// How a clip that is written in the background stands.
#[derive(PartialEq, Eq, Debug)]
pub enum ClipOutcome {
    Pending,
    /// The writer ended without a word.
    Gone,
    Saved { name: String, seconds: String },
    Failed,
}

/// The ring of recent pictures that a clip is saved from.
#[derive(Clone, Copy, PartialEq, Eq, Structural, Debug)]
pub struct Clips {
    /// How much the ring holds; none switches it off.
    pub seconds: u32,
    pub source: Option<ClipSource>,
    pub generation: u64,
    /// A clip is being written.
    pub saving: bool,
}

impl Clips {
    /// The ring takes frames at all.
    pub open spec fn running(self, rendered: bool, powered_on: bool, headless: bool) -> bool {
        rendered && powered_on && self.seconds != 0 && !headless
    }

    pub open spec fn clip_step(self, wants: bool, empty: bool, source: ClipSource) -> ClipStep {
        if !wants {
            ClipStep::Skip
        } else if !empty && self.source == Some(source) {
            ClipStep::Repeat
        } else {
            ClipStep::Store
        }
    }

    pub fn new(seconds: u32) -> (r: Clips)
        ensures
            r == (Clips { seconds, source: None, generation: 0, saving: false }),
    {
        Clips { seconds, source: None, generation: 0, saving: false }
    }

    pub fn takes_frames(&self, rendered: bool, powered_on: bool, headless: bool) -> (r: bool)
        ensures
            r == self.running(rendered, powered_on, headless),
    {
        rendered && powered_on && self.seconds != 0 && !headless
    }

    /// A frame is offered to the ring: `wants` says that the ring is due one,
    /// `empty` that it has none. A picture that it already holds is not built
    /// again.
    pub fn capture_clip_frame(&mut self, wants: bool, empty: bool, source: ClipSource) -> (r: ClipStep)
        ensures
            r == old(self).clip_step(wants, empty, source),
            *final(self) == (Clips {
                source: if r is Store {
                    Some(source)
                } else {
                    old(self).source
                },
                ..*old(self)
            }),
    {
        if !wants {
            return ClipStep::Skip;
        }
        let same: bool = match self.source {
            Some(s) => s == source,
            None => false,
        };
        if !empty && same {
            return ClipStep::Repeat;
        }
        self.source = Some(source);
        ClipStep::Store
    }

    /// The presented picture changed: what the ring built from it no longer
    /// describes the screen.
    pub fn note_present_fb_changed(&mut self)
        ensures
            *final(self) == (Clips {
                generation: old(self).generation.wrapping_add(1),
                ..*old(self)
            }),
    {
        self.generation = self.generation.wrapping_add(1);
    }

    /// Why a clip cannot be saved now.
    pub open spec fn clip_refusal(self, frames: bool) -> Option<Seq<char>> {
        if self.seconds == 0 {
            Some("Clip ring is off ([recording] clip_seconds = 0)"@)
        } else if !frames {
            Some("No clip yet"@)
        } else if self.saving {
            Some("Still saving the previous clip"@)
        } else {
            None
        }
    }

    /// A clip is asked for; `frames` says that the ring holds any. Says
    /// whether the host is to write it.
    pub fn save_clip_gif(&mut self, fx: &mut Effects, frames: bool, name: &str) -> (write: bool)
        ensures
            write == old(self).clip_refusal(frames) is None,
            *final(self) == (Clips { saving: old(self).saving || write, ..*old(self) }),
            final(fx)@ == old(fx)@ + (match old(self).clip_refusal(frames) {
                Some(why) => seq![Effect::Osd(why)],
                None => seq![Effect::Osd("Saving "@ + name@ + "..."@), Effect::Redraw],
            }),
    {
        if self.seconds == 0 {
            fx.osd("Clip ring is off ([recording] clip_seconds = 0)");
        } else if !frames {
            fx.osd("No clip yet");
        } else if self.saving {
            fx.osd("Still saving the previous clip");
        } else {
            let mut text: String = "Saving ".to_owned();
            put(&mut text, name);
            put(&mut text, "...");
            fx.osd(text.as_str());
            self.saving = true;
            fx.redraw();
            assert(fx@ =~= old(fx)@ + seq![
                Effect::Osd("Saving "@ + name@ + "..."@),
                Effect::Redraw,
            ]);
            return true;
        }
        assert(fx@ =~= old(fx)@ + seq![Effect::Osd(old(self).clip_refusal(frames).unwrap())]);
        false
    }

    /// What a clip that ended says.
    pub open spec fn clip_line(outcome: ClipOutcome) -> Option<Seq<char>> {
        match outcome {
            ClipOutcome::Pending => None,
            ClipOutcome::Saved { name, seconds } => Some(
                "Saved "@ + name@ + " ("@ + seconds@ + "s)"@,
            ),
            _ => Some("Clip save failed (see log)"@),
        }
    }

    /// Looks after a clip that is being written.
    pub fn poll_clip_save(&mut self, fx: &mut Effects, outcome: &ClipOutcome)
        ensures
            *final(self) == (Clips {
                saving: old(self).saving && *outcome is Pending,
                ..*old(self)
            }),
            final(fx)@ == old(fx)@ + (match Clips::clip_line(*outcome) {
                Some(t) => if old(self).saving {
                    seq![Effect::Osd(t)]
                } else {
                    Seq::empty()
                },
                None => Seq::empty(),
            }),
    {
        let ghost none: Seq<Effect<Seq<char>>> = Seq::empty();
        assert(fx@ + none =~= fx@);
        if !self.saving {
            return;
        }
        match outcome {
            ClipOutcome::Pending => {
                return;
            },
            ClipOutcome::Saved { name, seconds } => {
                let text: String = saved_text(name.as_str(), seconds.as_str());
                fx.osd(text.as_str());
            },
            _ => {
                fx.osd("Clip save failed (see log)");
            },
        }
        self.saving = false;
        assert(fx@ =~= old(fx)@ + seq![Effect::Osd(Clips::clip_line(*outcome).unwrap())]);
    }
}

/// A picture is built once: offering the same one again to a ring that holds
/// it only notes the repeat, and any change of it is built anew.
pub proof fn lemma_clip_pictures_are_built_once(c: Clips, a: ClipSource, b: ClipSource)
    requires
        c.source == Some(a),
    ensures
        c.clip_step(true, false, a) is Repeat,
        a != b ==> c.clip_step(true, false, b) is Store,
        c.clip_step(true, true, a) is Store,
{
}

/// A scheduled clip: the part of the machine's time that it covers, the last
/// frame that it took, and whether it is over. Times are in one unit.
#[derive(Clone, Copy, PartialEq, Eq, Structural, Debug)]
pub struct GifCapture {
    pub start: u64,
    pub end: u64,
    pub finished: bool,
    pub last_frame: Option<u64>,
}

#[derive(Debug, PartialEq, Eq)]
pub enum GifStep {
    /// There is no scheduled clip.
    Idle,
    /// The renderer is still on the frame that is wanted.
    Wait,
    /// The frame goes to these captures, if to any.
    Feed(Vec<usize>),
}

impl GifCapture {
    /// The capture is to see this frame.
    pub open spec fn due(self, now: u64, frame: u64) -> bool {
        !self.finished && self.start <= now && now < self.end && self.last_frame != Some(frame)
    }

    pub open spec fn seen(self, now: u64, frame: u64) -> GifCapture {
        if self.due(now, frame) {
            GifCapture { last_frame: Some(frame), ..self }
        } else {
            self
        }
    }

    /// The capture's time has passed.
    pub open spec fn passed(self, now: u64) -> bool {
        !self.finished && now >= self.end
    }

    fn is_due(&self, now: u64, frame: u64) -> (r: bool)
        ensures
            r == self.due(now, frame),
    {
        let new: bool = match self.last_frame {
            Some(f) => f != frame,
            None => true,
        };
        !self.finished && self.start <= now && now < self.end && new
    }
}

pub open spec fn any_due(s: Seq<GifCapture>, now: u64, frame: u64) -> bool {
    exists|i: int| 0 <= i < s.len() && (#[trigger] s[i]).due(now, frame)
}

/// The indices of the captures for which `p` holds, in order.
pub open spec fn which(s: Seq<GifCapture>, p: spec_fn(GifCapture) -> bool, r: Seq<usize>) -> bool {
    &&& forall|k: int| 0 <= k < r.len() ==> #[trigger] r[k] < s.len() && p(s[r[k] as int])
    &&& forall|k: int, l: int| 0 <= k < l < r.len() ==> r[k] < r[l]
    &&& forall|i: int|
        0 <= i < s.len() && p(#[trigger] s[i]) ==> exists|k: int|
            0 <= k < r.len() && #[trigger] r[k] == i
}

fn some_due(captures: &Vec<GifCapture>, now: u64, frame: u64) -> (r: bool)
    ensures
        r == any_due(captures@, now, frame),
{
    let mut i: usize = 0;
    while i < captures.len()
        invariant
            i <= captures@.len(),
            forall|j: int| 0 <= j < i ==> !(#[trigger] captures@[j]).due(now, frame),
        decreases captures@.len() - i,
    {
        if captures[i].is_due(now, frame) {
            return true;
        }
        i += 1;
    }
    false
}

/// Offers a frame to the scheduled clips; `rendered` is the frame that was
/// last rendered. A clip waits for its exact frame while the renderer is
/// still on it, and sees each frame once.
pub fn fire_gif_captures(
    captures: &mut Vec<GifCapture>,
    now: u64,
    frame: u64,
    rendered: Option<u64>,
) -> (step: GifStep)
    ensures
        match step {
            GifStep::Idle => old(captures)@.len() == 0,
            GifStep::Wait => any_due(old(captures)@, now, frame) && rendered != Some(frame),
            GifStep::Feed(r) => {
                &&& old(captures)@.len() > 0
                &&& any_due(old(captures)@, now, frame) ==> rendered == Some(frame)
                &&& which(old(captures)@, |c: GifCapture| c.due(now, frame), r@)
            },
        },
        final(captures)@ == (if step is Feed {
            old(captures)@.map_values(|c: GifCapture| c.seen(now, frame))
        } else {
            old(captures)@
        }),
{
    if captures.len() == 0 {
        return GifStep::Idle;
    }
    if some_due(captures, now, frame) {
        let ready: bool = match rendered {
            Some(f) => f == frame,
            None => false,
        };
        if !ready {
            return GifStep::Wait;
        }
    }
    let ghost all = captures@;
    let ghost p = |c: GifCapture| c.due(now, frame);
    let mut r: Vec<usize> = Vec::new();
    let mut i: usize = 0;
    while i < captures.len()
        invariant
            i <= captures@.len(),
            captures@.len() == all.len(),
            p == (|c: GifCapture| c.due(now, frame)),
            forall|j: int| 0 <= j < i ==> captures@[j] == (#[trigger] all[j]).seen(now, frame),
            forall|j: int| i <= j < all.len() ==> captures@[j] == #[trigger] all[j],
            forall|k: int| 0 <= k < r@.len() ==> #[trigger] r@[k] < i && p(all[r@[k] as int]),
            forall|k: int, l: int| 0 <= k < l < r@.len() ==> r@[k] < r@[l],
            forall|j: int|
                0 <= j < i && p(#[trigger] all[j]) ==> exists|k: int|
                    0 <= k < r@.len() && #[trigger] r@[k] == j,
        decreases captures@.len() - i,
    {
        let mut c: GifCapture = captures[i];
        assert(c == all[i as int]);
        let ghost was = r@;
        if c.is_due(now, frame) {
            c.last_frame = Some(frame);
            captures.set(i, c);
            r.push(i);
            assert(r@[was.len() as int] == i);
        }
        proof {
            assert forall|j: int| 0 <= j < i + 1 && p(#[trigger] all[j]) implies exists|k: int|
                0 <= k < r@.len() && #[trigger] r@[k] == j by {
                if j < i {
                    let k = choose|k: int| 0 <= k < was.len() && #[trigger] was[k] == j;
                    assert(r@[k] == j);
                }
            }
        }
        i += 1;
    }
    assert(captures@ =~= all.map_values(|c: GifCapture| c.seen(now, frame)));
    GifStep::Feed(r)
}

/// A capture could not take its frame: it is over.
pub fn gif_failed(captures: &mut Vec<GifCapture>, i: usize)
    requires
        i < old(captures)@.len(),
    ensures
        final(captures)@ == old(captures)@.update(
            i as int,
            GifCapture { finished: true, ..old(captures)@[i as int] },
        ),
{
    let mut c: GifCapture = captures[i];
    c.finished = true;
    captures.set(i, c);
}

/// Ends the captures whose time has passed; gives them for the host to close.
pub fn gif_close(captures: &mut Vec<GifCapture>, now: u64) -> (r: Vec<usize>)
    ensures
        which(old(captures)@, |c: GifCapture| c.passed(now), r@),
        final(captures)@ == old(captures)@.map_values(
            |c: GifCapture| GifCapture { finished: c.finished || now >= c.end, ..c },
        ),
{
    let ghost all = captures@;
    let ghost p = |c: GifCapture| c.passed(now);
    let ghost f = |c: GifCapture| GifCapture { finished: c.finished || now >= c.end, ..c };
    let mut r: Vec<usize> = Vec::new();
    let mut i: usize = 0;
    while i < captures.len()
        invariant
            i <= captures@.len(),
            captures@.len() == all.len(),
            p == (|c: GifCapture| c.passed(now)),
            f == (|c: GifCapture| GifCapture { finished: c.finished || now >= c.end, ..c }),
            forall|j: int| 0 <= j < i ==> captures@[j] == f(#[trigger] all[j]),
            forall|j: int| i <= j < all.len() ==> captures@[j] == #[trigger] all[j],
            forall|k: int| 0 <= k < r@.len() ==> #[trigger] r@[k] < i && p(all[r@[k] as int]),
            forall|k: int, l: int| 0 <= k < l < r@.len() ==> r@[k] < r@[l],
            forall|j: int|
                0 <= j < i && p(#[trigger] all[j]) ==> exists|k: int|
                    0 <= k < r@.len() && #[trigger] r@[k] == j,
        decreases captures@.len() - i,
    {
        let mut c: GifCapture = captures[i];
        assert(c == all[i as int]);
        let ghost was = r@;
        if !c.finished && now >= c.end {
            c.finished = true;
            captures.set(i, c);
            r.push(i);
            assert(r@[was.len() as int] == i);
        }
        proof {
            assert(captures@[i as int] == f(all[i as int]));
            assert forall|j: int| 0 <= j < i + 1 && p(#[trigger] all[j]) implies exists|k: int|
                0 <= k < r@.len() && #[trigger] r@[k] == j by {
                if j < i {
                    let k = choose|k: int| 0 <= k < was.len() && #[trigger] was[k] == j;
                    assert(r@[k] == j);
                }
            }
        }
        i += 1;
    }
    assert(captures@ =~= all.map_values(f));
    r
}

pub open spec fn all_finished(s: Seq<GifCapture>) -> bool {
    forall|i: int| 0 <= i < s.len() ==> (#[trigger] s[i]).finished
}

fn gifs_finished(captures: &Vec<GifCapture>) -> (r: bool)
    ensures
        r == all_finished(captures@),
{
    let mut i: usize = 0;
    while i < captures.len()
        invariant
            i <= captures@.len(),
            forall|j: int| 0 <= j < i ==> (#[trigger] captures@[j]).finished,
        decreases captures@.len() - i,
    {
        if !captures[i].finished {
            return false;
        }
        i += 1;
    }
    true
}

/// The scheduled captures of a run: screenshots and expectations that are
/// still armed, a frame dump, and the clips.
#[derive(PartialEq, Eq, Debug)]
pub struct Schedule {
    pub shots: usize,
    pub expectations: usize,
    pub dump: Option<FrameDump>,
    pub gifs: Vec<GifCapture>,
    /// How many expected screenshots did not match.
    pub expect_failures: u32,
}

impl Schedule {
    pub open spec fn capturing(&self) -> bool {
        self.shots > 0 || self.dump is Some || self.gifs@.len() > 0
    }

    pub open spec fn pending(&self) -> bool {
        self.shots > 0 || self.expectations > 0 || self.dump is Some || !all_finished(self.gifs@)
    }

    /// The run is a scheduled capture, with nobody at the window.
    pub fn headless_capture_active(&self) -> (r: bool)
        ensures
            r == self.capturing(),
    {
        self.shots > 0 || self.dump.is_some() || self.gifs.len() > 0
    }

    /// Some scheduled capture is not over yet: whichever is over last ends the
    /// run.
    pub fn other_capture_work_pending(&self) -> (r: bool)
        ensures
            r == self.pending(),
    {
        self.shots > 0 || self.expectations > 0 || self.dump.is_some() || !gifs_finished(&self.gifs)
    }

    /// The clips end the run: there were some, and nothing is left to do.
    pub fn gifs_complete(&self) -> (r: bool)
        ensures
            r == (self.gifs@.len() > 0 && !self.pending()),
    {
        self.gifs.len() > 0 && !self.other_capture_work_pending()
    }

    /// An expected screenshot was held against the frame.
    pub fn check_screenshot_expectation(&mut self, passed: bool)
        requires
            old(self).expect_failures < u32::MAX,
        ensures
            *final(self) == (Schedule {
                expect_failures: if passed {
                    old(self).expect_failures
                } else {
                    (old(self).expect_failures + 1) as u32
                },
                ..*old(self)
            }),
    {
        if !passed {
            self.expect_failures = self.expect_failures + 1;
        }
    }
}

/// A dump of successive frames into a directory.
#[derive(Clone, Copy, PartialEq, Eq, Structural, Debug)]
pub struct FrameDump {
    pub start: u64,
    /// How many frames are wanted, and how many were written.
    pub count: u64,
    pub dumped: u64,
    pub last_frame: Option<u64>,
}

/// What became of a dump after a frame of it.
#[derive(Clone, Copy, PartialEq, Eq, Structural, Debug)]
pub struct DumpStep {
    /// The dump is over, complete or not.
    pub over: bool,
    /// A word in the log is due: at the first frame, the last, and every so
    /// many between.
    pub log: bool,
}

impl FrameDump {
    pub open spec fn wf(self) -> bool {
        self.dumped < self.count || self.dumped == 0
    }

    pub open spec fn due(self, now: u64, frame: u64) -> bool {
        now >= self.start && self.last_frame != Some(frame)
    }

    /// The name of the next frame's file.
    pub open spec fn next_name(self) -> Seq<char> {
        "frame-"@ + dec_wide(self.dumped as int, 6) + ".png"@
    }

    pub fn file_name(&self) -> (r: String)
        ensures
            r@ == self.next_name(),
    {
        let mut name: String = "frame-".to_owned();
        put_dec_wide(&mut name, self.dumped, 6);
        put(&mut name, ".png");
        name
    }

    /// Whether this frame is to be written.
    pub fn dump_frame_if_due(&self, now: u64, frame: u64) -> (r: bool)
        ensures
            r == self.due(now, frame),
    {
        let new: bool = match self.last_frame {
            Some(f) => f != frame,
            None => true,
        };
        now >= self.start && new
    }
}

/// A frame of the dump was written, or could not be: then the dump is over.
pub fn dump_frame_done(dump: &mut Option<FrameDump>, frame: u64, ok: bool) -> (r: DumpStep)
    requires
        *old(dump) matches Some(d) ==> d.wf(),
    ensures
        *final(dump) matches Some(d) ==> d.wf(),
        match *old(dump) {
            Some(d) => {
                let written = d.dumped + 1;
                &&& r.over == (!ok || written >= d.count)
                &&& r.log == (ok && (written == 1 || written == d.count || written % 25 == 0))
                &&& *final(dump) == (if r.over {
                    None
                } else {
                    Some(
                        FrameDump {
                            dumped: written as u64,
                            last_frame: Some(frame),
                            ..d
                        },
                    )
                })
            },
            None => *final(dump) is None && !r.over && !r.log,
        },
{
    let d: FrameDump = match *dump {
        Some(d) => d,
        None => {
            return DumpStep { over: false, log: false };
        },
    };
    if !ok {
        *dump = None;
        return DumpStep { over: true, log: false };
    }
    let written: u64 = d.dumped + 1;
    let log: bool = written == 1 || written == d.count || written % 25 == 0;
    if written >= d.count {
        *dump = None;
        return DumpStep { over: true, log };
    }
    *dump = Some(FrameDump { dumped: written, last_frame: Some(frame), ..d });
    DumpStep { over: false, log }
}

/// Once a clip has seen a frame it does not want it again, and once its time
/// has passed it wants none.
pub proof fn lemma_clips_see_each_frame_once(c: GifCapture, now: u64, later: u64, frame: u64)
    requires
        now <= later,
    ensures
        c.due(now, frame) ==> !c.seen(now, frame).due(later, frame),
        c.passed(now) ==> !c.due(later, frame),
{
}

} // verus!
