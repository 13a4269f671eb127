//! What holds of the session whatever is done to it: when the machine is heard,
//! what warp and its holders come to, what power, saved states and the browser
//! of states leave behind.

use vstd::prelude::*;

use crate::app::App;
use crate::effects::Effect;
use crate::entry::Key;
use crate::nav::Dir;
use crate::power::parked;
use crate::power::pause_toggled;
use crate::power::powered_down;
use crate::power::powered_up;
use crate::saves::Loaded;
use crate::saves::slot_loaded;
use crate::saves::state_loaded;
use crate::session::RunaheadFacts;
use crate::session::Session;
use crate::states::StatesAction;
use crate::states::StatesOp;
use crate::states::StatesStep;
use crate::states::states_acted;
use crate::states::states_op;
use crate::states::states_step;
use crate::ui::Panel;
use crate::ui::Ui;
use crate::warp::WarpHolds;
use crate::warp::WarpSource;
use crate::warp::WarpSpeed;

verus! {

/// Only the sound of a session differs.
pub open spec fn same_but_sound(a: Session, b: Session) -> bool {
    a == (Session { audio_suspended: a.audio_suspended, ..b })
}

/// The machine is heard exactly while it is on, runs, and nobody but the user
/// makes it run fast: no boot phase, no holder and no replay.
pub proof fn lemma_when_the_machine_is_heard(s: Session)
    ensures
        same_but_sound(s.settled(), s),
        !s.settled().audio_suspended <==> s.powered_on && !s.cpu_halted && !s.paused
            && !s.catching_up && !s.holds.control && !s.holds.gdb && !s.holds.guest && (
        s.launch matches Some(g) ==> !g.engaged) && (s.boot matches Some(g) ==> !g.engaged),
{
}

/// Pausing and resuming change nothing but the pause and the sound, and each
/// undoes the other.
pub proof fn lemma_pause_and_resume(s: Session)
    ensures
        s.stopped().paused,
        !s.resumed().paused,
        s.flipped().paused == !s.paused,
        same_but_sound(s.stopped(), (Session { paused: true, ..s })),
        same_but_sound(s.resumed(), (Session { paused: false, ..s })),
        same_but_sound(s.flipped().flipped(), s),
        s.stopped().paused && !s.paused ==> s.stopped().audio_suspended,
{
}

/// Warp on makes the machine run free unless a physical drive keeps it paced;
/// a client's or the guest's request is remembered as theirs and nobody else's,
/// and the user's own forgets them all. Phases that wait are left alone.
pub proof fn lemma_warp_on(s: Session, source: WarpSource)
    ensures
        ({
            let t = s.warped(true, source);
            &&& t.paced == s.bridged
            &&& t.launch == s.launch && t.boot == s.boot
            &&& source is Manual ==> !t.holds.control && !t.holds.gdb && !t.holds.guest
            &&& source is Control ==> t.holds.control == (!s.bridged || s.holds.control)
                && t.holds.gdb == s.holds.gdb && t.holds.guest == s.holds.guest
            &&& source is Gdb ==> t.holds.gdb == (!s.bridged || s.holds.gdb) && t.holds.control
                == s.holds.control && t.holds.guest == s.holds.guest
            &&& source is Guest ==> t.holds.guest == (!s.bridged || s.holds.guest)
                && t.holds.control == s.holds.control && t.holds.gdb == s.holds.gdb
            &&& same_but_sound(
                t,
                (Session { paced: t.paced, holds: t.holds, ..s }),
            )
        }),
{
}

/// Warp off ends every phase and gives up the asker's own hold, the user's all
/// of them; the machine is paced again unless somebody still holds it.
pub proof fn lemma_warp_off(s: Session, source: WarpSource)
    ensures
        ({
            let t = s.warped(false, source);
            &&& t.launch is None && t.boot is None
            &&& source is Manual ==> !t.holds.control && !t.holds.gdb && !t.holds.guest
            &&& t.holds.control == (s.holds.control && !(source is Control) && !(source is Manual))
            &&& t.holds.gdb == (s.holds.gdb && !(source is Gdb) && !(source is Manual))
            &&& t.holds.guest == (s.holds.guest && !(source is Guest) && !(source is Manual))
            &&& t.paced == (s.paced || (!t.holds.control && !t.holds.gdb && !t.holds.guest))
            &&& same_but_sound(
                t,
                (Session { paced: t.paced, holds: t.holds, launch: None, boot: None, ..s }),
            )
        }),
{
}

/// A control client hears of every change that it did not make, of the pace or
/// of who holds warp, and of nothing else.
pub proof fn lemma_control_client_hears_of_changes(s: Session, on: bool, source: WarpSource)
    ensures
        s.warp_effects(on, source).contains(Effect::NotifyWarp(source.name())) <==> !(
        source is Control) && (s.warped(on, source).paced != s.paced || s.warped(on, source).holds
            != s.holds),
        s.warp_effects(on, source).last() == Effect::<Seq<char>>::Redraw,
{
    let e = s.warp_effects(on, source);
    let shown = s.warp_shown(on, source);
    let told = (s.warped(on, source).paced != s.paced || s.warped(on, source).holds != s.holds)
        && source !is Control;
    if told {
        assert(e[shown.len() as int] == Effect::NotifyWarp(source.name()));
    } else {
        assert(e =~= shown + seq![Effect::Redraw]);
    }
}

/// The first holder that is reported is a control client, then a GDB client,
/// then the guest.
pub proof fn lemma_holders_in_order(h: WarpHolds)
    ensures
        h.control ==> h.holders().len() > 0 && h.holders()[0] is Control,
        !h.control && h.gdb ==> h.holders().len() > 0 && h.holders()[0] is Gdb,
        !h.control && !h.gdb && h.guest ==> h.holders().len() == 1 && h.holders()[0] is Guest,
        h.control && h.gdb ==> h.holders()[1] is Gdb,
        h.control && h.gdb && h.guest ==> h.holders().len() == 3 && h.holders()[2] is Guest,
        !h.control && !h.gdb && !h.guest ==> h.holders().len() == 0,
{
    reveal_with_fuel(Seq::filter, 4);
    let order = crate::warp::report_order();
    assert(order.drop_last().drop_last().drop_last() =~= Seq::empty());
    assert(order.drop_last().drop_last().last() == WarpSource::Control);
    assert(order.drop_last().last() == WarpSource::Gdb);
    assert(order.last() == WarpSource::Guest);
}

/// The end of a boot phase paces the machine exactly where nobody holds warp,
/// and takes no hold away.
pub proof fn lemma_phase_end(s: Session)
    ensures
        s.gate_ended().paced == (s.paced || (!s.holds.control && !s.holds.gdb && !s.holds.guest)),
        same_but_sound(s.gate_ended(), (Session { paced: s.gate_ended().paced, ..s })),
{
}

/// Frames are run ahead exactly where nothing speaks against it: the machine
/// is on, runs, and is paced, and no rewind, RTG display, recording, MIDI or
/// serial link, client, debugger or state from elsewhere is in the way. Then
/// as many are as the user asked for.
pub proof fn lemma_when_frames_run_ahead(s: Session, f: RunaheadFacts)
    ensures
        s.runahead_now(f) == s.run_ahead_frames || s.runahead_now(f) == 0,
        s.run_ahead_frames > 0 ==> (s.runahead_now(f) > 0 <==> s.powered_on && !s.cpu_halted
            && !s.paused && s.paced && !f.time_travel && !f.rtg && !f.recording
            && !f.serial_is_midi && f.serial_safe && !s.control_attached && !f.debug_block
            && !f.coverage_block && !s.loaded_state && !f.machine_block && !f.host_block),
{
}

/// Each level of warp shows half as many frames as the one before it, from two
/// retired for one shown up to sixteen; the last shows frames by the clock.
pub proof fn lemma_warp_levels_double(s: Session)
    requires
        !s.paced,
    ensures
        s.warp_speed is X2 ==> s.burst_plan(false) == (2usize, None::<u64>),
        !(s.warp_speed is Max) && !(s.warp_speed.following() is Max) ==> (Session {
            warp_speed: s.warp_speed.following(),
            ..s
        }).burst_plan(false).0 == 2 * s.burst_plan(false).0,
        s.warp_speed is X16 ==> s.burst_plan(false) == (16usize, None::<u64>),
        s.warp_speed is Max ==> s.burst_plan(false) == (s.max_frame_cap, Some(s.max_budget_ms)),
        WarpSpeed::X2.following() is X4 && WarpSpeed::X4.following() is X8
            && WarpSpeed::X8.following() is X16 && WarpSpeed::X16.following() is Max
            && WarpSpeed::Max.following() is X2,
{
}

/// Power off leaves a machine that is off, not paused, and not warping for
/// anybody; every key of its keyboard is up and its drives are let go.
pub proof fn lemma_power_off(o: App, n: App)
    requires
        powered_down(&o, &n),
    ensures
        !n.session.powered_on && !n.session.paused && n.session.audio_suspended,
        n.session.launch is None && n.session.boot is None,
        !n.session.holds.control && !n.session.holds.gdb && !n.session.holds.guest,
        n.session.paced == (o.session.paced || o.session.holds.control || o.session.holds.gdb
            || o.session.holds.guest || (o.session.launch matches Some(g) && g.engaged) || (
        o.session.boot matches Some(g) && g.engaged)),
        !n.session.control_pending,
        n.fx@.contains(Effect::ReleaseDrives),
        n.fx@.contains(Effect::ReleaseKeyboardHolds),
        n.machine == o.machine,
        n.session.warp_speed == o.session.warp_speed,
        n.session.run_ahead_frames == o.session.run_ahead_frames,
{
    let held = o.session.holds != WarpHolds::none();
    let req = crate::power::off_requests(held);
    let a = o.fx@.len() as int;
    assert(req[0] == Effect::<Seq<char>>::ReleaseKeyboardHolds);
    assert(req[req.len() - 1] == Effect::<Seq<char>>::ReleaseDrives);
    assert(n.fx@[a] == Effect::<Seq<char>>::ReleaseKeyboardHolds);
    assert(n.fx@[a + req.len() - 1] == Effect::<Seq<char>>::ReleaseDrives);
}

/// What a cold reset leaves: a halted machine exactly where it failed, every
/// key up, and the test screen on the display.
pub proof fn lemma_cold_reset(o: App, n: App, ok: bool)
    requires
        parked(&o, &n, ok),
    ensures
        n.session.cpu_halted == !ok,
        forall|k: int| 0 <= k < n.guest.held@.len() ==> !(#[trigger] n.guest.held@[k]),
        n.fx@.contains(Effect::ParkTestScreen),
        n.session.powered_on == o.session.powered_on,
{
    assert(n.fx@[o.fx@.len() as int + 1] == Effect::<Seq<char>>::ParkTestScreen);
}

/// Power on takes the drives again, and starts the phases that wait: from then
/// on the machine runs free, unless a physical drive keeps it paced.
pub proof fn lemma_power_on(o: App, n: App)
    requires
        powered_up(&o, &n),
    ensures
        n.session.powered_on,
        n.session.paused == o.session.paused && n.session.cpu_halted == o.session.cpu_halted,
        n.session.holds == o.session.holds,
        n.fx@.contains(Effect::AttachDrives),
        n.session.launch is Some == o.session.launch is Some,
        n.session.launch matches Some(g) ==> g.started,
        n.session.boot matches Some(g) ==> g.started,
        (o.session.launch matches Some(g) && !g.started) || (o.session.boot matches Some(g)
            && !g.started) ==> n.session.paced == o.session.bridged,
        (o.session.launch matches Some(g) ==> g.started) && (o.session.boot matches Some(g)
            ==> g.started) ==> n.session.paced == o.session.paced,
        o.session.launch matches Some(g) && !g.started ==> n.session.launch.unwrap().engaged
            == !o.session.bridged,
{
    assert(n.fx@[o.fx@.len() as int] == Effect::<Seq<char>>::AttachDrives);
}

/// The pause button stops a running machine and runs a stopped one, and never
/// changes anything else of it; a stop answers what a client waits for.
pub proof fn lemma_pause_button(o: App, n: App)
    requires
        pause_toggled(&o, &n),
    ensures
        n.session.paused == !o.session.paused,
        n.machine == o.machine,
        n.session.powered_on == o.session.powered_on,
        n.session.paced == o.session.paced && n.session.holds == o.session.holds,
        !o.session.paused ==> !n.session.control_pending && n.session.audio_suspended,
        o.session.paused ==> n.session.control_pending == o.session.control_pending && n.gdb
            == o.gdb,
{
}

/// A state that was loaded leaves a machine that is on and not halted, and the
/// configuration screen closed; the pause, the pace and every other panel stay
/// as they were. From then on no frame is run ahead. A load that failed leaves
/// all of it.
pub proof fn lemma_loaded_state(
    o: App,
    n: App,
    name: Seq<char>,
    done: Option<Loaded>,
    null_sink: bool,
    f: RunaheadFacts,
)
    requires
        state_loaded(&o, &n, name, done, null_sink),
    ensures
        done is Some ==> {
            &&& n.session.powered_on && !n.session.cpu_halted
            &&& n.session.paused == o.session.paused && n.session.paced == o.session.paced
            &&& n.session.runahead_now(f) == 0
            &&& (o.ui.panel matches Some(Panel::Launcher(_))) ==> n.ui.panel is None
            &&& !(o.ui.panel matches Some(Panel::Launcher(_))) ==> n.ui.panel == o.ui.panel
            &&& n.ui.menu == o.ui.menu && n.ui.nav == o.ui.nav
        },
        done is None ==> n.session == o.session && n.ui == o.ui,
        n.machine == o.machine,
{
}

/// A machine that starts from the configuration screen by a load gets a voice;
/// one that had one already keeps it.
pub proof fn lemma_load_gives_a_voice(o: App, n: App, name: Seq<char>, l: Loaded, null_sink: bool)
    requires
        state_loaded(&o, &n, name, Some(l), null_sink),
        !o.fx@.contains(Effect::InstallAudio),
        !o.fx@.contains(Effect::DropPlaylists),
    ensures
        n.fx@.contains(Effect::InstallAudio) <==> !o.session.powered_on && (
        o.ui.panel matches Some(Panel::Launcher(_))) && null_sink,
        n.fx@.contains(Effect::DropPlaylists) <==> l.reconfigured,
{
    let install = !o.session.powered_on && (o.ui.panel matches Some(Panel::Launcher(_)))
        && null_sink;
    let e = crate::saves::load_effects(name, l, install);
    assert(n.fx@ == o.fx@ + e);
    let k = o.fx@.len() as int;
    if install {
        assert(e[1] == Effect::<Seq<char>>::InstallAudio);
        assert(n.fx@[k + 1] == Effect::<Seq<char>>::InstallAudio);
    }
    if l.reconfigured {
        let at = if install {
            2int
        } else {
            1
        };
        assert(e[at] == Effect::<Seq<char>>::DropPlaylists);
        assert(n.fx@[k + at] == Effect::<Seq<char>>::DropPlaylists);
    }
    if n.fx@.contains(Effect::InstallAudio) {
        let i = n.fx@.index_of(Effect::InstallAudio);
        if i < k {
            assert(o.fx@[i] == Effect::<Seq<char>>::InstallAudio);
        } else {
            assert(e[i - k] == Effect::<Seq<char>>::InstallAudio);
        }
    }
    if n.fx@.contains(Effect::DropPlaylists) {
        let i = n.fx@.index_of(Effect::DropPlaylists);
        if i < k {
            assert(o.fx@[i] == Effect::<Seq<char>>::DropPlaylists);
        } else {
            assert(e[i - k] == Effect::<Seq<char>>::DropPlaylists);
        }
    }
}

/// A slot that was loaded leaves what its file would, and the clock starts
/// again from now.
pub proof fn lemma_slot_load(
    o: App,
    n: App,
    slot: u64,
    name: Seq<char>,
    done: Option<Loaded>,
    null_sink: bool,
)
    requires
        slot_loaded(&o, &n, slot, name, done, null_sink),
    ensures
        done is Some ==> n.session.powered_on && !n.session.cpu_halted && n.session.loaded_state,
        done is None ==> same_but_sound(n.session, o.session) && n.ui == o.ui,
        n.session.audio_suspended == n.session.settled().audio_suspended,
        n.machine == o.machine,
        n.fx@.last() == Effect::<Seq<char>>::ReanchorClock,
{
}

/// The browser of states: each arrow steps its own way, the page keys page,
/// Home goes to the start and End to the end, Return and Space press, and
/// Delete and Backspace ask before they delete.
pub proof fn lemma_state_browser_keys(asks: bool)
    ensures
        states_op(asks, Key::Up) == Some(StatesOp::Step(Dir::Up)),
        states_op(asks, Key::Down) == Some(StatesOp::Step(Dir::Down)),
        states_op(asks, Key::Left) == Some(StatesOp::Step(Dir::Left)),
        states_op(asks, Key::Right) == Some(StatesOp::Step(Dir::Right)),
        states_op(asks, Key::PageUp) == Some(StatesOp::Page { down: false }),
        states_op(asks, Key::PageDown) == Some(StatesOp::Page { down: true }),
        states_op(asks, Key::Home) == Some(StatesOp::Jump { end: false }),
        states_op(asks, Key::End) == Some(StatesOp::Jump { end: true }),
        states_op(asks, Key::Enter) == Some(StatesOp::Press),
        states_op(asks, Key::Space) == Some(StatesOp::Press),
        states_op(asks, Key::Backspace) == states_op(asks, Key::Delete),
        states_op(asks, Key::Tab) is None,
{
}

/// The browser acts on the row that was chosen, and only on one that is
/// listed while the browser is open: loading closes it, and deleting leaves
/// it.
pub proof fn lemma_state_browser_acts(o: App, n: App, action: StatesAction, entries: usize, step:
    StatesStep)
    requires
        step == states_step(action, entries, o.ui.browses()),
        states_acted(&o, &n, step),
    ensures
        step matches StatesStep::Load(i) ==> action == StatesAction::Load(i) && i < entries
            && o.ui.browses() && n.ui.panel is None && n.session.audio_suspended,
        step matches StatesStep::Delete(i) ==> action == StatesAction::Delete(i) && i < entries
            && o.ui.browses() && n == o,
        action matches StatesAction::Load(i) ==> (i < entries && o.ui.browses() ==> step
            == StatesStep::Load(i)),
        action matches StatesAction::Delete(i) ==> (i < entries && o.ui.browses() ==> step
            == StatesStep::Delete(i)),
        action is Browse ==> step is OpenDialog && n.ui.panel is None,
        action is Nothing ==> n == o,
{
}

/// Taking the question back leaves the browser open without it.
pub proof fn lemma_withdrawn_question(ui: Ui)
    ensures
        ui.after_op(Some(StatesOp::Withdraw)).panel == Some(
            Panel::States { confirm_delete: false },
        ),
        ui.after_op(Some(StatesOp::AskDelete)) == ui,
        ui.after_op(None) == ui,
{
}

} // verus!
