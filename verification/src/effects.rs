//! What the session asks of the host, in order: messages on the screen,
//! redraws, protocol replies. The host performs them; the logic only records
//! them.

use vstd::prelude::*;

use crate::menu::MenuAction;

verus! {

/// One request to the host. `T` is the type of its texts.
#[derive(PartialEq, Eq, Debug)]
pub enum Effect<T> {
    /// A transient message over the display, which is redrawn.
    Osd(T),
    /// The same in amber: something did not go as asked.
    Warning(T),
    Redraw,
    /// Bring the presented picture up to the current frame.
    FinishRender,
    /// Start the presentation over: the frame timeline has jumped.
    ResetRender,
    /// Tell a control client that warp changed, and on whose account.
    NotifyWarp(T),
    /// Answer the control client's outstanding resume.
    ControlStopped { reason: T, detail: T },
    GdbPacket(T),
    GdbConsole(T),
    GdbDisconnect(T),
    /// Arm the reverse-execution history: megabytes and frames per snapshot.
    ArmTimeTravel { budget_mb: u64, interval_frames: u64 },
    /// Let go of the keys held on the on-screen keyboard.
    ReleaseKeyboardHolds,
    /// Restart the clock that pacing is measured against.
    ReanchorClock,
    AttachDrives,
    ReleaseDrives,
    /// Paint the picture of a machine that is switched off.
    ParkTestScreen,
    /// Grab the mouse for the machine, or let it go; a grab may be refused.
    CaptureMouse(bool),
    ReleaseMouseButtons,
    /// Forget the motion of the mouse that was too small to send so far.
    DropMotion,
    PressRawKey(u8),
    ReleaseRawKey(u8),
    /// Send the joystick ports their current state.
    PumpJoystick,
    /// Take the keyboard focus from the text field that has it.
    SurrenderFocus,
    /// Let go of the heat map that the analyzer armed.
    ReleaseHeatMap,
    SavePreferences,
    /// Give the window its size and place for the debug layout.
    EnterWorkspace,
    /// Give the window back its size and place.
    LeaveWorkspace,
    CancelDiskPicker,
    /// Show the launcher on its netplay page.
    OpenLauncher,
    LauncherStatus { good: bool, text: T },
    /// Put the pad navigation's marker on its first place.
    ParkNav,
    /// Take over the machine that the players agreed on.
    AdoptMachine,
    /// Forget the disks of the playlists.
    DropPlaylists,
    /// Wait a moment: nothing could be stepped.
    Rest,
    Fullscreen(bool),
    /// Grab the mouse where the capture mode takes it by itself.
    AutoCaptureMouse,
    /// Borrow the mouse for the interface, if the machine has it.
    SuspendMouse,
    /// Hand back a mouse that the interface borrowed, once nothing of it is
    /// open any more.
    RestoreMouse,
    /// Write the freeze into the input recording, if one is running.
    RecordFreeze,
    /// Give the machine a live audio output in place of the silent one.
    InstallAudio,
    /// A key of the on-screen keyboard went down or up.
    PanelKey(u8, bool),
    /// Keep what the user just set, where the build keeps settings.
    PersistPreferences,
    /// A setting of the menu that the host holds takes this value from now on.
    Apply(MenuAction),
}

#[derive(PartialEq, Eq, Debug)]
pub struct Effects {
    pub log: Vec<Effect<String>>,
}

pub open spec fn effect_text(e: Effect<String>) -> Effect<Seq<char>> {
    match e {
        Effect::Osd(t) => Effect::Osd(t@),
        Effect::Warning(t) => Effect::Warning(t@),
        Effect::Redraw => Effect::Redraw,
        Effect::FinishRender => Effect::FinishRender,
        Effect::ResetRender => Effect::ResetRender,
        Effect::NotifyWarp(t) => Effect::NotifyWarp(t@),
        Effect::ControlStopped { reason, detail } => Effect::ControlStopped {
            reason: reason@,
            detail: detail@,
        },
        Effect::GdbPacket(t) => Effect::GdbPacket(t@),
        Effect::GdbConsole(t) => Effect::GdbConsole(t@),
        Effect::GdbDisconnect(t) => Effect::GdbDisconnect(t@),
        Effect::ArmTimeTravel { budget_mb, interval_frames } => Effect::ArmTimeTravel {
            budget_mb,
            interval_frames,
        },
        Effect::ReleaseKeyboardHolds => Effect::ReleaseKeyboardHolds,
        Effect::ReanchorClock => Effect::ReanchorClock,
        Effect::AttachDrives => Effect::AttachDrives,
        Effect::ReleaseDrives => Effect::ReleaseDrives,
        Effect::ParkTestScreen => Effect::ParkTestScreen,
        Effect::CaptureMouse(on) => Effect::CaptureMouse(on),
        Effect::ReleaseMouseButtons => Effect::ReleaseMouseButtons,
        Effect::DropMotion => Effect::DropMotion,
        Effect::PressRawKey(k) => Effect::PressRawKey(k),
        Effect::ReleaseRawKey(k) => Effect::ReleaseRawKey(k),
        Effect::PumpJoystick => Effect::PumpJoystick,
        Effect::SurrenderFocus => Effect::SurrenderFocus,
        Effect::ReleaseHeatMap => Effect::ReleaseHeatMap,
        Effect::SavePreferences => Effect::SavePreferences,
        Effect::EnterWorkspace => Effect::EnterWorkspace,
        Effect::LeaveWorkspace => Effect::LeaveWorkspace,
        Effect::CancelDiskPicker => Effect::CancelDiskPicker,
        Effect::OpenLauncher => Effect::OpenLauncher,
        Effect::LauncherStatus { good, text } => Effect::LauncherStatus { good, text: text@ },
        Effect::ParkNav => Effect::ParkNav,
        Effect::AdoptMachine => Effect::AdoptMachine,
        Effect::DropPlaylists => Effect::DropPlaylists,
        Effect::Rest => Effect::Rest,
        Effect::Fullscreen(on) => Effect::Fullscreen(on),
        Effect::AutoCaptureMouse => Effect::AutoCaptureMouse,
        Effect::SuspendMouse => Effect::SuspendMouse,
        Effect::RestoreMouse => Effect::RestoreMouse,
        Effect::RecordFreeze => Effect::RecordFreeze,
        Effect::InstallAudio => Effect::InstallAudio,
        Effect::PanelKey(k, down) => Effect::PanelKey(k, down),
        Effect::PersistPreferences => Effect::PersistPreferences,
        Effect::Apply(a) => Effect::Apply(a),
    }
}

impl View for Effects {
    type V = Seq<Effect<Seq<char>>>;

    open spec fn view(&self) -> Seq<Effect<Seq<char>>> {
        self.log@.map_values(|e: Effect<String>| effect_text(e))
    }
}

impl Effects {
    pub fn new() -> (r: Effects)
        ensures
            r@ == Seq::<Effect<Seq<char>>>::empty(),
    {
        let r = Effects { log: Vec::new() };
        assert(r@ =~= Seq::empty());
        r
    }

    pub fn push(&mut self, e: Effect<String>)
        ensures
            final(self)@ == old(self)@.push(effect_text(e)),
    {
        self.log.push(e);
        assert(self@ =~= old(self)@.push(effect_text(e)));
    }

    pub fn osd(&mut self, text: &str)
        ensures
            final(self)@ == old(self)@.push(Effect::Osd(text@)),
    {
        self.push(Effect::Osd(text.to_owned()));
    }

    pub fn redraw(&mut self)
        ensures
            final(self)@ == old(self)@.push(Effect::Redraw),
    {
        self.push(Effect::Redraw);
    }

    /// Takes the requests recorded so far, oldest first.
    pub fn take(&mut self) -> (r: Vec<Effect<String>>)
        ensures
            final(self)@.len() == 0,
            r@.map_values(|e: Effect<String>| effect_text(e)) == old(self)@,
    {
        let mut out: Vec<Effect<String>> = Vec::new();
        std::mem::swap(&mut out, &mut self.log);
        out
    }
}

pub(crate) proof fn lemma_then<T>(a: Seq<T>, b: Seq<T>, c: Seq<T>)
    ensures
        (a + b) + c == a + (b + c),
{
    assert((a + b) + c =~= a + (b + c));
}

pub(crate) proof fn lemma_nothing<T>(a: Seq<T>)
    ensures
        a + Seq::<T>::empty() == a,
{
    assert(a + Seq::<T>::empty() =~= a);
}

pub(crate) proof fn lemma_last<T>(a: Seq<T>, x: T)
    ensures
        a.push(x) == a + seq![x],
{
    assert(a.push(x) =~= a + seq![x]);
}

} // verus!
