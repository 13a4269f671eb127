//! What the views of the library's values keep: the kind of each, and everything in it.

use vstd::prelude::*;

use crate::breaks::opt_text;
use crate::command::Command;
use crate::command::command_view;
use crate::command::opt_string;
use crate::console::Ask;
use crate::console::ask_view;
use crate::effects::Effect;
use crate::effects::effect_text;
use crate::gdb::DebugStop;
use crate::gdb::stop_view;
use crate::gdb_session::Monitor;
use crate::gdb_session::monitor_view;
use crate::netplay_events::LauncherStep;
use crate::netplay_events::launcher_view;
use crate::sheets::Piece;
use crate::sheets::piece_text;

verus! {

/// A command keeps its kind and its arguments, its texts as their characters.
#[verifier::rlimit(40)]
pub proof fn lemma_command_view_keeps(it: Command<String, Vec<u8>>)
    ensures
        it is Nothing ==> command_view(it) == Command::<Seq<char>, Seq<u8>>::Nothing,
        it is Help ==> command_view(it) == Command::<Seq<char>, Seq<u8>>::Help,
        it is Clear ==> command_view(it) == Command::<Seq<char>, Seq<u8>>::Clear,
        it is Close ==> command_view(it) == Command::<Seq<char>, Seq<u8>>::Close,
        it is Status ==> command_view(it) == Command::<Seq<char>, Seq<u8>>::Status,
        it is Run ==> command_view(it) == Command::<Seq<char>, Seq<u8>>::Run,
        it is Pause ==> command_view(it) == Command::<Seq<char>, Seq<u8>>::Pause,
        it matches Command::Step(n)
            ==> command_view(it) == (Command::<Seq<char>, Seq<u8>>::Step(n)),
        it is Over ==> command_view(it) == Command::<Seq<char>, Seq<u8>>::Over,
        it is Out ==> command_view(it) == Command::<Seq<char>, Seq<u8>>::Out,
        it is Frame ==> command_view(it) == Command::<Seq<char>, Seq<u8>>::Frame,
        it is Line ==> command_view(it) == Command::<Seq<char>, Seq<u8>>::Line,
        it is CopperStep ==> command_view(it) == Command::<Seq<char>, Seq<u8>>::CopperStep,
        it matches Command::RunTo(a)
            ==> command_view(it) == (Command::<Seq<char>, Seq<u8>>::RunTo(a)),
        it matches Command::ToSlot(v, h)
            ==> command_view(it) == (Command::<Seq<char>, Seq<u8>>::ToSlot(v, h)),
        it matches Command::ReverseStep(n)
            ==> command_view(it) == (Command::<Seq<char>, Seq<u8>>::ReverseStep(n)),
        it is ReverseFrame ==> command_view(it) == Command::<Seq<char>, Seq<u8>>::ReverseFrame,
        it is ReverseRun ==> command_view(it) == Command::<Seq<char>, Seq<u8>>::ReverseRun,
        it matches Command::Break { addr, cond, ignore }
            ==> command_view(it)
            == (Command::<Seq<char>, Seq<u8>>::Break { addr, cond: opt_string(cond), ignore }),
        it matches Command::Watch { addr, filter, pc }
            ==> command_view(it) == (Command::<Seq<char>, Seq<u8>>::Watch { addr, filter, pc }),
        it matches Command::RegWatch(r)
            ==> command_view(it) == (Command::<Seq<char>, Seq<u8>>::RegWatch(r)),
        it matches Command::BeamTrap(v, h)
            ==> command_view(it) == (Command::<Seq<char>, Seq<u8>>::BeamTrap(v, h)),
        it matches Command::CopperBreak(a)
            ==> command_view(it) == (Command::<Seq<char>, Seq<u8>>::CopperBreak(a)),
        it matches Command::Catch(v)
            ==> command_view(it) == (Command::<Seq<char>, Seq<u8>>::Catch(v)),
        it matches Command::Os(l) ==> command_view(it) == (Command::<Seq<char>, Seq<u8>>::Os(l)),
        it matches Command::Task(t)
            ==> command_view(it) == (Command::<Seq<char>, Seq<u8>>::Task(t@)),
        it matches Command::CatchTask(t)
            ==> command_view(it) == (Command::<Seq<char>, Seq<u8>>::CatchTask(opt_string(t))),
        it is CatchAlert ==> command_view(it) == Command::<Seq<char>, Seq<u8>>::CatchAlert,
        it matches Command::Guru(c)
            ==> command_view(it) == (Command::<Seq<char>, Seq<u8>>::Guru(c)),
        it is Breaks ==> command_view(it) == Command::<Seq<char>, Seq<u8>>::Breaks,
        it is ClearBreaks ==> command_view(it) == Command::<Seq<char>, Seq<u8>>::ClearBreaks,
        it is Regs ==> command_view(it) == Command::<Seq<char>, Seq<u8>>::Regs,
        it matches Command::History(n)
            ==> command_view(it) == (Command::<Seq<char>, Seq<u8>>::History(n)),
        it is Stack ==> command_view(it) == Command::<Seq<char>, Seq<u8>>::Stack,
        it matches Command::Mem { addr, len }
            ==> command_view(it) == (Command::<Seq<char>, Seq<u8>>::Mem { addr, len }),
        it matches Command::Dis { addr, count }
            ==> command_view(it) == (Command::<Seq<char>, Seq<u8>>::Dis { addr, count }),
        it matches Command::Copper { start, count }
            ==> command_view(it) == (Command::<Seq<char>, Seq<u8>>::Copper { start, count }),
        it matches Command::Hunt(h)
            ==> command_view(it) == (Command::<Seq<char>, Seq<u8>>::Hunt(h)),
        it matches Command::TraceStart(t)
            ==> command_view(it) == (Command::<Seq<char>, Seq<u8>>::TraceStart(opt_string(t))),
        it is TraceStop ==> command_view(it) == Command::<Seq<char>, Seq<u8>>::TraceStop,
        it is TraceStatus ==> command_view(it) == Command::<Seq<char>, Seq<u8>>::TraceStatus,
        it matches Command::WaveStart(t)
            ==> command_view(it) == (Command::<Seq<char>, Seq<u8>>::WaveStart(t@)),
        it is WaveStop ==> command_view(it) == Command::<Seq<char>, Seq<u8>>::WaveStop,
        it is WaveStatus ==> command_view(it) == Command::<Seq<char>, Seq<u8>>::WaveStatus,
        it is Blits ==> command_view(it) == Command::<Seq<char>, Seq<u8>>::Blits,
        it is Custom ==> command_view(it) == Command::<Seq<char>, Seq<u8>>::Custom,
        it matches Command::Poke { addr, value }
            ==> command_view(it) == (Command::<Seq<char>, Seq<u8>>::Poke { addr, value }),
        it matches Command::SetReg { reg, value, name }
            ==> command_view(it)
            == (Command::<Seq<char>, Seq<u8>>::SetReg { reg, value, name: name@ }),
        it matches Command::Find { pattern, start }
            ==> command_view(it)
            == (Command::<Seq<char>, Seq<u8>>::Find { pattern: pattern@, start }),
        it matches Command::Writer(a)
            ==> command_view(it) == (Command::<Seq<char>, Seq<u8>>::Writer(a)),
        it matches Command::Bad(t) ==> command_view(it) == (Command::<Seq<char>, Seq<u8>>::Bad(t@)),
{
}

/// What is asked of the machine keeps its kind and its arguments.
#[verifier::rlimit(40)]
pub proof fn lemma_ask_view_keeps(it: Ask<String>)
    ensures
        it matches Ask::Step(n) ==> ask_view(it) == (Ask::<Seq<char>>::Step(n)),
        it matches Ask::Over(n) ==> ask_view(it) == (Ask::<Seq<char>>::Over(n)),
        it matches Ask::Out(n) ==> ask_view(it) == (Ask::<Seq<char>>::Out(n)),
        it is Frame ==> ask_view(it) == Ask::<Seq<char>>::Frame,
        it matches Ask::RunToBeam { vpos, hpos, budget }
            ==> ask_view(it) == (Ask::<Seq<char>>::RunToBeam { vpos, hpos, budget }),
        it matches Ask::CopperStep(n) ==> ask_view(it) == (Ask::<Seq<char>>::CopperStep(n)),
        it matches Ask::RunToPc { addr, budget }
            ==> ask_view(it) == (Ask::<Seq<char>>::RunToPc { addr, budget }),
        it matches Ask::ReverseStep(n) ==> ask_view(it) == (Ask::<Seq<char>>::ReverseStep(n)),
        it is ReverseFrame ==> ask_view(it) == Ask::<Seq<char>>::ReverseFrame,
        it is ReverseRun ==> ask_view(it) == Ask::<Seq<char>>::ReverseRun,
        it matches Ask::LastWriter(a) ==> ask_view(it) == (Ask::<Seq<char>>::LastWriter(a)),
        it matches Ask::Os(l) ==> ask_view(it) == (Ask::<Seq<char>>::Os(l)),
        it matches Ask::Task(t) ==> ask_view(it) == (Ask::<Seq<char>>::Task(t@)),
        it is ExecBase ==> ask_view(it) == Ask::<Seq<char>>::ExecBase,
        it matches Ask::Guru(c) ==> ask_view(it) == (Ask::<Seq<char>>::Guru(c)),
        it is Stack ==> ask_view(it) == Ask::<Seq<char>>::Stack,
        it matches Ask::Disassemble { addr, count }
            ==> ask_view(it) == (Ask::<Seq<char>>::Disassemble { addr, count }),
        it matches Ask::CopperList { start, count }
            ==> ask_view(it) == (Ask::<Seq<char>>::CopperList { start, count }),
        it is CustomRegisters ==> ask_view(it) == Ask::<Seq<char>>::CustomRegisters,
        it matches Ask::TraceStart { path, cap }
            ==> ask_view(it) == (Ask::<Seq<char>>::TraceStart { path: opt_text(path), cap }),
        it is TraceStop ==> ask_view(it) == Ask::<Seq<char>>::TraceStop,
        it is TraceStatus ==> ask_view(it) == Ask::<Seq<char>>::TraceStatus,
        it matches Ask::WaveStart(t) ==> ask_view(it) == (Ask::<Seq<char>>::WaveStart(t@)),
        it is WaveStop ==> ask_view(it) == Ask::<Seq<char>>::WaveStop,
        it is WaveStatus ==> ask_view(it) == Ask::<Seq<char>>::WaveStatus,
{
}

/// A request to the host keeps its kind and its arguments.
#[verifier::rlimit(40)]
pub proof fn lemma_effect_text_keeps(it: Effect<String>)
    ensures
        it matches Effect::Osd(t) ==> effect_text(it) == (Effect::<Seq<char>>::Osd(t@)),
        it matches Effect::Warning(t) ==> effect_text(it) == (Effect::<Seq<char>>::Warning(t@)),
        it is Redraw ==> effect_text(it) == Effect::<Seq<char>>::Redraw,
        it is FinishRender ==> effect_text(it) == Effect::<Seq<char>>::FinishRender,
        it is ResetRender ==> effect_text(it) == Effect::<Seq<char>>::ResetRender,
        it matches Effect::NotifyWarp(t)
            ==> effect_text(it) == (Effect::<Seq<char>>::NotifyWarp(t@)),
        it matches Effect::ControlStopped { reason, detail }
            ==> effect_text(it)
            == (Effect::<Seq<char>>::ControlStopped { reason: reason@, detail: detail@ }),
        it matches Effect::GdbPacket(t) ==> effect_text(it) == (Effect::<Seq<char>>::GdbPacket(t@)),
        it matches Effect::GdbConsole(t)
            ==> effect_text(it) == (Effect::<Seq<char>>::GdbConsole(t@)),
        it matches Effect::GdbDisconnect(t)
            ==> effect_text(it) == (Effect::<Seq<char>>::GdbDisconnect(t@)),
        it matches Effect::ArmTimeTravel { budget_mb, interval_frames }
            ==> effect_text(it)
            == (Effect::<Seq<char>>::ArmTimeTravel { budget_mb, interval_frames }),
        it is ReleaseKeyboardHolds ==> effect_text(it) == Effect::<Seq<char>>::ReleaseKeyboardHolds,
        it is ReanchorClock ==> effect_text(it) == Effect::<Seq<char>>::ReanchorClock,
        it is AttachDrives ==> effect_text(it) == Effect::<Seq<char>>::AttachDrives,
        it is ReleaseDrives ==> effect_text(it) == Effect::<Seq<char>>::ReleaseDrives,
        it is ParkTestScreen ==> effect_text(it) == Effect::<Seq<char>>::ParkTestScreen,
        it matches Effect::CaptureMouse(on)
            ==> effect_text(it) == (Effect::<Seq<char>>::CaptureMouse(on)),
        it is ReleaseMouseButtons ==> effect_text(it) == Effect::<Seq<char>>::ReleaseMouseButtons,
        it is DropMotion ==> effect_text(it) == Effect::<Seq<char>>::DropMotion,
        it matches Effect::PressRawKey(k)
            ==> effect_text(it) == (Effect::<Seq<char>>::PressRawKey(k)),
        it matches Effect::ReleaseRawKey(k)
            ==> effect_text(it) == (Effect::<Seq<char>>::ReleaseRawKey(k)),
        it is PumpJoystick ==> effect_text(it) == Effect::<Seq<char>>::PumpJoystick,
        it is SurrenderFocus ==> effect_text(it) == Effect::<Seq<char>>::SurrenderFocus,
        it is ReleaseHeatMap ==> effect_text(it) == Effect::<Seq<char>>::ReleaseHeatMap,
        it is SavePreferences ==> effect_text(it) == Effect::<Seq<char>>::SavePreferences,
        it is EnterWorkspace ==> effect_text(it) == Effect::<Seq<char>>::EnterWorkspace,
        it is LeaveWorkspace ==> effect_text(it) == Effect::<Seq<char>>::LeaveWorkspace,
        it is CancelDiskPicker ==> effect_text(it) == Effect::<Seq<char>>::CancelDiskPicker,
        it is OpenLauncher ==> effect_text(it) == Effect::<Seq<char>>::OpenLauncher,
        it matches Effect::LauncherStatus { good, text }
            ==> effect_text(it) == (Effect::<Seq<char>>::LauncherStatus { good, text: text@ }),
        it is ParkNav ==> effect_text(it) == Effect::<Seq<char>>::ParkNav,
        it is AdoptMachine ==> effect_text(it) == Effect::<Seq<char>>::AdoptMachine,
        it is DropPlaylists ==> effect_text(it) == Effect::<Seq<char>>::DropPlaylists,
        it is Rest ==> effect_text(it) == Effect::<Seq<char>>::Rest,
        it matches Effect::Fullscreen(on)
            ==> effect_text(it) == (Effect::<Seq<char>>::Fullscreen(on)),
        it is AutoCaptureMouse ==> effect_text(it) == Effect::<Seq<char>>::AutoCaptureMouse,
        it is SuspendMouse ==> effect_text(it) == Effect::<Seq<char>>::SuspendMouse,
        it is RestoreMouse ==> effect_text(it) == Effect::<Seq<char>>::RestoreMouse,
        it is RecordFreeze ==> effect_text(it) == Effect::<Seq<char>>::RecordFreeze,
        it is InstallAudio ==> effect_text(it) == Effect::<Seq<char>>::InstallAudio,
        it matches Effect::PanelKey(k, down)
            ==> effect_text(it) == (Effect::<Seq<char>>::PanelKey(k, down)),
        it is PersistPreferences ==> effect_text(it) == Effect::<Seq<char>>::PersistPreferences,
        it matches Effect::Apply(a) ==> effect_text(it) == (Effect::<Seq<char>>::Apply(a)),
{
}

/// A piece of a page keeps its kind, its label and what it asks for.
#[verifier::rlimit(40)]
pub proof fn lemma_piece_text_keeps(it: Piece<String>)
    ensures
        it matches Piece::Button { label, action, enabled }
            ==> piece_text(it) == (Piece::<Seq<char>>::Button { label: label@, action, enabled }),
        it matches Piece::Tick { label, on, action, enabled }
            ==> piece_text(it) == (Piece::<Seq<char>>::Tick { label: label@, on, action, enabled }),
        it matches Piece::Row { label, selected, action }
            ==> piece_text(it) == (Piece::<Seq<char>>::Row { label: label@, selected, action }),
        it matches Piece::Text(t) ==> piece_text(it) == (Piece::<Seq<char>>::Text(t@)),
        it matches Piece::Note(t) ==> piece_text(it) == (Piece::<Seq<char>>::Note(t@)),
        it matches Piece::Link { label, action }
            ==> piece_text(it) == (Piece::<Seq<char>>::Link { label: label@, action }),
        it is Address ==> piece_text(it) == Piece::<Seq<char>>::Address,
{
}

/// A monitor command keeps its kind and its arguments.
#[verifier::rlimit(40)]
pub proof fn lemma_monitor_view_keeps(it: Monitor<Vec<char>>)
    ensures
        it is WarpOn ==> monitor_view(it) == Monitor::<Seq<char>>::WarpOn,
        it is WarpOff ==> monitor_view(it) == Monitor::<Seq<char>>::WarpOff,
        it is WarpStatus ==> monitor_view(it) == Monitor::<Seq<char>>::WarpStatus,
        it is WarpUsage ==> monitor_view(it) == Monitor::<Seq<char>>::WarpUsage,
        it matches Monitor::WatchReg { off, watch }
            ==> monitor_view(it) == (Monitor::<Seq<char>>::WatchReg { off, watch }),
        it matches Monitor::UnknownReg(t)
            ==> monitor_view(it) == (Monitor::<Seq<char>>::UnknownReg(t@)),
        it matches Monitor::RegUsage(t)
            ==> monitor_view(it) == (Monitor::<Seq<char>>::RegUsage(t@)),
        it is ClearRegs ==> monitor_view(it) == Monitor::<Seq<char>>::ClearRegs,
        it is Pass ==> monitor_view(it) == Monitor::<Seq<char>>::Pass,
{
}

/// A stop keeps its reason.
#[verifier::rlimit(40)]
pub proof fn lemma_stop_view_keeps(it: DebugStop<String>)
    ensures
        it is Breakpoint ==> stop_view(it) == DebugStop::<Seq<char>>::Breakpoint,
        it matches DebugStop::Watch { addr, access }
            ==> stop_view(it) == (DebugStop::<Seq<char>>::Watch { addr, access }),
        it matches DebugStop::Exception { vector }
            ==> stop_view(it) == (DebugStop::<Seq<char>>::Exception { vector }),
        it matches DebugStop::LoadSeg { name, addr }
            ==> stop_view(it) == (DebugStop::<Seq<char>>::LoadSeg { name: name@, addr }),
        it is Other ==> stop_view(it) == DebugStop::<Seq<char>>::Other,
{
}

/// What the launcher is to do keeps its kind and its text.
#[verifier::rlimit(40)]
pub proof fn lemma_launcher_view_keeps(it: LauncherStep<String>)
    ensures
        it is Nothing ==> launcher_view(it) == LauncherStep::<Seq<char>>::Nothing,
        it is Generate ==> launcher_view(it) == LauncherStep::<Seq<char>>::Generate,
        it matches LauncherStep::Copy { spectator }
            ==> launcher_view(it) == (LauncherStep::<Seq<char>>::Copy { spectator }),
        it matches LauncherStep::Status { good, text }
            ==> launcher_view(it) == (LauncherStep::<Seq<char>>::Status { good, text: text@ }),
{
}

} // verus!
