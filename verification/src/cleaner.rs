//! The window's state: what is chosen, whether the automatic loop is on, what
//! the last run gave, and what each click and each outcome changes.

use crate::interval::{interval, IntervalOpt, INTERVAL_COUNT};
use crate::mode::Mode;
use crate::winmem::MemoryListCommand;
use crate::worker::AutoClean;
use vstd::prelude::*;
use vstd::string::StringExecFns;

verus! {

/// A colour, as red, green and blue.
#[derive(Clone, Copy, Debug, PartialEq, Eq, Structural)]
pub struct Rgb {
    pub r: u8,
    pub g: u8,
    pub b: u8,
}

/// Something that happened in the window.
#[derive(Debug, PartialEq, Eq)]
pub enum UiEvent {
    /// A mode was chosen.
    ModeChosen(Mode),
    /// The interval at this place in the list was chosen.
    IntervalChosen(usize),
    /// The button that cleans at once was pressed.
    CleanPressed,
    /// The command that was run at once, for this mode, has returned.
    CommandDone(Mode, Result<(), String>),
    /// The button that turns the automatic loop on and off was pressed.
    AutoPressed,
    /// The window is closing.
    Closed,
}

/// What is to be done about it.
#[derive(Clone, Copy, Debug, PartialEq, Eq, Structural)]
pub enum UiAction {
    Nothing,
    /// Run this command, and report its outcome for this mode.
    RunCommand(Mode, MemoryListCommand),
    /// Raise the flag and start a worker that drives this loop.
    SpawnWorker(AutoClean),
    /// Lower the flag and wait for the worker to end.
    JoinWorker,
}

/// The state of the window.
#[derive(Debug)]
pub struct CleanRamApp {
    pub mode: Mode,
    /// The place of the chosen interval in the list.
    pub interval_idx: usize,
    /// The line that tells what happened last.
    pub status: String,
    /// The flag that keeps the automatic loop going.
    pub looping: bool,
    /// The loop that the worker was started with, while there is a worker.
    pub loop_handle: Option<AutoClean>,
    /// Whether the last run at the user's request succeeded.
    pub last_result_ok: Option<bool>,
}

/// The state of the window, with its text as a sequence of characters.
#[verifier::ext_equal]
pub struct AppModel {
    pub mode: Mode,
    pub interval_idx: int,
    pub status: Seq<char>,
    pub looping: bool,
    pub loop_handle: Option<AutoClean>,
    pub last_result_ok: Option<bool>,
}

/// An event, with its text as a sequence of characters.
pub enum EventModel {
    ModeChosen(Mode),
    IntervalChosen(int),
    CleanPressed,
    CommandDone(Mode, Result<(), Seq<char>>),
    AutoPressed,
    Closed,
}

impl View for CleanRamApp {
    type V = AppModel;

    open spec fn view(&self) -> AppModel {
        AppModel {
            mode: self.mode,
            interval_idx: self.interval_idx as int,
            status: self.status@,
            looping: self.looping,
            loop_handle: self.loop_handle,
            last_result_ok: self.last_result_ok,
        }
    }
}

/// The outcome of a command, with its text as a sequence of characters.
pub open spec fn outcome_view(outcome: Result<(), String>) -> Result<(), Seq<char>> {
    match outcome {
        Ok(()) => Ok(()),
        Err(e) => Err(e@),
    }
}

impl View for UiEvent {
    type V = EventModel;

    open spec fn view(&self) -> EventModel {
        match self {
            UiEvent::ModeChosen(mode) => EventModel::ModeChosen(*mode),
            UiEvent::IntervalChosen(idx) => EventModel::IntervalChosen(*idx as int),
            UiEvent::CleanPressed => EventModel::CleanPressed,
            UiEvent::CommandDone(ran, outcome) => EventModel::CommandDone(
                *ran,
                outcome_view(*outcome),
            ),
            UiEvent::AutoPressed => EventModel::AutoPressed,
            UiEvent::Closed => EventModel::Closed,
        }
    }
}

impl EventModel {
    /// Whether an interval that is chosen is on offer.
    pub open spec fn valid(self) -> bool {
        self matches EventModel::IntervalChosen(idx) ==> 0 <= idx < INTERVAL_COUNT
    }
}

/// The line after a run that succeeded.
pub open spec fn cleaned_text(mode: Mode) -> Seq<char> {
    "✅ "@ + mode.name() + " thành công."@
}

/// The line after a run that failed.
pub open spec fn failed_text(reason: Seq<char>) -> Seq<char> {
    "❌ Lỗi: "@ + reason
}

/// The line when the automatic loop was turned on.
pub open spec fn started_text(opt: IntervalOpt, mode: Mode) -> Seq<char> {
    "▶ Auto-clean đang chạy mỗi "@ + opt.label@ + " ("@ + mode.name() + ")"@
}

/// The line when the automatic loop was turned off.
pub open spec fn stopped_text() -> Seq<char> {
    "⏹ Auto-clean đã dừng."@
}

impl AppModel {
    /// The state of a window that was just opened.
    pub open spec fn opened() -> AppModel {
        AppModel {
            mode: Mode::EmptyWorkingSets,
            interval_idx: 0,
            status: "Sẵn sàng."@,
            looping: false,
            loop_handle: None,
            last_result_ok: None,
        }
    }

    /// Whether the chosen interval is on offer.
    pub open spec fn interval_valid(self) -> bool {
        0 <= self.interval_idx < INTERVAL_COUNT
    }

    /// Whether the chosen interval is on offer, and the flag is up exactly while
    /// there is a worker.
    pub open spec fn wf(self) -> bool {
        &&& self.interval_valid()
        &&& self.looping <==> self.loop_handle is Some
    }

    /// The loop that a worker would be started with now.
    pub open spec fn plan(self) -> AutoClean {
        AutoClean::fresh(self.mode, crate::interval::interval_at(self.interval_idx).secs)
    }

    /// After a run of the mode `ran` at the user's request.
    pub open spec fn cleaned(self, ran: Mode, outcome: Result<(), Seq<char>>) -> AppModel {
        AppModel {
            status: match outcome {
                Ok(()) => cleaned_text(ran),
                Err(reason) => failed_text(reason),
            },
            last_result_ok: Some(outcome is Ok),
            ..self
        }
    }

    /// After the automatic loop was turned on; nothing changes if it is on.
    pub open spec fn loop_started(self) -> AppModel {
        if self.looping {
            self
        } else {
            AppModel {
                looping: true,
                loop_handle: Some(self.plan()),
                status: started_text(
                    crate::interval::interval_at(self.interval_idx),
                    self.mode,
                ),
                ..self
            }
        }
    }

    /// After the worker, if there is one, was told to end and has ended.
    pub open spec fn exited(self) -> AppModel {
        AppModel { looping: false, loop_handle: None, ..self }
    }

    /// After the automatic loop was turned off.
    pub open spec fn loop_stopped(self) -> AppModel {
        AppModel { status: stopped_text(), ..self.exited() }
    }

    /// What there is to do with the worker when the flag goes down.
    pub open spec fn join(self) -> UiAction {
        if self.loop_handle is Some {
            UiAction::JoinWorker
        } else {
            UiAction::Nothing
        }
    }

    /// One event: the state afterwards, and what to do.
    pub open spec fn next(self, event: EventModel) -> (AppModel, UiAction) {
        match event {
            EventModel::ModeChosen(mode) => (AppModel { mode, ..self }, UiAction::Nothing),
            EventModel::IntervalChosen(interval_idx) => (
                AppModel { interval_idx, ..self },
                UiAction::Nothing,
            ),
            EventModel::CleanPressed => (
                self,
                UiAction::RunCommand(self.mode, self.mode.command()),
            ),
            EventModel::CommandDone(ran, outcome) => (
                self.cleaned(ran, outcome),
                UiAction::Nothing,
            ),
            EventModel::AutoPressed => if self.looping {
                (self.loop_stopped(), self.join())
            } else {
                (self.loop_started(), UiAction::SpawnWorker(self.plan()))
            },
            EventModel::Closed => (self.exited(), self.join()),
        }
    }

    /// The state after all of these events.
    pub open spec fn after(self, events: Seq<EventModel>) -> AppModel
        decreases events.len(),
    {
        if events.len() == 0 {
            self
        } else {
            self.after(events.drop_last()).next(events.last()).0
        }
    }

    /// What is to be done about the last of these events.
    pub open spec fn last_action(self, events: Seq<EventModel>) -> UiAction {
        self.after(events.drop_last()).next(events.last()).1
    }

    /// The number of workers that these events leave alive: those started less
    /// those waited for.
    pub open spec fn workers(self, events: Seq<EventModel>) -> int
        decreases events.len(),
    {
        if events.len() == 0 {
            0
        } else {
            let before = self.workers(events.drop_last());
            match self.last_action(events) {
                UiAction::SpawnWorker(_) => before + 1,
                UiAction::JoinWorker => before - 1,
                _ => before,
            }
        }
    }
}

impl Default for CleanRamApp {
    /// The state of a window that was just opened.
    fn default() -> (app: CleanRamApp)
        ensures
            app@ == AppModel::opened(),
            app@.wf(),
            app.mode == Mode::EmptyWorkingSets,
            app.interval_idx == 0,
            app.status@ == "Sẵn sàng."@,
            !app.looping,
            app.loop_handle is None,
            app.last_result_ok is None,
    {
        CleanRamApp {
            mode: Mode::EmptyWorkingSets,
            interval_idx: 0,
            status: "Sẵn sàng.".to_string(),
            looping: false,
            loop_handle: None,
            last_result_ok: None,
        }
    }
}

impl CleanRamApp {
    /// Takes in the outcome of a run at the user's request, and the mode that was
    /// run.
    pub fn clean_once(&mut self, ran: Mode, outcome: Result<(), String>)
        ensures
            final(self)@ == old(self)@.cleaned(ran, outcome_view(outcome)),
            old(self)@.wf() ==> final(self)@.wf(),
            outcome is Ok ==> final(self).status@ == "✅ "@ + ran.name() + " thành công."@,
            outcome matches Err(e) ==> final(self).status@ == "❌ Lỗi: "@ + e@,
            final(self).last_result_ok == Some(outcome is Ok),
            final(self).mode == old(self).mode,
            final(self).interval_idx == old(self).interval_idx,
            final(self).looping == old(self).looping,
            final(self).loop_handle == old(self).loop_handle,
    {
        match outcome {
            Ok(()) => {
                let mut status: String = "✅ ".to_string();
                status.append(ran.label());
                status.append(" thành công.");
                self.status = status;
                self.last_result_ok = Some(true);
            },
            Err(e) => {
                let mut status: String = "❌ Lỗi: ".to_string();
                status.append(e.as_str());
                self.status = status;
                self.last_result_ok = Some(false);
            },
        }
    }

    /// Turns the automatic loop on, and hands out the loop that a worker is to
    /// be started with. If it is on, nothing changes and there is no loop to
    /// start.
    pub fn start_loop(&mut self) -> (plan: Option<AutoClean>)
        requires
            old(self)@.looping || old(self)@.interval_valid(),
        ensures
            final(self)@ == old(self)@.loop_started(),
            plan == if old(self)@.looping {
                None
            } else {
                Some(old(self)@.plan())
            },
            old(self)@.wf() ==> final(self)@.wf(),
            plan is None <==> old(self).looping,
            old(self).looping ==> *final(self) == *old(self),
            plan matches Some(auto) ==> {
                &&& auto.mode == old(self).mode
                &&& auto.secs == crate::interval::INTERVAL_SECS@[old(self).interval_idx as int]
                &&& auto.phase == crate::worker::LoopPhase::Checking
                &&& final(self).loop_handle == Some(auto)
                &&& final(self).status@ == "▶ Auto-clean đang chạy mỗi "@
                    + crate::interval::INTERVAL_LABELS@[old(self).interval_idx as int]@ + " ("@
                    + old(self).mode.name() + ")"@
            },
            final(self).looping,
            final(self).mode == old(self).mode,
            final(self).interval_idx == old(self).interval_idx,
            final(self).last_result_ok == old(self).last_result_ok,
    {
        if self.looping {
            return None;
        }
        self.looping = true;
        let opt: IntervalOpt = interval(self.interval_idx);
        let auto: AutoClean = AutoClean::new(self.mode, opt.secs);
        self.loop_handle = Some(auto);
        let mut status: String = "▶ Auto-clean đang chạy mỗi ".to_string();
        status.append(opt.label);
        status.append(" (");
        status.append(self.mode.label());
        status.append(")");
        self.status = status;
        Some(auto)
    }

    /// Lowers the flag and lets go of the worker. Tells whether there is one to
    /// wait for.
    pub fn on_exit(&mut self) -> (joins: bool)
        ensures
            final(self)@ == old(self)@.exited(),
            joins == (old(self)@.loop_handle is Some),
            old(self)@.wf() ==> final(self)@.wf(),
            joins <==> old(self).loop_handle is Some,
            !final(self).looping,
            final(self).loop_handle is None,
            final(self).status@ == old(self).status@,
            final(self).mode == old(self).mode,
            final(self).interval_idx == old(self).interval_idx,
            final(self).last_result_ok == old(self).last_result_ok,
    {
        self.looping = false;
        let handle: Option<AutoClean> = self.loop_handle;
        self.loop_handle = None;
        handle.is_some()
    }

    /// Turns the automatic loop off. Tells whether there is a worker to wait
    /// for.
    pub fn stop_loop(&mut self) -> (joins: bool)
        ensures
            final(self)@ == old(self)@.loop_stopped(),
            joins == (old(self)@.loop_handle is Some),
            old(self)@.wf() ==> final(self)@.wf(),
            joins <==> old(self).loop_handle is Some,
            !final(self).looping,
            final(self).loop_handle is None,
            final(self).status@ == "⏹ Auto-clean đã dừng."@,
            final(self).mode == old(self).mode,
            final(self).interval_idx == old(self).interval_idx,
            final(self).last_result_ok == old(self).last_result_ok,
    {
        let joins: bool = self.on_exit();
        self.status = "⏹ Auto-clean đã dừng.".to_string();
        joins
    }

    /// Takes in what happened in the window, and says what to do about it.
    pub fn update(&mut self, event: UiEvent) -> (action: UiAction)
        requires
            old(self)@.interval_valid(),
            event@.valid(),
        ensures
            (final(self)@, action) == old(self)@.next(event@),
            final(self)@.interval_valid(),
            old(self)@.wf() ==> final(self)@.wf(),
            final(self).mode == match event {
                UiEvent::ModeChosen(mode) => mode,
                _ => old(self).mode,
            },
            final(self).interval_idx == match event {
                UiEvent::IntervalChosen(idx) => idx,
                _ => old(self).interval_idx,
            },
            final(self).last_result_ok == match event {
                UiEvent::CommandDone(_, outcome) => Some(outcome is Ok),
                _ => old(self).last_result_ok,
            },
            final(self).looping == match event {
                UiEvent::AutoPressed => !old(self).looping,
                UiEvent::Closed => false,
                _ => old(self).looping,
            },
            !(event is AutoPressed) && !(event is Closed) ==> final(self).loop_handle == old(
                self,
            ).loop_handle,
            !(event is AutoPressed) && !(event is CommandDone) ==> final(self).status@ == old(
                self,
            ).status@,
            event matches UiEvent::CommandDone(ran, outcome) ==> match outcome {
                Ok(()) => final(self).status@ == "✅ "@ + ran.name() + " thành công."@,
                Err(e) => final(self).status@ == "❌ Lỗi: "@ + e@,
            },
            event is CleanPressed <==> action is RunCommand,
            event is CleanPressed ==> action == UiAction::RunCommand(
                old(self).mode,
                old(self).mode.command(),
            ),
            event is AutoPressed && !old(self).looping <==> action is SpawnWorker,
            action matches UiAction::SpawnWorker(auto) ==> {
                &&& auto.mode == old(self).mode
                &&& auto.secs == crate::interval::INTERVAL_SECS@[old(self).interval_idx as int]
                &&& auto.phase == crate::worker::LoopPhase::Checking
                &&& final(self).loop_handle == Some(auto)
                &&& final(self).status@ == "▶ Auto-clean đang chạy mỗi "@
                    + crate::interval::INTERVAL_LABELS@[old(self).interval_idx as int]@ + " ("@
                    + old(self).mode.name() + ")"@
            },
            event is AutoPressed && old(self).looping ==> final(self).loop_handle is None
                && final(self).status@ == "⏹ Auto-clean đã dừng."@,
            event is Closed ==> final(self).loop_handle is None,
            action == UiAction::JoinWorker <==> old(self).loop_handle is Some && (event is Closed
                || (event is AutoPressed && old(self).looping)),
    {
        match event {
            UiEvent::ModeChosen(mode) => {
                self.mode = mode;
                UiAction::Nothing
            },
            UiEvent::IntervalChosen(idx) => {
                self.interval_idx = idx;
                UiAction::Nothing
            },
            UiEvent::CleanPressed => UiAction::RunCommand(self.mode, self.mode.to_command()),
            UiEvent::CommandDone(ran, outcome) => {
                self.clean_once(ran, outcome);
                UiAction::Nothing
            },
            UiEvent::AutoPressed => {
                if self.looping {
                    if self.stop_loop() {
                        UiAction::JoinWorker
                    } else {
                        UiAction::Nothing
                    }
                } else {
                    match self.start_loop() {
                        Some(auto) => UiAction::SpawnWorker(auto),
                        None => UiAction::Nothing,
                    }
                }
            },
            UiEvent::Closed => {
                if self.on_exit() {
                    UiAction::JoinWorker
                } else {
                    UiAction::Nothing
                }
            },
        }
    }

    /// The chosen interval.
    pub fn interval(&self) -> (opt: IntervalOpt)
        requires
            self@.interval_valid(),
        ensures
            opt == crate::interval::interval_at(self@.interval_idx),
            opt.secs == crate::interval::INTERVAL_SECS@[self.interval_idx as int],
            opt.label == crate::interval::INTERVAL_LABELS@[self.interval_idx as int],
    {
        interval(self.interval_idx)
    }

    /// What the button of the automatic loop says.
    pub fn loop_button_label(&self) -> (label: &'static str)
        ensures
            label@ == if self@.looping {
                "⏹ Dừng Auto"@
            } else {
                "▶ Bật Auto"@
            },
            self.looping ==> label@ == "⏹ Dừng Auto"@,
            !self.looping ==> label@ == "▶ Bật Auto"@,
    {
        if self.looping {
            "⏹ Dừng Auto"
        } else {
            "▶ Bật Auto"
        }
    }

    /// The colour of the status line: green after a run that succeeded, red after
    /// one that failed, that of plain text before any.
    pub fn status_color(&self) -> (color: Option<Rgb>)
        ensures
            color == match self@.last_result_ok {
                Some(true) => Some(Rgb { r: 60, g: 180, b: 75 }),
                Some(false) => Some(Rgb { r: 220, g: 60, b: 60 }),
                None => None,
            },
            self.last_result_ok == Some(true) <==> color == Some(Rgb { r: 60, g: 180, b: 75 }),
            self.last_result_ok == Some(false) <==> color == Some(Rgb { r: 220, g: 60, b: 60 }),
            self.last_result_ok is None <==> color is None,
    {
        match self.last_result_ok {
            Some(true) => Some(Rgb { r: 60, g: 180, b: 75 }),
            Some(false) => Some(Rgb { r: 220, g: 60, b: 60 }),
            None => None,
        }
    }
}

/// Whether every interval that these events choose is on offer.
pub open spec fn all_valid(events: Seq<EventModel>) -> bool {
    forall|i: int| 0 <= i < events.len() ==> (#[trigger] events[i]).valid()
}

/// Whatever happens in a window since it was opened, the chosen interval is on
/// offer and the flag is up exactly while there is a worker.
pub proof fn law_state_stays_well_formed(events: Seq<EventModel>)
    requires
        all_valid(events),
    ensures
        AppModel::opened().after(events).wf(),
    decreases events.len(),
{
    if events.len() > 0 {
        law_state_stays_well_formed(events.drop_last());
        assert(events.last().valid());
    }
}

/// At any time there is one worker if the automatic loop is on and none if it is
/// off: none is started beside another, and each is waited for.
pub proof fn law_at_most_one_worker(events: Seq<EventModel>)
    requires
        all_valid(events),
    ensures
        AppModel::opened().workers(events) == if AppModel::opened().after(events).looping {
            1int
        } else {
            0int
        },
    decreases events.len(),
{
    if events.len() > 0 {
        law_at_most_one_worker(events.drop_last());
        law_state_stays_well_formed(events.drop_last());
    }
}

/// A window that was closed leaves no worker behind.
pub proof fn law_closing_leaves_no_worker(events: Seq<EventModel>)
    requires
        all_valid(events),
    ensures
        AppModel::opened().workers(events.push(EventModel::Closed)) == 0,
{
    let all = events.push(EventModel::Closed);
    assert(all.drop_last() =~= events);
    assert forall|i: int| 0 <= i < all.len() implies (#[trigger] all[i]).valid() by {
        if i < events.len() {
            assert(all[i] == events[i]);
        }
    }
    law_at_most_one_worker(all);
}

/// A worker keeps the mode and the interval it was started with, whatever is
/// chosen while it is at work.
pub proof fn law_worker_keeps_its_plan(app: AppModel, event: EventModel)
    requires
        app.looping,
        event != EventModel::AutoPressed,
        event != EventModel::Closed,
    ensures
        app.next(event).0.looping,
        app.next(event).0.loop_handle == app.loop_handle,
        !(app.next(event).1 is SpawnWorker),
        app.next(event).1 != UiAction::JoinWorker,
{
}

/// Turning the loop on twice is turning it on once.
pub proof fn law_starting_twice_changes_nothing(app: AppModel)
    ensures
        app.loop_started().loop_started() == app.loop_started(),
{
}

/// Turning the loop off undoes turning it on, but for the status line.
pub proof fn law_stopping_undoes_starting(app: AppModel)
    requires
        app.wf(),
        !app.looping,
    ensures
        app.loop_started().loop_stopped() == (AppModel { status: stopped_text(), ..app }),
{
}

/// Pressing the button twice while the loop is off starts a worker and waits
/// for it.
pub proof fn law_pressing_twice_starts_and_joins(app: AppModel)
    requires
        app.wf(),
        !app.looping,
    ensures
        app.next(EventModel::AutoPressed).1 == UiAction::SpawnWorker(app.plan()),
        app.next(EventModel::AutoPressed).0.next(EventModel::AutoPressed) == (
            AppModel { status: stopped_text(), ..app },
            UiAction::JoinWorker,
        ),
{
}

/// Whether the last run that has returned succeeded, if any has.
pub open spec fn last_outcome(events: Seq<EventModel>) -> Option<bool>
    decreases events.len(),
{
    if events.len() == 0 {
        None
    } else {
        match events.last() {
            EventModel::CommandDone(_, outcome) => Some(outcome is Ok),
            _ => last_outcome(events.drop_last()),
        }
    }
}

/// The colour of the status line is decided by the last run at the user's
/// request that has returned, and by nothing else.
pub proof fn law_color_follows_the_last_run(events: Seq<EventModel>)
    ensures
        AppModel::opened().after(events).last_result_ok == last_outcome(events),
    decreases events.len(),
{
    if events.len() > 0 {
        law_color_follows_the_last_run(events.drop_last());
    }
}

/// Pressing the button that cleans at once runs the command of the chosen mode
/// and changes nothing until the command returns. Its outcome is then reported
/// for that same mode: its name if it succeeded, the reason if it failed.
pub proof fn law_cleaning_runs_and_reports_the_chosen_mode(
    app: AppModel,
    outcome: Result<(), Seq<char>>,
)
    ensures
        app.next(EventModel::CleanPressed) == (
            app,
            UiAction::RunCommand(app.mode, app.mode.command()),
        ),
        app.next(EventModel::CommandDone(app.mode, outcome)) == (
            AppModel {
                status: match outcome {
                    Ok(()) => cleaned_text(app.mode),
                    Err(reason) => failed_text(reason),
                },
                last_result_ok: Some(outcome is Ok),
                ..app
            },
            UiAction::Nothing,
        ),
{
}

/// The report on a run names the mode that was run, whatever was chosen or
/// pressed between the press and the outcome.
pub proof fn law_report_names_the_mode_that_ran(
    app: AppModel,
    between: Seq<EventModel>,
    outcome: Result<(), Seq<char>>,
)
    ensures
        app.next(EventModel::CleanPressed).1 matches UiAction::RunCommand(ran, cmd) && cmd
            == ran.command() && app.after(between).next(
            EventModel::CommandDone(ran, outcome),
        ).0.status == match outcome {
            Ok(()) => cleaned_text(app.mode),
            Err(reason) => failed_text(reason),
        },
{
}

/// Turning the loop on starts a worker that runs the command of the mode chosen
/// at that moment, at once and then after each interval chosen at that moment,
/// for as long as the flag stays up.
pub proof fn law_worker_cleans_as_chosen(app: AppModel, flags: Seq<bool>, k: int)
    requires
        app.wf(),
        !app.looping,
        0 <= k < flags.len(),
        forall|i: int| 0 <= i < flags.len() ==> #[trigger] flags[i],
    ensures
        app.next(EventModel::AutoPressed).1 matches UiAction::SpawnWorker(auto) && auto.action(
            flags,
            k,
        ) == if k % (crate::interval::interval_at(app.interval_idx).secs + 1) == 0 {
            crate::worker::LoopAction::Run(app.mode.command())
        } else {
            crate::worker::LoopAction::SleepOneSecond
        },
{
    crate::worker::law_one_run_per_interval(
        app.mode,
        crate::interval::interval_at(app.interval_idx).secs,
        flags,
        k,
    );
}

/// Turning the loop off, or closing the window, ends the worker wherever it
/// stands: it runs nothing and sleeps no more, and the second reading of the
/// flag at the latest ends it, so waiting for it does not last.
pub proof fn law_worker_ends_when_told(
    app: AppModel,
    event: EventModel,
    auto: AutoClean,
    flags: Seq<bool>,
    k: int,
)
    requires
        app.wf(),
        app.looping,
        event == EventModel::AutoPressed || event == EventModel::Closed,
        0 <= k < flags.len(),
        forall|i: int|
            0 <= i < flags.len() ==> #[trigger] flags[i] == app.next(event).0.looping,
    ensures
        app.next(event).1 == UiAction::JoinWorker,
        auto.action(flags, k) == crate::worker::LoopAction::CheckAgain || auto.action(flags, k)
            == crate::worker::LoopAction::Exit,
        k >= 1 ==> auto.action(flags, k) == crate::worker::LoopAction::Exit,
{
    assert forall|i: int| 0 <= i < flags.len() implies !#[trigger] flags[i] by {
        assert(flags[i] == app.next(event).0.looping);
    }
    crate::worker::law_stops_promptly(auto, flags, k);
}

/// What the contracts speak of is what the window holds, field by field.
pub proof fn law_model_is_the_window(app: CleanRamApp)
    ensures
        app@.mode == app.mode,
        app@.interval_idx == app.interval_idx,
        app@.status == app.status@,
        app@.looping == app.looping,
        app@.loop_handle == app.loop_handle,
        app@.last_result_ok == app.last_result_ok,
{
}

/// What the contracts speak of is what happened in the window.
pub proof fn law_model_is_the_event(event: UiEvent)
    ensures
        event matches UiEvent::ModeChosen(mode) ==> event@ == EventModel::ModeChosen(mode),
        event matches UiEvent::IntervalChosen(idx) ==> event@ == EventModel::IntervalChosen(
            idx as int,
        ),
        event is CleanPressed ==> event@ == EventModel::CleanPressed,
        event matches UiEvent::CommandDone(ran, Ok(())) ==> event@ == EventModel::CommandDone(
            ran,
            Ok(()),
        ),
        event matches UiEvent::CommandDone(ran, Err(e)) ==> event@ == EventModel::CommandDone(
            ran,
            Err(e@),
        ),
        event is AutoPressed ==> event@ == EventModel::AutoPressed,
        event is Closed ==> event@ == EventModel::Closed,
{
}

/// Choosing a mode makes it the chosen one and leaves everything else as it was,
/// the interval above all.
pub proof fn law_choosing_a_mode_changes_the_mode_only(app: AppModel, mode: Mode)
    ensures
        app.next(EventModel::ModeChosen(mode)).0.mode == mode,
        app.next(EventModel::ModeChosen(mode)).0.interval_idx == app.interval_idx,
        app.next(EventModel::ModeChosen(mode)).0.status == app.status,
        app.next(EventModel::ModeChosen(mode)).0.looping == app.looping,
        app.next(EventModel::ModeChosen(mode)).0.loop_handle == app.loop_handle,
        app.next(EventModel::ModeChosen(mode)).0.last_result_ok == app.last_result_ok,
        app.next(EventModel::ModeChosen(mode)).1 == UiAction::Nothing,
{
}

/// Choosing an interval makes it the chosen one and leaves everything else as it
/// was, the mode above all.
pub proof fn law_choosing_an_interval_changes_the_interval_only(app: AppModel, idx: int)
    ensures
        app.next(EventModel::IntervalChosen(idx)).0.interval_idx == idx,
        app.next(EventModel::IntervalChosen(idx)).0.mode == app.mode,
        app.next(EventModel::IntervalChosen(idx)).0.status == app.status,
        app.next(EventModel::IntervalChosen(idx)).0.looping == app.looping,
        app.next(EventModel::IntervalChosen(idx)).0.loop_handle == app.loop_handle,
        app.next(EventModel::IntervalChosen(idx)).0.last_result_ok == app.last_result_ok,
        app.next(EventModel::IntervalChosen(idx)).1 == UiAction::Nothing,
{
}

/// The two choices do not depend on the order in which they are made.
pub proof fn law_choices_commute(app: AppModel, mode: Mode, idx: int)
    ensures
        app.next(EventModel::ModeChosen(mode)).0.next(EventModel::IntervalChosen(idx)).0
            == app.next(EventModel::IntervalChosen(idx)).0.next(EventModel::ModeChosen(mode)).0,
{
}

/// Whatever happens but a choice of mode, the mode stays; whatever happens but a
/// choice of interval, the interval stays; whatever happens but the return of a
/// command, the last result stays.
pub proof fn law_only_a_choice_changes_a_choice(app: AppModel, event: EventModel)
    ensures
        !(event is ModeChosen) ==> app.next(event).0.mode == app.mode,
        !(event is IntervalChosen) ==> app.next(event).0.interval_idx == app.interval_idx,
        !(event is CommandDone) ==> app.next(event).0.last_result_ok == app.last_result_ok,
{
}

/// Only turning the loop on or off and the return of a command change the status
/// line; only turning the loop on or off and closing the window change the flag
/// and the worker.
pub proof fn law_status_and_worker_change_for_cause(app: AppModel, event: EventModel)
    ensures
        event != EventModel::AutoPressed && !(event is CommandDone) ==> app.next(event).0.status
            == app.status,
        event != EventModel::AutoPressed && event != EventModel::Closed ==> {
            &&& app.next(event).0.looping == app.looping
            &&& app.next(event).0.loop_handle == app.loop_handle
        },
        app.next(EventModel::AutoPressed).0.looping == !app.looping,
        !app.next(EventModel::Closed).0.looping,
        app.next(EventModel::Closed).0.loop_handle is None,
{
}

/// Each thing to be done has its one cause: a command is run when cleaning is
/// asked for, a worker is started when the loop is turned on, and a worker is
/// waited for when there is one and the loop is turned off or the window closes.
pub proof fn law_actions_have_their_cause(app: AppModel, event: EventModel)
    requires
        app.wf(),
    ensures
        app.next(event).1 is RunCommand <==> event == EventModel::CleanPressed,
        app.next(event).1 is SpawnWorker <==> event == EventModel::AutoPressed && !app.looping,
        app.next(event).1 == UiAction::JoinWorker <==> app.looping && (event
            == EventModel::AutoPressed || event == EventModel::Closed),
{
}

/// The worker that is started gets the mode that is chosen and the length of the
/// interval that is chosen, stands at the top of its loop, and is the one that
/// the window remembers; the status line names that interval and that mode.
pub proof fn law_worker_gets_the_choices(app: AppModel)
    requires
        app.interval_valid(),
        !app.looping,
    ensures
        app.next(EventModel::AutoPressed).1 matches UiAction::SpawnWorker(auto) && {
            &&& auto.mode == app.mode
            &&& auto.secs == crate::interval::INTERVAL_SECS@[app.interval_idx]
            &&& auto.phase == crate::worker::LoopPhase::Checking
            &&& app.next(EventModel::AutoPressed).0.loop_handle == Some(auto)
        },
        app.next(EventModel::AutoPressed).0.status == "▶ Auto-clean đang chạy mỗi "@
            + crate::interval::INTERVAL_LABELS@[app.interval_idx]@ + " ("@ + app.mode.name()
            + ")"@,
        app.next(EventModel::AutoPressed).0.looping,
{
}

/// Turning the loop off says so, and the window forgets the worker.
pub proof fn law_turning_off_says_so(app: AppModel)
    requires
        app.looping,
    ensures
        app.next(EventModel::AutoPressed).0.status == "⏹ Auto-clean đã dừng."@,
        !app.next(EventModel::AutoPressed).0.looping,
        app.next(EventModel::AutoPressed).0.loop_handle is None,
{
}

/// The report on a run holds the name of the mode if it succeeded and the whole
/// reason if it failed, and nobody can take the one for the other.
pub proof fn law_reports_say_what_came_of_a_run(
    app: AppModel,
    ran: Mode,
    reason: Seq<char>,
)
    ensures
        app.next(EventModel::CommandDone(ran, Ok(()))).0.status == "✅ "@ + ran.name()
            + " thành công."@,
        app.next(EventModel::CommandDone(ran, Ok(()))).0.last_result_ok == Some(true),
        app.next(EventModel::CommandDone(ran, Err(reason))).0.status == "❌ Lỗi: "@ + reason,
        app.next(EventModel::CommandDone(ran, Err(reason))).0.status.skip(7) == reason,
        app.next(EventModel::CommandDone(ran, Err(reason))).0.last_result_ok == Some(false),
        app.next(EventModel::CommandDone(ran, Ok(()))).0.status != app.next(
            EventModel::CommandDone(ran, Err(reason)),
        ).0.status,
{
    reveal_strlit("✅ ");
    reveal_strlit("❌ Lỗi: ");
    let good = app.next(EventModel::CommandDone(ran, Ok(()))).0.status;
    let bad = app.next(EventModel::CommandDone(ran, Err(reason))).0.status;
    assert(bad.skip(7) =~= reason);
    assert(good[0] == '✅');
    assert(bad[0] == '❌');
}

/// Over all that happened since the window was opened, the mode is the one that
/// was chosen last, or the first one if none was.
pub proof fn law_mode_is_the_last_chosen(events: Seq<EventModel>, k: int, mode: Mode)
    ensures
        0 <= k < events.len() && events[k] == EventModel::ModeChosen(mode) && (forall|i: int|
            k < i < events.len() ==> !(#[trigger] events[i] is ModeChosen))
            ==> AppModel::opened().after(events).mode == mode,
        (forall|i: int| 0 <= i < events.len() ==> !(#[trigger] events[i] is ModeChosen))
            ==> AppModel::opened().after(events).mode == Mode::EmptyWorkingSets,
    decreases events.len(),
{
    if events.len() > 0 {
        let rest = events.drop_last();
        law_mode_is_the_last_chosen(rest, k, mode);
        assert(forall|i: int| 0 <= i < rest.len() ==> #[trigger] rest[i] == events[i]);
        assert(events.last() == events[events.len() - 1]);
    }
}

/// Over all that happened since the window was opened, the interval is the one
/// that was chosen last, or the first one if none was.
pub proof fn law_interval_is_the_last_chosen(events: Seq<EventModel>, k: int, idx: int)
    ensures
        0 <= k < events.len() && events[k] == EventModel::IntervalChosen(idx) && (forall|i: int|
            k < i < events.len() ==> !(#[trigger] events[i] is IntervalChosen))
            ==> AppModel::opened().after(events).interval_idx == idx,
        (forall|i: int| 0 <= i < events.len() ==> !(#[trigger] events[i] is IntervalChosen))
            ==> AppModel::opened().after(events).interval_idx == 0,
    decreases events.len(),
{
    if events.len() > 0 {
        let rest = events.drop_last();
        law_interval_is_the_last_chosen(rest, k, idx);
        assert(forall|i: int| 0 <= i < rest.len() ==> #[trigger] rest[i] == events[i]);
        assert(events.last() == events[events.len() - 1]);
    }
}

/// Over all that happened since the window was opened, the last result is that of
/// the command that returned last, or none if none has.
pub proof fn law_result_is_that_of_the_last_return(
    events: Seq<EventModel>,
    k: int,
    ran: Mode,
    outcome: Result<(), Seq<char>>,
)
    ensures
        0 <= k < events.len() && events[k] == EventModel::CommandDone(ran, outcome) && (forall|
            i: int,
        |
            k < i < events.len() ==> !(#[trigger] events[i] is CommandDone))
            ==> AppModel::opened().after(events).last_result_ok == Some(outcome is Ok),
        (forall|i: int| 0 <= i < events.len() ==> !(#[trigger] events[i] is CommandDone))
            ==> AppModel::opened().after(events).last_result_ok is None,
    decreases events.len(),
{
    if events.len() > 0 {
        let rest = events.drop_last();
        law_result_is_that_of_the_last_return(rest, k, ran, outcome);
        assert(forall|i: int| 0 <= i < rest.len() ==> #[trigger] rest[i] == events[i]);
        assert(events.last() == events[events.len() - 1]);
    }
}

/// Cleaning at once runs the command of the mode that was chosen last.
pub proof fn law_cleaning_follows_the_last_choice(events: Seq<EventModel>, k: int, mode: Mode)
    requires
        0 <= k < events.len(),
        events[k] == EventModel::ModeChosen(mode),
        forall|i: int| k < i < events.len() ==> !(#[trigger] events[i] is ModeChosen),
    ensures
        AppModel::opened().after(events).next(EventModel::CleanPressed).1 == UiAction::RunCommand(
            mode,
            mode.command(),
        ),
{
    law_mode_is_the_last_chosen(events, k, mode);
}

/// The loop, when it is turned on, runs the command of the mode that was chosen
/// last, at once and then each time after the seconds of the interval that was
/// chosen last, in whichever order the two were chosen and whatever else
/// happened.
pub proof fn law_loop_follows_the_last_choices(
    events: Seq<EventModel>,
    km: int,
    mode: Mode,
    ki: int,
    idx: int,
    flags: Seq<bool>,
    k: int,
)
    requires
        all_valid(events),
        0 <= km < events.len(),
        events[km] == EventModel::ModeChosen(mode),
        forall|i: int| km < i < events.len() ==> !(#[trigger] events[i] is ModeChosen),
        0 <= ki < events.len(),
        events[ki] == EventModel::IntervalChosen(idx),
        forall|i: int| ki < i < events.len() ==> !(#[trigger] events[i] is IntervalChosen),
        !AppModel::opened().after(events).looping,
        0 <= k < flags.len(),
        forall|i: int| 0 <= i < flags.len() ==> #[trigger] flags[i],
    ensures
        0 <= idx < 8,
        AppModel::opened().after(events).next(
            EventModel::AutoPressed,
        ).1 matches UiAction::SpawnWorker(auto) && auto.action(flags, k) == if k % (
        crate::interval::INTERVAL_SECS@[idx] + 1) == 0 {
            crate::worker::LoopAction::Run(mode.command())
        } else {
            crate::worker::LoopAction::SleepOneSecond
        },
{
    assert(events[ki].valid());
    law_state_stays_well_formed(events);
    law_mode_is_the_last_chosen(events, km, mode);
    law_interval_is_the_last_chosen(events, ki, idx);
    law_worker_cleans_as_chosen(AppModel::opened().after(events), flags, k);
}

} // verus!
