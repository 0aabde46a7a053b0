use clean_ram_vps::cleaner::{CleanRamApp, Rgb, UiAction, UiEvent};
use clean_ram_vps::mode::Mode;
use clean_ram_vps::winmem::{run_command, MemoryListCommand};
use clean_ram_vps::worker::{AutoClean, LoopAction, LoopPhase};

#[test]
fn window_just_opened() {
    let app = CleanRamApp::default();
    assert_eq!(app.mode, Mode::EmptyWorkingSets);
    assert_eq!(app.interval_idx, 0);
    assert_eq!(app.interval().secs, 5);
    assert_eq!(app.status, "Sẵn sàng.");
    assert!(!app.looping);
    assert_eq!(app.loop_handle, None);
    assert_eq!(app.last_result_ok, None);
    assert_eq!(app.status_color(), None);
    assert_eq!(app.loop_button_label(), "▶ Bật Auto");
}

#[test]
fn cleaning_that_succeeds() {
    let mut app = CleanRamApp::default();
    app.update(UiEvent::ModeChosen(Mode::PurgeStandbyList));
    assert_eq!(
        app.update(UiEvent::CleanPressed),
        UiAction::RunCommand(Mode::PurgeStandbyList, MemoryListCommand::PurgeStandbyList)
    );
    assert_eq!(app.status, "Sẵn sàng.");
    assert_eq!(
        app.update(UiEvent::CommandDone(Mode::PurgeStandbyList, Ok(()))),
        UiAction::Nothing
    );
    assert_eq!(app.status, "✅ Purge Standby List thành công.");
    assert_eq!(app.last_result_ok, Some(true));
    assert_eq!(app.status_color(), Some(Rgb { r: 60, g: 180, b: 75 }));
}

#[test]
fn cleaning_that_fails() {
    let mut app = CleanRamApp::default();
    app.clean_once(app.mode, run_command(app.mode.to_command()));
    assert_eq!(app.status, "❌ Lỗi: Chỉ hỗ trợ Windows.");
    assert_eq!(app.last_result_ok, Some(false));
    assert_eq!(app.status_color(), Some(Rgb { r: 220, g: 60, b: 60 }));
}

#[test]
fn loop_turned_on_and_off() {
    let mut app = CleanRamApp::default();
    app.update(UiEvent::ModeChosen(Mode::FlushModifiedList));
    app.update(UiEvent::IntervalChosen(3));
    let plan = AutoClean::new(Mode::FlushModifiedList, 120);
    assert_eq!(
        app.update(UiEvent::AutoPressed),
        UiAction::SpawnWorker(plan)
    );
    assert!(app.looping);
    assert_eq!(app.loop_handle, Some(plan));
    assert_eq!(
        app.status,
        "▶ Auto-clean đang chạy mỗi 2 phút (Flush Modified List)"
    );
    assert_eq!(app.loop_button_label(), "⏹ Dừng Auto");
    assert_eq!(app.update(UiEvent::AutoPressed), UiAction::JoinWorker);
    assert!(!app.looping);
    assert_eq!(app.loop_handle, None);
    assert_eq!(app.status, "⏹ Auto-clean đã dừng.");
    assert_eq!(app.mode, Mode::FlushModifiedList);
    assert_eq!(app.interval_idx, 3);
    assert_eq!(app.last_result_ok, None);
}

#[test]
fn starting_twice_changes_nothing() {
    let mut app = CleanRamApp::default();
    assert_eq!(
        app.start_loop(),
        Some(AutoClean::new(Mode::EmptyWorkingSets, 5))
    );
    app.clean_once(app.mode, Ok(()));
    assert_eq!(app.start_loop(), None);
    assert_eq!(app.status, "✅ Empty Working Sets thành công.");
    assert!(app.looping);
}

#[test]
fn stopping_without_a_worker() {
    let mut app = CleanRamApp::default();
    assert!(!app.stop_loop());
    assert_eq!(app.status, "⏹ Auto-clean đã dừng.");
    assert!(!app.looping);
}

#[test]
fn closing_keeps_the_status() {
    let mut app = CleanRamApp::default();
    assert_eq!(app.update(UiEvent::Closed), UiAction::Nothing);
    assert_eq!(app.status, "Sẵn sàng.");
    app.update(UiEvent::AutoPressed);
    assert_eq!(app.update(UiEvent::Closed), UiAction::JoinWorker);
    assert_eq!(
        app.status,
        "▶ Auto-clean đang chạy mỗi 5 giây (Empty Working Sets)"
    );
    assert!(!app.looping);
    assert!(!app.on_exit());
}

#[test]
fn choices_do_not_reach_a_worker_at_work() {
    let mut app = CleanRamApp::default();
    app.update(UiEvent::AutoPressed);
    app.update(UiEvent::ModeChosen(Mode::PurgeStandbyList));
    app.update(UiEvent::IntervalChosen(7));
    assert_eq!(
        app.loop_handle,
        Some(AutoClean::new(Mode::EmptyWorkingSets, 5))
    );
    app.update(UiEvent::AutoPressed);
    assert_eq!(
        app.update(UiEvent::AutoPressed),
        UiAction::SpawnWorker(AutoClean::new(Mode::PurgeStandbyList, 1800))
    );
}

#[test]
fn one_worker_at_a_time() {
    let mut app = CleanRamApp::default();
    let mut workers = 0;
    for round in 0..40u32 {
        let event = match round % 7 {
            0 | 3 | 4 => UiEvent::AutoPressed,
            1 => UiEvent::IntervalChosen((round % 8) as usize),
            2 => UiEvent::CommandDone(app.mode, Err("x".to_string())),
            5 => UiEvent::Closed,
            _ => UiEvent::CleanPressed,
        };
        match app.update(event) {
            UiAction::SpawnWorker(_) => workers += 1,
            UiAction::JoinWorker => workers -= 1,
            _ => (),
        }
        assert_eq!(workers, if app.looping { 1 } else { 0 });
        assert_eq!(app.looping, app.loop_handle.is_some());
    }
}

#[test]
fn color_follows_the_last_run() {
    let mut app = CleanRamApp::default();
    app.update(UiEvent::CommandDone(app.mode, Ok(())));
    app.update(UiEvent::AutoPressed);
    assert_eq!(app.last_result_ok, Some(true));
    app.update(UiEvent::CommandDone(app.mode, Err("E".to_string())));
    app.update(UiEvent::AutoPressed);
    assert_eq!(app.status, "⏹ Auto-clean đã dừng.");
    assert_eq!(app.last_result_ok, Some(false));
}

#[test]
fn loop_runs_once_per_interval() {
    let mut auto = AutoClean::new(Mode::PurgeLowPriorityStandbyList, 5);
    for k in 0..60 {
        let expected = if k % 6 == 0 {
            LoopAction::Run(MemoryListCommand::PurgeLowPriorityStandbyList)
        } else {
            LoopAction::SleepOneSecond
        };
        assert_eq!(auto.step(true), expected);
    }
}

#[test]
fn loop_without_a_wait_runs_every_time() {
    let mut auto = AutoClean::new(Mode::EmptyWorkingSets, 0);
    for _ in 0..5 {
        assert_eq!(
            auto.step(true),
            LoopAction::Run(MemoryListCommand::EmptyWorkingSets)
        );
    }
    assert_eq!(auto.step(false), LoopAction::Exit);
}

#[test]
fn loop_stops_promptly() {
    let mut auto = AutoClean::new(Mode::EmptyWorkingSets, 1800);
    auto.step(true);
    auto.step(true);
    assert_eq!(auto.phase, LoopPhase::Waiting(1799));
    assert_eq!(auto.step(false), LoopAction::CheckAgain);
    assert_eq!(auto.step(false), LoopAction::Exit);
    assert_eq!(auto.phase, LoopPhase::Stopped);
    assert_eq!(auto.step(true), LoopAction::Exit);
}

#[test]
fn loop_stopped_before_the_first_run() {
    let mut auto = AutoClean::new(Mode::EmptyWorkingSets, 5);
    assert_eq!(auto.step(false), LoopAction::Exit);
}

#[test]
fn loop_keeps_what_it_was_started_with() {
    let mut auto = AutoClean::new(Mode::PurgeStandbyList, 30);
    for k in 0..200 {
        auto.step(k % 5 != 3);
        assert_eq!(auto.mode, Mode::PurgeStandbyList);
        assert_eq!(auto.secs, 30);
    }
}

#[test]
fn loop_goes_on_if_the_flag_comes_back_up() {
    let mut auto = AutoClean::new(Mode::EmptyWorkingSets, 5);
    auto.step(true);
    assert_eq!(auto.step(false), LoopAction::CheckAgain);
    assert_eq!(
        auto.step(true),
        LoopAction::Run(MemoryListCommand::EmptyWorkingSets)
    );
}

#[test]
fn worker_cleans_as_chosen_and_ends_when_told() {
    for last in [UiEvent::AutoPressed, UiEvent::Closed] {
        let mut app = CleanRamApp::default();
        app.update(UiEvent::ModeChosen(Mode::PurgeStandbyList));
        app.update(UiEvent::IntervalChosen(1));
        let mut auto = match app.update(UiEvent::AutoPressed) {
            UiAction::SpawnWorker(auto) => auto,
            other => panic!("{:?}", other),
        };
        for k in 0..100 {
            let expected = if k % 31 == 0 {
                LoopAction::Run(MemoryListCommand::PurgeStandbyList)
            } else {
                LoopAction::SleepOneSecond
            };
            assert_eq!(auto.step(app.looping), expected);
        }
        assert_eq!(app.update(last), UiAction::JoinWorker);
        assert_eq!(auto.step(app.looping), LoopAction::CheckAgain);
        assert_eq!(auto.step(app.looping), LoopAction::Exit);
    }
}

#[test]
fn report_names_the_mode_that_ran() {
    let mut app = CleanRamApp::default();
    app.update(UiEvent::ModeChosen(Mode::FlushModifiedList));
    let ran = match app.update(UiEvent::CleanPressed) {
        UiAction::RunCommand(ran, cmd) => {
            assert_eq!(cmd, MemoryListCommand::FlushModifiedList);
            ran
        }
        other => panic!("{:?}", other),
    };
    app.update(UiEvent::ModeChosen(Mode::PurgeStandbyList));
    app.update(UiEvent::CommandDone(ran, Ok(())));
    assert_eq!(app.status, "✅ Flush Modified List thành công.");
    assert_eq!(app.mode, Mode::PurgeStandbyList);
}

#[test]
fn starting_while_on_reads_no_interval() {
    let mut app = CleanRamApp::default();
    app.start_loop();
    app.interval_idx = 99;
    assert_eq!(app.start_loop(), None);
    assert_eq!(
        app.status,
        "▶ Auto-clean đang chạy mỗi 5 giây (Empty Working Sets)"
    );
}
