use windows_app::control::ID_BTN_RUN;
use windows_app::message::Message;
use windows_app::worker::{
    failure_message, progress_message, result_message, script, Phase, TriggerWorker, Worker,
    WorkerAction, WorkUnit, RUN_STEPS, STEP_DELAY_MS,
};

#[test]
fn constants_of_a_run() {
    assert_eq!(RUN_STEPS, 30);
    assert_eq!(STEP_DELAY_MS, 400);
}

#[test]
fn messages_of_a_step() {
    assert_eq!(
        progress_message(7, 30),
        Message::ProgressUpdate { current: 7, total: 30, label: String::from("進度7/30") }
    );
    assert_eq!(
        result_message(7),
        Message::ResultAppend { line: String::from("append line 7 to results") }
    );
    assert_eq!(
        failure_message(12),
        Message::ResultAppend { line: String::from("run failed at step 12") }
    );
}

#[test]
fn a_run_of_thirty_steps_sends_sixty_two_messages() {
    let posts = script(RUN_STEPS);
    assert_eq!(posts.len(), 62);
    assert_eq!(posts[0], Message::SetControlEnabled { id: ID_BTN_RUN, enabled: false });
    assert_eq!(posts[61], Message::SetControlEnabled { id: ID_BTN_RUN, enabled: true });
    for k in 1..=30usize {
        assert_eq!(posts[2 * k - 1], progress_message(k, 30));
        assert_eq!(posts[2 * k], result_message(k));
    }
}

#[test]
fn progress_counts_from_one_to_thirty() {
    let posts = script(RUN_STEPS);
    let mut seen: Vec<(usize, usize)> = Vec::new();
    for m in &posts {
        if let Message::ProgressUpdate { current, total, .. } = m {
            seen.push((*current, *total));
        }
    }
    let expected: Vec<(usize, usize)> = (1..=30usize).map(|k| (k, 30)).collect();
    assert_eq!(seen, expected);
}

#[test]
fn the_button_is_enabled_only_by_the_last_message() {
    let posts = script(RUN_STEPS);
    for (i, m) in posts.iter().enumerate() {
        if let Message::SetControlEnabled { id, enabled } = m {
            assert_eq!(*id, ID_BTN_RUN);
            assert_eq!(*enabled, i == posts.len() - 1);
            assert!(i == 0 || i == posts.len() - 1);
        }
    }
}

#[test]
fn a_worker_waits_before_each_step() {
    let mut w = Worker::new(2);
    assert_eq!(w, Worker { total: 2, step: 0, phase: Phase::Start });
    assert!(!w.is_finished());
    assert_eq!(
        w.next(),
        WorkerAction::Post(Message::SetControlEnabled { id: ID_BTN_RUN, enabled: false })
    );
    assert_eq!(w.next(), WorkerAction::Sleep(400));
    assert_eq!(w.next(), WorkerAction::Post(progress_message(1, 2)));
    assert_eq!(w.next(), WorkerAction::Post(result_message(1)));
    assert_eq!(w.next(), WorkerAction::Sleep(400));
    assert_eq!(w.next(), WorkerAction::Post(progress_message(2, 2)));
    assert_eq!(w.next(), WorkerAction::Post(result_message(2)));
    assert_eq!(
        w.next(),
        WorkerAction::Post(Message::SetControlEnabled { id: ID_BTN_RUN, enabled: true })
    );
    assert!(w.is_finished());
    assert_eq!(w.next(), WorkerAction::Finished);
    assert_eq!(w.next(), WorkerAction::Finished);
    assert!(w.is_finished());
}

#[test]
fn a_run_without_steps_disables_and_enables() {
    let posts = script(0);
    assert_eq!(
        posts,
        vec![
            Message::SetControlEnabled { id: ID_BTN_RUN, enabled: false },
            Message::SetControlEnabled { id: ID_BTN_RUN, enabled: true },
        ]
    );
}

#[test]
fn run_to_end_gives_the_rest() {
    let mut w = Worker::new(3);
    let _ = w.next();
    let _ = w.next();
    let _ = w.next();
    let rest = w.run_to_end();
    assert!(w.is_finished());
    assert_eq!(rest.len(), 6);
    assert_eq!(rest[0], result_message(1));
    assert_eq!(rest[5], Message::SetControlEnabled { id: ID_BTN_RUN, enabled: true });
}

#[test]
fn a_failed_run_tells_of_it_and_enables_the_button() {
    let mut w = Worker::new(30);
    for _ in 0..8 {
        let _ = w.next();
    }
    assert_eq!(w.step, 3);
    w.fail();
    assert_eq!(w.phase, Phase::Failing);
    assert_eq!(w.next(), WorkerAction::Post(failure_message(3)));
    assert_eq!(
        w.next(),
        WorkerAction::Post(Message::SetControlEnabled { id: ID_BTN_RUN, enabled: true })
    );
    assert_eq!(w.next(), WorkerAction::Finished);
}

#[test]
fn failing_a_run_that_is_over_changes_nothing() {
    let mut w = Worker::new(1);
    let _ = w.run_to_end();
    let before = w;
    w.fail();
    assert_eq!(w, before);
    let mut f = Worker::new(1);
    f.fail();
    let rest = f.run_to_end();
    assert_eq!(
        rest,
        vec![
            failure_message(0),
            Message::SetControlEnabled { id: ID_BTN_RUN, enabled: true },
        ]
    );
}

#[test]
fn a_trigger_does_one_unit() {
    let mut w = TriggerWorker::new();
    assert_eq!(w.counter, 0);
    assert_eq!(w.on_trigger(), Some(WorkUnit { delay_ms: 400, message: result_message(1) }));
    assert_eq!(w.on_trigger(), Some(WorkUnit { delay_ms: 400, message: result_message(2) }));
    assert_eq!(w.counter, 2);
    let mut last = TriggerWorker { counter: usize::MAX };
    assert_eq!(last.on_trigger(), None);
    assert_eq!(last.counter, usize::MAX);
}
