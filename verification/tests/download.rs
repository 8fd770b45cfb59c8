use booru_dl::context::{DownloadContext, DownloadMessage, HandleEffect};
use booru_dl::post::Post;
use booru_dl::task::{sidecar_wanted, TaskAction, TaskEvent, TaskPhase, TaskState};

fn post(id: u64, url: Option<&str>, tags: &[&str]) -> Post {
    Post {
        id,
        resource_url: url.map(|u| u.to_string()),
        tags: tags.iter().map(|t| t.to_string()).collect(),
    }
}

#[test]
fn empty_batch_completes_at_once() {
    let mut ctx = DownloadContext::Complete;
    ctx.start(0, 1);
    assert_eq!(ctx, DownloadContext::Complete);
}

#[test]
fn batch_counts_down_and_completes() {
    let mut ctx = DownloadContext::Complete;
    ctx.start(3, 9);
    assert_eq!(
        ctx,
        DownloadContext::Downloading { total: 3, downloaded: 0, stamp: 9 }
    );
    ctx.on_task_result(true);
    assert_eq!(
        ctx,
        DownloadContext::Downloading { total: 3, downloaded: 1, stamp: 9 }
    );
    ctx.on_task_result(false);
    assert_eq!(
        ctx,
        DownloadContext::Downloading { total: 2, downloaded: 1, stamp: 9 }
    );
    ctx.on_task_result(true);
    assert_eq!(ctx, DownloadContext::Complete);
}

#[test]
fn late_outcome_is_a_no_op() {
    let mut ctx = DownloadContext::Complete;
    ctx.on_task_result(true);
    assert_eq!(ctx, DownloadContext::Complete);
    ctx.on_task_result(false);
    assert_eq!(ctx, DownloadContext::Complete);
}

#[test]
fn cancel_twice_second_is_a_no_op() {
    let mut ctx = DownloadContext::Complete;
    ctx.start(4, 10);
    let first = ctx.cancel(11);
    assert_eq!(first, Some(11));
    assert_eq!(ctx, DownloadContext::Complete);
    let second = ctx.cancel(12);
    assert_eq!(second, None);
    assert_eq!(ctx, DownloadContext::Complete);
}

#[test]
fn cancelled_batch_writes_nothing() {
    // A batch of 5 is started with stamp 1 and cancelled immediately: the
    // state is Complete, and every task that still had a checkpoint ahead
    // of it observes the new stamp, stops without a write, and reports
    // "not downloaded".
    let mut ctx = DownloadContext::Complete;
    ctx.start(5, 1);
    assert_eq!(ctx.cancel(2), Some(2));
    assert_eq!(ctx, DownloadContext::Complete);

    let mut writes = 0;
    let mut sidecars = 0;
    for _ in 0..5 {
        let mut task = TaskState::begin(true, false, 1);
        loop {
            match task.next_action() {
                TaskAction::SleepThenReadStamp | TaskAction::ReadStamp => {
                    task = task.step(TaskEvent::StampRead(2));
                }
                TaskAction::Fetch => {
                    task = task.step(TaskEvent::FetchSucceeded);
                }
                TaskAction::TransformAndWrite => {
                    writes += 1;
                    task = task.step(TaskEvent::FileWritten);
                }
                TaskAction::Report { downloaded, cancelled } => {
                    assert!(!downloaded);
                    assert!(cancelled);
                    // A cancelled task writes no sidecar either, even where
                    // one is switched on and absent.
                    if sidecar_wanted(true, true, false, cancelled) {
                        sidecars += 1;
                    }
                    ctx.on_task_result(downloaded);
                    break;
                }
            }
        }
    }
    assert_eq!(writes, 0);
    assert_eq!(sidecars, 0);
    assert_eq!(ctx, DownloadContext::Complete);
}

#[test]
fn failing_fetch_is_attempted_nine_times() {
    let mut task = TaskState::begin(true, false, 7);
    let mut fetches = 0;
    for _ in 0..9 {
        assert_eq!(task.next_action(), TaskAction::SleepThenReadStamp);
        task = task.step(TaskEvent::StampRead(7));
        assert_eq!(task.next_action(), TaskAction::Fetch);
        task = task.step(TaskEvent::FetchFailed);
        fetches += 1;
    }
    assert_eq!(fetches, 9);
    assert_eq!(
        task.phase,
        TaskPhase::Done { downloaded: false, cancelled: false }
    );
    // A finished task ignores further events.
    let after = task.step(TaskEvent::StampRead(7));
    assert_eq!(after, task);
}

#[test]
fn existing_file_skips_the_fetch_but_not_the_sidecar() {
    let task = TaskState::begin(true, true, 3);
    assert_eq!(
        task.next_action(),
        TaskAction::Report { downloaded: false, cancelled: false }
    );
    // The sidecar is still attempted when it is absent, and only then.
    assert!(sidecar_wanted(true, true, false, false));
    assert!(!sidecar_wanted(true, true, true, false));
    assert!(!sidecar_wanted(false, true, false, false));
}

#[test]
fn missing_url_skips_everything() {
    let task = TaskState::begin(false, false, 3);
    assert_eq!(
        task.next_action(),
        TaskAction::Report { downloaded: false, cancelled: false }
    );
    // A post without a URL never reaches the sidecar step.
    assert!(!sidecar_wanted(true, false, false, false));
}

#[test]
fn successful_task_writes_after_both_checkpoints() {
    let mut task = TaskState::begin(true, false, 4);
    task = task.step(TaskEvent::StampRead(4));
    assert_eq!(task.next_action(), TaskAction::Fetch);
    task = task.step(TaskEvent::FetchSucceeded);
    assert_eq!(task.next_action(), TaskAction::ReadStamp);
    task = task.step(TaskEvent::StampRead(4));
    assert_eq!(task.next_action(), TaskAction::TransformAndWrite);
    task = task.step(TaskEvent::FileWritten);
    assert_eq!(
        task.next_action(),
        TaskAction::Report { downloaded: true, cancelled: false }
    );
}

#[test]
fn cancellation_between_fetch_and_write_blocks_the_write() {
    let mut task = TaskState::begin(true, false, 4);
    task = task.step(TaskEvent::StampRead(4));
    task = task.step(TaskEvent::FetchSucceeded);
    // The batch is superseded between the fetch and the write.
    task = task.step(TaskEvent::StampRead(5));
    assert_eq!(
        task.phase,
        TaskPhase::Done { downloaded: false, cancelled: true }
    );
    // No image was written, and no sidecar follows either.
    assert!(!sidecar_wanted(true, true, false, true));
}

#[test]
fn handle_dispatches_all_three_messages() {
    let mut ctx = DownloadContext::Complete;
    let posts = vec![
        post(1, Some("https://example.org/a.png"), &["tag"]),
        post(2, None, &[]),
    ];
    let effect = DownloadMessage::DownloadRequested(posts).handle(&mut ctx, 40);
    match effect {
        HandleEffect::Launch { posts, stamp } => {
            assert_eq!(posts.len(), 2);
            assert_eq!(stamp, 40);
        }
        _ => panic!("expected a launch effect"),
    }
    assert_eq!(
        ctx,
        DownloadContext::Downloading { total: 2, downloaded: 0, stamp: 40 }
    );

    let effect = DownloadMessage::ImageDownloaded(true).handle(&mut ctx, 41);
    assert!(matches!(effect, HandleEffect::NoEffect));
    assert_eq!(
        ctx,
        DownloadContext::Downloading { total: 2, downloaded: 1, stamp: 40 }
    );

    let effect = DownloadMessage::DownloadCanceled.handle(&mut ctx, 42);
    assert!(matches!(effect, HandleEffect::InvalidateToken { stamp: 42 }));
    assert_eq!(ctx, DownloadContext::Complete);

    let effect = DownloadMessage::DownloadCanceled.handle(&mut ctx, 43);
    assert!(matches!(effect, HandleEffect::NoEffect));
}

#[test]
fn three_post_scenario_ends_complete_with_one_write() {
    // Post A's file already exists, post B fails permanently, post C
    // succeeds on its third attempt.
    let stamp = 5;
    let mut ctx = DownloadContext::Complete;
    ctx.start(3, stamp);
    let mut writes = 0;
    let mut sidecars: Vec<u64> = Vec::new();

    // Post A: local file already there.
    let task_a = TaskState::begin(true, true, stamp);
    assert_eq!(
        task_a.next_action(),
        TaskAction::Report { downloaded: false, cancelled: false }
    );
    if sidecar_wanted(true, true, false, false) {
        sidecars.push(1);
    }
    ctx.on_task_result(false);
    assert_eq!(
        ctx,
        DownloadContext::Downloading { total: 2, downloaded: 0, stamp }
    );

    // Post B: every fetch fails.
    let mut task_b = TaskState::begin(true, false, stamp);
    let mut b_fetches = 0;
    loop {
        match task_b.next_action() {
            TaskAction::SleepThenReadStamp | TaskAction::ReadStamp => {
                task_b = task_b.step(TaskEvent::StampRead(stamp));
            }
            TaskAction::Fetch => {
                b_fetches += 1;
                task_b = task_b.step(TaskEvent::FetchFailed);
            }
            TaskAction::TransformAndWrite => {
                writes += 1;
                task_b = task_b.step(TaskEvent::FileWritten);
            }
            TaskAction::Report { downloaded, cancelled } => {
                assert!(!downloaded);
                assert!(!cancelled);
                if sidecar_wanted(true, true, false, cancelled) {
                    sidecars.push(2);
                }
                ctx.on_task_result(downloaded);
                break;
            }
        }
    }
    assert_eq!(b_fetches, 9);
    assert_eq!(
        ctx,
        DownloadContext::Downloading { total: 1, downloaded: 0, stamp }
    );

    // Post C: two transient failures, then success.
    let mut task_c = TaskState::begin(true, false, stamp);
    let mut c_failures_left = 2;
    loop {
        match task_c.next_action() {
            TaskAction::SleepThenReadStamp | TaskAction::ReadStamp => {
                task_c = task_c.step(TaskEvent::StampRead(stamp));
            }
            TaskAction::Fetch => {
                if c_failures_left > 0 {
                    c_failures_left -= 1;
                    task_c = task_c.step(TaskEvent::FetchFailed);
                } else {
                    task_c = task_c.step(TaskEvent::FetchSucceeded);
                }
            }
            TaskAction::TransformAndWrite => {
                writes += 1;
                task_c = task_c.step(TaskEvent::FileWritten);
            }
            TaskAction::Report { downloaded, cancelled } => {
                assert!(downloaded);
                assert!(!cancelled);
                if sidecar_wanted(true, true, false, cancelled) {
                    sidecars.push(3);
                }
                ctx.on_task_result(downloaded);
                break;
            }
        }
    }

    assert_eq!(ctx, DownloadContext::Complete);
    assert_eq!(writes, 1);
    assert_eq!(sidecars, vec![1, 2, 3]);
}
