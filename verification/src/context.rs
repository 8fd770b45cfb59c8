use vstd::prelude::*;
use crate::post::Post;

verus! {

/// State of the one live download batch.
///
/// While `Downloading`, `total` only ever shrinks (a task that was skipped,
/// cancelled or failed permanently removes itself from the denominator) and
/// `downloaded` only ever grows; when the two meet, the state returns to
/// `Complete` in the same update. `stamp` is the value the cancellation
/// token held when the batch was launched.
#[derive(Clone, Copy, Debug, PartialEq, Eq, Structural)]
pub enum DownloadContext {
    Complete,
    Downloading { total: usize, downloaded: usize, stamp: u64 },
}

impl Default for DownloadContext {
    fn default() -> (r: Self)
        ensures
            r == DownloadContext::Complete,
    {
        DownloadContext::Complete
    }
}

impl DownloadContext {
    /// While a batch is live, at least one task is still outstanding.
    pub open spec fn inv(self) -> bool {
        self matches DownloadContext::Downloading { total, downloaded, .. } ==> downloaded
            < total
    }

    /// The state a fresh batch of `count` posts starts in: an empty batch is
    /// already complete, any other batch starts with nothing downloaded.
    pub open spec fn start_spec(count: usize, stamp: u64) -> DownloadContext {
        if count == 0 {
            DownloadContext::Complete
        } else {
            DownloadContext::Downloading { total: count, downloaded: 0, stamp }
        }
    }

    /// How one task outcome moves the state: a success advances `downloaded`,
    /// anything else removes the task from `total`; the batch completes the
    /// moment the two counters meet. An outcome reported after the batch is
    /// over changes nothing.
    pub open spec fn report_spec(self, success: bool) -> DownloadContext {
        match self {
            DownloadContext::Complete => DownloadContext::Complete,
            DownloadContext::Downloading { total, downloaded, stamp } => {
                let new_total = if success {
                    total
                } else {
                    (total - 1) as usize
                };
                let new_downloaded = if success {
                    (downloaded + 1) as usize
                } else {
                    downloaded
                };
                if new_downloaded == new_total {
                    DownloadContext::Complete
                } else {
                    DownloadContext::Downloading {
                        total: new_total,
                        downloaded: new_downloaded,
                        stamp,
                    }
                }
            },
        }
    }

    /// Launch a batch of `count` posts, stamping it with the token value
    /// captured now. Starting while a batch is live is not a supported
    /// transition: the triggering control is disabled while `Downloading`.
    pub fn start(&mut self, count: usize, now: u64)
        requires
            *old(self) is Complete,
        ensures
            *final(self) == DownloadContext::start_spec(count, now),
            final(self).inv(),
    {
        if count == 0 {
            *self = DownloadContext::Complete;
        } else {
            *self = DownloadContext::Downloading { total: count, downloaded: 0, stamp: now };
        }
    }

    /// What `cancel` does: the state drops back to `Complete`, and the
    /// shared token must be overwritten with the new stamp exactly when a
    /// batch was actually live.
    pub open spec fn cancel_spec(self, now: u64) -> (DownloadContext, Option<u64>) {
        (
            DownloadContext::Complete,
            if self is Downloading {
                Some(now)
            } else {
                None
            },
        )
    }

    /// Cancel the live batch, if any: the state drops back to `Complete` and
    /// the caller is told to overwrite the shared cancellation token with
    /// `now` (so that every in-flight task sees a stamp unequal to the one it
    /// captured). In `Complete` the call is a no-op.
    pub fn cancel(&mut self, now: u64) -> (invalidate: Option<u64>)
        ensures
            *final(self) == old(self).cancel_spec(now).0,
            invalidate == old(self).cancel_spec(now).1,
    {
        match *self {
            DownloadContext::Downloading { .. } => {
                *self = DownloadContext::Complete;
                Some(now)
            },
            DownloadContext::Complete => None,
        }
    }

    /// Fold one task's terminal outcome into the running counters; this is
    /// the only place the counters move, and the caller serializes these
    /// calls, so the `downloaded <= total` invariant is enforced here.
    pub fn on_task_result(&mut self, success: bool)
        requires
            old(self).inv(),
        ensures
            *final(self) == old(self).report_spec(success),
            final(self).inv(),
    {
        match *self {
            DownloadContext::Downloading { total, downloaded, stamp } => {
                let new_total = if success {
                    total
                } else {
                    total - 1
                };
                let new_downloaded = if success {
                    downloaded + 1
                } else {
                    downloaded
                };
                if new_downloaded == new_total {
                    *self = DownloadContext::Complete;
                } else {
                    *self = DownloadContext::Downloading {
                        total: new_total,
                        downloaded: new_downloaded,
                        stamp,
                    };
                }
            },
            DownloadContext::Complete => {},
        }
    }
}

/// The messages the download subsystem reacts to: the user asked for a
/// batch, the user cancelled, or one task reported its terminal outcome.
#[derive(Clone, Debug)]
pub enum DownloadMessage {
    DownloadCanceled,
    ImageDownloaded(bool),
    DownloadRequested(Vec<Post>),
}

/// What the host must carry out after a message was folded into the state.
#[derive(Clone, Debug)]
pub enum HandleEffect {
    NoEffect,
    /// Overwrite the shared cancellation token with this stamp, so that
    /// every in-flight task sees a value unequal to the one it captured.
    InvalidateToken { stamp: u64 },
    /// Schedule one concurrent download task per post, each carrying this
    /// captured initial stamp.
    Launch { posts: Vec<Post>, stamp: u64 },
}

impl DownloadMessage {
    /// Fold one message into the download state and say what the host must
    /// do next. `now` is a fresh stamp, read before the call. A batch
    /// request arrives only in `Complete`: the triggering control is
    /// disabled while a batch is live.
    pub fn handle(self, ctx: &mut DownloadContext, now: u64) -> (effect: HandleEffect)
        requires
            old(ctx).inv(),
            self is DownloadRequested ==> *old(ctx) is Complete,
        ensures
            final(ctx).inv(),
            self is DownloadCanceled ==> *final(ctx) == old(ctx).cancel_spec(now).0 && effect == (
            match old(ctx).cancel_spec(now).1 {
                Some(stamp) => HandleEffect::InvalidateToken { stamp },
                None => HandleEffect::NoEffect,
            }),
            self matches DownloadMessage::ImageDownloaded(success) ==> *final(ctx) == old(
                ctx,
            ).report_spec(success) && effect is NoEffect,
            self matches DownloadMessage::DownloadRequested(posts) ==> *final(ctx)
                == DownloadContext::start_spec(posts.len() as usize, now) && effect == (
            HandleEffect::Launch { posts, stamp: now }),
    {
        match self {
            DownloadMessage::DownloadCanceled => {
                match ctx.cancel(now) {
                    Some(stamp) => HandleEffect::InvalidateToken { stamp },
                    None => HandleEffect::NoEffect,
                }
            },
            DownloadMessage::ImageDownloaded(success) => {
                ctx.on_task_result(success);
                HandleEffect::NoEffect
            },
            DownloadMessage::DownloadRequested(posts) => {
                let count = posts.len();
                ctx.start(count, now);
                HandleEffect::Launch { posts, stamp: now }
            },
        }
    }
}

/// The state after a whole sequence of task outcomes has been folded in.
pub open spec fn report_all_spec(ctx: DownloadContext, outcomes: Seq<bool>) -> DownloadContext
    decreases outcomes.len(),
{
    if outcomes.len() == 0 {
        ctx
    } else {
        report_all_spec(ctx.report_spec(outcomes[0]), outcomes.drop_first())
    }
}

/// A finished batch stays finished: outcomes reported late change nothing.
pub proof fn lemma_report_all_complete(outcomes: Seq<bool>)
    ensures
        report_all_spec(DownloadContext::Complete, outcomes) == DownloadContext::Complete,
    decreases outcomes.len(),
{
    if outcomes.len() > 0 {
        lemma_report_all_complete(outcomes.drop_first());
    }
}

/// The running invariant of a live batch: from `Downloading` with
/// `downloaded < total`, each outcome shrinks the gap `total - downloaded`
/// by one, `downloaded` never shrinks, `total` never grows, and the state
/// flips to `Complete` exactly when the gap is spent.
pub proof fn lemma_report_all_progress(
    total: usize,
    downloaded: usize,
    stamp: u64,
    outcomes: Seq<bool>,
)
    requires
        downloaded < total,
    ensures
        ({
            let c = report_all_spec(
                DownloadContext::Downloading { total, downloaded, stamp },
                outcomes,
            );
            &&& outcomes.len() >= total - downloaded ==> c == DownloadContext::Complete
            &&& outcomes.len() < total - downloaded ==> (c matches DownloadContext::Downloading {
                total: t,
                downloaded: d,
                stamp: s2,
            } && s2 == stamp && downloaded <= d && d < t && t <= total && t - d == total
                - downloaded - outcomes.len())
        }),
    decreases outcomes.len(),
{
    if outcomes.len() > 0 {
        if outcomes[0] {
            if downloaded + 1 == total {
                lemma_report_all_complete(outcomes.drop_first());
            } else {
                lemma_report_all_progress(
                    total,
                    (downloaded + 1) as usize,
                    stamp,
                    outcomes.drop_first(),
                );
            }
        } else {
            if downloaded + 1 == total {
                lemma_report_all_complete(outcomes.drop_first());
            } else {
                lemma_report_all_progress(
                    (total - 1) as usize,
                    downloaded,
                    stamp,
                    outcomes.drop_first(),
                );
            }
        }
    }
}

/// Bounded counters: from a fresh batch of `count` posts, after any
/// sequence of task outcomes, a state still downloading has
/// `downloaded <= total <= count`. Every reachable state of a batch is of
/// this shape, since each prefix of the reports is itself such a sequence.
pub proof fn lemma_counts_bounded(count: usize, now: u64, outcomes: Seq<bool>)
    ensures
        ({
            let c = report_all_spec(DownloadContext::start_spec(count, now), outcomes);
            c matches DownloadContext::Downloading { total, downloaded, .. } ==> downloaded <= total
                && total <= count
        }),
{
    if count == 0 {
        lemma_report_all_complete(outcomes);
    } else {
        lemma_report_all_progress(count, 0, now, outcomes);
    }
}

/// Completion: from a fresh batch of `count` posts, a sequence of exactly
/// `count` outcomes, whatever each of them is, drives the state back to
/// `Complete`.
pub proof fn lemma_batch_completes(count: usize, now: u64, outcomes: Seq<bool>)
    requires
        outcomes.len() == count,
    ensures
        report_all_spec(DownloadContext::start_spec(count, now), outcomes)
            == DownloadContext::Complete,
{
    if count == 0 {
        lemma_report_all_complete(outcomes);
    } else {
        lemma_report_all_progress(count, 0, now, outcomes);
    }
}

/// Cancelling twice is cancelling once: the second call finds `Complete`,
/// leaves the state as it was, and asks for no further token overwrite.
pub proof fn lemma_cancel_idempotent(ctx: DownloadContext, now1: u64, now2: u64)
    ensures
        ctx.cancel_spec(now1).0.cancel_spec(now2).0 == ctx.cancel_spec(now1).0,
        ctx.cancel_spec(now1).0.cancel_spec(now2).1 is None,
{
}

} // verus!
