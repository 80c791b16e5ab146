//! The consumer's view of the one image being fetched: the displayed
//! artifact, the byte counters the progress events feed, and the status
//! text, together with the consumer-side steps of the poll loop.
use vstd::prelude::*;
use crate::artifact::ImageArtifact;
use crate::outcome::{Container, TerminalResult};
use crate::progress::{
    lemma_progress_bytes_prefix_bound,
    lemma_progress_bytes_take_step,
    progress_bytes,
    ProgressEvent,
};

verus! {

/// What the consumer knows about the image task it renders: the decoded
/// image once one arrived, a finished size and a transient in-flight byte
/// total (both in the units `repair` leaves them in), whether a download
/// is being shown, the current error text, and the seed that picks which
/// image to fetch next.
pub struct NetworkImage {
    pub image: Option<ImageArtifact>,
    pub file_size: usize,
    pub tmp_file_size: usize,
    pub show_image_progress: bool,
    pub error: Option<String>,
    pub seed: usize,
}

impl Default for NetworkImage {
    /// The consumer's starting view: nothing fetched, nothing in flight.
    fn default() -> (d: Self)
        ensures
            d.image is None,
            d.file_size == 0,
            d.tmp_file_size == 0,
            !d.show_image_progress,
            d.error is None,
            d.seed == 0,
    {
        NetworkImage {
            image: None,
            file_size: 0,
            tmp_file_size: 0,
            show_image_progress: false,
            error: None,
            seed: 0,
        }
    }
}

impl NetworkImage {
    /// Stores a freshly decoded image and clears any error text.
    pub fn set_image(&mut self, image: ImageArtifact)
        ensures
            final(self).image == Some(image),
            final(self).error is None,
            final(self).file_size == old(self).file_size,
            final(self).tmp_file_size == old(self).tmp_file_size,
            final(self).show_image_progress == old(self).show_image_progress,
            final(self).seed == old(self).seed,
    {
        self.error = None;
        self.image = Some(image);
    }

    /// Stores an error text for the consumer to render.
    pub fn set_error(&mut self, e: String)
        ensures
            final(self).error == Some(e),
            final(self).image == old(self).image,
            final(self).file_size == old(self).file_size,
            final(self).tmp_file_size == old(self).tmp_file_size,
            final(self).show_image_progress == old(self).show_image_progress,
            final(self).seed == old(self).seed,
    {
        self.error = Some(e);
    }

    /// Folds the transient in-flight byte total into the displayed file
    /// size — converting bytes to the next unit when at least a unit's
    /// worth arrived — then clears the transient total and stops showing
    /// download progress.
    pub fn repair(&mut self)
        ensures
            old(self).tmp_file_size >= 1000 ==> final(self).file_size == old(self).tmp_file_size
                / 1000,
            old(self).tmp_file_size < 1000 ==> final(self).file_size == old(self).file_size,
            final(self).tmp_file_size == 0,
            !final(self).show_image_progress,
            final(self).image == old(self).image,
            final(self).error == old(self).error,
            final(self).seed == old(self).seed,
    {
        if self.tmp_file_size >= 1000 {
            self.tmp_file_size = self.tmp_file_size / 1000;
            self.file_size = self.tmp_file_size;
        }
        self.show_image_progress = false;
        self.tmp_file_size = 0;
    }

    /// Adds every byte count in a drained batch of progress events, in
    /// order, to the transient total: afterwards the total has grown by
    /// exactly the batch's reported bytes.
    pub fn absorb_progress(&mut self, events: &Vec<ProgressEvent>)
        requires
            old(self).tmp_file_size + progress_bytes(events@) <= usize::MAX,
        ensures
            final(self).tmp_file_size == old(self).tmp_file_size + progress_bytes(events@),
            final(self).image == old(self).image,
            final(self).file_size == old(self).file_size,
            final(self).show_image_progress == old(self).show_image_progress,
            final(self).error == old(self).error,
            final(self).seed == old(self).seed,
    {
        let n = events.len();
        let mut i: usize = 0;
        while i < n
            invariant
                n == events@.len(),
                i <= n,
                old(self).tmp_file_size + progress_bytes(events@) <= usize::MAX,
                self.tmp_file_size == old(self).tmp_file_size + progress_bytes(
                    events@.take(i as int),
                ),
                self.image == old(self).image,
                self.file_size == old(self).file_size,
                self.show_image_progress == old(self).show_image_progress,
                self.error == old(self).error,
                self.seed == old(self).seed,
            decreases n - i,
        {
            proof {
                lemma_progress_bytes_take_step(events@, i as int);
                lemma_progress_bytes_prefix_bound(events@, i + 1);
            }
            match events[i] {
                ProgressEvent::BytesReceived(b) => {
                    self.tmp_file_size = self.tmp_file_size + b;
                },
                ProgressEvent::DecodeStarted => {},
            }
            i += 1;
        }
        proof {
            assert(events@.take(n as int) =~= events@);
        }
    }

    /// Reacts to a task's terminal result: a successful image task stores
    /// its artifact and clears the error, a successful data task changes
    /// nothing here, and any failure stores its status text. Returns
    /// whether the failure was the controlled abort the consumer asked
    /// for, so the caller can offer a retry instead of an error banner.
    pub fn apply_result(&mut self, result: TerminalResult) -> (canceled: bool)
        ensures
            match result {
                TerminalResult::Success(Container::Image(a)) => {
                    &&& final(self).image == Some(a)
                    &&& final(self).error is None
                    &&& !canceled
                },
                TerminalResult::Success(Container::Data(_)) => {
                    &&& *final(self) == *old(self)
                    &&& !canceled
                },
                TerminalResult::Failure(reason) => {
                    &&& final(self).error matches Some(m) && m@ == reason.message_spec()
                    &&& final(self).image == old(self).image
                    &&& canceled == reason.is_cancellation()
                },
            },
            final(self).file_size == old(self).file_size,
            final(self).tmp_file_size == old(self).tmp_file_size,
            final(self).show_image_progress == old(self).show_image_progress,
            final(self).seed == old(self).seed,
    {
        match result {
            TerminalResult::Success(container) => match container {
                Container::Image(a) => {
                    self.set_image(a);
                    false
                },
                Container::Data(_) => false,
            },
            TerminalResult::Failure(reason) => {
                let canceled = reason.is_canceled();
                let msg = reason.message();
                self.set_error(msg);
                canceled
            },
        }
    }

    /// The consumer's reset once a task finalized: folds the byte total
    /// into the displayed size (`repair`), and applies the retry-seed
    /// policy this library fixes — a canceled forward fetch steps the seed
    /// back (never below one), a canceled backward fetch steps it forward,
    /// and an uncanceled outcome leaves it alone, so a retry targets the
    /// image whose fetch was aborted.
    pub fn reset_after_fetch(&mut self, next_image: bool, was_canceled: bool)
        requires
            old(self).seed < usize::MAX,
        ensures
            old(self).tmp_file_size >= 1000 ==> final(self).file_size == old(self).tmp_file_size
                / 1000,
            old(self).tmp_file_size < 1000 ==> final(self).file_size == old(self).file_size,
            final(self).tmp_file_size == 0,
            !final(self).show_image_progress,
            final(self).image == old(self).image,
            final(self).error == old(self).error,
            final(self).seed == (if was_canceled {
                if next_image {
                    if old(self).seed > 1 {
                        (old(self).seed - 1) as usize
                    } else {
                        old(self).seed
                    }
                } else {
                    (old(self).seed + 1) as usize
                }
            } else {
                old(self).seed
            }),
    {
        self.repair();
        if was_canceled {
            if next_image {
                if self.seed > 1 {
                    self.seed = self.seed - 1;
                }
            } else {
                self.seed = self.seed + 1;
            }
        }
    }
}

} // verus!
