//! The download stage: whether a weight file has to be fetched at all, and
//! what each received chunk reports.

use crate::catalog::Model;
use crate::progress::{all_within_unit, non_decreasing, Event, EventView, Fraction};
use crate::text::{decimal_digits, digit_char};
use vstd::prelude::*;

verus! {

/// Whether `c` is one of the letters by which a scaled size names its
/// unit.
pub open spec fn is_unit_letter(c: char) -> bool {
    c == 'K' || c == 'M' || c == 'G' || c == 'T' || c == 'P' || c == 'E'
}

/// A size scaled to a unit: the whole part of the number, a point, one
/// decimal, a space, the unit's letter and `B`.
pub open spec fn scaled_size_text(whole: nat, tenth: nat, unit: char) -> Seq<char> {
    decimal_digits(whole) + seq!['.', digit_char(tenth), ' ', unit, 'B']
}

/// What is known of the text that stands for a number of bytes. Below a
/// thousand bytes it is the plain number, a space and `B`. From a thousand
/// on it is a number with one decimal, scaled to one of six units; which
/// unit, and so which number, is left open.
pub open spec fn is_size_text(text: Seq<char>, bytes: u64) -> bool {
    if bytes < 1000 {
        text == decimal_digits(bytes as nat) + seq![' ', 'B']
    } else {
        exists|whole: nat, tenth: nat, unit: char|
            #![trigger scaled_size_text(whole, tenth, unit)]
            tenth < 10 && is_unit_letter(unit) && text == scaled_size_text(whole, tenth, unit)
    }
}

/// `bytesize::ByteSize`, written through its `Display` impl. Below a
/// thousand bytes the crate writes the plain number followed by a space and
/// `B`. From a thousand on it divides by a power of a thousand and writes
/// the quotient with one decimal, a space, the letter of the unit out of
/// `KMGTPE`, and `B`. It picks the power by a floating-point logarithm,
/// whose precision is not fixed, so the unit and the number are not
/// claimed, only the form.
#[verifier::external_body]
fn byte_size_string(bytes: u64) -> (text: String)
    ensures
        is_size_text(text@, bytes),
{
    bytesize::ByteSize(bytes).to_string()
}

/// The message of a download step, given the texts that stand for the bytes
/// received and for the total.
pub open spec fn download_message(downloaded: Seq<char>, total: Seq<char>) -> Seq<char> {
    "Downloading model ("@ + downloaded + " / "@ + total + ")"@
}

/// Whether `message` is the message of a download step that has received
/// `downloaded` of `total` bytes.
pub open spec fn is_download_message(message: Seq<char>, downloaded: u64, total: u64) -> bool {
    exists|received: Seq<char>, whole: Seq<char>|
        #![trigger download_message(received, whole)]
        {
            &&& message == download_message(received, whole)
            &&& is_size_text(received, downloaded)
            &&& is_size_text(whole, total)
        }
}

/// Whether `event` tells the host of a download step that has received
/// `downloaded` of `total` bytes and stands at `progress`.
pub open spec fn is_download_event(
    event: EventView,
    downloaded: u64,
    total: u64,
    progress: Fraction,
) -> bool {
    event matches EventView::ModelLoading { message, progress: told } && told == progress
        && is_download_message(message, downloaded, total)
}

/// Puts the message of a download step together from the texts that stand
/// for the bytes received and for the total.
pub fn compose_download_message(downloaded: &str, total: &str) -> (message: String)
    ensures
        message@ == download_message(downloaded@, total@),
{
    let mut message = String::from_str("Downloading model (");
    message.append(downloaded);
    message.append(" / ");
    message.append(total);
    message.append(")");
    message
}

/// What is to be done to have a model's weight file in the cache.
#[derive(Debug)]
pub enum Acquire {
    /// The cache holds the file under this name: nothing is requested.
    Cached { filename: String },
    /// The file is fetched from `url` and stored under `filename`.
    Fetch { url: String, filename: String },
}

/// An [`Acquire`] with its texts as sequences of characters.
pub enum AcquireView {
    Cached { filename: Seq<char> },
    Fetch { url: Seq<char>, filename: Seq<char> },
}

impl View for Acquire {
    type V = AcquireView;

    open spec fn view(&self) -> AcquireView {
        match self {
            Acquire::Cached { filename } => AcquireView::Cached { filename: filename@ },
            Acquire::Fetch { url, filename } => AcquireView::Fetch {
                url: url@,
                filename: filename@,
            },
        }
    }
}

impl AcquireView {
    /// The cache name of the file, which is where it is found afterwards.
    pub open spec fn filename(self) -> Seq<char> {
        match self {
            AcquireView::Cached { filename } => filename,
            AcquireView::Fetch { filename, .. } => filename,
        }
    }
}

/// Decides how the weight file of `model` is had: a file that is already
/// present under the model's cache name is used as it is, without any
/// request; only an absent one is fetched. Either way the file ends up under
/// the same name.
pub fn acquire(model: &Model, present: bool) -> (plan: Acquire)
    ensures
        plan@ == if present {
            (AcquireView::Cached { filename: model@.filename })
        } else {
            (AcquireView::Fetch { url: model@.url, filename: model@.filename })
        },
        plan@.filename() == model@.filename,
{
    if present {
        Acquire::Cached { filename: model.filename.clone() }
    } else {
        Acquire::Fetch { url: model.url.clone(), filename: model.filename.clone() }
    }
}

/// What one received chunk reports: the bytes received with it, the
/// announced total, and the one over the other.
#[derive(Clone, Copy, Debug)]
pub struct DownloadProgress {
    pub downloaded: u64,
    pub total: u64,
    pub progress: Fraction,
}

impl DownloadProgress {
    /// The event that tells the host of this step: the step's fraction,
    /// under a message that names the two sizes in a form fit for reading.
    pub fn event(&self) -> (event: Event)
        ensures
            is_download_event(event@, self.downloaded, self.total, self.progress),
    {
        let downloaded = byte_size_string(self.downloaded);
        let total = byte_size_string(self.total);
        let message = compose_download_message(downloaded.as_str(), total.as_str());
        assert(message@ == download_message(downloaded@, total@));
        Event::ModelLoading { message, progress: self.progress }
    }
}

/// The bytes received so far of one download, and the total that the remote
/// announced; zero stands for a total that was not announced.
#[derive(Debug)]
pub struct Download {
    downloaded: u64,
    total: u64,
}

/// The state of a [`Download`].
pub struct DownloadView {
    pub downloaded: u64,
    pub total: u64,
}

impl DownloadView {
    /// The bytes counted once a chunk of `length` bytes has come in: never
    /// more than the announced total.
    pub open spec fn after_chunk(self, length: u64) -> u64 {
        if self.downloaded + length <= self.total {
            (self.downloaded + length) as u64
        } else {
            self.total
        }
    }
}

impl View for Download {
    type V = DownloadView;

    closed spec fn view(&self) -> DownloadView {
        DownloadView { downloaded: self.downloaded, total: self.total }
    }
}

impl Download {
    /// No more is counted than was announced.
    #[verifier::type_invariant]
    spec fn within_total(self) -> bool {
        self.downloaded <= self.total
    }

    /// A download of which nothing has been received. `content_length` is
    /// the total that the remote announced, if it announced one.
    pub fn begin(content_length: Option<u64>) -> (download: Self)
        ensures
            download@.downloaded == 0,
            download@.total == match content_length {
                Some(total) => total,
                None => 0,
            },
    {
        let total: u64 = match content_length {
            Some(total) => total,
            None => 0,
        };
        Download { downloaded: 0, total }
    }

    /// The bytes counted so far.
    pub fn downloaded(&self) -> (downloaded: u64)
        ensures
            downloaded == self@.downloaded,
    {
        self.downloaded
    }

    /// The announced total; zero where none was announced.
    pub fn total(&self) -> (total: u64)
        ensures
            total == self@.total,
    {
        self.total
    }

    /// Counts a chunk of `length` bytes. With an announced total the step is
    /// reported: the new count, the total, and the new count over the total.
    /// Without one nothing is reported, and nothing is divided.
    pub fn on_chunk(&mut self, length: u64) -> (report: Option<DownloadProgress>)
        ensures
            final(self)@.total == old(self)@.total,
            final(self)@.downloaded == old(self)@.after_chunk(length),
            old(self)@.downloaded <= final(self)@.downloaded <= final(self)@.total,
            match report {
                Some(step) => {
                    &&& old(self)@.total > 0
                    &&& step.downloaded == final(self)@.downloaded
                    &&& step.total == old(self)@.total
                    &&& step.progress == (Fraction {
                        numer: final(self)@.downloaded as u128,
                        denom: old(self)@.total as u128,
                    })
                    &&& step.progress.wf()
                },
                None => old(self)@.total == 0,
            },
    {
        proof {
            use_type_invariant(&*self);
        }
        let before: u64 = self.downloaded;
        let after: u64 = if length <= self.total - before {
            before + length
        } else {
            self.total
        };
        self.downloaded = after;
        if self.total > 0 {
            Some(
                DownloadProgress {
                    downloaded: after,
                    total: self.total,
                    progress: Fraction { numer: after as u128, denom: self.total as u128 },
                },
            )
        } else {
            None
        }
    }
}

impl DownloadView {
    /// The fractions reported for chunks of the given lengths, received in
    /// that order from this state on: none without an announced total.
    pub open spec fn fractions(self, chunks: Seq<u64>) -> Seq<Fraction>
        decreases chunks.len(),
    {
        if chunks.len() == 0 || self.total == 0 {
            Seq::empty()
        } else {
            let counted = self.after_chunk(chunks[0]);
            seq![Fraction { numer: counted as u128, denom: self.total as u128 }] + (DownloadView {
                downloaded: counted,
                total: self.total,
            }).fractions(chunks.drop_first())
        }
    }
}

/// Over one download the reported fractions never fall and never leave the
/// range from zero to one, whatever the lengths of the chunks.
pub proof fn lemma_download_progress_never_falls(state: DownloadView, chunks: Seq<u64>)
    requires
        state.downloaded <= state.total,
    ensures
        all_within_unit(state.fractions(chunks)),
        non_decreasing(state.fractions(chunks)),
        forall|i: int|
            0 <= i < state.fractions(chunks).len() ==> state.downloaded <= (
            #[trigger] state.fractions(chunks)[i]).numer && state.fractions(chunks)[i].denom
                == state.total,
    decreases chunks.len(),
{
    if chunks.len() == 0 || state.total == 0 {
    } else {
        let counted = state.after_chunk(chunks[0]);
        let next = DownloadView { downloaded: counted, total: state.total };
        let rest = next.fractions(chunks.drop_first());
        let all = state.fractions(chunks);
        lemma_download_progress_never_falls(next, chunks.drop_first());
        assert forall|i: int| 0 <= i < all.len() implies (#[trigger] all[i]).wf()
            && state.downloaded <= all[i].numer && all[i].denom == state.total by {
            if i > 0 {
                assert(all[i] == rest[i - 1]);
            }
        }
        assert forall|i: int, j: int| 0 <= i < j < all.len() implies (#[trigger] all[i]).le(
            #[trigger] all[j],
        ) by {
            assert(all[j] == rest[j - 1]);
            if i > 0 {
                assert(all[i] == rest[i - 1]);
            } else {
                assert(all[i].numer * all[j].denom <= all[j].numer * all[i].denom)
                    by (nonlinear_arith)
                    requires
                        all[i].numer <= all[j].numer,
                        all[i].denom == all[j].denom,
                ;
            }
        }
    }
}

} // verus!
