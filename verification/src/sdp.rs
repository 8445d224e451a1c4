//! The SDP accumulator: an append-only text builder that folds successive ICE
//! candidate lines and one SDP offer body into the single composite document
//! submitted by the POST.
//!
//! Document format (internally consistent by construction): each candidate is
//! written as the attribute line `a=<candidate>` terminated by `\n`; the offer
//! body is written verbatim; finalizing appends the single terminal line
//! `a=end-of-candidates\n`.

use vstd::prelude::*;

verus! {

/// The attribute line written for one ICE candidate: `a=`, the candidate text
/// verbatim, then a newline.
pub open spec fn candidate_line(c: Seq<char>) -> Seq<char> {
    "a="@ + c + "\n"@
}

/// The single terminal marker line appended when the document is finalized.
pub open spec fn end_marker() -> Seq<char> {
    "a=end-of-candidates\n"@
}

/// The concatenation of the attribute lines of `cands`, in order.
pub open spec fn candidate_lines(cands: Seq<Seq<char>>) -> Seq<char>
    decreases cands.len(),
{
    if cands.len() == 0 {
        Seq::empty()
    } else {
        candidate_lines(cands.drop_last()) + candidate_line(cands.last())
    }
}

/// The text contributed by an offer that may not have arrived yet.
pub open spec fn offer_text(offer: Option<Seq<char>>) -> Seq<char> {
    match offer {
        Some(s) => s,
        None => Seq::empty(),
    }
}

/// Appending one candidate extends the concatenated lines by that candidate's
/// attribute line.
pub proof fn lemma_candidate_lines_push(cands: Seq<Seq<char>>, c: Seq<char>)
    ensures
        candidate_lines(cands.push(c)) == candidate_lines(cands) + candidate_line(c),
{
    assert(cands.push(c).drop_last() =~= cands);
    assert(cands.push(c).last() == c);
}

/// The mathematical value of an accumulator: the candidates folded before the
/// offer arrived, the offer body (once it has), and the candidates folded
/// after it, each sequence in arrival order.
pub struct AccView {
    pub pre: Seq<Seq<char>>,
    pub offer: Option<Seq<char>>,
    pub post: Seq<Seq<char>>,
}

impl AccView {
    /// The document text this model denotes: candidate lines and the offer
    /// body concatenated in arrival order.
    pub open spec fn text(self) -> Seq<char> {
        candidate_lines(self.pre) + offer_text(self.offer) + candidate_lines(self.post)
    }

    /// Candidates sit after the offer only once an offer has arrived.
    pub open spec fn wf(self) -> bool {
        self.offer is None ==> self.post == Seq::<Seq<char>>::empty()
    }

    /// The model of a fresh accumulator.
    pub open spec fn empty() -> AccView {
        AccView { pre: Seq::empty(), offer: None, post: Seq::empty() }
    }
}

/// Append-only builder of the composite SDP document. Nothing removes or
/// reorders previously appended content; a session resets it only by being
/// dropped whole.
pub struct SdpAccumulator {
    text: String,
    model: Ghost<AccView>,
}

impl View for SdpAccumulator {
    type V = AccView;

    closed spec fn view(&self) -> AccView {
        self.model@
    }
}

impl SdpAccumulator {
    /// The buffered text is exactly the document its model denotes.
    pub closed spec fn wf(&self) -> bool {
        &&& self@.wf()
        &&& self.text@ == self@.text()
    }

    /// A fresh, empty accumulator.
    pub fn new() -> (r: SdpAccumulator)
        ensures
            r.wf(),
            r@ == AccView::empty(),
    {
        let r = SdpAccumulator { text: String::new(), model: Ghost(AccView::empty()) };
        proof {
            assert(r.text@ =~= r@.text());
        }
        r
    }

    /// Fold one ICE candidate line into the document, verbatim, at the end of
    /// the text accumulated so far.
    pub fn append_candidate(&mut self, candidate: &str)
        requires
            old(self).wf(),
        ensures
            final(self).wf(),
            old(self)@.offer is None ==> final(self)@ == (AccView {
                pre: old(self)@.pre.push(candidate@),
                ..old(self)@
            }),
            old(self)@.offer is Some ==> final(self)@ == (AccView {
                post: old(self)@.post.push(candidate@),
                ..old(self)@
            }),
    {
        self.text.append("a=");
        self.text.append(candidate);
        self.text.append("\n");
        proof {
            let m = self.model@;
            if m.offer is None {
                self.model@ = AccView { pre: m.pre.push(candidate@), ..m };
                lemma_candidate_lines_push(m.pre, candidate@);
            } else {
                self.model@ = AccView { post: m.post.push(candidate@), ..m };
                lemma_candidate_lines_push(m.post, candidate@);
            }
            assert(self.text@ =~= self@.text());
        }
    }

    /// Fold the full SDP offer body into the document, verbatim. At most one
    /// offer is appended per session; the session driver guards this.
    pub fn append_offer(&mut self, sdp: &str)
        requires
            old(self).wf(),
            old(self)@.offer is None,
        ensures
            final(self).wf(),
            final(self)@ == (AccView { offer: Some(sdp@), ..old(self)@ }),
    {
        self.text.append(sdp);
        proof {
            let m = self.model@;
            self.model@ = AccView { offer: Some(sdp@), ..m };
            assert(self.text@ =~= self@.text());
        }
    }

    /// The finalized document: everything folded so far followed by exactly
    /// one terminal end-of-candidates marker line. The accumulator itself is
    /// left untouched; the driver submits the returned document exactly once.
    pub fn finalized_document(&self) -> (r: String)
        requires
            self.wf(),
        ensures
            r@ == self@.text() + end_marker(),
    {
        let mut r = self.text.clone();
        r.append("a=end-of-candidates\n");
        r
    }
}

} // verus!
