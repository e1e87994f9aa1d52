//! Warnings that let an announce succeed with an empty peer list.
use vstd::prelude::*;
use vstd::string::StringSliceAdditionalSpecFns;

use crate::bytes::extend_str;

verus! {

/// Announce warnings that don't stop the announce processing but still return
/// an empty peer list.
#[derive(Clone, Copy, Debug, PartialEq, Eq, Structural)]
pub enum AnnounceWarning {
    RateLimitExceeded,
    HitDownloadSlotLimit,
    ConnectivityIssueDetected,
    StoppedPeerDoesntExist,
}

/// The text of a warning.
pub open spec fn warning_text(w: AnnounceWarning) -> Seq<u8> {
    match w {
        AnnounceWarning::RateLimitExceeded => "Rate limit exceeded. Please wait.".spec_bytes(),
        AnnounceWarning::HitDownloadSlotLimit => "Download slot limit reached".spec_bytes(),
        AnnounceWarning::ConnectivityIssueDetected => "Connectivity issue detected. Enable port-forwarding to resolve.".spec_bytes(),
        AnnounceWarning::StoppedPeerDoesntExist => "Stopped peer doesn't exist.".spec_bytes(),
    }
}

/// A silent warning empties the peer list but is not shown to the user.
pub open spec fn spec_is_silent(w: AnnounceWarning) -> bool {
    w == AnnounceWarning::RateLimitExceeded
}

impl AnnounceWarning {
    /// Returns true if the warning should not be sent to the user
    /// but still used internally to give empty peer lists.
    pub fn is_silent(&self) -> (r: bool)
        ensures
            r == spec_is_silent(*self),
    {
        match self {
            // Silenced because it's unlikely qBittorrent will ever fix its
            // duplicate announce bug.
            AnnounceWarning::RateLimitExceeded => true,
            _ => false,
        }
    }

    /// The text of the warning.
    pub fn text(&self) -> (r: &'static str)
        ensures
            r.spec_bytes() == warning_text(*self),
    {
        match self {
            AnnounceWarning::RateLimitExceeded => "Rate limit exceeded. Please wait.",
            AnnounceWarning::HitDownloadSlotLimit => "Download slot limit reached",
            AnnounceWarning::ConnectivityIssueDetected => "Connectivity issue detected. Enable port-forwarding to resolve.",
            AnnounceWarning::StoppedPeerDoesntExist => "Stopped peer doesn't exist.",
        }
    }
}

/// Bytes of the separator between two warnings.
pub open spec fn separator() -> Seq<u8> {
    "; ".spec_bytes()
}

/// Each shown (not silent) warning's text followed by the separator.
pub open spec fn shown_texts(ws: Seq<AnnounceWarning>) -> Seq<u8>
    decreases ws.len(),
{
    if ws.len() == 0 {
        Seq::empty()
    } else {
        shown_texts(ws.drop_last()) + if spec_is_silent(ws.last()) {
            Seq::empty()
        } else {
            warning_text(ws.last()) + separator()
        }
    }
}

/// The message shown to the user: the texts of the shown warnings in the
/// order they were added, separated by `; `; none when no warning is shown.
pub open spec fn warning_message(ws: Seq<AnnounceWarning>) -> Option<Seq<u8>> {
    let all = shown_texts(ws);
    if all.len() == 0 {
        None
    } else {
        Some(all.subrange(0, all.len() - separator().len()))
    }
}

/// Largest number of bytes a warning's text is allowed, plus its separator.
pub open spec fn max_warning_len() -> nat {
    66
}

/// The warnings gathered while processing one announce.
pub struct WarningCollection {
    warnings: Vec<AnnounceWarning>,
}

impl View for WarningCollection {
    type V = Seq<AnnounceWarning>;

    closed spec fn view(&self) -> Seq<AnnounceWarning> {
        self.warnings@
    }
}

impl WarningCollection {
    /// Initializes a new warning collection.
    pub fn new() -> (r: WarningCollection)
        ensures
            r@ == Seq::<AnnounceWarning>::empty(),
    {
        WarningCollection { warnings: Vec::new() }
    }

    /// Calculates the max byte length of the combined warning message.
    pub fn max_byte_length(&self) -> (r: usize)
        requires
            self@.len() * max_warning_len() <= usize::MAX,
        ensures
            r == self@.len() * max_warning_len(),
    {
        // Individual warnings should be limited to less than 64 characters
        // (the limit of some clients), plus the 2-byte separator.
        self.warnings.len() * 66
    }

    /// Add a new warning to the collection.
    pub fn add(&mut self, warning: AnnounceWarning)
        ensures
            final(self)@ == old(self)@.push(warning),
    {
        self.warnings.push(warning);
    }

    /// Returns true if there are no warnings.
    pub fn is_empty(&self) -> (r: bool)
        ensures
            r == (self@.len() == 0),
    {
        self.warnings.len() == 0
    }

    /// Returns true if the announce should be answered without recording
    /// anything: its peer was stopped but did not exist.
    pub fn should_early_return(&self) -> (r: bool)
        ensures
            r == self@.contains(AnnounceWarning::StoppedPeerDoesntExist),
    {
        let mut i: usize = 0;
        while i < self.warnings.len()
            invariant
                0 <= i <= self@.len(),
                self@ == self.warnings@,
                forall|j: int| 0 <= j < i ==> self@[j] != AnnounceWarning::StoppedPeerDoesntExist,
            decreases self@.len() - i,
        {
            if self.warnings[i] == AnnounceWarning::StoppedPeerDoesntExist {
                assert(self@[i as int] == AnnounceWarning::StoppedPeerDoesntExist);
                return true;
            }
            i = i + 1;
        }
        false
    }

    /// Create the warning message to be returned to the user.
    pub fn into_message(self) -> (r: Option<Vec<u8>>)
        ensures
            match r {
                Some(m) => warning_message(self@) == Some(m@),
                None => warning_message(self@) is None,
            },
    {
        let mut message: Vec<u8> = Vec::new();
        let mut i: usize = 0;
        proof {
            reveal_strlit("; ");
            assert(vstd::string::is_ascii("; "));
            assert("; ".spec_bytes().len() == 2);
        }
        while i < self.warnings.len()
            invariant
                0 <= i <= self@.len(),
                self@ == self.warnings@,
                message@ == shown_texts(self@.subrange(0, i as int)),
                separator().len() == 2,
            decreases self@.len() - i,
        {
            let warning = self.warnings[i];
            if !warning.is_silent() {
                extend_str(&mut message, warning.text());
                extend_str(&mut message, "; ");
            }
            proof {
                let p = self@.subrange(0, i + 1);
                assert(p.drop_last() =~= self@.subrange(0, i as int));
                assert(message@ =~= shown_texts(p));
            }
            i = i + 1;
        }
        assert(self@.subrange(0, self@.len() as int) =~= self@);
        if message.len() == 0 {
            return None;
        }
        proof {
            lemma_shown_texts_ends_with_separator(self@);
        }
        // remove the last separator
        let len = message.len();
        message.truncate(len - 2);
        Some(message)
    }
}

proof fn lemma_shown_texts_ends_with_separator(ws: Seq<AnnounceWarning>)
    requires
        shown_texts(ws).len() > 0,
    ensures
        shown_texts(ws).len() >= separator().len(),
    decreases ws.len(),
{
    if ws.len() > 0 {
        if spec_is_silent(ws.last()) {
            lemma_shown_texts_ends_with_separator(ws.drop_last());
        }
    }
}

proof fn lemma_warning_text_len(w: AnnounceWarning)
    ensures
        warning_text(w).len() + separator().len() <= max_warning_len(),
{
    broadcast use vstd::string::is_ascii_spec_bytes;
    reveal_strlit("; ");
    reveal_strlit("Rate limit exceeded. Please wait.");
    reveal_strlit("Download slot limit reached");
    reveal_strlit("Connectivity issue detected. Enable port-forwarding to resolve.");
    reveal_strlit("Stopped peer doesn't exist.");
    assert(vstd::string::is_ascii("; "));
    assert(vstd::string::is_ascii("Rate limit exceeded. Please wait."));
    assert(vstd::string::is_ascii("Download slot limit reached"));
    assert(vstd::string::is_ascii("Connectivity issue detected. Enable port-forwarding to resolve."));
    assert(vstd::string::is_ascii("Stopped peer doesn't exist."));
}

proof fn lemma_shown_texts_len(ws: Seq<AnnounceWarning>)
    ensures
        shown_texts(ws).len() <= ws.len() * max_warning_len(),
    decreases ws.len(),
{
    if ws.len() > 0 {
        lemma_shown_texts_len(ws.drop_last());
        lemma_warning_text_len(ws.last());
        assert((ws.len() - 1) * max_warning_len() + max_warning_len() == ws.len() * max_warning_len());
    }
}

/// The message of a collection is never longer than its maximal byte
/// length: each shown warning takes at most 64 bytes and a separator.
pub proof fn lemma_message_within_max_byte_length(ws: Seq<AnnounceWarning>)
    ensures
        warning_message(ws) matches Some(m) ==> m.len() <= ws.len() * max_warning_len(),
{
    lemma_shown_texts_len(ws);
    if shown_texts(ws).len() > 0 {
        lemma_shown_texts_ends_with_separator(ws);
    }
}

/// The texts of the shown (not silent) warnings, in order.
pub open spec fn shown_warning_texts(ws: Seq<AnnounceWarning>) -> Seq<Seq<u8>> {
    ws.filter(|w: AnnounceWarning| !spec_is_silent(w)).map_values(|w: AnnounceWarning| warning_text(w))
}

/// `parts` joined by the separator `; `.
pub open spec fn joined(parts: Seq<Seq<u8>>) -> Seq<u8>
    decreases parts.len(),
{
    if parts.len() == 0 {
        Seq::empty()
    } else if parts.len() == 1 {
        parts[0]
    } else {
        joined(parts.drop_last()) + separator() + parts.last()
    }
}

/// Each of `parts` followed by the separator.
spec fn terminated(parts: Seq<Seq<u8>>) -> Seq<u8>
    decreases parts.len(),
{
    if parts.len() == 0 {
        Seq::empty()
    } else {
        terminated(parts.drop_last()) + parts.last() + separator()
    }
}

proof fn lemma_shown_texts_terminated(ws: Seq<AnnounceWarning>)
    ensures
        shown_texts(ws) == terminated(shown_warning_texts(ws)),
    decreases ws.len(),
{
    let keep = |w: AnnounceWarning| !spec_is_silent(w);
    let text = |w: AnnounceWarning| warning_text(w);
    if ws.len() == 0 {
        assert(ws.filter(keep) =~= Seq::<AnnounceWarning>::empty());
        assert(shown_warning_texts(ws) =~= Seq::<Seq<u8>>::empty());
    } else {
        let init = ws.drop_last();
        let w = ws.last();
        lemma_shown_texts_terminated(init);
        assert(init.push(w) =~= ws);
        init.lemma_filter_push(w, keep);
        if keep(w) {
            assert(ws.filter(keep).map_values(text) =~= init.filter(keep).map_values(text).push(warning_text(w)));
            assert(shown_warning_texts(ws).drop_last() =~= shown_warning_texts(init));
        } else {
            assert(ws.filter(keep) =~= init.filter(keep));
        }
    }
}

proof fn lemma_terminated_joined(parts: Seq<Seq<u8>>)
    requires
        parts.len() > 0,
    ensures
        terminated(parts) == joined(parts) + separator(),
    decreases parts.len(),
{
    if parts.len() == 1 {
        assert(parts.drop_last() =~= Seq::<Seq<u8>>::empty());
        assert(terminated(parts.drop_last()) == Seq::<u8>::empty());
        assert(parts.last() == parts[0]);
        assert(Seq::<u8>::empty() + parts.last() =~= parts[0]);
    } else {
        lemma_terminated_joined(parts.drop_last());
        let j = joined(parts.drop_last());
        assert(j + separator() + parts.last() + separator() =~= (j + separator() + parts.last()) + separator());
    }
}

/// The message of a collection is the texts of its shown warnings, in the
/// order they were added, joined by `; `; there is none when no warning is
/// shown.
pub proof fn lemma_message_joins_shown_texts(ws: Seq<AnnounceWarning>)
    ensures
        warning_message(ws) == if shown_warning_texts(ws).len() == 0 {
            None
        } else {
            Some(joined(shown_warning_texts(ws)))
        },
{
    reveal_strlit("; ");
    assert(vstd::string::is_ascii("; "));
    assert(separator().len() == 2);
    lemma_shown_texts_terminated(ws);
    let parts = shown_warning_texts(ws);
    if parts.len() > 0 {
        lemma_terminated_joined(parts);
        let all = joined(parts) + separator();
        assert(all.subrange(0, all.len() - 2) =~= joined(parts));
    }
}

} // verus!
