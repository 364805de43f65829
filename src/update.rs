use vstd::prelude::*;
use crate::text::same_text;

verus! {

/// The locally installed version and the latest published one.
#[derive(Debug)]
pub struct VersionPair {
    pub local: String,
    pub latest: String,
}

impl VersionPair {
    pub open spec fn view(&self) -> (Seq<char>, Seq<char>) {
        (self.local@, self.latest@)
    }
}

/// A pair is worth a notice when both versions are known and they differ.
pub open spec fn actionable(local: Seq<char>, latest: Seq<char>) -> bool {
    local.len() > 0 && latest.len() > 0 && local != latest
}

/// What the background check hands over for a probe outcome: the pair when
/// the probe succeeded with an actionable pair, nothing otherwise.
pub open spec fn delivered(probe: Option<(Seq<char>, Seq<char>)>) -> Option<(Seq<char>, Seq<char>)> {
    match probe {
        Some(p) => if actionable(p.0, p.1) {
            Some(p)
        } else {
            None
        },
        None => None,
    }
}

/// Whether a probe outcome names two distinct, non-empty versions.
pub fn is_actionable(local: &str, latest: &str) -> (r: bool)
    ensures
        r == actionable(local@, latest@),
{
    local.unicode_len() > 0 && latest.unicode_len() > 0 && !same_text(local, latest)
}

/// The handoff between the background version check and the main flow, seen
/// from the main flow: whether the check has completed, and the pair that it
/// left in the single slot and that no poll has taken yet.
pub struct NotifierView {
    pub completed: bool,
    pub slot: Option<(Seq<char>, Seq<char>)>,
}

/// The state right after the check was started.
pub open spec fn started() -> NotifierView {
    NotifierView { completed: false, slot: None }
}

/// The state after the check completes with a probe outcome; a second
/// completion changes nothing.
pub open spec fn after_complete(
    s: NotifierView,
    probe: Option<(Seq<char>, Seq<char>)>,
) -> NotifierView {
    if s.completed {
        s
    } else {
        NotifierView { completed: true, slot: delivered(probe) }
    }
}

/// The state after a poll: the slot is emptied.
pub open spec fn after_poll(s: NotifierView) -> NotifierView {
    NotifierView { completed: s.completed, slot: None }
}

/// Well-formed states: nothing waits before completion, and only an
/// actionable pair ever waits.
pub open spec fn notifier_wf(s: NotifierView) -> bool {
    &&& (!s.completed ==> s.slot is None)
    &&& (s.slot matches Some(p) ==> actionable(p.0, p.1))
}

/// A probe outcome as plain character sequences.
pub open spec fn probe_view(probe: Option<(String, String)>) -> Option<(Seq<char>, Seq<char>)> {
    match probe {
        Some(p) => Some((p.0@, p.1@)),
        None => None,
    }
}

/// A polled pair as plain character sequences.
pub open spec fn pair_view(p: Option<VersionPair>) -> Option<(Seq<char>, Seq<char>)> {
    match p {
        Some(v) => Some(v@),
        None => None,
    }
}

/// Non-blocking receiving end of the background version check.
pub struct UpdateNotifier {
    completed: bool,
    slot: Option<VersionPair>,
}

impl UpdateNotifier {
    pub closed spec fn view(&self) -> NotifierView {
        NotifierView { completed: self.completed, slot: pair_view(self.slot) }
    }

    /// A handle for a check that has just been started.
    pub fn start() -> (r: UpdateNotifier)
        ensures
            r@ == started(),
            notifier_wf(r@),
    {
        UpdateNotifier { completed: false, slot: None }
    }

    /// Whether the background check has reported back.
    pub fn is_completed(&self) -> (r: bool)
        ensures
            r == self@.completed,
    {
        self.completed
    }

    /// Records the outcome of the background probe (`None` when it failed).
    /// Only an actionable pair is kept; only the first completion counts.
    pub fn complete(&mut self, probe: Option<(String, String)>)
        requires
            notifier_wf(old(self)@),
        ensures
            final(self)@ == after_complete(old(self)@, probe_view(probe)),
            notifier_wf(final(self)@),
    {
        if self.completed {
            return;
        }
        self.completed = true;
        match probe {
            Some((local, latest)) => {
                if is_actionable(local.as_str(), latest.as_str()) {
                    self.slot = Some(VersionPair { local, latest });
                } else {
                    self.slot = None;
                }
            },
            None => {
                self.slot = None;
            },
        }
    }

    /// Takes the waiting pair, if any; never waits.
    pub fn poll(&mut self) -> (r: Option<VersionPair>)
        requires
            notifier_wf(old(self)@),
        ensures
            pair_view(r) == old(self)@.slot,
            final(self)@ == after_poll(old(self)@),
            notifier_wf(final(self)@),
    {
        self.slot.take()
    }
}

/// The one-line notice that names both versions and where to upgrade.
pub open spec fn notice_text(local: Seq<char>, latest: Seq<char>) -> Seq<char> {
    "There's a newer version of wasm-pack available, the new version is: "@ + latest
        + ", you are using: "@ + local
        + ". To update, navigate to: https://rustwasm.github.io/wasm-pack/installer/"@
}

/// Builds the update notice for a pair.
pub fn update_notice(pair: &VersionPair) -> (r: String)
    ensures
        r@ == notice_text(pair.local@, pair.latest@),
{
    let s = String::from_str(
        "There's a newer version of wasm-pack available, the new version is: ",
    );
    let s = s.concat(pair.latest.as_str());
    let s = s.concat(", you are using: ");
    let s = s.concat(pair.local.as_str());
    s.concat(". To update, navigate to: https://rustwasm.github.io/wasm-pack/installer/")
}

} // verus!

verus! {

/// Before the check completes, a poll finds nothing. Once it completes with
/// two distinct non-empty versions, the first poll yields exactly that pair,
/// and every later poll or completion leaves nothing to yield.
pub proof fn lemma_poll_yields_pair_once(local: Seq<char>, latest: Seq<char>)
    requires
        actionable(local, latest),
    ensures
        started().slot is None,
        after_complete(started(), Some((local, latest))).slot == Some((local, latest)),
        after_poll(after_complete(started(), Some((local, latest)))).slot is None,
        silent(after_poll(after_complete(started(), Some((local, latest))))),
{
}

/// In any well-formed state before completion, a poll yields nothing and
/// changes nothing.
pub proof fn lemma_nothing_before_completion(s: NotifierView)
    requires
        notifier_wf(s),
        !s.completed,
    ensures
        s.slot is None,
        after_poll(s) == s,
{
}

/// A completed check with nothing waiting: it never yields again.
pub open spec fn silent(s: NotifierView) -> bool {
    s.completed && s.slot is None
}

/// Polls and completions keep a silent handoff silent.
pub proof fn lemma_silent_stays_silent(s: NotifierView, probe: Option<(Seq<char>, Seq<char>)>)
    requires
        silent(s),
    ensures
        after_poll(s).slot is None,
        silent(after_poll(s)),
        silent(after_complete(s, probe)),
{
}

/// When the probe fails, or its versions are equal or either is empty, the
/// completed check is silent: no poll ever yields a pair.
pub proof fn lemma_no_pair_without_update(probe: Option<(Seq<char>, Seq<char>)>)
    requires
        probe matches Some(p) ==> !actionable(p.0, p.1),
    ensures
        silent(after_complete(started(), probe)),
{
}

} // verus!
