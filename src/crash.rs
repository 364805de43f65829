use vstd::prelude::*;

verus! {

/// What a crash report says about the tool.
#[derive(Debug)]
pub struct CrashMetadata {
    pub name: String,
    pub version: String,
    pub authors: String,
    pub homepage: String,
}

/// What one character of the build-time author list becomes in a report:
/// the `:` between two authors reads `, `.
pub open spec fn author_piece(c: char) -> Seq<char> {
    if c == ':' {
        ", "@
    } else {
        seq![c]
    }
}

/// The author list as a report shows it.
pub open spec fn authors_display(raw: Seq<char>) -> Seq<char>
    decreases raw.len(),
{
    if raw.len() == 0 {
        Seq::empty()
    } else {
        authors_display(raw.drop_last()) + author_piece(raw.last())
    }
}

/// Rewrites a colon-separated author list as a comma-separated one.
pub fn format_authors(raw: &str) -> (r: String)
    ensures
        r@ == authors_display(raw@),
{
    let n = raw.unicode_len();
    let mut out = String::new();
    let mut i: usize = 0;
    while i < n
        invariant
            n == raw@.len(),
            i <= n,
            out@ == authors_display(raw@.subrange(0, i as int)),
        decreases n - i,
    {
        let c = raw.get_char(i);
        proof {
            let next = raw@.subrange(0, i + 1);
            assert(next.drop_last() =~= raw@.subrange(0, i as int));
            assert(next.last() == c);
        }
        if c == ':' {
            out.append(", ");
        } else {
            out.append(raw.substring_char(i, i + 1));
            assert(raw@.subrange(i as int, i + 1) =~= seq![c]);
        }
        i = i + 1;
    }
    assert(raw@.subrange(0, n as int) =~= raw@);
    out
}

impl CrashMetadata {
    /// Metadata from the tool's build-time constants; `raw_authors` holds the
    /// authors separated by `:`.
    pub fn new(name: String, version: String, raw_authors: &str, homepage: String) -> (r: CrashMetadata)
        ensures
            r.name@ == name@,
            r.version@ == version@,
            r.authors@ == authors_display(raw_authors@),
            r.homepage@ == homepage@,
    {
        CrashMetadata { name, version, authors: format_authors(raw_authors), homepage }
    }
}

/// Which process-wide failure handler is in place.
#[derive(Clone, Copy, Debug, PartialEq, Eq, Structural)]
pub enum HandlerState {
    /// The default handler, with its raw diagnostics.
    DefaultHandler,
    /// The default handler followed by a human-readable report.
    AugmentedHandler,
}

/// The crash reporter's lifecycle: it starts with the default handler and
/// moves to the augmented one at most once, never back.
pub struct CrashReporter {
    state: HandlerState,
}

impl CrashReporter {
    pub closed spec fn view(&self) -> HandlerState {
        self.state
    }

    /// A reporter before installation.
    pub fn new() -> (r: CrashReporter)
        ensures
            r@ == HandlerState::DefaultHandler,
    {
        CrashReporter { state: HandlerState::DefaultHandler }
    }

    pub fn state(&self) -> (r: HandlerState)
        ensures
            r == self@,
    {
        self.state
    }

    /// Decides whether to register the augmented handler. It is registered
    /// when the default one is still in place and raw diagnostics were not
    /// requested; the result says whether to register it now.
    pub fn install(&mut self, raw_diagnostics_requested: bool) -> (r: bool)
        ensures
            r == (old(self)@ == HandlerState::DefaultHandler && !raw_diagnostics_requested),
            final(self)@ == (if r {
                HandlerState::AugmentedHandler
            } else {
                old(self)@
            }),
    {
        if self.state == HandlerState::DefaultHandler && !raw_diagnostics_requested {
            self.state = HandlerState::AugmentedHandler;
            true
        } else {
            false
        }
    }
}

} // verus!
