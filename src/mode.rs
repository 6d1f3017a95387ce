use vstd::prelude::*;

verus! {

/// What one invocation of the daemon does.
#[derive(Clone, Copy, Debug, PartialEq, Eq, Structural)]
pub enum Mode {
    /// Run the sampling loop.
    Server,
    /// Print every stored row, one per line.
    Client,
    /// Print that the mode is not supported, and do no other work.
    Unsupported,
}

impl Mode {
    pub open spec fn parse_spec(text: Seq<char>) -> Mode {
        if text == "server"@ {
            Mode::Server
        } else if text == "client"@ {
            Mode::Client
        } else {
            Mode::Unsupported
        }
    }

    /// The mode that the mode flag names; any text but `server` and
    /// `client` is unsupported.
    pub fn parse(text: &str) -> (r: Mode)
        ensures
            r == Self::parse_spec(text@),
    {
        if same_text(text, "server") {
            Mode::Server
        } else if same_text(text, "client") {
            Mode::Client
        } else {
            Mode::Unsupported
        }
    }

    /// Whether the invocation runs the measurement tool and writes to the
    /// store.
    pub fn samples(&self) -> (r: bool)
        ensures
            r <==> *self == Mode::Server,
    {
        match self {
            Mode::Server => true,
            _ => false,
        }
    }

    /// Whether the invocation reads the stored rows back.
    pub fn reads_back(&self) -> (r: bool)
        ensures
            r <==> *self == Mode::Client,
    {
        match self {
            Mode::Client => true,
            _ => false,
        }
    }
}

/// Whether two texts hold the same characters.
pub fn same_text(a: &str, b: &str) -> (r: bool)
    ensures
        r == (a@ == b@),
{
    let n = a.unicode_len();
    if n != b.unicode_len() {
        return false;
    }
    let mut i: usize = 0;
    while i < n
        invariant
            n == a@.len(),
            n == b@.len(),
            i <= n,
            forall|k: int| 0 <= k < i ==> a@[k] == b@[k],
        decreases n - i,
    {
        if a.get_char(i) != b.get_char(i) {
            return false;
        }
        i = i + 1;
    }
    proof {
        assert(a@ =~= b@);
    }
    true
}

/// Any mode text other than `server` and `client` selects neither the
/// sampling loop nor the read-back: no tool run and no store write.
pub proof fn lemma_other_mode_does_nothing(text: Seq<char>)
    requires
        text != "server"@,
        text != "client"@,
    ensures
        Mode::parse_spec(text) == Mode::Unsupported,
        Mode::parse_spec(text) != Mode::Server,
        Mode::parse_spec(text) != Mode::Client,
{
}

} // verus!
