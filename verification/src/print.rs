//! Printing search results: a printer capability with plain and colorized
//! output, reporting broken-pipe failures distinctly from other I/O failures.
use crate::lines;
use std::io::Write;
use vstd::prelude::*;

verus! {

/// A print failure. A broken pipe — the downstream consumer closed its end —
/// is kept apart from every other I/O failure, because callers treat it as a
/// reason to stop cleanly rather than as an error. Each variant holds the
/// underlying I/O error's message.
#[derive(Debug)]
pub enum Error {
    BrokenPipe(String),
    Other(String),
}

/// What the colorizer emits for one line: an empty content produces only its
/// terminator, any other content is wrapped in the color-start and
/// color-reset codes, with the terminator outside the colored span.
pub open spec fn colorize_piece(
    start: Seq<char>,
    reset: Seq<char>,
    p: (Seq<char>, Option<Seq<char>>),
) -> Seq<char> {
    let term = match p.1 {
        Some(t) => t,
        None => Seq::<char>::empty(),
    };
    if p.0.len() == 0 {
        term
    } else {
        start + p.0 + reset + term
    }
}

/// The colorizer's output over a sequence of already-split lines.
pub open spec fn colorize_pairs(
    start: Seq<char>,
    reset: Seq<char>,
    pairs: Seq<(Seq<char>, Option<Seq<char>>)>,
) -> Seq<char>
    decreases pairs.len(),
{
    if pairs.len() == 0 {
        Seq::empty()
    } else {
        colorize_piece(start, reset, pairs[0]) + colorize_pairs(start, reset, pairs.drop_first())
    }
}

/// The colorized form of `s`: every line's content wrapped in
/// `start`/`reset`, terminators and empty lines left bare.
pub open spec fn colorize_spec(start: Seq<char>, reset: Seq<char>, s: Seq<char>) -> Seq<char> {
    colorize_pairs(start, reset, lines::line_split_spec(s))
}

/// Wraps each line of `msg` in the `start`/`reset` color codes, keeping
/// every terminator outside the colored span and leaving empty lines bare.
pub fn colorize(start: &str, reset: &str, msg: &str) -> (r: String)
    ensures
        r@ == colorize_spec(start@, reset@, msg@),
{
    let pairs = lines::line_split(msg);
    let ghost views = pairs@.map_values(|p: (String, Option<String>)| lines::pair_view(p));
    let mut out = String::new();
    proof {
        assert(views.skip(0) =~= views);
    }
    let n = pairs.len();
    let mut i: usize = 0;
    while i < n
        invariant
            i <= n,
            n == pairs@.len(),
            views == pairs@.map_values(|p: (String, Option<String>)| lines::pair_view(p)),
            colorize_pairs(start@, reset@, views) == out@ + colorize_pairs(
                start@,
                reset@,
                views.skip(i as int),
            ),
        decreases n - i,
    {
        proof {
            assert(views.skip(i as int).drop_first() =~= views.skip(i + 1));
            assert(views.skip(i as int)[0] == lines::pair_view(pairs@[i as int]));
        }
        let p = &pairs[i];
        if !p.0.as_str().is_empty() {
            out.append(start);
            out.append(p.0.as_str());
            out.append(reset);
        }
        match &p.1 {
            Some(t) => out.append(t.as_str()),
            None => (),
        }
        i += 1;
    }
    proof {
        assert(views.skip(n as int) =~= Seq::<(Seq<char>, Option<Seq<char>>)>::empty());
    }
    out
}

/// A destination that can print text: the process standard output, a test
/// double, or any future destination.
///
/// `printed()` is the history of the messages the printer has accepted so
/// far: a successful `print` appends exactly its message to it, and a failed
/// one leaves it unchanged.
pub trait Printer {
    /// The messages this printer has accepted so far, oldest first.
    /// Implementations override this model; the default stands only so that
    /// unverified destinations (test doubles, adapters) need not name it.
    open spec fn printed(&self) -> Seq<Seq<char>> {
        Seq::empty()
    }

    /// Prints `msg` verbatim. On failure the error says whether the
    /// destination reported a broken pipe or some other I/O failure, and no
    /// message is accepted.
    fn print(&mut self, msg: &str) -> (r: Result<(), Error>)
        ensures
            r matches Ok(_) ==> final(self).printed() == old(self).printed().push(msg@),
            r matches Err(_) ==> final(self).printed() == old(self).printed(),
    ;

    /// Prints `msg` with each line's content wrapped in the `start`/`reset`
    /// color codes: terminators are never colored, and empty lines produce
    /// only their terminator. Failure passes through from `print`, with no
    /// message accepted.
    fn colored_print(&mut self, start: &str, reset: &str, msg: &str) -> (r: Result<(), Error>)
        ensures
            r matches Ok(_) ==> final(self).printed() == old(self).printed().push(
                colorize_spec(start@, reset@, msg@),
            ),
            r matches Err(_) ==> final(self).printed() == old(self).printed(),
    {
        let colored = colorize(start, reset, msg);
        self.print(colored.as_str())
    }
}

/// A printer that writes to the process standard output.
pub struct StdoutPrinter {
    history: Ghost<Seq<Seq<char>>>,
}

/// Relies on std's `write!` to the process standard output: `Ok` means the
/// stream accepted the whole message; on failure, `std::io::Error::kind`
/// tells a broken pipe apart from every other failure, and `to_string`
/// carries the error's message into the returned variant.
#[verifier::external_body]
fn write_to_stdout(msg: &str) -> (r: Result<(), Error>) {
    let mut stdout = std::io::stdout();
    match write!(stdout, "{}", msg) {
        Ok(()) => Ok(()),
        Err(e) => match e.kind() {
            std::io::ErrorKind::BrokenPipe => Err(Error::BrokenPipe(e.to_string())),
            _ => Err(Error::Other(e.to_string())),
        },
    }
}

impl StdoutPrinter {
    #[must_use]
    pub fn new() -> (r: Self)
        ensures
            r.printed() == Seq::<Seq<char>>::empty(),
    {
        Self::default()
    }
}

impl Default for StdoutPrinter {
    fn default() -> (r: Self)
        ensures
            r.printed() == Seq::<Seq<char>>::empty(),
    {
        StdoutPrinter { history: Ghost(Seq::empty()) }
    }
}

impl Printer for StdoutPrinter {
    /// The messages written to standard output through this printer.
    closed spec fn printed(&self) -> Seq<Seq<char>> {
        self.history@
    }

    /// Hands the message to standard output and appends it to the history
    /// exactly when it was accepted.
    fn print(&mut self, msg: &str) -> (r: Result<(), Error>)
        ensures
            r matches Ok(_) ==> final(self).printed() == old(self).printed().push(msg@),
            r matches Err(_) ==> final(self).printed() == old(self).printed(),
    {
        match write_to_stdout(msg) {
            Ok(()) => {
                self.history = Ghost(self.history@.push(msg@));
                Ok(())
            },
            Err(e) => Err(e),
        }
    }
}

} // verus!
