//! Handling the match/context events the search engine emits: each event's
//! line is forwarded to a printer — colorized for matches, plain for context
//! — and a broken pipe downstream stops the scan cleanly instead of failing
//! it.
use crate::print;
use crate::print::{Printer, StdoutPrinter};
use vstd::prelude::*;

verus! {

/// An error during the search process.
#[derive(Debug)]
pub enum Error {
    /// Printing to the printer failed with an I/O failure other than a
    /// broken pipe; holds that failure's message.
    PrintFailed(String),
    /// The search engine itself reported a failure; holds its message
    /// verbatim.
    SearchError(String),
}

/// The ANSI code that starts the highlight color for matched lines.
pub open spec fn highlight_code() -> Seq<char> {
    "\u{1b}[38;5;9m"@
}

/// The ANSI code that resets the foreground color.
pub open spec fn reset_code() -> Seq<char> {
    "\u{1b}[39m"@
}

/// Relies on termion's `LightRed::fg_str`: it returns the constant ANSI
/// foreground code for high-intensity red, `ESC` + `[38;5;9m`.
#[verifier::external_body]
fn light_red_fg() -> (r: &'static str)
    ensures
        r@ == highlight_code(),
{
    termion::color::LightRed.fg_str()
}

/// Relies on termion's `Reset::fg_str`: it returns the constant ANSI
/// foreground reset code `ESC` + `[39m`.
#[verifier::external_body]
fn reset_fg() -> (r: &'static str)
    ensures
        r@ == reset_code(),
{
    termion::color::Reset.fg_str()
}

/// The "continue scanning?" answer owed to the search engine for a print
/// outcome: success means continue; a broken pipe means stop, and is no
/// error — nothing more can be output, so nothing more need be scanned; any
/// other failure is a hard error.
pub open spec fn continue_decision(res: Result<(), print::Error>) -> Result<bool, Error> {
    match res {
        Ok(_) => Ok(true),
        Err(print::Error::BrokenPipe(_)) => Ok(false),
        Err(print::Error::Other(m)) => Err(Error::PrintFailed(m)),
    }
}

/// A sink for the search engine's events that prints every line it is
/// handed: matches colorized, context lines verbatim. The engine must run in
/// passthrough mode — delivering every line of the input as either a match
/// or a context event — or lines would be silently dropped; the event
/// handlers therefore demand it.
pub struct ContextPrintingSink<P: Printer> {
    /// The destination the events' lines are forwarded to.
    pub printer: P,
}

impl<P: Printer> ContextPrintingSink<P> {
    #[must_use]
    pub fn new(printer: P) -> (r: Self)
        ensures
            r.printer == printer,
    {
        ContextPrintingSink { printer }
    }

    /// Maps a print outcome to the engine's three-way protocol answer,
    /// exactly as [`continue_decision`] states it: success → continue, a
    /// broken pipe → stop without an error, any other failure → a hard
    /// error.
    pub fn get_sink_result_for_print_result(res: Result<(), print::Error>) -> (r: Result<
        bool,
        Error,
    >)
        ensures
            r == continue_decision(res),
    {
        match res {
            Err(print::Error::Other(m)) => Err(Error::PrintFailed(m)),
            Err(print::Error::BrokenPipe(_)) => Ok(false),
            Ok(_) => Ok(true),
        }
    }

    /// Handles one match event: prints the event's line colorized, the
    /// terminator outside the colored span. `Ok(true)` — the line was
    /// printed, scanning continues; `Ok(false)` — the downstream pipe is
    /// closed, the engine must stop, but no error is raised; `Err` — a hard
    /// print failure. On anything but `Ok(true)` the printer accepted
    /// nothing, so a closed pipe stops the output after exactly the lines
    /// already printed.
    pub fn matched(&mut self, passthru: bool, line: &str) -> (r: Result<bool, Error>)
        requires
            passthru,
        ensures
            r matches Ok(true) ==> final(self).printer.printed() == old(
                self,
            ).printer.printed().push(
                print::colorize_spec(highlight_code(), reset_code(), line@),
            ),
            (r matches Ok(false) || r matches Err(_)) ==> final(self).printer.printed() == old(
                self,
            ).printer.printed(),
            r matches Err(e) ==> e matches Error::PrintFailed(_),
    {
        let res = self.printer.colored_print(light_red_fg(), reset_fg(), line);
        Self::get_sink_result_for_print_result(res)
    }

    /// Handles one context event: prints the event's line verbatim, with the
    /// same three-way outcome as [`ContextPrintingSink::matched`].
    pub fn context(&mut self, passthru: bool, line: &str) -> (r: Result<bool, Error>)
        requires
            passthru,
        ensures
            r matches Ok(true) ==> final(self).printer.printed() == old(
                self,
            ).printer.printed().push(line@),
            (r matches Ok(false) || r matches Err(_)) ==> final(self).printer.printed() == old(
                self,
            ).printer.printed(),
            r matches Err(e) ==> e matches Error::PrintFailed(_),
    {
        let res = self.printer.print(line);
        Self::get_sink_result_for_print_result(res)
    }
}

impl Default for ContextPrintingSink<StdoutPrinter> {
    fn default() -> (r: Self)
        ensures
            r.printer.printed() == Seq::<Seq<char>>::empty(),
    {
        ContextPrintingSink { printer: StdoutPrinter::new() }
    }
}

} // verus!
