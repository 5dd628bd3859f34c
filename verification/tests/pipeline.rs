use grep::searcher::{Searcher, SearcherBuilder, Sink, SinkContext, SinkError, SinkMatch};
use hline::print::{Error as PrintError, Printer};
use hline::sink::{ContextPrintingSink, Error as SinkLibError};
use std::io::Cursor;

const SEARCH_TEXT: &str = "The \"computable\" numbers may be described briefly as the real \n\
    numbers whose expressions as a decimal are calculable by finite means. \n\
    Although the subject of this paper is ostensibly the computable numbers. \n\
    it is almost equally easy to define and investigate computable functions \n\
    of an integral variable or a real or computable variable, computable \n\
    predicates, and so forth. The fundamental problems involved are, \n\
    however, the same in each case, and I have chosen the computable numbers \n\
    for explicit treatment as involving the least cumbrous technique. I hope \n\
    shortly to give an account of the relations of the computable numbers, \n\
    functions, and so forth to one another. This will include a development \n\
    of the theory of functions of a real variable expressed in terms of \n\
    computable numbers. According to my definition, a number is computable \n\
    if its decimal can be written down by a machine.\n";

/// A printer double that records every message; `fail_next` makes the very
/// next print attempt fail with the given error (the attempt is still
/// recorded, as a real destination may have been reached).
#[derive(Default)]
struct MockPrinter {
    messages: Vec<String>,
    colored_messages: Vec<String>,
    next_error: Option<PrintError>,
}

impl MockPrinter {
    fn fail_next(&mut self, error: PrintError) {
        self.next_error = Some(error);
    }
}

impl Printer for MockPrinter {
    fn print(&mut self, msg: &str) -> Result<(), PrintError> {
        self.messages.push(msg.to_string());
        match self.next_error.take() {
            Some(e) => Err(e),
            None => Ok(()),
        }
    }

    fn colored_print(&mut self, _start: &str, _reset: &str, msg: &str) -> Result<(), PrintError> {
        self.colored_messages.push(msg.to_string());
        match self.next_error.take() {
            Some(e) => Err(e),
            None => Ok(()),
        }
    }
}

/// The engine-facing adapter: forwards the engine's match/context events to
/// the library's sink, enforcing that the searcher runs in passthrough mode.
struct EngineSink<P: Printer> {
    sink: ContextPrintingSink<P>,
}

enum EngineError {
    Sink(SinkLibError),
    Engine(String),
}

impl std::fmt::Debug for EngineError {
    fn fmt(&self, f: &mut std::fmt::Formatter<'_>) -> std::fmt::Result {
        match self {
            EngineError::Sink(SinkLibError::PrintFailed(m)) => {
                f.write_str(&format!("print failed: {}", m))
            }
            EngineError::Sink(SinkLibError::SearchError(m)) => {
                f.write_str(&format!("search error: {}", m))
            }
            EngineError::Engine(m) => f.write_str(&format!("engine error: {}", m)),
        }
    }
}

impl SinkError for EngineError {
    fn error_message<T: std::fmt::Display>(message: T) -> Self {
        EngineError::Engine(message.to_string())
    }
}

impl<P: Printer> Sink for EngineSink<P> {
    type Error = EngineError;

    fn matched(&mut self, searcher: &Searcher, mat: &SinkMatch<'_>) -> Result<bool, EngineError> {
        if !searcher.passthru() {
            panic!("passthru is not enabled on the given searcher");
        }
        let line = std::str::from_utf8(mat.bytes()).unwrap();
        self.sink.matched(true, line).map_err(EngineError::Sink)
    }

    fn context(
        &mut self,
        searcher: &Searcher,
        context: &SinkContext<'_>,
    ) -> Result<bool, EngineError> {
        if !searcher.passthru() {
            panic!("passthru is not enabled on the given searcher");
        }
        let line = std::str::from_utf8(context.bytes()).unwrap();
        self.sink.context(true, line).map_err(EngineError::Sink)
    }
}

/// Scans `text` for `pattern`, forwarding every line to the given printer.
fn scan_to_printer(
    printer: MockPrinter,
    text: &str,
    pattern: &str,
) -> (MockPrinter, Result<(), EngineError>) {
    let matcher = hline::compile_pattern(pattern).expect("pattern failed to compile");
    let mut searcher = SearcherBuilder::new().passthru(true).build();
    let mut engine_sink = EngineSink {
        sink: ContextPrintingSink::new(printer),
    };
    let res = searcher.search_reader(matcher, Cursor::new(text), &mut engine_sink);
    (engine_sink.sink.printer, res)
}

#[test]
fn test_highlights_matches() {
    let (printer, res) = scan_to_printer(
        MockPrinter::default(),
        SEARCH_TEXT,
        r#""?computable"?\snumbers"#,
    );
    if let Err(err) = res {
        panic!("failed to search: {:?}", err)
    }

    let expected_colored_messages = [
        "The \"computable\" numbers may be described briefly as the real \n".to_string(),
        "Although the subject of this paper is ostensibly the computable numbers. \n".to_string(),
        "however, the same in each case, and I have chosen the computable numbers \n".to_string(),
        "shortly to give an account of the relations of the computable numbers, \n".to_string(),
        "computable numbers. According to my definition, a number is computable \n".to_string(),
    ];
    assert_eq!(printer.colored_messages, expected_colored_messages);

    let expected_uncolored_messages = [
        "numbers whose expressions as a decimal are calculable by finite means. \n".to_string(),
        "it is almost equally easy to define and investigate computable functions \n".to_string(),
        "of an integral variable or a real or computable variable, computable \n".to_string(),
        "predicates, and so forth. The fundamental problems involved are, \n".to_string(),
        "for explicit treatment as involving the least cumbrous technique. I hope \n".to_string(),
        "functions, and so forth to one another. This will include a development \n".to_string(),
        "of the theory of functions of a real variable expressed in terms of \n".to_string(),
        "if its decimal can be written down by a machine.\n".to_string(),
    ];
    assert_eq!(printer.messages, expected_uncolored_messages);
}

#[test]
fn case_insensitive_pattern_matches() {
    let (printer, res) = scan_to_printer(MockPrinter::default(), SEARCH_TEXT, "(?i)INTEGRAL");
    if let Err(err) = res {
        panic!("failed to search: {:?}", err)
    }

    let expected_colored_messages =
        ["of an integral variable or a real or computable variable, computable \n".to_string()];
    assert_eq!(printer.colored_messages, expected_colored_messages);

    // Again, the only missing message is the previous
    let expected_uncolored_messages = [
        "The \"computable\" numbers may be described briefly as the real \n".to_string(),
        "numbers whose expressions as a decimal are calculable by finite means. \n".to_string(),
        "Although the subject of this paper is ostensibly the computable numbers. \n".to_string(),
        "it is almost equally easy to define and investigate computable functions \n".to_string(),
        "predicates, and so forth. The fundamental problems involved are, \n".to_string(),
        "however, the same in each case, and I have chosen the computable numbers \n".to_string(),
        "for explicit treatment as involving the least cumbrous technique. I hope \n".to_string(),
        "shortly to give an account of the relations of the computable numbers, \n".to_string(),
        "functions, and so forth to one another. This will include a development \n".to_string(),
        "of the theory of functions of a real variable expressed in terms of \n".to_string(),
        "computable numbers. According to my definition, a number is computable \n".to_string(),
        "if its decimal can be written down by a machine.\n".to_string(),
    ];
    assert_eq!(printer.messages, expected_uncolored_messages);
}

#[test]
fn pass_through_completeness() {
    let (printer, res) = scan_to_printer(MockPrinter::default(), "alpha\nbeta\ngamma\n", "beta");
    assert!(res.is_ok());

    // all three lines accounted for: one match, two context lines, none
    // duplicated or dropped
    assert_eq!(printer.colored_messages, vec!["beta\n".to_string()]);
    assert_eq!(
        printer.messages,
        vec!["alpha\n".to_string(), "gamma\n".to_string()]
    );
}

#[test]
fn test_does_not_attempt_to_print_after_broken_pipe_error_on_first_match() {
    let mut mock_printer = MockPrinter::default();
    mock_printer.fail_next(PrintError::BrokenPipe("broken pipe".to_string()));
    let (printer, res) = scan_to_printer(mock_printer, SEARCH_TEXT, ".");

    assert!(res.is_ok(), "failed to search");
    assert_eq!(1, printer.colored_messages.len());
    assert_eq!(0, printer.messages.len());
}

#[test]
fn test_does_not_attempt_to_print_after_broken_pipe_error_never_matching() {
    let mut mock_printer = MockPrinter::default();
    mock_printer.fail_next(PrintError::BrokenPipe("broken pipe".to_string()));
    let (printer, res) = scan_to_printer(mock_printer, SEARCH_TEXT, "hello I am alan turing");

    assert!(res.is_ok(), "failed to search");
    assert_eq!(0, printer.colored_messages.len());
    assert_eq!(1, printer.messages.len());
}

/// A printer that succeeds once and reports a broken pipe on its second
/// invocation.
#[derive(Default)]
struct BreaksOnSecondPrint {
    successes: usize,
    attempts: usize,
}

impl Printer for BreaksOnSecondPrint {
    fn print(&mut self, _msg: &str) -> Result<(), PrintError> {
        self.attempts += 1;
        if self.attempts >= 2 {
            Err(PrintError::BrokenPipe("broken pipe".to_string()))
        } else {
            self.successes += 1;
            Ok(())
        }
    }
}

#[test]
fn broken_pipe_short_circuits_after_exactly_one_line() {
    let mut sink = ContextPrintingSink::new(BreaksOnSecondPrint::default());

    // first matching line prints and scanning continues
    assert_eq!(sink.matched(true, "one\n").unwrap(), true);
    // the second hits the closed pipe: stop scanning, but raise no error
    assert_eq!(sink.matched(true, "two\n").unwrap(), false);

    assert_eq!(sink.printer.successes, 1);
}

#[test]
fn other_print_failures_are_hard_errors() {
    let mut mock_printer = MockPrinter::default();
    mock_printer.fail_next(PrintError::Other("disk full".to_string()));
    let mut sink = ContextPrintingSink::new(mock_printer);

    let res = sink.context(true, "line\n");
    assert!(matches!(res, Err(SinkLibError::PrintFailed(_))));
}

/// A printer double that does not override `colored_print`, so a match goes
/// through the real colorizer with the real terminal codes.
#[derive(Default)]
struct PlainRecorder {
    messages: Vec<String>,
}

impl Printer for PlainRecorder {
    fn print(&mut self, msg: &str) -> Result<(), PrintError> {
        self.messages.push(msg.to_string());
        Ok(())
    }
}

#[test]
fn matches_are_highlighted_in_light_red() {
    let mut sink = ContextPrintingSink::new(PlainRecorder::default());
    assert_eq!(sink.matched(true, "hit\n").unwrap(), true);
    assert_eq!(
        sink.printer.messages,
        vec!["\u{1b}[38;5;9mhit\u{1b}[39m\n".to_string()]
    );
}

#[test]
fn invalid_patterns_are_rejected_as_regex_errors() {
    let res = hline::compile_pattern("(unclosed");
    assert!(matches!(res, Err(hline::Error::RegexError(_))));
}

#[test]
fn case_insensitivity_rewrites_the_pattern() {
    assert_eq!(hline::make_pattern_case_insensitive("INTEGRAL"), "(?i)INTEGRAL");
}

#[test]
fn print_outcomes_map_to_the_three_way_protocol_answer() {
    type Sink = ContextPrintingSink<MockPrinter>;

    // success: keep scanning
    assert!(matches!(
        Sink::get_sink_result_for_print_result(Ok(())),
        Ok(true)
    ));
    // broken pipe: stop scanning, no error
    assert!(matches!(
        Sink::get_sink_result_for_print_result(Err(PrintError::BrokenPipe("gone".to_string()))),
        Ok(false)
    ));
    // anything else: a hard error carrying the failure's message
    assert!(matches!(
        Sink::get_sink_result_for_print_result(Err(PrintError::Other("disk full".to_string()))),
        Err(SinkLibError::PrintFailed(m)) if m == "disk full"
    ));
}

#[test]
fn scan_error_messages_name_what_failed() {
    assert_eq!(
        hline::Error::RegexError("bad pattern".to_string()).message(),
        "bad pattern"
    );
    assert_eq!(
        hline::Error::SearchError("engine says no".to_string()).message(),
        "Search process encountered a failure: engine says no"
    );
    assert_eq!(
        hline::Error::PrintFailure("pipe burst".to_string()).message(),
        "Print failure: pipe burst"
    );
}

#[test]
fn sink_errors_lift_into_scan_errors() {
    let search = hline::Error::from(SinkLibError::SearchError("engine says no".to_string()));
    assert!(matches!(search, hline::Error::SearchError(m) if m == "engine says no"));

    let print = hline::Error::from(SinkLibError::PrintFailed("pipe burst".to_string()));
    assert!(matches!(print, hline::Error::PrintFailure(m) if m == "pipe burst"));
}
