//! The logger: a builder-style configuration, leveled colorized emission
//! on the error stream, and a capture combinator for fallible results.

use crate::decimal::{decimal_seq, u32_decimal};
use crate::level::{level_from_code, level_of_code, LogLevel};
use std::io::Write;
use vstd::prelude::*;
use vstd::string::StringExecFns;

verus! {

/// Configuration of a `Logger`: whether emitted lines carry the call
/// site's file identifier, whether they carry its line number, and the
/// inclusive minimum severity below which nothing is emitted.
#[derive(Clone, Copy, Debug, PartialEq, Eq, Structural)]
pub struct LoggerConfig {
    pub file_name: bool,
    pub lines: bool,
    pub log_level: LogLevel,
}

/// The configuration a fresh `LoggerConfig` carries: both location
/// segments shown, minimum severity `Warning`.
pub open spec fn default_config() -> LoggerConfig {
    LoggerConfig { file_name: true, lines: true, log_level: LogLevel::Warning }
}

impl LoggerConfig {
    /// Finalizes this configuration into a `Logger`.
    pub fn build(self) -> (r: Logger)
        ensures
            r.0 == self,
    {
        Logger::from_config(self)
    }

    /// Sets whether emitted lines carry the call site's file identifier;
    /// returns the updated configuration for chaining.
    pub fn enable_file_name(self, file_name: bool) -> (r: Self)
        ensures
            r == (LoggerConfig { file_name, ..self }),
    {
        LoggerConfig { file_name, ..self }
    }

    /// Sets whether emitted lines carry the call site's line number;
    /// returns the updated configuration for chaining.
    pub fn enable_lines(self, lines: bool) -> (r: Self)
        ensures
            r == (LoggerConfig { lines, ..self }),
    {
        LoggerConfig { lines, ..self }
    }

    /// Sets the minimum severity from an integer code (0 through 4 in rank
    /// order; any other code falls back to `Warning`); returns the updated
    /// configuration for chaining.
    pub fn set_log_level(self, level: u8) -> (r: Self)
        ensures
            r == (LoggerConfig { log_level: level_of_code(level), ..self }),
    {
        LoggerConfig { log_level: level_from_code(level), ..self }
    }
}

impl Default for LoggerConfig {
    /// A fresh configuration: both location segments shown, minimum
    /// severity `Warning`.
    fn default() -> (r: Self)
        ensures
            r == default_config(),
    {
        LoggerConfig { file_name: true, lines: true, log_level: LogLevel::Warning }
    }
}

/// A console logger: a resolved configuration and one emission method per
/// severity. Emission is a direct, synchronous write to the error stream;
/// what is written depends only on the configuration, the call's severity,
/// the call site handed in, and the message.
#[derive(Clone, Copy, Debug)]
pub struct Logger(pub LoggerConfig);

/// Whether a message of severity `lvl` is emitted under configuration
/// `cfg`: exactly when its severity is at least the configured minimum.
pub open spec fn emits(cfg: LoggerConfig, lvl: LogLevel) -> bool {
    cfg.log_level.severity() <= lvl.severity()
}

/// The colored severity label that opens an emitted line.
pub open spec fn label_seq(lvl: LogLevel) -> Seq<char> {
    match lvl {
        LogLevel::Debug => "\x1b[35mDEBUG: "@,
        LogLevel::Info => "\x1b[36mLOG: "@,
        LogLevel::Warning => "\x1b[33mWARNING: "@,
        LogLevel::Error => "\x1b[31mERROR: "@,
        LogLevel::Panic => "\x1b[31m\x1b[0m\x1b[41mPANIC\x1b[0m: "@,
    }
}

/// The call-site file segment: an opening bracket and the file identifier,
/// or nothing when the file identifier is switched off.
pub open spec fn file_part(cfg: LoggerConfig, file: Seq<char>) -> Seq<char> {
    if cfg.file_name {
        "\x1b[34m["@ + file + " "@
    } else {
        Seq::<char>::empty()
    }
}

/// The call-site line segment, which closes the bracket; when the file
/// segment stands without line numbers, the bracket is still closed.
pub open spec fn lines_part(cfg: LoggerConfig, line: nat) -> Seq<char> {
    if cfg.lines {
        "\x1b[34mlines: "@ + decimal_seq(line) + "] "@
    } else if cfg.file_name {
        "] "@
    } else {
        Seq::<char>::empty()
    }
}

/// The full text of one emitted line (the trailing newline is added at the
/// write): severity label, optional call-site segments, a reset to the
/// default color, then the message.
pub open spec fn line_seq(
    cfg: LoggerConfig,
    lvl: LogLevel,
    file: Seq<char>,
    line: nat,
    msg: Seq<char>,
) -> Seq<char> {
    label_seq(lvl) + file_part(cfg, file) + lines_part(cfg, line) + "\x1b[0m"@ + msg
}

/// The literal label for a severity.
fn label_str(lvl: LogLevel) -> (r: &'static str)
    ensures
        r@ == label_seq(lvl),
{
    match lvl {
        LogLevel::Debug => "\x1b[35mDEBUG: ",
        LogLevel::Info => "\x1b[36mLOG: ",
        LogLevel::Warning => "\x1b[33mWARNING: ",
        LogLevel::Error => "\x1b[31mERROR: ",
        LogLevel::Panic => "\x1b[31m\x1b[0m\x1b[41mPANIC\x1b[0m: ",
    }
}

/// Relies on `std::io::Write::write_fmt`, through `writeln` on
/// `std::io::stderr`: writes `text` and a trailing newline to the error
/// stream. A failed write is ignored: a broken error stream has no
/// recovery path here.
#[verifier::external_body]
fn write_stderr_line(text: &str) {
    let _ = writeln!(std::io::stderr(), "{}", text);
}

impl Logger {
    /// Wraps a finished configuration.
    fn from_config(config: LoggerConfig) -> (r: Self)
        ensures
            r.0 == config,
    {
        Logger(config)
    }

    /// A fresh configuration to build a logger from.
    pub fn config() -> (r: LoggerConfig)
        ensures
            r == default_config(),
    {
        LoggerConfig::default()
    }

    /// Sets in place whether emitted lines carry the file identifier.
    pub fn enable_file_name(&mut self, file_name: bool)
        ensures
            final(self).0 == (LoggerConfig { file_name, ..old(self).0 }),
    {
        self.0.file_name = file_name;
    }

    /// Sets in place whether emitted lines carry the line number.
    pub fn enable_lines(&mut self, lines: bool)
        ensures
            final(self).0 == (LoggerConfig { lines, ..old(self).0 }),
    {
        self.0.lines = lines;
    }

    /// Sets the minimum severity in place, from an integer code under the
    /// same mapping and fallback as `LoggerConfig::set_log_level`.
    pub fn level(&mut self, level: u8)
        ensures
            final(self).0 == (LoggerConfig { log_level: level_of_code(level), ..old(self).0 }),
    {
        self.0.log_level = level_from_code(level);
    }

    /// Renders the line that `emit` would write: `Some` exactly when the
    /// severity passes the configured minimum, and then the full line text.
    pub fn render_line(&self, lvl: LogLevel, file: &str, line: u32, msg: &str) -> (r: Option<
        String,
    >)
        ensures
            r is Some <==> emits(self.0, lvl),
            r matches Some(s) ==> s@ == line_seq(self.0, lvl, file@, line as nat, msg@),
    {
        if self.0.log_level.rank() <= lvl.rank() {
            let mut out = label_str(lvl).to_owned();
            if self.0.file_name {
                out.append("\x1b[34m[");
                out.append(file);
                out.append(" ");
            }
            if self.0.lines {
                out.append("\x1b[34mlines: ");
                let num = u32_decimal(line);
                out.append(num.as_str());
                out.append("] ");
            } else if self.0.file_name {
                out.append("] ");
            }
            out.append("\x1b[0m");
            out.append(msg);
            proof {
                assert(out@ =~= line_seq(self.0, lvl, file@, line as nat, msg@));
            }
            Some(out)
        } else {
            None
        }
    }

    /// Writes one line to the error stream when `lvl` passes the configured
    /// minimum, and does nothing otherwise. `file` and `line` identify the
    /// call site of the emission call.
    pub fn emit(&self, lvl: LogLevel, file: &str, line: u32, msg: &str) {
        match self.render_line(lvl, file, line, msg) {
            Some(text) => write_stderr_line(text.as_str()),
            None => (),
        }
    }

    /// Emits `msg` at `Debug` severity.
    pub fn debug(&self, file: &str, line: u32, msg: &str) {
        self.emit(LogLevel::Debug, file, line, msg)
    }

    /// Emits `msg` at `Info` severity.
    pub fn info(&self, file: &str, line: u32, msg: &str) {
        self.emit(LogLevel::Info, file, line, msg)
    }

    /// Emits `msg` at `Warning` severity.
    pub fn warning(&self, file: &str, line: u32, msg: &str) {
        self.emit(LogLevel::Warning, file, line, msg)
    }

    /// Emits `msg` at `Error` severity.
    pub fn error(&self, file: &str, line: u32, msg: &str) {
        self.emit(LogLevel::Error, file, line, msg)
    }

    /// Emits `msg` at `Panic` severity.
    pub fn panic(&self, file: &str, line: u32, msg: &str) {
        self.emit(LogLevel::Panic, file, line, msg)
    }
}

impl Default for Logger {
    /// A logger with the same defaults as `LoggerConfig::default`.
    fn default() -> (r: Self)
        ensures
            r.0 == default_config(),
    {
        Logger(LoggerConfig::default())
    }
}

/// A default configuration taken through its three setters with the
/// default values — file identifier on, line numbers on, the code that
/// selects `Warning` — is the default configuration again, so a logger
/// built from either emits the same lines.
pub proof fn lemma_default_untouched_by_noop_setters(
    c0: LoggerConfig,
    c1: LoggerConfig,
    c2: LoggerConfig,
    c3: LoggerConfig,
)
    requires
        c0 == default_config(),
        c1 == (LoggerConfig { file_name: true, ..c0 }),
        c2 == (LoggerConfig { lines: true, ..c1 }),
        c3 == (LoggerConfig { log_level: level_of_code(2), ..c2 }),
    ensures
        c3 == c0,
{
}

/// With the file identifier switched off, the emitted line does not depend
/// on the file identifier at all, and holds no file segment: only the
/// label, the line segment, the color reset, and the message remain.
pub proof fn lemma_file_segment_removed(
    cfg: LoggerConfig,
    lvl: LogLevel,
    f1: Seq<char>,
    f2: Seq<char>,
    line: nat,
    msg: Seq<char>,
)
    requires
        !cfg.file_name,
    ensures
        line_seq(cfg, lvl, f1, line, msg) == line_seq(cfg, lvl, f2, line, msg),
        line_seq(cfg, lvl, f1, line, msg) == label_seq(lvl) + lines_part(cfg, line) + "\x1b[0m"@
            + msg,
{
    assert(line_seq(cfg, lvl, f1, line, msg) =~= line_seq(cfg, lvl, f2, line, msg));
    assert(line_seq(cfg, lvl, f1, line, msg) =~= label_seq(lvl) + lines_part(cfg, line)
        + "\x1b[0m"@ + msg);
}

/// With line numbers switched off, the emitted line does not depend on the
/// line number at all: the line segment is gone, independently of whether
/// the file segment is shown.
pub proof fn lemma_lines_segment_removed(
    cfg: LoggerConfig,
    lvl: LogLevel,
    file: Seq<char>,
    n1: nat,
    n2: nat,
    msg: Seq<char>,
)
    requires
        !cfg.lines,
    ensures
        line_seq(cfg, lvl, file, n1, msg) == line_seq(cfg, lvl, file, n2, msg),
{
    assert(line_seq(cfg, lvl, file, n1, msg) =~= line_seq(cfg, lvl, file, n2, msg));
}

/// Whatever the configuration, an emitted line opens with the severity
/// label and closes with the message, unchanged.
pub proof fn lemma_label_and_message_intact(
    cfg: LoggerConfig,
    lvl: LogLevel,
    file: Seq<char>,
    line: nat,
    msg: Seq<char>,
)
    ensures
        line_seq(cfg, lvl, file, line, msg).len() >= label_seq(lvl).len() + msg.len(),
        line_seq(cfg, lvl, file, line, msg).subrange(0, label_seq(lvl).len() as int) == label_seq(
            lvl,
        ),
        line_seq(cfg, lvl, file, line, msg).subrange(
            line_seq(cfg, lvl, file, line, msg).len() - msg.len(),
            line_seq(cfg, lvl, file, line, msg).len() as int,
        ) == msg,
{
    let l = line_seq(cfg, lvl, file, line, msg);
    assert(l.subrange(0, label_seq(lvl).len() as int) =~= label_seq(lvl));
    assert(l.subrange(l.len() - msg.len(), l.len() as int) =~= msg);
}

/// Observation of the error of a fallible result, without altering it.
pub trait CaptureExt: Sized {
    /// Logs the error payload as a side effect, then hands the result back
    /// unchanged; `file` and `line` identify the call site.
    fn capture(self, logger: Logger, file: &str, line: u32) -> (r: Self)
        ensures
            r == self,
    ;
}

impl<T, E: core::fmt::Display> CaptureExt for Result<T, E> {
    /// On an error, logs the error's text representation at `Info`
    /// severity; in every case the result passes through unchanged.
    fn capture(self, logger: Logger, file: &str, line: u32) -> (r: Self) {
        match &self {
            Ok(_) => (),
            Err(e) => {
                let text = e.to_string();
                logger.info(file, line, text.as_str());
            },
        }
        self
    }
}

} // verus!
