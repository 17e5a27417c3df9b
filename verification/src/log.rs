//! The decisions behind routing `log` records into OBS's logging
//! subsystem: which records pass, at which OBS level, and the line that is
//! written.
//!
//! OBS exposes four log levels (`error`, `warning`, `info`, `debug`), and
//! the `debug` level is only emitted in debug builds of OBS. To make
//! lower-level Rust logs visible in production OBS builds, configure the
//! logger with [`Logger::with_promote_debug`] to forward `debug` and
//! `trace` records as `info`.

use vstd::prelude::*;
use vstd::string::StringExecFns;

verus! {

/// The verbosity of a log record, ordered from `Error` (least verbose) to
/// `Trace` (most verbose), as in the `log` crate.
#[derive(Debug, Clone, Copy, PartialEq, Eq, Structural)]
pub enum Level {
    Error,
    Warn,
    Info,
    Debug,
    Trace,
}

/// A maximum verbosity, from `Off` (nothing passes) to `Trace`
/// (everything passes), as in the `log` crate.
#[derive(Debug, Clone, Copy, PartialEq, Eq, Structural)]
pub enum LevelFilter {
    Off,
    Error,
    Warn,
    Info,
    Debug,
    Trace,
}

impl Level {
    /// The level's rank: `Error` is 1 and `Trace` is 5.
    pub open spec fn rank(self) -> int {
        match self {
            Level::Error => 1,
            Level::Warn => 2,
            Level::Info => 3,
            Level::Debug => 4,
            Level::Trace => 5,
        }
    }

    /// The level's rank: `Error` is 1 and `Trace` is 5.
    pub fn to_rank(self) -> (r: u8)
        ensures
            r == self.rank(),
    {
        match self {
            Level::Error => 1,
            Level::Warn => 2,
            Level::Info => 3,
            Level::Debug => 4,
            Level::Trace => 5,
        }
    }

    /// The upper-case name the `log` crate displays for the level.
    pub fn as_str(self) -> (r: &'static str)
        ensures
            r@ == self.spec_name(),
    {
        match self {
            Level::Error => "ERROR",
            Level::Warn => "WARN",
            Level::Info => "INFO",
            Level::Debug => "DEBUG",
            Level::Trace => "TRACE",
        }
    }

    /// The upper-case name the `log` crate displays for the level.
    pub open spec fn spec_name(self) -> Seq<char> {
        match self {
            Level::Error => "ERROR"@,
            Level::Warn => "WARN"@,
            Level::Info => "INFO"@,
            Level::Debug => "DEBUG"@,
            Level::Trace => "TRACE"@,
        }
    }
}

impl LevelFilter {
    /// The filter's rank: `Off` is 0 and `Trace` is 5.
    pub open spec fn rank(self) -> int {
        match self {
            LevelFilter::Off => 0,
            LevelFilter::Error => 1,
            LevelFilter::Warn => 2,
            LevelFilter::Info => 3,
            LevelFilter::Debug => 4,
            LevelFilter::Trace => 5,
        }
    }

    /// The filter's rank: `Off` is 0 and `Trace` is 5.
    pub fn to_rank(self) -> (r: u8)
        ensures
            r == self.rank(),
    {
        match self {
            LevelFilter::Off => 0,
            LevelFilter::Error => 1,
            LevelFilter::Warn => 2,
            LevelFilter::Info => 3,
            LevelFilter::Debug => 4,
            LevelFilter::Trace => 5,
        }
    }
}

/// libobs's `LOG_ERROR`.
pub const LOG_ERROR: i32 = 100;
/// libobs's `LOG_WARNING`.
pub const LOG_WARNING: i32 = 200;
/// libobs's `LOG_INFO`.
pub const LOG_INFO: i32 = 300;
/// libobs's `LOG_DEBUG`.
pub const LOG_DEBUG: i32 = 400;

/// The OBS level a record of `level` is logged at.
pub open spec fn spec_native_level(level: Level, promote_debug: bool) -> i32 {
    match level {
        Level::Error => LOG_ERROR,
        Level::Warn => LOG_WARNING,
        Level::Info => LOG_INFO,
        _ => if promote_debug {
            LOG_INFO
        } else {
            LOG_DEBUG
        },
    }
}

/// Maps a record level to the OBS level it is logged at. Debug and trace
/// records go to OBS's `debug` channel, or to `info` when `promote_debug`
/// is set (OBS only shows `debug` in its own debug builds).
pub fn to_native_level(level: Level, promote_debug: bool) -> (r: i32)
    ensures
        r == spec_native_level(level, promote_debug),
{
    match level {
        Level::Error => LOG_ERROR,
        Level::Warn => LOG_WARNING,
        Level::Info => LOG_INFO,
        _ => {
            if promote_debug {
                // Debug logs are only enabled in debug builds of OBS, make them accessible as
                // info if needed
                LOG_INFO
            } else {
                LOG_DEBUG
            }
        },
    }
}

/// A bridge from the `log` crate's records to OBS's logging subsystem.
///
/// Plugins are free to use any `log::Log` implementation, but routing
/// through OBS has the advantage that records are captured in the OBS
/// log file in addition to the console.
pub struct Logger {
    max_level: LevelFilter,
    promote_debug: bool,
}

impl Logger {
    /// The most verbose level that passes.
    pub closed spec fn spec_max_level(&self) -> LevelFilter {
        self.max_level
    }

    /// Whether debug and trace records are promoted to OBS's `info`.
    pub closed spec fn spec_promote_debug(&self) -> bool {
        self.promote_debug
    }

    /// Creates a new logger with [`LevelFilter::Trace`] as the maximum
    /// level and debug-log promotion disabled.
    pub fn new() -> (r: Self)
        ensures
            r.spec_max_level() == LevelFilter::Trace,
            !r.spec_promote_debug(),
    {
        Self::default()
    }

    /// Configures whether [`Level::Debug`] and [`Level::Trace`] records
    /// are forwarded to OBS's `info` channel.
    ///
    /// Useful when targeting release builds of OBS, which suppress the
    /// `debug` channel.
    pub fn with_promote_debug(self, promote_debug: bool) -> (r: Self)
        ensures
            r.spec_promote_debug() == promote_debug,
            r.spec_max_level() == self.spec_max_level(),
    {
        let mut this = self;
        this.promote_debug = promote_debug;
        this
    }

    /// Sets the maximum log level the logger will forward.
    pub fn with_max_level(self, max_level: LevelFilter) -> (r: Self)
        ensures
            r.spec_max_level() == max_level,
            r.spec_promote_debug() == self.spec_promote_debug(),
    {
        let mut this = self;
        this.max_level = max_level;
        this
    }

    /// The maximum level the logger forwards (what it installs as the
    /// `log` crate's global maximum).
    pub fn max_level(&self) -> (r: LevelFilter)
        ensures
            r == self.spec_max_level(),
    {
        self.max_level
    }

    /// Whether debug and trace records are promoted to OBS's `info`.
    pub fn promote_debug(&self) -> (r: bool)
        ensures
            r == self.spec_promote_debug(),
    {
        self.promote_debug
    }

    /// Whether a record of `level` passes the logger's maximum level.
    pub fn enabled(&self, level: Level) -> (r: bool)
        ensures
            r == (self.spec_max_level().rank() >= level.rank()),
    {
        self.max_level.to_rank() >= level.to_rank()
    }

    /// The line a record is written as: when debug promotion is on and the
    /// level is not `Trace`, the level's name in parentheses comes first;
    /// then the target in brackets, the message, and a terminating NUL.
    pub open spec fn spec_line(&self, level: Level, target: Seq<char>, message: Seq<char>) -> Seq<
        char,
    > {
        let body = "["@ + target + "] "@ + message + "\0"@;
        if self.spec_promote_debug() && level.rank() <= Level::Debug.rank() {
            "("@ + level.spec_name() + ") "@ + body
        } else {
            body
        }
    }

    /// The target a record is attributed to: its own target, or its module
    /// path when the target is empty (or nothing when both are missing).
    pub open spec fn spec_target(target: Seq<char>, module: Option<Seq<char>>) -> Seq<char> {
        if target.len() != 0 {
            target
        } else {
            match module {
                Some(p) => p,
                None => Seq::empty(),
            }
        }
    }

    /// What OBS is asked to log for a record: `None` when the record does
    /// not pass the maximum level, and otherwise the OBS level and the
    /// NUL-terminated line.
    pub fn render(&self, level: Level, target: &str, module: Option<&str>, message: &str) -> (r:
        Option<(i32, String)>)
        ensures
            match r {
                None => !(self.spec_max_level().rank() >= level.rank()),
                Some((native, line)) => {
                    &&& self.spec_max_level().rank() >= level.rank()
                    &&& native == spec_native_level(level, self.spec_promote_debug())
                    &&& line@ == self.spec_line(
                        level,
                        Self::spec_target(
                            target@,
                            match module {
                                Some(p) => Some(p@),
                                None => None,
                            },
                        ),
                        message@,
                    )
                },
            },
    {
        if !self.enabled(level) {
            return None;
        }
        let native_level = to_native_level(level, self.promote_debug);
        let tgt: &str = if !target.is_empty() {
            target
        } else {
            match module {
                Some(p) => p,
                None => "",
            }
        };
        proof {
            reveal_strlit("");
        }
        let mut line = String::new();
        if self.promote_debug && level.to_rank() <= 4 {
            line.append("(");
            line.append(level.as_str());
            line.append(") ");
        }
        line.append("[");
        line.append(tgt);
        line.append("] ");
        line.append(message);
        line.append("\0");
        proof {
            let body = "["@ + tgt@ + "] "@ + message@ + "\0"@;
            if self.promote_debug && level.rank() <= 4 {
                assert(line@ =~= "("@ + level.spec_name() + ") "@ + body);
            } else {
                assert(line@ =~= body);
            }
        }
        Some((native_level, line))
    }
}

impl Default for Logger {
    fn default() -> (r: Self)
        ensures
            r.spec_max_level() == LevelFilter::Trace,
            !r.spec_promote_debug(),
    {
        Logger { max_level: LevelFilter::Trace, promote_debug: false }
    }
}

/// Promotion only changes where debug and trace records go: error, warning
/// and info records are logged at the same OBS level either way, and with
/// promotion no record goes to OBS's `debug` channel.
pub proof fn lemma_promotion_only_moves_debug(level: Level)
    ensures
        level.rank() <= Level::Info.rank() ==> spec_native_level(level, true) == spec_native_level(
            level,
            false,
        ),
        spec_native_level(level, true) != LOG_DEBUG,
        level.rank() > Level::Info.rank() ==> spec_native_level(level, false) == LOG_DEBUG,
{
}

/// Lowering the maximum level never lets more records through.
pub proof fn lemma_enabled_monotone(a: LevelFilter, b: LevelFilter, level: Level)
    requires
        a.rank() <= b.rank(),
    ensures
        a.rank() >= level.rank() ==> b.rank() >= level.rank(),
{
}

/// The `log` crate's order: levels run from the most severe, `Error`, to
/// the most verbose, `Trace`; filters run from `Off` (nothing passes)
/// through `Error` to `Trace`; and the filter named after a level admits
/// exactly that level and the more severe ones.
pub proof fn lemma_level_order()
    ensures
        Level::Error.rank() < Level::Warn.rank() < Level::Info.rank() < Level::Debug.rank()
            < Level::Trace.rank(),
        LevelFilter::Off.rank() < LevelFilter::Error.rank() < LevelFilter::Warn.rank()
            < LevelFilter::Info.rank() < LevelFilter::Debug.rank() < LevelFilter::Trace.rank(),
        LevelFilter::Off.rank() < Level::Error.rank(),
        LevelFilter::Error.rank() == Level::Error.rank(),
        LevelFilter::Warn.rank() == Level::Warn.rank(),
        LevelFilter::Info.rank() == Level::Info.rank(),
        LevelFilter::Debug.rank() == Level::Debug.rank(),
        LevelFilter::Trace.rank() == Level::Trace.rank(),
{
}

/// A logger passes a record exactly when the record's level is the level
/// its maximum is named after or a more severe one; `Off` passes nothing
/// and `Trace` passes everything.
pub proof fn lemma_max_level_admits(logger: Logger, level: Level)
    ensures
        logger.spec_max_level() == LevelFilter::Off ==> !(logger.spec_max_level().rank()
            >= level.rank()),
        logger.spec_max_level() == LevelFilter::Trace ==> logger.spec_max_level().rank()
            >= level.rank(),
        logger.spec_max_level() == LevelFilter::Error ==> (logger.spec_max_level().rank()
            >= level.rank() <==> level == Level::Error),
        logger.spec_max_level() == LevelFilter::Warn ==> (logger.spec_max_level().rank()
            >= level.rank() <==> (level == Level::Error || level == Level::Warn)),
        logger.spec_max_level() == LevelFilter::Info ==> (logger.spec_max_level().rank()
            >= level.rank() <==> (level == Level::Error || level == Level::Warn || level
            == Level::Info)),
        logger.spec_max_level() == LevelFilter::Debug ==> (logger.spec_max_level().rank()
            >= level.rank() <==> level != Level::Trace),
{
}

/// OBS's numeric levels (`LOG_ERROR` 100, `LOG_WARNING` 200, `LOG_INFO`
/// 300, `LOG_DEBUG` 400) and where each record level goes: errors,
/// warnings and infos to their own level, debug and trace records to
/// `LOG_DEBUG`, or to `LOG_INFO` when promoted.
pub proof fn lemma_native_levels(promote: bool)
    ensures
        spec_native_level(Level::Error, promote) == 100,
        spec_native_level(Level::Warn, promote) == 200,
        spec_native_level(Level::Info, promote) == 300,
        spec_native_level(Level::Debug, promote) == if promote {
            300i32
        } else {
            400i32
        },
        spec_native_level(Level::Trace, promote) == if promote {
            300i32
        } else {
            400i32
        },
{
}

/// The names levels are written with in promoted lines, as the `log`
/// crate spells them.
pub proof fn lemma_level_names()
    ensures
        Level::Error.spec_name() == seq!['E', 'R', 'R', 'O', 'R'],
        Level::Warn.spec_name() == seq!['W', 'A', 'R', 'N'],
        Level::Info.spec_name() == seq!['I', 'N', 'F', 'O'],
        Level::Debug.spec_name() == seq!['D', 'E', 'B', 'U', 'G'],
        Level::Trace.spec_name() == seq!['T', 'R', 'A', 'C', 'E'],
{
    reveal_strlit("ERROR");
    reveal_strlit("WARN");
    reveal_strlit("INFO");
    reveal_strlit("DEBUG");
    reveal_strlit("TRACE");
}

/// The line a record is written as: without promotion, `[target] message`
/// and a NUL; with promotion, a debug or more severe record is prefixed by
/// its level's name in parentheses and a space, while a trace record is
/// not.
pub proof fn lemma_line_layout(logger: Logger, level: Level, target: Seq<char>, message: Seq<char>)
    ensures
        ({
            let body = seq!['['] + target + seq![']', ' '] + message + seq!['\0'];
            &&& (!logger.spec_promote_debug() || level == Level::Trace) ==> logger.spec_line(
                level,
                target,
                message,
            ) == body
            &&& (logger.spec_promote_debug() && level != Level::Trace) ==> logger.spec_line(
                level,
                target,
                message,
            ) == seq!['('] + level.spec_name() + seq![')', ' '] + body
        }),
{
    reveal_strlit("[");
    reveal_strlit("] ");
    reveal_strlit("\0");
    reveal_strlit("(");
    reveal_strlit(") ");
    let body = seq!['['] + target + seq![']', ' '] + message + seq!['\0'];
    assert("["@ + target + "] "@ + message + "\0"@ =~= body);
    assert("("@ + level.spec_name() + ") "@ + ("["@ + target + "] "@ + message + "\0"@) =~= seq![
        '(',
    ] + level.spec_name() + seq![')', ' '] + body);
}

} // verus!
