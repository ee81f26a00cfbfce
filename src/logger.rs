use vstd::prelude::*;

use crate::log_level::LogLevel;
use vstd::string::StringExecFns;

verus! {

/// The text of an optional string.
pub open spec fn text_of(s: Option<&str>) -> Option<Seq<char>> {
    match s {
        Some(t) => Some(t@),
        None => None,
    }
}

/// A diagnostic line: `[LEVEL] [hw]::[operation] `, then `[context] ` and `[timestamp]` when
/// present, then `: message`; wrapped in the level's colour and the reset sequence when colours
/// are on.
pub open spec fn log_line(
    level: LogLevel,
    hw: Seq<char>,
    operation: Seq<char>,
    ctx: Option<Seq<char>>,
    timestamp: Option<Seq<char>>,
    message: Seq<char>,
    use_colors: bool,
) -> Seq<char> {
    let head = if use_colors { level.color() } else { Seq::empty() };
    let tags = "["@ + level.name() + "] ["@ + hw + "]::["@ + operation + "] "@;
    let context = match ctx {
        Some(c) => "["@ + c + "] "@,
        None => Seq::empty(),
    };
    let time = match timestamp {
        Some(t) => "["@ + t + "]"@,
        None => Seq::empty(),
    };
    let tail = if use_colors { LogLevel::ANSI_RESET@ } else { Seq::empty() };
    head + tags + context + time + ": "@ + message + tail
}

/// Builds the diagnostic line for the given parts.
pub fn compose_log_line(
    level: LogLevel,
    hw: &str,
    operation: &str,
    ctx: Option<&str>,
    timestamp: Option<&str>,
    message: &str,
    use_colors: bool,
) -> (r: String)
    ensures
        r@ == log_line(level, hw@, operation@, text_of(ctx), text_of(timestamp), message@, use_colors),
{
    let mut line = String::new();
    if use_colors {
        line.append(level.ansi_color_code());
    }
    let ghost head = line@;
    line.append("[");
    line.append(level.as_str());
    line.append("] [");
    line.append(hw);
    line.append("]::[");
    line.append(operation);
    line.append("] ");
    let ghost tags = line@;
    match ctx {
        Some(c) => {
            line.append("[");
            line.append(c);
            line.append("] ");
        },
        None => {},
    }
    let ghost context = line@;
    match timestamp {
        Some(t) => {
            line.append("[");
            line.append(t);
            line.append("]");
        },
        None => {},
    }
    line.append(": ");
    line.append(message);
    if use_colors {
        line.append(LogLevel::ANSI_RESET);
    }
    assert(line@ =~= log_line(level, hw@, operation@, text_of(ctx), text_of(timestamp), message@, use_colors));
    line
}

/// Relies on chrono's `Utc::now` and `DateTime::format`: the current UTC time written as
/// year-month-day hours:minutes:seconds. Nothing is promised of the text, which depends on the clock.
#[verifier::external_body]
fn utc_timestamp() -> (r: String) {
    chrono::Utc::now().format("%Y-%m-%d %H:%M:%S").to_string()
}

/// The settings that decide which diagnostics are emitted and how they are decorated.
pub struct LoggerView {
    pub enabled: bool,
    pub global_level: LogLevel,
    pub hw_levels: Map<Seq<char>, LogLevel>,
    pub use_colors: bool,
    pub use_timestamps: bool,
}

/// Whether the settings `l` let a message of `level` from the hardware named `hw` through:
/// never when disabled; otherwise when `level` ranks at or past the hardware's own level, or
/// past the global level for hardware that has none.
pub open spec fn enabled_for(l: LoggerView, hw: Seq<char>, level: LogLevel) -> bool {
    l.enabled && if l.hw_levels.contains_key(hw) {
        level.rank() >= l.hw_levels[hw].rank()
    } else {
        level.rank() >= l.global_level.rank()
    }
}

/// Logging policy: an on/off switch, a global level, levels per hardware name, and the
/// decoration of emitted lines.
pub struct Logger {
    is_enabled: bool,
    global_level: LogLevel,
    hw_levels: Vec<(String, LogLevel)>,
    use_colors: bool,
    use_timestamps: bool,
}

/// Whether `i` is a position of `levels` whose name is `hw`.
pub open spec fn names_at(levels: Seq<(String, LogLevel)>, i: int, hw: Seq<char>) -> bool {
    0 <= i < levels.len() && levels[i].0@ == hw
}

impl View for Logger {
    type V = LoggerView;

    closed spec fn view(&self) -> LoggerView {
        LoggerView {
            enabled: self.is_enabled,
            global_level: self.global_level,
            hw_levels: Map::new(
                |hw: Seq<char>| exists|i: int| names_at(self.hw_levels@, i, hw),
                |hw: Seq<char>| self.hw_levels@[choose|i: int| names_at(self.hw_levels@, i, hw)].1,
            ),
            use_colors: self.use_colors,
            use_timestamps: self.use_timestamps,
        }
    }
}

impl Logger {
    /// No hardware name is listed twice.
    pub closed spec fn wf(&self) -> bool {
        forall|i: int, j: int|
            #![trigger self.hw_levels@[i], self.hw_levels@[j]]
            0 <= i < j < self.hw_levels@.len() ==> self.hw_levels@[i].0@ != self.hw_levels@[j].0@
    }

    /// Enabled, at level Info for all hardware, with colours and timestamps.
    pub fn new() -> (r: Logger)
        ensures
            r.wf(),
            r@.enabled,
            r@.global_level == LogLevel::Info,
            r@.hw_levels == Map::<Seq<char>, LogLevel>::empty(),
            r@.use_colors,
            r@.use_timestamps,
    {
        let r = Logger {
            is_enabled: true,
            global_level: LogLevel::Info,
            hw_levels: Vec::new(),
            use_colors: true,
            use_timestamps: true,
        };
        assert(r@.hw_levels =~= Map::<Seq<char>, LogLevel>::empty());
        r
    }

    /// The position of `hw` in the per-hardware list, if it is listed.
    fn position_of(&self, hw: &String) -> (r: Option<usize>)
        requires
            self.wf(),
        ensures
            r matches Some(i) ==> names_at(self.hw_levels@, i as int, hw@),
            r is None ==> !exists|i: int| names_at(self.hw_levels@, i, hw@),
    {
        let mut i: usize = 0;
        while i < self.hw_levels.len()
            invariant
                i <= self.hw_levels@.len(),
                forall|k: int| 0 <= k < i ==> !names_at(self.hw_levels@, k, hw@),
            decreases self.hw_levels@.len() - i,
        {
            if self.hw_levels[i].0 == *hw {
                return Some(i);
            }
            i = i + 1;
        }
        None
    }

    /// Whether a message of `log_level` from the hardware named `hw` is to be emitted.
    pub fn is_log_level_enabled_for_hw(&self, hw: &str, log_level: LogLevel) -> (r: bool)
        requires
            self.wf(),
        ensures
            r == enabled_for(self@, hw@, log_level),
    {
        if !self.is_enabled {
            return false;
        }
        let key = hw.to_owned();
        match self.position_of(&key) {
            Some(i) => {
                proof {
                    let j = choose|j: int| names_at(self.hw_levels@, j, hw@);
                    assert(j == i);
                }
                log_level.to_u8() >= self.hw_levels[i].1.to_u8()
            },
            None => log_level.to_u8() >= self.global_level.to_u8(),
        }
    }

    /// Sets the level for hardware that has no level of its own.
    pub fn set_global_level(&mut self, level: LogLevel)
        requires
            old(self).wf(),
        ensures
            final(self).wf(),
            final(self)@ == (LoggerView { global_level: level, ..old(self)@ }),
    {
        self.global_level = level;
    }

    /// Sets the level of the hardware named `hw`, replacing any it had.
    pub fn set_hw_level(&mut self, hw: &str, level: LogLevel)
        requires
            old(self).wf(),
        ensures
            final(self).wf(),
            final(self)@ == (LoggerView {
                hw_levels: old(self)@.hw_levels.insert(hw@, level),
                ..old(self)@
            }),
    {
        let key = hw.to_owned();
        let ghost before = self.hw_levels@;
        let ghost prior = old(self)@.hw_levels;
        match self.position_of(&key) {
            Some(i) => {
                self.hw_levels.set(i, (key, level));
                proof {
                    assert forall|a: int, b: int|
                        0 <= a < b < self.hw_levels@.len() implies self.hw_levels@[a].0@
                        != self.hw_levels@[b].0@ by {
                        assert(before[a].0@ != before[b].0@);
                    }
                    assert(forall|j: int|
                        0 <= j < before.len() ==> #[trigger] self.hw_levels@[j].0@ == before[j].0@);
                    assert forall|k: Seq<char>| #[trigger]
                        self@.hw_levels.contains_key(k) implies self@.hw_levels[k] == prior.insert(
                        hw@,
                        level,
                    )[k] by {
                        let jn = choose|j: int| names_at(self.hw_levels@, j, k);
                        if k == hw@ {
                            assert(names_at(before, jn, k));
                            assert(jn == i);
                        } else {
                            assert(names_at(before, jn, k));
                            let jb = choose|j: int| names_at(before, j, k);
                            assert(jn == jb);
                        }
                    }
                    assert forall|k: Seq<char>| #[trigger]
                        self@.hw_levels.contains_key(k) implies prior.insert(hw@, level).contains_key(
                        k,
                    ) by {
                        let jn = choose|j: int| names_at(self.hw_levels@, j, k);
                        if k != hw@ {
                            assert(names_at(before, jn, k));
                        }
                    }
                    assert forall|k: Seq<char>| #[trigger]
                        prior.insert(hw@, level).contains_key(k) implies self@.hw_levels.contains_key(
                        k,
                    ) by {
                        if k != hw@ {
                            let jb = choose|j: int| names_at(before, j, k);
                            assert(names_at(self.hw_levels@, jb, k));
                        } else {
                            assert(names_at(self.hw_levels@, i as int, k));
                        }
                    }
                }
            },
            None => {
                self.hw_levels.push((key, level));
                proof {
                    let n = before.len() as int;
                    assert forall|a: int, b: int|
                        0 <= a < b < self.hw_levels@.len() implies self.hw_levels@[a].0@
                        != self.hw_levels@[b].0@ by {
                        if b < n {
                            assert(before[a].0@ != before[b].0@);
                        } else {
                            assert(!names_at(before, a, hw@));
                        }
                    }
                    assert(forall|j: int| 0 <= j < n ==> #[trigger] self.hw_levels@[j] == before[j]);
                    assert(names_at(self.hw_levels@, n, hw@));
                    assert forall|k: Seq<char>| #[trigger]
                        self@.hw_levels.contains_key(k) implies self@.hw_levels[k] == prior.insert(
                        hw@,
                        level,
                    )[k] by {
                        let jn = choose|j: int| names_at(self.hw_levels@, j, k);
                        if k == hw@ {
                            if jn < n {
                                assert(names_at(before, jn, k));
                            }
                        } else {
                            assert(names_at(before, jn, k));
                            let jb = choose|j: int| names_at(before, j, k);
                            assert(jn == jb);
                        }
                    }
                    assert forall|k: Seq<char>| #[trigger]
                        self@.hw_levels.contains_key(k) implies prior.insert(hw@, level).contains_key(
                        k,
                    ) by {
                        let jn = choose|j: int| names_at(self.hw_levels@, j, k);
                        if k != hw@ {
                            assert(names_at(before, jn, k));
                        }
                    }
                    assert forall|k: Seq<char>| #[trigger]
                        prior.insert(hw@, level).contains_key(k) implies self@.hw_levels.contains_key(
                        k,
                    ) by {
                        if k != hw@ {
                            let jb = choose|j: int| names_at(before, j, k);
                            assert(names_at(self.hw_levels@, jb, k));
                        }
                    }
                }
            },
        }
        assert(self@.hw_levels =~= prior.insert(hw@, level));
    }

    /// Turns all diagnostics on or off.
    pub fn set_enabled(&mut self, enabled: bool)
        requires
            old(self).wf(),
        ensures
            final(self).wf(),
            final(self)@ == (LoggerView { enabled, ..old(self)@ }),
    {
        self.is_enabled = enabled;
    }

    /// Whether emitted lines are coloured by level.
    pub fn use_colors(&self) -> (r: bool)
        ensures
            r == self@.use_colors,
    {
        self.use_colors
    }

    /// Turns colouring by level on or off.
    pub fn set_use_colors(&mut self, use_colors: bool)
        requires
            old(self).wf(),
        ensures
            final(self).wf(),
            final(self)@ == (LoggerView { use_colors, ..old(self)@ }),
    {
        self.use_colors = use_colors;
    }

    /// Whether emitted lines carry a timestamp.
    pub fn use_timestamps(&self) -> (r: bool)
        ensures
            r == self@.use_timestamps,
    {
        self.use_timestamps
    }

    /// Turns timestamps on or off.
    pub fn set_use_timestamps(&mut self, use_timestamps: bool)
        requires
            old(self).wf(),
        ensures
            final(self).wf(),
            final(self)@ == (LoggerView { use_timestamps, ..old(self)@ }),
    {
        self.use_timestamps = use_timestamps;
    }

    /// The line to emit for a message of `level` from the hardware named `hw`, or `None` when
    /// the policy holds it back. The timestamp, when the policy asks for one, is the current time.
    pub fn render(
        &self,
        hw: &str,
        level: LogLevel,
        operation: &str,
        ctx: Option<&str>,
        message: &str,
    ) -> (r: Option<String>)
        requires
            self.wf(),
        ensures
            r is None <==> !enabled_for(self@, hw@, level),
            r matches Some(line) ==> (if self@.use_timestamps {
                exists|t: Seq<char>|
                    line@ == log_line(level, hw@, operation@, text_of(ctx), Some(t), message@, self@.use_colors)
            } else {
                line@ == log_line(level, hw@, operation@, text_of(ctx), None, message@, self@.use_colors)
            }),
    {
        if !self.is_log_level_enabled_for_hw(hw, level) {
            return None;
        }
        if self.use_timestamps {
            let now = utc_timestamp();
            let stamp = now.as_str();
            let line = compose_log_line(level, hw, operation, ctx, Some(stamp), message, self.use_colors);
            assert(text_of(Some(stamp)) == Some(stamp@));
            assert(line@ == log_line(
                level,
                hw@,
                operation@,
                text_of(ctx),
                Some(stamp@),
                message@,
                self@.use_colors,
            ));
            Some(line)
        } else {
            Some(compose_log_line(level, hw, operation, ctx, None, message, self.use_colors))
        }
    }
}

} // verus!
