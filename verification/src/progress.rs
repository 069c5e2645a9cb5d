//! The progress monitor's decision logic: a private accumulator of file
//! count and cumulative bytes that consumes data, print-tick and stop events
//! and says what, if anything, to print. The timer and the channel that
//! deliver the events, and the console itself, live with the caller; all
//! output decisions are made here.

use vstd::prelude::*;
use vstd::string::StrSliceExecFns;
use vstd::string::StringExecFns;

use crate::utils::compose_message_parts;
use crate::utils::dec_spec;
use crate::utils::pad_left;
use crate::utils::pad_left_spec;
use crate::utils::pad_right;
use crate::utils::pad_right_spec;
use crate::utils::readable_bytes;
use crate::utils::readable_bytes_spec;
use crate::utils::u64_to_dec;

verus! {

/// One event for the progress monitor: a data event carrying a path and the
/// byte count it contributes, a print-tick request, or the stop signal.
pub enum ProgressData {
    Data((String, u64)),
    Print,
    Stop,
}

/// Addition that saturates at the top of `u64` instead of wrapping: the
/// counters feed reporting only, never a correctness decision.
pub open spec fn sat_add(a: u64, b: u64) -> u64 {
    if a + b > u64::MAX {
        u64::MAX
    } else {
        (a + b) as u64
    }
}

/// Throughput in bytes per second, from the cumulative byte count and the
/// elapsed time in milliseconds: zero while no time has passed, saturating
/// at the top of `u64`.
pub open spec fn speed_spec(size: u64, elapsed_ms: u64) -> u64 {
    if elapsed_ms == 0 {
        0
    } else if size * 1000 / (elapsed_ms as int) > u64::MAX {
        u64::MAX
    } else {
        (size * 1000 / (elapsed_ms as int)) as u64
    }
}

/// The running throughput summary: the prefix, the file count left-justified
/// to 11 columns, then the cumulative bytes and the bytes-per-second rate,
/// each right-justified to 8 columns.
pub open spec fn summary_spec(prefix: Seq<char>, num_files: u64, size: u64, elapsed_ms: u64) -> Seq<
    char,
> {
    prefix + seq![' '] + pad_right_spec(dec_spec(num_files as nat), 11) + seq![':', ' ']
        + pad_left_spec(readable_bytes_spec(size as nat), 8) + seq![',', ' '] + pad_left_spec(
        readable_bytes_spec(speed_spec(size, elapsed_ms) as nat),
        8,
    ) + seq!['/', 's']
}

/// The standard debug rendering of a string — the result of formatting it
/// with `{:?}`: quoted, with quotes, backslashes and non-printable
/// characters escaped. A function of the characters alone; its full
/// definition (the escape tables) stays with the standard library.
pub uninterp spec fn debug_rendering(s: Seq<char>) -> Seq<char>;

/// Relies on the `Debug` implementation of `str`, which renders a string
/// deterministically from its characters alone.
#[verifier::external_body]
fn debug_quoted(s: &String) -> (r: String)
    ensures
        r@ == debug_rendering(s@),
{
    format!("{:?}", s)
}

/// The per-file line printed at the highest verbosity: the summary followed
/// by the file's debug-quoted relative path.
pub open spec fn per_file_line_spec(
    prefix: Seq<char>,
    num_files: u64,
    size: u64,
    elapsed_ms: u64,
    rel_path: Seq<char>,
) -> Seq<char> {
    summary_spec(prefix, num_files, size, elapsed_ms) + seq![',', ' '] + debug_rendering(rel_path)
}

/// The private accumulator of the progress monitor. The start time stays
/// with the caller, who hands in the elapsed milliseconds with each event.
pub struct ProgressState {
    /// Verbosity: 1 prints the final summary only at operation level, 2 adds
    /// periodic throughput ticks, 3 and above add a line per file.
    pub log_level: u8,
    /// Prepended to every printed line.
    pub prefix: String,
    /// Data events consumed so far.
    pub num_files: u64,
    /// Cumulative bytes over all data events.
    pub size: u64,
}

impl ProgressState {
    pub fn new(log_level: u8, prefix: String) -> (r: ProgressState)
        ensures
            r.log_level == log_level,
            r.prefix@ == prefix@,
            r.num_files == 0,
            r.size == 0,
    {
        ProgressState { log_level, prefix, num_files: 0, size: 0 }
    }

    /// The running throughput summary at the given elapsed time.
    pub fn summary(&self, elapsed_ms: u64) -> (r: String)
        ensures
            r@ == summary_spec(self.prefix@, self.num_files, self.size, elapsed_ms),
    {
        let speed128: u128 = if elapsed_ms == 0 {
            0
        } else {
            (self.size as u128) * 1000 / (elapsed_ms as u128)
        };
        let speed: u64 = if speed128 > u64::MAX as u128 {
            u64::MAX
        } else {
            speed128 as u64
        };
        proof {
            assert(speed == speed_spec(self.size, elapsed_ms));
        }
        compose_message_parts(
            &self.prefix,
            pad_right(u64_to_dec(self.num_files), 11),
            pad_left(readable_bytes(self.size), 8),
            pad_left(readable_bytes(speed), 8),
        )
    }

    /// Consumes one event and decides what to print.
    ///
    /// A data event adds the carried bytes to the accumulator (saturating)
    /// and yields a per-file line only at verbosity 3 and above. A print
    /// tick always yields the running summary and changes nothing. The stop
    /// event yields the final summary exactly at verbosity 2, and reports
    /// that the monitor is done.
    pub fn on_event(&mut self, data: ProgressData, elapsed_ms: u64) -> (r: (Option<String>, bool))
        ensures
            ({
                let (line, done) = r;
                match data {
                    ProgressData::Data((rel_path, raw_size)) => {
                        &&& final(self).num_files == sat_add(old(self).num_files, 1)
                        &&& final(self).size == sat_add(old(self).size, raw_size)
                        &&& final(self).log_level == old(self).log_level
                        &&& final(self).prefix@ == old(self).prefix@
                        &&& !done
                        &&& if old(self).log_level >= 3 {
                            line matches Some(l) && l@ == per_file_line_spec(
                                final(self).prefix@,
                                final(self).num_files,
                                final(self).size,
                                elapsed_ms,
                                rel_path@,
                            )
                        } else {
                            line is None
                        }
                    },
                    ProgressData::Print => {
                        &&& *final(self) == *old(self)
                        &&& !done
                        &&& line matches Some(l) && l@ == summary_spec(
                            old(self).prefix@,
                            old(self).num_files,
                            old(self).size,
                            elapsed_ms,
                        )
                    },
                    ProgressData::Stop => {
                        &&& *final(self) == *old(self)
                        &&& done
                        &&& if old(self).log_level == 2 {
                            line matches Some(l) && l@ == summary_spec(
                                old(self).prefix@,
                                old(self).num_files,
                                old(self).size,
                                elapsed_ms,
                            )
                        } else {
                            line is None
                        }
                    },
                }
            }),
    {
        match data {
            ProgressData::Data((rel_path, raw_size)) => {
                self.num_files = if self.num_files < u64::MAX {
                    self.num_files + 1
                } else {
                    u64::MAX
                };
                self.size = if raw_size <= u64::MAX - self.size {
                    self.size + raw_size
                } else {
                    u64::MAX
                };
                if self.log_level >= 3 {
                    let mut line = self.summary(elapsed_ms);
                    proof {
                        reveal_strlit(", ");
                        assert(", "@ =~= seq![',', ' ']);
                    }
                    line.append(", ");
                    line.append(debug_quoted(&rel_path).as_str());
                    proof {
                        assert(line@ =~= per_file_line_spec(
                            self.prefix@,
                            self.num_files,
                            self.size,
                            elapsed_ms,
                            rel_path@,
                        ));
                    }
                    (Some(line), false)
                } else {
                    (None, false)
                }
            },
            ProgressData::Print => (Some(self.summary(elapsed_ms)), false),
            ProgressData::Stop => {
                if self.log_level == 2 {
                    (Some(self.summary(elapsed_ms)), true)
                } else {
                    (None, true)
                }
            },
        }
    }
}

/// The print-tick schedule at verbosity 2: the first tick comes after one
/// second, every later tick after five.
pub fn tick_interval_secs(first: bool) -> (r: u64)
    ensures
        r == if first {
            1u64
        } else {
            5u64
        },
{
    if first {
        1
    } else {
        5
    }
}

} // verus!
