//! The system monitor: what a sample becomes, when the next one is taken, how
//! long the program has been up, and how all of it is worded.
//!
//! The monitor is driven from outside: `next_action` says what to do next, each
//! sample taken is handed to `record`, and the clock is handed in as the whole
//! seconds since the monitor was started. Percentages are single-precision
//! numbers, which are kept here by their bit patterns.

use crate::text::push_decimal;
use vstd::prelude::*;
use vstd::string::StringExecFns;

verus! {

/// How long the first reading of the processor load settles, in milliseconds.
pub const SETTLE_MILLIS: u64 = 200;

/// The pause after a sample, in milliseconds. The time that the sample itself
/// takes comes on top of it.
pub const SAMPLE_MILLIS: u64 = 1000;

/// What the last sample showed.
#[derive(Clone, Copy, Debug, PartialEq, Eq, Structural)]
pub struct SysSnapshot {
    pub ram_used_mb: u64,
    pub ram_total_mb: u64,
    /// The bit pattern of the share of memory in use, in percent.
    pub ram_percent_bits: u32,
    /// The bit pattern of the processor load, in percent.
    pub cpu_percent_bits: u32,
}

/// One reading of the system. Amounts of memory are in kilobytes.
#[derive(Clone, Copy, Debug, PartialEq, Eq, Structural)]
pub struct Sample {
    pub total_kb: u64,
    pub used_kb: u64,
    /// The bit pattern of the quotient of the two amounts, in percent. It
    /// counts only where there is memory to speak of.
    pub ram_percent_bits: u32,
    /// The bit pattern of the processor load, in percent.
    pub cpu_percent_bits: u32,
}

/// One look at the system: when, in whole seconds since the start, and what was
/// seen, unless that was lost.
#[derive(Clone, Copy, Debug, PartialEq, Eq, Structural)]
pub struct Reading {
    pub sample: Option<Sample>,
    pub secs_since_start: u64,
}

/// One turn in driving the monitor: asking it what to do next, or handing it a
/// reading.
pub enum Turn {
    Step,
    Read(Reading),
}

/// The number of steps among these turns.
pub open spec fn steps_in(turns: Seq<Turn>) -> nat
    decreases turns.len(),
{
    if turns.len() == 0 {
        0
    } else {
        match turns.last() {
            Turn::Step => steps_in(turns.drop_last()) + 1,
            Turn::Read(_) => steps_in(turns.drop_last()),
        }
    }
}

/// The readings among these turns, in order.
pub open spec fn readings_in(turns: Seq<Turn>) -> Seq<Reading>
    decreases turns.len(),
{
    if turns.len() == 0 {
        Seq::empty()
    } else {
        match turns.last() {
            Turn::Step => readings_in(turns.drop_last()),
            Turn::Read(reading) => readings_in(turns.drop_last()).push(reading),
        }
    }
}

/// What a monitor that is left running does after `n` steps.
pub open spec fn scheduled(n: nat) -> MonitorAction {
    if n == 0 {
        MonitorAction::RefreshCpu
    } else if n == 1 {
        MonitorAction::SleepMillis(SETTLE_MILLIS)
    } else if n % 2 == 0 {
        MonitorAction::TakeSample
    } else {
        MonitorAction::SleepMillis(SAMPLE_MILLIS)
    }
}

/// Where the monitor stands between two actions.
#[derive(Clone, Copy, Debug, PartialEq, Eq, Structural)]
pub enum MonitorPhase {
    /// Nothing was done yet.
    Priming,
    /// The processor load was read once and has to settle.
    Settling,
    /// About to decide whether another sample is taken.
    Polling,
    /// A sample was called for, and a pause is due.
    Resting,
    /// Ended.
    Finished,
}

/// What to do next.
#[derive(Clone, Copy, Debug, PartialEq, Eq, Structural)]
pub enum MonitorAction {
    /// Read the processor load and drop the result.
    RefreshCpu,
    /// Take a sample and record it.
    TakeSample,
    /// Sleep for this many milliseconds.
    SleepMillis(u64),
    /// End.
    Exit,
}

/// The monitor.
#[derive(Clone, Copy, Debug, PartialEq, Eq, Structural)]
pub struct SysMonitor {
    pub snapshot: SysSnapshot,
    pub running: bool,
    /// The whole seconds between the start and the last look at the clock.
    pub uptime_secs: u64,
    pub phase: MonitorPhase,
}

/// An amount in kilobytes, from bytes.
pub fn kb_from_bytes(bytes: u64) -> (kb: u64)
    ensures
        kb == bytes / 1024,
        kb * 1024 <= bytes < (kb + 1) * 1024,
{
    bytes / 1024
}

/// How an uptime is worded: hours, minutes and seconds, without the leading
/// parts that are zero.
pub open spec fn uptime_text(secs: nat) -> Seq<char> {
    let h = secs / 3600;
    let m = (secs % 3600) / 60;
    let s = secs % 60;
    if h > 0 {
        crate::text::decimal(h) + "h "@ + crate::text::decimal(m) + "p "@ + crate::text::decimal(s)
            + "s"@
    } else if m > 0 {
        crate::text::decimal(m) + "p "@ + crate::text::decimal(s) + "s"@
    } else {
        crate::text::decimal(s) + "s"@
    }
}

/// The line on the processor, for its load in percent.
pub open spec fn cpu_line(percent: Seq<char>) -> Seq<char> {
    "CPU: "@ + percent + "%"@
}

/// The line on the processor, for its load in percent.
pub fn cpu_text(percent: &str) -> (line: String)
    ensures
        line@ == cpu_line(percent@),
        line@ == "CPU: "@ + percent@ + "%"@,
{
    let mut line: String = "CPU: ".to_string();
    line.append(percent);
    line.append("%");
    line
}

/// The caption of a gauge, for its value in percent.
pub fn gauge_text(percent: &str) -> (caption: String)
    ensures
        caption@ == percent@ + "%"@,
{
    let mut caption: String = percent.to_string();
    caption.append("%");
    caption
}

/// How an uptime in seconds is worded.
pub fn format_uptime(secs: u64) -> (text: String)
    ensures
        text@ == uptime_text(secs as nat),
        read_uptime(text@) == (secs as int, 0int),
{
    let h: u64 = secs / 3600;
    let m: u64 = (secs % 3600) / 60;
    let s: u64 = secs % 60;
    let mut text: String = String::new();
    if h > 0 {
        push_decimal(&mut text, h);
        text.append("h ");
    }
    if h > 0 || m > 0 {
        push_decimal(&mut text, m);
        text.append("p ");
    }
    push_decimal(&mut text, s);
    text.append("s");
    proof {
        law_uptime_text_reads_back(secs as nat);
    }
    text
}

impl Default for SysSnapshot {
    /// A snapshot before any sample: everything is zero.
    fn default() -> (snapshot: SysSnapshot)
        ensures
            snapshot == SysSnapshot::blank(),
            snapshot.ram_used_mb == 0,
            snapshot.ram_total_mb == 0,
            snapshot.ram_percent_bits == 0,
            snapshot.cpu_percent_bits == 0,
    {
        SysSnapshot { ram_used_mb: 0, ram_total_mb: 0, ram_percent_bits: 0, cpu_percent_bits: 0 }
    }
}

impl SysSnapshot {
    /// A snapshot before any sample.
    pub open spec fn blank() -> SysSnapshot {
        SysSnapshot { ram_used_mb: 0, ram_total_mb: 0, ram_percent_bits: 0, cpu_percent_bits: 0 }
    }

    /// What a sample shows: whole megabytes, and no share of memory in use where
    /// there is no memory.
    pub open spec fn shown(sample: Sample) -> SysSnapshot {
        SysSnapshot {
            ram_used_mb: sample.used_kb / 1024,
            ram_total_mb: sample.total_kb / 1024,
            ram_percent_bits: if sample.total_kb > 0 {
                sample.ram_percent_bits
            } else {
                0
            },
            cpu_percent_bits: sample.cpu_percent_bits,
        }
    }

    /// The line on memory, for the share in use in percent.
    pub open spec fn ram_line(self, percent: Seq<char>) -> Seq<char> {
        "RAM: "@ + crate::text::decimal(self.ram_used_mb as nat) + " / "@
            + crate::text::decimal(self.ram_total_mb as nat) + " MB  ("@ + percent + "%)"@
    }

    /// What a sample shows.
    pub fn from_sample(sample: Sample) -> (snapshot: SysSnapshot)
        ensures
            snapshot == SysSnapshot::shown(sample),
            snapshot.ram_used_mb * 1024 <= sample.used_kb < (snapshot.ram_used_mb + 1) * 1024,
            snapshot.ram_total_mb * 1024 <= sample.total_kb < (snapshot.ram_total_mb + 1) * 1024,
            sample.total_kb > 0 ==> snapshot.ram_percent_bits == sample.ram_percent_bits,
            sample.total_kb == 0 ==> snapshot.ram_percent_bits == 0,
            snapshot.cpu_percent_bits == sample.cpu_percent_bits,
    {
        let ram_total_mb: u64 = sample.total_kb / 1024;
        let ram_used_mb: u64 = sample.used_kb / 1024;
        let ram_percent_bits: u32 = if sample.total_kb > 0 {
            sample.ram_percent_bits
        } else {
            0
        };
        SysSnapshot {
            ram_used_mb,
            ram_total_mb,
            ram_percent_bits,
            cpu_percent_bits: sample.cpu_percent_bits,
        }
    }

    /// The line on memory, for the share in use in percent.
    pub fn ram_text(&self, percent: &str) -> (line: String)
        ensures
            line@ == self.ram_line(percent@),
            exists|used: Seq<char>, total: Seq<char>|
                {
                    &&& line@ == "RAM: "@ + used + " / "@ + total + " MB  ("@ + percent@ + "%)"@
                    &&& #[trigger] crate::text::value_of(used, 10) == self.ram_used_mb
                    &&& #[trigger] crate::text::value_of(total, 10) == self.ram_total_mb
                    &&& crate::text::all_decimal(used)
                    &&& crate::text::all_decimal(total)
                },
    {
        let mut line: String = "RAM: ".to_string();
        push_decimal(&mut line, self.ram_used_mb);
        line.append(" / ");
        push_decimal(&mut line, self.ram_total_mb);
        line.append(" MB  (");
        line.append(percent);
        line.append("%)");
        proof {
            law_ram_line_reads_back(*self, percent@);
        }
        line
    }
}

impl SysMonitor {
    /// A monitor that was just started.
    pub open spec fn started() -> SysMonitor {
        SysMonitor {
            snapshot: SysSnapshot::blank(),
            running: true,
            uptime_secs: 0,
            phase: MonitorPhase::Priming,
        }
    }

    /// One step: the monitor afterwards, and what to do.
    pub open spec fn next(self) -> (SysMonitor, MonitorAction) {
        match self.phase {
            MonitorPhase::Priming => (
                SysMonitor { phase: MonitorPhase::Settling, ..self },
                MonitorAction::RefreshCpu,
            ),
            MonitorPhase::Settling => (
                SysMonitor { phase: MonitorPhase::Polling, ..self },
                MonitorAction::SleepMillis(SETTLE_MILLIS),
            ),
            MonitorPhase::Polling => if self.running {
                (SysMonitor { phase: MonitorPhase::Resting, ..self }, MonitorAction::TakeSample)
            } else {
                (SysMonitor { phase: MonitorPhase::Finished, ..self }, MonitorAction::Exit)
            },
            MonitorPhase::Resting => (
                SysMonitor { phase: MonitorPhase::Polling, ..self },
                MonitorAction::SleepMillis(SAMPLE_MILLIS),
            ),
            MonitorPhase::Finished => (self, MonitorAction::Exit),
        }
    }

    /// The monitor when this many whole seconds have passed since the start.
    pub open spec fn at_time(self, secs_since_start: u64) -> SysMonitor {
        SysMonitor { uptime_secs: secs_since_start, ..self }
    }

    /// The monitor with one more reading: the time it was taken at, and the
    /// sample, unless that was lost.
    pub open spec fn with_reading(self, reading: Reading) -> SysMonitor {
        match reading.sample {
            Some(sample) => SysMonitor {
                snapshot: SysSnapshot::shown(sample),
                ..self.at_time(reading.secs_since_start)
            },
            None => self.at_time(reading.secs_since_start),
        }
    }

    /// The monitor with all of these readings.
    pub open spec fn with_readings(self, readings: Seq<Reading>) -> SysMonitor
        decreases readings.len(),
    {
        if readings.len() == 0 {
            self
        } else {
            self.with_readings(readings.drop_last()).with_reading(readings.last())
        }
    }

    /// The monitor after `n` steps.
    pub open spec fn after(self, n: nat) -> SysMonitor
        decreases n,
    {
        if n == 0 {
            self
        } else {
            self.after((n - 1) as nat).next().0
        }
    }

    /// The monitor after one turn.
    pub open spec fn turned(self, turn: Turn) -> SysMonitor {
        match turn {
            Turn::Step => self.next().0,
            Turn::Read(reading) => self.with_reading(reading),
        }
    }

    /// The monitor after all of these turns.
    pub open spec fn driven(self, turns: Seq<Turn>) -> SysMonitor
        decreases turns.len(),
    {
        if turns.len() == 0 {
            self
        } else {
            self.driven(turns.drop_last()).turned(turns.last())
        }
    }

    /// A monitor that was just started.
    pub fn start() -> (monitor: SysMonitor)
        ensures
            monitor == SysMonitor::started(),
            monitor.running,
            monitor.uptime_secs == 0,
            monitor.phase == MonitorPhase::Priming,
            monitor.snapshot.ram_used_mb == 0,
            monitor.snapshot.ram_total_mb == 0,
            monitor.snapshot.ram_percent_bits == 0,
            monitor.snapshot.cpu_percent_bits == 0,
    {
        SysMonitor {
            snapshot: SysSnapshot::default(),
            running: true,
            uptime_secs: 0,
            phase: MonitorPhase::Priming,
        }
    }

    /// Says what to do next.
    pub fn next_action(&mut self) -> (action: MonitorAction)
        ensures
            (*final(self), action) == old(self).next(),
            final(self).snapshot == old(self).snapshot,
            final(self).uptime_secs == old(self).uptime_secs,
            final(self).running == old(self).running,
            action == MonitorAction::TakeSample <==> old(self).running && old(self).phase
                == MonitorPhase::Polling,
            action == MonitorAction::Exit <==> final(self).phase == MonitorPhase::Finished,
            action == MonitorAction::RefreshCpu <==> old(self).phase == MonitorPhase::Priming,
            action == MonitorAction::SleepMillis(200) <==> old(self).phase
                == MonitorPhase::Settling,
            action == MonitorAction::SleepMillis(1000) <==> old(self).phase
                == MonitorPhase::Resting,
            old(self).phase == MonitorPhase::Priming <==> final(self).phase
                == MonitorPhase::Settling,
            old(self).phase == MonitorPhase::Settling || old(self).phase == MonitorPhase::Resting
                <==> final(self).phase == MonitorPhase::Polling,
            action == MonitorAction::TakeSample <==> final(self).phase == MonitorPhase::Resting,
    {
        match self.phase {
            MonitorPhase::Priming => {
                self.phase = MonitorPhase::Settling;
                MonitorAction::RefreshCpu
            },
            MonitorPhase::Settling => {
                self.phase = MonitorPhase::Polling;
                MonitorAction::SleepMillis(SETTLE_MILLIS)
            },
            MonitorPhase::Polling => {
                if self.running {
                    self.phase = MonitorPhase::Resting;
                    MonitorAction::TakeSample
                } else {
                    self.phase = MonitorPhase::Finished;
                    MonitorAction::Exit
                }
            },
            MonitorPhase::Resting => {
                self.phase = MonitorPhase::Polling;
                MonitorAction::SleepMillis(SAMPLE_MILLIS)
            },
            MonitorPhase::Finished => MonitorAction::Exit,
        }
    }

    /// Takes a sample in: it is what is shown from now on, and the uptime is the
    /// time at which it was taken.
    pub fn record(&mut self, sample: Sample, secs_since_start: u64)
        ensures
            *final(self) == old(self).with_reading(
                Reading { sample: Some(sample), secs_since_start },
            ),
            final(self).uptime_secs == secs_since_start,
            final(self).snapshot == SysSnapshot::shown(sample),
            final(self).snapshot.ram_used_mb * 1024 <= sample.used_kb < (
            final(self).snapshot.ram_used_mb + 1) * 1024,
            final(self).snapshot.ram_total_mb * 1024 <= sample.total_kb < (
            final(self).snapshot.ram_total_mb + 1) * 1024,
            sample.total_kb > 0 ==> final(self).snapshot.ram_percent_bits
                == sample.ram_percent_bits,
            sample.total_kb == 0 ==> final(self).snapshot.ram_percent_bits == 0,
            final(self).snapshot.cpu_percent_bits == sample.cpu_percent_bits,
            final(self).phase == old(self).phase,
            final(self).running == old(self).running,
    {
        self.snapshot = SysSnapshot::from_sample(sample);
        self.keep_time(secs_since_start);
    }

    /// Takes the time in, without a sample: what is shown stays as it is.
    pub fn keep_time(&mut self, secs_since_start: u64)
        ensures
            *final(self) == old(self).with_reading(Reading { sample: None, secs_since_start }),
            final(self).uptime_secs == secs_since_start,
            final(self).snapshot == old(self).snapshot,
            final(self).phase == old(self).phase,
            final(self).running == old(self).running,
    {
        self.uptime_secs = secs_since_start;
    }

    /// Asks the monitor to end.
    pub fn stop(&mut self)
        ensures
            *final(self) == (SysMonitor { running: false, ..*old(self) }),
            !final(self).running,
            final(self).snapshot == old(self).snapshot,
            final(self).uptime_secs == old(self).uptime_secs,
            final(self).phase == old(self).phase,
    {
        self.running = false;
    }

    /// What the last sample showed.
    pub fn read(&self) -> (snapshot: SysSnapshot)
        ensures
            snapshot == self.snapshot,
    {
        self.snapshot
    }

    /// How long the program has been up.
    pub fn uptime_string(&self) -> (text: String)
        ensures
            text@ == uptime_text(self.uptime_secs as nat),
            read_uptime(text@) == (self.uptime_secs as int, 0int),
    {
        format_uptime(self.uptime_secs)
    }

    /// The line on how long the program has been up.
    pub fn uptime_caption(&self) -> (line: String)
        ensures
            line@ == "Thời gian thức (uptime app): "@ + uptime_text(self.uptime_secs as nat),
    {
        let mut line: String = "Thời gian thức (uptime app): ".to_string();
        let text: String = self.uptime_string();
        line.append(text.as_str());
        line
    }
}

/// An amount read in bytes is shown in whole megabytes.
pub proof fn law_bytes_show_as_megabytes(bytes: u64)
    ensures
        (bytes / 1024) / 1024 == bytes / 0x10_0000,
{
}

/// Memory in use that fits into the memory there is still does so as shown.
pub proof fn law_shown_memory_keeps_its_order(sample: Sample)
    requires
        sample.used_kb <= sample.total_kb,
    ensures
        SysSnapshot::shown(sample).ram_used_mb <= SysSnapshot::shown(sample).ram_total_mb,
{
}

/// The last sample in these readings that was not lost.
pub open spec fn last_sample(readings: Seq<Reading>) -> Option<Sample>
    decreases readings.len(),
{
    if readings.len() == 0 {
        None
    } else if readings.last().sample is Some {
        readings.last().sample
    } else {
        last_sample(readings.drop_last())
    }
}

/// A snapshot shows as many whole megabytes as the sample has, used and in all,
/// and each percentage as it was measured, but for the share of memory in use
/// where there is no memory, which is zero.
pub proof fn law_snapshot_shows_its_sample(sample: Sample)
    ensures
        SysSnapshot::shown(sample).ram_used_mb * 1024 <= sample.used_kb,
        sample.used_kb < (SysSnapshot::shown(sample).ram_used_mb + 1) * 1024,
        SysSnapshot::shown(sample).ram_total_mb * 1024 <= sample.total_kb,
        sample.total_kb < (SysSnapshot::shown(sample).ram_total_mb + 1) * 1024,
        sample.total_kb > 0 ==> SysSnapshot::shown(sample).ram_percent_bits
            == sample.ram_percent_bits,
        sample.total_kb == 0 ==> SysSnapshot::shown(sample).ram_percent_bits == 0,
        SysSnapshot::shown(sample).cpu_percent_bits == sample.cpu_percent_bits,
{
}

/// Each figure of a snapshot has one source: the processor load does not touch
/// the figures of memory, the memory does not touch the load, and the amount in
/// use and the amount in all do not touch one another.
pub proof fn law_figures_do_not_mix(a: Sample, b: Sample)
    ensures
        a.cpu_percent_bits == b.cpu_percent_bits ==> SysSnapshot::shown(a).cpu_percent_bits
            == SysSnapshot::shown(b).cpu_percent_bits,
        a.used_kb == b.used_kb ==> SysSnapshot::shown(a).ram_used_mb == SysSnapshot::shown(
            b,
        ).ram_used_mb,
        a.total_kb == b.total_kb ==> SysSnapshot::shown(a).ram_total_mb == SysSnapshot::shown(
            b,
        ).ram_total_mb,
        a.ram_percent_bits == b.ram_percent_bits && (a.total_kb > 0 <==> b.total_kb > 0)
            ==> SysSnapshot::shown(a).ram_percent_bits == SysSnapshot::shown(b).ram_percent_bits,
{
}

/// The line on memory holds two numbers, which read as the megabytes in use and
/// the megabytes in all, in this order, and then the percentage as it was given.
pub proof fn law_ram_line_reads_back(snapshot: SysSnapshot, percent: Seq<char>)
    ensures
        exists|used: Seq<char>, total: Seq<char>|
            {
                &&& snapshot.ram_line(percent) == "RAM: "@ + used + " / "@ + total + " MB  ("@
                    + percent + "%)"@
                &&& #[trigger] crate::text::value_of(used, 10) == snapshot.ram_used_mb
                &&& #[trigger] crate::text::value_of(total, 10) == snapshot.ram_total_mb
                &&& crate::text::all_decimal(used)
                &&& crate::text::all_decimal(total)
            },
{
    let used = crate::text::decimal(snapshot.ram_used_mb as nat);
    let total = crate::text::decimal(snapshot.ram_total_mb as nat);
    crate::text::law_decimal_reads_back(snapshot.ram_used_mb as nat);
    crate::text::law_decimal_reads_back(snapshot.ram_total_mb as nat);
    assert(crate::text::value_of(used, 10) == snapshot.ram_used_mb);
    assert(crate::text::value_of(total, 10) == snapshot.ram_total_mb);
}

/// However the line on memory is taken apart at its fixed texts, the digits in
/// front of the slash read as the megabytes in use, and those behind it as the
/// megabytes in all.
pub proof fn law_ram_line_reads_one_way(
    snapshot: SysSnapshot,
    percent: Seq<char>,
    used: Seq<char>,
    total: Seq<char>,
)
    requires
        crate::text::all_decimal(used),
        crate::text::all_decimal(total),
        snapshot.ram_line(percent) == "RAM: "@ + used + " / "@ + total + " MB  ("@ + percent
            + "%)"@,
    ensures
        crate::text::value_of(used, 10) == snapshot.ram_used_mb,
        crate::text::value_of(total, 10) == snapshot.ram_total_mb,
{
    reveal_strlit("RAM: ");
    reveal_strlit(" / ");
    reveal_strlit(" MB  (");
    let a = crate::text::decimal(snapshot.ram_used_mb as nat);
    let b = crate::text::decimal(snapshot.ram_total_mb as nat);
    crate::text::law_decimal_reads_back(snapshot.ram_used_mb as nat);
    crate::text::law_decimal_reads_back(snapshot.ram_total_mb as nat);
    let line = snapshot.ram_line(percent);
    let end = " MB  ("@ + percent + "%)"@;
    assert(line.skip(5) =~= a + (" / "@ + (b + end)));
    assert(line.skip(5) =~= used + (" / "@ + (total + end)));
    crate::text::lemma_digits_end_a_number(
        used,
        " / "@ + (total + end),
        a,
        " / "@ + (b + end),
    );
    assert((" / "@ + (total + end)).skip(3) =~= total + end);
    assert((" / "@ + (b + end)).skip(3) =~= b + end);
    crate::text::lemma_digits_end_a_number(total, end, b, end);
}

/// The line on the processor is the percentage as it was given, between two fixed
/// texts.
pub proof fn law_cpu_line_holds_the_percentage(percent: Seq<char>)
    ensures
        cpu_line(percent).len() == percent.len() + 6,
        cpu_line(percent).take(5) == "CPU: "@,
        cpu_line(percent).subrange(5, 5int + percent.len()) == percent,
        cpu_line(percent).last() == '%',
{
    reveal_strlit("CPU: ");
    reveal_strlit("%");
    assert(cpu_line(percent).take(5) =~= "CPU: "@);
    assert(cpu_line(percent).subrange(5, 5int + percent.len()) =~= percent);
}

/// A reading leaves the schedule and the flag alone, sets the uptime to its time
/// whatever it was, and changes what is shown only if it brings a sample.
pub proof fn law_reading_touches_only_what_was_read(monitor: SysMonitor, reading: Reading)
    ensures
        monitor.with_reading(reading).phase == monitor.phase,
        monitor.with_reading(reading).running == monitor.running,
        monitor.with_reading(reading).uptime_secs == reading.secs_since_start,
        reading.sample is None ==> monitor.with_reading(reading).snapshot == monitor.snapshot,
        reading.sample matches Some(sample) ==> {
            let shown = monitor.with_reading(reading).snapshot;
            &&& shown.ram_used_mb * 1024 <= sample.used_kb < (shown.ram_used_mb + 1) * 1024
            &&& shown.ram_total_mb * 1024 <= sample.total_kb < (shown.ram_total_mb + 1) * 1024
            &&& shown.cpu_percent_bits == sample.cpu_percent_bits
            &&& sample.total_kb > 0 ==> shown.ram_percent_bits == sample.ram_percent_bits
            &&& sample.total_kb == 0 ==> shown.ram_percent_bits == 0
        },
{
}

/// The uptime is the whole seconds since the start, as of the last reading, and
/// what is shown is the last sample, or nothing before the first.
pub proof fn law_uptime_is_the_time_since_the_start(readings: Seq<Reading>)
    ensures
        SysMonitor::started().with_readings(readings).uptime_secs == if readings.len() == 0 {
            0
        } else {
            readings.last().secs_since_start
        },
        SysMonitor::started().with_readings(readings).snapshot == match last_sample(readings) {
            Some(sample) => SysSnapshot::shown(sample),
            None => SysSnapshot::blank(),
        },
    decreases readings.len(),
{
    if readings.len() > 0 {
        law_uptime_is_the_time_since_the_start(readings.drop_last());
    }
}

/// As long as the clock does not go back, neither does the uptime.
pub proof fn law_uptime_never_decreases(readings: Seq<Reading>, k: int)
    requires
        0 <= k <= readings.len(),
        forall|i: int, j: int|
            0 <= i <= j < readings.len() ==> #[trigger] readings[i].secs_since_start
                <= #[trigger] readings[j].secs_since_start,
    ensures
        SysMonitor::started().with_readings(readings.take(k)).uptime_secs
            <= SysMonitor::started().with_readings(readings).uptime_secs,
{
    law_uptime_is_the_time_since_the_start(readings.take(k));
    law_uptime_is_the_time_since_the_start(readings);
    if k > 0 {
        assert(readings.take(k).last() == readings[k - 1]);
        assert(readings[k - 1].secs_since_start <= readings[readings.len() - 1].secs_since_start);
    }
}

/// With one reading in each second, the uptime is the number of readings, also
/// where samples were lost.
pub proof fn law_uptime_counts_readings_one_second_apart(readings: Seq<Reading>)
    requires
        forall|i: int|
            0 <= i < readings.len() ==> (#[trigger] readings[i]).secs_since_start == i + 1,
    ensures
        SysMonitor::started().with_readings(readings).uptime_secs == readings.len(),
{
    law_uptime_is_the_time_since_the_start(readings);
}

/// What is done next does not depend on what was read, so it does not matter
/// when a reading is taken in.
pub proof fn law_readings_do_not_change_the_schedule(monitor: SysMonitor, reading: Reading)
    ensures
        monitor.with_reading(reading).next() == (
            monitor.next().0.with_reading(reading),
            monitor.next().1,
        ),
{
}

/// Steps and readings do not get in each other's way, in whatever turns they
/// come: where the monitor stands and what it does next is decided by the number
/// of steps alone, what it shows and its uptime by the readings alone.
pub proof fn law_steps_and_readings_are_independent(monitor: SysMonitor, turns: Seq<Turn>)
    ensures
        monitor.driven(turns).phase == monitor.after(steps_in(turns)).phase,
        monitor.driven(turns).running == monitor.running,
        monitor.driven(turns).next().1 == monitor.after(steps_in(turns)).next().1,
        monitor.driven(turns).snapshot == monitor.with_readings(readings_in(turns)).snapshot,
        monitor.driven(turns).uptime_secs == monitor.with_readings(readings_in(turns)).uptime_secs,
        monitor.after(steps_in(turns)).running == monitor.running,
    decreases turns.len(),
{
    if turns.len() > 0 {
        let rest = turns.drop_last();
        law_steps_and_readings_are_independent(monitor, rest);
        if let Turn::Read(reading) = turns.last() {
            assert(readings_in(turns).drop_last() =~= readings_in(rest));
        }
    }
}

/// A monitor that is left running reads the processor once, lets it settle, and
/// from then on takes a sample and pauses, by turns, for ever, whatever is read
/// meanwhile.
pub proof fn law_running_monitor_samples_each_period(turns: Seq<Turn>)
    ensures
        SysMonitor::started().driven(turns).running,
        SysMonitor::started().driven(turns).next().1 == scheduled(steps_in(turns)),
{
    law_steps_and_readings_are_independent(SysMonitor::started(), turns);
    lemma_running_phase(steps_in(turns));
}

/// A running monitor asks for the processor first and for a pause of 200
/// milliseconds next; from then on every other step asks for a sample, and each
/// of these is followed by a pause of 1000 milliseconds.
pub proof fn law_running_monitor_pauses_after_each_sample(turns: Seq<Turn>)
    ensures
        steps_in(turns) == 0 ==> SysMonitor::started().driven(turns).next().1
            == MonitorAction::RefreshCpu,
        steps_in(turns) == 1 ==> SysMonitor::started().driven(turns).next().1
            == MonitorAction::SleepMillis(200),
        steps_in(turns) >= 2 && steps_in(turns) % 2 == 0 ==> SysMonitor::started().driven(
            turns,
        ).next().1 == MonitorAction::TakeSample,
        steps_in(turns) >= 2 && steps_in(turns) % 2 == 1 ==> SysMonitor::started().driven(
            turns,
        ).next().1 == MonitorAction::SleepMillis(1000),
{
    law_running_monitor_samples_each_period(turns);
}

/// A step changes neither what is shown nor the uptime nor the flag, and a sample
/// is asked for only while the flag is up.
pub proof fn law_step_shows_nothing_new(monitor: SysMonitor)
    ensures
        monitor.next().0.snapshot == monitor.snapshot,
        monitor.next().0.uptime_secs == monitor.uptime_secs,
        monitor.next().0.running == monitor.running,
        monitor.next().1 == MonitorAction::TakeSample ==> monitor.running,
        monitor.next().1 == MonitorAction::TakeSample ==> monitor.next().0.next().1
            == MonitorAction::SleepMillis(1000),
        monitor.next().1 == MonitorAction::Exit ==> monitor.next().0.next().1
            == MonitorAction::Exit,
        monitor.running && monitor.next().1 == MonitorAction::Exit ==> monitor.phase
            == MonitorPhase::Finished,
{
}

/// However a monitor is driven, its uptime is the whole seconds since the start
/// as of the last reading, and what it shows is the last sample that was not
/// lost.
pub proof fn law_driven_monitor_shows_the_last_reading(turns: Seq<Turn>)
    ensures
        SysMonitor::started().driven(turns).uptime_secs == if readings_in(turns).len() == 0 {
            0
        } else {
            readings_in(turns).last().secs_since_start
        },
        SysMonitor::started().driven(turns).snapshot == match last_sample(readings_in(turns)) {
            Some(sample) => SysSnapshot::shown(sample),
            None => SysSnapshot::blank(),
        },
{
    law_steps_and_readings_are_independent(SysMonitor::started(), turns);
    law_uptime_is_the_time_since_the_start(readings_in(turns));
}

proof fn lemma_running_phase(n: nat)
    ensures
        SysMonitor::started().after(n).running,
        SysMonitor::started().after(n).phase == if n == 0 {
            MonitorPhase::Priming
        } else if n == 1 {
            MonitorPhase::Settling
        } else if n % 2 == 0 {
            MonitorPhase::Polling
        } else {
            MonitorPhase::Resting
        },
    decreases n,
{
    if n > 0 {
        lemma_running_phase((n - 1) as nat);
    }
}

/// A monitor that was asked to end calls for no sample any more, and from the
/// third step on it has ended, even if a reading still comes in. What it shows
/// and its uptime change by such a reading only.
pub proof fn law_stopped_monitor_ends(monitor: SysMonitor, turns: Seq<Turn>)
    requires
        !monitor.running,
    ensures
        monitor.driven(turns).next().1 != MonitorAction::TakeSample,
        steps_in(turns) >= 2 ==> monitor.driven(turns).next().1 == MonitorAction::Exit,
        readings_in(turns).len() == 0 ==> monitor.driven(turns).snapshot == monitor.snapshot
            && monitor.driven(turns).uptime_secs == monitor.uptime_secs,
{
    law_steps_and_readings_are_independent(monitor, turns);
    lemma_stopped(monitor, steps_in(turns));
}

proof fn lemma_stopped(monitor: SysMonitor, n: nat)
    requires
        !monitor.running,
    ensures
        !monitor.after(n).running,
        n >= 1 ==> monitor.after(n).phase != MonitorPhase::Priming && monitor.after(n).phase
            != MonitorPhase::Resting,
        n >= 2 ==> monitor.after(n).phase != MonitorPhase::Settling,
    decreases n,
{
    if n > 0 {
        lemma_stopped(monitor, (n - 1) as nat);
    }
}

/// The parts of an uptime add up to it, and none but the hours overflows.
pub proof fn law_uptime_parts_add_up(secs: nat)
    ensures
        (secs / 3600) * 3600 + ((secs % 3600) / 60) * 60 + secs % 60 == secs,
        (secs % 3600) / 60 < 60,
        secs % 60 < 60,
{
}

/// Reads the text of an uptime from left to right: digits make up a number, and
/// the letter behind a number says whether it counts hours, minutes or seconds.
/// Gives the seconds counted so far, and the number that no letter has followed
/// yet.
pub open spec fn read_uptime(s: Seq<char>) -> (int, int)
    decreases s.len(),
{
    if s.len() == 0 {
        (0, 0)
    } else {
        let (total, number) = read_uptime(s.drop_last());
        let c = s.last();
        if c == 'h' {
            (total + number * 3600, 0)
        } else if c == 'p' {
            (total + number * 60, 0)
        } else if c == 's' {
            (total + number, 0)
        } else if c == ' ' {
            (total, number)
        } else {
            (total, number * 10 + (c as int - '0' as int))
        }
    }
}

proof fn lemma_read_number(s: Seq<char>, n: nat)
    requires
        read_uptime(s).1 == 0,
    ensures
        read_uptime(s + crate::text::decimal(n)) == (read_uptime(s).0, n as int),
    decreases n,
{
    let all = s + crate::text::decimal(n);
    if n < 10 {
        assert(all.drop_last() =~= s);
    } else {
        lemma_read_number(s, n / 10);
        assert(all.drop_last() =~= s + crate::text::decimal(n / 10));
    }
}

proof fn lemma_read_letter(s: Seq<char>, c: char)
    requires
        c == 'h' || c == 'p' || c == 's',
    ensures
        read_uptime(s.push(c)) == (
            read_uptime(s).0 + read_uptime(s).1 * if c == 'h' {
                3600int
            } else if c == 'p' {
                60
            } else {
                1
            },
            0int,
        ),
        read_uptime(s.push(c).push(' ')) == read_uptime(s.push(c)),
{
    assert(s.push(c).drop_last() =~= s);
    assert(s.push(c).push(' ').drop_last() =~= s.push(c));
}

/// The text of an uptime reads back as that uptime: the number in front of `h`
/// counts hours, that in front of `p` minutes, that in front of `s` seconds, and
/// no number is left over.
pub proof fn law_uptime_text_reads_back(secs: nat)
    ensures
        read_uptime(uptime_text(secs)) == (secs as int, 0int),
{
    reveal_strlit("h ");
    reveal_strlit("p ");
    reveal_strlit("s");
    let (h, m, s) = (secs / 3600, (secs % 3600) / 60, secs % 60);
    let none = Seq::<char>::empty();
    let hours = if h > 0 {
        crate::text::decimal(h) + "h "@
    } else {
        none
    };
    if h > 0 {
        let n = none + crate::text::decimal(h);
        lemma_read_number(none, h);
        lemma_read_letter(n, 'h');
        assert(hours =~= n.push('h').push(' '));
    }
    assert(read_uptime(hours) == (h * 3600int, 0int));
    let minutes = if h > 0 || m > 0 {
        hours + crate::text::decimal(m) + "p "@
    } else {
        hours
    };
    if h > 0 || m > 0 {
        let n = hours + crate::text::decimal(m);
        lemma_read_number(hours, m);
        lemma_read_letter(n, 'p');
        assert(minutes =~= n.push('p').push(' '));
    }
    assert(read_uptime(minutes) == (h * 3600int + m * 60int, 0int));
    let n = minutes + crate::text::decimal(s);
    lemma_read_number(minutes, s);
    lemma_read_letter(n, 's');
    assert(uptime_text(secs) =~= n.push('s'));
    law_uptime_parts_add_up(secs);
}

/// An uptime of so many hours, minutes and seconds is worded by these numbers in
/// this order, from the first that is not zero on.
pub proof fn law_uptime_text_of_its_parts(h: nat, m: nat, s: nat)
    requires
        m < 60,
        s < 60,
    ensures
        h > 0 ==> uptime_text(h * 3600 + m * 60 + s) == crate::text::decimal(h) + "h "@
            + crate::text::decimal(m) + "p "@ + crate::text::decimal(s) + "s"@,
        h == 0 && m > 0 ==> uptime_text(m * 60 + s) == crate::text::decimal(m) + "p "@
            + crate::text::decimal(s) + "s"@,
        h == 0 && m == 0 ==> uptime_text(s) == crate::text::decimal(s) + "s"@,
{
    let secs = h * 3600 + m * 60 + s;
    assert(secs / 3600 == h);
    assert((secs % 3600) / 60 == m);
    assert(secs % 60 == s);
}

/// What follows the first number in the text of an uptime.
spec fn uptime_tail(secs: nat) -> Seq<char> {
    let m = (secs % 3600) / 60;
    let s = secs % 60;
    let seconds = crate::text::decimal(s) + "s"@;
    if secs / 3600 > 0 {
        "h "@ + (crate::text::decimal(m) + ("p "@ + seconds))
    } else if m > 0 {
        "p "@ + seconds
    } else {
        "s"@
    }
}

/// The first number in the text of an uptime.
spec fn uptime_head(secs: nat) -> nat {
    if secs / 3600 > 0 {
        secs / 3600
    } else if (secs % 3600) / 60 > 0 {
        (secs % 3600) / 60
    } else {
        secs % 60
    }
}

proof fn lemma_uptime_head_and_tail(secs: nat)
    ensures
        uptime_text(secs) == crate::text::decimal(uptime_head(secs)) + uptime_tail(secs),
        uptime_tail(secs).len() > 0,
        uptime_tail(secs)[0] == if secs / 3600 > 0 {
            'h'
        } else if (secs % 3600) / 60 > 0 {
            'p'
        } else {
            's'
        },
{
    reveal_strlit("h ");
    reveal_strlit("p ");
    reveal_strlit("s");
    assert(uptime_text(secs) =~= crate::text::decimal(uptime_head(secs)) + uptime_tail(secs));
}

proof fn lemma_same_number(a: nat, b: nat)
    requires
        crate::text::decimal(a) == crate::text::decimal(b),
    ensures
        a == b,
{
    crate::text::law_decimal_reads_back(a);
    crate::text::law_decimal_reads_back(b);
}

/// The text of an uptime tells which uptime it is.
pub proof fn law_uptime_text_names_the_uptime(a: nat, b: nat)
    ensures
        uptime_text(a) == uptime_text(b) <==> a == b,
{
    if uptime_text(a) == uptime_text(b) {
        reveal_strlit("h ");
        reveal_strlit("p ");
        reveal_strlit("s");
        let (ma, mb) = ((a % 3600) / 60, (b % 3600) / 60);
        let (sa, sb) = (crate::text::decimal(a % 60), crate::text::decimal(b % 60));
        lemma_uptime_head_and_tail(a);
        lemma_uptime_head_and_tail(b);
        crate::text::law_decimal_reads_back(uptime_head(a));
        crate::text::law_decimal_reads_back(uptime_head(b));
        crate::text::law_decimal_reads_back(ma);
        crate::text::law_decimal_reads_back(mb);
        crate::text::law_decimal_reads_back(a % 60);
        crate::text::law_decimal_reads_back(b % 60);
        crate::text::lemma_digits_end_a_number(
            crate::text::decimal(uptime_head(a)),
            uptime_tail(a),
            crate::text::decimal(uptime_head(b)),
            uptime_tail(b),
        );
        lemma_same_number(uptime_head(a), uptime_head(b));
        if a / 3600 > 0 {
            let ta = crate::text::decimal(ma) + ("p "@ + (sa + "s"@));
            let tb = crate::text::decimal(mb) + ("p "@ + (sb + "s"@));
            assert(uptime_tail(a).skip(2) =~= ta);
            assert(uptime_tail(b).skip(2) =~= tb);
            crate::text::lemma_digits_end_a_number(
                crate::text::decimal(ma),
                "p "@ + (sa + "s"@),
                crate::text::decimal(mb),
                "p "@ + (sb + "s"@),
            );
            lemma_same_number(ma, mb);
        }
        if a / 3600 > 0 || ma > 0 {
            assert(("p "@ + (sa + "s"@)).skip(2) =~= sa + "s"@);
            assert(("p "@ + (sb + "s"@)).skip(2) =~= sb + "s"@);
            crate::text::lemma_digits_end_a_number(sa, "s"@, sb, "s"@);
            lemma_same_number(a % 60, b % 60);
        }
        law_uptime_parts_add_up(a);
        law_uptime_parts_add_up(b);
    }
}

} // verus!
