//! Desktop notification text and the batching of error and warning events
//! that arrive close together.

use vstd::prelude::*;

verus! {

/// An event that may lead to a desktop notification.
#[derive(Clone, Copy, Debug, PartialEq, Eq, Structural)]
pub enum NotificationType {
    Error,
    Warning,
}

/// The plural suffix for a count: empty for one, `s` otherwise.
pub fn get_s(n: usize) -> (r: &'static str)
    ensures
        n == 1 ==> r@ == ""@,
        n != 1 ==> r@ == "s"@,
{
    if n == 1 {
        ""
    } else {
        "s"
    }
}

/// The decimal digit for `d < 10`.
pub open spec fn digit_char(d: nat) -> char {
    ((d + '0' as u32) as u32) as char
}

/// The decimal numeral of `n`, without leading zeros.
pub open spec fn decimal(n: nat) -> Seq<char>
    decreases n,
{
    if n < 10 {
        seq![digit_char(n)]
    } else {
        decimal(n / 10).push(digit_char(n % 10))
    }
}

/// The decimal numeral of `n`.
pub fn decimal_string(n: usize) -> (r: String)
    ensures
        r@ == decimal(n as nat),
    decreases n,
{
    if n < 10 {
        let mut r = String::new();
        r.push(((n as u32) + ('0' as u32)) as u8 as char);
        r
    } else {
        let mut r = decimal_string(n / 10);
        r.push((((n % 10) as u32) + ('0' as u32)) as u8 as char);
        r
    }
}

/// `"<n> <word>"` with the plural suffix for `n`.
pub open spec fn counted(n: nat, word: Seq<char>) -> Seq<char> {
    decimal(n) + seq![' '] + word + if n == 1 {
        Seq::empty()
    } else {
        seq!['s']
    }
}

/// The title of a notification: errors take precedence over warnings.
pub fn notification_summary(error_count: usize, warning_count: usize) -> (r: String)
    ensures
        error_count > 0 ==> r@ == "❌ fmrl Errors 🌈"@,
        error_count == 0 && warning_count > 0 ==> r@ == "⚠️ fmrl Warnings 🌈"@,
        error_count == 0 && warning_count == 0 ==> r@ == ""@,
{
    if error_count > 0 {
        "❌ fmrl Errors 🌈".to_owned()
    } else if warning_count > 0 {
        "⚠️ fmrl Warnings 🌈".to_owned()
    } else {
        "".to_owned()
    }
}

/// The body of a notification: the error count, then the warning count,
/// each only when non-zero, joined by ` and `.
pub fn notification_body(error_count: usize, warning_count: usize) -> (r: String)
    ensures
        r@ == if error_count > 0 && warning_count > 0 {
            counted(error_count as nat, "error"@) + " and "@ + counted(warning_count as nat, "warning"@)
        } else if error_count > 0 {
            counted(error_count as nat, "error"@)
        } else if warning_count > 0 {
            counted(warning_count as nat, "warning"@)
        } else {
            Seq::empty()
        },
{
    proof {
        reveal_strlit("s");
        reveal_strlit("");
    }
    let mut body = String::new();
    if error_count > 0 {
        body = decimal_string(error_count);
        body.push(' ');
        body.append("error");
        body.append(get_s(error_count));
    }
    if warning_count > 0 {
        if error_count > 0 {
            body.append(" and ");
        }
        body.append(decimal_string(warning_count).as_str());
        body.push(' ');
        body.append("warning");
        body.append(get_s(warning_count));
    }
    assert(body@ =~= if error_count > 0 && warning_count > 0 {
        counted(error_count as nat, "error"@) + " and "@ + counted(warning_count as nat, "warning"@)
    } else if error_count > 0 {
        counted(error_count as nat, "error"@)
    } else if warning_count > 0 {
        counted(warning_count as nat, "warning"@)
    } else {
        Seq::empty()
    });
    body
}

/// What the notifier does next.
#[derive(Clone, Copy, Debug, PartialEq, Eq, Structural)]
pub enum DebounceStep {
    /// The quiet period is over: notify about these error and warning
    /// counts, then start a new period.
    Notify(usize, usize),
    /// The quiet period is over with nothing gathered: start a new period.
    Restart,
    /// Wait this many milliseconds for the next event.
    Wait(u64),
}

/// Counts of the events gathered since the last notification.
pub struct NotificationBatch {
    pub error_count: usize,
    pub warning_count: usize,
}

impl NotificationBatch {
    /// An empty batch.
    pub fn new() -> (r: Self)
        ensures
            r.error_count == 0,
            r.warning_count == 0,
    {
        NotificationBatch { error_count: 0, warning_count: 0 }
    }

    /// Counts one more event of its kind; a count that has reached the
    /// largest `usize` stays there.
    pub fn record(&mut self, event: NotificationType)
        ensures
            event == NotificationType::Error ==> final(self).error_count == if old(self).error_count
                == usize::MAX {
                usize::MAX as int
            } else {
                old(self).error_count + 1
            },
            event == NotificationType::Error ==> final(self).warning_count == old(self).warning_count,
            event == NotificationType::Warning ==> final(self).warning_count == if old(
                self,
            ).warning_count == usize::MAX {
                usize::MAX as int
            } else {
                old(self).warning_count + 1
            },
            event == NotificationType::Warning ==> final(self).error_count == old(self).error_count,
    {
        match event {
            NotificationType::Error => {
                self.error_count = self.error_count.saturating_add(1);
            },
            NotificationType::Warning => {
                self.warning_count = self.warning_count.saturating_add(1);
            },
        }
    }

    /// Decides the next move once `elapsed_ms` have passed since the last
    /// event or restart, with a quiet period of `interval_ms`: notify about
    /// the gathered events (and empty the batch) when the period is over and
    /// something was gathered, restart when it is over and nothing was, and
    /// otherwise wait out the rest of the period.
    pub fn step(&mut self, elapsed_ms: u64, interval_ms: u64) -> (r: DebounceStep)
        ensures
            elapsed_ms < interval_ms ==> r == DebounceStep::Wait((interval_ms - elapsed_ms) as u64)
                && *final(self) == *old(self),
            elapsed_ms >= interval_ms && (old(self).error_count > 0 || old(self).warning_count > 0)
                ==> r == DebounceStep::Notify(old(self).error_count, old(self).warning_count),
            elapsed_ms >= interval_ms && old(self).error_count == 0 && old(self).warning_count == 0
                ==> r == DebounceStep::Restart,
            elapsed_ms >= interval_ms ==> final(self).error_count == 0 && final(self).warning_count
                == 0,
    {
        if elapsed_ms < interval_ms {
            return DebounceStep::Wait(interval_ms - elapsed_ms);
        }
        match self.flush() {
            Some((errors, warnings)) => DebounceStep::Notify(errors, warnings),
            None => DebounceStep::Restart,
        }
    }

    /// Once the quiet period is over: the counts to notify about, if any
    /// event was gathered, and an empty batch from then on.
    pub fn flush(&mut self) -> (r: Option<(usize, usize)>)
        ensures
            old(self).error_count == 0 && old(self).warning_count == 0 ==> r is None,
            old(self).error_count > 0 || old(self).warning_count > 0 ==> r == Some(
                (old(self).error_count, old(self).warning_count),
            ),
            final(self).error_count == 0,
            final(self).warning_count == 0,
    {
        if self.error_count > 0 || self.warning_count > 0 {
            let counts = (self.error_count, self.warning_count);
            self.error_count = 0;
            self.warning_count = 0;
            Some(counts)
        } else {
            None
        }
    }
}

} // verus!
