//! Monitors as capture targets.
//!
//! A monitor is known to the pipeline only by its platform handle; every
//! query about it (size, name, refresh rate) is answered by the platform.
//! What belongs to the pipeline itself is the selection logic: picking a
//! monitor out of an enumerated list by its one-based index, and reading a
//! monitor's index back out of its device name.

use vstd::prelude::*;

verus! {

/// The fixed prefix of every display device name, in UTF-16 units: a
/// doubled backslash, a dot, a backslash, and the word DISPLAY, with the
/// monitor's decimal index following it.
pub open spec fn display_prefix() -> Seq<u16> {
    seq![92u16, 92u16, 46u16, 92u16, 68u16, 73u16, 83u16, 80u16, 76u16, 65u16, 89u16]
}

/// Whether every unit of a buffer is a decimal digit.
pub open spec fn is_decimal_digits(s: Seq<u16>) -> bool {
    forall|i: int| 0 <= i < s.len() ==> 48 <= #[trigger] s[i] <= 57
}

/// The number a buffer of decimal digits denotes.
pub open spec fn decimal_value(s: Seq<u16>) -> int
    decreases s.len(),
{
    if s.len() == 0 {
        0
    } else {
        decimal_value(s.drop_last()) * 10 + (s.last() - 48)
    }
}

proof fn lemma_decimal_value_nonneg(s: Seq<u16>)
    requires
        is_decimal_digits(s),
    ensures
        decimal_value(s) >= 0,
    decreases s.len(),
{
    if s.len() > 0 {
        assert(is_decimal_digits(s.drop_last()));
        lemma_decimal_value_nonneg(s.drop_last());
    }
}

/// A digit buffer denotes at least as much as any of its prefixes: digits
/// appended on the right only grow the value.
proof fn lemma_decimal_value_prefix_le(s: Seq<u16>, i: int)
    requires
        is_decimal_digits(s),
        0 <= i <= s.len(),
    ensures
        decimal_value(s.take(i)) <= decimal_value(s),
    decreases s.len() - i,
{
    if i < s.len() {
        lemma_decimal_value_prefix_le(s, i + 1);
        let t = s.take(i + 1);
        assert(t.drop_last() =~= s.take(i));
        assert(is_decimal_digits(s.take(i)));
        lemma_decimal_value_nonneg(s.take(i));
        assert(decimal_value(s.take(i)) <= decimal_value(t));
    } else {
        assert(s.take(i) =~= s);
    }
}

/// Errors raised while resolving or querying a monitor.
#[derive(Clone, Copy, PartialEq, Eq, Structural, Debug)]
pub enum MonitorError {
    /// No monitor exists at the requested position.
    NotFound,
    /// The monitor's device name could not be determined.
    NameNotFound,
    /// A requested monitor index was below one; indexing starts at one.
    IndexError,
    /// The platform could not supply the monitor's information record.
    MonitorInfoError,
    /// The platform could not supply the monitor's display settings.
    MonitorSettingsError,
    /// The platform could not supply the monitor's display-device record.
    MonitorNameError,
    /// The device name did not end in a readable decimal index.
    MonitorIndexError,
    /// A platform string was not valid UTF-16.
    MonitorStringError,
    /// Any other platform error, carried as the platform's own code.
    WindowsError { code: i32 },
}

/// A monitor eligible for capture, identified by its platform handle.
#[derive(Clone, Copy, PartialEq, Eq, Structural, Debug)]
pub struct Monitor {
    monitor_handle: isize,
}

impl View for Monitor {
    type V = isize;

    closed spec fn view(&self) -> isize {
        self.monitor_handle
    }
}

impl Monitor {
    /// Wrap a raw platform monitor handle.
    pub fn from_handle(monitor_handle: isize) -> (m: Monitor)
        ensures
            m@ == monitor_handle,
    {
        Monitor { monitor_handle }
    }

    /// The raw platform handle of the monitor.
    pub fn as_raw_hmonitor(&self) -> (h: isize)
        ensures
            h == self@,
    {
        self.monitor_handle
    }

    /// Select the monitor at a one-based index out of an enumerated list.
    ///
    /// An index below one is rejected outright; an index past the end of the
    /// list means no such monitor exists.
    pub fn from_index(monitors: &Vec<Monitor>, index: usize) -> (r: Result<Monitor, MonitorError>)
        ensures
            index < 1 ==> r == Err::<Monitor, MonitorError>(MonitorError::IndexError),
            index >= 1 && index - 1 >= monitors@.len()
                ==> r == Err::<Monitor, MonitorError>(MonitorError::NotFound),
            index >= 1 && index - 1 < monitors@.len()
                ==> r == Ok::<Monitor, MonitorError>(monitors@[index - 1]),
    {
        if index < 1 {
            return Err(MonitorError::IndexError);
        }
        if index - 1 >= monitors.len() {
            return Err(MonitorError::NotFound);
        }
        Ok(monitors[index - 1])
    }

    /// Read a monitor's one-based index out of its device name: the fixed
    /// display prefix followed by the index in decimal. Anything else — a
    /// missing or different prefix, no digits, a stray non-digit, or an
    /// index too large to represent — is rejected.
    pub fn index(device_name: &Vec<u16>) -> (r: Result<usize, MonitorError>)
        ensures
            ({
                let pre = display_prefix();
                let digits = device_name@.skip(pre.len() as int);
                let good = device_name@.len() > pre.len()
                    && device_name@.take(pre.len() as int) == pre
                    && is_decimal_digits(digits)
                    && decimal_value(digits) <= usize::MAX;
                match r {
                    Ok(v) => good && v == decimal_value(digits),
                    Err(e) => !good && e == MonitorError::MonitorIndexError,
                }
            }),
    {
        let pre: Vec<u16> = vec![92u16, 92u16, 46u16, 92u16, 68u16, 73u16, 83u16, 80u16, 76u16,
            65u16, 89u16];
        proof {
            assert(pre@ =~= display_prefix());
        }
        let n = device_name.len();
        if n <= pre.len() {
            return Err(MonitorError::MonitorIndexError);
        }
        let mut j: usize = 0;
        while j < pre.len()
            invariant
                j <= pre@.len(),
                pre@ == display_prefix(),
                n == device_name@.len(),
                n > pre@.len(),
                forall|k: int| 0 <= k < j ==> device_name@[k] == pre@[k],
            decreases pre@.len() - j,
        {
            if device_name[j] != pre[j] {
                proof {
                    assert(device_name@.take(pre@.len() as int)[j as int] != pre@[j as int]);
                }
                return Err(MonitorError::MonitorIndexError);
            }
            j = j + 1;
        }
        proof {
            assert(device_name@.take(pre@.len() as int) =~= pre@);
        }
        let ghost digits = device_name@.skip(pre@.len() as int);
        let start = pre.len();
        let mut value: usize = 0;
        let mut i: usize = start;
        while i < n
            invariant
                start == display_prefix().len(),
                start <= i <= n,
                n == device_name@.len(),
                digits == device_name@.skip(start as int),
                is_decimal_digits(digits.take(i - start)),
                value == decimal_value(digits.take(i - start)),
            decreases n - i,
        {
            let unit = device_name[i];
            if unit < 48 || unit > 57 {
                proof {
                    assert(digits[i - start] == device_name@[i as int]);
                    assert(!is_decimal_digits(digits));
                }
                return Err(MonitorError::MonitorIndexError);
            }
            let digit: usize = (unit - 48) as usize;
            proof {
                let t = digits.take(i - start + 1);
                assert(t.drop_last() =~= digits.take(i - start));
                assert(t.last() == device_name@[i as int]);
                assert(is_decimal_digits(t));
                assert(decimal_value(t) == value * 10 + digit);
                vstd::arithmetic::div_mod::lemma_fundamental_div_mod(usize::MAX as int, 10);
            }
            if value > usize::MAX / 10 || (value == usize::MAX / 10 && digit > usize::MAX % 10) {
                proof {
                    let t = digits.take(i - start + 1);
                    assert(decimal_value(t) > usize::MAX);
                    assert(is_decimal_digits(digits) ==> decimal_value(digits) > usize::MAX) by {
                        if is_decimal_digits(digits) {
                            lemma_decimal_value_prefix_le(digits, i - start + 1);
                        }
                    }
                }
                return Err(MonitorError::MonitorIndexError);
            }
            value = value * 10 + digit;
            i = i + 1;
        }
        proof {
            assert(digits.take(n - start) =~= digits);
        }
        Ok(value)
    }
}

} // verus!
