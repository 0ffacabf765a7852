//! Bluetooth devices, read from the text report of `system_profiler
//! SPBluetoothDataType`, which the caller runs.

use vstd::prelude::*;
use crate::text::{contains, contains_text, occurs, occurs_at, texts, trim, trimmed};

verus! {

/// Lister of paired and connected Bluetooth devices.
pub struct BluetoothController;

/// The lines of `s[start..]`, scanning from `i`; a line ends at `'\n'`.
pub open spec fn lines_from(s: Seq<char>, start: int, i: int) -> Seq<Seq<char>>
    recommends
        0 <= start <= i <= s.len(),
    decreases s.len() - i,
{
    if i >= s.len() {
        seq![s.subrange(start, s.len() as int)]
    } else if s[i] == '\n' {
        seq![s.subrange(start, i)] + lines_from(s, i + 1, i + 1)
    } else {
        lines_from(s, start, i + 1)
    }
}

/// `s` without its trailing colons.
pub open spec fn strip_colons(s: Seq<char>) -> Seq<char>
    decreases s.len(),
{
    if s.len() > 0 && s.last() == ':' {
        strip_colons(s.drop_last())
    } else {
        s
    }
}

/// A heading of the report, rather than a device.
pub open spec fn is_heading(name: Seq<char>) -> bool {
    contains_text(name, "Devices"@) || contains_text(name, "Services"@) || contains_text(
        name,
        "Controller"@,
    ) || name == "Connected"@ || name == "Not Connected"@ || name == "Paired"@ || name
        == "Not Paired"@
}

/// The device that a line of the report names: a trimmed line of at least two
/// characters that ends in a colon and does not begin with "Bluetooth",
/// without its trailing colons, unless that is a heading.
pub open spec fn device_in(line: Seq<char>) -> Option<Seq<char>> {
    let t = trim(line);
    if t.len() >= 2 && t.last() == ':' && !occurs_at(t, "Bluetooth"@, 0) && !is_heading(
        strip_colons(t),
    ) {
        Some(strip_colons(t))
    } else {
        None
    }
}

/// The devices named by the lines, in order.
pub open spec fn devices_in(lines: Seq<Seq<char>>) -> Seq<Seq<char>>
    decreases lines.len(),
{
    if lines.len() == 0 {
        Seq::empty()
    } else {
        (match device_in(lines[0]) {
            Some(d) => seq![d],
            None => Seq::empty(),
        }) + devices_in(lines.drop_first())
    }
}

/// The devices named in a report.
pub open spec fn device_names(report: Seq<char>) -> Seq<Seq<char>> {
    devices_in(lines_from(report, 0, 0))
}

proof fn lemma_devices_prepend(line: Seq<char>, rest: Seq<Seq<char>>)
    ensures
        devices_in(seq![line] + rest) == (match device_in(line) {
            Some(d) => seq![d],
            None => Seq::empty(),
        }) + devices_in(rest),
{
    assert((seq![line] + rest).drop_first() =~= rest);
}

proof fn lemma_devices_one(line: Seq<char>)
    ensures
        devices_in(seq![line]) == (match device_in(line) {
            Some(d) => seq![d],
            None => Seq::<Seq<char>>::empty(),
        }),
{
    lemma_devices_prepend(line, Seq::empty());
    assert(seq![line] + Seq::<Seq<char>>::empty() =~= seq![line]);
    assert(devices_in(Seq::<Seq<char>>::empty()) == Seq::<Seq<char>>::empty());
}

/// The length of `s` once its trailing colons are gone.
fn colons_stripped(s: &str) -> (r: usize)
    ensures
        r <= s@.len(),
        strip_colons(s@) == s@.subrange(0, r as int),
{
    let mut b = s.unicode_len();
    assert(s@.subrange(0, b as int) =~= s@);
    while b > 0 && s.get_char(b - 1) == ':'
        invariant
            b <= s@.len(),
            strip_colons(s@) == strip_colons(s@.subrange(0, b as int)),
        decreases b,
    {
        assert(s@.subrange(0, b as int).drop_last() =~= s@.subrange(0, b - 1));
        b = b - 1;
    }
    proof {
        let t = s@.subrange(0, b as int);
        if t.len() > 0 {
            assert(t.last() == s@[b - 1]);
        }
    }
    b
}

/// Tells whether a name is a heading of the report.
fn heading(name: &String) -> (r: bool)
    ensures
        r == is_heading(name@),
{
    let n = name.as_str();
    contains(n, "Devices") || contains(n, "Services") || contains(n, "Controller") || *name
        == String::from_str("Connected") || *name == String::from_str("Not Connected") || *name
        == String::from_str("Paired") || *name == String::from_str("Not Paired")
}

/// The device that one line of the report names, if any.
fn device_of(line: &str) -> (r: Option<String>)
    ensures
        r matches Some(d) ==> device_in(line@) == Some(d@),
        r is None ==> device_in(line@) is None,
{
    let t = trimmed(line);
    let n = t.unicode_len();
    if n < 2 || t.as_str().get_char(n - 1) != ':' || occurs(t.as_str(), "Bluetooth", 0) {
        return None;
    }
    let b = colons_stripped(t.as_str());
    let name = String::from_str(t.as_str().substring_char(0, b));
    if heading(&name) {
        None
    } else {
        Some(name)
    }
}

/// Adds the device that `s[start..end]` names, if any, to `names`.
fn keep_device(names: &mut Vec<String>, s: &str, start: usize, end: usize)
    requires
        start <= end <= s@.len(),
    ensures
        texts(final(names)@) == texts(old(names)@) + devices_in(
            seq![s@.subrange(start as int, end as int)],
        ),
{
    let line = s.substring_char(start, end);
    proof {
        lemma_devices_one(s@.subrange(start as int, end as int));
    }
    match device_of(line) {
        Some(d) => {
            names.push(d);
        },
        None => {},
    }
    assert(texts(names@) =~= texts(old(names)@) + devices_in(
        seq![s@.subrange(start as int, end as int)],
    ));
}

impl BluetoothController {
    /// The device names in a text report: per line, the trimmed line if it
    /// ends in a colon, has two characters or more and does not begin with
    /// "Bluetooth", without its trailing colons, and unless it is a heading
    /// (it holds "Devices", "Services" or "Controller", or is "Connected",
    /// "Not Connected", "Paired" or "Not Paired").
    pub fn list_devices_simple(report: &str) -> (r: Vec<String>)
        ensures
            texts(r@) == device_names(report@),
    {
        let n = report.unicode_len();
        let mut names: Vec<String> = Vec::new();
        let mut start: usize = 0;
        let mut i: usize = 0;
        while i < n
            invariant
                n == report@.len(),
                start <= i <= n,
                texts(names@) + devices_in(lines_from(report@, start as int, i as int))
                    == device_names(report@),
            decreases n - i,
        {
            if report.get_char(i) == '\n' {
                let ghost line = report@.subrange(start as int, i as int);
                let ghost tail = lines_from(report@, i + 1, i + 1);
                proof {
                    assert(lines_from(report@, start as int, i as int) == seq![line] + tail);
                    lemma_devices_prepend(line, tail);
                    lemma_devices_one(line);
                }
                let ghost before = texts(names@);
                keep_device(&mut names, report, start, i);
                assert(texts(names@) + devices_in(tail) =~= before + devices_in(
                    seq![line] + tail,
                ));
                i = i + 1;
                start = i;
            } else {
                i = i + 1;
            }
        }
        let ghost before = texts(names@);
        keep_device(&mut names, report, start, n);
        assert(texts(names@) =~= before + devices_in(lines_from(report@, start as int, i as int)));
        names
    }
}

} // verus!
