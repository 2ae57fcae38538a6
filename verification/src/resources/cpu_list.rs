//! The text form of a CPU set: decimal core IDs and inclusive ranges
//! `low-high`, separated by commas, such as `0-3,8`. One line feed may end
//! the text, as the kernel's files end in one.

use vstd::prelude::*;
use vstd::string::StringSliceAdditionalSpecFns;
use vstd::utf8::encode_utf8;
use crate::resources::cpu::CpuSet;
use crate::resources::cpu::Error;

verus! {

pub open spec fn is_digit(byte: u8) -> bool {
    48 <= byte <= 57
}

/// The number that the decimal digits write.
pub open spec fn decimal(digits: Seq<u8>) -> nat
    decreases digits.len(),
{
    if digits.len() == 0 {
        0
    } else {
        decimal(digits.drop_last()) * 10 + (digits.last() - 48) as nat
    }
}

/// Where the run of digits that begins at `from` ends.
pub open spec fn digits_end(text: Seq<u8>, from: int) -> int
    decreases text.len() - from,
{
    if 0 <= from < text.len() && is_digit(text[from]) {
        digits_end(text, from + 1)
    } else {
        from
    }
}

/// The cores from `low` to `high`, both included.
pub open spec fn range(low: nat, high: nat) -> Set<usize> {
    Set::new(|core: usize| low <= core <= high)
}

/// The cores that the items from position `from` to the end of the text
/// name, or `None` where the text is malformed there: an item without
/// digits, a number that no `usize` holds, a range that descends, or
/// anything but a comma between two items.
pub open spec fn items(text: Seq<u8>, from: int) -> Option<Set<usize>>
    decreases text.len() - from,
{
    let low_end = digits_end(text, from);
    let low = decimal(text.subrange(from, low_end));
    let dashed = low_end < text.len() && text[low_end] == 45;
    let high_end = if dashed {
        digits_end(text, low_end + 1)
    } else {
        low_end
    };
    let high = if dashed {
        decimal(text.subrange(low_end + 1, high_end))
    } else {
        low
    };
    if from < 0 || low_end <= from || low_end > text.len() || low > usize::MAX {
        None
    } else if dashed && (high_end <= low_end + 1 || high_end > text.len() || high > usize::MAX
        || high < low) {
        None
    } else if high_end == text.len() || (high_end + 1 == text.len() && text[high_end] == 10) {
        Some(range(low, high))
    } else if text[high_end] == 44 {
        match items(text, high_end + 1) {
            Some(more) => Some(range(low, high).union(more)),
            None => None,
        }
    } else {
        None
    }
}

/// The cores that a CPU list names, or `None` where it is malformed.
pub open spec fn cpu_list(text: Seq<u8>) -> Option<Set<usize>> {
    items(text, 0)
}

/// The cores that a CPU list names, the list given as text.
pub open spec fn named_cores(text: Seq<char>) -> Option<Set<usize>> {
    cpu_list(encode_utf8(text))
}

/// The cores that the CPU lists name together, a malformed list naming
/// none.
pub open spec fn named_together(texts: Seq<String>) -> Set<usize>
    decreases texts.len(),
{
    if texts.len() == 0 {
        Set::empty()
    } else {
        named_together(texts.drop_last()).union(
            match named_cores(texts.last()@) {
                Some(cores) => cores,
                None => Set::empty(),
            },
        )
    }
}

/// Reads the run of digits at `from`: where it ends, and its number if a
/// `usize` holds it.
fn scan_digits(text: &[u8], from: usize) -> (found: (usize, Option<usize>))
    requires
        from <= text@.len(),
    ensures
        found.0 == digits_end(text@, from as int),
        from <= found.0 <= text@.len(),
        decimal(text@.subrange(from as int, found.0 as int)) <= usize::MAX ==> found.1 == Some(
            decimal(text@.subrange(from as int, found.0 as int)) as usize,
        ),
        decimal(text@.subrange(from as int, found.0 as int)) > usize::MAX ==> found.1.is_none(),
{
    let mut at: usize = from;
    let mut value: usize = 0;
    let mut overflow = false;
    proof {
        assert(text@.subrange(from as int, from as int).len() == 0);
    }
    while at < text.len() && 48 <= text[at] && text[at] <= 57
        invariant
            from <= at <= text@.len(),
            digits_end(text@, from as int) == digits_end(text@, at as int),
            !overflow ==> value == decimal(text@.subrange(from as int, at as int)),
            overflow ==> decimal(text@.subrange(from as int, at as int)) > usize::MAX,
        decreases text@.len() - at,
    {
        let digit: usize = (text[at] - 48) as usize;
        proof {
            let longer = text@.subrange(from as int, at + 1);
            assert(longer.drop_last() =~= text@.subrange(from as int, at as int));
            assert(longer.last() == text@[at as int]);
        }
        if !overflow {
            match value.checked_mul(10) {
                Some(shifted) => match shifted.checked_add(digit) {
                    Some(next) => {
                        value = next;
                    },
                    None => {
                        overflow = true;
                    },
                },
                None => {
                    overflow = true;
                },
            }
        }
        at += 1;
    }
    if overflow {
        (at, None)
    } else {
        (at, Some(value))
    }
}

impl CpuSet {
    /// Adds every core from `low` to `high`, both included.
    pub fn insert_range(&mut self, low: usize, high: usize)
        requires
            old(self).wf(),
        ensures
            final(self).wf(),
            final(self).members() == old(self).members().union(range(low as nat, high as nat)),
    {
        if low > high {
            proof {
                assert(self.members() =~= self.members().union(range(low as nat, high as nat)));
            }
            return ;
        }
        let mut core: usize = low;
        proof {
            assert(self.members() =~= self.members().union(
                Set::new(|c: usize| low <= c && c < core),
            ));
        }
        while core < high
            invariant
                low <= core <= high,
                self.wf(),
                self.members() == old(self).members().union(
                    Set::new(|c: usize| low <= c && c < core),
                ),
            decreases high - core,
        {
            self.insert(core);
            proof {
                assert(self.members() =~= old(self).members().union(
                    Set::new(|c: usize| low <= c && c < core + 1),
                ));
            }
            core += 1;
        }
        self.insert(high);
        proof {
            assert(self.members() =~= old(self).members().union(range(low as nat, high as nat)));
        }
    }
}

/// Parses a CPU list. A list that is well formed names at least one core.
pub fn parse_cpu_list(text: &str) -> (parsed: Result<CpuSet, Error>)
    ensures
        match named_cores(text@) {
            Some(cores) => parsed matches Ok(set) && set.wf() && set.members() == cores
                && set@.len() > 0,
            None => parsed matches Err(error) && error == Error::MalformedCpuList,
        },
{
    let bytes = text.as_bytes();
    let mut set = CpuSet::new();
    let mut at: usize = 0;
    proof {
        assert(set.members() =~= Set::<usize>::empty());
        if items(bytes@, 0) is Some {
            assert(items(bytes@, 0).unwrap() =~= set.members().union(items(bytes@, 0).unwrap()));
        }
    }
    loop
        invariant
            at <= bytes@.len(),
            set.wf(),
            items(bytes@, 0) is Some <==> items(bytes@, at as int) is Some,
            items(bytes@, at as int) is Some ==> items(bytes@, 0).unwrap() == set.members().union(
                items(bytes@, at as int).unwrap(),
            ),
            bytes@ == text.spec_bytes(),
            at > 0 ==> set@.len() > 0,
        decreases bytes@.len() - at,
    {
        let ghost before = set.members();
        let (low_end, low_value) = scan_digits(bytes, at);
        if low_end == at {
            return Err(Error::MalformedCpuList);
        }
        let low: usize = match low_value {
            Some(value) => value,
            None => {
                return Err(Error::MalformedCpuList);
            },
        };
        let mut high_end: usize = low_end;
        let mut high: usize = low;
        if low_end < bytes.len() && bytes[low_end] == 45 {
            let (end, high_value) = scan_digits(bytes, low_end + 1);
            if end == low_end + 1 {
                return Err(Error::MalformedCpuList);
            }
            high = match high_value {
                Some(value) => value,
                None => {
                    return Err(Error::MalformedCpuList);
                },
            };
            if high < low {
                return Err(Error::MalformedCpuList);
            }
            high_end = end;
        }
        set.insert_range(low, high);
        proof {
            assert(range(low as nat, high as nat).contains(low));
            assert(set.members().contains(low));
            assert(set@.contains(low));
        }
        if high_end == bytes.len() || (high_end + 1 == bytes.len() && bytes[high_end] == 10) {
            return Ok(set);
        }
        if bytes[high_end] != 44 {
            return Err(Error::MalformedCpuList);
        }
        proof {
            let more = items(bytes@, high_end + 1);
            if more is Some {
                assert(items(bytes@, at as int) == Some(
                    range(low as nat, high as nat).union(more.unwrap()),
                ));
                assert(items(bytes@, 0).unwrap() =~= set.members().union(more.unwrap()));
            }
        }
        at = high_end + 1;
    }
}

} // verus!
