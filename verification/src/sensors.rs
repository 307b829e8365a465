//! The computing half of temperature sampling: each sensor file holds one
//! integer in millidegrees Celsius; the monitor parses every readable file's
//! contents and the hottest zone governs.

use vstd::prelude::*;

use crate::text::{parse_i32, spec_parse_int, spec_trim, trim_spaces};

verus! {

/// What one sensor file's contents yield: the trimmed text read as a
/// millidegree value, if it is a well-formed decimal integer in range.
pub open spec fn spec_reading(s: Seq<char>) -> Option<int> {
    spec_parse_int(spec_trim(s), i32::MIN as int, i32::MAX as int)
}

/// The hottest parseable reading among the given contents, if any parses.
pub open spec fn spec_max_reading(rs: Seq<Seq<char>>) -> Option<int>
    decreases rs.len(),
{
    if rs.len() == 0 {
        None
    } else {
        let rest = spec_max_reading(rs.skip(1));
        match (spec_reading(rs[0]), rest) {
            (Some(a), Some(b)) => Some(
                if a >= b {
                    a
                } else {
                    b
                },
            ),
            (Some(a), None) => Some(a),
            (None, r) => r,
        }
    }
}

/// Parses one sensor file's contents.
pub fn parse_reading(s: &str) -> (r: Option<i32>)
    ensures
        r matches Some(v) ==> spec_reading(s@) == Some(v as int),
        r is None ==> spec_reading(s@) is None,
{
    parse_i32(trim_spaces(s))
}

/// The maximum reading across every parseable sensor file, or `None` when
/// none parses: the sample a monitor tick works with.
pub fn max_temperature(readings: &Vec<String>) -> (r: Option<i32>)
    ensures
        r matches Some(v) ==> spec_max_reading(readings@.map_values(|s: String| s@)) == Some(
            v as int,
        ),
        r is None ==> spec_max_reading(readings@.map_values(|s: String| s@)) is None,
{
    let ghost rs = readings@.map_values(|s: String| s@);
    let mut acc: Option<i32> = None;
    let mut i: usize = readings.len();
    proof {
        assert(rs.skip(rs.len() as int) =~= Seq::<Seq<char>>::empty());
    }
    while i > 0
        invariant
            i <= readings@.len(),
            rs == readings@.map_values(|s: String| s@),
            rs.len() == readings@.len(),
            match acc {
                Some(v) => spec_max_reading(rs.skip(i as int)) == Some(v as int),
                None => spec_max_reading(rs.skip(i as int)) is None,
            },
        decreases i,
    {
        i = i - 1;
        let ghost tail = rs.skip(i + 1);
        proof {
            assert(rs.skip(i as int)[0] == rs[i as int]);
            assert(rs.skip(i as int).skip(1) =~= tail);
            assert(rs[i as int] == readings@[i as int]@);
        }
        let cur = parse_reading(readings[i].as_str());
        acc = match (cur, acc) {
            (Some(a), Some(b)) => Some(
                if a >= b {
                    a
                } else {
                    b
                },
            ),
            (Some(a), None) => Some(a),
            (None, b) => b,
        };
    }
    proof {
        assert(rs.skip(0) =~= rs);
    }
    acc
}

} // verus!
