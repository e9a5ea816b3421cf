//! Serial log line layout.
//!
//! Each log line starts with the uptime as `MM:SS:mmm` and the level name
//! coloured with an ANSI escape. The robot's logger prints; this module
//! computes the parts of the prefix.

use vstd::prelude::*;

verus! {

/// The robot's serial logger. The application registers it with the
/// logging facade; this type carries the computations of its line prefix.
pub struct RobotLogger;

/// ANSI escape that colours a level, indexed by level number (1 = error,
/// 2 = warn, 3 = info, 4 = debug, 5 = trace); level 0 has no colour.
pub open spec fn spec_level_colour(level: usize) -> Seq<char> {
    if level == 1 {
        "\x1B[31m"@
    } else if level == 2 {
        "\x1B[33m"@
    } else if level == 3 {
        "\x1B[34m"@
    } else if level == 4 {
        "\x1B[36m"@
    } else if level == 5 {
        "\x1B[37m"@
    } else {
        Seq::empty()
    }
}

/// The level colours are the ANSI foreground escapes `ESC [ 3 c m` with
/// colour digit c: 1 (red) for error, 3 (yellow) for warn, 4 (blue) for
/// info, 6 (cyan) for debug and 7 (white) for trace; level 0 is uncoloured.
/// The five colours are pairwise distinct.
pub proof fn lemma_level_colours()
    ensures
        spec_level_colour(1) == seq!['\x1B', '[', '3', '1', 'm'],
        spec_level_colour(2) == seq!['\x1B', '[', '3', '3', 'm'],
        spec_level_colour(3) == seq!['\x1B', '[', '3', '4', 'm'],
        spec_level_colour(4) == seq!['\x1B', '[', '3', '6', 'm'],
        spec_level_colour(5) == seq!['\x1B', '[', '3', '7', 'm'],
        spec_level_colour(0).len() == 0,
        forall|a: usize, b: usize|
            1 <= a <= 5 && 1 <= b <= 5 && a != b ==> spec_level_colour(a) != spec_level_colour(b),
{
    reveal_strlit("\x1B[31m");
    reveal_strlit("\x1B[33m");
    reveal_strlit("\x1B[34m");
    reveal_strlit("\x1B[36m");
    reveal_strlit("\x1B[37m");
    assert(spec_level_colour(1) =~= seq!['\x1B', '[', '3', '1', 'm']);
    assert(spec_level_colour(2) =~= seq!['\x1B', '[', '3', '3', 'm']);
    assert(spec_level_colour(3) =~= seq!['\x1B', '[', '3', '4', 'm']);
    assert(spec_level_colour(4) =~= seq!['\x1B', '[', '3', '6', 'm']);
    assert(spec_level_colour(5) =~= seq!['\x1B', '[', '3', '7', 'm']);
    assert forall|a: usize, b: usize|
        1 <= a <= 5 && 1 <= b <= 5 && a != b implies spec_level_colour(a) != spec_level_colour(b) by {
        assert(spec_level_colour(a)[3] != spec_level_colour(b)[3]);
    }
}

impl RobotLogger {
    /// The colour escape for log level `level` (red error, yellow warn,
    /// blue info, cyan debug, white trace); empty for level 0.
    pub fn level_colour(level: usize) -> (r: &'static str)
        requires
            level <= 5,
        ensures
            r@ == spec_level_colour(level),
    {
        if level == 1 {
            "\x1B[31m"
        } else if level == 2 {
            "\x1B[33m"
        } else if level == 3 {
            "\x1B[34m"
        } else if level == 4 {
            "\x1B[36m"
        } else if level == 5 {
            "\x1B[37m"
        } else {
            let e = "";
            proof {
                reveal_strlit("");
            }
            e
        }
    }

    /// Minutes, seconds within the minute, and milliseconds of an uptime
    /// of `total_secs` seconds and `subsec_millis` milliseconds.
    pub fn uptime_stamp(total_secs: u64, subsec_millis: u32) -> (r: (u64, u64, u32))
        ensures
            r.0 == total_secs / 60,
            r.1 == total_secs % 60,
            r.2 == subsec_millis,
            r.0 * 60 + r.1 == total_secs,
    {
        (total_secs / 60, total_secs % 60, subsec_millis)
    }
}

} // verus!
