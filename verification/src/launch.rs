//! What the screensaver is asked to do by its command line: `/c` for the
//! settings, `/p <window>` for the preview, `/s` to run; also written
//! `/c:1234`, `/p:1234` and `/:1234`.

use vstd::prelude::*;
use vstd::string::StringSliceAdditionalSpecFns;
use vstd::utf8::{is_char_boundary, encode_utf8};
use crate::number::{parsed_isize, parse_isize_range};
use crate::text::{lowercase, to_lowercase};

verus! {

/// What the command line asks for.
#[derive(Debug, Clone, Copy, PartialEq, Eq, Structural)]
pub enum LaunchCommand {
    /// The settings dialog.
    Configure,
    /// The preview inside the given parent window.
    Preview(isize),
    /// A preview whose window handle is not a number: an error message.
    BadPreviewHandle,
    /// A preview with no window handle: nothing to do.
    NoPreviewHandle,
    /// The full-screen screensaver.
    Fullscreen,
    /// An unknown argument: an error message.
    InvalidArgument,
}

/// Where, in bytes, the first argument splits into a command and a
/// parameter: with `:` as its third byte, at its first `:`; else with `:`
/// as its second byte, after the first byte; else (`None`) nowhere. Only
/// when the lower-cased argument is longer than two bytes.
pub open spec fn colon_split(first: Seq<u8>, lowered: Seq<u8>) -> Option<(int, int)> {
    if lowered.len() > 2 && first.len() > 2 && first[2] == 58 {
        let cp = first_byte(first, 58);
        Some((cp, cp + 1))
    } else if lowered.len() > 2 && first.len() > 1 && first[1] == 58 {
        Some((1, 2))
    } else {
        None
    }
}

/// The first position of byte `b` in `s`, or `s.len()`.
pub open spec fn first_byte(s: Seq<u8>, b: u8) -> int
    decreases s.len(),
{
    if s.len() == 0 {
        0
    } else if s[0] == b {
        0
    } else {
        1 + first_byte(s.drop_first(), b)
    }
}

/// The lower-cased argument can be cut where `colon_split` says.
pub open spec fn split_at_boundaries(first: Seq<u8>, lowered: Seq<u8>) -> bool {
    match colon_split(first, lowered) {
        Some((a, b)) => is_char_boundary(lowered, a) && is_char_boundary(lowered, b),
        None => true,
    }
}

/// Bytes read as characters one for one (ASCII stays itself).
pub open spec fn byte_chars(b: Seq<u8>) -> Seq<char> {
    Seq::new(b.len(), |i: int| b[i] as char)
}

/// What the command line asks for, given the bytes of its first argument,
/// of that argument lower-cased, and of its second argument if any: the
/// command is the lower-cased argument (up to the split), the parameter
/// what follows the split, or else the second argument; `/c`, `/p` and
/// `/s` are known, and `/p` reads its parameter as a window handle.
pub open spec fn launch_of(first: Seq<u8>, lowered: Seq<u8>, second: Option<Seq<u8>>) -> LaunchCommand {
    let cmd = match colon_split(first, lowered) {
        Some((a, b)) => lowered.take(a),
        None => lowered,
    };
    let param = match colon_split(first, lowered) {
        Some((a, b)) => Some(lowered.skip(b)),
        None => second,
    };
    if cmd == seq![47u8, 99u8] {
        LaunchCommand::Configure
    } else if cmd == seq![47u8, 112u8] {
        match param {
            Some(p) => match parsed_isize(byte_chars(p)) {
                Some(h) => LaunchCommand::Preview(h),
                None => LaunchCommand::BadPreviewHandle,
            },
            None => LaunchCommand::NoPreviewHandle,
        }
    } else if cmd == seq![47u8, 115u8] {
        LaunchCommand::Fullscreen
    } else {
        LaunchCommand::InvalidArgument
    }
}

/// The bytes `b[lo..hi]` are exactly `x`, `y`.
fn bytes_are(b: &[u8], lo: usize, hi: usize, x: u8, y: u8) -> (r: bool)
    requires
        lo <= hi <= b@.len(),
    ensures
        r == (b@.subrange(lo as int, hi as int) == seq![x, y]),
{
    if hi - lo != 2 {
        assert(seq![x, y].len() == 2);
        return false;
    }
    let r = b[lo] == x && b[lo + 1] == y;
    assert(r == (b@.subrange(lo as int, hi as int) =~= seq![x, y]));
    r
}

/// The characters `byte_chars(b[lo..hi])`.
fn chars_of_bytes(b: &[u8], lo: usize, hi: usize) -> (v: Vec<char>)
    requires
        lo <= hi <= b@.len(),
    ensures
        v@ == byte_chars(b@.subrange(lo as int, hi as int)),
{
    let mut v: Vec<char> = Vec::new();
    let mut i = lo;
    while i < hi
        invariant
            lo <= i <= hi <= b@.len(),
            v@ == byte_chars(b@.subrange(lo as int, i as int)),
        decreases hi - i,
    {
        v.push(b[i] as char);
        assert(byte_chars(b@.subrange(lo as int, i + 1)) =~= byte_chars(b@.subrange(lo as int, i as int)).push(b@[i as int] as char));
        i = i + 1;
    }
    v
}

/// The first position of byte `x` in `b`, or its length.
fn find_byte(b: &[u8], x: u8) -> (r: usize)
    ensures
        r == first_byte(b@, x),
        r <= b@.len(),
{
    let mut i: usize = 0;
    assert(b@.skip(0) =~= b@);
    while i < b.len() && b[i] != x
        invariant
            i <= b@.len(),
            first_byte(b@, x) == i + first_byte(b@.skip(i as int), x),
        decreases b@.len() - i,
    {
        assert(b@.skip(i as int).drop_first() =~= b@.skip(i + 1));
        i = i + 1;
    }
    i
}

/// What the command line asks for, as `launch_of` says, from the first
/// argument, the same argument lower-cased (`lowered`), and the second
/// argument if any; `lowered` must be cut only at character boundaries.
pub fn launch_command_of(first: &str, lowered: &str, second: Option<&str>) -> (r: LaunchCommand)
    requires
        split_at_boundaries(first.spec_bytes(), lowered.spec_bytes()),
    ensures
        r == launch_of(
            first.spec_bytes(),
            lowered.spec_bytes(),
            match second {
                Some(s) => Some(s.spec_bytes()),
                None => None,
            },
        ),
{
    let fb = first.as_bytes();
    let lb = lowered.as_bytes();
    let n = lb.len();
    let split: Option<(usize, usize)> = if n > 2 && fb.len() > 2 && fb[2] == 58 {
        let cp = find_byte(fb, 58);
        proof {
            lemma_first_byte_bound(fb@, 58, 2);
        }
        Some((cp, cp + 1))
    } else if n > 2 && fb.len() > 1 && fb[1] == 58 {
        Some((1, 2))
    } else {
        None
    };
    let ghost spec_split = colon_split(fb@, lb@);
    assert(match split {
        Some((a, b)) => spec_split == Some((a as int, b as int)) && a <= 2 && b == a + 1 && b <= n,
        None => spec_split is None,
    });
    let cmd_end: usize = match split {
        Some((a, _)) => a,
        None => n,
    };
    if bytes_are(lb, 0, cmd_end, 47, 99) {
        proof {
            assert(lb@.subrange(0, cmd_end as int) =~= match spec_split { Some((a, b)) => lb@.take(a), None => lb@ });
        }
        return LaunchCommand::Configure;
    }
    if bytes_are(lb, 0, cmd_end, 47, 115) {
        proof {
            assert(lb@.subrange(0, cmd_end as int) =~= match spec_split { Some((a, b)) => lb@.take(a), None => lb@ });
            assert(seq![47u8, 99u8] != seq![47u8, 115u8]) by {
                assert(seq![47u8, 99u8][1] != seq![47u8, 115u8][1]);
            }
        }
        return LaunchCommand::Fullscreen;
    }
    if !bytes_are(lb, 0, cmd_end, 47, 112) {
        proof {
            assert(lb@.subrange(0, cmd_end as int) =~= match spec_split { Some((a, b)) => lb@.take(a), None => lb@ });
        }
        return LaunchCommand::InvalidArgument;
    }
    proof {
        assert(lb@.subrange(0, cmd_end as int) =~= match spec_split { Some((a, b)) => lb@.take(a), None => lb@ });
        assert(seq![47u8, 99u8] != seq![47u8, 112u8]) by {
            assert(seq![47u8, 99u8][1] != seq![47u8, 112u8][1]);
        }
    }
    let handle: Option<Option<isize>> = match split {
        Some((a, b)) => {
            let cs = chars_of_bytes(lb, b, n);
            assert(lb@.subrange(b as int, n as int) =~= lb@.skip(b as int));
            assert(cs@.subrange(0, cs@.len() as int) =~= cs@);
            Some(parse_isize_range(&cs, 0, cs.len()))
        },
        None => match second {
            Some(s) => {
                let sb = s.as_bytes();
                let cs = chars_of_bytes(sb, 0, sb.len());
                assert(sb@.subrange(0, sb@.len() as int) =~= sb@);
                assert(cs@.subrange(0, cs@.len() as int) =~= cs@);
                Some(parse_isize_range(&cs, 0, cs.len()))
            },
            None => None,
        },
    };
    match handle {
        Some(Some(h)) => LaunchCommand::Preview(h),
        Some(None) => LaunchCommand::BadPreviewHandle,
        None => LaunchCommand::NoPreviewHandle,
    }
}

/// What the command line `args` (the program's name first) asks for:
/// the settings when there is no argument; else `launch_of` on the first
/// argument, its lower-cased form (std's `to_lowercase`) and the second
/// argument. `None` where the lower-cased argument would have to be cut
/// inside a character.
pub fn launch_command(args: &Vec<String>) -> (r: Option<LaunchCommand>)
    ensures
        args@.len() <= 1 ==> r == Some(LaunchCommand::Configure),
        args@.len() > 1 ==> {
            let first = encode_utf8(args@[1]@);
            let lowered = encode_utf8(lowercase(args@[1]@));
            let second = if args@.len() > 2 {
                Some(encode_utf8(args@[2]@))
            } else {
                None
            };
            r == if split_at_boundaries(first, lowered) {
                Some(launch_of(first, lowered, second))
            } else {
                None
            }
        },
{
    if args.len() <= 1 {
        return Some(LaunchCommand::Configure);
    }
    let first = args[1].as_str();
    let lowered = to_lowercase(first);
    let low = lowered.as_str();
    let fb = first.as_bytes();
    let n = low.as_bytes().len();
    let ok = if n > 2 && fb.len() > 2 && fb[2] == 58 {
        let cp = find_byte(fb, 58);
        proof {
            lemma_first_byte_bound(fb@, 58, 2);
        }
        low.is_char_boundary(cp) && low.is_char_boundary(cp + 1)
    } else if n > 2 && fb.len() > 1 && fb[1] == 58 {
        low.is_char_boundary(1) && low.is_char_boundary(2)
    } else {
        true
    };
    if !ok {
        return None;
    }
    let second: Option<&str> = if args.len() > 2 {
        Some(args[2].as_str())
    } else {
        None
    };
    Some(launch_command_of(first, low, second))
}

proof fn lemma_first_byte_bound(s: Seq<u8>, b: u8, i: int)
    requires
        0 <= i < s.len(),
        s[i] == b,
    ensures
        first_byte(s, b) <= i,
    decreases i,
{
    if i > 0 && s[0] != b {
        lemma_first_byte_bound(s.drop_first(), b, i - 1);
    }
}

/// The command does not depend on the letter case of the argument: two
/// arguments that lower-case alike and split at the same place ask for the
/// same thing.
pub proof fn lemma_launch_ignores_case(
    first1: Seq<u8>,
    first2: Seq<u8>,
    lowered: Seq<u8>,
    second: Option<Seq<u8>>,
)
    requires
        colon_split(first1, lowered) == colon_split(first2, lowered),
    ensures
        launch_of(first1, lowered, second) == launch_of(first2, lowered, second),
{
}

/// `/c`, `/s` and `/p` in any letter case ask for the settings, the full
/// screen and the preview; so do `/c:...`, `/s:...` and `/p:...`, the
/// preview then with what follows the colon as its window handle.
pub proof fn lemma_launch_commands(first: Seq<u8>, lowered: Seq<u8>, second: Option<Seq<u8>>)
    ensures
        lowered == seq![47u8, 99u8] ==> launch_of(first, lowered, second) == LaunchCommand::Configure,
        lowered == seq![47u8, 115u8] ==> launch_of(first, lowered, second) == LaunchCommand::Fullscreen,
        lowered == seq![47u8, 112u8] ==> launch_of(first, lowered, second) == match second {
            Some(p) => match parsed_isize(byte_chars(p)) {
                Some(h) => LaunchCommand::Preview(h),
                None => LaunchCommand::BadPreviewHandle,
            },
            None => LaunchCommand::NoPreviewHandle,
        },
        (first.len() > 2 && first[0] != 58 && first[1] != 58 && first[2] == 58 && lowered.len() > 2
            && lowered[0] == 47 && lowered[2] == 58) ==> {
            &&& lowered[1] == 99 ==> launch_of(first, lowered, second) == LaunchCommand::Configure
            &&& lowered[1] == 115 ==> launch_of(first, lowered, second) == LaunchCommand::Fullscreen
            &&& lowered[1] == 112 ==> launch_of(first, lowered, second) == match parsed_isize(
                byte_chars(lowered.skip(3)),
            ) {
                Some(h) => LaunchCommand::Preview(h),
                None => LaunchCommand::BadPreviewHandle,
            }
        },
{
    if first.len() > 2 && first[0] != 58 && first[1] != 58 && first[2] == 58 {
        assert(first.drop_first()[0] == first[1]);
        assert(first.drop_first().drop_first()[0] == first[2]);
        assert(first_byte(first, 58) == 2) by {
            reveal_with_fuel(first_byte, 3);
        }
        assert(lowered.len() > 2 ==> lowered.take(2) == seq![lowered[0], lowered[1]]) by {
            if lowered.len() > 2 {
                assert(lowered.take(2) =~= seq![lowered[0], lowered[1]]);
            }
        }
    }
}

} // verus!
