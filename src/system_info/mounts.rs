//! Finding the device that holds the root file system in a mount table
//! (`/proc/mounts`): the first line whose second whitespace-separated field
//! is `/`, with a leading `/dev/` taken off its first field.
use vstd::prelude::*;

use crate::system_info::text::text_chars;

verus! {

/// Unicode white space, as `char::is_whitespace` and `split_whitespace` use it.
pub open spec fn is_space(c: char) -> bool {
    let u = c as u32;
    ||| u == 0x20
    ||| 0x09 <= u <= 0x0D
    ||| u == 0x85
    ||| u == 0xA0
    ||| u == 0x1680
    ||| 0x2000 <= u <= 0x200A
    ||| u == 0x2028
    ||| u == 0x2029
    ||| u == 0x202F
    ||| u == 0x205F
    ||| u == 0x3000
}

/// The first index from `i` on, below `end`, that holds no white space (or `end`).
pub open spec fn skip_space(s: Seq<char>, i: int, end: int) -> int
    decreases end - i,
{
    if i < end && is_space(s[i]) {
        skip_space(s, i + 1, end)
    } else {
        i
    }
}

/// The first index from `i` on, below `end`, that holds white space (or `end`).
pub open spec fn skip_word(s: Seq<char>, i: int, end: int) -> int
    decreases end - i,
{
    if i < end && !is_space(s[i]) {
        skip_word(s, i + 1, end)
    } else {
        i
    }
}

/// The index of the line break that ends the line starting at `i` (or the length).
pub open spec fn line_end(s: Seq<char>, i: int) -> int
    decreases s.len() - i,
{
    if 0 <= i < s.len() && s[i] != '\n' {
        line_end(s, i + 1)
    } else {
        i
    }
}

/// A device path without its `/dev/` prefix, if it has one.
pub open spec fn strip_dev(f: Seq<char>) -> Seq<char> {
    if f.len() >= 5 && f.subrange(0, 5) == seq!['/', 'd', 'e', 'v', '/'] {
        f.subrange(5, f.len() as int)
    } else {
        f
    }
}

/// The device of the mount-table line `s[start..end]`, when it is mounted at `/`.
pub open spec fn line_root_device(s: Seq<char>, start: int, end: int) -> Option<Seq<char>> {
    let a = skip_space(s, start, end);
    let b = skip_word(s, a, end);
    let c = skip_space(s, b, end);
    let d = skip_word(s, c, end);
    if a < b && s.subrange(c, d) == seq!['/'] {
        Some(strip_dev(s.subrange(a, b)))
    } else {
        None
    }
}

/// The root device named by the first matching line from `start` on.
pub open spec fn root_device_from(s: Seq<char>, start: int) -> Option<Seq<char>>
    decreases s.len() - start,
{
    let e = line_end(s, start);
    match line_root_device(s, start, e) {
        Some(d) => Some(d),
        None => if start <= e < s.len() {
            root_device_from(s, e + 1)
        } else {
            None
        },
    }
}

/// The root device that a mount table names, if any line mounts one at `/`.
pub open spec fn root_device(table: Seq<char>) -> Option<Seq<char>> {
    root_device_from(table, 0)
}

fn is_space_char(c: char) -> (r: bool)
    ensures
        r == is_space(c),
{
    let u = c as u32;
    u == 0x20 || (0x09 <= u && u <= 0x0D) || u == 0x85 || u == 0xA0 || u == 0x1680 || (0x2000
        <= u && u <= 0x200A) || u == 0x2028 || u == 0x2029 || u == 0x202F || u == 0x205F || u
        == 0x3000
}

fn find_skip_space(s: &[char], i: usize, end: usize) -> (r: usize)
    requires
        i <= end <= s@.len(),
    ensures
        r == skip_space(s@, i as int, end as int),
        i <= r <= end,
{
    let mut j = i;
    while j < end && is_space_char(s[j])
        invariant
            i <= j <= end <= s@.len(),
            skip_space(s@, i as int, end as int) == skip_space(s@, j as int, end as int),
        decreases end - j,
    {
        j = j + 1;
    }
    j
}

fn find_skip_word(s: &[char], i: usize, end: usize) -> (r: usize)
    requires
        i <= end <= s@.len(),
    ensures
        r == skip_word(s@, i as int, end as int),
        i <= r <= end,
{
    let mut j = i;
    while j < end && !is_space_char(s[j])
        invariant
            i <= j <= end <= s@.len(),
            skip_word(s@, i as int, end as int) == skip_word(s@, j as int, end as int),
        decreases end - j,
    {
        j = j + 1;
    }
    j
}

fn find_line_end(s: &[char], i: usize) -> (r: usize)
    requires
        i <= s@.len(),
    ensures
        r == line_end(s@, i as int),
        i <= r <= s@.len(),
{
    let mut j = i;
    while j < s.len() && s[j] != '\n'
        invariant
            i <= j <= s@.len(),
            line_end(s@, i as int) == line_end(s@, j as int),
        decreases s@.len() - j,
    {
        j = j + 1;
    }
    j
}

/// The characters `s[from..to]` as a string.
fn string_of(s: &[char], from: usize, to: usize) -> (r: String)
    requires
        from <= to <= s@.len(),
    ensures
        r@ == s@.subrange(from as int, to as int),
{
    let mut out = String::new();
    let mut i = from;
    while i < to
        invariant
            from <= i <= to <= s@.len(),
            out@ == s@.subrange(from as int, i as int),
        decreases to - i,
    {
        out.push(s[i]);
        assert(s@.subrange(from as int, i + 1) =~= s@.subrange(from as int, i as int).push(s@[i as int]));
        i = i + 1;
    }
    out
}

fn device_of_line(s: &[char], start: usize, end: usize) -> (r: Option<String>)
    requires
        start <= end <= s@.len(),
    ensures
        match r {
            Some(d) => line_root_device(s@, start as int, end as int) == Some(d@),
            None => line_root_device(s@, start as int, end as int) is None,
        },
{
    let a = find_skip_space(s, start, end);
    let b = find_skip_word(s, a, end);
    let c = find_skip_space(s, b, end);
    let d = find_skip_word(s, c, end);
    let at_root = d > c && d - c == 1 && s[c] == '/';
    assert(at_root == (s@.subrange(c as int, d as int) == seq!['/'])) by {
        if d > c && d - c == 1 && s@[c as int] == '/' {
            assert(s@.subrange(c as int, d as int) =~= seq!['/']);
        }
        if s@.subrange(c as int, d as int) == seq!['/'] {
            assert(s@.subrange(c as int, d as int).len() == 1);
            assert(s@.subrange(c as int, d as int)[0] == s@[c as int]);
        }
    }
    if a < b && at_root {
        let prefixed = b - a >= 5 && s[a] == '/' && s[a + 1] == 'd' && s[a + 2] == 'e' && s[a
            + 3] == 'v' && s[a + 4] == '/';
        let ghost f = s@.subrange(a as int, b as int);
        assert(prefixed == (f.len() >= 5 && f.subrange(0, 5) == seq!['/', 'd', 'e', 'v', '/']))
            by {
            if f.len() >= 5 {
                assert(f.subrange(0, 5)[0] == f[0]);
                assert(f.subrange(0, 5)[1] == f[1]);
                assert(f.subrange(0, 5)[2] == f[2]);
                assert(f.subrange(0, 5)[3] == f[3]);
                assert(f.subrange(0, 5)[4] == f[4]);
                if prefixed {
                    assert(f.subrange(0, 5) =~= seq!['/', 'd', 'e', 'v', '/']);
                }
            }
        }
        if prefixed {
            assert(f.subrange(5, f.len() as int) =~= s@.subrange(a + 5, b as int));
            Some(string_of(s, a + 5, b))
        } else {
            Some(string_of(s, a, b))
        }
    } else {
        None
    }
}

/// The device that holds the root file system, read from the text of a
/// mount table; `None` when no line mounts anything at `/`.
pub fn get_root_device(mounts: &str) -> (r: Option<String>)
    ensures
        match r {
            Some(d) => root_device(mounts@) == Some(d@),
            None => root_device(mounts@) is None,
        },
{
    let chars = text_chars(mounts);
    let s = chars.as_slice();
    let n = s.len();
    let mut start: usize = 0;
    loop
        invariant
            s@ == mounts@,
            n == s@.len(),
            start <= n,
            root_device(mounts@) == root_device_from(s@, start as int),
        decreases n - start,
    {
        let e = find_line_end(s, start);
        match device_of_line(s, start, e) {
            Some(d) => return Some(d),
            None => {},
        }
        if e < n {
            start = e + 1;
        } else {
            return None;
        }
    }
}

} // verus!
