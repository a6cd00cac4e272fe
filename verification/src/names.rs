//! File names: the final component of a path, and the sanitation of a name
//! that a remote peer declares for a file.

use vstd::prelude::*;
use vstd::string::*;

verus! {

/// The path separator.
pub open spec fn is_separator(c: char) -> bool {
    c == '/'
}

/// The characters that count as white space: those with the Unicode
/// property White_Space.
pub open spec fn is_white_space(c: char) -> bool {
    let u = c as u32;
    ||| 0x09 <= u <= 0x0D
    ||| u == 0x20
    ||| u == 0x85
    ||| u == 0xA0
    ||| u == 0x1680
    ||| 0x2000 <= u <= 0x200A
    ||| u == 0x2028
    ||| u == 0x2029
    ||| u == 0x202F
    ||| u == 0x205F
    ||| u == 0x3000
}

/// The longest run of characters at the end of `s` that holds no separator.
pub open spec fn last_run(s: Seq<char>) -> Seq<char>
    decreases s.len(),
{
    if s.len() == 0 || is_separator(s.last()) {
        Seq::empty()
    } else {
        last_run(s.drop_last()).push(s.last())
    }
}

/// Whether `s` ends in a component that is a single dot.
pub open spec fn ends_in_dot_component(s: Seq<char>) -> bool {
    s.len() > 0 && s.last() == '.' && (s.len() == 1 || is_separator(s[s.len() - 2]))
}

/// The final component of the path `s`: trailing separators and components
/// that are a single dot are passed over; the component before them is the
/// file name, unless there is none or it is the parent directory `..`.
pub open spec fn file_name_of(s: Seq<char>) -> Option<Seq<char>>
    decreases s.len(),
{
    if s.len() == 0 {
        None
    } else if is_separator(s.last()) || ends_in_dot_component(s) {
        file_name_of(s.drop_last())
    } else if last_run(s) == seq!['.', '.'] {
        None
    } else {
        Some(last_run(s))
    }
}

/// `s` without the white space at its start.
pub open spec fn trim_start(s: Seq<char>) -> Seq<char>
    decreases s.len(),
{
    if s.len() > 0 && is_white_space(s.first()) {
        trim_start(s.drop_first())
    } else {
        s
    }
}

/// `s` without the white space at its end.
pub open spec fn trim_end(s: Seq<char>) -> Seq<char>
    decreases s.len(),
{
    if s.len() > 0 && is_white_space(s.last()) {
        trim_end(s.drop_last())
    } else {
        s
    }
}

/// `s` without the white space at either end.
pub open spec fn trimmed(s: Seq<char>) -> Seq<char> {
    trim_end(trim_start(s))
}

/// The name that stands in for one that cannot be used.
pub open spec fn default_file_name() -> Seq<char> {
    seq!['f', 'i', 'l', 'e']
}

/// Whether `s` names nothing, the current directory or the parent directory.
pub open spec fn is_unusable_name(s: Seq<char>) -> bool {
    s.len() == 0 || s == seq!['.'] || s == seq!['.', '.']
}

/// The sanitized form of a declared file name: its final path component,
/// trimmed, or the default name where that leaves nothing usable.
pub open spec fn sanitized(name: Seq<char>) -> Seq<char> {
    let candidate = match file_name_of(name) {
        Some(component) => component,
        None => default_file_name(),
    };
    if is_unusable_name(trimmed(candidate)) {
        default_file_name()
    } else {
        trimmed(candidate)
    }
}

/// Whether `c` counts as white space.
pub fn is_white_space_char(c: char) -> (yes: bool)
    ensures
        yes == is_white_space(c),
{
    let u: u32 = c as u32;
    (0x09 <= u && u <= 0x0D) || u == 0x20 || u == 0x85 || u == 0xA0 || u == 0x1680 || (0x2000 <= u
        && u <= 0x200A) || u == 0x2028 || u == 0x2029 || u == 0x202F || u == 0x205F || u == 0x3000
}

/// The characters of `s`, one by one.
pub(crate) fn chars_of(s: &str) -> (chars: Vec<char>)
    ensures
        chars@ == s@,
{
    let mut chars: Vec<char> = Vec::new();
    for c in it: s.chars()
        invariant
            it.seq() == s@,
            chars@ == s@.take(it.index() as int),
    {
        chars.push(c);
        assert(s@.take(it.index() + 1) == s@.take(it.index() as int).push(c));
    }
    assert(s@.take(s@.len() as int) == s@);
    chars
}

/// Whether the character before position `end` is passed over in the
/// search for the final component.
fn passed_over(chars: &Vec<char>, end: usize) -> (yes: bool)
    requires
        0 < end <= chars@.len(),
    ensures
        yes == (is_separator(chars@.take(end as int).last()) || ends_in_dot_component(
            chars@.take(end as int),
        )),
{
    let c = chars[end - 1];
    c == '/' || (c == '.' && (end == 1 || chars[end - 2] == '/'))
}

/// The bounds of the final component of `chars`.
fn file_name_range(chars: &Vec<char>) -> (range: Option<(usize, usize)>)
    ensures
        match range {
            Some((start, end)) => start < end <= chars@.len() && file_name_of(chars@) == Some(
                chars@.subrange(start as int, end as int),
            ),
            None => file_name_of(chars@) is None,
        },
{
    let mut end: usize = chars.len();
    assert(chars@.take(end as int) == chars@);
    while end > 0 && passed_over(chars, end)
        invariant
            end <= chars@.len(),
            file_name_of(chars@) == file_name_of(chars@.take(end as int)),
        decreases end,
    {
        assert(chars@.take(end as int).drop_last() == chars@.take(end - 1));
        end = end - 1;
    }
    if end == 0 {
        return None;
    }
    let ghost prefix = chars@.take(end as int);
    let mut start: usize = end;
    assert(chars@.subrange(start as int, end as int) == Seq::<char>::empty());
    assert(prefix.take(start as int) == prefix);
    while start > 0 && chars[start - 1] != '/'
        invariant
            start <= end <= chars@.len(),
            prefix == chars@.take(end as int),
            last_run(prefix) == last_run(prefix.take(start as int)) + chars@.subrange(
                start as int,
                end as int,
            ),
        decreases start,
    {
        proof {
            let shorter = prefix.take(start as int);
            assert(shorter.drop_last() == prefix.take(start - 1));
            assert(last_run(shorter) == last_run(prefix.take(start - 1)).push(shorter.last()));
            assert(last_run(prefix.take(start - 1)).push(shorter.last()) + chars@.subrange(
                start as int,
                end as int,
            ) == last_run(prefix.take(start - 1)) + chars@.subrange(start - 1, end as int));
        }
        start = start - 1;
    }
    proof {
        assert(last_run(prefix.take(start as int)) == Seq::<char>::empty());
        assert(last_run(prefix) == chars@.subrange(start as int, end as int));
    }
    if end - start == 2 && chars[start] == '.' && chars[start + 1] == '.' {
        assert(chars@.subrange(start as int, end as int) == seq!['.', '.']);
        return None;
    }
    proof {
        if last_run(prefix) == seq!['.', '.'] {
            assert(last_run(prefix).len() == 2);
            assert(last_run(prefix)[0] == '.');
            assert(last_run(prefix)[1] == '.');
        }
    }
    Some((start, end))
}

/// The bounds that are left of `chars[start..end]` when the white space at
/// either end is taken off.
pub(crate) fn trim_range(chars: &Vec<char>, start: usize, end: usize) -> (range: (usize, usize))
    requires
        start <= end <= chars@.len(),
    ensures
        start <= range.0 <= range.1 <= end,
        chars@.subrange(range.0 as int, range.1 as int) == trimmed(
            chars@.subrange(start as int, end as int),
        ),
{
    let mut a: usize = start;
    while a < end && is_white_space_char(chars[a])
        invariant
            start <= a <= end <= chars@.len(),
            trim_start(chars@.subrange(start as int, end as int)) == trim_start(
                chars@.subrange(a as int, end as int),
            ),
        decreases end - a,
    {
        assert(chars@.subrange(a as int, end as int).drop_first() == chars@.subrange(
            a + 1,
            end as int,
        ));
        a = a + 1;
    }
    let mut b: usize = end;
    while b > a && is_white_space_char(chars[b - 1])
        invariant
            a <= b <= end <= chars@.len(),
            trim_end(chars@.subrange(a as int, end as int)) == trim_end(
                chars@.subrange(a as int, b as int),
            ),
        decreases b,
    {
        assert(chars@.subrange(a as int, b as int).drop_last() == chars@.subrange(
            a as int,
            b - 1,
        ));
        b = b - 1;
    }
    (a, b)
}

/// The final component of `path`, as a name of its own.
pub fn file_name(path: &str) -> (name: Option<String>)
    ensures
        match name {
            Some(n) => file_name_of(path@) == Some(n@),
            None => file_name_of(path@) is None,
        },
{
    let chars = chars_of(path);
    match file_name_range(&chars) {
        Some((start, end)) => Some(String::from_str(path.substring_char(start, end))),
        None => None,
    }
}

/// The default name, as a string.
fn default_name() -> (name: String)
    ensures
        name@ == default_file_name(),
{
    proof {
        reveal_strlit("file");
    }
    let name = String::from_str("file");
    assert(name@ =~= default_file_name());
    name
}

proof fn lemma_default_name_is_trimmed()
    ensures
        trimmed(default_file_name()) == default_file_name(),
        !is_unusable_name(default_file_name()),
{
    let d = default_file_name();
    assert(d.first() == 'f');
    assert(d.last() == 'e');
    assert(!is_white_space('f'));
    assert(!is_white_space('e'));
    assert(d.len() == 4);
}

/// Makes a file name that a remote peer declared safe to create under the
/// destination: path components are stripped, white space at either end is
/// trimmed, and a name that is then empty, `.` or `..` is replaced by
/// `file`.
pub fn sanitize_file_name(name: &str) -> (safe: String)
    ensures
        safe@ == sanitized(name@),
{
    let chars = chars_of(name);
    proof {
        lemma_default_name_is_trimmed();
    }
    match file_name_range(&chars) {
        Some((start, end)) => {
            let (a, b) = trim_range(&chars, start, end);
            let unusable = a == b || (b - a == 1 && chars[a] == '.') || (b - a == 2 && chars[a]
                == '.' && chars[a + 1] == '.');
            proof {
                let t = chars@.subrange(a as int, b as int);
                if t == seq!['.'] {
                    assert(t.len() == 1 && t[0] == '.');
                }
                if t == seq!['.', '.'] {
                    assert(t.len() == 2 && t[0] == '.' && t[1] == '.');
                }
                if unusable {
                    assert(t.len() == 0 || t =~= seq!['.'] || t =~= seq!['.', '.']);
                }
            }
            if unusable {
                default_name()
            } else {
                String::from_str(name.substring_char(a, b))
            }
        },
        None => default_name(),
    }
}

} // verus!
