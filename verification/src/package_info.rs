//! What a package says of itself, and the authors that its author line names.

use vstd::prelude::*;
use vstd::string::StrSliceExecFns;

verus! {

/// The facts of a package, as the package declares them.
#[derive(Debug)]
pub struct PackageInfo {
    pub name: String,
    pub version: String,
    /// The authors, separated by colons, each a name that may be followed by
    /// an address in angle brackets.
    pub authors: String,
    pub description: Option<String>,
    pub homepage: Option<String>,
    pub repository: Option<String>,
    pub license: Option<String>,
}

/// Where a text is split.
#[derive(Clone, Copy, Debug, PartialEq, Eq, Structural)]
pub enum Separator {
    /// At every colon.
    Colon,
    /// At every angle bracket, opening or closing.
    Bracket,
}

impl Separator {
    /// Whether the text is split at `c`.
    pub open spec fn splits(&self, c: char) -> bool {
        match *self {
            Separator::Colon => c == ':',
            Separator::Bracket => c == '<' || c == '>',
        }
    }

    /// Whether the text is split at `c`.
    fn splits_at(&self, c: char) -> (b: bool)
        ensures
            b == self.splits(c),
    {
        match *self {
            Separator::Colon => c == ':',
            Separator::Bracket => c == '<' || c == '>',
        }
    }
}

/// Whether `c` is white space, as Unicode defines it.
pub open spec fn is_whitespace(c: char) -> bool {
    let n = c as u32;
    ||| 0x09 <= n <= 0x0D
    ||| n == 0x20
    ||| n == 0x85
    ||| n == 0xA0
    ||| n == 0x1680
    ||| 0x2000 <= n <= 0x200A
    ||| n == 0x2028
    ||| n == 0x2029
    ||| n == 0x202F
    ||| n == 0x205F
    ||| n == 0x3000
}

/// The number of characters of `s` before the first separator; all of them
/// where `s` holds none.
pub open spec fn first_separator(s: Seq<char>, at: Separator) -> int
    decreases s.len(),
{
    if s.len() == 0 || at.splits(s[0]) {
        0
    } else {
        1 + first_separator(s.drop_first(), at)
    }
}

/// The pieces of `s` between its separators, in order. A text without a
/// separator is one piece, and so is the empty text.
pub open spec fn split(s: Seq<char>, at: Separator) -> Seq<Seq<char>>
    decreases s.len(),
{
    let i = first_separator(s, at);
    if 0 <= i < s.len() {
        seq![s.subrange(0, i)] + split(s.subrange(i + 1, s.len() as int), at)
    } else {
        seq![s]
    }
}

/// `s` without the white space that it begins with.
pub open spec fn trim_start(s: Seq<char>) -> Seq<char>
    decreases s.len(),
{
    if s.len() > 0 && is_whitespace(s[0]) {
        trim_start(s.drop_first())
    } else {
        s
    }
}

/// `s` without the white space that it ends with.
pub open spec fn trim_end(s: Seq<char>) -> Seq<char>
    decreases s.len(),
{
    if s.len() > 0 && is_whitespace(s.last()) {
        trim_end(s.drop_last())
    } else {
        s
    }
}

/// `s` without the white space at its two ends.
pub open spec fn trim(s: Seq<char>) -> Seq<char> {
    trim_end(trim_start(s))
}

/// The author that a line names: the name is what stands before the first
/// angle bracket, the address what stands between the first and the second;
/// both without the white space around them. A line without a bracket names
/// no address.
pub open spec fn author_of(line: Seq<char>) -> (Seq<char>, Option<Seq<char>>) {
    let parts = split(line, Separator::Bracket);
    (
        trim(parts[0]),
        if parts.len() > 1 {
            Some(trim(parts[1]))
        } else {
            None
        },
    )
}

/// Whether `author` is the author that `line` names.
pub open spec fn is_author_of(author: (String, Option<String>), line: Seq<char>) -> bool {
    &&& author.0@ == author_of(line).0
    &&& author.1 is Some <==> author_of(line).1 is Some
    &&& author.1 is Some ==> author.1->0@ == author_of(line).1->0
}

/// The first separator stands where no separator stands before it; the end
/// of the text counts as one.
pub proof fn lemma_first_separator(s: Seq<char>, at: Separator, k: int)
    requires
        0 <= k <= s.len(),
        forall|j: int| 0 <= j < k ==> !at.splits(s[j]),
        k < s.len() ==> at.splits(s[k]),
    ensures
        first_separator(s, at) == k,
    decreases s.len(),
{
    if k > 0 {
        let rest = s.drop_first();
        assert forall|j: int| 0 <= j < k - 1 implies !at.splits(rest[j]) by {
            assert(rest[j] == s[j + 1]);
        }
        lemma_first_separator(rest, at, k - 1);
    }
}

/// Whether `c` is white space.
fn whitespace(c: char) -> (b: bool)
    ensures
        b == is_whitespace(c),
{
    let n: u32 = c as u32;
    (0x09 <= n && n <= 0x0D) || n == 0x20 || n == 0x85 || n == 0xA0 || n == 0x1680 || (0x2000 <= n
        && n <= 0x200A) || n == 0x2028 || n == 0x2029 || n == 0x202F || n == 0x205F || n == 0x3000
}

/// The position of the first separator of `s` from `from` on and before `to`;
/// `to` if there is none.
fn find(s: &str, from: usize, to: usize, at: Separator) -> (i: usize)
    requires
        from <= to <= s@.len(),
    ensures
        from <= i <= to,
        i - from == first_separator(s@.subrange(from as int, to as int), at),
{
    let mut i: usize = from;
    while i < to
        invariant
            from <= i <= to <= s@.len(),
            forall|j: int| from <= j < i ==> !at.splits(s@[j]),
        ensures
            from <= i <= to,
            forall|j: int| from <= j < i ==> !at.splits(s@[j]),
            i < to ==> at.splits(s@[i as int]),
        decreases to - i,
    {
        if at.splits_at(s.get_char(i)) {
            break ;
        }
        i = i + 1;
    }
    proof {
        lemma_first_separator(s@.subrange(from as int, to as int), at, i - from);
    }
    i
}

/// The characters of `s` from `from` to `to`, without the white space at the
/// two ends.
fn trimmed(s: &str, from: usize, to: usize) -> (t: String)
    requires
        from <= to <= s@.len(),
    ensures
        t@ == trim(s@.subrange(from as int, to as int)),
{
    let mut a: usize = from;
    while a < to
        invariant
            from <= a <= to <= s@.len(),
            trim_start(s@.subrange(from as int, to as int)) == trim_start(
                s@.subrange(a as int, to as int),
            ),
        ensures
            from <= a <= to,
            trim_start(s@.subrange(from as int, to as int)) == s@.subrange(a as int, to as int),
        decreases to - a,
    {
        if !whitespace(s.get_char(a)) {
            break ;
        }
        assert(s@.subrange(a as int, to as int).drop_first() =~= s@.subrange(a + 1, to as int));
        a = a + 1;
    }
    let mut b: usize = to;
    while b > a
        invariant
            a <= b <= to <= s@.len(),
            trim_end(s@.subrange(a as int, to as int)) == trim_end(s@.subrange(a as int, b as int)),
        ensures
            a <= b <= to,
            trim_end(s@.subrange(a as int, to as int)) == s@.subrange(a as int, b as int),
        decreases b - a,
    {
        if !whitespace(s.get_char(b - 1)) {
            break ;
        }
        assert(s@.subrange(a as int, b as int).drop_last() =~= s@.subrange(a as int, b - 1));
        b = b - 1;
    }
    s.substring_char(a, b).to_owned()
}

/// The author that the characters of `s` from `from` to `to` name.
fn author(s: &str, from: usize, to: usize) -> (named: (String, Option<String>))
    requires
        from <= to <= s@.len(),
    ensures
        is_author_of(named, s@.subrange(from as int, to as int)),
{
    let ghost line = s@.subrange(from as int, to as int);
    let i: usize = find(s, from, to, Separator::Bracket);
    let name: String = trimmed(s, from, i);
    if i == to {
        assert(line.subrange(0, line.len() as int) =~= line);
        (name, None)
    } else {
        let j: usize = find(s, i + 1, to, Separator::Bracket);
        let address: String = trimmed(s, i + 1, j);
        proof {
            let rest = line.subrange(i - from + 1, line.len() as int);
            assert(rest =~= s@.subrange(i + 1, to as int));
            assert(line.subrange(0, i - from) =~= s@.subrange(from as int, i as int));
            assert(rest.subrange(0, j - i - 1) =~= s@.subrange(i + 1, j as int));
            assert(split(rest, Separator::Bracket)[0] == s@.subrange(i + 1, j as int));
            assert(split(line, Separator::Bracket)[1] == split(rest, Separator::Bracket)[0]);
        }
        (name, Some(address))
    }
}

impl PackageInfo {
    /// The authors that the author line names, one for each of the pieces
    /// that its colons part it into, in order.
    pub fn authors(&self) -> (named: Vec<(String, Option<String>)>)
        ensures
            named@.len() == split(self.authors@, Separator::Colon).len(),
            forall|k: int|
                0 <= k < named@.len() ==> is_author_of(
                    #[trigger] named@[k],
                    split(self.authors@, Separator::Colon)[k],
                ),
    {
        let s: &str = self.authors.as_str();
        let len: usize = s.unicode_len();
        let mut named: Vec<(String, Option<String>)> = Vec::new();
        let mut start: usize = 0;
        let ghost mut lines: Seq<Seq<char>> = Seq::empty();
        proof {
            assert(s@.subrange(0, len as int) =~= s@);
        }
        loop
            invariant_except_break
                start <= len == s@.len(),
                split(s@, Separator::Colon) == lines + split(
                    s@.subrange(start as int, len as int),
                    Separator::Colon,
                ),
                named@.len() == lines.len(),
                forall|k: int| 0 <= k < named@.len() ==> is_author_of(#[trigger] named@[k], lines[k]),
            ensures
                split(s@, Separator::Colon) == lines,
                named@.len() == lines.len(),
                forall|k: int| 0 <= k < named@.len() ==> is_author_of(#[trigger] named@[k], lines[k]),
            decreases len - start,
        {
            let i: usize = find(s, start, len, Separator::Colon);
            let one: (String, Option<String>) = author(s, start, i);
            named.push(one);
            proof {
                let here = s@.subrange(start as int, len as int);
                let line = s@.subrange(start as int, i as int);
                assert(here.subrange(0, i - start) =~= line);
                if i < len {
                    assert(here.subrange(i - start + 1, here.len() as int) =~= s@.subrange(
                        i + 1,
                        len as int,
                    ));
                    assert(lines + (seq![line] + split(
                        s@.subrange(i + 1, len as int),
                        Separator::Colon,
                    )) =~= lines.push(line) + split(
                        s@.subrange(i + 1, len as int),
                        Separator::Colon,
                    ));
                } else {
                    assert(here =~= line);
                    assert(lines + seq![line] =~= lines.push(line));
                }
                lines = lines.push(line);
            }
            if i == len {
                break ;
            }
            start = i + 1;
        }
        named
    }
}

/// Whether `pattern` stands in `text` from position `i` on.
pub open spec fn occurs_at(text: Seq<char>, pattern: Seq<char>, i: int) -> bool {
    &&& 0 <= i
    &&& i + pattern.len() <= text.len()
    &&& text.subrange(i, i + pattern.len()) == pattern
}

/// Whether `pattern` stands somewhere in `text`.
pub open spec fn contains(text: Seq<char>, pattern: Seq<char>) -> bool {
    exists|i: int| occurs_at(text, pattern, i)
}

/// Whether an address is one that takes no mail: it holds `noreply@`,
/// `no-reply@` or `@users.noreply.`.
pub open spec fn is_no_reply_address(address: Seq<char>) -> bool {
    ||| contains(address, "noreply@"@)
    ||| contains(address, "no-reply@"@)
    ||| contains(address, "@users.noreply."@)
}

/// Whether `pattern`, of `m` characters, stands from position `i` on in
/// `text`, of `n` characters.
fn stands_at(text: &str, pattern: &str, i: usize, m: usize, n: usize) -> (b: bool)
    requires
        m == pattern@.len(),
        n == text@.len(),
        i + m <= n,
    ensures
        b == occurs_at(text@, pattern@, i as int),
{
    let mut k: usize = 0;
    while k < m
        invariant
            k <= m == pattern@.len(),
            n == text@.len(),
            i + m <= n,
            forall|j: int| 0 <= j < k ==> text@[i + j] == pattern@[j],
        decreases m - k,
    {
        if text.get_char(i + k) != pattern.get_char(k) {
            assert(text@.subrange(i as int, i + m)[k as int] != pattern@[k as int]);
            return false;
        }
        k = k + 1;
    }
    assert(text@.subrange(i as int, i + m) =~= pattern@);
    true
}

/// Whether `pattern` stands somewhere in `text`.
fn holds(text: &str, pattern: &str) -> (b: bool)
    ensures
        b == contains(text@, pattern@),
{
    let n: usize = text.unicode_len();
    let m: usize = pattern.unicode_len();
    if m > n {
        return false;
    }
    let mut i: usize = 0;
    loop
        invariant
            m <= n == text@.len(),
            m == pattern@.len(),
            i <= n - m,
            forall|j: int| 0 <= j < i ==> !occurs_at(text@, pattern@, j),
        decreases n - m - i,
    {
        if stands_at(text, pattern, i, m, n) {
            return true;
        }
        if i == n - m {
            return false;
        }
        i = i + 1;
    }
}

/// Whether `address` is one that takes no mail.
pub fn is_no_reply(address: &str) -> (b: bool)
    ensures
        b == is_no_reply_address(address@),
{
    holds(address, "noreply@") || holds(address, "no-reply@") || holds(address, "@users.noreply.")
}

} // verus!
