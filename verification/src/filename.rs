//! The file name under which a downloaded response is saved.

use vstd::prelude::*;

verus! {

/// Whether `c` has the Unicode property `White_Space`.
pub open spec fn is_space(c: char) -> bool {
    ||| '\u{9}' <= c <= '\u{d}'
    ||| c == ' '
    ||| c == '\u{85}'
    ||| c == '\u{a0}'
    ||| c == '\u{1680}'
    ||| '\u{2000}' <= c <= '\u{200a}'
    ||| c == '\u{2028}'
    ||| c == '\u{2029}'
    ||| c == '\u{202f}'
    ||| c == '\u{205f}'
    ||| c == '\u{3000}'
}

/// `s` without its leading white space.
pub open spec fn trim_start(s: Seq<char>) -> Seq<char>
    decreases s.len(),
{
    if s.len() > 0 && is_space(s[0]) {
        trim_start(s.skip(1))
    } else {
        s
    }
}

/// `s` without its trailing white space.
pub open spec fn trim_end(s: Seq<char>) -> Seq<char>
    decreases s.len(),
{
    if s.len() > 0 && is_space(s.last()) {
        trim_end(s.drop_last())
    } else {
        s
    }
}

/// `s` without the white space on either side.
pub open spec fn trim(s: Seq<char>) -> Seq<char> {
    trim_end(trim_start(s))
}

/// The position of the first `c` in `s`, or the length of `s` where it holds
/// none.
pub open spec fn cut(s: Seq<char>, c: char) -> int
    decreases s.len(),
{
    if s.len() == 0 || s[0] == c {
        0
    } else {
        1 + cut(s.skip(1), c)
    }
}

/// The text that opens the parameter carrying the file name.
pub const FILENAME_KEY: &'static str = "filename=";

/// The key, as the characters it is made of.
pub open spec fn key() -> Seq<char> {
    FILENAME_KEY@
}

/// What one `;`-separated segment of the header value says of the file name:
/// where its trimmed text opens with the key, the trimmed text behind the key.
pub open spec fn segment_filename(segment: Seq<char>) -> Option<Seq<char>> {
    let text = trim(segment);
    if key().is_prefix_of(text) {
        Some(trim(text.skip(key().len() as int)))
    } else {
        None
    }
}

/// The file name that a `Content-Disposition` value carries: that of the first
/// of its `;`-separated segments that has one.
pub open spec fn filename_in(value: Seq<char>) -> Option<Seq<char>>
    decreases value.len(),
{
    let end = cut(value, ';');
    match segment_filename(value.take(end)) {
        Some(name) => Some(name),
        None => if 0 <= end < value.len() {
            filename_in(value.skip(end + 1))
        } else {
            None
        },
    }
}

/// The name that stands for "there is nothing to save".
pub const NOTHING_TO_DOWNLOAD: &'static str = "nothing_to_download";

/// The name under which a response is saved, given the text of its
/// `Content-Disposition` header if it has one that reads as text.
pub open spec fn derived_filename(header: Option<Seq<char>>) -> Seq<char> {
    match header {
        Some(value) => match filename_in(value) {
            Some(name) => name,
            None => NOTHING_TO_DOWNLOAD@,
        },
        None => NOTHING_TO_DOWNLOAD@,
    }
}

proof fn lemma_trim_start_skips(s: Seq<char>, k: int)
    requires
        0 <= k <= s.len(),
        forall|j: int| 0 <= j < k ==> is_space(s[j]),
        k == s.len() || !is_space(s[k]),
    ensures
        trim_start(s) == s.skip(k),
    decreases k,
{
    if k == 0 {
        assert(s.skip(0) =~= s);
    } else {
        lemma_trim_start_skips(s.skip(1), k - 1);
        assert(s.skip(1).skip(k - 1) =~= s.skip(k));
    }
}

proof fn lemma_trim_end_takes(s: Seq<char>, k: int)
    requires
        0 <= k <= s.len(),
        forall|j: int| k <= j < s.len() ==> is_space(s[j]),
        k == 0 || !is_space(s[k - 1]),
    ensures
        trim_end(s) == s.take(k),
    decreases s.len() - k,
{
    if k == s.len() {
        assert(s.take(k) =~= s);
    } else {
        lemma_trim_end_takes(s.drop_last(), k);
        assert(s.drop_last().take(k) =~= s.take(k));
    }
}

proof fn lemma_cut_at(s: Seq<char>, c: char, k: int)
    requires
        0 <= k <= s.len(),
        forall|j: int| 0 <= j < k ==> s[j] != c,
        k == s.len() || s[k] == c,
    ensures
        cut(s, c) == k,
    decreases k,
{
    if k > 0 {
        lemma_cut_at(s.skip(1), c, k - 1);
    }
}

/// Where `trim` starts and ends in `s`: it keeps `s[bounds.0..bounds.1]`, which
/// neither starts nor ends with white space.
proof fn lemma_trim_bounds(s: Seq<char>) -> (bounds: (int, int))
    ensures
        0 <= bounds.0 <= bounds.1 <= s.len(),
        trim(s) == s.subrange(bounds.0, bounds.1),
        bounds.0 < bounds.1 ==> !is_space(s[bounds.0]) && !is_space(s[bounds.1 - 1]),
{
    let a = lemma_leading_space_ends(s, 0);
    let rest = s.skip(a);
    let b = lemma_trailing_space_starts(rest, rest.len() as int);
    lemma_trim_start_skips(s, a);
    lemma_trim_end_takes(rest, b);
    assert(rest.take(b) =~= s.subrange(a, a + b));
    (a, a + b)
}

proof fn lemma_leading_space_ends(s: Seq<char>, from: int) -> (a: int)
    requires
        0 <= from <= s.len(),
        forall|j: int| 0 <= j < from ==> is_space(s[j]),
    ensures
        0 <= a <= s.len(),
        forall|j: int| 0 <= j < a ==> is_space(s[j]),
        a == s.len() || !is_space(s[a]),
    decreases s.len() - from,
{
    if from < s.len() && is_space(s[from]) {
        lemma_leading_space_ends(s, from + 1)
    } else {
        from
    }
}

proof fn lemma_trailing_space_starts(s: Seq<char>, to: int) -> (b: int)
    requires
        0 <= to <= s.len(),
        forall|j: int| to <= j < s.len() ==> is_space(s[j]),
    ensures
        0 <= b <= s.len(),
        forall|j: int| b <= j < s.len() ==> is_space(s[j]),
        b == 0 || !is_space(s[b - 1]),
    decreases to,
{
    if to > 0 && is_space(s[to - 1]) {
        lemma_trailing_space_starts(s, to - 1)
    } else {
        to
    }
}

/// What `trim` gives has no white space at either end, so that trimming it
/// again changes nothing.
pub proof fn lemma_trim_is_trimmed(s: Seq<char>)
    ensures
        trim(s).len() > 0 ==> !is_space(trim(s).first()) && !is_space(trim(s).last()),
        trim(trim(s)) == trim(s),
{
    let (a, b) = lemma_trim_bounds(s);
    let kept = trim(s);
    lemma_trim_start_skips(kept, 0);
    assert(kept.skip(0) =~= kept);
    lemma_trim_end_takes(kept, kept.len() as int);
    assert(kept.take(kept.len() as int) =~= kept);
}

/// Whether `value` holds the key somewhere and, behind it, `name`.
pub open spec fn holds_behind_key(value: Seq<char>, name: Seq<char>) -> bool {
    exists|k: int, i: int, j: int|
        0 <= k && k + key().len() <= i <= j <= value.len() && #[trigger] value.subrange(
            k,
            k + key().len(),
        ) == key() && #[trigger] value.subrange(i, j) == name
}

/// The name read off a header value is a part of that value, stands behind the
/// key, has no white space round it and holds no `;`. A value without the key
/// gives no name.
pub proof fn lemma_name_comes_from_value(value: Seq<char>)
    ensures
        filename_in(value) matches Some(name) ==> {
            &&& holds_behind_key(value, name)
            &&& trim(name) == name
            &&& !name.contains(';')
        },
    decreases value.len(),
{
    let end = cut(value, ';');
    lemma_cut_bounds(value, ';');
    let segment = value.take(end);
    match segment_filename(segment) {
        Some(name) => {
            let (a, b) = lemma_trim_bounds(segment);
            let text = trim(segment);
            let rest = text.skip(key().len() as int);
            let (c, d) = lemma_trim_bounds(rest);
            lemma_trim_is_trimmed(rest);
            let k = a;
            let i = a + key().len() + c;
            let j = a + key().len() + d;
            assert(value.subrange(k, k + key().len()) =~= key());
            assert(value.subrange(i, j) =~= name);
            assert forall|p: int| 0 <= p < name.len() implies name[p] != ';' by {
                assert(name[p] == value[i + p]);
            }
        },
        None => {
            if 0 <= end < value.len() {
                let tail = value.skip(end + 1);
                lemma_name_comes_from_value(tail);
                match filename_in(tail) {
                    Some(name) => {
                        let (k, i, j) = choose|k: int, i: int, j: int|
                            0 <= k && k + key().len() <= i <= j <= tail.len()
                                && #[trigger] tail.subrange(k, k + key().len()) == key()
                                && #[trigger] tail.subrange(i, j) == name;
                        let shift = end + 1;
                        assert(value.subrange(shift + k, shift + k + key().len())
                            =~= tail.subrange(k, k + key().len()));
                        assert(value.subrange(shift + i, shift + j) =~= tail.subrange(i, j));
                    },
                    None => {},
                }
            }
        },
    }
}

/// `cut` stops at the first `c`, and within `s`.
proof fn lemma_cut_bounds(s: Seq<char>, c: char)
    ensures
        0 <= cut(s, c) <= s.len(),
        forall|j: int| 0 <= j < cut(s, c) ==> s[j] != c,
        cut(s, c) < s.len() ==> s[cut(s, c)] == c,
    decreases s.len(),
{
    if s.len() > 0 && s[0] != c {
        lemma_cut_bounds(s.skip(1), c);
        assert forall|j: int| 0 <= j < cut(s, c) implies s[j] != c by {
            if j > 0 {
                assert(s.skip(1)[j - 1] == s[j]);
            }
        }
    }
}

/// Tells whether `c` is white space.
pub fn is_whitespace(c: char) -> (b: bool)
    ensures
        b == is_space(c),
{
    ('\u{9}' <= c && c <= '\u{d}') || c == ' ' || c == '\u{85}' || c == '\u{a0}' || c
        == '\u{1680}' || ('\u{2000}' <= c && c <= '\u{200a}') || c == '\u{2028}' || c
        == '\u{2029}' || c == '\u{202f}' || c == '\u{205f}' || c == '\u{3000}'
}

/// The characters of `text`, in order.
fn characters(text: &str) -> (chars: Vec<char>)
    ensures
        chars@ == text@,
{
    let mut chars: Vec<char> = Vec::new();
    for c in it: text.chars()
        invariant
            it.seq() == text@,
            chars@ == it.seq().take(it.index() as int),
    {
        chars.push(c);
    }
    chars
}

/// The bounds of what `trim` leaves of `chars[lo..hi]`.
fn trim_bounds(chars: &Vec<char>, lo: usize, hi: usize) -> (bounds: (usize, usize))
    requires
        lo <= hi <= chars.len(),
    ensures
        lo <= bounds.0 <= bounds.1 <= hi,
        chars@.subrange(bounds.0 as int, bounds.1 as int) == trim(
            chars@.subrange(lo as int, hi as int),
        ),
{
    let mut a: usize = lo;
    while a < hi && is_whitespace(chars[a])
        invariant
            lo <= a <= hi <= chars.len(),
            forall|j: int| lo <= j < a ==> is_space(chars@[j]),
        decreases hi - a,
    {
        a += 1;
    }
    let mut b: usize = hi;
    while b > a && is_whitespace(chars[b - 1])
        invariant
            a <= b <= hi <= chars.len(),
            forall|j: int| b <= j < hi ==> is_space(chars@[j]),
        decreases b,
    {
        b -= 1;
    }
    proof {
        let whole = chars@.subrange(lo as int, hi as int);
        let rest = chars@.subrange(a as int, hi as int);
        lemma_trim_start_skips(whole, a - lo);
        assert(whole.skip(a - lo) =~= rest);
        lemma_trim_end_takes(rest, b - a);
        assert(rest.take(b - a) =~= chars@.subrange(a as int, b as int));
    }
    (a, b)
}

/// Whether `chars[lo..hi]` opens with the key.
fn opens_with_key(chars: &Vec<char>, lo: usize, hi: usize) -> (found: bool)
    requires
        lo <= hi <= chars.len(),
    ensures
        found == key().is_prefix_of(chars@.subrange(lo as int, hi as int)),
{
    let width = FILENAME_KEY.unicode_len();
    let ghost text = chars@.subrange(lo as int, hi as int);
    if hi - lo < width {
        return false;
    }
    let mut k: usize = 0;
    while k < width
        invariant
            k <= width,
            width == key().len(),
            lo + width <= hi <= chars.len(),
            text == chars@.subrange(lo as int, hi as int),
            forall|j: int| 0 <= j < k ==> text[j] == key()[j],
        decreases width - k,
    {
        if chars[lo + k] != FILENAME_KEY.get_char(k) {
            assert(text.subrange(0, width as int)[k as int] != key()[k as int]);
            return false;
        }
        k += 1;
    }
    assert(text.subrange(0, width as int) =~= key());
    true
}

/// Reads the file name off the text of a `Content-Disposition` header: the
/// value is cut at each `;`, and the first piece whose trimmed text opens with
/// `filename=` gives the name, which is what follows the key, trimmed. Quotes
/// round the name are kept, and later pieces are not read.
pub fn filename_parameter(value: &str) -> (name: Option<String>)
    ensures
        match name {
            Some(text) => filename_in(value@) == Some(text@),
            None => filename_in(value@) is None,
        },
{
    let chars = characters(value);
    let n = chars.len();
    let mut start: usize = 0;
    let mut i: usize = 0;
    assert(value@.skip(0) =~= value@);
    loop
        invariant
            chars@ == value@,
            n == chars.len(),
            start <= i <= n,
            forall|j: int| start <= j < i ==> chars@[j] != ';',
            filename_in(value@) == filename_in(
                value@.skip(start as int),
            ),
        decreases n - i,
    {
        if i == n || chars[i] == ';' {
            let ghost tail = value@.skip(start as int);
            proof {
                lemma_cut_at(tail, ';', i - start);
                assert(tail.take(i - start) =~= chars@.subrange(start as int, i as int));
            }
            let (a, b) = trim_bounds(&chars, start, i);
            if opens_with_key(&chars, a, b) {
                let behind = a + FILENAME_KEY.unicode_len();
                proof {
                    assert(chars@.subrange(a as int, b as int).skip(key().len() as int)
                        =~= chars@.subrange(behind as int, b as int));
                }
                let (c, d) = trim_bounds(&chars, behind, b);
                return Some(value.substring_char(c, d).to_owned());
            }
            if i == n {
                return None;
            }
            proof {
                assert(tail.skip(i - start + 1) =~= value@.skip(i + 1));
            }
            start = i + 1;
        }
        i += 1;
    }
}

/// The name under which a response is saved: the file name that the text of its
/// `Content-Disposition` header carries, and `NOTHING_TO_DOWNLOAD` where the
/// header is missing, did not read as text, or carries none.
pub fn derive_filename(header: Option<&str>) -> (name: String)
    ensures
        name@ == derived_filename(
            match header {
                Some(value) => Some(value@),
                None => None,
            },
        ),
{
    match header {
        Some(value) => match filename_parameter(value) {
            Some(name) => name,
            None => NOTHING_TO_DOWNLOAD.to_owned(),
        },
        None => NOTHING_TO_DOWNLOAD.to_owned(),
    }
}

/// Whether a derived name asks for a file to be written: every name does but
/// `NOTHING_TO_DOWNLOAD`.
pub fn names_a_file(name: &str) -> (wanted: bool)
    ensures
        wanted == (name@ != NOTHING_TO_DOWNLOAD@),
{
    name.to_owned() != NOTHING_TO_DOWNLOAD.to_owned()
}

} // verus!
