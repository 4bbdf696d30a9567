//! Comma-separated lists and whitespace trimming on strings.
use vstd::prelude::*;

verus! {

/// Whether `c` has the Unicode `White_Space` property: tab through carriage
/// return, space, next line, no-break space, ogham space mark, the spaces
/// U+2000 to U+200A, line and paragraph separators, narrow no-break space,
/// medium mathematical space and ideographic space.
pub open spec fn is_white_space(c: char) -> bool {
    let u = c as u32;
    ||| 0x9 <= u <= 0xD
    ||| u == 0x20
    ||| u == 0x85
    ||| u == 0xA0
    ||| u == 0x1680
    ||| 0x2000 <= u <= 0x200A
    ||| u == 0x2028
    ||| u == 0x2029
    ||| u == 0x202F
    ||| u == 0x205F
    ||| u == 0x3000
}

/// Whether `c` is whitespace in the sense of `char::is_whitespace` (the
/// Unicode `White_Space` property).
pub fn char_is_whitespace(c: char) -> (r: bool)
    ensures
        r == is_white_space(c),
{
    let u = c as u32;
    (0x9 <= u && u <= 0xD) || u == 0x20 || u == 0x85 || u == 0xA0 || u == 0x1680 || (0x2000 <= u
        && u <= 0x200A) || u == 0x2028 || u == 0x2029 || u == 0x202F || u == 0x205F || u == 0x3000
}

/// The pieces of `s` between commas, in order: one more piece than there are
/// commas, empty pieces included.
pub open spec fn comma_pieces(s: Seq<char>) -> Seq<Seq<char>>
    decreases s.len(),
{
    if s.len() == 0 {
        seq![Seq::<char>::empty()]
    } else {
        let rest = comma_pieces(s.drop_last());
        if s.last() == ',' {
            rest.push(Seq::<char>::empty())
        } else {
            rest.update(rest.len() - 1, rest.last().push(s.last()))
        }
    }
}

/// `s` without its leading whitespace.
pub open spec fn trim_start(s: Seq<char>) -> Seq<char>
    decreases s.len(),
{
    if s.len() > 0 && is_white_space(s[0]) {
        trim_start(s.drop_first())
    } else {
        s
    }
}

/// `s` without its trailing whitespace.
pub open spec fn trim_end(s: Seq<char>) -> Seq<char>
    decreases s.len(),
{
    if s.len() > 0 && is_white_space(s.last()) {
        trim_end(s.drop_last())
    } else {
        s
    }
}

/// `s` without leading and trailing whitespace, as `str::trim` gives it.
pub open spec fn trimmed(s: Seq<char>) -> Seq<char> {
    trim_end(trim_start(s))
}

proof fn lemma_comma_pieces_nonempty(s: Seq<char>)
    ensures
        comma_pieces(s).len() >= 1,
    decreases s.len(),
{
    if s.len() > 0 {
        lemma_comma_pieces_nonempty(s.drop_last());
    }
}

/// The characters of `s` in `[start, end)` with whitespace trimmed off both
/// ends, as a new string.
fn trimmed_piece(s: &str, start: usize, end: usize) -> (r: String)
    requires
        start <= end <= s@.len(),
    ensures
        r@ == trimmed(s@.subrange(start as int, end as int)),
{
    let mut lo = start;
    while lo < end && char_is_whitespace(s.get_char(lo))
        invariant
            start <= lo <= end <= s@.len(),
            trim_start(s@.subrange(start as int, end as int)) == trim_start(
                s@.subrange(lo as int, end as int),
            ),
        decreases end - lo,
    {
        assert(s@.subrange(lo as int, end as int).drop_first() =~= s@.subrange(
            lo + 1,
            end as int,
        ));
        lo = lo + 1;
    }
    assert(trim_start(s@.subrange(lo as int, end as int)) == s@.subrange(lo as int, end as int));
    let mut hi = end;
    while hi > lo && char_is_whitespace(s.get_char(hi - 1))
        invariant
            start <= lo <= hi <= end <= s@.len(),
            trim_end(s@.subrange(lo as int, end as int)) == trim_end(
                s@.subrange(lo as int, hi as int),
            ),
        decreases hi - lo,
    {
        assert(s@.subrange(lo as int, hi as int).drop_last() =~= s@.subrange(
            lo as int,
            hi - 1,
        ));
        hi = hi - 1;
    }
    assert(trim_end(s@.subrange(lo as int, hi as int)) == s@.subrange(lo as int, hi as int));
    let piece = s.substring_char(lo, hi);
    String::from_str(piece)
}

/// Splits `s` at every comma and trims whitespace off each piece.
pub fn split_trimmed(s: &str) -> (r: Vec<String>)
    ensures
        r@.len() == comma_pieces(s@).len(),
        forall|k: int| 0 <= k < r@.len() ==> #[trigger] r@[k]@ == trimmed(comma_pieces(s@)[k]),
{
    let n = s.unicode_len();
    let mut r: Vec<String> = Vec::new();
    let mut start: usize = 0;
    let mut i: usize = 0;
    while i < n
        invariant
            n == s@.len(),
            start <= i <= n,
            comma_pieces(s@.take(i as int)).len() == r@.len() + 1,
            comma_pieces(s@.take(i as int)).last() == s@.subrange(start as int, i as int),
            forall|k: int|
                0 <= k < r@.len() ==> #[trigger] r@[k]@ == trimmed(
                    comma_pieces(s@.take(i as int))[k],
                ),
        decreases n - i,
    {
        proof {
            lemma_comma_pieces_nonempty(s@.take(i as int));
            assert(s@.take(i + 1).drop_last() =~= s@.take(i as int));
        }
        let c = s.get_char(i);
        if c == ',' {
            let piece = trimmed_piece(s, start, i);
            r.push(piece);
            start = i + 1;
            assert(s@.subrange(start as int, i + 1) =~= Seq::<char>::empty());
        } else {
            assert(s@.subrange(start as int, i + 1) =~= s@.subrange(start as int, i as int).push(
                c,
            ));
        }
        i = i + 1;
    }
    assert(s@.take(n as int) =~= s@);
    let piece = trimmed_piece(s, start, n);
    r.push(piece);
    r
}

/// The text of `s` before its first comma (all of `s` when it has none), as
/// a new string.
pub fn first_piece(s: &str) -> (r: String)
    ensures
        r@ == comma_pieces(s@)[0],
{
    let n = s.unicode_len();
    let mut i: usize = 0;
    while i < n && s.get_char(i) != ','
        invariant
            n == s@.len(),
            i <= n,
            forall|k: int| 0 <= k < i ==> s@[k] != ',',
        decreases n - i,
    {
        i = i + 1;
    }
    proof {
        lemma_first_piece(s@, i as int);
    }
    String::from_str(s.substring_char(0, i))
}

/// The first piece of `s` is everything before its first comma.
proof fn lemma_first_piece(s: Seq<char>, i: int)
    requires
        0 <= i <= s.len(),
        forall|k: int| 0 <= k < i ==> s[k] != ',',
        i < s.len() ==> s[i] == ',',
    ensures
        comma_pieces(s)[0] == s.take(i),
    decreases s.len(),
{
    if s.len() == 0 {
        assert(s.take(i) =~= Seq::<char>::empty());
    } else if i == s.len() {
        lemma_no_comma_single_piece(s);
    } else {
        lemma_first_piece_prefix(s, i);
    }
}

/// A string without commas is a single piece.
proof fn lemma_no_comma_single_piece(s: Seq<char>)
    requires
        forall|k: int| 0 <= k < s.len() ==> s[k] != ',',
    ensures
        comma_pieces(s) == seq![s],
    decreases s.len(),
{
    if s.len() == 0 {
        assert(s =~= Seq::<char>::empty());
        assert(comma_pieces(s) =~= seq![s]);
    } else {
        lemma_no_comma_single_piece(s.drop_last());
        assert(s.drop_last().push(s.last()) =~= s);
        assert(comma_pieces(s) =~= seq![s]);
    }
}

/// Extending a string after its first comma keeps its first piece.
proof fn lemma_first_piece_prefix(s: Seq<char>, i: int)
    requires
        0 <= i < s.len(),
        forall|k: int| 0 <= k < i ==> s[k] != ',',
        s[i] == ',',
    ensures
        comma_pieces(s)[0] == s.take(i),
        comma_pieces(s).len() >= 2,
    decreases s.len(),
{
    if s.len() == i + 1 {
        lemma_no_comma_single_piece(s.drop_last());
        assert(s.drop_last() =~= s.take(i));
    } else {
        lemma_first_piece_prefix(s.drop_last(), i);
        assert(s.drop_last().take(i) =~= s.take(i));
    }
}


/// The number of commas in `s`.
pub open spec fn comma_count(s: Seq<char>) -> nat
    decreases s.len(),
{
    if s.len() == 0 {
        0
    } else {
        comma_count(s.drop_last()) + if s.last() == ',' {
            1nat
        } else {
            0nat
        }
    }
}

/// A list with `n` commas has `n + 1` pieces.
pub proof fn lemma_piece_count(s: Seq<char>)
    ensures
        comma_pieces(s).len() == comma_count(s) + 1,
    decreases s.len(),
{
    if s.len() > 0 {
        lemma_piece_count(s.drop_last());
    }
}

/// Trimming leaves no whitespace at either end.
pub proof fn lemma_trimmed_ends(s: Seq<char>)
    ensures
        trimmed(s).len() > 0 ==> !is_white_space(trimmed(s)[0]) && !is_white_space(
            trimmed(s).last(),
        ),
{
    lemma_trim_start_first(s);
    lemma_trim_end_keeps_first(trim_start(s));
    lemma_trim_end_last(trim_start(s));
}

proof fn lemma_trim_start_first(s: Seq<char>)
    ensures
        trim_start(s).len() > 0 ==> !is_white_space(trim_start(s)[0]),
    decreases s.len(),
{
    if s.len() > 0 && is_white_space(s[0]) {
        lemma_trim_start_first(s.drop_first());
    }
}

proof fn lemma_trim_end_last(s: Seq<char>)
    ensures
        trim_end(s).len() > 0 ==> !is_white_space(trim_end(s).last()),
    decreases s.len(),
{
    if s.len() > 0 && is_white_space(s.last()) {
        lemma_trim_end_last(s.drop_last());
    }
}

proof fn lemma_trim_end_keeps_first(s: Seq<char>)
    ensures
        trim_end(s).len() <= s.len(),
        trim_end(s).len() > 0 ==> trim_end(s)[0] == s[0],
    decreases s.len(),
{
    if s.len() > 0 && is_white_space(s.last()) {
        lemma_trim_end_keeps_first(s.drop_last());
    }
}

} // verus!
