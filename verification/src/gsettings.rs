//! The pure computations behind global-hotkey registration.
//!
//! Registering the hotkey with the desktop environment means editing its list
//! of custom keybinding paths. The list arrives and leaves as a text literal
//! of the form `['<path>', '<path>']`; each path ends in `custom<N>/` for a
//! decimal index `N`. This module parses that literal, formats it back, and
//! picks the first free index for a new entry; invoking the settings tool
//! itself happens outside the library.

use vstd::arithmetic::div_mod::lemma_fundamental_div_mod;
use vstd::prelude::*;
use vstd::seq_lib::seq_to_set_is_finite;

verus! {

/// The common prefix of every custom keybinding path.
pub const CUSTOM_PATH_PREFIX: &'static str =
    "/org/gnome/settings-daemon/plugins/media-keys/custom-keybindings/custom";

/// The character standing for one decimal digit.
pub open spec fn digit_char(d: int) -> char {
    if d == 0 {
        '0'
    } else if d == 1 {
        '1'
    } else if d == 2 {
        '2'
    } else if d == 3 {
        '3'
    } else if d == 4 {
        '4'
    } else if d == 5 {
        '5'
    } else if d == 6 {
        '6'
    } else if d == 7 {
        '7'
    } else if d == 8 {
        '8'
    } else {
        '9'
    }
}

/// The decimal digits of `n`, most significant first, no leading zeros.
pub open spec fn dec_digits(n: nat) -> Seq<char>
    decreases n,
{
    if n < 10 {
        seq![digit_char(n as int)]
    } else {
        dec_digits(n / 10).push(digit_char((n % 10) as int))
    }
}

/// The custom keybinding path for index `n`: the common prefix, the decimal
/// index, and a trailing slash.
pub open spec fn path_for_index(n: nat) -> Seq<char> {
    CUSTOM_PATH_PREFIX@ + dec_digits(n) + seq!['/']
}

/// A decimal representation has at least one digit, and two for `n >= 10`.
proof fn lemma_dec_digits_len(n: nat)
    ensures
        dec_digits(n).len() >= 1,
        n >= 10 ==> dec_digits(n).len() >= 2,
    decreases n,
{
    if n >= 10 {
        lemma_dec_digits_len(n / 10);
    }
}

/// Distinct numbers have distinct decimal representations.
proof fn lemma_dec_digits_injective(a: nat, b: nat)
    requires
        dec_digits(a) == dec_digits(b),
    ensures
        a == b,
    decreases a + b,
{
    lemma_dec_digits_len(a);
    lemma_dec_digits_len(b);
    if a < 10 && b < 10 {
        assert(dec_digits(a)[0] == digit_char(a as int));
        assert(dec_digits(b)[0] == digit_char(b as int));
    } else if a >= 10 && b >= 10 {
        assert(dec_digits(a).last() == digit_char((a % 10) as int));
        assert(dec_digits(b).last() == digit_char((b % 10) as int));
        assert(a % 10 == b % 10);
        assert(dec_digits(a).drop_last() =~= dec_digits(a / 10));
        assert(dec_digits(b).drop_last() =~= dec_digits(b / 10));
        lemma_dec_digits_injective(a / 10, b / 10);
        lemma_fundamental_div_mod(a as int, 10);
        lemma_fundamental_div_mod(b as int, 10);
    } else {
        assert(dec_digits(a).len() != dec_digits(b).len());
    }
}

/// Distinct indices give distinct custom keybinding paths.
proof fn lemma_path_injective(a: nat, b: nat)
    requires
        path_for_index(a) == path_for_index(b),
    ensures
        a == b,
{
    let p = CUSTOM_PATH_PREFIX@;
    let da = dec_digits(a);
    let db = dec_digits(b);
    assert(path_for_index(a).len() == p.len() + da.len() + 1);
    assert(path_for_index(b).len() == p.len() + db.len() + 1);
    assert(da.len() == db.len());
    assert forall|k: int| 0 <= k < da.len() implies da[k] == db[k] by {
        assert(path_for_index(a)[p.len() + k] == da[k]);
        assert(path_for_index(b)[p.len() + k] == db[k]);
    }
    assert(da =~= db);
    lemma_dec_digits_injective(a, b);
}

/// Among the indices `0 ..= n` there is one whose path is not in `taken`,
/// whenever `taken` has at most `n` elements: the paths of distinct indices
/// are distinct, so `n + 1` of them cannot all fall into `taken`.
proof fn lemma_free_path_below(taken: Set<Seq<char>>, n: nat)
    requires
        taken.finite(),
        taken.len() <= n,
    ensures
        exists|i: nat| i <= n && !taken.contains(path_for_index(i)),
    decreases n,
{
    if !taken.contains(path_for_index(n)) {
        assert(n <= n && !taken.contains(path_for_index(n)));
    } else {
        if n == 0 {
            taken.lemma_len0_is_empty();
        }
        let rest = taken.remove(path_for_index(n));
        lemma_free_path_below(rest, (n - 1) as nat);
        let i = choose|i: nat| i <= n - 1 && !rest.contains(path_for_index(i));
        if taken.contains(path_for_index(i)) {
            lemma_path_injective(i, n);
        }
        assert(i <= n && !taken.contains(path_for_index(i)));
    }
}

/// Append one decimal digit character to `s`.
fn append_digit(s: &mut String, d: u64)
    requires
        d < 10,
    ensures
        final(s)@ == old(s)@.push(digit_char(d as int)),
{
    if d == 0 {
        proof {
            reveal_strlit("0");
        }
        s.append("0");
    } else if d == 1 {
        proof {
            reveal_strlit("1");
        }
        s.append("1");
    } else if d == 2 {
        proof {
            reveal_strlit("2");
        }
        s.append("2");
    } else if d == 3 {
        proof {
            reveal_strlit("3");
        }
        s.append("3");
    } else if d == 4 {
        proof {
            reveal_strlit("4");
        }
        s.append("4");
    } else if d == 5 {
        proof {
            reveal_strlit("5");
        }
        s.append("5");
    } else if d == 6 {
        proof {
            reveal_strlit("6");
        }
        s.append("6");
    } else if d == 7 {
        proof {
            reveal_strlit("7");
        }
        s.append("7");
    } else if d == 8 {
        proof {
            reveal_strlit("8");
        }
        s.append("8");
    } else {
        proof {
            reveal_strlit("9");
        }
        s.append("9");
    }
    proof {
        assert(final(s)@ =~= old(s)@.push(digit_char(d as int)));
    }
}

/// `n` written in decimal, most significant digit first.
pub fn u64_to_dec(n: u64) -> (r: String)
    ensures
        r@ == dec_digits(n as nat),
    decreases n,
{
    if n < 10 {
        let mut s = String::new();
        append_digit(&mut s, n);
        proof {
            assert(s@ =~= seq![digit_char(n as int)]);
        }
        s
    } else {
        let mut s = u64_to_dec(n / 10);
        append_digit(&mut s, n % 10);
        s
    }
}

/// The custom keybinding path for index `n`.
pub fn custom_path_for_index(n: u64) -> (r: String)
    ensures
        r@ == path_for_index(n as nat),
{
    let mut s = String::from_str(CUSTOM_PATH_PREFIX);
    let digits = u64_to_dec(n);
    s.append(digits.as_str());
    proof {
        reveal_strlit("/");
    }
    s.append("/");
    proof {
        assert(s@ =~= path_for_index(n as nat));
    }
    s
}

/// Whether `needle` occurs in `entries`.
pub fn list_contains(entries: &Vec<String>, needle: &String) -> (r: bool)
    ensures
        r == entries.deep_view().contains(needle@),
{
    let n = entries.len();
    let mut i: usize = 0;
    while i < n
        invariant
            i <= n,
            n == entries@.len(),
            forall|j: int| 0 <= j < i ==> entries.deep_view()[j] != needle@,
        decreases n - i,
    {
        proof {
            assert(entries.deep_view()[i as int] == entries@[i as int]@);
        }
        if entries[i].eq(needle) {
            return true;
        }
        i = i + 1;
    }
    proof {
        assert(entries.deep_view().len() == entries@.len());
    }
    false
}

/// The custom keybinding path with the smallest index that is not yet in
/// `entries`: every smaller index is taken, the returned one is free.
pub fn next_custom_path(entries: &Vec<String>) -> (r: String)
    ensures
        exists|idx: nat|
            {
                &&& r@ == path_for_index(idx)
                &&& !entries.deep_view().contains(path_for_index(idx))
                &&& forall|j: nat| j < idx ==> entries.deep_view().contains(path_for_index(j))
            },
{
    let n = entries.len();
    let ghost taken = entries.deep_view().to_set();
    proof {
        seq_to_set_is_finite(entries.deep_view());
        entries.deep_view().lemma_cardinality_of_set();
        lemma_free_path_below(taken, entries.deep_view().len() as nat);
    }
    let ghost free = choose|i: nat| i <= entries.deep_view().len() && !taken.contains(
        path_for_index(i),
    );
    let mut idx: u64 = 0;
    loop
        invariant
            idx <= free,
            free <= n,
            n == entries@.len(),
            !taken.contains(path_for_index(free)),
            taken == entries.deep_view().to_set(),
            forall|j: nat| j < idx ==> entries.deep_view().contains(path_for_index(j)),
        decreases free - idx,
    {
        let candidate = custom_path_for_index(idx);
        if !list_contains(entries, &candidate) {
            return candidate;
        }
        proof {
            assert(taken.contains(path_for_index(idx as nat)));
            assert(idx != free);
        }
        idx = idx + 1;
    }
}

/// ASCII whitespace, as it occurs around entries of the settings list.
pub open spec fn is_space(c: char) -> bool {
    c == ' ' || c == '\t' || c == '\n' || c == '\r'
}

/// `s` without its leading whitespace.
pub open spec fn strip_leading_space(s: Seq<char>) -> Seq<char>
    decreases s.len(),
{
    if s.len() > 0 && is_space(s[0]) {
        strip_leading_space(s.drop_first())
    } else {
        s
    }
}

/// `s` without its trailing whitespace.
pub open spec fn strip_trailing_space(s: Seq<char>) -> Seq<char>
    decreases s.len(),
{
    if s.len() > 0 && is_space(s.last()) {
        strip_trailing_space(s.drop_last())
    } else {
        s
    }
}

/// `s` without its leading run of `c`.
pub open spec fn strip_leading_char(s: Seq<char>, c: char) -> Seq<char>
    decreases s.len(),
{
    if s.len() > 0 && s[0] == c {
        strip_leading_char(s.drop_first(), c)
    } else {
        s
    }
}

/// `s` without its trailing run of `c`.
pub open spec fn strip_trailing_char(s: Seq<char>, c: char) -> Seq<char>
    decreases s.len(),
{
    if s.len() > 0 && s.last() == c {
        strip_trailing_char(s.drop_last(), c)
    } else {
        s
    }
}

/// `s` with whitespace removed from both ends.
pub open spec fn trimmed(s: Seq<char>) -> Seq<char> {
    strip_trailing_space(strip_leading_space(s))
}

/// One list entry cleaned as the settings list needs it: whitespace trimmed,
/// then the surrounding quote characters removed.
pub open spec fn clean_entry(s: Seq<char>) -> Seq<char> {
    strip_trailing_char(strip_leading_char(trimmed(s), '\''), '\'')
}

/// `s` split at every occurrence of `sep`; the separators themselves are
/// dropped, and `n` separators give `n + 1` pieces.
pub open spec fn split_on(s: Seq<char>, sep: char) -> Seq<Seq<char>>
    decreases s.len(),
{
    if s.len() == 0 {
        seq![Seq::empty()]
    } else if s[0] == sep {
        seq![Seq::<char>::empty()] + split_on(s.drop_first(), sep)
    } else {
        let rest = split_on(s.drop_first(), sep);
        seq![seq![s[0]] + rest[0]] + rest.drop_first()
    }
}

/// A split always yields at least one piece.
proof fn lemma_split_nonempty(s: Seq<char>, sep: char)
    ensures
        split_on(s, sep).len() >= 1,
    decreases s.len(),
{
    if s.len() > 0 {
        lemma_split_nonempty(s.drop_first(), sep);
    }
}

/// `pieces` with `pre` prepended to its first piece.
pub open spec fn prepend_first(pre: Seq<char>, pieces: Seq<Seq<char>>) -> Seq<Seq<char>> {
    seq![pre + pieces[0]] + pieces.drop_first()
}

/// The cleaned entries of `pieces` that are non-empty, in order.
pub open spec fn kept_entries(pieces: Seq<Seq<char>>) -> Seq<Seq<char>>
    decreases pieces.len(),
{
    if pieces.len() == 0 {
        Seq::empty()
    } else {
        let rest = kept_entries(pieces.drop_last());
        let last = clean_entry(pieces.last());
        if last.len() > 0 {
            rest.push(last)
        } else {
            rest
        }
    }
}

/// The entries encoded by a settings list literal such as `['a', 'b']`:
/// brackets stripped, split at commas, each piece trimmed and unquoted, empty
/// pieces dropped.
pub open spec fn parsed_list(raw: Seq<char>) -> Seq<Seq<char>> {
    kept_entries(split_on(strip_trailing_char(strip_leading_char(raw, '['), ']'), ','))
}

/// `e` wrapped in single quotes.
pub open spec fn quoted(e: Seq<char>) -> Seq<char> {
    seq!['\''] + e + seq!['\'']
}

/// The entries each quoted, joined with a comma and a space.
pub open spec fn joined(entries: Seq<Seq<char>>) -> Seq<char>
    decreases entries.len(),
{
    if entries.len() == 0 {
        Seq::empty()
    } else if entries.len() == 1 {
        quoted(entries[0])
    } else {
        joined(entries.drop_last()) + seq![',', ' '] + quoted(entries.last())
    }
}

/// The settings list literal for `entries`: `['a', 'b']`.
pub open spec fn formatted_list(entries: Seq<Seq<char>>) -> Seq<char> {
    seq!['['] + joined(entries) + seq![']']
}

/// Whether `c` is ASCII whitespace.
fn is_space_char(c: char) -> (r: bool)
    ensures
        r == is_space(c),
{
    c == ' ' || c == '\t' || c == '\n' || c == '\r'
}

/// `s` with whitespace removed from both ends.
pub fn trim_spaces(s: &str) -> (r: String)
    ensures
        r@ == trimmed(s@),
{
    let n = s.unicode_len();
    let mut lo: usize = 0;
    proof {
        assert(s@.skip(0) =~= s@);
    }
    while lo < n && is_space_char(s.get_char(lo))
        invariant
            lo <= n,
            n == s@.len(),
            strip_leading_space(s@) == strip_leading_space(s@.skip(lo as int)),
        decreases n - lo,
    {
        proof {
            assert(s@.skip(lo as int)[0] == s@[lo as int]);
            assert(s@.skip(lo as int).drop_first() =~= s@.skip(lo + 1));
        }
        lo = lo + 1;
    }
    proof {
        assert(strip_leading_space(s@) == s@.skip(lo as int));
    }
    let mut hi: usize = n;
    proof {
        assert(s@.skip(lo as int).take(n - lo) =~= s@.skip(lo as int));
    }
    while hi > lo && is_space_char(s.get_char(hi - 1))
        invariant
            lo <= hi <= n,
            n == s@.len(),
            strip_leading_space(s@) == s@.skip(lo as int),
            strip_trailing_space(s@.skip(lo as int)) == strip_trailing_space(
                s@.skip(lo as int).take(hi - lo),
            ),
        decreases hi,
    {
        proof {
            assert(s@.skip(lo as int).take(hi - lo).last() == s@[hi - 1]);
            assert(s@.skip(lo as int).take(hi - lo).drop_last() =~= s@.skip(lo as int).take(
                hi - 1 - lo,
            ));
        }
        hi = hi - 1;
    }
    proof {
        assert(trimmed(s@) == s@.skip(lo as int).take(hi - lo));
        assert(s@.skip(lo as int).take(hi - lo) =~= s@.subrange(lo as int, hi as int));
    }
    let out = s.substring_char(lo, hi);
    out.to_owned()
}

/// `s` with its leading run of `lead` and its trailing run of `trail`
/// removed.
pub fn strip_ends(s: &str, lead: char, trail: char) -> (r: String)
    ensures
        r@ == strip_trailing_char(strip_leading_char(s@, lead), trail),
{
    let n = s.unicode_len();
    let mut lo: usize = 0;
    proof {
        assert(s@.skip(0) =~= s@);
    }
    while lo < n && s.get_char(lo) == lead
        invariant
            lo <= n,
            n == s@.len(),
            strip_leading_char(s@, lead) == strip_leading_char(s@.skip(lo as int), lead),
        decreases n - lo,
    {
        proof {
            assert(s@.skip(lo as int)[0] == s@[lo as int]);
            assert(s@.skip(lo as int).drop_first() =~= s@.skip(lo + 1));
        }
        lo = lo + 1;
    }
    proof {
        assert(strip_leading_char(s@, lead) == s@.skip(lo as int));
    }
    let mut hi: usize = n;
    proof {
        assert(s@.skip(lo as int).take(n - lo) =~= s@.skip(lo as int));
    }
    while hi > lo && s.get_char(hi - 1) == trail
        invariant
            lo <= hi <= n,
            n == s@.len(),
            strip_leading_char(s@, lead) == s@.skip(lo as int),
            strip_trailing_char(s@.skip(lo as int), trail) == strip_trailing_char(
                s@.skip(lo as int).take(hi - lo),
                trail,
            ),
        decreases hi,
    {
        proof {
            assert(s@.skip(lo as int).take(hi - lo).last() == s@[hi - 1]);
            assert(s@.skip(lo as int).take(hi - lo).drop_last() =~= s@.skip(lo as int).take(
                hi - 1 - lo,
            ));
        }
        hi = hi - 1;
    }
    proof {
        assert(strip_trailing_char(strip_leading_char(s@, lead), trail) == s@.skip(
            lo as int,
        ).take(hi - lo));
        assert(s@.skip(lo as int).take(hi - lo) =~= s@.subrange(lo as int, hi as int));
    }
    let out = s.substring_char(lo, hi);
    out.to_owned()
}

/// `s` split at every comma.
pub fn split_commas(s: &str) -> (r: Vec<String>)
    ensures
        r.deep_view() == split_on(s@, ','),
{
    let n = s.unicode_len();
    let mut done: Vec<String> = Vec::new();
    let mut start: usize = 0;
    let mut i: usize = 0;
    proof {
        lemma_split_nonempty(s@, ',');
        assert(s@.skip(0) =~= s@);
        assert(s@.subrange(0, 0) =~= Seq::<char>::empty());
        assert(prepend_first(Seq::empty(), split_on(s@, ',')) =~= split_on(s@, ','));
        assert(done.deep_view() =~= Seq::<Seq<char>>::empty());
    }
    while i < n
        invariant
            start <= i <= n,
            n == s@.len(),
            split_on(s@, ',') == done.deep_view() + prepend_first(
                s@.subrange(start as int, i as int),
                split_on(s@.skip(i as int), ','),
            ),
        decreases n - i,
    {
        let c = s.get_char(i);
        proof {
            lemma_split_nonempty(s@.skip(i as int), ',');
            lemma_split_nonempty(s@.skip(i + 1), ',');
            assert(s@.skip(i as int)[0] == s@[i as int]);
            assert(s@.skip(i as int).drop_first() =~= s@.skip(i + 1));
        }
        if c == ',' {
            let piece = s.substring_char(start, i);
            let owned = piece.to_owned();
            let ghost old_done = done.deep_view();
            proof {
                let pre = s@.subrange(start as int, i as int);
                let rest = split_on(s@.skip(i + 1), ',');
                assert(split_on(s@.skip(i as int), ',') =~= seq![Seq::<char>::empty()] + rest);
                assert(prepend_first(pre, seq![Seq::<char>::empty()] + rest) =~= seq![pre]
                    + prepend_first(Seq::empty(), rest));
                assert(prepend_first(Seq::empty(), rest) =~= rest);
            }
            done.push(owned);
            proof {
                assert(done.deep_view() =~= old_done.push(s@.subrange(start as int, i as int)));
            }
            start = i + 1;
            i = i + 1;
            proof {
                assert(s@.subrange(start as int, i as int) =~= Seq::<char>::empty());
                assert(split_on(s@, ',') =~= done.deep_view() + prepend_first(
                    s@.subrange(start as int, i as int),
                    split_on(s@.skip(i as int), ','),
                ));
            }
        } else {
            i = i + 1;
            proof {
                let rest = split_on(s@.skip(i as int), ',');
                assert(s@.subrange(start as int, i as int) =~= s@.subrange(start as int, i - 1)
                    + seq![s@[i - 1]]);
                assert((s@.subrange(start as int, i - 1) + seq![s@[i - 1]]) + rest[0] =~= s@
                    .subrange(start as int, i - 1) + (seq![s@[i - 1]] + rest[0]));
                assert(split_on(s@, ',') =~= done.deep_view() + prepend_first(
                    s@.subrange(start as int, i as int),
                    rest,
                ));
            }
        }
    }
    let piece = s.substring_char(start, n);
    let owned = piece.to_owned();
    proof {
        assert(s@.skip(n as int) =~= Seq::<char>::empty());
        assert(prepend_first(s@.subrange(start as int, n as int), seq![Seq::<char>::empty()])
            =~= seq![s@.subrange(start as int, n as int)]);
    }
    done.push(owned);
    proof {
        assert(done.deep_view() =~= split_on(s@, ','));
    }
    done
}

/// Parse a settings list literal such as `['a', 'b']` into its entries:
/// split at commas, each entry trimmed and unquoted, empty entries dropped.
pub fn parse_keybinding_list(raw: &str) -> (r: Vec<String>)
    ensures
        r.deep_view() == parsed_list(raw@),
{
    let inner = strip_ends(raw, '[', ']');
    let pieces = split_commas(inner.as_str());
    let ghost pv = pieces.deep_view();
    let mut out: Vec<String> = Vec::new();
    let mut k: usize = 0;
    proof {
        assert(out.deep_view() =~= kept_entries(pv.take(0)));
    }
    while k < pieces.len()
        invariant
            k <= pieces@.len(),
            pv == pieces.deep_view(),
            pv.len() == pieces@.len(),
            out.deep_view() == kept_entries(pv.take(k as int)),
        decreases pieces@.len() - k,
    {
        let ghost old_out = out.deep_view();
        let trimmed_piece = trim_spaces(pieces[k].as_str());
        let cleaned = strip_ends(trimmed_piece.as_str(), '\'', '\'');
        proof {
            assert(pv[k as int] == pieces@[k as int]@);
            assert(cleaned@ == clean_entry(pv[k as int]));
            assert(pv.take(k + 1).drop_last() =~= pv.take(k as int));
            assert(pv.take(k + 1).last() == pv[k as int]);
        }
        if !cleaned.as_str().is_empty() {
            out.push(cleaned);
            proof {
                assert(out.deep_view() =~= old_out.push(clean_entry(pv[k as int])));
            }
        }
        k = k + 1;
        proof {
            assert(out.deep_view() =~= kept_entries(pv.take(k as int)));
        }
    }
    proof {
        assert(pv.take(pv.len() as int) =~= pv);
    }
    out
}

/// Format `entries` as the settings list literal `['a', 'b']`.
pub fn format_keybinding_list(entries: &Vec<String>) -> (r: String)
    ensures
        r@ == formatted_list(entries.deep_view()),
{
    let ghost ev = entries.deep_view();
    proof {
        reveal_strlit("[");
    }
    let mut s = String::from_str("[");
    let mut k: usize = 0;
    proof {
        assert(s@ =~= seq!['['] + joined(ev.take(0)));
    }
    while k < entries.len()
        invariant
            k <= entries@.len(),
            ev == entries.deep_view(),
            ev.len() == entries@.len(),
            s@ == seq!['['] + joined(ev.take(k as int)),
        decreases entries@.len() - k,
    {
        proof {
            reveal_strlit(", ");
            reveal_strlit("'");
            assert(ev[k as int] == entries@[k as int]@);
            assert(ev.take(k + 1).drop_last() =~= ev.take(k as int));
            assert(ev.take(k + 1).last() == ev[k as int]);
        }
        let ghost before = s@;
        if k > 0 {
            s.append(", ");
        }
        s.append("'");
        s.append(entries[k].as_str());
        s.append("'");
        proof {
            if k == 0 {
                assert(joined(ev.take(1)) =~= quoted(ev[0]));
                assert(s@ =~= seq!['['] + joined(ev.take(1)));
            } else {
                assert(joined(ev.take(k + 1)) =~= joined(ev.take(k as int)) + seq![',', ' ']
                    + quoted(ev[k as int]));
                assert(s@ =~= seq!['['] + joined(ev.take(k + 1)));
            }
        }
        k = k + 1;
    }
    proof {
        reveal_strlit("]");
        assert(ev.take(ev.len() as int) =~= ev);
    }
    s.append("]");
    proof {
        assert(s@ =~= formatted_list(ev));
    }
    s
}

} // verus!
