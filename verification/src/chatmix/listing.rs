//! Reading the audio server's short sink listing.
//!
//! The listing holds one line per sink: a numeric identifier, a tab, the
//! sink's name, a tab, and further fields. Identifiers grow as sinks are
//! created, so among the lines that mention a headset the one that ranks
//! highest belongs to the output that was connected last.

use crate::text::{contains, has_substring, index_of, position, trim, trimmed};
use vstd::prelude::*;

verus! {

pub const NEWLINE: u8 = 0x0a;

pub const TAB: u8 = 0x09;

/// The ASCII decimal digits.
pub open spec fn is_digit(b: u8) -> bool {
    0x30 <= b && b <= 0x39
}

/// How many digits `s` starts with.
pub open spec fn digit_run(s: Seq<u8>) -> int
    decreases s.len(),
{
    if s.len() > 0 && is_digit(s[0]) {
        1 + digit_run(s.drop_first())
    } else {
        0
    }
}

/// The number that the digits `d` spell in decimal; 0 for no digits.
pub open spec fn digits_value(d: Seq<u8>) -> nat
    decreases d.len(),
{
    if d.len() == 0 {
        0
    } else {
        digits_value(d.drop_last()) * 10 + (d.last() - 0x30) as nat
    }
}

/// The number that a line starts with; 0 when it starts with no digit.
pub open spec fn leading_number(line: Seq<u8>) -> nat {
    digits_value(line.subrange(0, digit_run(line)))
}

/// `a` comes before `b` in byte-wise dictionary order.
pub open spec fn lex_less(a: Seq<u8>, b: Seq<u8>) -> bool
    decreases a.len(),
{
    if b.len() == 0 {
        false
    } else if a.len() == 0 {
        true
    } else if a[0] != b[0] {
        a[0] < b[0]
    } else {
        lex_less(a.drop_first(), b.drop_first())
    }
}

/// `a` ranks below `b`: its leading number is smaller, or the numbers are
/// equal and `a` comes first in dictionary order.
pub open spec fn ranks_below(a: Seq<u8>, b: Seq<u8>) -> bool {
    leading_number(a) < leading_number(b) || (leading_number(a) == leading_number(b) && lex_less(
        a,
        b,
    ))
}

/// How one line's leading number stands to another's.
#[derive(Debug, Clone, Copy, PartialEq, Eq, Structural)]
pub enum Standing {
    Below,
    Same,
    Above,
}

/// Ten to the power of `n`.
spec fn pow10(n: nat) -> nat
    decreases n,
{
    if n == 0 {
        1
    } else {
        10 * pow10((n - 1) as nat)
    }
}

proof fn lemma_pow10_grows(m: nat, n: nat)
    requires
        m <= n,
    ensures
        pow10(m) <= pow10(n),
        pow10(m) >= 1,
    decreases n,
{
    if m < n {
        lemma_pow10_grows(m, (n - 1) as nat);
    } else if n > 0 {
        lemma_pow10_grows((m - 1) as nat, (n - 1) as nat);
    }
}

/// Zeros in front of a number do not change it.
proof fn lemma_leading_zeros(d: Seq<u8>, z: int)
    requires
        0 <= z <= d.len(),
        forall|k: int| 0 <= k < z ==> d[k] == 0x30,
    ensures
        digits_value(d) == digits_value(d.subrange(z, d.len() as int)),
    decreases d.len(),
{
    if d.len() == 0 {
        assert(d.subrange(z, d.len() as int) =~= d);
    } else if z == d.len() {
        let init = d.drop_last();
        lemma_leading_zeros(init, z - 1);
        assert(init.subrange(z - 1, init.len() as int) =~= Seq::<u8>::empty());
        assert(d.subrange(z, d.len() as int) =~= Seq::<u8>::empty());
    } else {
        let init = d.drop_last();
        lemma_leading_zeros(init, z);
        let tail = d.subrange(z, d.len() as int);
        assert(tail.drop_last() =~= init.subrange(z, init.len() as int));
        assert(tail.last() == d.last());
    }
}

/// A number of `n` digits is below `10^n`, and at least `10^(n-1)` when its
/// first digit is not zero.
proof fn lemma_digits_bounds(d: Seq<u8>)
    requires
        forall|k: int| 0 <= k < d.len() ==> is_digit(d[k]),
    ensures
        digits_value(d) < pow10(d.len()),
        d.len() > 0 && d[0] != 0x30 ==> digits_value(d) >= pow10((d.len() - 1) as nat),
    decreases d.len(),
{
    if d.len() > 0 {
        let init = d.drop_last();
        assert forall|k: int| 0 <= k < init.len() implies is_digit(init[k]) by {
            assert(init[k] == d[k]);
        }
        lemma_digits_bounds(init);
        if init.len() > 0 {
            assert(init[0] == d[0]);
        }
    }
}

/// Of two numbers with equally many digits, the one with the smaller digit at
/// the first place where they differ is the smaller.
proof fn lemma_same_length_order(a: Seq<u8>, b: Seq<u8>, k: int)
    requires
        a.len() == b.len(),
        forall|i: int| 0 <= i < a.len() ==> is_digit(a[i]) && is_digit(b[i]),
        0 <= k < a.len(),
        forall|i: int| 0 <= i < k ==> a[i] == b[i],
        a[k] < b[k],
    ensures
        digits_value(a) < digits_value(b),
    decreases a.len(),
{
    let ia = a.drop_last();
    let ib = b.drop_last();
    if k == a.len() - 1 {
        assert(ia =~= ib);
    } else {
        assert forall|i: int| 0 <= i < ia.len() implies is_digit(ia[i]) && is_digit(ib[i]) by {
            assert(ia[i] == a[i] && ib[i] == b[i]);
        }
        lemma_same_length_order(ia, ib, k);
    }
}

/// How many digits `s` starts with.
fn digit_count(s: &[u8]) -> (n: usize)
    ensures
        n == digit_run(s@),
        n <= s.len(),
        forall|k: int| 0 <= k < n ==> is_digit(s@[k]),
{
    let mut n: usize = 0;
    proof {
        assert(s@.subrange(0, s.len() as int) =~= s@);
    }
    while n < s.len() && 0x30 <= s[n] && s[n] <= 0x39
        invariant
            n <= s.len(),
            forall|k: int| 0 <= k < n ==> is_digit(s@[k]),
            digit_run(s@) == n + digit_run(s@.subrange(n as int, s.len() as int)),
        decreases s.len() - n,
    {
        proof {
            let here = s@.subrange(n as int, s.len() as int);
            assert(here[0] == s@[n as int]);
            assert(here.drop_first() =~= s@.subrange(n + 1, s.len() as int));
        }
        n += 1;
    }
    proof {
        let here = s@.subrange(n as int, s.len() as int);
        if n < s.len() {
            assert(here[0] == s@[n as int]);
        }
    }
    n
}

/// How many of the first `run` bytes of `s` are zeros in front of the number.
fn zero_count(s: &[u8], run: usize) -> (z: usize)
    requires
        run <= s.len(),
    ensures
        z <= run,
        forall|k: int| 0 <= k < z ==> s@[k] == 0x30,
        z == run || s@[z as int] != 0x30,
{
    let mut z: usize = 0;
    while z < run && s[z] == 0x30
        invariant
            z <= run <= s.len(),
            forall|k: int| 0 <= k < z ==> s@[k] == 0x30,
        decreases run - z,
    {
        z += 1;
    }
    z
}

/// How the leading number of `a` stands to that of `b`. The numbers may have
/// any length: they are compared by their digits, never computed.
pub fn leading_number_standing(a: &[u8], b: &[u8]) -> (r: Standing)
    ensures
        r == Standing::Below <==> leading_number(a@) < leading_number(b@),
        r == Standing::Same <==> leading_number(a@) == leading_number(b@),
        r == Standing::Above <==> leading_number(a@) > leading_number(b@),
{
    let run_a = digit_count(a);
    let run_b = digit_count(b);
    let zeros_a = zero_count(a, run_a);
    let zeros_b = zero_count(b, run_b);
    let len_a = run_a - zeros_a;
    let len_b = run_b - zeros_b;
    let ghost sig_a = a@.subrange(zeros_a as int, run_a as int);
    let ghost sig_b = b@.subrange(zeros_b as int, run_b as int);
    proof {
        let da = a@.subrange(0, run_a as int);
        let db = b@.subrange(0, run_b as int);
        lemma_leading_zeros(da, zeros_a as int);
        lemma_leading_zeros(db, zeros_b as int);
        assert(da.subrange(zeros_a as int, da.len() as int) =~= sig_a);
        assert(db.subrange(zeros_b as int, db.len() as int) =~= sig_b);
        lemma_digits_bounds(sig_a);
        lemma_digits_bounds(sig_b);
        assert(leading_number(a@) == digits_value(sig_a));
        assert(leading_number(b@) == digits_value(sig_b));
    }
    if len_a < len_b {
        proof {
            lemma_pow10_grows(len_a as nat, (len_b - 1) as nat);
        }
        return Standing::Below;
    }
    if len_a > len_b {
        proof {
            lemma_pow10_grows(len_b as nat, (len_a - 1) as nat);
        }
        return Standing::Above;
    }
    let mut k: usize = 0;
    while k < len_a && a[zeros_a + k] == b[zeros_b + k]
        invariant
            k <= len_a,
            len_a == len_b,
            len_a == run_a - zeros_a,
            len_b == run_b - zeros_b,
            run_a <= a.len(),
            run_b <= b.len(),
            sig_a == a@.subrange(zeros_a as int, run_a as int),
            sig_b == b@.subrange(zeros_b as int, run_b as int),
            forall|i: int| 0 <= i < k ==> sig_a[i] == sig_b[i],
        decreases len_a - k,
    {
        k += 1;
    }
    if k == len_a {
        proof {
            assert(sig_a =~= sig_b);
        }
        Standing::Same
    } else if a[zeros_a + k] < b[zeros_b + k] {
        proof {
            lemma_same_length_order(sig_a, sig_b, k as int);
        }
        Standing::Below
    } else {
        proof {
            lemma_same_length_order(sig_b, sig_a, k as int);
        }
        Standing::Above
    }
}

/// Whether `a` comes before `b` in byte-wise dictionary order.
pub fn lex_below(a: &[u8], b: &[u8]) -> (r: bool)
    ensures
        r == lex_less(a@, b@),
{
    let mut i: usize = 0;
    proof {
        assert(a@.subrange(0, a.len() as int) =~= a@);
        assert(b@.subrange(0, b.len() as int) =~= b@);
    }
    while i < a.len() && i < b.len() && a[i] == b[i]
        invariant
            i <= a.len(),
            i <= b.len(),
            lex_less(a@, b@) == lex_less(
                a@.subrange(i as int, a.len() as int),
                b@.subrange(i as int, b.len() as int),
            ),
        decreases a.len() - i,
    {
        proof {
            let ra = a@.subrange(i as int, a.len() as int);
            let rb = b@.subrange(i as int, b.len() as int);
            assert(ra[0] == a@[i as int] && rb[0] == b@[i as int]);
            assert(ra.drop_first() =~= a@.subrange(i + 1, a.len() as int));
            assert(rb.drop_first() =~= b@.subrange(i + 1, b.len() as int));
        }
        i += 1;
    }
    proof {
        let ra = a@.subrange(i as int, a.len() as int);
        let rb = b@.subrange(i as int, b.len() as int);
        if i < a.len() {
            assert(ra[0] == a@[i as int]);
        }
        if i < b.len() {
            assert(rb[0] == b@[i as int]);
        }
    }
    if i == b.len() {
        false
    } else if i == a.len() {
        true
    } else {
        a[i] < b[i]
    }
}

/// Whether line `a` ranks below line `b`.
pub fn line_ranks_below(a: &[u8], b: &[u8]) -> (r: bool)
    ensures
        r == ranks_below(a@, b@),
{
    match leading_number_standing(a, b) {
        Standing::Below => true,
        Standing::Above => false,
        Standing::Same => lex_below(a, b),
    }
}

/// No line comes before itself.
proof fn lemma_lex_irreflexive(a: Seq<u8>)
    ensures
        !lex_less(a, a),
    decreases a.len(),
{
    if a.len() > 0 {
        lemma_lex_irreflexive(a.drop_first());
    }
}

/// Of two different lines one comes before the other.
proof fn lemma_lex_connected(a: Seq<u8>, b: Seq<u8>)
    requires
        a != b,
    ensures
        lex_less(a, b) || lex_less(b, a),
    decreases a.len(),
{
    if a.len() > 0 && b.len() > 0 && a[0] == b[0] {
        let ra = a.drop_first();
        let rb = b.drop_first();
        if ra == rb {
            assert(a =~= seq![a[0]] + ra);
            assert(b =~= seq![b[0]] + rb);
        }
        lemma_lex_connected(ra, rb);
    } else if a.len() == 0 && b.len() == 0 {
        assert(a =~= b);
    }
}

/// Dictionary order carries over a line in the middle.
proof fn lemma_lex_transitive(a: Seq<u8>, b: Seq<u8>, c: Seq<u8>)
    requires
        lex_less(a, b),
        lex_less(b, c),
    ensures
        lex_less(a, c),
    decreases a.len(),
{
    if a.len() > 0 && a[0] == b[0] && b[0] == c[0] {
        lemma_lex_transitive(a.drop_first(), b.drop_first(), c.drop_first());
    }
}

/// No line ranks below itself.
pub proof fn lemma_rank_irreflexive(a: Seq<u8>)
    ensures
        !ranks_below(a, a),
{
    lemma_lex_irreflexive(a);
}

/// Of two different lines one ranks below the other, so a set of lines has
/// at most one that none of the others outranks.
pub proof fn lemma_rank_connected(a: Seq<u8>, b: Seq<u8>)
    requires
        a != b,
    ensures
        ranks_below(a, b) || ranks_below(b, a),
{
    lemma_lex_connected(a, b);
}

/// Ranking carries over a line in the middle.
pub proof fn lemma_rank_transitive(a: Seq<u8>, b: Seq<u8>, c: Seq<u8>)
    requires
        ranks_below(a, b),
        ranks_below(b, c),
    ensures
        ranks_below(a, c),
{
    if leading_number(a) == leading_number(b) && leading_number(b) == leading_number(c) {
        lemma_lex_transitive(a, b, c);
    }
}

/// The lines of a text. A line ends at a newline or at the end of the text;
/// the newline is not part of it, and nothing follows the last newline.
pub open spec fn lines_of(text: Seq<u8>) -> Seq<Seq<u8>>
    decreases text.len(),
{
    if text.len() == 0 {
        Seq::empty()
    } else {
        let end = index_of(text, NEWLINE);
        if 0 <= end < text.len() {
            seq![text.subrange(0, end)] + lines_of(text.subrange(end + 1, text.len() as int))
        } else {
            seq![text]
        }
    }
}

/// The sink name that a line of the listing holds: its second tab-separated
/// field, or the whole line when it holds no tab, without blanks around it.
pub open spec fn name_field(line: Seq<u8>) -> Seq<u8> {
    let tab = index_of(line, TAB);
    if 0 <= tab < line.len() {
        let rest = line.subrange(tab + 1, line.len() as int);
        trimmed(rest.subrange(0, index_of(rest, TAB)))
    } else {
        trimmed(line)
    }
}

/// Among the lines that mention `needle`, the one that ranks highest;
/// `None` when no line mentions it.
pub open spec fn best_of(lines: Seq<Seq<u8>>, needle: Seq<u8>) -> Option<Seq<u8>>
    decreases lines.len(),
{
    if lines.len() == 0 {
        None
    } else {
        let earlier = best_of(lines.drop_last(), needle);
        let line = lines.last();
        if !has_substring(line, needle) {
            earlier
        } else {
            match earlier {
                Some(best) if !ranks_below(best, line) => earlier,
                _ => Some(line),
            }
        }
    }
}

/// The name of the output that a listing resolves `needle` to.
pub open spec fn resolved_output(listing: Seq<u8>, needle: Seq<u8>) -> Option<Seq<u8>> {
    match best_of(lines_of(listing), needle) {
        Some(line) => Some(name_field(line)),
        None => None,
    }
}

/// The highest sort key wins: what `best_of` picks is one of the lines that
/// mention `needle`, and none of those outranks it. It picks nothing only
/// when no line mentions `needle`.
pub proof fn lemma_best_is_highest(lines: Seq<Seq<u8>>, needle: Seq<u8>)
    ensures
        match best_of(lines, needle) {
            Some(best) => {
                &&& has_substring(best, needle)
                &&& exists|i: int| 0 <= i < lines.len() && lines[i] == best
                &&& forall|j: int|
                    0 <= j < lines.len() && has_substring(#[trigger] lines[j], needle)
                        ==> !ranks_below(best, lines[j])
            },
            None => forall|j: int| 0 <= j < lines.len() ==> !has_substring(
                #[trigger] lines[j],
                needle,
            ),
        },
    decreases lines.len(),
{
    if lines.len() > 0 {
        let init = lines.drop_last();
        let line = lines.last();
        lemma_best_is_highest(init, needle);
        assert forall|j: int| 0 <= j < init.len() implies init[j] == lines[j] by {}
        match best_of(lines, needle) {
            Some(best) => {
                if best == line && has_substring(line, needle) {
                    assert(lines[lines.len() - 1] == best);
                    lemma_rank_irreflexive(line);
                    assert forall|j: int|
                        0 <= j < lines.len() && has_substring(
                            #[trigger] lines[j],
                            needle,
                        ) implies !ranks_below(best, lines[j]) by {
                        if j < init.len() {
                            assert(init[j] == lines[j]);
                            let earlier = best_of(init, needle);
                            if earlier is Some && ranks_below(line, lines[j]) {
                                let old_best = earlier->0;
                                assert(!ranks_below(old_best, init[j]));
                                if old_best != line {
                                    assert(ranks_below(old_best, line));
                                    lemma_rank_transitive(old_best, line, lines[j]);
                                }
                            }
                        }
                    }
                } else {
                    let i = choose|i: int| 0 <= i < init.len() && init[i] == best;
                    assert(lines[i] == best);
                    assert forall|j: int|
                        0 <= j < lines.len() && has_substring(
                            #[trigger] lines[j],
                            needle,
                        ) implies !ranks_below(best, lines[j]) by {
                        if j < init.len() {
                            assert(init[j] == lines[j]);
                        }
                    }
                }
            },
            None => {
                assert forall|j: int| 0 <= j < lines.len() implies !has_substring(
                    #[trigger] lines[j],
                    needle,
                ) by {
                    if j < init.len() {
                        assert(init[j] == lines[j]);
                    }
                }
            },
        }
    }
}

/// And only the highest wins: a line that mentions `needle` and that none of
/// the others that mention it outranks is the one that `best_of` picks.
pub proof fn lemma_highest_is_best(lines: Seq<Seq<u8>>, needle: Seq<u8>, i: int)
    requires
        0 <= i < lines.len(),
        has_substring(lines[i], needle),
        forall|j: int|
            0 <= j < lines.len() && has_substring(#[trigger] lines[j], needle) ==> !ranks_below(
                lines[i],
                lines[j],
            ),
    ensures
        best_of(lines, needle) == Some(lines[i]),
{
    lemma_best_is_highest(lines, needle);
    let best = best_of(lines, needle)->0;
    let k = choose|k: int| 0 <= k < lines.len() && lines[k] == best;
    assert(has_substring(lines[k], needle));
    if best != lines[i] {
        lemma_rank_connected(best, lines[i]);
    }
}

/// The sink name that a line of the listing holds.
pub fn line_name(line: &[u8]) -> (r: &[u8])
    ensures
        r@ == name_field(line@),
{
    proof {
        assert(line@.subrange(0, line.len() as int) =~= line@);
    }
    let tab = position(line, 0, TAB);
    if tab < line.len() {
        let end = position(line, tab + 1, TAB);
        proof {
            let rest = line@.subrange(tab + 1, line.len() as int);
            assert(rest.subrange(0, end - (tab + 1)) =~= line@.subrange(tab + 1, end as int));
        }
        trim(vstd::slice::slice_subrange(line, tab + 1, end))
    } else {
        trim(line)
    }
}

/// Resolves `output_name` against the listing: the name of the sink on the
/// highest-ranking line that mentions `output_name`, or `None` when no line
/// mentions it.
pub fn resolve_output(listing: &[u8], output_name: &[u8]) -> (r: Option<Vec<u8>>)
    ensures
        match resolved_output(listing@, output_name@) {
            Some(name) => r matches Some(found) && found@ == name,
            None => r is None,
        },
{
    let mut best: Option<&[u8]> = None;
    let mut start: usize = 0;
    let ghost mut done: Seq<Seq<u8>> = Seq::empty();
    proof {
        assert(listing@.subrange(0, listing.len() as int) =~= listing@);
        assert(done + lines_of(listing@) =~= lines_of(listing@));
    }
    while start < listing.len()
        invariant
            start <= listing.len(),
            lines_of(listing@) == done + lines_of(
                listing@.subrange(start as int, listing.len() as int),
            ),
            match best_of(done, output_name@) {
                Some(line) => best matches Some(found) && found@ == line,
                None => best is None,
            },
        decreases listing.len() - start,
    {
        let end = position(listing, start, NEWLINE);
        let line = vstd::slice::slice_subrange(listing, start, end);
        let next: usize = if end < listing.len() {
            end + 1
        } else {
            end
        };
        proof {
            let rest = listing@.subrange(start as int, listing.len() as int);
            let after = listing@.subrange(next as int, listing.len() as int);
            if end < listing.len() {
                assert(rest.subrange(0, end - start) =~= line@);
                assert(rest.subrange(end - start + 1, rest.len() as int) =~= after);
            } else {
                assert(rest =~= line@);
                assert(lines_of(after) =~= Seq::<Seq<u8>>::empty());
            }
            assert(lines_of(rest) =~= seq![line@] + lines_of(after));
            assert(done + lines_of(rest) =~= done.push(line@) + lines_of(after));
            assert(done.push(line@).drop_last() =~= done);
        }
        if contains(line, output_name) {
            let better = match best {
                Some(found) => line_ranks_below(found, line),
                None => true,
            };
            if better {
                best = Some(line);
            }
        }
        proof {
            done = done.push(line@);
        }
        start = next;
    }
    proof {
        assert(lines_of(listing@.subrange(start as int, listing.len() as int)) =~= Seq::<
            Seq<u8>,
        >::empty());
        assert(done + Seq::<Seq<u8>>::empty() =~= done);
    }
    match best {
        Some(found) => Some(vstd::slice::slice_to_vec(line_name(found))),
        None => None,
    }
}

} // verus!
