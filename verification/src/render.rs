//! Greedy decomposition of a value against the symbol table, and the
//! renderer that turns the decomposition into a glyph string.
//!
//! The rendering of a non-zero value walks the table in its descending
//! order; at each entry it emits that entry's glyphs as often as the entry's
//! weight still fits into the remaining value, subtracting the weight each
//! time. Zero is rendered as the dedicated zero glyph. Every rendering ends
//! with the numeral-marker character.

use vstd::prelude::*;
use vstd::string::StringExecFns;

use crate::table;

verus! {

/// The glyph that renders the value zero.
pub open spec fn zero_glyph() -> Seq<char> {
    "𐆊"@
}

/// The trailing mark that closes every rendering, denoting a numeral rather
/// than a word.
pub open spec fn terminator() -> Seq<char> {
    "'"@
}

/// The glyphs that the greedy walk emits for the remaining value `n`,
/// starting at table index `i`, in the requested case.
pub open spec fn greedy_chars(n: int, i: int, upper: bool) -> Seq<char>
    decreases n, table::TABLE_LEN as int - i,
{
    if n <= 0 || i < 0 || i >= table::TABLE_LEN as int {
        Seq::<char>::empty()
    } else if n >= table::weight(i) {
        table::sym(i, upper) + greedy_chars(n - table::weight(i), i, upper)
    } else {
        greedy_chars(n, i + 1, upper)
    }
}

/// The table indices, in emission order, that the greedy walk chooses for
/// the remaining value `n`, starting at table index `i`. The choice does not
/// depend on the requested case.
pub open spec fn greedy_indices(n: int, i: int) -> Seq<int>
    decreases n, table::TABLE_LEN as int - i,
{
    if n <= 0 || i < 0 || i >= table::TABLE_LEN as int {
        Seq::<int>::empty()
    } else if n >= table::weight(i) {
        seq![i] + greedy_indices(n - table::weight(i), i)
    } else {
        greedy_indices(n, i + 1)
    }
}

/// The glyphs of the entries at `ixs`, concatenated in order, in the
/// requested case.
pub open spec fn concat_syms(ixs: Seq<int>, upper: bool) -> Seq<char>
    decreases ixs.len(),
{
    if ixs.len() == 0 {
        Seq::<char>::empty()
    } else {
        table::sym(ixs[0], upper) + concat_syms(ixs.drop_first(), upper)
    }
}

/// The sum of the weights of the entries at `ixs`.
pub open spec fn weights_sum(ixs: Seq<int>) -> int
    decreases ixs.len(),
{
    if ixs.len() == 0 {
        0
    } else {
        table::weight(ixs[0]) + weights_sum(ixs.drop_first())
    }
}

/// The complete rendering of the value `n`: the zero glyph for zero,
/// otherwise the greedy walk over the whole table; the terminator closes
/// either form.
pub open spec fn spec_render(n: int, upper: bool) -> Seq<char> {
    if n == 0 {
        zero_glyph() + terminator()
    } else {
        greedy_chars(n, 0, upper) + terminator()
    }
}

proof fn lemma_concat_syms_cons(i: int, ixs: Seq<int>, upper: bool)
    ensures
        concat_syms(seq![i] + ixs, upper) == table::sym(i, upper) + concat_syms(ixs, upper),
{
    let s = seq![i] + ixs;
    assert(s.drop_first() =~= ixs);
}

proof fn lemma_weights_sum_cons(i: int, ixs: Seq<int>)
    ensures
        weights_sum(seq![i] + ixs) == table::weight(i) + weights_sum(ixs),
{
    let s = seq![i] + ixs;
    assert(s.drop_first() =~= ixs);
}

/// The greedy glyphs are exactly the glyphs of the greedy indices: the walk
/// chooses the entries once, and the case only selects which glyph each
/// chosen entry contributes.
pub proof fn lemma_greedy_chars_is_concat(n: int, i: int, upper: bool)
    ensures
        greedy_chars(n, i, upper) == concat_syms(greedy_indices(n, i), upper),
    decreases n, table::TABLE_LEN as int - i,
{
    if n <= 0 || i < 0 || i >= table::TABLE_LEN as int {
    } else if n >= table::weight(i) {
        lemma_greedy_chars_is_concat(n - table::weight(i), i, upper);
        lemma_concat_syms_cons(i, greedy_indices(n - table::weight(i), i), upper);
    } else {
        lemma_greedy_chars_is_concat(n, i + 1, upper);
    }
}

/// Glyph concatenation has the same character length in either case: each
/// entry's uppercase and lowercase glyphs are equally long.
pub proof fn lemma_concat_syms_len_eq(ixs: Seq<int>)
    ensures
        concat_syms(ixs, true).len() == concat_syms(ixs, false).len(),
    decreases ixs.len(),
{
    if ixs.len() > 0 {
        if 0 <= ixs[0] < table::TABLE_LEN as int {
            table::lemma_sym_lengths(ixs[0]);
        }
        lemma_concat_syms_len_eq(ixs.drop_first());
    }
}

/// The weights of the entries that the greedy walk chooses for `n`, started
/// at index `i`, sum to `n` exactly: no part of the value is dropped and
/// none is emitted twice.
pub proof fn lemma_greedy_indices_sum(n: int, i: int)
    requires
        0 <= n,
        0 <= i < table::TABLE_LEN,
    ensures
        weights_sum(greedy_indices(n, i)) == n,
    decreases n, table::TABLE_LEN as int - i,
{
    if n == 0 {
    } else if n >= table::weight(i) {
        table::lemma_weight_positive(i);
        lemma_greedy_indices_sum(n - table::weight(i), i);
        lemma_weights_sum_cons(i, greedy_indices(n - table::weight(i), i));
    } else {
        assert(i < table::TABLE_LEN as int - 1 || table::weight(i) == 1);
        lemma_greedy_indices_sum(n, i + 1);
    }
}

/// Soundness of the decomposition: the weights of the chosen entries sum
/// back to the rendered value.
pub proof fn theorem_decomposition_sums_to_value(n: int)
    requires
        0 <= n,
    ensures
        weights_sum(greedy_indices(n, 0)) == n,
{
    lemma_greedy_indices_sum(n, 0);
}

/// Zero renders as the zero glyph followed by the terminator, in either
/// case.
pub proof fn theorem_render_zero(upper: bool)
    ensures
        spec_render(0, upper) == zero_glyph() + terminator(),
{
}

/// Case agreement: the uppercase and the lowercase rendering of one value
/// choose the same table entries in the same order, and so have the same
/// character length; they differ only in which glyph each chosen entry
/// contributes.
pub proof fn theorem_case_agreement(n: int)
    requires
        0 <= n,
    ensures
        spec_render(n, true).len() == spec_render(n, false).len(),
        n != 0 ==> spec_render(n, true) == concat_syms(greedy_indices(n, 0), true) + terminator(),
        n != 0 ==> spec_render(n, false) == concat_syms(greedy_indices(n, 0), false)
            + terminator(),
{
    if n != 0 {
        lemma_greedy_chars_is_concat(n, 0, true);
        lemma_greedy_chars_is_concat(n, 0, false);
        lemma_concat_syms_len_eq(greedy_indices(n, 0));
    }
}

/// Renders `value` against the symbol table, in the requested case, with
/// the trailing numeral marker.
pub fn render(value: u32, upper: bool) -> (r: String)
    ensures
        r@ == spec_render(value as int, upper),
{
    let mut out = String::new();
    if value == 0 {
        out.append("𐆊");
    } else {
        let mut n = value;
        let mut i: usize = 0;
        while i < table::TABLE_LEN
            invariant
                i <= table::TABLE_LEN,
                out@ + greedy_chars(n as int, i as int, upper)
                    == greedy_chars(value as int, 0, upper),
            decreases table::TABLE_LEN - i,
        {
            let (w, us, ls) = table::entry(i);
            proof {
                table::lemma_weight_positive(i as int);
            }
            while n >= w
                invariant
                    i < table::TABLE_LEN,
                    w as int == table::weight(i as int),
                    w >= 1,
                    us@ == table::upper_sym(i as int),
                    ls@ == table::lower_sym(i as int),
                    out@ + greedy_chars(n as int, i as int, upper)
                        == greedy_chars(value as int, 0, upper),
                decreases n,
            {
                proof {
                    assert(greedy_chars(n as int, i as int, upper)
                        == table::sym(i as int, upper)
                            + greedy_chars(n as int - w as int, i as int, upper));
                    assert((out@ + table::sym(i as int, upper))
                        + greedy_chars(n as int - w as int, i as int, upper)
                        =~= out@ + (table::sym(i as int, upper)
                            + greedy_chars(n as int - w as int, i as int, upper)));
                }
                n -= w;
                out.append(if upper { us } else { ls });
            }
            proof {
                assert(greedy_chars(n as int, i as int, upper)
                    == greedy_chars(n as int, i as int + 1, upper));
            }
            i += 1;
        }
    }
    out.append("'");
    out
}

} // verus!
