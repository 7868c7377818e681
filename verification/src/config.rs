use vstd::prelude::*;

verus! {

/// Default column count when the environment gives none.
pub const DEFAULT_NUM_COLUMNS: usize = 30;

/// Default total row count when the environment gives none.
pub const DEFAULT_NUM_ROWS: usize = 700000;

/// Default bound on rows per batch when the environment gives none.
pub const DEFAULT_MAX_ROWS: usize = 20000;

/// The three sizing parameters, read once at startup and immutable for the
/// life of the process.
pub struct Config {
    pub n_columns: usize,
    pub n_rows: usize,
    pub max_rows: usize,
}

/// An ASCII decimal digit.
pub open spec fn is_digit(c: u8) -> bool {
    48 <= c && c <= 57
}

/// The numeric value of a digit byte (zero on non-digits, which keeps the
/// decimal value monotone under extension).
pub open spec fn digit_val(c: u8) -> nat {
    if is_digit(c) {
        (c - 48) as nat
    } else {
        0
    }
}

/// The value of a byte sequence read as a decimal numeral, most significant
/// digit first.
pub open spec fn dec_value(s: Seq<u8>) -> nat
    decreases s.len(),
{
    if s.len() == 0 {
        0
    } else {
        dec_value(s.drop_last()) * 10 + digit_val(s.last())
    }
}

/// The digits of a numeral: everything after one optional leading `+`.
pub open spec fn digits_part(s: Seq<u8>) -> Seq<u8> {
    if s.len() >= 1 && s[0] == 43 {
        s.drop_first()
    } else {
        s
    }
}

/// Whether a byte sequence parses as a `usize`: an optional leading `+`,
/// then at least one digit and nothing else, with a value in range.
pub open spec fn parses(s: Seq<u8>) -> bool {
    &&& digits_part(s).len() >= 1
    &&& forall|k: int| 0 <= k < digits_part(s).len() ==> is_digit(#[trigger] digits_part(s)[k])
    &&& dec_value(digits_part(s)) <= usize::MAX
}

/// The parsed value of a byte sequence that parses.
pub open spec fn parsed(s: Seq<u8>) -> nat {
    dec_value(digits_part(s))
}

/// A sizing parameter's resolution: the parsed value where the raw text is
/// present and parses, the default otherwise.
pub open spec fn resolved(raw: Option<Seq<u8>>, default: nat) -> nat {
    match raw {
        Some(s) => if parses(s) {
            parsed(s)
        } else {
            default
        },
        None => default,
    }
}

/// The decimal value of a prefix never exceeds the value of the whole.
proof fn lemma_dec_value_prefix_le(s: Seq<u8>, k: int)
    requires
        0 <= k <= s.len(),
    ensures
        dec_value(s.subrange(0, k)) <= dec_value(s),
    decreases s.len() - k,
{
    if k == s.len() {
        assert(s.subrange(0, k) =~= s);
    } else {
        lemma_dec_value_prefix_le(s.drop_last(), k);
        assert(s.drop_last().subrange(0, k) =~= s.subrange(0, k));
    }
}

/// Parse a byte slice as a decimal `usize`: an optional leading `+`, then
/// one or more digits; absent digits, stray bytes, or overflow give `None`.
pub fn parse_usize(s: &[u8]) -> (r: Option<usize>)
    ensures
        parses(s@) ==> (r matches Some(v) && v == parsed(s@)),
        !parses(s@) ==> r is None,
{
    let n: usize = s.len();
    let start: usize = if n >= 1 && s[0] == 43 {
        1
    } else {
        0
    };
    if n == start {
        return None;
    }
    let mut acc: usize = 0;
    let mut i: usize = start;
    while i < n
        invariant
            start <= i <= n,
            start < n,
            n == s@.len(),
            (n >= 1 && s@[0] == 43) ==> start == 1,
            !(n >= 1 && s@[0] == 43) ==> start == 0,
            forall|k: int| start <= k < i ==> is_digit(#[trigger] s@[k]),
            acc == dec_value(s@.subrange(start as int, i as int)),
        decreases n - i,
    {
        let c: u8 = s[i];
        if c < 48 || c > 57 {
            proof {
                assert(digits_part(s@)[i - start] == s@[i as int]);
                assert(!parses(s@));
            }
            return None;
        }
        let d: usize = (c - 48) as usize;
        let ghost prefix = s@.subrange(start as int, i as int);
        let ghost extended = s@.subrange(start as int, i + 1 as int);
        proof {
            assert(extended.drop_last() =~= prefix);
            assert(extended.last() == s@[i as int]);
            assert(dec_value(extended) == acc * 10 + d);
        }
        if acc > (usize::MAX - d) / 10 {
            proof {
                let q = ((usize::MAX - d) / 10) as int;
                vstd::arithmetic::div_mod::lemma_fundamental_div_mod(usize::MAX - d, 10);
                assert(acc * 10 >= (q + 1) * 10) by (nonlinear_arith)
                    requires
                        acc >= q + 1,
                ;
                assert(acc * 10 + d > usize::MAX);
                assert(digits_part(s@).subrange(0, i + 1 - start) =~= extended);
                lemma_dec_value_prefix_le(digits_part(s@), i + 1 - start);
                assert(!parses(s@));
            }
            return None;
        }
        acc = acc * 10 + d;
        i = i + 1;
        proof {
            assert(s@.subrange(start as int, i as int) == extended);
        }
    }
    proof {
        assert(digits_part(s@) =~= s@.subrange(start as int, n as int));
        assert(parses(s@));
    }
    Some(acc)
}

/// One sizing parameter from raw environment text: the parsed value where
/// the text is present and parses as a decimal integer, the default
/// otherwise.
pub fn resolve_param(raw: Option<Vec<u8>>, default: usize) -> (r: usize)
    ensures
        r == resolved(raw.deep_view(), default as nat),
{
    match raw {
        Some(v) => {
            proof {
                assert(v.deep_view() =~= v@);
            }
            match parse_usize(v.as_slice()) {
                Some(x) => x,
                None => default,
            }
        },
        None => default,
    }
}

/// Resolve the three sizing parameters, each independently defaulted when
/// absent or unparsable.
pub fn resolve_config(
    num_columns: Option<Vec<u8>>,
    num_rows: Option<Vec<u8>>,
    max_rows: Option<Vec<u8>>,
) -> (c: Config)
    ensures
        c.n_columns == resolved(num_columns.deep_view(), DEFAULT_NUM_COLUMNS as nat),
        c.n_rows == resolved(num_rows.deep_view(), DEFAULT_NUM_ROWS as nat),
        c.max_rows == resolved(max_rows.deep_view(), DEFAULT_MAX_ROWS as nat),
{
    Config {
        n_columns: resolve_param(num_columns, DEFAULT_NUM_COLUMNS),
        n_rows: resolve_param(num_rows, DEFAULT_NUM_ROWS),
        max_rows: resolve_param(max_rows, DEFAULT_MAX_ROWS),
    }
}

} // verus!
