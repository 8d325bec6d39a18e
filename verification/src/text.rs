use vstd::prelude::*;
use vstd::string::StringExecFns;
use vstd::string::StrSliceExecFns;

verus! {

/// The parts joined with the separator between consecutive parts: the
/// mathematical meaning of [`join_strings`].
pub open spec fn spec_join(parts: Seq<Seq<char>>, sep: Seq<char>) -> Seq<char>
    decreases parts.len(),
{
    if parts.len() == 0 {
        Seq::empty()
    } else if parts.len() == 1 {
        parts[0]
    } else {
        parts[0] + sep + spec_join(parts.drop_first(), sep)
    }
}

/// Joining one more part appends one separator and that part.
pub proof fn lemma_join_push(parts: Seq<Seq<char>>, sep: Seq<char>, x: Seq<char>)
    requires
        parts.len() >= 1,
    ensures
        spec_join(parts.push(x), sep) == spec_join(parts, sep) + sep + x,
    decreases parts.len(),
{
    if parts.len() == 1 {
        assert(parts.push(x).drop_first() =~= seq![x]);
        assert(spec_join(seq![x], sep) == x);
        assert(parts.push(x)[0] == parts[0]);
        assert(spec_join(parts.push(x), sep) == parts[0] + sep + x);
        assert(spec_join(parts, sep) == parts[0]);
    } else {
        assert(parts.push(x).drop_first() =~= parts.drop_first().push(x));
        lemma_join_push(parts.drop_first(), sep, x);
        assert(spec_join(parts.push(x), sep) =~= spec_join(parts, sep) + sep + x);
    }
}

/// Joins the parts with the separator between consecutive parts.
pub fn join_strings(parts: &Vec<String>, sep: &str) -> (r: String)
    ensures
        r@ == spec_join(parts.deep_view(), sep@),
{
    let ghost all = parts.deep_view();
    let mut r = String::new();
    let mut i: usize = 0;
    while i < parts.len()
        invariant
            i <= parts.len(),
            all == parts.deep_view(),
            all.len() == parts.len(),
            r@ == spec_join(all.take(i as int), sep@),
        decreases parts.len() - i,
    {
        if i > 0 {
            r.append(sep);
        }
        r.append(parts[i].as_str());
        proof {
            assert(all.take(i + 1) =~= all.take(i as int).push(all[i as int]));
            if i == 0 {
                assert(all.take(1) =~= seq![all[0]]);
            } else {
                lemma_join_push(all.take(i as int), sep@, all[i as int]);
            }
        }
        i = i + 1;
    }
    proof {
        assert(all.take(parts.len() as int) =~= all);
    }
    r
}

/// One `?` per value, separated by `, `: the placeholder list of an
/// INSERT statement's VALUES clause.
pub open spec fn spec_placeholders(n: nat) -> Seq<char>
    decreases n,
{
    if n == 0 {
        Seq::empty()
    } else if n == 1 {
        "?"@
    } else {
        spec_placeholders((n - 1) as nat) + ", ?"@
    }
}

/// Renders the placeholder list for `n` values.
pub fn placeholders(n: usize) -> (r: String)
    ensures
        r@ == spec_placeholders(n as nat),
{
    let mut r = String::new();
    if n == 0 {
        return r;
    }
    r.append("?");
    let mut i: usize = 1;
    while i < n
        invariant
            1 <= i <= n,
            r@ == spec_placeholders(i as nat),
        decreases n - i,
    {
        r.append(", ?");
        i = i + 1;
    }
    r
}

/// How many times the character occurs in the sequence.
pub open spec fn count_char(s: Seq<char>, c: char) -> nat
    decreases s.len(),
{
    if s.len() == 0 {
        0
    } else {
        count_char(s.drop_last(), c) + (if s.last() == c {
            1nat
        } else {
            0nat
        })
    }
}

/// Occurrences in a concatenation are the occurrences in each half.
pub proof fn lemma_count_char_concat(a: Seq<char>, b: Seq<char>, c: char)
    ensures
        count_char(a + b, c) == count_char(a, c) + count_char(b, c),
    decreases b.len(),
{
    if b.len() == 0 {
        assert(a + b =~= a);
    } else {
        assert((a + b).drop_last() =~= a + b.drop_last());
        assert((a + b).last() == b.last());
        lemma_count_char_concat(a, b.drop_last(), c);
    }
}

/// The placeholder list for `n` values holds exactly `n` question marks.
pub proof fn lemma_placeholder_count(n: nat)
    ensures
        count_char(spec_placeholders(n), '?') == n,
    decreases n,
{
    reveal_strlit("?");
    reveal_strlit(", ?");
    if n == 0 {
    } else if n == 1 {
        assert("?"@ =~= seq!['?']);
        assert(seq!['?'].drop_last() =~= Seq::<char>::empty());
        assert(count_char(Seq::<char>::empty(), '?') == 0);
        assert(count_char(seq!['?'], '?') == 1);
    } else {
        lemma_placeholder_count((n - 1) as nat);
        let s3 = seq![',', ' ', '?'];
        let s2 = seq![',', ' '];
        let s1 = seq![','];
        let s0 = Seq::<char>::empty();
        assert(", ?"@ =~= s3);
        assert(s3.drop_last() =~= s2);
        assert(s2.drop_last() =~= s1);
        assert(s1.drop_last() =~= s0);
        assert(count_char(s0, '?') == 0);
        assert(count_char(s1, '?') == 0);
        assert(count_char(s2, '?') == 0);
        assert(count_char(s3, '?') == 1);
        lemma_count_char_concat(spec_placeholders((n - 1) as nat), ", ?"@, '?');
    }
}

/// The digit character for a value below ten.
pub open spec fn spec_digit_char(d: nat) -> char {
    if d == 0 {
        '0'
    } else if d == 1 {
        '1'
    } else if d == 2 {
        '2'
    } else if d == 3 {
        '3'
    } else if d == 4 {
        '4'
    } else if d == 5 {
        '5'
    } else if d == 6 {
        '6'
    } else if d == 7 {
        '7'
    } else if d == 8 {
        '8'
    } else {
        '9'
    }
}

/// The decimal rendering of a natural number, most significant digit
/// first and without leading zeros (a lone zero renders as `0`).
pub open spec fn spec_decimal(n: nat) -> Seq<char>
    decreases n,
{
    if n < 10 {
        seq![spec_digit_char(n)]
    } else {
        spec_decimal(n / 10) + seq![spec_digit_char(n % 10)]
    }
}

/// The one-character string for a digit.
fn digit_str(d: u64) -> (r: &'static str)
    requires
        d < 10,
    ensures
        r@ == seq![spec_digit_char(d as nat)],
{
    if d == 0 {
        proof {
            reveal_strlit("0");
            assert("0"@ =~= seq!['0']);
        }
        "0"
    } else if d == 1 {
        proof {
            reveal_strlit("1");
            assert("1"@ =~= seq!['1']);
        }
        "1"
    } else if d == 2 {
        proof {
            reveal_strlit("2");
            assert("2"@ =~= seq!['2']);
        }
        "2"
    } else if d == 3 {
        proof {
            reveal_strlit("3");
            assert("3"@ =~= seq!['3']);
        }
        "3"
    } else if d == 4 {
        proof {
            reveal_strlit("4");
            assert("4"@ =~= seq!['4']);
        }
        "4"
    } else if d == 5 {
        proof {
            reveal_strlit("5");
            assert("5"@ =~= seq!['5']);
        }
        "5"
    } else if d == 6 {
        proof {
            reveal_strlit("6");
            assert("6"@ =~= seq!['6']);
        }
        "6"
    } else if d == 7 {
        proof {
            reveal_strlit("7");
            assert("7"@ =~= seq!['7']);
        }
        "7"
    } else if d == 8 {
        proof {
            reveal_strlit("8");
            assert("8"@ =~= seq!['8']);
        }
        "8"
    } else {
        proof {
            reveal_strlit("9");
            assert("9"@ =~= seq!['9']);
        }
        "9"
    }
}

/// Renders an unsigned number in decimal.
pub fn u64_to_string(n: u64) -> (r: String)
    ensures
        r@ == spec_decimal(n as nat),
    decreases n,
{
    if n < 10 {
        let mut r = String::new();
        r.append(digit_str(n));
        r
    } else {
        let mut r = u64_to_string(n / 10);
        r.append(digit_str(n % 10));
        r
    }
}

/// Whether the character counts as trailing whitespace for the
/// serializer's final trim.
pub open spec fn spec_is_ws(c: char) -> bool {
    c == ' ' || c == '\t' || c == '\n' || c == '\r'
}

/// The sequence with every trailing whitespace character removed.
pub open spec fn spec_trim_end(s: Seq<char>) -> Seq<char>
    decreases s.len(),
{
    if s.len() == 0 {
        s
    } else if spec_is_ws(s.last()) {
        spec_trim_end(s.drop_last())
    } else {
        s
    }
}

/// A head that does not end in whitespace survives the trim of any
/// extension: the trim can only eat into the extension.
pub proof fn lemma_trim_keeps_anchored_prefix(a: Seq<char>, b: Seq<char>)
    requires
        a.len() > 0,
        !spec_is_ws(a.last()),
    ensures
        a.is_prefix_of(spec_trim_end(a + b)),
    decreases b.len(),
{
    if b.len() == 0 {
        assert(a + b =~= a);
        assert(a =~= a.subrange(0, a.len() as int));
    } else if spec_is_ws((a + b).last()) {
        assert((a + b).drop_last() =~= a + b.drop_last());
        lemma_trim_keeps_anchored_prefix(a, b.drop_last());
    } else {
        assert(a =~= (a + b).subrange(0, a.len() as int));
    }
}

/// Removes trailing whitespace.
pub fn trim_end_str(s: &str) -> (r: String)
    ensures
        r@ == spec_trim_end(s@),
{
    let len: usize = s.unicode_len();
    let mut k: usize = len;
    proof {
        assert(s@.take(len as int) =~= s@);
    }
    loop
        invariant
            k <= len,
            len == s@.len(),
            spec_trim_end(s@) == spec_trim_end(s@.take(k as int)),
        ensures
            k <= len,
            len == s@.len(),
            spec_trim_end(s@) == spec_trim_end(s@.take(k as int)),
            k == 0 || !spec_is_ws(s@[k as int - 1]),
        decreases k,
    {
        if k == 0 {
            break;
        }
        let c = s.get_char(k - 1);
        if !(c == ' ' || c == '\t' || c == '\n' || c == '\r') {
            break;
        }
        proof {
            assert(s@.take(k as int).last() == c);
            assert(s@.take(k as int).drop_last() =~= s@.take(k as int - 1));
        }
        k = k - 1;
    }
    proof {
        if k == 0 {
            assert(s@.take(0) =~= Seq::<char>::empty());
        } else {
            assert(s@.take(k as int).last() == s@[k as int - 1]);
        }
        assert(spec_trim_end(s@.take(k as int)) == s@.take(k as int));
    }
    let cut = s.substring_char(0, k);
    let mut r = String::new();
    r.append(cut);
    proof {
        assert(cut@ =~= s@.take(k as int));
    }
    r
}

} // verus!
