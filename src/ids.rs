use vstd::prelude::*;
use vstd::set_lib::*;
use vstd::string::*;

verus! {

/// The decimal digit for `d` (below ten).
pub open spec fn digit_char(d: nat) -> char {
    if d == 0 { '0' }
    else if d == 1 { '1' }
    else if d == 2 { '2' }
    else if d == 3 { '3' }
    else if d == 4 { '4' }
    else if d == 5 { '5' }
    else if d == 6 { '6' }
    else if d == 7 { '7' }
    else if d == 8 { '8' }
    else { '9' }
}

/// The decimal numeral of `n`, without leading zeros.
pub open spec fn decimal(n: nat) -> Seq<char>
    decreases n,
{
    if n < 10 {
        seq![digit_char(n)]
    } else {
        decimal(n / 10).push(digit_char(n % 10))
    }
}

/// The payment id built from sequence number `n`: `PAY-` and its numeral.
pub open spec fn payment_id_text(n: nat) -> Seq<char> {
    seq!['P', 'A', 'Y', '-'] + decimal(n)
}

proof fn lemma_decimal_len(n: nat)
    ensures
        decimal(n).len() >= 1,
        decimal(n).len() == 1 <==> n < 10,
    decreases n,
{
    if n >= 10 {
        lemma_decimal_len(n / 10);
    }
}

/// Distinct numbers have distinct numerals.
pub proof fn lemma_decimal_injective(a: nat, b: nat)
    requires
        decimal(a) == decimal(b),
    ensures
        a == b,
    decreases a,
{
    lemma_decimal_len(a);
    lemma_decimal_len(b);
    if a < 10 && b < 10 {
        assert(decimal(a)[0] == digit_char(a));
        assert(decimal(b)[0] == digit_char(b));
        assert(a == b);
    }
    if a < 10 && b >= 10 {
        assert(false);
    }
    if a >= 10 && b < 10 {
        assert(false);
    }
    if a >= 10 && b >= 10 {
        let da = decimal(a);
        let db = decimal(b);
        assert(da.last() == db.last());
        assert(da.drop_last() =~= decimal(a / 10));
        assert(db.drop_last() =~= decimal(b / 10));
        lemma_decimal_injective(a / 10, b / 10);
        assert(digit_char(a % 10) == digit_char(b % 10));
        assert(a % 10 == b % 10);
        assert(a == (a / 10) * 10 + a % 10) by (nonlinear_arith);
        assert(b == (b / 10) * 10 + b % 10) by (nonlinear_arith);
    }
}

/// Distinct sequence numbers give distinct payment ids.
pub proof fn lemma_payment_id_injective(a: nat, b: nat)
    requires
        payment_id_text(a) == payment_id_text(b),
    ensures
        a == b,
{
    assert(decimal(a) =~= payment_id_text(a).subrange(4, payment_id_text(a).len() as int));
    assert(decimal(b) =~= payment_id_text(b).subrange(4, payment_id_text(b).len() as int));
    lemma_decimal_injective(a, b);
}

/// The ids of sequence numbers 1 to `k`.
pub open spec fn ids_upto(k: nat) -> Set<Seq<char>>
    decreases k,
{
    if k == 0 {
        Set::empty()
    } else {
        ids_upto((k - 1) as nat).insert(payment_id_text(k))
    }
}

proof fn lemma_ids_upto(k: nat)
    ensures
        ids_upto(k).finite(),
        ids_upto(k).len() == k,
        forall|s: Seq<char>| #[trigger] ids_upto(k).contains(s) ==> exists|m: nat| 1 <= m <= k && s == payment_id_text(m),
    decreases k,
{
    if k > 0 {
        let j = (k - 1) as nat;
        lemma_ids_upto(j);
        if ids_upto(j).contains(payment_id_text(k)) {
            let m = choose|m: nat| 1 <= m <= j && payment_id_text(k) == payment_id_text(m);
            lemma_payment_id_injective(k, m);
        }
        assert forall|s: Seq<char>| #[trigger] ids_upto(k).contains(s) implies exists|m: nat| 1 <= m <= k && s == payment_id_text(m) by {
            if s != payment_id_text(k) {
                assert(ids_upto(j).contains(s));
            }
        }
    }
}

/// When the ids of 1 to `k` are all taken in a finite set of ids, the set
/// holds at least `k` of them.
pub proof fn lemma_taken_ids_bound(taken: Set<Seq<char>>, k: nat)
    requires
        taken.finite(),
        forall|m: nat| 1 <= m <= k ==> taken.contains(#[trigger] payment_id_text(m)),
    ensures
        k <= taken.len(),
{
    lemma_ids_upto(k);
    assert forall|s: Seq<char>| ids_upto(k).contains(s) implies taken.contains(s) by {
        let m = choose|m: nat| 1 <= m <= k && s == payment_id_text(m);
    }
    lemma_len_subset(ids_upto(k), taken);
}

/// The one-character text of decimal digit `d`.
fn digit_text(d: u128) -> (r: &'static str)
    requires
        d < 10,
    ensures
        r@ == seq![digit_char(d as nat)],
{
    if d == 0 {
        proof { reveal_strlit("0"); }
        "0"
    } else if d == 1 {
        proof { reveal_strlit("1"); }
        "1"
    } else if d == 2 {
        proof { reveal_strlit("2"); }
        "2"
    } else if d == 3 {
        proof { reveal_strlit("3"); }
        "3"
    } else if d == 4 {
        proof { reveal_strlit("4"); }
        "4"
    } else if d == 5 {
        proof { reveal_strlit("5"); }
        "5"
    } else if d == 6 {
        proof { reveal_strlit("6"); }
        "6"
    } else if d == 7 {
        proof { reveal_strlit("7"); }
        "7"
    } else if d == 8 {
        proof { reveal_strlit("8"); }
        "8"
    } else {
        proof { reveal_strlit("9"); }
        "9"
    }
}

/// Appends the decimal numeral of `n` to `s`.
fn push_decimal(s: &mut String, n: u128)
    ensures
        final(s)@ == old(s)@ + decimal(n as nat),
    decreases n,
{
    if n >= 10 {
        push_decimal(s, n / 10);
    }
    s.append(digit_text(n % 10));
    proof {
        if n >= 10 {
            assert(decimal(n as nat) == decimal((n / 10) as nat).push(digit_char((n % 10) as nat)));
        }
    }
    assert(s@ =~= old(s)@ + decimal(n as nat));
}

/// The payment id for sequence number `n`.
pub fn payment_id_string(n: u128) -> (r: String)
    ensures
        r@ == payment_id_text(n as nat),
{
    let mut s = String::new();
    proof { reveal_strlit("PAY-"); }
    s.append("PAY-");
    push_decimal(&mut s, n);
    assert(s@ =~= payment_id_text(n as nat));
    s
}

} // verus!
