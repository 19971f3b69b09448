use vstd::prelude::*;

verus! {

pub open spec fn digit_char(d: nat) -> char {
    if d == 0 { '0' }
    else if d == 1 { '1' }
    else if d == 2 { '2' }
    else if d == 3 { '3' }
    else if d == 4 { '4' }
    else if d == 5 { '5' }
    else if d == 6 { '6' }
    else if d == 7 { '7' }
    else if d == 8 { '8' }
    else { '9' }
}

/// The decimal digits of `n`, without leading zeros.
pub open spec fn decimal(n: nat) -> Seq<char>
    decreases n,
{
    if n < 10 {
        seq![digit_char(n)]
    } else {
        decimal(n / 10) + seq![digit_char(n % 10)]
    }
}

/// The cache entry of map `id`, relative to the working directory.
pub open spec fn cache_path_of(id: u32) -> Seq<char> {
    "maps/"@ + decimal(id as nat) + ".osu"@
}

/// The address the document of map `id` is downloaded from.
pub open spec fn download_url_of(id: u32) -> Seq<char> {
    "https://osu.ppy.sh/osu/"@ + decimal(id as nat)
}

fn digit_str(d: u32) -> (r: &'static str)
    requires
        d < 10,
    ensures
        r@ == seq![digit_char(d as nat)],
{
    proof {
        reveal_strlit("0");
        reveal_strlit("1");
        reveal_strlit("2");
        reveal_strlit("3");
        reveal_strlit("4");
        reveal_strlit("5");
        reveal_strlit("6");
        reveal_strlit("7");
        reveal_strlit("8");
        reveal_strlit("9");
    }
    let r = if d == 0 { "0" }
    else if d == 1 { "1" }
    else if d == 2 { "2" }
    else if d == 3 { "3" }
    else if d == 4 { "4" }
    else if d == 5 { "5" }
    else if d == 6 { "6" }
    else if d == 7 { "7" }
    else if d == 8 { "8" }
    else { "9" };
    assert(r@ =~= seq![digit_char(d as nat)]);
    r
}

fn push_decimal(s: &mut String, n: u32)
    ensures
        final(s)@ == old(s)@ + decimal(n as nat),
    decreases n,
{
    if n >= 10 {
        push_decimal(s, n / 10);
    }
    s.append(digit_str(n % 10));
    assert(final(s)@ =~= old(s)@ + decimal(n as nat));
}

/// The path of the cache entry of map `id`: `maps/<id>.osu`.
pub fn cache_path(id: u32) -> (r: String)
    ensures
        r@ == cache_path_of(id),
{
    let mut s = String::from_str("maps/");
    push_decimal(&mut s, id);
    s.append(".osu");
    proof {
        reveal_strlit("maps/");
        reveal_strlit(".osu");
    }
    s
}

/// The address of the document of map `id` at the origin.
pub fn download_url(id: u32) -> (r: String)
    ensures
        r@ == download_url_of(id),
{
    let mut s = String::from_str("https://osu.ppy.sh/osu/");
    push_decimal(&mut s, id);
    proof {
        reveal_strlit("https://osu.ppy.sh/osu/");
    }
    s
}

proof fn lemma_decimal_nonempty(n: nat)
    ensures
        decimal(n).len() >= 1,
    decreases n,
{
    if n >= 10 {
        lemma_decimal_nonempty(n / 10);
    }
}

proof fn lemma_digit_char_injective(a: nat, b: nat)
    requires
        a < 10,
        b < 10,
        digit_char(a) == digit_char(b),
    ensures
        a == b,
{
}

proof fn lemma_decimal_injective(a: nat, b: nat)
    requires
        decimal(a) == decimal(b),
    ensures
        a == b,
    decreases a,
{
    if a < 10 && b < 10 {
        assert(decimal(a) == seq![digit_char(a)]);
        assert(decimal(b) == seq![digit_char(b)]);
        assert(decimal(a)[0] == digit_char(a));
        assert(decimal(b)[0] == digit_char(b));
        lemma_digit_char_injective(a, b);
    } else if a >= 10 && b >= 10 {
        lemma_decimal_nonempty(a / 10);
        lemma_decimal_nonempty(b / 10);
        let da = decimal(a);
        assert(da.last() == digit_char(a % 10));
        assert(decimal(b).last() == digit_char(b % 10));
        assert(decimal(a / 10) =~= da.drop_last());
        assert(decimal(b / 10) =~= decimal(b).drop_last());
        lemma_decimal_injective(a / 10, b / 10);
        lemma_digit_char_injective(a % 10, b % 10);
        assert(a == 10 * (a / 10) + a % 10 && b == 10 * (b / 10) + b % 10) by (nonlinear_arith);
    } else if a < 10 {
        lemma_decimal_nonempty(b / 10);
        assert(decimal(b).len() >= 2);
    } else {
        lemma_decimal_nonempty(a / 10);
        assert(decimal(a).len() >= 2);
    }
}

/// Distinct maps have distinct cache entries.
pub proof fn lemma_cache_path_injective(a: u32, b: u32)
    requires
        cache_path_of(a) == cache_path_of(b),
    ensures
        a == b,
{
    reveal_strlit("maps/");
    reveal_strlit(".osu");
    let pa = cache_path_of(a);
    let pb = cache_path_of(b);
    assert(pa.len() == pb.len());
    assert(decimal(a as nat) =~= pa.subrange(5, pa.len() - 4));
    assert(decimal(b as nat) =~= pb.subrange(5, pb.len() - 4));
    lemma_decimal_injective(a as nat, b as nat);
}

} // verus!
