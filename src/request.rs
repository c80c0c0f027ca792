use vstd::prelude::*;

verus! {

/// Base address of the catalog service.
pub const POKEAPI_ROOT: &'static str = "https://pokeapi.co/api/v2";

/// The character of a decimal digit.
pub open spec fn digit_char(d: nat) -> char {
    seq!['0', '1', '2', '3', '4', '5', '6', '7', '8', '9'][d as int]
}

/// The decimal form of `n`, most significant digit first, without leading zeros.
pub open spec fn decimal(n: nat) -> Seq<char>
    decreases n,
{
    if n < 10 {
        seq![digit_char(n)]
    } else {
        decimal(n / 10).push(digit_char(n % 10))
    }
}

/// The address of the first listing page.
pub open spec fn spec_listing_url() -> Seq<char> {
    POKEAPI_ROOT@ + "/pokemon"@
}

/// The address of the record with identifier `id`.
pub open spec fn spec_detail_url(id: nat) -> Seq<char> {
    POKEAPI_ROOT@ + "/pokemon/"@ + decimal(id)
}

fn digit_str(d: u16) -> (r: &'static str)
    requires
        d < 10,
    ensures
        r@ == seq![digit_char(d as nat)],
{
    proof {
        reveal_strlit("0");
        reveal_strlit("1");
        reveal_strlit("2");
        reveal_strlit("3");
        reveal_strlit("4");
        reveal_strlit("5");
        reveal_strlit("6");
        reveal_strlit("7");
        reveal_strlit("8");
        reveal_strlit("9");
    }
    let r: &'static str = if d == 0 {
        "0"
    } else if d == 1 {
        "1"
    } else if d == 2 {
        "2"
    } else if d == 3 {
        "3"
    } else if d == 4 {
        "4"
    } else if d == 5 {
        "5"
    } else if d == 6 {
        "6"
    } else if d == 7 {
        "7"
    } else if d == 8 {
        "8"
    } else {
        "9"
    };
    assert(r@ =~= seq![digit_char(d as nat)]);
    r
}

/// Renders `n` in decimal.
pub fn decimal_string(n: u16) -> (r: String)
    ensures
        r@ == decimal(n as nat),
    decreases n,
{
    if n < 10 {
        digit_str(n).to_owned()
    } else {
        let mut s = decimal_string(n / 10);
        s.append(digit_str(n % 10));
        s
    }
}

/// The address that a listing request is sent to.
pub fn listing_url() -> (r: String)
    ensures
        r@ == spec_listing_url(),
{
    let mut s = POKEAPI_ROOT.to_owned();
    s.append("/pokemon");
    s
}

/// The address that a request for the record `id` is sent to: the identifier in decimal,
/// appended to the listing path.
pub fn detail_url(id: u16) -> (r: String)
    ensures
        r@ == spec_detail_url(id as nat),
{
    let mut s = POKEAPI_ROOT.to_owned();
    s.append("/pokemon/");
    let digits = decimal_string(id);
    s.append(digits.as_str());
    s
}

proof fn lemma_digit_char_injective(a: nat, b: nat)
    requires
        a < 10,
        b < 10,
        digit_char(a) == digit_char(b),
    ensures
        a == b,
{
}

proof fn lemma_decimal_len(n: nat)
    ensures
        decimal(n).len() >= 1,
        n >= 10 ==> decimal(n).len() >= 2,
{
    if n >= 10 {
        assert(decimal(n / 10).len() >= 1) by {
            if n / 10 >= 10 {
                assert(decimal(n / 10) == decimal(n / 10 / 10).push(digit_char(n / 10 % 10)));
            }
        }
    }
}

/// Two numbers with the same decimal form are equal.
pub proof fn lemma_decimal_injective(a: nat, b: nat)
    requires
        decimal(a) == decimal(b),
    ensures
        a == b,
    decreases a,
{
    lemma_decimal_len(a);
    lemma_decimal_len(b);
    if a < 10 && b < 10 {
        assert(decimal(a)[0] == digit_char(a));
        assert(decimal(b)[0] == digit_char(b));
        lemma_digit_char_injective(a, b);
    } else if a >= 10 && b >= 10 {
        let x = decimal(a / 10);
        let y = decimal(b / 10);
        assert(decimal(a) == x.push(digit_char(a % 10)));
        assert(decimal(b) == y.push(digit_char(b % 10)));
        assert(decimal(a)[x.len() as int] == digit_char(a % 10));
        assert(decimal(b)[y.len() as int] == digit_char(b % 10));
        lemma_digit_char_injective(a % 10, b % 10);
        assert(x =~= decimal(a).drop_last());
        assert(y =~= decimal(b).drop_last());
        lemma_decimal_injective(a / 10, b / 10);
    }
}

/// Distinct identifiers are sent to distinct addresses: the address of a detail request
/// names the requested record and no other.
pub proof fn lemma_detail_url_injective(a: u16, b: u16)
    requires
        spec_detail_url(a as nat) == spec_detail_url(b as nat),
    ensures
        a == b,
{
    let prefix = POKEAPI_ROOT@ + "/pokemon/"@;
    let ua = spec_detail_url(a as nat);
    let ub = spec_detail_url(b as nat);
    assert(ua.subrange(prefix.len() as int, ua.len() as int) =~= decimal(a as nat));
    assert(ub.subrange(prefix.len() as int, ub.len() as int) =~= decimal(b as nat));
    lemma_decimal_injective(a as nat, b as nat);
}

} // verus!
