//! How many dispatches are started, and under which names.
use crate::config::consumer_config::ConsumerConfig;
use vstd::prelude::*;

verus! {

/// The name that every dispatch's name starts with.
pub const DEFINITION_REQUEST_BASE_ID: &'static str = "definition_request_dispatch";

/// The character of the decimal digit `d`.
pub open spec fn digit_char(d: nat) -> char {
    if d == 0 {
        '0'
    } else if d == 1 {
        '1'
    } else if d == 2 {
        '2'
    } else if d == 3 {
        '3'
    } else if d == 4 {
        '4'
    } else if d == 5 {
        '5'
    } else if d == 6 {
        '6'
    } else if d == 7 {
        '7'
    } else if d == 8 {
        '8'
    } else {
        '9'
    }
}

/// The decimal notation of `n`, without leading zeros.
pub open spec fn decimal(n: nat) -> Seq<char>
    decreases n,
{
    if n < 10 {
        seq![digit_char(n)]
    } else {
        decimal(n / 10) + seq![digit_char(n % 10)]
    }
}

/// The name of the dispatch numbered `i`: the base name, a hyphen and `i` in decimal.
pub open spec fn dispatch_instance_id(i: nat) -> Seq<char> {
    DEFINITION_REQUEST_BASE_ID@ + "-"@ + decimal(i)
}

fn digit_text(d: u16) -> (text: &'static str)
    requires
        d < 10,
    ensures
        text@ == seq![digit_char(d as nat)],
{
    if d == 0 {
        proof { reveal_strlit("0"); }
        "0"
    } else if d == 1 {
        proof { reveal_strlit("1"); }
        "1"
    } else if d == 2 {
        proof { reveal_strlit("2"); }
        "2"
    } else if d == 3 {
        proof { reveal_strlit("3"); }
        "3"
    } else if d == 4 {
        proof { reveal_strlit("4"); }
        "4"
    } else if d == 5 {
        proof { reveal_strlit("5"); }
        "5"
    } else if d == 6 {
        proof { reveal_strlit("6"); }
        "6"
    } else if d == 7 {
        proof { reveal_strlit("7"); }
        "7"
    } else if d == 8 {
        proof { reveal_strlit("8"); }
        "8"
    } else {
        proof { reveal_strlit("9"); }
        "9"
    }
}

fn decimal_text(n: u16) -> (text: String)
    ensures
        text@ == decimal(n as nat),
    decreases n,
{
    if n < 10 {
        digit_text(n).to_owned()
    } else {
        let mut text = decimal_text(n / 10);
        text.append(digit_text(n % 10));
        text
    }
}

/// The names of the dispatches to start: as many as `config` asks for, numbered from
/// zero, in order.
pub fn dispatch_instance_ids(config: &ConsumerConfig) -> (ids: Vec<String>)
    ensures
        ids.len() == config@.concurrent_request_dispatch_instances,
        forall|i: int|
            0 <= i < config@.concurrent_request_dispatch_instances ==> #[trigger] ids[i]@
                == dispatch_instance_id(i as nat),
{
    let instances = config.concurrent_request_dispatch_instances();
    let mut ids: Vec<String> = Vec::new();
    let mut i: u16 = 0;
    while i < instances
        invariant
            i <= instances,
            ids.len() == i,
            forall|j: int| 0 <= j < i ==> #[trigger] ids[j]@ == dispatch_instance_id(j as nat),
        decreases instances - i,
    {
        let mut id = DEFINITION_REQUEST_BASE_ID.to_owned();
        id.append("-");
        let number = decimal_text(i);
        id.append(number.as_str());
        ids.push(id);
        i = i + 1;
    }
    ids
}

proof fn lemma_decimal_len(n: nat)
    ensures
        decimal(n).len() >= 1,
        n >= 10 ==> decimal(n).len() >= 2,
    decreases n,
{
    if n >= 10 {
        lemma_decimal_len(n / 10);
    }
}

proof fn lemma_digit_char_injective(d: nat, e: nat)
    requires
        d < 10,
        e < 10,
        digit_char(d) == digit_char(e),
    ensures
        d == e,
{
}

/// Decimal notation is one to one: different numbers are written differently.
pub proof fn lemma_decimal_injective(a: nat, b: nat)
    requires
        decimal(a) == decimal(b),
    ensures
        a == b,
    decreases a,
{
    lemma_decimal_len(a);
    lemma_decimal_len(b);
    let da = decimal(a);
    let db = decimal(b);
    if a < 10 && b < 10 {
        assert(da[0] == db[0]);
        lemma_digit_char_injective(a, b);
    } else if a >= 10 && b >= 10 {
        assert(da.last() == db.last());
        lemma_digit_char_injective(a % 10, b % 10);
        assert(da.drop_last() =~= decimal(a / 10));
        assert(db.drop_last() =~= decimal(b / 10));
        lemma_decimal_injective(a / 10, b / 10);
        assert(a == 10 * (a / 10) + a % 10) by (nonlinear_arith);
        assert(b == 10 * (b / 10) + b % 10) by (nonlinear_arith);
    } else {
        assert(da.len() != db.len());
    }
}

/// No two dispatches share a name.
pub proof fn lemma_dispatch_ids_distinct(i: nat, j: nat)
    requires
        i != j,
    ensures
        dispatch_instance_id(i) != dispatch_instance_id(j),
{
    let prefix = DEFINITION_REQUEST_BASE_ID@ + "-"@;
    if dispatch_instance_id(i) == dispatch_instance_id(j) {
        assert(dispatch_instance_id(i).skip(prefix.len() as int) =~= decimal(i));
        assert(dispatch_instance_id(j).skip(prefix.len() as int) =~= decimal(j));
        lemma_decimal_injective(i, j);
    }
}

/// The number that a string of decimal digits stands for, read most significant digit
/// first, each digit by its ASCII code.
pub open spec fn digits_value(digits: Seq<char>) -> int
    decreases digits.len(),
{
    if digits.len() == 0 {
        0
    } else {
        digits_value(digits.drop_last()) * 10 + (digits.last() as u32 - '0' as u32)
    }
}

/// `digit_char(d)` is the ASCII character of the digit `d`: the character `'0'`
/// advanced by `d`.
pub proof fn lemma_digit_char_is_ascii_digit(d: nat)
    requires
        d < 10,
    ensures
        digit_char(d) as u32 == '0' as u32 + d,
        '0' <= digit_char(d) <= '9',
{
}

/// `decimal(n)` is the standard decimal notation of `n`: it is made of ASCII digits
/// only, it has no leading zero, and read back as a number it is `n`.
pub proof fn lemma_decimal_reads_back(n: nat)
    ensures
        forall|i: int| 0 <= i < decimal(n).len() ==> '0' <= #[trigger] decimal(n)[i] <= '9',
        decimal(n).len() > 1 ==> decimal(n)[0] != '0',
        digits_value(decimal(n)) == n,
    decreases n,
{
    if n < 10 {
        lemma_digit_char_is_ascii_digit(n);
        assert(decimal(n).drop_last() =~= Seq::<char>::empty());
        assert(digits_value(Seq::<char>::empty()) == 0);
        assert(digits_value(decimal(n)) == digits_value(decimal(n).drop_last()) * 10 + (
        decimal(n).last() as u32 - '0' as u32));
    } else {
        lemma_decimal_reads_back(n / 10);
        lemma_digit_char_is_ascii_digit(n % 10);
        lemma_decimal_len(n / 10);
        let d = decimal(n);
        assert(d.drop_last() =~= decimal(n / 10));
        assert(d.last() == digit_char(n % 10));
        assert(n == (n / 10) * 10 + n % 10) by (nonlinear_arith);
        assert(digits_value(d) == digits_value(decimal(n / 10)) * 10 + (d.last() as u32
            - '0' as u32));
        assert forall|i: int| 0 <= i < d.len() implies '0' <= #[trigger] d[i] <= '9' by {
            if i < d.len() - 1 {
                assert(d[i] == decimal(n / 10)[i]);
            }
        }
        assert(d[0] == decimal(n / 10)[0]);
        if n / 10 < 10 {
            lemma_digit_char_is_ascii_digit(n / 10);
            assert(n / 10 != 0);
        }
    }
}

/// The name of dispatch `i` is "definition_request_dispatch-" followed by digits that
/// read back as `i`.
pub proof fn lemma_dispatch_id_names_its_number(i: nat)
    ensures
        ({
            let id = dispatch_instance_id(i);
            let prefix = "definition_request_dispatch-"@;
            &&& id.len() > prefix.len()
            &&& id.subrange(0, prefix.len() as int) == prefix
            &&& digits_value(id.skip(prefix.len() as int)) == i
        }),
{
    let id = dispatch_instance_id(i);
    let prefix = "definition_request_dispatch-"@;
    reveal_strlit("definition_request_dispatch-");
    reveal_strlit("definition_request_dispatch");
    reveal_strlit("-");
    assert(DEFINITION_REQUEST_BASE_ID@ + "-"@ =~= prefix);
    lemma_decimal_len(i);
    lemma_decimal_reads_back(i);
    assert(id.subrange(0, prefix.len() as int) =~= prefix);
    assert(id.skip(prefix.len() as int) =~= decimal(i));
}

} // verus!
