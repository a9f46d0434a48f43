use vstd::arithmetic::div_mod::{lemma_mod_equivalence, lemma_mul_mod_noop_right};
use vstd::prelude::*;

verus! {

/// The character is one of '0' through '9'.
pub open spec fn is_digit_char(c: char) -> bool {
    48 <= c as int <= 57
}

/// The numeric value of a digit character.
pub open spec fn digit_of(c: char) -> int {
    c as int - 48
}

/// Every character of the sequence is a decimal digit.
pub open spec fn all_digits(s: Seq<char>) -> bool {
    forall|i: int| 0 <= i < s.len() ==> is_digit_char(#[trigger] s[i])
}

/// The fixed public weight applied to digit `i` of a personal identity
/// number when its checksum is recomputed.
pub open spec fn pesel_weight(i: int) -> int {
    if i == 0 {
        9
    } else if i == 1 {
        7
    } else if i == 2 {
        3
    } else if i == 3 {
        1
    } else if i == 4 {
        9
    } else if i == 5 {
        7
    } else if i == 6 {
        3
    } else if i == 7 {
        1
    } else if i == 8 {
        9
    } else {
        7
    }
}

/// The weighted sum of the first `k` digits of `s`.
pub open spec fn weighted_sum(s: Seq<char>, k: int) -> int
    decreases k,
{
    if k <= 0 {
        0
    } else {
        weighted_sum(s, k - 1) + pesel_weight(k - 1) * digit_of(s[k - 1])
    }
}

/// The control digit that the first ten digits of `s` demand of digit ten.
pub open spec fn pesel_control_digit(s: Seq<char>) -> int {
    (10 - weighted_sum(s, 10) % 10) % 10
}

/// Digits two and three encode the birth month, with 20, 40, 60 or 80 added
/// to it to encode the birth century. The encoding is plausible exactly when
/// the offset-free month lands in 1..=12, i.e. when the two digits read
/// 1-12, 21-32, 41-52, 61-72 or 81-92.
pub open spec fn pesel_month_plausible(s: Seq<char>) -> bool {
    1 <= (10 * digit_of(s[2]) + digit_of(s[3])) % 20 <= 12
}

/// A personal identity number: exactly eleven digits whose eleventh digit
/// matches the recomputed checksum and whose embedded birth month is
/// plausible.
pub open spec fn personal_id_valid(s: Seq<char>) -> bool {
    &&& s.len() == 11
    &&& all_digits(s)
    &&& pesel_month_plausible(s)
    &&& digit_of(s[10]) == pesel_control_digit(s)
}

/// A professional license number: exactly seven digits, no checksum.
pub open spec fn license_number_valid(s: Seq<char>) -> bool {
    s.len() == 7 && all_digits(s)
}

#[derive(Debug, Clone, Copy, PartialEq, Eq, Structural)]
pub struct InvalidPersonalId;

impl InvalidPersonalId {
    pub fn message(&self) -> (r: String)
        ensures
            r@ == "invalid personal identity number"@,
    {
        String::from_str("invalid personal identity number")
    }
}

#[derive(Debug, Clone, Copy, PartialEq, Eq, Structural)]
pub struct InvalidLicenseNumber;

impl InvalidLicenseNumber {
    pub fn message(&self) -> (r: String)
        ensures
            r@ == "invalid license number"@,
    {
        String::from_str("invalid license number")
    }
}

/// A personal identity number that passed validation.
#[derive(Debug)]
pub struct ValidPersonalId {
    value: String,
}

impl View for ValidPersonalId {
    type V = Seq<char>;

    closed spec fn view(&self) -> Seq<char> {
        self.value@
    }
}

impl ValidPersonalId {
    pub open spec fn wf(&self) -> bool {
        personal_id_valid(self@)
    }

    /// Surrenders the validated digits.
    pub fn into_value(self) -> (r: String)
        ensures
            r@ == self@,
    {
        self.value
    }
}

/// A professional license number that passed validation.
#[derive(Debug)]
pub struct ValidLicenseNumber {
    value: String,
}

impl View for ValidLicenseNumber {
    type V = Seq<char>;

    closed spec fn view(&self) -> Seq<char> {
        self.value@
    }
}

impl ValidLicenseNumber {
    pub open spec fn wf(&self) -> bool {
        license_number_valid(self@)
    }

    /// Surrenders the validated digits.
    pub fn into_value(self) -> (r: String)
        ensures
            r@ == self@,
    {
        self.value
    }
}

/// The weight table, executably.
fn pesel_weight_at(i: usize) -> (w: u32)
    requires
        i < 10,
    ensures
        w == pesel_weight(i as int),
{
    if i == 0 {
        9
    } else if i == 1 {
        7
    } else if i == 2 {
        3
    } else if i == 3 {
        1
    } else if i == 4 {
        9
    } else if i == 5 {
        7
    } else if i == 6 {
        3
    } else if i == 7 {
        1
    } else if i == 8 {
        9
    } else {
        7
    }
}

/// Validates a personal identity number: accepted exactly when it is eleven
/// digits with a matching checksum and a plausible embedded birth month.
pub fn validate_personal_id(value: String) -> (res: Result<ValidPersonalId, InvalidPersonalId>)
    ensures
        res is Ok <==> personal_id_valid(value@),
        res matches Ok(v) ==> v@ == value@ && v.wf(),
{
    if value.as_str().unicode_len() != 11 {
        return Err(InvalidPersonalId);
    }
    let mut i: usize = 0;
    while i < 11
        invariant
            i <= 11,
            value@.len() == 11,
            forall|j: int| 0 <= j < i ==> is_digit_char(#[trigger] value@[j]),
        decreases 11 - i,
    {
        let code = value.as_str().get_char(i) as u32;
        if code < 48 || code > 57 {
            return Err(InvalidPersonalId);
        }
        i += 1;
    }
    let month = (value.as_str().get_char(2) as u32 - 48) * 10 + (value.as_str().get_char(3) as u32
        - 48);
    let month_in_century = month % 20;
    if month_in_century < 1 || month_in_century > 12 {
        return Err(InvalidPersonalId);
    }
    let mut sum: u32 = 0;
    let mut k: usize = 0;
    while k < 10
        invariant
            k <= 10,
            value@.len() == 11,
            all_digits(value@),
            sum == weighted_sum(value@, k as int),
            sum <= 81 * k,
        decreases 10 - k,
    {
        let digit = value.as_str().get_char(k) as u32 - 48;
        sum = sum + pesel_weight_at(k) * digit;
        k += 1;
    }
    let control = (10 - sum % 10) % 10;
    let last = value.as_str().get_char(10) as u32 - 48;
    if last != control {
        return Err(InvalidPersonalId);
    }
    Ok(ValidPersonalId { value })
}

/// Validates a professional license number: accepted exactly when it is
/// seven digits.
pub fn validate_license_number(value: String) -> (res: Result<
    ValidLicenseNumber,
    InvalidLicenseNumber,
>)
    ensures
        res is Ok <==> license_number_valid(value@),
        res matches Ok(v) ==> v@ == value@ && v.wf(),
{
    if value.as_str().unicode_len() != 7 {
        return Err(InvalidLicenseNumber);
    }
    let mut i: usize = 0;
    while i < 7
        invariant
            i <= 7,
            value@.len() == 7,
            forall|j: int| 0 <= j < i ==> is_digit_char(#[trigger] value@[j]),
        decreases 7 - i,
    {
        let code = value.as_str().get_char(i) as u32;
        if code < 48 || code > 57 {
            return Err(InvalidLicenseNumber);
        }
        i += 1;
    }
    Ok(ValidLicenseNumber { value })
}

/// Changing one character of a sequence leaves the weighted sum of the first
/// `k` digits unchanged when the change lands at or beyond `k`, and shifts it
/// by the weighted digit difference when it lands before `k`.
proof fn lemma_weighted_sum_update(s: Seq<char>, i: int, c: char, k: int)
    requires
        s.len() == 11,
        0 <= i < 11,
        0 <= k <= 10,
    ensures
        weighted_sum(s.update(i, c), k) == weighted_sum(s, k) + if i < k {
            pesel_weight(i) * (digit_of(c) - digit_of(s[i]))
        } else {
            0
        },
    decreases k,
{
    if k > 0 {
        lemma_weighted_sum_update(s, i, c, k - 1);
        if i == k - 1 {
            assert(pesel_weight(i) * digit_of(c) - pesel_weight(i) * digit_of(s[i]) == pesel_weight(
                i,
            ) * (digit_of(c) - digit_of(s[i]))) by (nonlinear_arith);
        }
    }
}

/// No single-position weighted digit change can leave the checksum intact:
/// every weight is coprime to ten, so a nonzero digit difference moves the
/// weighted sum to a different residue class.
proof fn lemma_weight_times_nonzero_digit_difference(w: int, e: int)
    requires
        w == 1 || w == 3 || w == 7 || w == 9,
        -9 <= e <= 9,
        e != 0,
    ensures
        (w * e) % 10 != 0,
{
    let r = e % 10;
    lemma_mul_mod_noop_right(w, e, 10);
    assert(1 <= r <= 9);
    assert(w * r >= 0) by (nonlinear_arith)
        requires
            w >= 1 && r >= 1,
    ;
    assert(w * r <= 81) by (nonlinear_arith)
        requires
            w <= 9 && 1 <= r <= 9,
    ;
    if w == 1 {
        assert((1 * r) % 10 != 0);
    } else if w == 3 {
        assert((3 * r) % 10 != 0);
    } else if w == 7 {
        assert((7 * r) % 10 != 0);
    } else {
        assert((9 * r) % 10 != 0);
    }
}

/// Mutating any single character of a valid personal identity number makes
/// it invalid: a non-digit breaks the digit rule, a changed digit among the
/// first ten moves the checksum off the recorded control digit, and a changed
/// control digit no longer matches the checksum.
pub proof fn lemma_personal_id_mutation_rejected(s: Seq<char>, i: int, c: char)
    requires
        personal_id_valid(s),
        0 <= i < 11,
        c != s[i],
    ensures
        !personal_id_valid(s.update(i, c)),
{
    let t = s.update(i, c);
    if !is_digit_char(c) {
        assert(!all_digits(t)) by {
            assert(t[i] == c);
        }
    } else {
        assert(digit_of(c) != digit_of(s[i]));
        if i < 10 {
            lemma_weighted_sum_update(s, i, c, 10);
            let w = pesel_weight(i);
            let e = digit_of(c) - digit_of(s[i]);
            lemma_weight_times_nonzero_digit_difference(w, e);
            lemma_mod_equivalence(weighted_sum(t, 10), weighted_sum(s, 10), 10);
            assert(weighted_sum(t, 10) % 10 != weighted_sum(s, 10) % 10);
            assert(t[10] == s[10]);
            assert(pesel_control_digit(t) != pesel_control_digit(s)) by {
                let a = weighted_sum(s, 10) % 10;
                let b = weighted_sum(t, 10) % 10;
                assert(0 <= a < 10 && 0 <= b < 10);
            }
            assert(!personal_id_valid(t));
        } else {
            lemma_weighted_sum_update(s, i, c, 10);
            assert(pesel_control_digit(t) == pesel_control_digit(s));
            assert(digit_of(t[10]) != pesel_control_digit(t));
        }
    }
}

} // verus!
