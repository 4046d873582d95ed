//! Detects and validates payment-card numbers: the brand of the card, the
//! number's length against that brand's accepted range, and the weighted
//! digit-sum checksum.

pub mod luhn;

use vstd::prelude::*;

verus! {

use crate::luhn::all_digits;

/// Card type. Maps recognized cards, and validates their pattern and length.
#[derive(Clone, Copy, PartialEq, Eq, Structural)]
pub enum Type {
    // Debit
    VisaElectron,
    Maestro,
    Forbrugsforeningen,
    Dankort,
    // Credit
    Visa,
    MasterCard,
    Amex,
    DinersClub,
    Discover,
    UnionPay,
    JCB,
    // Unknown
    Other,
}

/// The generic shape every candidate must have: one or more decimal digits
/// and nothing else.
pub open spec fn digits_only(s: Seq<char>) -> bool {
    s.len() >= 1 && all_digits(s)
}

/// Visa Electron numbers start with 4026, 417500, 4405, 4508, 4844, 4913
/// or 4917.
pub open spec fn matches_visa_electron(s: Seq<char>) -> bool {
    s.len() >= 4 && s[0] == '4' && ((s[1] == '0' && s[2] == '2' && s[3] == '6') || (s.len() >= 6
        && s[1] == '1' && s[2] == '7' && s[3] == '5' && s[4] == '0' && s[5] == '0') || (s[1] == '4'
        && s[2] == '0' && s[3] == '5') || (s[1] == '5' && s[2] == '0' && s[3] == '8') || (s[1]
        == '8' && s[2] == '4' && s[3] == '4') || (s[1] == '9' && s[2] == '1' && (s[3] == '3' || s[3]
        == '7')))
}

/// Maestro numbers start with 5018, 502, 503, 56, 58, 639 or 67.
pub open spec fn matches_maestro(s: Seq<char>) -> bool {
    (s.len() >= 2 && s[0] == '5' && (s[1] == '6' || s[1] == '8')) || (s.len() >= 3 && s[0] == '5'
        && s[1] == '0' && (s[2] == '2' || s[2] == '3')) || (s.len() >= 4 && s[0] == '5' && s[1]
        == '0' && s[2] == '1' && s[3] == '8') || (s.len() >= 2 && s[0] == '6' && s[1] == '7') || (
    s.len() >= 3 && s[0] == '6' && s[1] == '3' && s[2] == '9')
}

/// Forbrugsforeningen numbers start with 600.
pub open spec fn matches_forbrugsforeningen(s: Seq<char>) -> bool {
    s.len() >= 3 && s[0] == '6' && s[1] == '0' && s[2] == '0'
}

/// Dankort numbers start with 5019.
pub open spec fn matches_dankort(s: Seq<char>) -> bool {
    s.len() >= 4 && s[0] == '5' && s[1] == '0' && s[2] == '1' && s[3] == '9'
}

/// Visa numbers start with 4.
pub open spec fn matches_visa(s: Seq<char>) -> bool {
    s.len() >= 1 && s[0] == '4'
}

/// MasterCard numbers start with 51 through 55, or 22 through 27.
pub open spec fn matches_mastercard(s: Seq<char>) -> bool {
    s.len() >= 2 && ((s[0] == '5' && ('1' as u32) <= (s[1] as u32) && (s[1] as u32) <= (
    '5' as u32)) || (s[0] == '2' && ('2' as u32) <= (s[1] as u32) && (s[1] as u32) <= (
    '7' as u32)))
}

/// Amex numbers start with 34 or 37.
pub open spec fn matches_amex(s: Seq<char>) -> bool {
    s.len() >= 2 && s[0] == '3' && (s[1] == '4' || s[1] == '7')
}

/// Diners Club numbers start with 30, 36, 38 or 39.
pub open spec fn matches_diners_club(s: Seq<char>) -> bool {
    s.len() >= 2 && s[0] == '3' && (s[1] == '0' || s[1] == '6' || s[1] == '8' || s[1] == '9')
}

/// Discover numbers start with 60, 64, 65 or 622.
pub open spec fn matches_discover(s: Seq<char>) -> bool {
    (s.len() >= 2 && s[0] == '6' && (s[1] == '0' || s[1] == '4' || s[1] == '5')) || (s.len() >= 3
        && s[0] == '6' && s[1] == '2' && s[2] == '2')
}

/// UnionPay numbers start with 62 or 88.
pub open spec fn matches_unionpay(s: Seq<char>) -> bool {
    s.len() >= 2 && ((s[0] == '6' && s[1] == '2') || (s[0] == '8' && s[1] == '8'))
}

/// JCB numbers start with 35.
pub open spec fn matches_jcb(s: Seq<char>) -> bool {
    s.len() >= 2 && s[0] == '3' && s[1] == '5'
}

/// The prefix rule of each card type. The rule of `Other` is the generic
/// digits-only shape; it never names a recognized brand.
pub open spec fn spec_matches(t: Type, s: Seq<char>) -> bool {
    match t {
        Type::VisaElectron => matches_visa_electron(s),
        Type::Maestro => matches_maestro(s),
        Type::Forbrugsforeningen => matches_forbrugsforeningen(s),
        Type::Dankort => matches_dankort(s),
        Type::Visa => matches_visa(s),
        Type::MasterCard => matches_mastercard(s),
        Type::Amex => matches_amex(s),
        Type::DinersClub => matches_diners_club(s),
        Type::Discover => matches_discover(s),
        Type::UnionPay => matches_unionpay(s),
        Type::JCB => matches_jcb(s),
        Type::Other => digits_only(s),
    }
}

/// Tests whether one or more decimal digits, and nothing else, make up the
/// string.
fn is_digits(card_number: &str) -> (r: bool)
    ensures
        r == digits_only(card_number@),
{
    let n = card_number.unicode_len();
    if n == 0 {
        return false;
    }
    let mut i: usize = 0;
    while i < n
        invariant
            i <= n,
            n == card_number@.len(),
            forall|j: int| 0 <= j < i ==> crate::luhn::is_digit_char(#[trigger] card_number@[j]),
        decreases n - i,
    {
        let u = card_number.get_char(i) as u32;
        if u < ('0' as u32) || u > ('9' as u32) {
            assert(!crate::luhn::is_digit_char(card_number@[i as int]));
            return false;
        }
        i = i + 1;
    }
    true
}

impl Type {
    /// Whether the candidate's leading digits satisfy this card type's
    /// prefix rule.
    fn is_match(&self, card_number: &str) -> (r: bool)
        ensures
            r == spec_matches(*self, card_number@),
    {
        match *self {
            Type::VisaElectron => is_match_visa_electron(card_number),
            Type::Maestro => is_match_maestro(card_number),
            Type::Forbrugsforeningen => is_match_forbrugsforeningen(card_number),
            Type::Dankort => is_match_dankort(card_number),
            Type::Visa => is_match_visa(card_number),
            Type::MasterCard => is_match_mastercard(card_number),
            Type::Amex => is_match_amex(card_number),
            Type::DinersClub => is_match_diners_club(card_number),
            Type::Discover => is_match_discover(card_number),
            Type::UnionPay => is_match_unionpay(card_number),
            Type::JCB => is_match_jcb(card_number),
            Type::Other => is_digits(card_number),
        }
    }
}

fn is_match_visa_electron(card_number: &str) -> (r: bool)
    ensures
        r == matches_visa_electron(card_number@),
{
    let n = card_number.unicode_len();
    if n >= 4 && card_number.get_char(0) == '4' {
        let c1 = card_number.get_char(1);
        let c2 = card_number.get_char(2);
        let c3 = card_number.get_char(3);
        (c1 == '0' && c2 == '2' && c3 == '6') || (n >= 6 && c1 == '1' && c2 == '7' && c3 == '5'
            && card_number.get_char(4) == '0' && card_number.get_char(5) == '0') || (c1 == '4' && c2
            == '0' && c3 == '5') || (c1 == '5' && c2 == '0' && c3 == '8') || (c1 == '8' && c2 == '4'
            && c3 == '4') || (c1 == '9' && c2 == '1' && (c3 == '3' || c3 == '7'))
    } else {
        false
    }
}

fn is_match_maestro(card_number: &str) -> (r: bool)
    ensures
        r == matches_maestro(card_number@),
{
    let n = card_number.unicode_len();
    if n < 2 {
        return false;
    }
    let c0 = card_number.get_char(0);
    let c1 = card_number.get_char(1);
    (c0 == '5' && (c1 == '6' || c1 == '8')) || (n >= 3 && c0 == '5' && c1 == '0' && {
        let c2 = card_number.get_char(2);
        c2 == '2' || c2 == '3'
    }) || (n >= 4 && c0 == '5' && c1 == '0' && card_number.get_char(2) == '1'
        && card_number.get_char(3) == '8') || (c0 == '6' && c1 == '7') || (n >= 3 && c0 == '6' && c1
        == '3' && card_number.get_char(2) == '9')
}

fn is_match_forbrugsforeningen(card_number: &str) -> (r: bool)
    ensures
        r == matches_forbrugsforeningen(card_number@),
{
    let n = card_number.unicode_len();
    n >= 3 && card_number.get_char(0) == '6' && card_number.get_char(1) == '0'
        && card_number.get_char(2) == '0'
}

fn is_match_dankort(card_number: &str) -> (r: bool)
    ensures
        r == matches_dankort(card_number@),
{
    let n = card_number.unicode_len();
    n >= 4 && card_number.get_char(0) == '5' && card_number.get_char(1) == '0'
        && card_number.get_char(2) == '1' && card_number.get_char(3) == '9'
}

fn is_match_visa(card_number: &str) -> (r: bool)
    ensures
        r == matches_visa(card_number@),
{
    let n = card_number.unicode_len();
    n >= 1 && card_number.get_char(0) == '4'
}

fn is_match_mastercard(card_number: &str) -> (r: bool)
    ensures
        r == matches_mastercard(card_number@),
{
    let n = card_number.unicode_len();
    if n < 2 {
        return false;
    }
    let c0 = card_number.get_char(0);
    let u1 = card_number.get_char(1) as u32;
    (c0 == '5' && ('1' as u32) <= u1 && u1 <= ('5' as u32)) || (c0 == '2' && ('2' as u32) <= u1
        && u1 <= ('7' as u32))
}

fn is_match_amex(card_number: &str) -> (r: bool)
    ensures
        r == matches_amex(card_number@),
{
    let n = card_number.unicode_len();
    if n < 2 {
        return false;
    }
    let c1 = card_number.get_char(1);
    card_number.get_char(0) == '3' && (c1 == '4' || c1 == '7')
}

fn is_match_diners_club(card_number: &str) -> (r: bool)
    ensures
        r == matches_diners_club(card_number@),
{
    let n = card_number.unicode_len();
    if n < 2 {
        return false;
    }
    let c1 = card_number.get_char(1);
    card_number.get_char(0) == '3' && (c1 == '0' || c1 == '6' || c1 == '8' || c1 == '9')
}

fn is_match_discover(card_number: &str) -> (r: bool)
    ensures
        r == matches_discover(card_number@),
{
    let n = card_number.unicode_len();
    if n < 2 {
        return false;
    }
    let c0 = card_number.get_char(0);
    let c1 = card_number.get_char(1);
    (c0 == '6' && (c1 == '0' || c1 == '4' || c1 == '5')) || (n >= 3 && c0 == '6' && c1 == '2'
        && card_number.get_char(2) == '2')
}

fn is_match_unionpay(card_number: &str) -> (r: bool)
    ensures
        r == matches_unionpay(card_number@),
{
    let n = card_number.unicode_len();
    if n < 2 {
        return false;
    }
    let c0 = card_number.get_char(0);
    let c1 = card_number.get_char(1);
    (c0 == '6' && c1 == '2') || (c0 == '8' && c1 == '8')
}

fn is_match_jcb(card_number: &str) -> (r: bool)
    ensures
        r == matches_jcb(card_number@),
{
    let n = card_number.unicode_len();
    n >= 2 && card_number.get_char(0) == '3' && card_number.get_char(1) == '5'
}

/// The brand table, in the order the classifier walks it. Debit cards come
/// first, since they have more specific patterns than their credit-card
/// equivalents; the first entry whose prefix rule matches wins.
pub open spec fn brand_table() -> Seq<Type> {
    seq![
        Type::VisaElectron,
        Type::Maestro,
        Type::Forbrugsforeningen,
        Type::Dankort,
        Type::Visa,
        Type::MasterCard,
        Type::Amex,
        Type::DinersClub,
        Type::Discover,
        Type::UnionPay,
        Type::JCB,
    ]
}

/// The first entry of the brand table, from index `i` on, whose prefix rule
/// matches; `Other` when none does.
pub open spec fn first_match_from(s: Seq<char>, i: int) -> Type
    decreases brand_table().len() - i,
{
    if !(0 <= i < brand_table().len()) {
        Type::Other
    } else if spec_matches(brand_table()[i], s) {
        brand_table()[i]
    } else {
        first_match_from(s, i + 1)
    }
}

/// The card type of a candidate: the first brand-table entry whose prefix
/// rule matches, or `Other` when none does.
pub open spec fn spec_classify(s: Seq<char>) -> Type {
    first_match_from(s, 0)
}

/// The stable lowercase name token of each card type.
pub open spec fn spec_name(t: Type) -> Seq<char> {
    match t {
        Type::VisaElectron => "visaelectron"@,
        Type::Maestro => "maestro"@,
        Type::Forbrugsforeningen => "forbrugsforeningen"@,
        Type::Dankort => "dankort"@,
        Type::Visa => "visa"@,
        Type::MasterCard => "mastercard"@,
        Type::Amex => "amex"@,
        Type::DinersClub => "dinersclub"@,
        Type::Discover => "discover"@,
        Type::UnionPay => "unionpay"@,
        Type::JCB => "jcb"@,
        Type::Other => "other"@,
    }
}

/// The inclusive range of digit counts each card type accepts.
pub open spec fn spec_length_range(t: Type) -> (int, int) {
    match t {
        Type::VisaElectron => (16, 16),
        Type::Maestro => (12, 19),
        Type::Forbrugsforeningen => (16, 16),
        Type::Dankort => (16, 16),
        Type::Visa => (13, 16),
        Type::MasterCard => (16, 16),
        Type::Amex => (15, 15),
        Type::DinersClub => (14, 14),
        Type::Discover => (16, 16),
        Type::JCB => (16, 16),
        Type::UnionPay => (16, 19),
        Type::Other => (12, 19),
    }
}

/// Whether a digit count lies within a card type's accepted range.
pub open spec fn spec_length_ok(t: Type, len: nat) -> bool {
    spec_length_range(t).0 <= len <= spec_length_range(t).1
}

impl Type {
    /// The stable lowercase name token of this card type.
    pub fn name(&self) -> (r: String)
        ensures
            r@ == spec_name(*self),
    {
        match *self {
            Type::VisaElectron => "visaelectron",
            Type::Maestro => "maestro",
            Type::Forbrugsforeningen => "forbrugsforeningen",
            Type::Dankort => "dankort",
            Type::Visa => "visa",
            Type::MasterCard => "mastercard",
            Type::Amex => "amex",
            Type::DinersClub => "dinersclub",
            Type::Discover => "discover",
            Type::UnionPay => "unionpay",
            Type::JCB => "jcb",
            Type::Other => "other",
        }.to_owned()
    }

    /// The inclusive bounds on the digit count this card type accepts.
    fn length(&self) -> (r: (usize, usize))
        ensures
            r.0 as int == spec_length_range(*self).0,
            r.1 as int == spec_length_range(*self).1,
    {
        match *self {
            Type::VisaElectron => (16, 16),
            Type::Maestro => (12, 19),
            Type::Forbrugsforeningen => (16, 16),
            Type::Dankort => (16, 16),
            Type::Visa => (13, 16),
            Type::MasterCard => (16, 16),
            Type::Amex => (15, 15),
            Type::DinersClub => (14, 14),
            Type::Discover => (16, 16),
            Type::JCB => (16, 16),
            Type::UnionPay => (16, 19),
            Type::Other => (12, 19),
        }
    }

    /// Whether this is a recognized brand rather than the unknown
    /// pseudo-brand.
    pub fn valid(&self) -> (r: bool)
        ensures
            r == (*self != Type::Other),
    {
        *self != Type::Other
    }

    /// Every recognized card type, in the order the classifier tries them.
    fn all() -> (r: Vec<Type>)
        ensures
            r@ == brand_table(),
    {
        let mut types: Vec<Type> = Vec::new();
        types.push(Type::VisaElectron);
        types.push(Type::Maestro);
        types.push(Type::Forbrugsforeningen);
        types.push(Type::Dankort);
        types.push(Type::Visa);
        types.push(Type::MasterCard);
        types.push(Type::Amex);
        types.push(Type::DinersClub);
        types.push(Type::Discover);
        types.push(Type::UnionPay);
        types.push(Type::JCB);
        proof {
            assert(types@ =~= brand_table());
        }
        types
    }
}

/// Validate error. Maps possible validation errors (eg. card number format
/// invalid).
#[derive(Debug, PartialEq, Eq, Structural)]
pub enum ValidateError {
    InvalidFormat,
    InvalidLength,
    InvalidLuhn,
    UnknownType,
}

/// Card validation utility. Used to validate a provided card number (brand,
/// length and checksum).
#[derive(PartialEq, Eq, Structural)]
pub struct Validate {
    pub card_type: Type,
}

/// The classification stage: a candidate that is not digits-only is a format
/// error; otherwise it is classified by the brand table.
pub open spec fn spec_evaluate_type(s: Seq<char>) -> Result<Type, ValidateError> {
    if digits_only(s) {
        Ok(spec_classify(s))
    } else {
        Err(ValidateError::InvalidFormat)
    }
}

/// The whole validation pipeline: format, classification, known-type gate,
/// length, checksum. Exactly one failure reason is ever reported.
pub open spec fn spec_validate(s: Seq<char>) -> Result<Validate, ValidateError> {
    if !digits_only(s) {
        Err(ValidateError::InvalidFormat)
    } else if spec_classify(s) == Type::Other {
        Err(ValidateError::UnknownType)
    } else if !spec_length_ok(spec_classify(s), s.len()) {
        Err(ValidateError::InvalidLength)
    } else if !crate::luhn::luhn_valid(s) {
        Err(ValidateError::InvalidLuhn)
    } else {
        Ok(Validate { card_type: spec_classify(s) })
    }
}

impl Validate {
    /// Validates a candidate card number: its generic digit format, its
    /// brand, its length against that brand's range, and its checksum.
    pub fn from(card_number: &str) -> (r: Result<Validate, ValidateError>)
        ensures
            r == spec_validate(card_number@),
    {
        let card_type = match Validate::evaluate_type(card_number) {
            Ok(t) => t,
            Err(e) => {
                return Err(e);
            },
        };

        if card_type.valid() == false {
            return Err(ValidateError::UnknownType);
        }
        if Validate::is_length_valid(card_number, &card_type) == false {
            return Err(ValidateError::InvalidLength);
        }
        if Validate::is_luhn_valid(card_number) == false {
            return Err(ValidateError::InvalidLuhn);
        }

        Ok(Validate { card_type })
    }

    /// The format and classification stages: rejects candidates that are
    /// not digits-only, then walks the brand table for the first match.
    fn evaluate_type(card_number: &str) -> (r: Result<Type, ValidateError>)
        ensures
            r == spec_evaluate_type(card_number@),
    {
        // Validate overall card number structure
        if Type::Other.is_match(card_number) {
            let all_types = Type::all();
            let mut idx: usize = 0;
            while idx < all_types.len()
                invariant
                    digits_only(card_number@),
                    all_types@ == brand_table(),
                    idx <= all_types@.len(),
                    first_match_from(card_number@, 0) == first_match_from(
                        card_number@,
                        idx as int,
                    ),
                decreases all_types@.len() - idx,
            {
                // Validate brand-specific card number structure
                let card = all_types[idx];
                if card.is_match(card_number) {
                    proof {
                        let k = idx as int;
                        assert(first_match_from(card_number@, k) == brand_table()[k]);
                    }
                    return Ok(card);
                }
                idx = idx + 1;
            }
            Ok(Type::Other)
        } else {
            Err(ValidateError::InvalidFormat)
        }
    }

    /// The length stage: the candidate's digit count against the matched
    /// card type's inclusive range.
    fn is_length_valid(card_number: &str, card_type: &Type) -> (r: bool)
        ensures
            r == spec_length_ok(*card_type, card_number@.len()),
    {
        let (min, max) = card_type.length();
        let len = card_number.unicode_len();
        min <= len && len <= max
    }

    /// The checksum stage: hands the digits-only candidate to the checksum
    /// engine.
    fn is_luhn_valid(card_number: &str) -> (r: bool)
        requires
            all_digits(card_number@),
        ensures
            r == crate::luhn::luhn_valid(card_number@),
    {
        crate::luhn::valid(card_number)
    }
}

/// An input that holds a character other than a decimal digit, or is empty,
/// is always rejected as badly formatted.
pub proof fn lemma_invalid_format(s: Seq<char>)
    requires
        !digits_only(s),
    ensures
        spec_validate(s) == Err::<Validate, ValidateError>(ValidateError::InvalidFormat),
{
}

/// No entry of the brand table, from index `i` on, matches, so the
/// classification falls through to the unknown pseudo-brand.
proof fn lemma_no_match_from(s: Seq<char>, i: int)
    requires
        0 <= i <= brand_table().len(),
        forall|j: int| i <= j < brand_table().len() ==> !spec_matches(
            #[trigger] brand_table()[j],
            s,
        ),
    ensures
        first_match_from(s, i) == Type::Other,
    decreases brand_table().len() - i,
{
    if i < brand_table().len() {
        lemma_no_match_from(s, i + 1);
    }
}

/// A digit string whose prefix matches no entry of the brand table is
/// always rejected as an unknown type.
pub proof fn lemma_unknown_type(s: Seq<char>)
    requires
        digits_only(s),
        forall|j: int| 0 <= j < brand_table().len() ==> !spec_matches(
            #[trigger] brand_table()[j],
            s,
        ),
    ensures
        spec_validate(s) == Err::<Validate, ValidateError>(ValidateError::UnknownType),
{
    lemma_no_match_from(s, 0);
}

/// A digit string that matches a known brand but whose digit count lies
/// outside that brand's accepted range is always rejected for its length,
/// whatever its checksum.
pub proof fn lemma_invalid_length(s: Seq<char>)
    requires
        digits_only(s),
        spec_classify(s) != Type::Other,
        !spec_length_ok(spec_classify(s), s.len()),
    ensures
        spec_validate(s) == Err::<Validate, ValidateError>(ValidateError::InvalidLength),
{
}

/// A digit string that matches a known brand, with an accepted digit count,
/// but that fails the weighted-sum checksum, is always rejected for its
/// checksum.
pub proof fn lemma_invalid_luhn(s: Seq<char>)
    requires
        digits_only(s),
        spec_classify(s) != Type::Other,
        spec_length_ok(spec_classify(s), s.len()),
        !crate::luhn::luhn_valid(s),
    ensures
        spec_validate(s) == Err::<Validate, ValidateError>(ValidateError::InvalidLuhn),
{
}

/// A digit string that matches a known brand, with an accepted digit count
/// and a passing checksum, is always accepted, and the success value carries
/// the matched brand.
pub proof fn lemma_valid_outcome(s: Seq<char>)
    requires
        digits_only(s),
        spec_classify(s) != Type::Other,
        spec_length_ok(spec_classify(s), s.len()),
        crate::luhn::luhn_valid(s),
    ensures
        spec_validate(s) == Ok::<Validate, ValidateError>(
            Validate { card_type: spec_classify(s) },
        ),
{
}

/// Validation is a pure function of its input: any two outcomes obtained
/// for the same string are identical.
pub proof fn lemma_validate_deterministic(
    s: Seq<char>,
    r1: Result<Validate, ValidateError>,
    r2: Result<Validate, ValidateError>,
)
    requires
        r1 == spec_validate(s),
        r2 == spec_validate(s),
    ensures
        r1 == r2,
{
}

} // verus!

