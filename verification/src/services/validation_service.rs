//! Business rules that a tip must meet before it is recorded.
use vstd::prelude::*;
use rust_decimal::Decimal;

verus! {

broadcast use vstd::string::group_string_axioms;

/// The largest magnitude of a decimal's mantissa: 96 bits.
pub const MAX_MANTISSA: i128 = 0xFFFF_FFFF_FFFF_FFFF_FFFF_FFFF;

/// The largest scale of a decimal: 28 digits after the point.
pub const MAX_SCALE: u32 = 28;

/// Ten to the power `n`.
pub open spec fn pow10(n: nat) -> int
    decreases n,
{
    if n == 0 {
        1
    } else {
        10 * pow10((n - 1) as nat)
    }
}

/// The decimal of mantissa, scale and sign `parts` lies in the range of
/// `rust_decimal`: a 96-bit mantissa, at most 28 digits after the point, and
/// a sign that agrees with a non-zero mantissa (zero may carry either sign).
pub open spec fn decimal_in_range(parts: (i128, u32, bool)) -> bool {
    &&& parts.1 <= MAX_SCALE
    &&& -MAX_MANTISSA <= parts.0 <= MAX_MANTISSA
    &&& parts.0 != 0 ==> parts.2 == (parts.0 < 0)
}

/// The decimal `a` is less than the decimal `b`, each read as
/// `mantissa * 10^-scale` (the sign of zero does not count).
pub open spec fn decimal_less(a: (i128, u32, bool), b: (i128, u32, bool)) -> bool {
    a.0 * pow10(b.1 as nat) < b.0 * pow10(a.1 as nat)
}

/// The mantissa, scale and sign that `Decimal::from_str` reads from `text`,
/// or none when it rejects the text.
pub uninterp spec fn decimal_from_str(text: Seq<char>) -> Option<(i128, u32, bool)>;

/// The decimal digit of `d`, below ten.
pub open spec fn digit_char(d: nat) -> char {
    if d == 0 { '0' } else if d == 1 { '1' } else if d == 2 { '2' } else if d == 3 { '3' }
    else if d == 4 { '4' } else if d == 5 { '5' } else if d == 6 { '6' } else if d == 7 { '7' }
    else if d == 8 { '8' } else { '9' }
}

/// The decimal digits of `n`, most significant first; none for zero.
pub open spec fn decimal_digits(n: nat) -> Seq<char>
    decreases n,
{
    if n == 0 {
        seq![]
    } else {
        decimal_digits(n / 10).push(digit_char(n % 10))
    }
}

/// The digits of `n`, with zeros in front up to `scale` digits.
pub open spec fn padded_digits(n: nat, scale: nat) -> Seq<char> {
    let d = decimal_digits(n);
    if d.len() < scale {
        Seq::new((scale - d.len()) as nat, |i: int| '0') + d
    } else {
        d
    }
}

/// The unsigned text of `n * 10^-scale`: the digits with a point before the
/// last `scale` of them, a `0` before a leading point, and `0` for zero at
/// scale zero.
pub open spec fn unsigned_decimal_text(n: nat, scale: nat) -> Seq<char> {
    let d = padded_digits(n, scale);
    let whole = d.len() - scale;
    if d.len() == 0 {
        seq!['0']
    } else if scale == 0 {
        d
    } else {
        (if whole == 0 { seq!['0'] } else { d.take(whole) }) + seq!['.'] + d.skip(whole)
    }
}

/// The text that `Decimal`'s `Display` writes for the decimal of the given
/// mantissa, scale and sign: a `-` for a negative sign (zero too), then the
/// digits of the magnitude with the point set by the scale.
pub open spec fn decimal_display(mantissa: i128, scale: u32, negative: bool) -> Seq<char> {
    let magnitude: nat = if mantissa < 0 { (-mantissa) as nat } else { mantissa as nat };
    (if negative { seq!['-'] } else { seq![] }) + unsigned_decimal_text(magnitude, scale as nat)
}

/// Reads a decimal with `Decimal::from_str` (through `str::parse`) and hands
/// back its mantissa, scale and sign. The claims: the result is
/// `decimal_from_str` of the text, and a decimal of the crate has a 96-bit
/// mantissa whose sign is the decimal's, and a scale of at most 28.
#[verifier::external_body]
fn parse_decimal_parts(text: &str) -> (r: Option<(i128, u32, bool)>)
    ensures
        r == decimal_from_str(text@),
        r matches Some(p) ==> decimal_in_range(p),
{
    match text.parse::<Decimal>() {
        Ok(d) => Some((d.mantissa(), d.scale(), d.is_sign_negative())),
        Err(_) => None,
    }
}

/// Compares two decimals with `Decimal`'s `<`, which the crate documents
/// as the numeric order; the claim is that it is the order of the values.
#[verifier::external_body]
fn decimal_parts_less(a: (i128, u32, bool), b: (i128, u32, bool)) -> (less: bool)
    requires
        decimal_in_range(a),
        decimal_in_range(b),
    ensures
        less == decimal_less(a, b),
{
    let mut x = Decimal::from_i128_with_scale(a.0, a.1);
    x.set_sign_negative(a.2);
    let mut y = Decimal::from_i128_with_scale(b.0, b.1);
    y.set_sign_negative(b.2);
    x < y
}

/// Writes a decimal with `Decimal`'s `Display`; the claim is that the text
/// is `decimal_display` of its mantissa, scale and sign, as the crate's
/// `to_str_internal` and `Formatter::pad_integral` write it with no width or
/// precision asked for.
#[verifier::external_body]
fn decimal_parts_text(d: (i128, u32, bool)) -> (text: String)
    requires
        decimal_in_range(d),
    ensures
        text@ == decimal_display(d.0, d.1, d.2),
{
    let mut x = Decimal::from_i128_with_scale(d.0, d.1);
    x.set_sign_negative(d.2);
    x.to_string()
}

/// A decimal number `mantissa * 10^-scale` with a sign, as
/// `rust_decimal::Decimal` holds it.
#[derive(Clone, Copy, Debug)]
pub struct DecimalValue {
    mantissa: i128,
    scale: u32,
    negative: bool,
}

impl DecimalValue {
    #[verifier::type_invariant]
    spec fn in_range(self) -> bool {
        decimal_in_range((self.mantissa, self.scale, self.negative))
    }

    /// The mantissa, the scale and the sign.
    pub closed spec fn parts(self) -> (i128, u32, bool) {
        (self.mantissa, self.scale, self.negative)
    }

    /// The decimal `mantissa * 10^-scale`, negative when the mantissa is.
    pub fn new(mantissa: i128, scale: u32) -> (d: DecimalValue)
        requires
            decimal_in_range((mantissa, scale, mantissa < 0)),
        ensures
            d.parts() == (mantissa, scale, mantissa < 0),
    {
        DecimalValue { mantissa, scale, negative: mantissa < 0 }
    }

    /// The decimal that `text` spells, as `Decimal::from_str` reads it.
    pub fn parse(text: &str) -> (r: Option<DecimalValue>)
        ensures
            match decimal_from_str(text@) {
                Some(p) => r matches Some(d) && d.parts() == p,
                None => r is None,
            },
    {
        match parse_decimal_parts(text) {
            Some(p) => Some(DecimalValue { mantissa: p.0, scale: p.1, negative: p.2 }),
            None => None,
        }
    }

    /// The mantissa.
    pub fn mantissa(&self) -> (m: i128)
        ensures
            m == self.parts().0,
    {
        self.mantissa
    }

    /// The scale: the number of digits after the point.
    pub fn scale(&self) -> (s: u32)
        ensures
            s == self.parts().1,
    {
        self.scale
    }

    /// Whether the decimal carries a negative sign.
    pub fn is_sign_negative(&self) -> (neg: bool)
        ensures
            neg == self.parts().2,
    {
        self.negative
    }

    /// Whether this decimal is less than `other`.
    pub fn less_than(&self, other: &DecimalValue) -> (less: bool)
        ensures
            less == decimal_less(self.parts(), other.parts()),
    {
        proof {
            use_type_invariant(self);
            use_type_invariant(other);
        }
        decimal_parts_less((self.mantissa, self.scale, self.negative), (other.mantissa, other.scale, other.negative))
    }

    /// The decimal as `Decimal`'s `Display` writes it.
    pub fn to_text(&self) -> (text: String)
        ensures
            text@ == decimal_display(self.parts().0, self.parts().1, self.parts().2),
    {
        proof {
            use_type_invariant(self);
        }
        decimal_parts_text((self.mantissa, self.scale, self.negative))
    }
}

/// The smallest tip, in XLM, when none is configured: 0.01.
pub open spec fn default_min_tip() -> (i128, u32, bool) {
    (1, 2, false)
}

/// The largest tip, in XLM, when none is configured: 10000.
pub open spec fn default_max_tip() -> (i128, u32, bool) {
    (10000, 0, false)
}

/// The limit that a configured `text` sets: the decimal it spells, or
/// `fallback` when it is absent or not a decimal.
pub open spec fn configured_limit(text: Option<Seq<char>>, fallback: (i128, u32, bool)) -> (i128, u32, bool) {
    match text {
        Some(t) => match decimal_from_str(t) {
            Some(p) => p,
            None => fallback,
        },
        None => fallback,
    }
}

/// The view of an optional text.
pub open spec fn opt_str_view(o: Option<&str>) -> Option<Seq<char>> {
    match o {
        Some(s) => Some(s@),
        None => None,
    }
}

/// Configurable limits for tip validation.
pub struct ValidationRules {
    pub min_tip_xlm: DecimalValue,
    pub max_tip_xlm: DecimalValue,
}

impl ValidationRules {
    /// The rules set by the configured texts of the smallest and the largest
    /// tip (as the `TIP_MIN_XLM` and `TIP_MAX_XLM` settings give them); an
    /// absent or unreadable setting leaves its default of 0.01 or 10000.
    pub fn from_settings(min_text: Option<&str>, max_text: Option<&str>) -> (rules:
        ValidationRules)
        ensures
            rules.min_tip_xlm.parts() == configured_limit(
                opt_str_view(min_text),
                default_min_tip(),
            ),
            rules.max_tip_xlm.parts() == configured_limit(
                opt_str_view(max_text),
                default_max_tip(),
            ),
    {
        let min = match min_text {
            Some(t) => match DecimalValue::parse(t) {
                Some(d) => d,
                None => DecimalValue::new(1, 2),
            },
            None => DecimalValue::new(1, 2),
        };
        let max = match max_text {
            Some(t) => match DecimalValue::parse(t) {
                Some(d) => d,
                None => DecimalValue::new(10000, 0),
            },
            None => DecimalValue::new(10000, 0),
        };
        ValidationRules { min_tip_xlm: min, max_tip_xlm: max }
    }
}

/// Why a tip was refused.
#[derive(Debug)]
pub enum TipValidationError {
    /// The tip conflicts with a rule; `code` names the rule.
    Conflict { code: &'static str, message: String },
    /// The tipped creator does not exist.
    CreatorNotFound { username: String },
}

/// `r` refuses with a conflict of the given code and message.
pub open spec fn is_conflict(r: Result<(), TipValidationError>, code: Seq<char>, message: Seq<char>) -> bool {
    r matches Err(TipValidationError::Conflict { code: c, message: m }) && c@ == code && m@ == message
}

/// The outcome of checking an amount that reads as `value` (none when it is
/// not a decimal) against `min` and `max`.
pub open spec fn amount_value_verdict(
    value: Option<(i128, u32, bool)>,
    min: (i128, u32, bool),
    max: (i128, u32, bool),
    r: Result<(), TipValidationError>,
) -> bool {
    match value {
        None => is_conflict(r, "INVALID_AMOUNT"@, "Tip amount is not a valid decimal"@),
        Some(v) => if decimal_less(v, min) {
            is_conflict(
                r,
                "AMOUNT_TOO_LOW"@,
                "Minimum tip amount is "@ + decimal_display(min.0, min.1, min.2) + " XLM"@,
            )
        } else if decimal_less(max, v) {
            is_conflict(
                r,
                "AMOUNT_TOO_HIGH"@,
                "Maximum tip amount is "@ + decimal_display(max.0, max.1, max.2) + " XLM"@,
            )
        } else {
            r is Ok
        },
    }
}

/// The outcome of checking the amount `text` against `min` and `max`.
pub open spec fn amount_verdict(
    text: Seq<char>,
    min: (i128, u32, bool),
    max: (i128, u32, bool),
    r: Result<(), TipValidationError>,
) -> bool {
    amount_value_verdict(decimal_from_str(text), min, max, r)
}

/// What checking an amount means, by value: a text that is not a decimal
/// is refused as invalid; a decimal amount `v` is accepted exactly when
/// `min <= v <= max`, comparing the numbers `mantissa * 10^-scale`; it is
/// refused as too low only below `min`, and as too high only above `max`.
pub proof fn lemma_amount_checked_by_value(
    text: Seq<char>,
    min: (i128, u32, bool),
    max: (i128, u32, bool),
    r: Result<(), TipValidationError>,
)
    requires
        amount_verdict(text, min, max, r),
    ensures
        decimal_from_str(text) is None ==> is_conflict(
            r,
            "INVALID_AMOUNT"@,
            "Tip amount is not a valid decimal"@,
        ),
        decimal_from_str(text) matches Some(v) ==> (r is Ok <==> (min.0 * pow10(v.1 as nat)
            <= v.0 * pow10(min.1 as nat) && v.0 * pow10(max.1 as nat) <= max.0 * pow10(
            v.1 as nat,
        ))),
        (r matches Err(TipValidationError::Conflict { code, .. }) && code@ == "AMOUNT_TOO_HIGH"@)
            ==> (decimal_from_str(text) matches Some(v) && max.0 * pow10(v.1 as nat) < v.0 * pow10(
            max.1 as nat,
        )),
        (r matches Err(TipValidationError::Conflict { code, .. }) && code@ == "AMOUNT_TOO_LOW"@)
            ==> (decimal_from_str(text) matches Some(v) && v.0 * pow10(min.1 as nat) < min.0
            * pow10(v.1 as nat)),
{
    reveal_strlit("AMOUNT_TOO_HIGH");
    reveal_strlit("AMOUNT_TOO_LOW");
    reveal_strlit("INVALID_AMOUNT");
    assert("AMOUNT_TOO_HIGH"@.len() != "AMOUNT_TOO_LOW"@.len());
    assert("AMOUNT_TOO_HIGH"@.len() != "INVALID_AMOUNT"@.len());
    assert("AMOUNT_TOO_LOW"@[0] != "INVALID_AMOUNT"@[0]);
}

/// The mantissa and scale of an optional decimal.
pub open spec fn opt_parts(value: Option<DecimalValue>) -> Option<(i128, u32, bool)> {
    match value {
        Some(d) => Some(d.parts()),
        None => None,
    }
}

/// The number of same-amount tips to one creator within an hour above which
/// the tips are reported as a fraud signal.
pub const FRAUD_SIGNAL_THRESHOLD: i64 = 5;

/// Applies the business rules that a tip must meet before it is recorded.
pub struct TipValidationService {
    rules: ValidationRules,
}

impl TipValidationService {
    /// A service applying `rules`.
    pub fn new(rules: ValidationRules) -> (s: TipValidationService)
        ensures
            s.rules() == rules,
    {
        TipValidationService { rules }
    }

    /// The rules this service applies.
    pub closed spec fn rules(&self) -> ValidationRules {
        self.rules
    }

    /// Checks that `amount` is a decimal within the configured limits.
    pub fn check_amount(&self, amount: &str) -> (r: Result<(), TipValidationError>)
        ensures
            amount_verdict(
                amount@,
                self.rules().min_tip_xlm.parts(),
                self.rules().max_tip_xlm.parts(),
                r,
            ),
    {
        self.check_amount_value(DecimalValue::parse(amount))
    }

    /// Checks an amount that reads as `value` (none when it is not a
    /// decimal) against the configured limits.
    pub fn check_amount_value(&self, value: Option<DecimalValue>) -> (r: Result<(), TipValidationError>)
        ensures
            amount_value_verdict(
                opt_parts(value),
                self.rules().min_tip_xlm.parts(),
                self.rules().max_tip_xlm.parts(),
                r,
            ),
    {
        let value = match value {
            Some(v) => v,
            None => {
                return Err(
                    TipValidationError::Conflict {
                        code: "INVALID_AMOUNT",
                        message: String::from_str("Tip amount is not a valid decimal"),
                    },
                );
            },
        };
        if value.less_than(&self.rules.min_tip_xlm) {
            let mut message = String::from_str("Minimum tip amount is ");
            message.append(self.rules.min_tip_xlm.to_text().as_str());
            message.append(" XLM");
            return Err(TipValidationError::Conflict { code: "AMOUNT_TOO_LOW", message });
        }
        if self.rules.max_tip_xlm.less_than(&value) {
            let mut message = String::from_str("Maximum tip amount is ");
            message.append(self.rules.max_tip_xlm.to_text().as_str());
            message.append(" XLM");
            return Err(TipValidationError::Conflict { code: "AMOUNT_TOO_HIGH", message });
        }
        Ok(())
    }
}

/// What the database is asked next while a tip is validated.
#[derive(Debug, PartialEq, Eq, Structural)]
pub enum ValidationQuestion {
    /// Is the tip's transaction recorded already?
    TransactionRecorded,
    /// Does the tipped creator exist?
    CreatorExists,
    /// How many tips of the same amount did the creator get in the last hour?
    RecentSameAmountTips,
}

/// What the database answered to a question of the validation.
#[derive(Debug)]
pub enum ValidationAnswer {
    TransactionRecorded(bool),
    CreatorExists(bool),
    /// The count, or none when the count could not be had.
    RecentSameAmountTips(Option<i64>),
}

/// The next step of validating a tip.
#[derive(Debug)]
pub enum ValidationStep {
    /// Ask the database this question and hand the answer back.
    Ask(ValidationQuestion),
    /// The tip is refused.
    Reject(TipValidationError),
    /// The tip passes; `fraud_signal` says whether to report it as suspicious.
    Accept { fraud_signal: bool },
}

impl TipValidationService {
    /// The first step of validating a tip of `amount`: the amount is checked
    /// against the limits, then the database is asked whether the
    /// transaction is recorded already.
    pub fn begin_validation(&self, amount: &str) -> (step: ValidationStep)
        ensures
            match step {
                ValidationStep::Ask(q) => q == ValidationQuestion::TransactionRecorded && amount_verdict(
                    amount@,
                    self.rules().min_tip_xlm.parts(),
                    self.rules().max_tip_xlm.parts(),
                    Ok(()),
                ),
                ValidationStep::Reject(e) => amount_verdict(
                    amount@,
                    self.rules().min_tip_xlm.parts(),
                    self.rules().max_tip_xlm.parts(),
                    Err(e),
                ),
                ValidationStep::Accept { .. } => false,
            },
    {
        match self.check_amount(amount) {
            Ok(()) => ValidationStep::Ask(ValidationQuestion::TransactionRecorded),
            Err(e) => ValidationStep::Reject(e),
        }
    }
}

/// The step after the database's `answer`, for a tip to `username`: a
/// recorded transaction is refused, else the creator is asked for; a missing
/// creator is refused, else the recent same-amount tips are counted; the
/// tip then passes, flagged when the count is a fraud signal.
pub fn next_validation_step(answer: ValidationAnswer, username: &str) -> (step: ValidationStep)
    ensures
        match answer {
            ValidationAnswer::TransactionRecorded(true) => step matches ValidationStep::Reject(e)
                && is_conflict(
                Err(e),
                "DUPLICATE_TRANSACTION"@,
                "This transaction has already been recorded"@,
            ),
            ValidationAnswer::TransactionRecorded(false) => step matches ValidationStep::Ask(q) && q
                == ValidationQuestion::CreatorExists,
            ValidationAnswer::CreatorExists(false) => step matches ValidationStep::Reject(
                TipValidationError::CreatorNotFound { username: u },
            ) && u@ == username@,
            ValidationAnswer::CreatorExists(true) => step matches ValidationStep::Ask(q) && q
                == ValidationQuestion::RecentSameAmountTips,
            ValidationAnswer::RecentSameAmountTips(Some(count)) => step matches ValidationStep::Accept {
                fraud_signal,
            } && fraud_signal == (count > FRAUD_SIGNAL_THRESHOLD),
            ValidationAnswer::RecentSameAmountTips(None) => step matches ValidationStep::Accept {
                fraud_signal,
            } && !fraud_signal,
        },
{
    match answer {
        ValidationAnswer::TransactionRecorded(exists) => match check_duplicate(exists) {
            Ok(()) => ValidationStep::Ask(ValidationQuestion::CreatorExists),
            Err(e) => ValidationStep::Reject(e),
        },
        ValidationAnswer::CreatorExists(exists) => match check_creator_exists(exists, username) {
            Ok(()) => ValidationStep::Ask(ValidationQuestion::RecentSameAmountTips),
            Err(e) => ValidationStep::Reject(e),
        },
        ValidationAnswer::RecentSameAmountTips(Some(count)) => ValidationStep::Accept {
            fraud_signal: is_fraud_signal(count),
        },
        ValidationAnswer::RecentSameAmountTips(None) => ValidationStep::Accept { fraud_signal: false },
    }
}

/// Refuses a tip whose transaction is recorded already (`exists`).
pub fn check_duplicate(exists: bool) -> (r: Result<(), TipValidationError>)
    ensures
        exists ==> is_conflict(
            r,
            "DUPLICATE_TRANSACTION"@,
            "This transaction has already been recorded"@,
        ),
        !exists ==> r is Ok,
{
    if exists {
        return Err(
            TipValidationError::Conflict {
                code: "DUPLICATE_TRANSACTION",
                message: String::from_str("This transaction has already been recorded"),
            },
        );
    }
    Ok(())
}

/// Refuses a tip to a creator that does not exist (`exists` is false).
pub fn check_creator_exists(exists: bool, username: &str) -> (r: Result<(), TipValidationError>)
    ensures
        exists ==> r is Ok,
        !exists ==> (r matches Err(TipValidationError::CreatorNotFound { username: u })
            && u@ == username@),
{
    if !exists {
        return Err(TipValidationError::CreatorNotFound { username: username.to_owned() });
    }
    Ok(())
}

/// Whether `count` same-amount tips to one creator within the last hour are
/// a fraud signal: more than five.
pub fn is_fraud_signal(count: i64) -> (signal: bool)
    ensures
        signal == (count > FRAUD_SIGNAL_THRESHOLD),
{
    count > FRAUD_SIGNAL_THRESHOLD
}

} // verus!
