//! Amounts as a form reads them: a figure, a whole figure, or a fraction of
//! what is left in a pot.

use crate::fault::{Fault, FaultView};
use crate::money::{fits, reads_amount, tax, taxed, BasisPoints, Cents};
use crate::said::{self, PieceView, Said};
use crate::text::{read_i64, reads_signed, trim, trimmed};
use vstd::prelude::*;
use vstd::string::*;

verus! {

/// How a typed amount reads: the figure, its surrounding space put aside.
pub open spec fn amount_reading(raw: Seq<char>) -> Result<int, FaultView> {
    match reads_amount(trimmed(raw)) {
        Some(cents) => Ok(cents),
        None => Err(FaultView::NotAmount { text: trimmed(raw) }),
    }
}

/// The same reading, refused unless it lands on a whole dollar.
pub open spec fn whole_reading(raw: Seq<char>) -> Result<int, FaultView> {
    match amount_reading(raw) {
        Ok(cents) => if cents % 100 == 0 {
            Ok(cents)
        } else {
            Err(FaultView::NotWhole { text: trimmed(raw) })
        },
        Err(fault) => Err(fault),
    }
}

/// Whether what a reader returned is what the text reads as.
pub open spec fn agrees(returned: Result<Cents, Fault>, reading: Result<int, FaultView>) -> bool {
    match returned {
        Ok(cents) => reading == Ok::<int, FaultView>(cents.0 as int),
        Err(fault) => reading == Err::<int, FaultView>(fault@),
    }
}

/// The amount as [`Cents::read`] reads it: `$`, commas, and `.5` all work.
pub fn parse_amount(raw: &str) -> (read: Result<Cents, Fault>)
    ensures
        agrees(read, amount_reading(raw@)),
{
    let text = trim(raw);
    match Cents::read(text) {
        Some(cents) => Ok(cents),
        None => Err(Fault::NotAmount { text: text.to_owned() }),
    }
}

/// The same amount, refused unless it lands on a whole dollar.
///
/// Goal figures are whole dollars, so the cents a goal drifts by only ever
/// come from interest and rounding. Refused rather than floored: `1800.5`
/// typed for `1800.50` is a typo, and quietly booking $1,800 for it hides the
/// slip in a figure that looks deliberate.
pub fn parse_whole_amount(raw: &str) -> (read: Result<Cents, Fault>)
    ensures
        agrees(read, whole_reading(raw@)),
{
    match parse_amount(raw) {
        Err(fault) => Err(fault),
        Ok(cents) => if cents.0 % 100 == 0 {
            Ok(cents)
        } else {
            Err(Fault::NotWhole { text: trim(raw).to_owned() })
        },
    }
}

/// What the tax note says: what the figure comes to with tax, in brackets.
/// Empty where the flag is off, the text is not a whole figure yet, or there
/// is no rate, and where the taxed figure is more than an amount can hold.
pub open spec fn tax_note_text(taxed_flag: bool, typed: Seq<char>, rate: Option<BasisPoints>) -> Seq<
    PieceView,
> {
    match (taxed_flag, whole_reading(typed), rate) {
        (true, Ok(base), Some(rate)) => if fits(taxed(base, rate.0 as int)) {
            said::words("("@) + said::whole_amount(Cents(taxed(base, rate.0 as int) as i64))
                + said::words(" w/ tax)"@)
        } else {
            Seq::empty()
        },
        _ => Seq::empty(),
    }
}

/// What a base comes to once the tax has been put on it: the note a form
/// draws past the caret, or nothing when there is nothing to say.
pub fn tax_note(taxed: bool, typed: &str, rate: Option<BasisPoints>) -> (note: Said)
    ensures
        note@ == tax_note_text(taxed, typed@, rate),
{
    if !taxed {
        return Said::nothing();
    }
    match (parse_whole_amount(typed), rate) {
        (Ok(base), Some(rate)) => match tax(base, rate) {
            Some(cents) => Said::of("(").whole_amount(cents).words(" w/ tax)"),
            None => Said::nothing(),
        },
        _ => Said::nothing(),
    }
}

/// A fraction is written behind a slash.
pub open spec fn is_fraction(raw: Seq<char>) -> bool {
    trimmed(raw).len() > 0 && trimmed(raw)[0] == '/'
}

/// Whether an amount field is holding a `/N` fraction rather than a figure.
pub fn is_share(raw: &str) -> (share: bool)
    ensures
        share == is_fraction(raw@),
{
    let text = trim(raw);
    text.unicode_len() > 0 && text.get_char(0) == '/'
}

/// Whether a typed figure has to land on a whole dollar.
#[derive(Copy, Clone, Debug, PartialEq, Eq, Structural)]
pub enum Precision {
    /// What an allocation is booked in.
    WholeDollars,
    /// What a correction reads by: a row already holding cents has to be
    /// able to save them again.
    Cents,
}

/// One `n`th of a pot, floored to a whole dollar.
pub open spec fn share(pot: int, n: int) -> int {
    100 * (pot / (100 * n))
}

pub open spec fn share_reading(pot: int, n: int) -> Result<int, FaultView> {
    if n <= 0 {
        Err(FaultView::CannotDivide { by: n })
    } else {
        Ok(share(pot, n))
    }
}

proof fn lemma_share_bounds(pot: int, n: int)
    requires
        n > 0,
    ensures
        pot >= 0 ==> 0 <= share(pot, n) <= pot,
        pot < 0 ==> 100 * (pot / 100) <= share(pot, n) <= 0,
{
    let whole = 100 * n;
    let part = pot / whole;
    assert(whole * part <= pot < whole * part + whole) by (nonlinear_arith)
        requires
            part == pot / whole,
            whole > 0,
    ;
    if pot >= 0 {
        assert(part >= 0 && 100 * part <= whole * part) by (nonlinear_arith)
            requires
                whole * part <= pot < whole * part + whole,
                pot >= 0,
                whole == 100 * n,
                n >= 1,
        ;
    } else {
        let dollars = pot / 100;
        assert(part < 0) by (nonlinear_arith)
            requires
                whole * part <= pot,
                pot < 0,
                whole > 0,
        ;
        assert(part >= dollars) by (nonlinear_arith)
            requires
                whole * part <= pot < whole * part + whole,
                100 * dollars <= pot < 100 * dollars + 100,
                whole == 100 * n,
                n >= 1,
                part < 0,
        ;
    }
}

/// A fraction of a pot, floored to a whole dollar.
pub fn share_of(pot: Cents, n: i64) -> (read: Result<Cents, Fault>)
    requires
        fits(100 * (pot.0 as int / 100)),
    ensures
        agrees(read, share_reading(pot.0 as int, n as int)),
{
    if n <= 0 {
        return Err(Fault::CannotDivide { by: n });
    }
    proof {
        lemma_share_bounds(pot.0 as int, n as int);
    }
    let whole: i128 = 100 * n as i128;
    let wide: i128 = pot.0 as i128;
    let floored: i128 = if wide >= 0 {
        wide / whole
    } else {
        -((whole - 1 - wide) / whole)
    };
    proof {
        if wide < 0 {
            lemma_floor(wide as int, whole as int);
        }
    }
    Ok(Cents((100 * floored) as i64))
}

proof fn lemma_floor(n: int, by: int)
    by (nonlinear_arith)
    requires
        by > 0,
    ensures
        -((by - 1 - n) / by) == n / by,
{
}

/// How an amount reads where a fraction of the pot may stand for it.
pub open spec fn share_or_amount(raw: Seq<char>, pot: int, precision: Precision) -> Result<
    int,
    FaultView,
> {
    if is_fraction(raw) {
        match reads_signed(trimmed(trimmed(raw).skip(1))) {
            Ok(n) => share_reading(pot, n),
            Err(fault) => Err(FaultView::NotDivisor { text: trimmed(raw), fault }),
        }
    } else {
        match precision {
            Precision::WholeDollars => whole_reading(raw),
            Precision::Cents => amount_reading(raw),
        }
    }
}

/// A whole amount, or a fraction of `pot` written `/N`.
///
/// `pot` is what is left unallocated, and `/6` is a sixth of it. Text rather
/// than a keystroke so the divisor can run past nine.
///
/// The fraction floors to a whole dollar whatever the `precision`, while a
/// typed `12.50` is refused where whole dollars are asked for: cents typed
/// into a whole-dollar field are a typo, and cents left over from a division
/// are arithmetic.
pub fn parse_share(raw: &str, pot: Cents, precision: Precision) -> (read: Result<Cents, Fault>)
    requires
        fits(100 * (pot.0 as int / 100)),
    ensures
        agrees(read, share_or_amount(raw@, pot.0 as int, precision)),
{
    if !is_share(raw) {
        return match precision {
            Precision::WholeDollars => parse_whole_amount(raw),
            Precision::Cents => parse_amount(raw),
        };
    }
    let text = trim(raw);
    let len: usize = text.unicode_len();
    let divisor = text.substring_char(1, len);
    proof {
        assert(divisor@ =~= text@.skip(1));
    }
    match read_i64(trim(divisor)) {
        Ok(n) => share_of(pot, n),
        Err(fault) => Err(Fault::NotDivisor { text: text.to_owned(), fault }),
    }
}

/// A fraction of a pot is a whole number of dollars, and dividing what is
/// there by any number gives no more than is there.
pub proof fn a_share_is_whole_dollars_of_the_pot(pot: int, n: int)
    requires
        n > 0,
        pot >= 0,
    ensures
        share(pot, n) % 100 == 0,
        0 <= share(pot, n) <= pot,
        share(pot, n) * n <= pot,
{
    lemma_share_bounds(pot, n);
    let whole = 100 * n;
    let part = pot / whole;
    assert(whole * part <= pot) by (nonlinear_arith)
        requires
            part == pot / whole,
            whole > 0,
    ;
    assert(100 * part * n == whole * part) by (nonlinear_arith)
        requires
            whole == 100 * n,
    ;
}

/// Where whole dollars are asked for, no reading yields cents; and the two
/// precisions part company over cents and over nothing else.
pub proof fn precision_decides_cents_alone(raw: Seq<char>, pot: int)
    ensures
        match share_or_amount(raw, pot, Precision::WholeDollars) {
            Ok(cents) => cents % 100 == 0 && share_or_amount(raw, pot, Precision::Cents) == Ok::<
                int,
                FaultView,
            >(cents),
            Err(FaultView::NotWhole { .. }) => match share_or_amount(raw, pot, Precision::Cents) {
                Ok(cents) => cents % 100 != 0,
                Err(_) => false,
            },
            Err(fault) => share_or_amount(raw, pot, Precision::Cents) == Err::<int, FaultView>(
                fault,
            ),
        },
{
}

/// A slash and a number divide the pot by that number: what comes back is the
/// most whole dollars that many times over do not exceed the pot. A number
/// that is not positive divides nothing.
pub proof fn a_slash_divides_the_pot(digits: Seq<char>, pot: int, precision: Precision)
    requires
        digits.len() > 0,
        crate::text::all_digits(digits),
        crate::text::number(digits) <= i64::MAX,
    ensures
        ({
            let n = crate::text::number(digits);
            match share_or_amount(seq!['/'] + digits, pot, precision) {
                Ok(part) => n > 0 && part % 100 == 0 && n * part <= pot < n * (part + 100),
                Err(fault) => n <= 0 && fault == FaultView::CannotDivide { by: n },
            }
        }),
{
    let n = crate::text::number(digits);
    let text = seq!['/'] + digits;
    assert(crate::text::is_digit(digits[0]) && crate::text::is_digit(digits[digits.len() - 1]));
    assert(text.last() == digits.last());
    crate::text::nothing_to_trim(text);
    crate::text::nothing_to_trim(digits);
    assert(text.skip(1) =~= digits);
    crate::text::a_whole_number_reads_under_its_sign(digits);
    if n > 0 {
        let whole = 100 * n;
        let part = pot / whole;
        assert(whole * part <= pot < whole * part + whole) by (nonlinear_arith)
            requires
                part == pot / whole,
                whole > 0,
        ;
        assert(n * (100 * part) == whole * part && n * (100 * part + 100) == whole * part + whole)
            by (nonlinear_arith)
            requires
                whole == 100 * n,
        ;
    }
}

/// A text without a slash in front is an amount; where whole dollars are
/// asked for, cents are refused.
pub proof fn a_typed_amount_is_read_as_typed(raw: Seq<char>, pot: int)
    requires
        trimmed(raw).len() == 0 || trimmed(raw)[0] != '/',
    ensures
        match reads_amount(trimmed(raw)) {
            Some(cents) => {
                &&& share_or_amount(raw, pot, Precision::Cents) == Ok::<int, FaultView>(cents)
                &&& (cents % 100 == 0 ==> share_or_amount(raw, pot, Precision::WholeDollars)
                    == Ok::<int, FaultView>(cents))
                &&& (cents % 100 != 0 ==> share_or_amount(raw, pot, Precision::WholeDollars)
                    == Err::<int, FaultView>(FaultView::NotWhole { text: trimmed(raw) }))
            },
            None => {
                &&& share_or_amount(raw, pot, Precision::Cents) == Err::<int, FaultView>(
                    FaultView::NotAmount { text: trimmed(raw) },
                )
                &&& share_or_amount(raw, pot, Precision::WholeDollars) == Err::<int, FaultView>(
                    FaultView::NotAmount { text: trimmed(raw) },
                )
            },
        },
{
}

/// A tax note is shown only beside a taxed whole figure where there is a rate,
/// and quotes that figure with the tax on it.
pub proof fn a_tax_note_quotes_the_figure_with_tax(
    taxed_flag: bool,
    typed: Seq<char>,
    rate: Option<BasisPoints>,
)
    ensures
        !taxed_flag || rate is None || whole_reading(typed) is Err ==> tax_note_text(
            taxed_flag,
            typed,
            rate,
        ).len() == 0,
        taxed_flag ==> (whole_reading(typed) matches Ok(base) ==> (rate matches Some(points)
            ==> (fits(taxed(base, points.0 as int)) ==> tax_note_text(taxed_flag, typed, rate)
            == said::words("("@) + said::whole_amount(Cents(taxed(base, points.0 as int) as i64))
            + said::words(" w/ tax)"@)))),
{
}

} // verus!
