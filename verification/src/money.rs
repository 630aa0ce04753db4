//! Amounts of money: how they are typed, how they are written, and the few
//! sums done on them.

use crate::text::{
    all_digits, decimal, digit_char, digit_value, is_digit, number, write_number,
};
use vstd::prelude::*;
use vstd::string::*;

verus! {

/// An amount in cents.
#[derive(Copy, Clone, Debug, PartialEq, Eq, Structural)]
pub struct Cents(pub i64);

/// A rate in hundredths of a percent.
#[derive(Copy, Clone, Debug, PartialEq, Eq, Structural)]
pub struct BasisPoints(pub i64);

/// Whether a figure can be held as [`Cents`].
pub open spec fn fits(amount: int) -> bool {
    i64::MIN <= amount <= i64::MAX
}

/// `text` without its commas.
pub open spec fn without_commas(text: Seq<char>) -> Seq<char>
    decreases text.len(),
{
    if text.len() == 0 {
        text
    } else if text.last() == ',' {
        without_commas(text.drop_last())
    } else {
        without_commas(text.drop_last()).push(text.last())
    }
}

/// `text` past `c`, where it opens with it.
pub open spec fn past(text: Seq<char>, c: char) -> Seq<char> {
    if text.len() > 0 && text[0] == c {
        text.skip(1)
    } else {
        text
    }
}

/// Where the decimal point is: how many characters come before the first
/// one, and all of them where there is none.
pub open spec fn point_in(text: Seq<char>) -> int
    decreases text.len(),
{
    if text.len() == 0 || text[0] == '.' {
        0
    } else {
        1 + point_in(text.drop_first())
    }
}

/// The cents one or two digits past a decimal point stand for.
pub open spec fn hundredths(digits: Seq<char>) -> int {
    if digits.len() == 1 {
        10 * number(digits)
    } else {
        number(digits)
    }
}

/// What a figure reads as in cents, past its sign and its dollar sign: whole
/// dollars, commas anywhere among them, and past a point one or two digits
/// of cents. Either part may be missing, not both.
pub open spec fn reads_figure(text: Seq<char>) -> Option<int> {
    let point = point_in(text);
    let dollars = without_commas(text.take(point));
    let cents = text.skip(point + 1);
    if !all_digits(dollars) {
        None
    } else if point == text.len() {
        if dollars.len() > 0 {
            Some(100 * number(dollars))
        } else {
            None
        }
    } else if 1 <= cents.len() <= 2 && all_digits(cents) {
        Some(100 * number(dollars) + hundredths(cents))
    } else {
        None
    }
}

/// What `text` reads as in cents: a minus sign if it is negative, a dollar
/// sign if it has one, and the figure.
pub open spec fn reads_amount(text: Seq<char>) -> Option<int> {
    let negative = text.len() > 0 && text[0] == '-';
    match reads_figure(past(past(text, '-'), '$')) {
        Some(cents) => {
            let amount = if negative {
                -cents
            } else {
                cents
            };
            if fits(amount) {
                Some(amount)
            } else {
                None
            }
        },
        None => None,
    }
}

proof fn lemma_point_in(text: Seq<char>, at: int)
    requires
        0 <= at <= text.len(),
        forall|i: int| 0 <= i < at ==> #[trigger] text[i] != '.',
        at < text.len() ==> text[at] == '.',
    ensures
        point_in(text) == at,
    decreases at,
{
    if at > 0 {
        assert(text[0] != '.');
        assert forall|i: int| 0 <= i < at - 1 implies #[trigger] text.drop_first()[i] != '.' by {
            assert(text.drop_first()[i] == text[i + 1]);
        }
        lemma_point_in(text.drop_first(), at - 1);
    }
}

/// The largest number of whole dollars an amount can hold.
const MOST_DOLLARS: u64 = 92_233_720_368_547_758;

/// The number the digits of `text` between `from` and `to` write, commas
/// skipped. `None` where something else stands among them; a number past
/// [`MOST_DOLLARS`] is only known to be that.
fn read_digits(text: &str, from: usize, to: usize) -> (read: Option<(u64, bool)>)
    requires
        from <= to <= text@.len(),
    ensures
        match read {
            None => !all_digits(without_commas(text@.subrange(from as int, to as int))),
            Some((total, any)) => {
                let digits = without_commas(text@.subrange(from as int, to as int));
                &&& all_digits(digits)
                &&& any == (digits.len() > 0)
                &&& number(digits) <= MOST_DOLLARS ==> total == number(digits)
                &&& number(digits) > MOST_DOLLARS ==> total > MOST_DOLLARS
                &&& total <= MOST_DOLLARS + 1
            },
        },
{
    let mut total: u64 = 0;
    let mut any: bool = false;
    let mut at: usize = from;
    proof {
        assert(text@.subrange(from as int, from as int) =~= Seq::<char>::empty());
        assert(without_commas(Seq::<char>::empty()) =~= Seq::<char>::empty());
    }
    while at < to
        invariant
            from <= at <= to <= text@.len(),
            ({
                let digits = without_commas(text@.subrange(from as int, at as int));
                &&& all_digits(digits)
                &&& any == (digits.len() > 0)
                &&& number(digits) <= MOST_DOLLARS ==> total == number(digits)
                &&& number(digits) > MOST_DOLLARS ==> total > MOST_DOLLARS
                &&& total <= MOST_DOLLARS + 1
                &&& number(digits) >= 0
            }),
        decreases to - at,
    {
        let c: char = text.get_char(at);
        let ghost before = text@.subrange(from as int, at as int);
        let ghost upto = text@.subrange(from as int, at + 1);
        proof {
            assert(upto.drop_last() =~= before);
            assert(upto.last() == c);
        }
        if c != ',' {
            proof {
                let digits = without_commas(before);
                assert(without_commas(upto) == digits.push(c));
                assert(digits.push(c).drop_last() =~= digits);
                assert(digits.push(c).last() == c);
            }
            if !('0' <= c && c <= '9') {
                proof {
                    lemma_a_bad_digit_stays(text@, from as int, at + 1, to as int);
                }
                return None;
            }
            let d: u64 = c as u64 - '0' as u64;
            if total <= MOST_DOLLARS {
                total = 10 * total + d;
                if total > MOST_DOLLARS {
                    total = MOST_DOLLARS + 1;
                }
            }
            any = true;
            proof {
                let digits = without_commas(before);
                assert forall|i: int| 0 <= i < digits.push(c).len() implies is_digit(
                    #[trigger] digits.push(c)[i],
                ) by {
                    if i < digits.len() {
                        assert(is_digit(digits[i]));
                    }
                }
            }
        }
        at = at + 1;
    }
    Some((total, any))
}

proof fn lemma_a_bad_digit_stays(text: Seq<char>, from: int, at: int, to: int)
    requires
        0 <= from < at <= to <= text.len(),
        !all_digits(without_commas(text.subrange(from, at))),
    ensures
        !all_digits(without_commas(text.subrange(from, to))),
    decreases to - at,
{
    if at < to {
        let upto = text.subrange(from, at + 1);
        let before = without_commas(text.subrange(from, at));
        assert(upto.drop_last() =~= text.subrange(from, at));
        let bad = choose|i: int| 0 <= i < before.len() && !is_digit(#[trigger] before[i]);
        assert(without_commas(upto)[bad] == before[bad]);
        lemma_a_bad_digit_stays(text, from, at + 1, to);
    }
}

proof fn lemma_two_digits(digits: Seq<char>)
    requires
        all_digits(digits),
        1 <= digits.len() <= 2,
    ensures
        digits.len() == 1 ==> number(digits) == digit_value(digits[0]),
        digits.len() == 2 ==> number(digits) == 10 * digit_value(digits[0]) + digit_value(
            digits[1],
        ),
{
    reveal_with_fuel(number, 3);
    if digits.len() == 1 {
        assert(digits.drop_last() =~= Seq::<char>::empty());
    } else {
        assert(digits.drop_last().drop_last() =~= Seq::<char>::empty());
        assert(digits.drop_last().last() == digits[0]);
    }
}

/// Read the cents past the decimal point at `point`: one or two digits.
fn read_hundredths(text: &str, point: usize) -> (read: Option<u64>)
    requires
        point < text@.len(),
    ensures
        ({
            let digits = text@.skip(point + 1);
            match read {
                Some(cents) => 1 <= digits.len() <= 2 && all_digits(digits) && cents == hundredths(
                    digits,
                ),
                None => !(1 <= digits.len() <= 2 && all_digits(digits)),
            }
        }),
        read is Some ==> read->0 < 100,
{
    let len: usize = text.unicode_len();
    let ghost digits = text@.skip(point + 1);
    let count: usize = len - point - 1;
    if count != 1 && count != 2 {
        return None;
    }
    let first: char = text.get_char(point + 1);
    proof {
        assert(digits[0] == first);
    }
    if !('0' <= first && first <= '9') {
        return None;
    }
    let mut cents: u64 = 10 * (first as u64 - '0' as u64);
    if count == 2 {
        let second: char = text.get_char(point + 2);
        proof {
            assert(digits[1] == second);
        }
        if !('0' <= second && second <= '9') {
            return None;
        }
        cents = cents + (second as u64 - '0' as u64);
    }
    proof {
        assert(all_digits(digits));
        lemma_two_digits(digits);
    }
    Some(cents)
}

/// Read the figure from `start` on, as [`reads_figure`] reads it. A figure no
/// amount can hold under either sign may come back as none at all.
fn read_figure(text: &str, start: usize) -> (read: Option<i128>)
    requires
        start <= text@.len(),
    ensures
        match read {
            Some(cents) => reads_figure(text@.skip(start as int)) == Some(cents as int) && 0
                <= cents < i128::MAX,
            None => match reads_figure(text@.skip(start as int)) {
                Some(cents) => cents > i64::MAX + 1,
                None => true,
            },
        },
{
    let len: usize = text.unicode_len();
    let ghost figure = text@.skip(start as int);
    let mut point: usize = start;
    while point < len && text.get_char(point) != '.'
        invariant
            start <= point <= len,
            len == text@.len(),
            forall|i: int| start <= i < point ==> #[trigger] text@[i] != '.',
        ensures
            point < len ==> text@[point as int] == '.',
        decreases len - point,
    {
        point = point + 1;
    }
    proof {
        assert forall|i: int| 0 <= i < point - start implies #[trigger] figure[i] != '.' by {
            assert(figure[i] == text@[start + i]);
        }
        lemma_point_in(figure, point - start);
        assert(figure.take(point - start) =~= text@.subrange(start as int, point as int));
        if point < len {
            assert(figure.skip(point - start + 1) =~= text@.skip(point + 1));
        }
    }
    let (dollars, any): (u64, bool) = match read_digits(text, start, point) {
        None => {
            return None;
        },
        Some(read) => read,
    };
    let cents: u64 = if point == len {
        if !any {
            return None;
        }
        0
    } else {
        match read_hundredths(text, point) {
            None => {
                return None;
            },
            Some(cents) => cents,
        }
    };
    if dollars > MOST_DOLLARS {
        return None;
    }
    Some(100 * dollars as i128 + cents as i128)
}

impl Cents {
    pub fn zero() -> (cents: Cents)
        ensures
            cents == Cents(0),
    {
        Cents(0)
    }

    pub fn from_dollars(dollars: i64) -> (cents: Cents)
        requires
            fits(100 * dollars),
        ensures
            cents.0 == 100 * dollars,
    {
        Cents(100 * dollars)
    }

    /// Read a typed amount: `$`, commas, and `.5` all work.
    pub fn read(text: &str) -> (read: Option<Cents>)
        ensures
            match read {
                Some(cents) => reads_amount(text@) == Some(cents.0 as int),
                None => reads_amount(text@) is None,
            },
    {
        let len: usize = text.unicode_len();
        let negative: bool = len > 0 && text.get_char(0) == '-';
        let after_sign: usize = if negative {
            1
        } else {
            0
        };
        let start: usize = if after_sign < len && text.get_char(after_sign) == '$' {
            after_sign + 1
        } else {
            after_sign
        };
        proof {
            assert(past(text@, '-') =~= text@.skip(after_sign as int));
            assert(past(past(text@, '-'), '$') =~= text@.skip(start as int));
        }
        match read_figure(text, start) {
            None => None,
            Some(size) => {
                let amount: i128 = if negative {
                    -size
                } else {
                    size
                };
                if amount < i64::MIN as i128 || amount > i64::MAX as i128 {
                    None
                } else {
                    Some(Cents(amount as i64))
                }
            },
        }
    }

    /// The whole dollars in an amount, rounded down.
    pub fn floor_to_dollar(self) -> (floored: Cents)
        requires
            fits(self.0 - self.0 % 100),
        ensures
            floored.0 == 100 * (self.0 as int / 100),
            floored.0 % 100 == 0,
            floored.0 <= self.0 < floored.0 + 100,
    {
        let wide: i128 = self.0 as i128;
        let part: i128 = wide % 100;
        let down: i128 = if part < 0 {
            wide - part - 100
        } else {
            wide - part
        };
        Cents(down as i64)
    }
}

/// What the amounts come to.
pub open spec fn sum(amounts: Seq<Cents>) -> int
    decreases amounts.len(),
{
    if amounts.len() == 0 {
        0
    } else {
        sum(amounts.drop_last()) + amounts.last().0
    }
}

/// Whether every step of adding them up, in order, can be held.
pub open spec fn sums_fit(amounts: Seq<Cents>) -> bool {
    forall|n: int| 0 <= n <= amounts.len() ==> fits(#[trigger] sum(amounts.take(n)))
}

/// Add up amounts in order. `None` where the running total overflows.
pub fn total(amounts: &[Cents]) -> (total: Option<Cents>)
    ensures
        match total {
            Some(cents) => sums_fit(amounts@) && cents.0 == sum(amounts@),
            None => !sums_fit(amounts@),
        },
{
    let mut running: i64 = 0;
    let mut at: usize = 0;
    proof {
        assert(amounts@.take(0) =~= Seq::<Cents>::empty());
    }
    while at < amounts.len()
        invariant
            at <= amounts@.len(),
            running == sum(amounts@.take(at as int)),
            forall|n: int| 0 <= n <= at ==> fits(#[trigger] sum(amounts@.take(n))),
        decreases amounts@.len() - at,
    {
        proof {
            assert(amounts@.take(at + 1).drop_last() =~= amounts@.take(at as int));
        }
        match running.checked_add(amounts[at].0) {
            None => {
                proof {
                    assert(!fits(sum(amounts@.take(at + 1))));
                }
                return None;
            },
            Some(next) => {
                running = next;
            },
        }
        at = at + 1;
    }
    proof {
        assert(amounts@.take(amounts@.len() as int) =~= amounts@);
    }
    Some(Cents(running))
}

/// A whole number with a comma before every group of three digits.
pub open spec fn grouped(n: int) -> Seq<char>
    decreases n,
{
    if n < 1000 {
        decimal(n)
    } else {
        grouped(n / 1000).push(',') + three_digits(n % 1000)
    }
}

pub open spec fn three_digits(n: int) -> Seq<char> {
    seq![digit_char(n / 100), digit_char(n / 10 % 10), digit_char(n % 10)]
}

pub open spec fn two_digits(n: int) -> Seq<char> {
    seq![digit_char(n / 10), digit_char(n % 10)]
}

/// The size of an amount, its sign put aside.
pub open spec fn size(amount: int) -> int {
    if amount < 0 {
        -amount
    } else {
        amount
    }
}

/// An amount as a screen prints it: `1,200.00`, and `-25.00` below zero.
pub open spec fn figure(cents: Cents) -> Seq<char> {
    let sign = if cents.0 < 0 {
        seq!['-']
    } else {
        Seq::<char>::empty()
    };
    sign + grouped(size(cents.0 as int) / 100).push('.') + two_digits(size(cents.0 as int) % 100)
}

/// The dollars of an amount as a screen prints them, the cents dropped:
/// `1,200`.
pub open spec fn whole_figure(cents: Cents) -> Seq<char> {
    let sign = if cents.0 <= -100 {
        seq!['-']
    } else {
        Seq::<char>::empty()
    };
    sign + grouped(size(cents.0 as int) / 100)
}

fn push_small(text: &mut String, n: u64)
    requires
        n < 10,
    ensures
        final(text)@ == old(text)@.push(digit_char(n as int)),
{
    let digit = write_number(n);
    proof {
        assert(old(text)@ + digit@ =~= old(text)@.push(digit_char(n as int)));
    }
    text.append(digit.as_str());
}

fn write_grouped(n: u64) -> (text: String)
    ensures
        text@ == grouped(n as int),
    decreases n,
{
    if n < 1000 {
        write_number(n)
    } else {
        let mut text = write_grouped(n / 1000);
        text.push(',');
        push_small(&mut text, n % 1000 / 100);
        push_small(&mut text, n % 1000 / 10 % 10);
        push_small(&mut text, n % 1000 % 10);
        proof {
            assert(text@ =~= grouped(n as int));
        }
        text
    }
}

fn size_of(cents: Cents) -> (n: u64)
    ensures
        n == size(cents.0 as int),
{
    let wide: i128 = cents.0 as i128;
    if wide < 0 {
        (-wide) as u64
    } else {
        wide as u64
    }
}

/// An amount as a screen prints it.
pub fn write_figure(cents: Cents) -> (text: String)
    ensures
        text@ == figure(cents),
{
    let n: u64 = size_of(cents);
    let mut text = String::new();
    if cents.0 < 0 {
        text.push('-');
    }
    text.append(write_grouped(n / 100).as_str());
    text.push('.');
    push_small(&mut text, n % 100 / 10);
    push_small(&mut text, n % 100 % 10);
    proof {
        assert(text@ =~= figure(cents));
    }
    text
}

/// The dollars of an amount as a screen prints them.
pub fn write_whole_figure(cents: Cents) -> (text: String)
    ensures
        text@ == whole_figure(cents),
{
    let n: u64 = size_of(cents);
    let mut text = String::new();
    if cents.0 <= -100 {
        text.push('-');
    }
    text.append(write_grouped(n / 100).as_str());
    proof {
        assert(text@ =~= whole_figure(cents));
    }
    text
}

/// The step a taxed figure is carried up to, in cents.
pub const TAX_INCREMENT: i64 = 500;

/// `base` with `rate` on top, carried up to the next multiple of
/// [`TAX_INCREMENT`].
pub open spec fn taxed(base: int, rate: int) -> int {
    TAX_INCREMENT * -((-(base * (10_000 + rate))) / (10_000 * TAX_INCREMENT))
}

/// What a figure comes to with tax on it. `None` where that is more than an
/// amount can hold.
pub fn tax(base: Cents, rate: BasisPoints) -> (with_tax: Option<Cents>)
    ensures
        match with_tax {
            Some(cents) => cents.0 == taxed(base.0 as int, rate.0 as int),
            None => !fits(taxed(base.0 as int, rate.0 as int)),
        },
{
    let factor: i128 = 10_000 + rate.0 as i128;
    let wide: i128 = base.0 as i128;
    proof {
        assert(-0x4fff_ffff_ffff_ffff_ffff_ffff_ffff_ffff < wide * factor
            < 0x4fff_ffff_ffff_ffff_ffff_ffff_ffff_ffff) by (nonlinear_arith)
            requires
                -0x8000_0000_0000_0000 <= wide <= 0x7fff_ffff_ffff_ffff,
                -0x7fff_ffff_ffff_d8f0 <= factor <= 0x8000_0000_0000_270f,
        ;
    }
    let scaled: i128 = wide * factor;
    let steps: i128 = scaled / 5_000_000;
    let up: i128 = if scaled % 5_000_000 > 0 {
        steps + 1
    } else {
        steps
    };
    let amount: i128 = 500 * up;
    if amount < i64::MIN as i128 || amount > i64::MAX as i128 {
        None
    } else {
        Some(Cents(amount as i64))
    }
}

/// Digits and commas, and nothing else.
spec fn is_grouped(text: Seq<char>) -> bool {
    forall|i: int| 0 <= i < text.len() ==> is_digit(#[trigger] text[i]) || text[i] == ','
}

proof fn lemma_no_commas(text: Seq<char>)
    requires
        all_digits(text),
    ensures
        without_commas(text) == text,
    decreases text.len(),
{
    if text.len() > 0 {
        assert(is_digit(text[text.len() - 1]));
        lemma_no_commas(text.drop_last());
        assert(without_commas(text) =~= text);
    }
}

proof fn lemma_without_commas_joins(left: Seq<char>, right: Seq<char>)
    ensures
        without_commas(left + right) == without_commas(left) + without_commas(right),
    decreases right.len(),
{
    if right.len() == 0 {
        assert(left + right =~= left);
        assert(without_commas(left) + without_commas(right) =~= without_commas(left));
    } else {
        assert((left + right).drop_last() =~= left + right.drop_last());
        lemma_without_commas_joins(left, right.drop_last());
        assert(without_commas(left + right) =~= without_commas(left) + without_commas(right));
    }
}

proof fn lemma_grouped(n: int)
    requires
        n >= 0,
    ensures
        is_grouped(grouped(n)),
        grouped(n).len() > 0,
        all_digits(without_commas(grouped(n))),
        without_commas(grouped(n)).len() > 0,
        number(without_commas(grouped(n))) == n,
    decreases n,
{
    if n < 1000 {
        crate::text::a_written_number_reads_back(n);
        lemma_no_commas(decimal(n));
    } else {
        lemma_grouped(n / 1000);
        let head = grouped(n / 1000);
        let tail = three_digits(n % 1000);
        let digits = without_commas(head);
        assert(all_digits(tail));
        lemma_no_commas(tail);
        lemma_without_commas_joins(head.push(','), tail);
        assert(head.push(',').drop_last() =~= head);
        assert(without_commas(grouped(n)) == digits + tail);
        assert((digits + tail).drop_last().drop_last().drop_last() =~= digits);
        assert((digits + tail).drop_last().last() == tail[1]);
        assert((digits + tail).drop_last().drop_last().last() == tail[0]);
        reveal_with_fuel(number, 4);
        assert forall|i: int| 0 <= i < (digits + tail).len() implies is_digit(
            #[trigger] (digits + tail)[i],
        ) by {
            if i < digits.len() {
                assert(is_digit(digits[i]));
            } else {
                assert(is_digit(tail[i - digits.len()]));
            }
        }
        assert forall|i: int| 0 <= i < grouped(n).len() implies is_digit(#[trigger] grouped(n)[i])
            || grouped(n)[i] == ',' by {
            if i < head.len() {
                assert(is_digit(head[i]) || head[i] == ',');
            } else if i > head.len() {
                assert(is_digit(tail[i - head.len() - 1]));
            }
        }
    }
}

/// An amount reads back as itself from the figure a form is prefilled with.
pub proof fn a_written_figure_reads_back(cents: Cents)
    ensures
        reads_amount(figure(cents)) == Some(cents.0 as int),
{
    let n = size(cents.0 as int);
    let whole = grouped(n / 100);
    let part = two_digits(n % 100);
    let body = whole.push('.') + part;
    lemma_grouped(n / 100);
    assert(is_digit(whole[0]) || whole[0] == ',');
    assert(body[0] == whole[0]);
    assert(figure(cents) =~= (if cents.0 < 0 {
        seq!['-'] + body
    } else {
        body
    }));
    assert(past(figure(cents), '-') =~= body);
    assert(past(body, '$') == body);
    assert forall|i: int| 0 <= i < whole.len() implies #[trigger] body[i] != '.' by {
        assert(is_digit(whole[i]) || whole[i] == ',');
    }
    lemma_point_in(body, whole.len() as int);
    assert(body.take(whole.len() as int) =~= whole);
    assert(body.skip((whole.len() + 1) as int) =~= part);
    assert(all_digits(part));
    lemma_two_digits(part);
}

/// Adding up starts from nothing, and each amount adds itself and no more.
pub proof fn every_amount_counts_once(amounts: Seq<Cents>, next: Cents)
    ensures
        sum(Seq::<Cents>::empty()) == 0,
        sum(amounts.push(next)) == sum(amounts) + next.0,
{
    assert(amounts.push(next).drop_last() =~= amounts);
}

/// Amounts come to the same whatever is added up first.
pub proof fn amounts_add_up_in_parts(one: Seq<Cents>, other: Seq<Cents>)
    ensures
        sum(one + other) == sum(one) + sum(other),
    decreases other.len(),
{
    if other.len() == 0 {
        assert(one + other =~= one);
    } else {
        amounts_add_up_in_parts(one, other.drop_last());
        assert((one + other).drop_last() =~= one + other.drop_last());
    }
}

/// Tax is never short of what the rate asks, is never a whole step over it,
/// and lands on a step.
pub proof fn tax_is_the_next_step_up(base: int, rate: int)
    ensures
        taxed(base, rate) % 500 == 0,
        10_000 * taxed(base, rate) >= base * (10_000 + rate),
        10_000 * (taxed(base, rate) - 500) < base * (10_000 + rate),
{
    let scaled = base * (10_000 + rate);
    let steps = (-scaled) / 5_000_000;
    assert(5_000_000 * steps <= -scaled < 5_000_000 * steps + 5_000_000);
    assert(taxed(base, rate) == 500 * (-steps));
    assert((500 * (-steps)) % 500 == 0);
}

/// A figure with tax on it never falls as the base or the rate rises.
pub proof fn more_is_taxed_to_no_less(base: int, more: int, rate: int, higher: int)
    requires
        0 <= base <= more,
        0 <= rate <= higher,
    ensures
        taxed(base, rate) <= taxed(more, higher),
{
    assert(base * (10_000 + rate) <= more * (10_000 + higher)) by (nonlinear_arith)
        requires
            0 <= base <= more,
            0 <= rate <= higher,
    ;
    tax_is_the_next_step_up(base, rate);
    tax_is_the_next_step_up(more, higher);
}

proof fn lemma_point_past(one: Seq<char>, other: Seq<char>)
    requires
        !one.contains('.'),
    ensures
        point_in(one + other) == one.len() + point_in(other),
        0 <= point_in(other) <= other.len(),
    decreases one.len() + other.len(),
{
    if one.len() == 0 {
        assert(one + other =~= other);
        if other.len() > 0 {
            lemma_point_past(one, other.drop_first());
        }
    } else {
        assert(one[0] != '.');
        assert((one + other).drop_first() =~= one.drop_first() + other);
        assert(!one.drop_first().contains('.')) by {
            if one.drop_first().contains('.') {
                let at = choose|i: int|
                    0 <= i < one.drop_first().len() && one.drop_first()[i] == '.';
                assert(one[at + 1] == '.');
            }
        }
        lemma_point_past(one.drop_first(), other);
    }
}

/// A comma anywhere before the decimal point means nothing.
pub proof fn a_comma_means_nothing(one: Seq<char>, other: Seq<char>)
    requires
        !one.contains('.'),
    ensures
        reads_figure(one + seq![','] + other) == reads_figure(one + other),
{
    let comma = one + seq![','];
    let with = comma + other;
    let without = one + other;
    assert(!comma.contains('.')) by {
        if comma.contains('.') {
            let at = choose|i: int| 0 <= i < comma.len() && comma[i] == '.';
            assert(at < one.len() ==> one[at] == '.');
        }
    }
    lemma_point_past(one, other);
    lemma_point_past(comma, other);
    let point = point_in(other);
    assert(with.take(point_in(with)) =~= comma + other.take(point));
    assert(without.take(point_in(without)) =~= one + other.take(point));
    if point < other.len() {
        assert(with.skip(point_in(with) + 1) =~= without.skip(point_in(without) + 1));
    }
    lemma_without_commas_joins(comma, other.take(point));
    lemma_without_commas_joins(one, other.take(point));
    assert(comma.drop_last() =~= one);
}

/// The dollars before the point count a hundred each, and past it two digits
/// are cents and one alone is tens of them. Either part can be left out, not
/// both.
pub proof fn a_figure_reads_by_its_parts(dollars: Seq<char>, cents: Seq<char>)
    requires
        all_digits(dollars),
        all_digits(cents),
    ensures
        dollars.len() > 0 ==> reads_figure(dollars) == Some(100 * number(dollars)),
        cents.len() == 1 ==> reads_figure(dollars + seq!['.'] + cents) == Some(
            100 * number(dollars) + 10 * number(cents),
        ),
        cents.len() == 2 ==> reads_figure(dollars + seq!['.'] + cents) == Some(
            100 * number(dollars) + number(cents),
        ),
        cents.len() == 0 || cents.len() > 2 ==> reads_figure(dollars + seq!['.'] + cents) is None,
        reads_figure(Seq::<char>::empty()) is None,
{
    assert(!dollars.contains('.')) by {
        if dollars.contains('.') {
            let at = choose|i: int| 0 <= i < dollars.len() && dollars[i] == '.';
            assert(is_digit(dollars[at]));
        }
    }
    lemma_no_commas(dollars);
    let none = Seq::<char>::empty();
    lemma_point_past(dollars, none);
    assert(dollars + none =~= dollars);
    assert(dollars.take(dollars.len() as int) =~= dollars);
    let rest = seq!['.'] + cents;
    let text = dollars + seq!['.'] + cents;
    assert(text =~= dollars + rest);
    lemma_point_past(dollars, rest);
    assert(rest[0] == '.');
    assert(text.take(dollars.len() as int) =~= dollars);
    assert(text.skip(dollars.len() as int + 1) =~= cents);
}

/// A minus sign in front turns an amount over and a dollar sign in front says
/// nothing, in that order.
pub proof fn signs_stand_in_front(text: Seq<char>)
    requires
        text.len() > 0,
        text[0] != '-',
        text[0] != '$',
    ensures
        match reads_figure(text) {
            Some(cents) => {
                &&& (fits(cents) ==> reads_amount(text) == Some(cents))
                &&& (fits(cents) ==> reads_amount(seq!['$'] + text) == Some(cents))
                &&& (fits(-cents) ==> reads_amount(seq!['-'] + text) == Some(-cents))
                &&& (fits(-cents) ==> reads_amount(seq!['-', '$'] + text) == Some(-cents))
                &&& (!fits(cents) ==> reads_amount(text) is None)
            },
            None => reads_amount(text) is None && reads_amount(seq!['$'] + text) is None
                && reads_amount(seq!['-'] + text) is None,
        },
        reads_amount(seq!['$', '-'] + text) is None,
{
    assert((seq!['$'] + text).skip(1) =~= text);
    assert((seq!['-'] + text).skip(1) =~= text);
    assert((seq!['-', '$'] + text).skip(1) =~= seq!['$'] + text);
    let odd = seq!['$', '-'] + text;
    let rest = seq!['-'] + text;
    assert(odd.skip(1) =~= rest);
    only_figures_are_read(rest, 0);
}

proof fn lemma_kept_but_commas(text: Seq<char>, at: int)
    requires
        0 <= at < text.len(),
        all_digits(without_commas(text)),
    ensures
        is_digit(text[at]) || text[at] == ',',
    decreases text.len(),
{
    let kept = without_commas(text);
    if text.last() != ',' {
        assert(is_digit(kept[kept.len() - 1]));
        assert(kept.drop_last() =~= without_commas(text.drop_last()));
        assert forall|i: int| 0 <= i < kept.len() - 1 implies is_digit(
            #[trigger] without_commas(text.drop_last())[i],
        ) by {
            assert(kept[i] == without_commas(text.drop_last())[i]);
        }
    }
    if at < text.len() - 1 {
        lemma_kept_but_commas(text.drop_last(), at);
        assert(text.drop_last()[at] == text[at]);
    }
}

/// A text that holds anything but digits, commas and a point is no figure.
pub proof fn only_figures_are_read(text: Seq<char>, at: int)
    requires
        0 <= at < text.len(),
        !is_digit(text[at]),
        text[at] != ',',
        text[at] != '.',
    ensures
        reads_figure(text) is None,
{
    let none = Seq::<char>::empty();
    assert(none + text =~= text);
    lemma_point_past(none, text);
    let point = point_in(text);
    if reads_figure(text) is Some {
        if at < point {
            lemma_kept_but_commas(text.take(point), at);
            assert(text.take(point)[at] == text[at]);
        } else if at > point {
            assert(text.skip(point + 1)[at - point - 1] == text[at]);
        } else {
            lemma_point_stops(text);
        }
    }
}

proof fn lemma_point_stops(text: Seq<char>)
    ensures
        0 <= point_in(text) <= text.len(),
        point_in(text) < text.len() ==> text[point_in(text)] == '.',
    decreases text.len(),
{
    if text.len() > 0 && text[0] != '.' {
        lemma_point_stops(text.drop_first());
    }
}

/// A figure ends in a point and two digits of cents; the whole figure is what
/// stands before that point, and reads as the dollars alone.
pub proof fn a_figure_ends_in_its_cents(cents: Cents)
    ensures
        ({
            let text = figure(cents);
            let size = if cents.0 < 0 {
                -cents.0 as int
            } else {
                cents.0 as int
            };
            &&& text.len() > 3
            &&& text[text.len() - 3] == '.'
            &&& number(text.skip(text.len() - 2)) == size % 100
            &&& (size >= 100 || cents.0 >= 0 ==> text.take(text.len() - 3) == whole_figure(cents))
            &&& reads_amount(whole_figure(cents)) == Some(
                if cents.0 < 0 {
                    -(100 * (size / 100))
                } else {
                    100 * (size / 100)
                },
            )
        }),
{
    let text = figure(cents);
    let n = size(cents.0 as int);
    let whole = grouped(n / 100);
    let part = two_digits(n % 100);
    lemma_grouped(n / 100);
    assert(all_digits(part));
    assert(text.skip(text.len() - 2) =~= part);
    lemma_two_digits(part);
    assert(is_digit(whole[0]) || whole[0] == ',');
    if n >= 100 || cents.0 >= 0 {
        assert(text.take(text.len() - 3) =~= whole_figure(cents));
    }
    assert(!whole.contains('.')) by {
        if whole.contains('.') {
            let at = choose|i: int| 0 <= i < whole.len() && whole[i] == '.';
            assert(is_digit(whole[at]) || whole[at] == ',');
        }
    }
    let none = Seq::<char>::empty();
    lemma_point_past(whole, none);
    assert(whole + none =~= whole);
    assert(whole.take(whole.len() as int) =~= whole);
    assert(none + whole =~= whole);
    signs_stand_in_front(whole);
}

/// Every three digits of dollars are set off by a comma, counted from the
/// point.
pub proof fn thousands_are_set_off(dollars: int)
    requires
        dollars >= 0,
    ensures
        dollars < 1000 ==> !grouped(dollars).contains(','),
        dollars >= 1000 ==> {
            let text = grouped(dollars);
            &&& text.len() > 4
            &&& text[text.len() - 4] == ','
            &&& all_digits(text.skip(text.len() - 3))
            &&& number(text.skip(text.len() - 3)) == dollars % 1000
            &&& text.take(text.len() - 4) == grouped(dollars / 1000)
        },
{
    if dollars < 1000 {
        crate::text::a_written_number_reads_back(dollars);
        let text = grouped(dollars);
        if text.contains(',') {
            let at = choose|i: int| 0 <= i < text.len() && text[i] == ',';
            assert(is_digit(text[at]));
        }
    } else {
        lemma_grouped(dollars / 1000);
        let text = grouped(dollars);
        let tail = three_digits(dollars % 1000);
        assert(text.skip(text.len() - 3) =~= tail);
        assert(text.take(text.len() - 4) =~= grouped(dollars / 1000));
        reveal_with_fuel(number, 4);
        assert(tail.drop_last().drop_last().drop_last() =~= Seq::<char>::empty());
        assert(tail.drop_last().drop_last().last() == tail[0]);
        assert(tail.drop_last().last() == tail[1]);
    }
}

} // verus!
