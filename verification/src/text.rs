//! Text: trimming and numbers, and the buffer every typed field is built on.

use crate::key::{is_bare, KeyCode, KeyEvent};
use vstd::prelude::*;
use vstd::string::*;

verus! {

/// `String::push` puts one character on the end.
pub assume_specification[ String::push ](text: &mut String, c: char)
    ensures
        final(text)@ == old(text)@.push(c),
;

/// The characters with the Unicode property `White_Space`.
pub open spec fn white_space(c: char) -> bool {
    ||| '\u{9}' <= c <= '\u{d}'
    ||| c == ' '
    ||| c == '\u{85}'
    ||| c == '\u{a0}'
    ||| c == '\u{1680}'
    ||| '\u{2000}' <= c <= '\u{200a}'
    ||| c == '\u{2028}'
    ||| c == '\u{2029}'
    ||| c == '\u{202f}'
    ||| c == '\u{205f}'
    ||| c == '\u{3000}'
}

pub fn is_white_space(c: char) -> (white: bool)
    ensures
        white == white_space(c),
{
    ('\u{9}' <= c && c <= '\u{d}') || c == ' ' || c == '\u{85}' || c == '\u{a0}' || c == '\u{1680}'
        || ('\u{2000}' <= c && c <= '\u{200a}') || c == '\u{2028}' || c == '\u{2029}' || c
        == '\u{202f}' || c == '\u{205f}' || c == '\u{3000}'
}

/// How many white characters `text` opens with.
pub open spec fn leading_white(text: Seq<char>) -> int
    decreases text.len(),
{
    if text.len() > 0 && white_space(text[0]) {
        1 + leading_white(text.drop_first())
    } else {
        0
    }
}

/// How many white characters `text` ends with.
pub open spec fn trailing_white(text: Seq<char>) -> int
    decreases text.len(),
{
    if text.len() > 0 && white_space(text.last()) {
        1 + trailing_white(text.drop_last())
    } else {
        0
    }
}

/// `text` without the white characters at either end.
pub open spec fn trimmed(text: Seq<char>) -> Seq<char> {
    let rest = text.skip(leading_white(text));
    rest.take(rest.len() - trailing_white(rest))
}

proof fn lemma_leading_white(text: Seq<char>, at: int)
    requires
        0 <= at <= text.len(),
        forall|i: int| 0 <= i < at ==> white_space(#[trigger] text[i]),
        at < text.len() ==> !white_space(text[at]),
    ensures
        leading_white(text) == at,
    decreases at,
{
    if at > 0 {
        assert(white_space(text[0]));
        assert forall|i: int| 0 <= i < at - 1 implies white_space(
            #[trigger] text.drop_first()[i],
        ) by {
            assert(text.drop_first()[i] == text[i + 1]);
        }
        lemma_leading_white(text.drop_first(), at - 1);
    }
}

proof fn lemma_trailing_white(text: Seq<char>, kept: int)
    requires
        0 <= kept <= text.len(),
        forall|i: int| kept <= i < text.len() ==> white_space(#[trigger] text[i]),
        kept > 0 ==> !white_space(text[kept - 1]),
    ensures
        trailing_white(text) == text.len() - kept,
    decreases text.len(),
{
    if kept < text.len() {
        assert(white_space(text[text.len() - 1]));
        lemma_trailing_white(text.drop_last(), kept);
    }
}

/// `text` without the white characters at either end.
pub fn trim(text: &str) -> (rest: &str)
    ensures
        rest@ == trimmed(text@),
{
    let len: usize = text.unicode_len();
    let mut start: usize = 0;
    while start < len && is_white_space(text.get_char(start))
        invariant
            start <= len,
            len == text@.len(),
            forall|i: int| 0 <= i < start ==> white_space(#[trigger] text@[i]),
        ensures
            start < len ==> !white_space(text@[start as int]),
        decreases len - start,
    {
        start = start + 1;
    }
    let mut end: usize = len;
    while end > start && is_white_space(text.get_char(end - 1))
        invariant
            start <= end <= len,
            len == text@.len(),
            forall|i: int| end <= i < len ==> white_space(#[trigger] text@[i]),
        ensures
            end > start ==> !white_space(text@[end - 1]),
        decreases end - start,
    {
        end = end - 1;
    }
    proof {
        lemma_leading_white(text@, start as int);
        let rest = text@.skip(start as int);
        assert forall|i: int| end - start <= i < rest.len() implies white_space(
            #[trigger] rest[i],
        ) by {
            assert(rest[i] == text@[start + i]);
        }
        lemma_trailing_white(rest, end - start);
        assert(trimmed(text@) =~= text@.subrange(start as int, end as int));
    }
    text.substring_char(start, end)
}

/// A text that neither opens nor ends with white space has none to trim.
pub proof fn nothing_to_trim(text: Seq<char>)
    requires
        text.len() > 0 ==> !white_space(text[0]) && !white_space(text.last()),
    ensures
        trimmed(text) == text,
{
    assert(text.skip(0) =~= text);
    assert(text.take(text.len() as int) =~= text);
}

/// A trimmed text has nothing left to trim.
pub proof fn trimming_twice_is_trimming_once(text: Seq<char>)
    ensures
        trimmed(trimmed(text)) == trimmed(text),
{
    let rest = text.skip(leading_white(text));
    lemma_leading_stops(text);
    lemma_trailing_bounds(rest);
    lemma_trailing_stops(rest);
    let kept = trimmed(text);
    if kept.len() > 0 {
        assert(kept[0] == rest[0]);
        assert(kept.last() == rest[rest.len() - trailing_white(rest) - 1]);
    }
    nothing_to_trim(kept);
}

proof fn lemma_leading_stops(text: Seq<char>)
    ensures
        0 <= leading_white(text) <= text.len(),
        leading_white(text) < text.len() ==> !white_space(text[leading_white(text)]),
    decreases text.len(),
{
    if text.len() > 0 && white_space(text[0]) {
        lemma_leading_stops(text.drop_first());
    }
}

proof fn lemma_trailing_stops(text: Seq<char>)
    ensures
        trailing_white(text) < text.len() ==> !white_space(
            text[text.len() - trailing_white(text) - 1],
        ),
    decreases text.len(),
{
    lemma_trailing_bounds(text);
    if text.len() > 0 && white_space(text.last()) {
        lemma_trailing_stops(text.drop_last());
        lemma_trailing_bounds(text.drop_last());
    }
}

/// Whether two texts are the same.
pub fn same_text(one: &str, other: &str) -> (same: bool)
    ensures
        same == (one@ == other@),
{
    one.to_owned() == other.to_owned()
}

/// The text as a debugger prints it: in quotes, with whatever would not show
/// escaped.
pub uninterp spec fn quoted(text: Seq<char>) -> Seq<char>;

/// `str`'s `Debug` form, which [`quoted`] names: it depends on the text alone.
#[verifier::external_body]
pub(crate) fn quote(text: &str) -> (quote: String)
    ensures
        quote@ == quoted(text@),
{
    format!("{:?}", text)
}

/// A decimal digit.
pub open spec fn is_digit(c: char) -> bool {
    '0' <= c <= '9'
}

/// What a decimal digit counts.
pub open spec fn digit_value(c: char) -> int {
    c as int - '0' as int
}

/// The digit that counts `n`.
pub open spec fn digit_char(n: int) -> char {
    (('0' as int) + n) as char
}

pub open spec fn all_digits(text: Seq<char>) -> bool {
    forall|i: int| 0 <= i < text.len() ==> is_digit(#[trigger] text[i])
}

/// The number a run of digits writes.
pub open spec fn number(text: Seq<char>) -> int
    decreases text.len(),
{
    if text.len() == 0 {
        0
    } else {
        10 * number(text.drop_last()) + digit_value(text.last())
    }
}

/// A number written in decimal, with no leading zero but its own.
pub open spec fn decimal(n: int) -> Seq<char>
    decreases n,
{
    if n < 10 {
        seq![digit_char(n)]
    } else {
        decimal(n / 10).push(digit_char(n % 10))
    }
}

fn digit_of(n: u64) -> (c: char)
    requires
        n < 10,
    ensures
        c == digit_char(n as int),
{
    match n {
        0 => '0',
        1 => '1',
        2 => '2',
        3 => '3',
        4 => '4',
        5 => '5',
        6 => '6',
        7 => '7',
        8 => '8',
        _ => '9',
    }
}

fn value_of(c: char) -> (n: Option<u32>)
    ensures
        n == (if is_digit(c) {
            Some(digit_value(c) as u32)
        } else {
            None
        }),
{
    if '0' <= c && c <= '9' {
        Some(c as u32 - '0' as u32)
    } else {
        None
    }
}

/// A number written in decimal.
pub fn write_number(n: u64) -> (text: String)
    ensures
        text@ == decimal(n as int),
    decreases n,
{
    if n < 10 {
        let mut text = String::new();
        text.push(digit_of(n));
        proof {
            assert(text@ =~= decimal(n as int));
        }
        text
    } else {
        let mut text = write_number(n / 10);
        text.push(digit_of(n % 10));
        text
    }
}

/// Writing a number and reading it back is that number.
pub proof fn a_written_number_reads_back(n: int)
    requires
        n >= 0,
    ensures
        all_digits(decimal(n)),
        decimal(n).len() > 0,
        number(decimal(n)) == n,
    decreases n,
{
    if n < 10 {
        assert(decimal(n).drop_last() =~= Seq::<char>::empty());
        assert(number(decimal(n).drop_last()) == 0);
    } else {
        a_written_number_reads_back(n / 10);
        assert(decimal(n).drop_last() =~= decimal(n / 10));
    }
}

/// The digits of an unsigned number, past the plus sign one may be written
/// with.
pub open spec fn past_plus(text: Seq<char>) -> Seq<char> {
    if text.len() > 0 && text[0] == '+' {
        text.skip(1)
    } else {
        text
    }
}

/// What `text` reads as an unsigned number no greater than `limit`: digits
/// and nothing else, but for one plus sign ahead of them.
pub open spec fn reads_unsigned(text: Seq<char>, limit: int) -> Option<int> {
    let digits = past_plus(text);
    if digits.len() > 0 && all_digits(digits) && number(digits) <= limit {
        Some(number(digits))
    } else {
        None
    }
}

/// Read an unsigned number, the way the standard library reads a `u32`.
pub fn read_u32(text: &str) -> (read: Option<u32>)
    ensures
        read is Some <==> reads_unsigned(text@, u32::MAX as int) is Some,
        read is Some ==> reads_unsigned(text@, u32::MAX as int) == Some(read->0 as int),
{
    let len: usize = text.unicode_len();
    let start: usize = if len > 0 && text.get_char(0) == '+' {
        1
    } else {
        0
    };
    let ghost digits = past_plus(text@);
    proof {
        assert(digits =~= text@.skip(start as int));
    }
    if start == len {
        return None;
    }
    let mut total: u64 = 0;
    let mut over: bool = false;
    let mut at: usize = start;
    while at < len
        invariant
            start <= at <= len,
            len == text@.len(),
            digits == text@.skip(start as int),
            digits == past_plus(text@),
            all_digits(digits.take(at - start)),
            over ==> number(digits.take(at - start)) > u32::MAX,
            !over ==> total == number(digits.take(at - start)) && total <= u32::MAX,
        decreases len - at,
    {
        let c: char = text.get_char(at);
        let ghost before = digits.take(at - start);
        let ghost upto = digits.take(at + 1 - start);
        proof {
            assert(digits[at - start] == c);
            assert(upto.drop_last() =~= before);
            assert(upto.last() == c);
        }
        match value_of(c) {
            None => {
                proof {
                    assert(!is_digit(digits[at - start]));
                }
                return None;
            },
            Some(d) => {
                proof {
                    assert forall|i: int| 0 <= i < upto.len() implies is_digit(
                        #[trigger] upto[i],
                    ) by {
                        if i < before.len() {
                            assert(before[i] == upto[i]);
                        }
                    }
                }
                if !over {
                    total = 10 * total + d as u64;
                    if total > u32::MAX as u64 {
                        over = true;
                    }
                }
            },
        }
        at = at + 1;
    }
    proof {
        assert(digits.take(len - start) =~= digits);
    }
    if over {
        None
    } else {
        Some(total as u32)
    }
}

/// Why a text is not a whole number.
#[derive(Copy, Clone, Debug, PartialEq, Eq, Structural)]
pub enum IntFault {
    Empty,
    InvalidDigit,
    TooLarge,
    TooSmall,
}

/// The number a run of digits writes under a sign, read from the left, or the
/// first thing wrong with it.
pub open spec fn scanned(digits: Seq<char>, negative: bool) -> Result<int, IntFault>
    decreases digits.len(),
{
    if digits.len() == 0 {
        Ok(0)
    } else {
        match scanned(digits.drop_last(), negative) {
            Err(fault) => Err(fault),
            Ok(so_far) => {
                let next = if negative {
                    10 * so_far - digit_value(digits.last())
                } else {
                    10 * so_far + digit_value(digits.last())
                };
                if !is_digit(digits.last()) {
                    Err(IntFault::InvalidDigit)
                } else if next > i64::MAX {
                    Err(IntFault::TooLarge)
                } else if next < i64::MIN {
                    Err(IntFault::TooSmall)
                } else {
                    Ok(next)
                }
            },
        }
    }
}

/// What `text` reads as a signed number: one sign at most, then digits.
pub open spec fn reads_signed(text: Seq<char>) -> Result<int, IntFault> {
    if text.len() == 0 {
        Err(IntFault::Empty)
    } else if text[0] == '-' || text[0] == '+' {
        if text.len() == 1 {
            Err(IntFault::InvalidDigit)
        } else {
            scanned(text.skip(1), text[0] == '-')
        }
    } else {
        scanned(text, false)
    }
}

proof fn lemma_scan_stops(digits: Seq<char>, at: int, negative: bool)
    requires
        0 <= at <= digits.len(),
        scanned(digits.take(at), negative) is Err,
    ensures
        scanned(digits, negative) == scanned(digits.take(at), negative),
    decreases digits.len() - at,
{
    if at < digits.len() {
        assert(digits.take(at + 1).drop_last() =~= digits.take(at));
        lemma_scan_stops(digits, at + 1, negative);
    } else {
        assert(digits.take(at) =~= digits);
    }
}

/// Read a signed number, the way the standard library reads an `i64`.
pub fn read_i64(text: &str) -> (read: Result<i64, IntFault>)
    ensures
        match read {
            Ok(n) => reads_signed(text@) == Ok::<int, IntFault>(n as int),
            Err(fault) => reads_signed(text@) == Err::<int, IntFault>(fault),
        },
{
    let len: usize = text.unicode_len();
    if len == 0 {
        return Err(IntFault::Empty);
    }
    let first: char = text.get_char(0);
    let negative: bool = first == '-';
    let start: usize = if negative || first == '+' {
        1
    } else {
        0
    };
    if start == len {
        return Err(IntFault::InvalidDigit);
    }
    let ghost digits = text@.skip(start as int);
    proof {
        if start == 0 {
            assert(digits =~= text@);
        }
    }
    let mut total: i64 = 0;
    let mut at: usize = start;
    while at < len
        invariant
            start <= at <= len,
            len == text@.len(),
            digits == text@.skip(start as int),
            scanned(digits.take(at - start), negative) == Ok::<int, IntFault>(total as int),
            reads_signed(text@) == scanned(digits, negative),
        decreases len - at,
    {
        let c: char = text.get_char(at);
        let ghost upto = digits.take(at + 1 - start);
        proof {
            assert(digits[at - start] == c);
            assert(upto.drop_last() =~= digits.take(at - start));
            assert(upto.last() == c);
        }
        let fault: IntFault = match value_of(c) {
            None => IntFault::InvalidDigit,
            Some(d) => {
                let next: i128 = if negative {
                    10 * (total as i128) - d as i128
                } else {
                    10 * (total as i128) + d as i128
                };
                if next > i64::MAX as i128 {
                    IntFault::TooLarge
                } else if next < i64::MIN as i128 {
                    IntFault::TooSmall
                } else {
                    total = next as i64;
                    at = at + 1;
                    continue ;
                }
            },
        };
        proof {
            lemma_scan_stops(digits, at + 1 - start, negative);
        }
        return Err(fault);
    }
    proof {
        assert(digits.take(len - start) =~= digits);
    }
    Ok(total)
}

/// A line of text with a caret in it.
pub struct TextView {
    pub text: Seq<char>,
    /// How many characters lie before the caret.
    pub caret: int,
}

/// Where the word before `at` begins: past the white space just before `at`,
/// and past the characters before that.
pub open spec fn word_start(text: Seq<char>, at: int) -> int {
    let gap = at - trailing_white(text.take(at));
    gap - trailing_word(text.take(gap))
}

/// How many characters `text` ends with that are not white.
pub open spec fn trailing_word(text: Seq<char>) -> int
    decreases text.len(),
{
    if text.len() > 0 && !white_space(text.last()) {
        1 + trailing_word(text.drop_last())
    } else {
        0
    }
}

impl TextView {
    pub open spec fn valid(self) -> bool {
        0 <= self.caret <= self.text.len()
    }

    /// A line holding `text`, the caret past its end.
    pub open spec fn holding(text: Seq<char>) -> TextView {
        TextView { text, caret: text.len() as int }
    }

    pub open spec fn before(self) -> Seq<char> {
        self.text.take(self.caret)
    }

    pub open spec fn after(self) -> Seq<char> {
        self.text.skip(self.caret)
    }

    pub open spec fn inserted(self, c: char) -> TextView {
        TextView { text: self.before().push(c) + self.after(), caret: self.caret + 1 }
    }

    /// Without the characters from `from` up to the caret.
    pub open spec fn rubbed_from(self, from: int) -> TextView {
        TextView { text: self.text.take(from) + self.after(), caret: from }
    }

    /// Without the character before the caret.
    pub open spec fn rubbed_out(self) -> TextView {
        if self.caret > 0 {
            self.rubbed_from(self.caret - 1)
        } else {
            self
        }
    }

    /// Without the character under the caret.
    pub open spec fn deleted(self) -> TextView {
        if self.caret < self.text.len() {
            TextView { text: self.before() + self.text.skip(self.caret + 1), ..self }
        } else {
            self
        }
    }

    pub open spec fn cut_after(self) -> TextView {
        TextView { text: self.before(), ..self }
    }

    /// The caret one character along, backwards for a negative direction and
    /// forwards for a positive one, stopping at either end.
    pub open spec fn stepped(self, direction: int) -> TextView {
        if direction < 0 && self.caret > 0 {
            TextView { caret: self.caret - 1, ..self }
        } else if direction > 0 && self.caret < self.text.len() {
            TextView { caret: self.caret + 1, ..self }
        } else {
            self
        }
    }

    /// What an editing key leaves: a bare character is typed, `Backspace`
    /// rubs one out, and `Ctrl` with a letter moves the caret or deletes.
    /// Every other key leaves the line alone.
    pub open spec fn edited(self, key: KeyEvent) -> TextView {
        match key.code {
            KeyCode::Backspace => self.rubbed_out(),
            KeyCode::Char(c) => if key.bare() {
                self.inserted(c)
            } else if key.modifiers.alt {
                self
            } else if c == 'a' {
                TextView { caret: 0, ..self }
            } else if c == 'e' {
                TextView { caret: self.text.len() as int, ..self }
            } else if c == 'b' {
                self.stepped(-1)
            } else if c == 'f' {
                self.stepped(1)
            } else if c == 'w' {
                self.rubbed_from(word_start(self.text, self.caret))
            } else if c == 'u' {
                self.rubbed_from(0)
            } else if c == 'k' {
                self.cut_after()
            } else if c == 'd' {
                self.deleted()
            } else {
                self
            },
            _ => self,
        }
    }
}

/// A key that only moves the caret.
pub open spec fn is_motion(key: KeyEvent) -> bool {
    key.modifiers.control && !key.modifiers.alt && (key.code == KeyCode::Char('a') || key.code
        == KeyCode::Char('e') || key.code == KeyCode::Char('b') || key.code == KeyCode::Char('f'))
}

/// What an editing key did to a line.
#[derive(Copy, Clone, Debug, PartialEq, Eq, Structural)]
pub enum Edit {
    /// The text is not what it was.
    Changed,
    /// The key was the caret's.
    Moved,
    /// The key did nothing here.
    Ignored,
}

/// What a line reports for `key`: a change whenever the text is not what it
/// was, and otherwise whether the key was one that moves the caret.
pub open spec fn edit_of(line: TextView, key: KeyEvent) -> Edit {
    if line.edited(key).text != line.text {
        Edit::Changed
    } else if is_motion(key) {
        Edit::Moved
    } else {
        Edit::Ignored
    }
}

/// A line of text being typed: what it holds, and where the next character
/// lands.
#[derive(Debug)]
pub struct TextBuffer {
    text: String,
    caret: usize,
}

impl View for TextBuffer {
    type V = TextView;

    closed spec fn view(&self) -> TextView {
        TextView { text: self.text@, caret: self.caret as int }
    }
}

impl Clone for TextBuffer {
    fn clone(&self) -> (copy: TextBuffer)
        ensures
            copy@ == self@,
    {
        proof {
            use_type_invariant(self);
        }
        TextBuffer { text: self.text.clone(), caret: self.caret }
    }
}

impl TextBuffer {
    #[verifier::type_invariant]
    spec fn caret_in_text(self) -> bool {
        self.caret <= self.text@.len()
    }

    /// An empty line.
    pub fn new() -> (buffer: TextBuffer)
        ensures
            buffer@ == TextView::holding(Seq::empty()),
    {
        TextBuffer { text: String::new(), caret: 0 }
    }

    /// A line holding `value`, the caret past its end.
    pub fn holding(value: &str) -> (buffer: TextBuffer)
        ensures
            buffer@ == TextView::holding(value@),
    {
        let caret: usize = value.unicode_len();
        TextBuffer { text: value.to_owned(), caret }
    }

    pub fn value(&self) -> (value: &str)
        ensures
            value@ == self@.text,
            self@.valid(),
    {
        proof {
            use_type_invariant(self);
        }
        self.text.as_str()
    }

    /// How many characters lie before the caret.
    pub fn caret(&self) -> (caret: usize)
        ensures
            caret == self@.caret,
            self@.valid(),
    {
        proof {
            use_type_invariant(self);
        }
        self.caret
    }

    /// Replace the text, putting the caret at the end of what replaced it.
    pub fn set(&mut self, value: &str)
        ensures
            final(self)@ == TextView::holding(value@),
    {
        *self = TextBuffer::holding(value);
    }

    /// Type `c` where the caret is.
    pub fn insert(&mut self, c: char)
        ensures
            final(self)@ == old(self)@.inserted(c),
    {
        proof {
            use_type_invariant(&*self);
        }
        let len: usize = self.text.unicode_len();
        let mut text: String = self.text.substring_char(0, self.caret).to_owned();
        text.push(c);
        text.append(self.text.substring_char(self.caret, len));
        let grown: usize = text.unicode_len();
        proof {
            assert(grown == len + 1);
            assert(text@ =~= self@.inserted(c).text);
        }
        *self = TextBuffer { text, caret: self.caret + 1 };
    }

    /// Delete from `from` up to the caret.
    fn rub_from(&mut self, from: usize)
        requires
            from <= old(self)@.caret,
        ensures
            final(self)@ == old(self)@.rubbed_from(from as int),
    {
        proof {
            use_type_invariant(&*self);
        }
        let len: usize = self.text.unicode_len();
        let mut text: String = self.text.substring_char(0, from).to_owned();
        text.append(self.text.substring_char(self.caret, len));
        proof {
            assert(text@ =~= self@.rubbed_from(from as int).text);
        }
        *self = TextBuffer { text, caret: from };
    }

    /// Delete the character before the caret.
    pub fn backspace(&mut self)
        ensures
            final(self)@ == old(self)@.rubbed_out(),
    {
        if self.caret > 0 {
            let from: usize = self.caret - 1;
            self.rub_from(from);
        }
    }

    fn delete(&mut self)
        ensures
            final(self)@ == old(self)@.deleted(),
    {
        proof {
            use_type_invariant(&*self);
        }
        let len: usize = self.text.unicode_len();
        if self.caret < len {
            let mut text: String = self.text.substring_char(0, self.caret).to_owned();
            text.append(self.text.substring_char(self.caret + 1, len));
            proof {
                assert(text@ =~= self@.deleted().text);
            }
            *self = TextBuffer { text, caret: self.caret };
        }
    }

    fn cut_after(&mut self)
        ensures
            final(self)@ == old(self)@.cut_after(),
    {
        proof {
            use_type_invariant(&*self);
        }
        let text: String = self.text.substring_char(0, self.caret).to_owned();
        proof {
            assert(text@ =~= self@.before());
        }
        *self = TextBuffer { text, caret: self.caret };
    }

    /// Move the caret one character, backwards for a negative direction and
    /// forwards for a positive one.
    pub fn step(&mut self, direction: isize)
        ensures
            final(self)@ == old(self)@.stepped(direction as int),
    {
        proof {
            use_type_invariant(&*self);
        }
        if direction < 0 && self.caret > 0 {
            self.caret = self.caret - 1;
        } else if direction > 0 && self.caret < self.text.unicode_len() {
            self.caret = self.caret + 1;
        }
    }

    fn word_start(&self) -> (from: usize)
        ensures
            from == word_start(self@.text, self@.caret),
            from <= self@.caret,
    {
        proof {
            use_type_invariant(self);
        }
        let mut gap: usize = self.caret;
        while gap > 0 && is_white_space(self.text.get_char(gap - 1))
            invariant
                gap <= self.caret <= self.text@.len(),
                forall|i: int| gap <= i < self.caret ==> white_space(#[trigger] self.text@[i]),
            ensures
                gap > 0 ==> !white_space(self.text@[gap - 1]),
            decreases gap,
        {
            gap = gap - 1;
        }
        let mut from: usize = gap;
        while from > 0 && !is_white_space(self.text.get_char(from - 1))
            invariant
                from <= gap <= self.caret <= self.text@.len(),
                forall|i: int| from <= i < gap ==> !white_space(#[trigger] self.text@[i]),
            ensures
                from > 0 ==> white_space(self.text@[from - 1]),
            decreases from,
        {
            from = from - 1;
        }
        proof {
            lemma_trailing_white(self.text@.take(self.caret as int), gap as int);
            lemma_trailing_word(self.text@.take(gap as int), from as int);
        }
        from
    }
}

proof fn lemma_trailing_word(text: Seq<char>, kept: int)
    requires
        0 <= kept <= text.len(),
        forall|i: int| kept <= i < text.len() ==> !white_space(#[trigger] text[i]),
        kept > 0 ==> white_space(text[kept - 1]),
    ensures
        trailing_word(text) == text.len() - kept,
    decreases text.len(),
{
    if kept < text.len() {
        assert(!white_space(text[text.len() - 1]));
        lemma_trailing_word(text.drop_last(), kept);
    }
}

proof fn lemma_rubbing_shortens(line: TextView, from: int)
    requires
        line.valid(),
        0 <= from <= line.caret,
    ensures
        line.rubbed_from(from).text.len() == line.text.len() - (line.caret - from),
        from == line.caret ==> line.rubbed_from(from) == line,
{
    assert(line.rubbed_from(line.caret).text =~= line.text);
}

/// Answer an editing key, and report what it did.
pub fn edit_key(buffer: &mut TextBuffer, key: KeyEvent) -> (edit: Edit)
    ensures
        final(buffer)@ == old(buffer)@.edited(key),
        edit == edit_of(old(buffer)@, key),
{
    let at: usize = buffer.caret();
    let len: usize = buffer.value().unicode_len();
    let ghost line = buffer@;
    match key.code {
        KeyCode::Backspace => {
            proof {
                if at > 0 {
                    lemma_rubbing_shortens(line, at - 1);
                }
            }
            buffer.backspace();
            if at > 0 {
                Edit::Changed
            } else {
                Edit::Ignored
            }
        },
        KeyCode::Char(c) => {
            if is_bare(key) {
                proof {
                    assert(line.inserted(c).text.len() == line.text.len() + 1);
                }
                buffer.insert(c);
                Edit::Changed
            } else if key.modifiers.alt {
                Edit::Ignored
            } else if c == 'a' {
                buffer.caret = 0;
                Edit::Moved
            } else if c == 'e' {
                buffer.caret = len;
                Edit::Moved
            } else if c == 'b' {
                buffer.step(-1);
                Edit::Moved
            } else if c == 'f' {
                buffer.step(1);
                Edit::Moved
            } else if c == 'w' {
                let from: usize = buffer.word_start();
                proof {
                    lemma_rubbing_shortens(line, from as int);
                }
                buffer.rub_from(from);
                if from < at {
                    Edit::Changed
                } else {
                    Edit::Ignored
                }
            } else if c == 'u' {
                proof {
                    lemma_rubbing_shortens(line, 0);
                }
                buffer.rub_from(0);
                if at > 0 {
                    Edit::Changed
                } else {
                    Edit::Ignored
                }
            } else if c == 'k' {
                proof {
                    if at == len {
                        assert(line.before() =~= line.text);
                    }
                }
                buffer.cut_after();
                if at < len {
                    Edit::Changed
                } else {
                    Edit::Ignored
                }
            } else if c == 'd' {
                proof {
                    if at < len {
                        assert(line.deleted().text.len() == line.text.len() - 1);
                    }
                }
                buffer.delete();
                if at < len {
                    Edit::Changed
                } else {
                    Edit::Ignored
                }
            } else {
                Edit::Ignored
            }
        },
        _ => Edit::Ignored,
    }
}

/// The caret never leaves the text, whatever key is pressed.
pub proof fn editing_keeps_the_caret_in_the_text(line: TextView, key: KeyEvent)
    requires
        line.valid(),
    ensures
        line.edited(key).valid(),
{
    lemma_trailing_bounds(line.text.take(line.caret));
    let gap = line.caret - trailing_white(line.text.take(line.caret));
    lemma_trailing_bounds(line.text.take(gap));
}

proof fn lemma_trailing_bounds(text: Seq<char>)
    ensures
        0 <= trailing_white(text) <= text.len(),
        0 <= trailing_word(text) <= text.len(),
    decreases text.len(),
{
    if text.len() > 0 {
        lemma_trailing_bounds(text.drop_last());
    }
}

/// Typing a character and rubbing it out again leaves the line as it was.
pub proof fn backspace_undoes_a_typed_character(line: TextView, c: char)
    requires
        line.valid(),
    ensures
        line.inserted(c).rubbed_out() == line,
{
    assert(line.inserted(c).rubbed_out().text =~= line.text);
}

/// Trimming takes white space off both ends and nothing else: whatever stands
/// between them comes back as it was.
pub proof fn trimming_takes_the_white_ends(front: Seq<char>, core: Seq<char>, back: Seq<char>)
    requires
        forall|i: int| 0 <= i < front.len() ==> white_space(#[trigger] front[i]),
        forall|i: int| 0 <= i < back.len() ==> white_space(#[trigger] back[i]),
        core.len() > 0 ==> !white_space(core[0]) && !white_space(core.last()),
    ensures
        trimmed(front + core + back) == core,
{
    let text = front + core + back;
    if core.len() == 0 {
        assert forall|i: int| 0 <= i < text.len() implies white_space(#[trigger] text[i]) by {
            if i < front.len() {
                assert(text[i] == front[i]);
            } else {
                assert(text[i] == back[i - front.len()]);
            }
        }
        lemma_leading_white(text, text.len() as int);
        assert(trimmed(text) =~= core);
    } else {
        assert forall|i: int| 0 <= i < front.len() implies white_space(#[trigger] text[i]) by {
            assert(text[i] == front[i]);
        }
        assert(text[front.len() as int] == core[0]);
        lemma_leading_white(text, front.len() as int);
        let rest = text.skip(front.len() as int);
        assert(rest =~= core + back);
        assert forall|i: int| core.len() <= i < rest.len() implies white_space(
            #[trigger] rest[i],
        ) by {
            assert(rest[i] == back[i - core.len()]);
        }
        lemma_trailing_white(rest, core.len() as int);
        assert(trimmed(text) =~= core);
    }
}

/// A space, a tab and the ends of a line are white; no printed character of
/// ASCII is.
pub proof fn white_space_is_not_printed(c: char)
    ensures
        c == ' ' || c == '\t' || c == '\n' || c == '\r' ==> white_space(c),
        '!' <= c <= '~' ==> !white_space(c),
{
}

/// Each further digit counts its own value and makes all before it count
/// tenfold.
pub proof fn digits_read_from_the_left(text: Seq<char>, c: char)
    ensures
        number(Seq::<char>::empty()) == 0,
        number(text.push(c)) == 10 * number(text) + (c as int - '0' as int),
        is_digit(c) <==> c == '0' || c == '1' || c == '2' || c == '3' || c == '4' || c == '5' || c
            == '6' || c == '7' || c == '8' || c == '9',
        all_digits(text.push(c)) <==> all_digits(text) && is_digit(c),
{
    assert(text.push(c).drop_last() =~= text);
    if all_digits(text.push(c)) {
        assert forall|i: int| 0 <= i < text.len() implies is_digit(#[trigger] text[i]) by {
            assert(text.push(c)[i] == text[i]);
        }
        assert(text.push(c)[text.len() as int] == c);
    }
}

proof fn lemma_number_grows(digits: Seq<char>)
    requires
        all_digits(digits),
    ensures
        number(digits) >= 0,
    decreases digits.len(),
{
    if digits.len() > 0 {
        assert(all_digits(digits.drop_last()));
        lemma_number_grows(digits.drop_last());
    }
}

proof fn lemma_scanned_digits(digits: Seq<char>, negative: bool)
    requires
        all_digits(digits),
    ensures
        !negative && number(digits) <= i64::MAX ==> scanned(digits, negative) == Ok::<
            int,
            IntFault,
        >(number(digits)),
        !negative && number(digits) > i64::MAX ==> scanned(digits, negative) == Err::<
            int,
            IntFault,
        >(IntFault::TooLarge),
        negative && -number(digits) >= i64::MIN ==> scanned(digits, negative) == Ok::<
            int,
            IntFault,
        >(-number(digits)),
        negative && -number(digits) < i64::MIN ==> scanned(digits, negative) == Err::<
            int,
            IntFault,
        >(IntFault::TooSmall),
    decreases digits.len(),
{
    if digits.len() > 0 {
        assert(all_digits(digits.drop_last()));
        assert(is_digit(digits.last()));
        lemma_scanned_digits(digits.drop_last(), negative);
        lemma_number_grows(digits.drop_last());
    }
}

/// A whole number reads as its digits under its sign, where it can be held,
/// and is too large or too small where it cannot.
pub proof fn a_whole_number_reads_under_its_sign(digits: Seq<char>)
    requires
        digits.len() > 0,
        all_digits(digits),
    ensures
        number(digits) <= i64::MAX ==> reads_signed(digits) == Ok::<int, IntFault>(number(digits)),
        number(digits) <= i64::MAX ==> reads_signed(seq!['+'] + digits) == Ok::<int, IntFault>(
            number(digits),
        ),
        -number(digits) >= i64::MIN ==> reads_signed(seq!['-'] + digits) == Ok::<int, IntFault>(
            -number(digits),
        ),
        number(digits) > i64::MAX ==> reads_signed(digits) == Err::<int, IntFault>(
            IntFault::TooLarge,
        ),
        -number(digits) < i64::MIN ==> reads_signed(seq!['-'] + digits) == Err::<int, IntFault>(
            IntFault::TooSmall,
        ),
{
    assert(is_digit(digits[0]));
    assert((seq!['+'] + digits).skip(1) =~= digits);
    assert((seq!['-'] + digits).skip(1) =~= digits);
    lemma_scanned_digits(digits, false);
    lemma_scanned_digits(digits, true);
}

/// A text with anything but digits past its sign is no whole number, and
/// neither is a sign alone or nothing at all.
pub proof fn only_digits_make_a_whole_number(text: Seq<char>)
    requires
        !all_digits(text),
    ensures
        text[0] != '-' && text[0] != '+' ==> reads_signed(text) is Err,
        reads_signed(seq!['-'] + text) is Err,
        reads_signed(seq!['+'] + text) is Err,
        reads_signed(seq!['-']) == Err::<int, IntFault>(IntFault::InvalidDigit),
        reads_signed(seq!['+']) == Err::<int, IntFault>(IntFault::InvalidDigit),
        reads_signed(Seq::<char>::empty()) == Err::<int, IntFault>(IntFault::Empty),
{
    assert((seq!['-'] + text).skip(1) =~= text);
    assert((seq!['+'] + text).skip(1) =~= text);
    lemma_scanned_other(text, false);
    lemma_scanned_other(text, true);
}

proof fn lemma_scanned_other(text: Seq<char>, negative: bool)
    requires
        !all_digits(text),
    ensures
        scanned(text, negative) is Err,
    decreases text.len(),
{
    if is_digit(text.last()) {
        assert(!all_digits(text.drop_last())) by {
            if all_digits(text.drop_last()) {
                assert forall|i: int| 0 <= i < text.len() implies is_digit(#[trigger] text[i]) by {
                    if i < text.len() - 1 {
                        assert(text.drop_last()[i] == text[i]);
                    }
                }
            }
        }
        lemma_scanned_other(text.drop_last(), negative);
    }
}

/// A number of as many digits as a limit allows reads as itself, with a plus
/// sign or without one.
pub proof fn an_unsigned_number_reads_up_to_its_limit(digits: Seq<char>, limit: int)
    requires
        digits.len() > 0,
        all_digits(digits),
    ensures
        number(digits) <= limit ==> reads_unsigned(digits, limit) == Some(number(digits)),
        number(digits) <= limit ==> reads_unsigned(seq!['+'] + digits, limit) == Some(
            number(digits),
        ),
        number(digits) > limit ==> reads_unsigned(digits, limit) is None,
        reads_unsigned(seq!['-'] + digits, limit) is None,
{
    assert(is_digit(digits[0]));
    assert((seq!['+'] + digits).skip(1) =~= digits);
    assert(!is_digit((seq!['-'] + digits)[0]));
}

/// A key of the line being typed, `Ctrl` held with it.
pub open spec fn control(c: char) -> KeyEvent {
    KeyEvent {
        code: KeyCode::Char(c),
        modifiers: crate::key::Modifiers { shift: false, control: true, alt: false },
    }
}

/// Each editing key does its own edit at the caret, which stands between
/// `before` and `after`: it types a character, rubs one out either way, cuts
/// to an end of the line, or moves the caret.
pub proof fn each_editing_key_does_its_own_edit(before: Seq<char>, after: Seq<char>, key: KeyEvent)
    ensures
        ({
            let line = TextView { text: before + after, caret: before.len() as int };
            let at = before.len() as int;
            &&& (key.code matches KeyCode::Char(c) ==> (!key.modifiers.control && !key.modifiers.alt
                ==> line.edited(key) == (TextView {
                text: before + seq![c] + after,
                caret: at + 1,
            })))
            &&& (key.code is Backspace && before.len() > 0 ==> line.edited(key) == (TextView {
                text: before.drop_last() + after,
                caret: at - 1,
            }))
            &&& (key.code is Backspace && before.len() == 0 ==> line.edited(key) == line)
            &&& line.edited(control('a')) == (TextView { text: before + after, caret: 0 })
            &&& line.edited(control('e')) == (TextView {
                text: before + after,
                caret: at + after.len(),
            })
            &&& (before.len() > 0 ==> line.edited(control('b')) == (TextView {
                text: before + after,
                caret: at - 1,
            }))
            &&& (before.len() == 0 ==> line.edited(control('b')) == line)
            &&& (after.len() > 0 ==> line.edited(control('f')) == (TextView {
                text: before + after,
                caret: at + 1,
            }))
            &&& (after.len() == 0 ==> line.edited(control('f')) == line)
            &&& line.edited(control('u')) == (TextView { text: after, caret: 0 })
            &&& line.edited(control('k')) == (TextView { text: before, caret: at })
            &&& (after.len() > 0 ==> line.edited(control('d')) == (TextView {
                text: before + after.drop_first(),
                caret: at,
            }))
            &&& (after.len() == 0 ==> line.edited(control('d')) == line)
            &&& (!(key.code is Char) && !(key.code is Backspace) ==> line.edited(key) == line)
            &&& (key.code is Char && key.modifiers.alt ==> line.edited(key) == line)
        }),
{
    let line = TextView { text: before + after, caret: before.len() as int };
    assert(line.before() =~= before);
    assert(line.after() =~= after);
    assert(line.text.take(0) + after =~= after);
    if before.len() > 0 {
        assert(line.text.take(before.len() - 1) =~= before.drop_last());
    }
    if after.len() > 0 {
        assert(line.text.skip(before.len() as int + 1) =~= after.drop_first());
    }
    if let KeyCode::Char(c) = key.code {
        assert(before.push(c) + after =~= before + seq![c] + after);
    }
}

/// `Ctrl` and `w` rub out the word before the caret, with the space between
/// it and the caret, and nothing before the word.
pub proof fn a_word_is_rubbed_out_whole(
    lead: Seq<char>,
    word: Seq<char>,
    gap: Seq<char>,
    after: Seq<char>,
)
    requires
        lead.len() > 0 ==> white_space(lead.last()),
        forall|i: int| 0 <= i < word.len() ==> !white_space(#[trigger] word[i]),
        forall|i: int| 0 <= i < gap.len() ==> white_space(#[trigger] gap[i]),
        word.len() > 0 || lead.len() == 0,
    ensures
        (TextView {
            text: lead + word + gap + after,
            caret: (lead.len() + word.len() + gap.len()) as int,
        }).edited(control('w')) == (TextView { text: lead + after, caret: lead.len() as int }),
{
    let text = lead + word + gap + after;
    let at = (lead.len() + word.len() + gap.len()) as int;
    let kept = (lead.len() + word.len()) as int;
    let head = text.take(at);
    assert(head =~= lead + word + gap);
    assert forall|i: int| kept <= i < head.len() implies white_space(#[trigger] head[i]) by {
        assert(head[i] == gap[i - kept]);
    }
    if word.len() > 0 {
        assert(head[kept - 1] == word[word.len() - 1]);
    }
    lemma_trailing_white(head, kept);
    let words = text.take(kept);
    assert(words =~= lead + word);
    assert forall|i: int| lead.len() <= i < words.len() implies !white_space(
        #[trigger] words[i],
    ) by {
        assert(words[i] == word[i - lead.len()]);
    }
    if lead.len() > 0 {
        assert(words[lead.len() - 1] == lead.last());
    }
    lemma_trailing_word(words, lead.len() as int);
    assert(text.take(lead.len() as int) =~= lead);
    assert(text.skip(at) =~= after);
}

/// A key counts as a change exactly where it leaves another text, and as a
/// move exactly where it is one of the four that move the caret.
pub proof fn a_change_leaves_another_text(line: TextView, key: KeyEvent)
    ensures
        edit_of(line, key) == Edit::Changed <==> line.edited(key).text != line.text,
        edit_of(line, control('a')) == Edit::Moved,
        edit_of(line, control('e')) == Edit::Moved,
        edit_of(line, control('b')) == Edit::Moved,
        edit_of(line, control('f')) == Edit::Moved,
        !(key.code is Char) ==> edit_of(line, key) != Edit::Moved,
        !key.modifiers.control || key.modifiers.alt ==> edit_of(line, key) != Edit::Moved,
{
}

} // verus!
