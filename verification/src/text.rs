//! Characters, cells and plain text operations shared by the rest of the crate.
use unicode_width::UnicodeWidthChar;
use vstd::prelude::*;

verus! {

/// The number of columns that `unicode_width` gives a character, or `None`.
pub uninterp spec fn char_width(c: char) -> Option<usize>;

/// A control character: U+0000 to U+001F and U+007F to U+009F.
pub open spec fn is_control_char(c: char) -> bool {
    (c as u32) < 0x20 || 0x7f <= (c as u32) < 0xa0
}

/// A character with the Unicode property `White_Space`.
pub open spec fn is_white_space(c: char) -> bool {
    let n = c as u32;
    ||| 0x09 <= n <= 0x0d
    ||| n == 0x20
    ||| n == 0x85
    ||| n == 0xa0
    ||| n == 0x1680
    ||| 0x2000 <= n <= 0x200a
    ||| n == 0x2028
    ||| n == 0x2029
    ||| n == 0x202f
    ||| n == 0x205f
    ||| n == 0x3000
}

/// `unicode_width::UnicodeWidthChar::width` on one character. Claimed: the result is
/// a function of the character alone, it is `None` for control characters and for
/// nothing else, it is one column for printable ASCII, and it is never above three.
#[verifier::external_body]
fn width_of(c: char) -> (w: Option<usize>)
    ensures
        w == char_width(c),
        w is None <==> is_control_char(c),
        0x20 <= (c as u32) < 0x7f ==> w == Some(1usize),
        w matches Some(n) ==> n <= 3,
{
    UnicodeWidthChar::width(c)
}

/// `String::push` of the standard library: the character goes to the end.
pub assume_specification[ String::push ](s: &mut String, c: char)
    ensures
        final(s)@ == old(s)@.push(c),
;

/// `char::is_whitespace` of the standard library: the Unicode property `White_Space`.
pub assume_specification[ char::is_whitespace ](c: char) -> (b: bool)
    ensures
        b == is_white_space(c),
;

/// Whether a character is a control character.
pub fn is_control(c: char) -> (b: bool)
    ensures
        b == is_control_char(c),
{
    let code: u32 = c as u32;
    code < 0x20 || (0x7f <= code && code < 0xa0)
}

/// Columns of one character; control characters take none.
pub open spec fn cell_width(c: char) -> nat {
    match char_width(c) {
        Some(w) => w as nat,
        None => 0,
    }
}

/// Columns of a text.
pub open spec fn cells(s: Seq<char>) -> nat
    decreases s.len(),
{
    if s.len() == 0 {
        0
    } else {
        cells(s.drop_last()) + cell_width(s.last())
    }
}

/// Columns of one character where a control character still takes one.
pub open spec fn ink_width(c: char) -> nat {
    match char_width(c) {
        Some(w) => w as nat,
        None => 1,
    }
}

/// Columns of a text where a control character still takes one.
pub open spec fn ink_cells(s: Seq<char>) -> nat
    decreases s.len(),
{
    if s.len() == 0 {
        0
    } else {
        ink_cells(s.drop_last()) + ink_width(s.last())
    }
}

/// Columns of one character where every character takes at least one.
pub open spec fn slot_width(c: char) -> nat {
    if cell_width(c) == 0 {
        1
    } else {
        cell_width(c)
    }
}

/// Columns of a text where every character takes at least one.
pub open spec fn slot_cells(s: Seq<char>) -> nat
    decreases s.len(),
{
    if s.len() == 0 {
        0
    } else {
        slot_cells(s.drop_last()) + slot_width(s.last())
    }
}

/// The decimal digits of a number.
pub open spec fn decimal_text(n: nat) -> Seq<char>
    decreases n,
{
    if n < 10 {
        seq![digit_char(n)]
    } else {
        decimal_text(n / 10).push(digit_char(n % 10))
    }
}

/// Ten to the power of `k`.
spec fn ten_to(k: nat) -> nat
    decreases k,
{
    if k == 0 {
        1
    } else {
        10 * ten_to((k - 1) as nat)
    }
}

proof fn lemma_digits(n: nat, k: nat)
    requires
        1 <= k,
        n < ten_to(k),
    ensures
        decimal_text(n).len() <= k,
    decreases k,
{
    if n >= 10 {
        if k == 1 {
            reveal_with_fuel(ten_to, 2);
        } else {
            lemma_digits(n / 10, (k - 1) as nat);
        }
    }
}

/// A 64-bit number has twenty digits at most.
pub proof fn lemma_decimal_len(n: u64)
    ensures
        decimal_text(n as nat).len() <= 20,
{
    reveal_with_fuel(ten_to, 21);
    lemma_digits(n as nat, 20);
}

/// The digit for a value below ten.
pub open spec fn digit_char(d: nat) -> char {
    if d == 0 {
        '0'
    } else if d == 1 {
        '1'
    } else if d == 2 {
        '2'
    } else if d == 3 {
        '3'
    } else if d == 4 {
        '4'
    } else if d == 5 {
        '5'
    } else if d == 6 {
        '6'
    } else if d == 7 {
        '7'
    } else if d == 8 {
        '8'
    } else {
        '9'
    }
}

/// The texts behind a sequence of strings.
pub open spec fn texts(v: Seq<String>) -> Seq<Seq<char>> {
    v.map_values(|s: String| s@)
}

/// `n` copies of one character.
pub open spec fn repeated(c: char, n: nat) -> Seq<char> {
    Seq::new(n, |i: int| c)
}

/// The columns of one character, zero where it has none.
pub fn cell_width_of(c: char) -> (w: usize)
    ensures
        w == cell_width(c),
        w <= 3,
        w == 0 <== is_control_char(c),
        0x20 <= (c as u32) < 0x7f ==> w == 1,
{
    match width_of(c) {
        Some(w) => w,
        None => 0,
    }
}

/// The width of one character as the renderer reports it.
pub fn char_width_of(c: char) -> (w: Option<usize>)
    ensures
        w == char_width(c),
        w is None <==> is_control_char(c),
        0x20 <= (c as u32) < 0x7f ==> w == Some(1usize),
        w matches Some(n) ==> n <= 3,
{
    width_of(c)
}

/// The characters of a text.
pub fn chars_of(s: &str) -> (v: Vec<char>)
    ensures
        v@ == s@,
{
    let mut v: Vec<char> = Vec::new();
    for c in it: s.chars()
        invariant
            v@ == it.seq().take(it.index() as int),
            it.seq() == s@,
    {
        proof {
            assert(it.seq().take(it.index() as int).push(c) =~= it.seq().take(it.index() + 1));
        }
        v.push(c);
    }
    proof {
        assert(s@.take(s@.len() as int) =~= s@);
    }
    v
}

/// The text made of the characters `from..to`.
pub fn text_range(v: &Vec<char>, from: usize, to: usize) -> (s: String)
    requires
        from <= to <= v@.len(),
    ensures
        s@ == v@.subrange(from as int, to as int),
{
    let mut s = String::new();
    let mut i: usize = from;
    while i < to
        invariant
            from <= i <= to <= v@.len(),
            s@ == v@.subrange(from as int, i as int),
        decreases to - i,
    {
        proof {
            assert(v@.subrange(from as int, i as int).push(v@[i as int]) =~= v@.subrange(
                from as int,
                i + 1,
            ));
        }
        s.push(v[i]);
        i += 1;
    }
    s
}

/// The text made of all the characters of `v`.
pub fn text_of(v: &Vec<char>) -> (s: String)
    ensures
        s@ == v@,
{
    proof {
        assert(v@.subrange(0, v@.len() as int) =~= v@);
    }
    text_range(v, 0, v.len())
}

/// Whether two texts hold the same characters.
pub fn same_text(a: &str, b: &str) -> (r: bool)
    ensures
        r == (a@ == b@),
{
    let x: String = a.to_owned();
    let y: String = b.to_owned();
    x == y
}

/// The columns of a text.
pub fn text_cols(s: &str) -> (w: usize)
    requires
        3 * s@.len() <= usize::MAX,
    ensures
        w == cells(s@),
        w <= 3 * s@.len(),
{
    let v = chars_of(s);
    let mut w: usize = 0;
    let mut i: usize = 0;
    proof {
        assert(s@.take(0) =~= Seq::<char>::empty());
    }
    while i < v.len()
        invariant
            i <= v@.len(),
            v@ == s@,
            3 * s@.len() <= usize::MAX,
            w == cells(s@.take(i as int)),
            w <= 3 * i,
        decreases v@.len() - i,
    {
        proof {
            assert(s@.take(i + 1).drop_last() =~= s@.take(i as int));
        }
        w += cell_width_of(v[i]);
        i += 1;
    }
    proof {
        assert(s@.take(i as int) =~= s@);
    }
    w
}

/// The columns of a text where a control character still takes one.
pub fn ink_cols(s: &str) -> (w: usize)
    requires
        3 * s@.len() <= usize::MAX,
    ensures
        w == ink_cells(s@),
        w <= 3 * s@.len(),
{
    let v = chars_of(s);
    let mut w: usize = 0;
    let mut i: usize = 0;
    proof {
        assert(s@.take(0) =~= Seq::<char>::empty());
    }
    while i < v.len()
        invariant
            i <= v@.len(),
            v@ == s@,
            3 * s@.len() <= usize::MAX,
            w == ink_cells(s@.take(i as int)),
            w <= 3 * i,
        decreases v@.len() - i,
    {
        proof {
            assert(s@.take(i + 1).drop_last() =~= s@.take(i as int));
        }
        let n: usize = match char_width_of(v[i]) {
            Some(n) => n,
            None => 1,
        };
        w += n;
        i += 1;
    }
    proof {
        assert(s@.take(i as int) =~= s@);
    }
    w
}

/// The columns of one character, at least one.
pub fn slot_width_of(c: char) -> (w: usize)
    ensures
        w == slot_width(c),
        1 <= w <= 3,
        0x20 <= (c as u32) < 0x7f ==> w == 1,
{
    let w: usize = cell_width_of(c);
    if w == 0 {
        1
    } else {
        w
    }
}

/// The columns of a text where every character takes at least one.
pub fn slot_cols(s: &str) -> (w: usize)
    requires
        3 * s@.len() <= usize::MAX,
    ensures
        w == slot_cells(s@),
        s@.len() <= w <= 3 * s@.len(),
{
    let v = chars_of(s);
    let mut w: usize = 0;
    let mut i: usize = 0;
    proof {
        assert(s@.take(0) =~= Seq::<char>::empty());
    }
    while i < v.len()
        invariant
            i <= v@.len(),
            v@ == s@,
            3 * s@.len() <= usize::MAX,
            w == slot_cells(s@.take(i as int)),
            i <= w <= 3 * i,
        decreases v@.len() - i,
    {
        proof {
            assert(s@.take(i + 1).drop_last() =~= s@.take(i as int));
        }
        w += slot_width_of(v[i]);
        i += 1;
    }
    proof {
        assert(s@.take(i as int) =~= s@);
    }
    w
}

fn digit_of(d: u64) -> (c: char)
    requires
        d < 10,
    ensures
        c == digit_char(d as nat),
{
    if d == 0 {
        '0'
    } else if d == 1 {
        '1'
    } else if d == 2 {
        '2'
    } else if d == 3 {
        '3'
    } else if d == 4 {
        '4'
    } else if d == 5 {
        '5'
    } else if d == 6 {
        '6'
    } else if d == 7 {
        '7'
    } else if d == 8 {
        '8'
    } else {
        '9'
    }
}

/// A number in decimal digits.
pub fn decimal(n: u64) -> (s: String)
    ensures
        s@ == decimal_text(n as nat),
    decreases n,
{
    if n < 10 {
        let mut s = String::new();
        s.push(digit_of(n));
        proof {
            assert(Seq::<char>::empty().push(digit_char(n as nat)) =~= seq![digit_char(n as nat)]);
        }
        s
    } else {
        let mut s = decimal(n / 10);
        s.push(digit_of(n % 10));
        s
    }
}

/// What `str::to_lowercase` makes of a text.
pub uninterp spec fn lowercase(s: Seq<char>) -> Seq<char>;

/// Calls `str::to_lowercase`. Its result is named: it depends on the text alone, and takes
/// Unicode's case tables to state. Of nothing it makes nothing.
#[verifier::external_body]
pub(crate) fn lowercase_of(s: &str) -> (r: String)
    ensures
        r@ == lowercase(s@),
        s@.len() == 0 ==> r@.len() == 0,
{
    s.to_lowercase()
}

/// Two texts one after the other.
pub fn concat2(a: &str, b: &str) -> (s: String)
    ensures
        s@ == a@ + b@,
{
    let mut s: String = a.to_owned();
    s.append(b);
    s
}

/// Three texts one after the other.
pub fn concat3(a: &str, b: &str, c: &str) -> (s: String)
    ensures
        s@ == a@ + b@ + c@,
{
    let mut s: String = a.to_owned();
    s.append(b);
    s.append(c);
    s
}

/// `n` copies of one character.
pub fn repeat_char(c: char, n: usize) -> (s: String)
    ensures
        s@ == repeated(c, n as nat),
{
    let mut s = String::new();
    let mut i: usize = 0;
    proof {
        assert(s@ =~= repeated(c, 0));
    }
    while i < n
        invariant
            i <= n,
            s@ == repeated(c, i as nat),
        decreases n - i,
    {
        s.push(c);
        proof {
            assert(s@ =~= repeated(c, (i + 1) as nat));
        }
        i += 1;
    }
    s
}

/// The number that a row of decimal digits stands for.
pub open spec fn decimal_value(s: Seq<char>) -> int
    decreases s.len(),
{
    if s.len() == 0 {
        0
    } else {
        10 * decimal_value(s.drop_last()) + (s.last() as int - '0' as int)
    }
}

/// A number is written in digits that stand for it, without a zero in front.
pub proof fn decimal_text_reads_back(n: nat)
    ensures
        decimal_value(decimal_text(n)) == n,
        forall|i: int|
            0 <= i < decimal_text(n).len() ==> '0' <= #[trigger] decimal_text(n)[i] <= '9',
        decimal_text(n).len() > 0,
        n > 0 ==> decimal_text(n)[0] != '0',
    decreases n,
{
    if n < 10 {
        reveal_with_fuel(decimal_value, 2);
        assert(decimal_text(n).drop_last() =~= Seq::<char>::empty());
    } else {
        decimal_text_reads_back(n / 10);
        assert(decimal_text(n).drop_last() =~= decimal_text(n / 10));
        assert(decimal_text(n)[0] == decimal_text(n / 10)[0]);
    }
}

/// A text takes the columns of its parts, and a single character its own.
pub proof fn columns_add_up(a: Seq<char>, b: Seq<char>, c: char)
    ensures
        cells(a + b) == cells(a) + cells(b),
        ink_cells(a + b) == ink_cells(a) + ink_cells(b),
        slot_cells(a + b) == slot_cells(a) + slot_cells(b),
        cells(seq![c]) == match char_width(c) {
            Some(w) => w as nat,
            None => 0,
        },
        ink_cells(seq![c]) == match char_width(c) {
            Some(w) => w as nat,
            None => 1,
        },
        char_width(c) matches Some(w) ==> (w > 0 ==> slot_cells(seq![c]) == w),
        char_width(c) is None || char_width(c) == Some(0usize) ==> slot_cells(seq![c]) == 1,
        cells(Seq::empty()) == 0,
        ink_cells(Seq::empty()) == 0,
        slot_cells(Seq::empty()) == 0,
    decreases b.len(),
{
    reveal_with_fuel(cells, 2);
    reveal_with_fuel(ink_cells, 2);
    reveal_with_fuel(slot_cells, 2);
    assert(seq![c].drop_last() =~= Seq::<char>::empty());
    if b.len() == 0 {
        assert(a + b =~= a);
    } else {
        columns_add_up(a, b.drop_last(), c);
        assert((a + b).drop_last() =~= a + b.drop_last());
    }
}

/// White space are the characters that Unicode says are, and no other; control characters
/// are the first thirty-two, and those from delete up to the no-break space.
pub proof fn blank_and_control_characters(c: char)
    ensures
        is_control_char(c) <==> c < ' ' || '\u{7f}' <= c < '\u{a0}',
        '!' <= c <= '~' ==> !is_white_space(c) && !is_control_char(c),
        c == ' ' || c == '\t' || c == '\n' || c == '\r' || c == '\u{3000}' || c == '\u{a0}'
            ==> is_white_space(c),
{
}

/// Texts are put together in their order, repeated and cut as they are told, and the same
/// only where every character is.
pub proof fn texts_are_put_together_in_order(
    a: &str,
    b: &str,
    c: &str,
    ab: String,
    abc: String,
    same: bool,
    x: char,
    n: usize,
    many: String,
)
    requires
        call_ensures(concat2, (a, b), ab),
        call_ensures(concat3, (a, b, c), abc),
        call_ensures(same_text, (a, b), same),
        call_ensures(repeat_char, (x, n), many),
    ensures
        ab@ == a@ + b@,
        abc@ == ab@ + c@,
        same <==> a@ == b@,
        many@.len() == n && forall|i: int| 0 <= i < n ==> #[trigger] many@[i] == x,
{
}

/// The columns of a text are those of its characters together; a slot gives each character
/// one at least.
pub proof fn columns_of_texts_add_up(s: &str, w: usize, k: usize, i: usize)
    requires
        call_ensures(text_cols, (s,), w),
        call_ensures(slot_cols, (s,), k),
        call_ensures(ink_cols, (s,), i),
    ensures
        w == cells(s@) && k == slot_cells(s@) && i == ink_cells(s@),
        k >= s@.len(),
        s@.len() == 0 ==> w == 0 && k == 0 && i == 0,
{
}

/// A number in decimal digits reads back as that number.
pub proof fn written_number_reads_back(n: u64, s: String)
    requires
        call_ensures(decimal, (n,), s),
    ensures
        decimal_value(s@) == n,
        s@.len() > 0,
{
    decimal_text_reads_back(n as nat);
}

} // verus!
