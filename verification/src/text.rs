//! Styled text: the spans and lines that the renderer emits, and the number
//! formats that fill them.

use vstd::prelude::*;

verus! {

/// How a span of text is to be shown.
#[derive(Clone, Copy, Debug, PartialEq, Eq, Structural)]
pub enum Style {
    Plain,
    Dimmed,
    Green,
    Blue,
    Red,
}

/// The mathematical value of a span: a style and the characters it covers.
pub struct SpanView {
    pub style: Style,
    pub text: Seq<char>,
}

/// A run of characters shown in one style.
#[derive(Clone, Debug, PartialEq, Eq)]
pub struct Span {
    pub style: Style,
    pub text: String,
}

impl View for Span {
    type V = SpanView;

    open spec fn view(&self) -> SpanView {
        SpanView { style: self.style, text: self.text@ }
    }
}

/// One rendered line: its spans, in the order in which they are shown.
#[derive(Clone, Debug, PartialEq, Eq)]
pub struct Line {
    pub spans: Vec<Span>,
}

impl View for Line {
    type V = Seq<SpanView>;

    open spec fn view(&self) -> Seq<SpanView> {
        self.spans@.map_values(|s: Span| s@)
    }
}

/// The mathematical value of a list of lines.
pub open spec fn lines_view(lines: Seq<Line>) -> Seq<Seq<SpanView>> {
    lines.map_values(|l: Line| l@)
}

/// A span of `text` in `style`.
pub open spec fn styled(style: Style, text: Seq<char>) -> SpanView {
    SpanView { style, text }
}

/// The characters of a line with the styles left out.
pub open spec fn plain(spans: Seq<SpanView>) -> Seq<char>
    decreases spans.len(),
{
    if spans.len() == 0 {
        Seq::empty()
    } else {
        plain(spans.drop_last()) + spans.last().text
    }
}

/// `label`, filled with spaces on the right up to `width` characters.
pub open spec fn pad_right(label: Seq<char>, width: nat) -> Seq<char> {
    if label.len() >= width {
        label
    } else {
        label + Seq::new((width - label.len()) as nat, |i: int| ' ')
    }
}

/// One plain blank between two parts of a line.
pub open spec fn space() -> Seq<SpanView> {
    seq![styled(Style::Plain, " "@)]
}

/// The head of a line: the layer's label in a column of five, then a bar.
pub open spec fn layer(label: Seq<char>) -> Seq<SpanView> {
    seq![styled(Style::Green, pad_right(label, 5)), styled(Style::Dimmed, "|"@)]
}

/// A labelled value: the dimmed label, a blank, the value.
pub open spec fn field(label: Seq<char>, value: SpanView) -> Seq<SpanView> {
    seq![styled(Style::Dimmed, label), styled(Style::Plain, " "@), value]
}

/// A blank, then a labelled value.
pub open spec fn item(label: Seq<char>, value: SpanView) -> Seq<SpanView> {
    space() + field(label, value)
}

/// A blank, then a labelled decimal number.
pub open spec fn item_dec(label: Seq<char>, n: nat) -> Seq<SpanView> {
    item(label, styled(Style::Plain, dec(n)))
}

/// The decimal text of a byte.
pub open spec fn dec_u8(n: u8) -> Seq<char> {
    dec(n as nat)
}

/// A blank, then a labelled 16-bit decimal number.
pub open spec fn item_u16(label: Seq<char>, n: u16) -> Seq<SpanView> {
    item_dec(label, n as nat)
}

/// The names of the flags that are set, with a bar between one name and the
/// next: `acc`, and `name` after it if `set` holds.
pub open spec fn with_flag(acc: Seq<char>, set: bool, name: Seq<char>) -> Seq<char> {
    if !set {
        acc
    } else if acc.len() == 0 {
        name
    } else {
        acc + "|"@ + name
    }
}

/// A stored value shown beside the value that was expected in its place.
pub open spec fn bad_field(label: Seq<char>, bad: Seq<char>, expected: Seq<char>) -> Seq<
    SpanView,
> {
    seq![
        styled(Style::Dimmed, label),
        styled(Style::Plain, " "@),
        styled(Style::Red, bad),
        styled(Style::Plain, " != "@),
        styled(Style::Plain, expected),
    ]
}

/// A source and a destination with an arrow between them.
pub open spec fn from_to(src: Seq<char>, dst: Seq<char>) -> Seq<SpanView> {
    seq![
        styled(Style::Blue, src),
        styled(Style::Plain, " "@),
        styled(Style::Dimmed, ">"@),
        styled(Style::Plain, " "@),
        styled(Style::Blue, dst),
    ]
}

/// Two protocol addresses, each with the link address it resolves to.
pub open spec fn resolve(
    src_ip: Seq<char>,
    src_mac: Seq<char>,
    dst_ip: Seq<char>,
    dst_mac: Seq<char>,
) -> Seq<SpanView> {
    seq![
        styled(Style::Blue, src_ip),
        styled(Style::Dimmed, "/"@),
        styled(Style::Blue, src_mac),
        styled(Style::Plain, " "@),
        styled(Style::Dimmed, ">"@),
        styled(Style::Plain, " "@),
        styled(Style::Blue, dst_ip),
        styled(Style::Dimmed, "/"@),
        styled(Style::Blue, dst_mac),
    ]
}

/// `String::push` appends one character to the end of the string.
pub assume_specification[ String::push ](s: &mut String, c: char)
    ensures
        final(s)@ == old(s)@.push(c),
;

/// The text that `String::from_utf8_lossy` makes of `bytes`.
pub uninterp spec fn utf8_lossy_text(bytes: Seq<u8>) -> Seq<char>;

/// Decodes `bytes` as UTF-8 with `String::from_utf8_lossy`, which puts a
/// replacement character in the place of each part that is no valid UTF-8.
/// The contract only gives the text a name.
#[verifier::external_body]
pub(crate) fn utf8_lossy(bytes: &[u8]) -> (r: String)
    ensures
        r@ == utf8_lossy_text(bytes@),
{
    String::from_utf8_lossy(bytes).into_owned()
}

/// The character of a digit below sixteen: `0`-`9`, then `a`-`f` or `A`-`F`.
pub open spec fn digit_char(d: nat, upper: bool) -> char {
    if d < 10 {
        (48 + d) as u8 as char
    } else if upper {
        (55 + d) as u8 as char
    } else {
        (87 + d) as u8 as char
    }
}

/// The decimal text of `n`: its digits, most significant first, without
/// leading zeros; a single `0` for zero.
pub open spec fn dec(n: nat) -> Seq<char>
    decreases n,
{
    if n < 10 {
        seq![digit_char(n, false)]
    } else {
        dec(n / 10).push(digit_char(n % 10, false))
    }
}

/// The hexadecimal text of `n`, without prefix or leading zeros.
pub open spec fn hex(n: nat, upper: bool) -> Seq<char>
    decreases n,
{
    if n < 16 {
        seq![digit_char(n, upper)]
    } else {
        hex(n / 16, upper).push(digit_char(n % 16, upper))
    }
}

fn digit(d: u8, upper: bool) -> (c: char)
    requires
        d < 16,
    ensures
        c == digit_char(d as nat, upper),
{
    if d < 10 {
        (48 + d) as char
    } else if upper {
        (55 + d) as char
    } else {
        (87 + d) as char
    }
}

/// Appends the decimal text of `n` to `out`.
pub fn push_dec(out: &mut String, n: u64)
    ensures
        final(out)@ == old(out)@ + dec(n as nat),
    decreases n,
{
    if n >= 10 {
        push_dec(out, n / 10);
    }
    out.push(digit((n % 10) as u8, false));
}

/// Appends the hexadecimal text of `n` to `out`.
pub fn push_hex(out: &mut String, n: u64, upper: bool)
    ensures
        final(out)@ == old(out)@ + hex(n as nat, upper),
    decreases n,
{
    if n >= 16 {
        push_hex(out, n / 16, upper);
    }
    out.push(digit((n % 16) as u8, upper));
}

/// The text of a boolean: `true` or `false`.
pub open spec fn bool_text(b: bool) -> Seq<char> {
    if b {
        "true"@
    } else {
        "false"@
    }
}

/// Exactly two lower-case hexadecimal digits.
pub open spec fn hex2(n: u8) -> Seq<char> {
    seq![digit_char((n / 16) as nat, false), digit_char((n % 16) as nat, false)]
}

/// Exactly four lower-case hexadecimal digits.
pub open spec fn hex4(n: u16) -> Seq<char> {
    seq![
        digit_char((n / 4096) as nat, false),
        digit_char((n / 256 % 16) as nat, false),
        digit_char((n / 16 % 16) as nat, false),
        digit_char((n % 16) as nat, false),
    ]
}

/// A byte as `0x` and two hexadecimal digits.
pub open spec fn prefixed_hex2(n: u8) -> Seq<char> {
    "0x"@ + hex2(n)
}

/// A 16-bit number as `0x` and four hexadecimal digits.
pub open spec fn prefixed_hex4(n: u16) -> Seq<char> {
    "0x"@ + hex4(n)
}

/// The decimal text of `n` as a string of its own.
pub fn dec_string(n: u64) -> (r: String)
    ensures
        r@ == dec(n as nat),
{
    let mut out = String::new();
    push_dec(&mut out, n);
    out
}

/// The decimal text of a byte as a string of its own.
pub fn dec_u8_string(n: u8) -> (r: String)
    ensures
        r@ == dec_u8(n),
{
    dec_string(n as u64)
}

/// The text of a boolean as a string of its own.
pub fn bool_string(b: bool) -> (r: String)
    ensures
        r@ == bool_text(b),
{
    if b {
        String::from_str("true")
    } else {
        String::from_str("false")
    }
}

/// A byte as `0x` and two hexadecimal digits.
pub fn prefixed_hex2_string(n: u8) -> (r: String)
    ensures
        r@ == prefixed_hex2(n),
{
    let mut out = String::from_str("0x");
    out.push(digit(n / 16, false));
    out.push(digit(n % 16, false));
    out
}

/// A 16-bit number as `0x` and four hexadecimal digits.
pub fn prefixed_hex4_string(n: u16) -> (r: String)
    ensures
        r@ == prefixed_hex4(n),
{
    let mut out = String::from_str("0x");
    out.push(digit((n / 4096) as u8, false));
    out.push(digit((n / 256 % 16) as u8, false));
    out.push(digit((n / 16 % 16) as u8, false));
    out.push(digit((n % 16) as u8, false));
    out
}

/// Appends `name` to the names of the flags that are set, if `set` holds.
pub fn push_flag(out: &mut String, set: bool, name: &str)
    ensures
        final(out)@ == with_flag(old(out)@, set, name@),
{
    if set {
        if !out.as_str().is_empty() {
            out.push('|');
        }
        out.append(name);
        proof {
            reveal_strlit("|");
            assert(final(out)@ =~= with_flag(old(out)@, set, name@));
        }
    }
}

/// `label`, filled with spaces on the right up to five characters.
pub fn pad5(label: &str) -> (r: String)
    ensures
        r@ == pad_right(label@, 5),
{
    let mut out = String::from_str(label);
    let len = label.unicode_len();
    let mut n: usize = len;
    while n < 5
        invariant
            len == label@.len(),
            len <= n,
            len < 5 ==> n <= 5,
            len >= 5 ==> n == len,
            out@ == label@ + Seq::new((n - len) as nat, |i: int| ' '),
        decreases 5 - n,
    {
        out.push(' ');
        n += 1;
    }
    proof {
        assert(out@ =~= pad_right(label@, 5));
    }
    out
}

impl Line {
    /// A line without spans.
    pub fn new() -> (r: Line)
        ensures
            r@ == Seq::<SpanView>::empty(),
    {
        Line { spans: Vec::new() }
    }

    /// Appends one span.
    pub fn push(&mut self, style: Style, text: String)
        ensures
            final(self)@ == old(self)@.push(styled(style, text@)),
    {
        self.spans.push(Span { style, text });
    }

    /// Appends one span that holds a copy of `text`.
    pub fn push_str(&mut self, style: Style, text: &str)
        ensures
            final(self)@ == old(self)@.push(styled(style, text@)),
    {
        self.push(style, String::from_str(text));
    }

    /// Appends a plain blank.
    pub fn space(&mut self)
        ensures
            final(self)@ == old(self)@ + space(),
    {
        self.push_str(Style::Plain, " ");
    }

    /// Appends the head of a line for the layer `label`.
    pub fn layer(&mut self, label: &str)
        ensures
            final(self)@ == old(self)@ + layer(label@),
    {
        self.push(Style::Green, pad5(label));
        self.push_str(Style::Dimmed, "|");
    }

    /// Appends a labelled value shown in `style`.
    pub fn field(&mut self, label: &str, style: Style, value: String)
        ensures
            final(self)@ == old(self)@ + field(label@, styled(style, value@)),
    {
        self.push_str(Style::Dimmed, label);
        self.push_str(Style::Plain, " ");
        self.push(style, value);
    }

    /// Appends a labelled decimal number.
    pub fn field_dec(&mut self, label: &str, value: u64)
        ensures
            final(self)@ == old(self)@ + field(label@, styled(Style::Plain, dec(value as nat))),
    {
        self.field(label, Style::Plain, dec_string(value));
    }

    /// Appends a blank and a labelled value shown in `style`.
    pub fn item(&mut self, label: &str, style: Style, value: String)
        ensures
            final(self)@ == old(self)@ + item(label@, styled(style, value@)),
    {
        self.space();
        self.field(label, style, value);
    }

    /// Appends a blank and a labelled decimal number.
    pub fn item_dec(&mut self, label: &str, value: u64)
        ensures
            final(self)@ == old(self)@ + item_dec(label@, value as nat),
    {
        self.item(label, Style::Plain, dec_string(value));
    }

    /// Appends a blank and a labelled 16-bit decimal number.
    pub fn item_u16(&mut self, label: &str, value: u16)
        ensures
            final(self)@ == old(self)@ + item_u16(label@, value),
    {
        self.item_dec(label, value as u64);
    }

    /// Appends a labelled value that differs from the expected one.
    pub fn bad_field(&mut self, label: &str, bad: String, expected: String)
        ensures
            final(self)@ == old(self)@ + bad_field(label@, bad@, expected@),
    {
        self.push_str(Style::Dimmed, label);
        self.push_str(Style::Plain, " ");
        self.push(Style::Red, bad);
        self.push_str(Style::Plain, " != ");
        self.push(Style::Plain, expected);
    }

    /// Appends a source and a destination with an arrow between them.
    pub fn from_to(&mut self, src: String, dst: String)
        ensures
            final(self)@ == old(self)@ + from_to(src@, dst@),
    {
        self.push(Style::Blue, src);
        self.push_str(Style::Plain, " ");
        self.push_str(Style::Dimmed, ">");
        self.push_str(Style::Plain, " ");
        self.push(Style::Blue, dst);
    }

    /// Appends two protocol addresses with the link addresses they resolve to.
    pub fn resolve(&mut self, src_ip: String, src_mac: String, dst_ip: String, dst_mac: String)
        ensures
            final(self)@ == old(self)@ + resolve(src_ip@, src_mac@, dst_ip@, dst_mac@),
    {
        self.push(Style::Blue, src_ip);
        self.push_str(Style::Dimmed, "/");
        self.push(Style::Blue, src_mac);
        self.push_str(Style::Plain, " ");
        self.push_str(Style::Dimmed, ">");
        self.push_str(Style::Plain, " ");
        self.push(Style::Blue, dst_ip);
        self.push_str(Style::Dimmed, "/");
        self.push(Style::Blue, dst_mac);
    }

    /// The characters of the line with the styles left out.
    pub fn text(&self) -> (r: String)
        ensures
            r@ == plain(self@),
    {
        let mut out = String::new();
        let mut i: usize = 0;
        while i < self.spans.len()
            invariant
                i <= self.spans.len(),
                out@ == plain(self@.take(i as int)),
            decreases self.spans.len() - i,
        {
            proof {
                assert(self@.take(i + 1).drop_last() =~= self@.take(i as int));
            }
            out.append(self.spans[i].text.as_str());
            i += 1;
        }
        proof {
            assert(self@.take(i as int) =~= self@);
        }
        out
    }
}

/// Appends `line` to `lines`.
pub fn push_line(lines: &mut Vec<Line>, line: Line)
    ensures
        lines_view(final(lines)@) == lines_view(old(lines)@).push(line@),
{
    lines.push(line);
}

/// Appends every line of `more` to `lines`.
pub fn append_lines(lines: &mut Vec<Line>, more: Vec<Line>)
    ensures
        lines_view(final(lines)@) == lines_view(old(lines)@) + lines_view(more@),
{
    let mut more = more;
    lines.append(&mut more);
}

/// The decimal text of a number holds at least one digit.
pub proof fn dec_is_not_empty(n: nat)
    ensures
        dec(n).len() >= 1,
        n >= 10 ==> dec(n).len() >= 2,
    decreases n,
{
    if n >= 10 {
        dec_is_not_empty(n / 10);
    }
}

/// The decimal text shows a number faithfully: two numbers with the same
/// text are the same number.
pub proof fn dec_is_faithful(a: nat, b: nat)
    requires
        dec(a) == dec(b),
    ensures
        a == b,
    decreases a,
{
    dec_is_not_empty(a);
    dec_is_not_empty(b);
    if a < 10 || b < 10 {
        assert(dec(a)[0] == dec(b)[0]);
        assert(a < 10 && b < 10);
        assert(dec(a)[0] == digit_char(a, false));
        assert(dec(b)[0] == digit_char(b, false));
        assert(digit_char(a, false) as u8 == 48 + a);
        assert(digit_char(b, false) as u8 == 48 + b);
    } else {
        assert(dec(a).drop_last() =~= dec(a / 10));
        assert(dec(b).drop_last() =~= dec(b / 10));
        dec_is_faithful(a / 10, b / 10);
        assert(dec(a).last() == digit_char(a % 10, false));
        assert(dec(b).last() == digit_char(b % 10, false));
        assert(digit_char(a % 10, false) as u8 == 48 + a % 10);
        assert(digit_char(b % 10, false) as u8 == 48 + b % 10);
    }
}

} // verus!
