//! Text for a terminal: runs of characters, each with a style, and how numbers
//! and raw bytes are written in it.

use colored::Colorize;
use vstd::prelude::*;

verus! {

/// `String::push` appends the character to the end of the string.
pub assume_specification[ String::push ](s: &mut String, c: char)
    ensures
        final(s)@ == old(s)@.push(c),
;

/// How a run of characters is shown.
#[derive(Clone, Copy, Debug, PartialEq, Eq, Structural)]
pub enum Style {
    Plain,
    Bold,
    Dimmed,
    Red,
    Green,
    Cyan,
}

/// A run of characters in one style.
#[derive(Debug, PartialEq, Eq)]
pub struct Span {
    pub style: Style,
    pub text: String,
}

/// A line of text: spans, in order.
#[derive(Debug, PartialEq, Eq)]
pub struct Text {
    pub spans: Vec<Span>,
}

impl View for Span {
    type V = (Style, Seq<char>);

    open spec fn view(&self) -> (Style, Seq<char>) {
        (self.style, self.text@)
    }
}

impl View for Text {
    type V = Seq<(Style, Seq<char>)>;

    open spec fn view(&self) -> Seq<(Style, Seq<char>)> {
        self.spans@.map_values(|span: Span| span@)
    }
}

impl DeepView for Text {
    type V = Seq<(Style, Seq<char>)>;

    open spec fn deep_view(&self) -> Seq<(Style, Seq<char>)> {
        self@
    }
}

/// The characters of a line without their styles.
pub open spec fn unstyled_of(spans: Seq<(Style, Seq<char>)>) -> Seq<char>
    decreases spans.len(),
{
    if spans.len() == 0 {
        Seq::empty()
    } else {
        unstyled_of(spans.drop_last()) + spans.last().1
    }
}

/// The character that starts an escape sequence of a terminal.
pub open spec fn escape() -> char {
    '\u{1b}'
}

/// The number that a terminal knows a style by, in decimal digits.
pub open spec fn code_of(style: Style) -> Seq<char> {
    match style {
        Style::Plain => seq![],
        Style::Bold => seq!['1'],
        Style::Dimmed => seq!['2'],
        Style::Red => seq!['3', '1'],
        Style::Green => seq!['3', '2'],
        Style::Cyan => seq!['3', '6'],
    }
}

/// `text` between the escape sequence that switches a style on and the one
/// that resets the terminal.
pub open spec fn wrapped(style: Style, text: Seq<char>) -> Seq<char> {
    seq![escape(), '['] + code_of(style) + seq!['m'] + text + seq![escape(), '[', '0', 'm']
}

/// What painting `text` in a style can give: the text as it is, where colours
/// are switched off, or the text wrapped in escape sequences. Nothing is said
/// of a text that holds an escape character itself.
pub open spec fn is_painted(style: Style, text: Seq<char>, painted: Seq<char>) -> bool {
    text.contains(escape()) || painted == text || painted == wrapped(style, text)
}

/// What rendering a line can give: its spans, painted one by one and joined.
pub open spec fn is_rendering(spans: Seq<(Style, Seq<char>)>, rendered: Seq<char>) -> bool
    decreases spans.len(),
{
    if spans.len() == 0 {
        rendered.len() == 0
    } else {
        exists|cut: int|
            #![trigger rendered.take(cut)]
            0 <= cut <= rendered.len() && is_rendering(spans.drop_last(), rendered.take(cut))
                && is_span_rendering(spans.last(), rendered.skip(cut))
    }
}

/// What rendering one span can give: a plain span is its text, any other span
/// is painted in its style.
pub open spec fn is_span_rendering(span: (Style, Seq<char>), rendered: Seq<char>) -> bool {
    if span.0 == Style::Plain {
        rendered == span.1
    } else {
        is_painted(span.0, span.1, rendered)
    }
}

/// Calls `colored::Colorize::bold` on `text` and formats what it returns.
///
/// Whether colours are on is for that crate to find out, from the environment,
/// the terminal and its own override switch. The contract holds either way,
/// as long as nothing flips the switch while the call runs: the text comes
/// back as it is, or between `ESC [ 1 m` and `ESC [ 0 m`.
#[verifier::external_body]
fn paint_bold(text: &str) -> (painted: String)
    ensures
        is_painted(Style::Bold, text@, painted@),
{
    text.bold().to_string()
}

/// Calls `colored::Colorize::dimmed` on `text` and formats what it returns.
///
/// As for [`paint_bold`], the text comes back as it is, or between
/// `ESC [ 2 m` and `ESC [ 0 m`.
#[verifier::external_body]
fn paint_dimmed(text: &str) -> (painted: String)
    ensures
        is_painted(Style::Dimmed, text@, painted@),
{
    text.dimmed().to_string()
}

/// Calls `colored::Colorize::red` on `text` and formats what it returns.
///
/// As for [`paint_bold`], the text comes back as it is, or between
/// `ESC [ 3 1 m` and `ESC [ 0 m`.
#[verifier::external_body]
fn paint_red(text: &str) -> (painted: String)
    ensures
        is_painted(Style::Red, text@, painted@),
{
    text.red().to_string()
}

/// Calls `colored::Colorize::green` on `text` and formats what it returns.
///
/// As for [`paint_bold`], the text comes back as it is, or between
/// `ESC [ 3 2 m` and `ESC [ 0 m`.
#[verifier::external_body]
fn paint_green(text: &str) -> (painted: String)
    ensures
        is_painted(Style::Green, text@, painted@),
{
    text.green().to_string()
}

/// Calls `colored::Colorize::cyan` on `text` and formats what it returns.
///
/// As for [`paint_bold`], the text comes back as it is, or between
/// `ESC [ 3 6 m` and `ESC [ 0 m`.
#[verifier::external_body]
fn paint_cyan(text: &str) -> (painted: String)
    ensures
        is_painted(Style::Cyan, text@, painted@),
{
    text.cyan().to_string()
}

impl Span {
    /// A span of `text` in `style`.
    pub fn new(style: Style, text: &str) -> (span: Span)
        ensures
            span@ == (style, text@),
    {
        Span { style, text: String::from_str(text) }
    }

    /// The span as a terminal shows it: a plain span is its text, any other
    /// span is painted in its style.
    pub fn render(&self) -> (rendered: String)
        ensures
            is_span_rendering(self@, rendered@),
    {
        match self.style {
            Style::Plain => self.text.clone(),
            Style::Bold => paint_bold(self.text.as_str()),
            Style::Dimmed => paint_dimmed(self.text.as_str()),
            Style::Red => paint_red(self.text.as_str()),
            Style::Green => paint_green(self.text.as_str()),
            Style::Cyan => paint_cyan(self.text.as_str()),
        }
    }
}

impl Text {
    /// The empty line.
    pub fn new() -> (text: Text)
        ensures
            text@ == Seq::<(Style, Seq<char>)>::empty(),
    {
        let text = Text { spans: Vec::new() };
        assert(text@ =~= Seq::empty());
        text
    }

    /// A line of one plain span.
    pub fn of(text: &str) -> (line: Text)
        ensures
            line@ == seq![(Style::Plain, text@)],
    {
        let mut line = Text::new();
        line.push(Style::Plain, text);
        line
    }

    /// Appends `text` as a span in `style`.
    pub fn push(&mut self, style: Style, text: &str)
        ensures
            final(self)@ == old(self)@.push((style, text@)),
    {
        self.push_span(Span::new(style, text));
    }

    /// Appends a span.
    pub fn push_span(&mut self, span: Span)
        ensures
            final(self)@ == old(self)@.push(span@),
    {
        self.spans.push(span);
        assert(self@ =~= old(self)@.push(span@));
    }

    /// Appends the spans of `tail`.
    pub fn append(&mut self, tail: Text)
        ensures
            final(self)@ == old(self)@ + tail@,
    {
        let mut tail = tail;
        let ghost moved = tail@;
        self.spans.append(&mut tail.spans);
        assert(self@ =~= old(self)@ + moved);
    }

    /// The characters of the line without their styles.
    pub fn unstyled(&self) -> (plain: String)
        ensures
            plain@ == unstyled_of(self@),
    {
        let mut plain = String::new();
        let mut index: usize = 0;
        assert(self@.take(0) =~= Seq::empty());
        while index < self.spans.len()
            invariant
                index <= self.spans.len(),
                plain@ == unstyled_of(self@.take(index as int)),
            decreases self.spans.len() - index,
        {
            plain.append(self.spans[index].text.as_str());
            proof {
                let longer = self@.take(index + 1);
                assert(longer.drop_last() =~= self@.take(index as int));
                assert(longer.last() == self.spans@[index as int]@);
            }
            index = index + 1;
        }
        assert(self@.take(index as int) =~= self@);
        plain
    }

    /// The line as a terminal shows it: each span rendered, in order.
    pub fn render(&self) -> (rendered: String)
        ensures
            is_rendering(self@, rendered@),
    {
        let mut rendered = String::new();
        let mut index: usize = 0;
        assert(self@.take(0) =~= Seq::empty());
        while index < self.spans.len()
            invariant
                index <= self.spans.len(),
                is_rendering(self@.take(index as int), rendered@),
            decreases self.spans.len() - index,
        {
            let ghost before = rendered@;
            let piece = self.spans[index].render();
            rendered.append(piece.as_str());
            proof {
                let longer = self@.take(index + 1);
                let cut = before.len() as int;
                assert(longer.drop_last() =~= self@.take(index as int));
                assert(longer.last() == self.spans@[index as int]@);
                assert(rendered@.take(cut) =~= before);
                assert(rendered@.skip(cut) =~= piece@);
            }
            index = index + 1;
        }
        assert(self@.take(index as int) =~= self@);
        rendered
    }
}

/// The character of a decimal digit.
pub open spec fn digit_of(digit: nat) -> char {
    ((48 + digit) as u8) as char
}

/// A number in decimal digits, without leading zeros.
pub open spec fn decimal_of(number: nat) -> Seq<char>
    decreases number,
{
    if number < 10 {
        seq![digit_of(number)]
    } else {
        decimal_of(number / 10).push(digit_of(number % 10))
    }
}

/// Writes a number in decimal digits.
pub fn decimal(number: u64) -> (digits: String)
    ensures
        digits@ == decimal_of(number as nat),
    decreases number,
{
    if number < 10 {
        let mut digits = String::new();
        digits.push((48 + number as u8) as char);
        digits
    } else {
        let mut digits = decimal(number / 10);
        digits.push((48 + (number % 10) as u8) as char);
        digits
    }
}

/// The character of a hexadecimal digit, in lower case.
pub open spec fn hex_digit_of(digit: nat) -> char {
    if digit < 10 {
        ((48 + digit) as u8) as char
    } else {
        ((87 + digit) as u8) as char
    }
}

/// One byte in printable form: a tab, a carriage return, a line feed, a quote
/// of either kind and a backslash each as a backslash and one more character;
/// any other byte from the space to the tilde as itself; every other byte as
/// a backslash, an `x` and its two hexadecimal digits in lower case.
pub open spec fn escaped_byte(byte: u8) -> Seq<char> {
    if byte == 9 {
        seq!['\\', 't']
    } else if byte == 13 {
        seq!['\\', 'r']
    } else if byte == 10 {
        seq!['\\', 'n']
    } else if byte == 39 {
        seq!['\\', '\'']
    } else if byte == 34 {
        seq!['\\', '"']
    } else if byte == 92 {
        seq!['\\', '\\']
    } else if 32 <= byte <= 126 {
        seq![byte as char]
    } else {
        seq!['\\', 'x', hex_digit_of((byte / 16) as nat), hex_digit_of((byte % 16) as nat)]
    }
}

/// A byte string in printable form: its bytes, each escaped, in order.
pub open spec fn escaped_of(bytes: Seq<u8>) -> Seq<char>
    decreases bytes.len(),
{
    if bytes.len() == 0 {
        Seq::empty()
    } else {
        escaped_of(bytes.drop_last()) + escaped_byte(bytes.last())
    }
}

fn hex_digit(digit: u8) -> (c: char)
    requires
        digit < 16,
    ensures
        c == hex_digit_of(digit as nat),
{
    if digit < 10 {
        (48 + digit) as char
    } else {
        (87 + digit) as char
    }
}

fn push_escaped(out: &mut String, byte: u8)
    ensures
        final(out)@ == old(out)@ + escaped_byte(byte),
{
    if byte == 9 {
        out.push('\\');
        out.push('t');
    } else if byte == 13 {
        out.push('\\');
        out.push('r');
    } else if byte == 10 {
        out.push('\\');
        out.push('n');
    } else if byte == 39 {
        out.push('\\');
        out.push('\'');
    } else if byte == 34 {
        out.push('\\');
        out.push('"');
    } else if byte == 92 {
        out.push('\\');
        out.push('\\');
    } else if 32 <= byte && byte <= 126 {
        out.push(byte as char);
    } else {
        out.push('\\');
        out.push('x');
        out.push(hex_digit(byte / 16));
        out.push(hex_digit(byte % 16));
    }
    assert(out@ =~= old(out)@ + escaped_byte(byte));
}

/// Writes a byte string in printable form.
pub fn escape_ascii(bytes: &Vec<u8>) -> (escaped: String)
    ensures
        escaped@ == escaped_of(bytes@),
{
    let mut escaped = String::new();
    let mut index: usize = 0;
    assert(bytes@.take(0) =~= Seq::empty());
    while index < bytes.len()
        invariant
            index <= bytes.len(),
            escaped@ == escaped_of(bytes@.take(index as int)),
        decreases bytes.len() - index,
    {
        push_escaped(&mut escaped, bytes[index]);
        proof {
            let longer = bytes@.take(index + 1);
            assert(longer.drop_last() =~= bytes@.take(index as int));
            assert(longer.last() == bytes@[index as int]);
        }
        index = index + 1;
    }
    assert(bytes@.take(index as int) =~= bytes@);
    escaped
}

/// The characters of two lines joined are the characters of the one and then
/// of the other.
pub proof fn lemma_unstyled_of_joined(
    head: Seq<(Style, Seq<char>)>,
    tail: Seq<(Style, Seq<char>)>,
)
    ensures
        unstyled_of(head + tail) == unstyled_of(head) + unstyled_of(tail),
    decreases tail.len(),
{
    if tail.len() == 0 {
        assert(head + tail =~= head);
        assert(unstyled_of(head) + unstyled_of(tail) =~= unstyled_of(head));
    } else {
        lemma_unstyled_of_joined(head, tail.drop_last());
        assert((head + tail).drop_last() =~= head + tail.drop_last());
        assert((head + tail).last() == tail.last());
        assert(unstyled_of(head) + (unstyled_of(tail.drop_last()) + tail.last().1) =~= (
        unstyled_of(head) + unstyled_of(tail.drop_last())) + tail.last().1);
    }
}

/// A line of plain spans alone is rendered as its characters: rendering adds
/// nothing of its own.
pub proof fn lemma_plain_line_renders_as_its_text(
    spans: Seq<(Style, Seq<char>)>,
    rendered: Seq<char>,
)
    requires
        forall|i: int| 0 <= i < spans.len() ==> (#[trigger] spans[i]).0 == Style::Plain,
        is_rendering(spans, rendered),
    ensures
        rendered == unstyled_of(spans),
    decreases spans.len(),
{
    if spans.len() == 0 {
        assert(rendered =~= Seq::<char>::empty());
    } else {
        let cut = choose|cut: int|
            #![trigger rendered.take(cut)]
            0 <= cut <= rendered.len() && is_rendering(spans.drop_last(), rendered.take(cut))
                && is_span_rendering(spans.last(), rendered.skip(cut));
        assert(forall|i: int|
            0 <= i < spans.drop_last().len() ==> (#[trigger] spans.drop_last()[i]) == spans[i]);
        lemma_plain_line_renders_as_its_text(spans.drop_last(), rendered.take(cut));
        assert(rendered =~= rendered.take(cut) + rendered.skip(cut));
    }
}

} // verus!
