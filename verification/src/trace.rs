//! The trace of one exchange: short lines of text that record, in order, the
//! attempt to open the endpoint, the bytes sent, the bytes received and the
//! text they decode to.

use vstd::prelude::*;
use vstd::string::*;

verus! {

/// The decimal digit for `d`, which lies between 0 and 9.
pub open spec fn digit_char(d: int) -> char {
    if d == 0 {
        '0'
    } else if d == 1 {
        '1'
    } else if d == 2 {
        '2'
    } else if d == 3 {
        '3'
    } else if d == 4 {
        '4'
    } else if d == 5 {
        '5'
    } else if d == 6 {
        '6'
    } else if d == 7 {
        '7'
    } else if d == 8 {
        '8'
    } else {
        '9'
    }
}

/// A byte in decimal, without leading zeros.
pub open spec fn byte_text(b: u8) -> Seq<char> {
    if b < 10 {
        seq![digit_char(b as int)]
    } else if b < 100 {
        seq![digit_char(b as int / 10), digit_char(b as int % 10)]
    } else {
        seq![digit_char(b as int / 100), digit_char(b as int / 10 % 10), digit_char(b as int % 10)]
    }
}

/// The bytes in decimal, a comma and a space between neighbours.
pub open spec fn joined_bytes(bytes: Seq<u8>) -> Seq<char>
    decreases bytes.len(),
{
    if bytes.len() == 0 {
        Seq::empty()
    } else if bytes.len() == 1 {
        byte_text(bytes[0])
    } else {
        joined_bytes(bytes.drop_last()) + ", "@ + byte_text(bytes.last())
    }
}

/// A byte sequence as it appears in a trace line: `[86, 83, 69]`.
pub open spec fn bytes_text(bytes: Seq<u8>) -> Seq<char> {
    "["@ + joined_bytes(bytes) + "]"@
}

/// The line written before the endpoint is opened.
pub open spec fn opening_text(endpoint: Seq<char>) -> Seq<char> {
    "attempting to open "@ + endpoint
}

/// The line that records the bytes of the command.
pub open spec fn sent_text(bytes: Seq<u8>) -> Seq<char> {
    ">> "@ + bytes_text(bytes)
}

/// The line that records the bytes of the reply.
pub open spec fn received_text(bytes: Seq<u8>) -> Seq<char> {
    "<< "@ + bytes_text(bytes)
}

/// The line that records the reply as text.
pub open spec fn decoded_text(text: Seq<char>) -> Seq<char> {
    "< "@ + text
}

/// All lines in order, each closed by a line feed.
pub open spec fn rendered(lines: Seq<Seq<char>>) -> Seq<char>
    decreases lines.len(),
{
    if lines.len() == 0 {
        Seq::empty()
    } else {
        rendered(lines.drop_last()) + lines.last() + "\n"@
    }
}

/// Whether `c` is a decimal digit.
pub open spec fn is_digit(c: char) -> bool {
    '0' <= c <= '9'
}

/// Different digits have different characters.
proof fn lemma_digit_char_is_injective(x: int, y: int)
    requires
        0 <= x < 10,
        0 <= y < 10,
        digit_char(x) == digit_char(y),
    ensures
        x == y,
{
}

/// A byte is written with one to three digits and nothing else.
pub proof fn lemma_byte_text_is_digits(b: u8)
    ensures
        1 <= byte_text(b).len() <= 3,
        forall|i: int| 0 <= i < byte_text(b).len() ==> is_digit(#[trigger] byte_text(b)[i]),
{
}

/// Different bytes are written differently.
pub proof fn lemma_byte_text_is_injective(a: u8, b: u8)
    requires
        byte_text(a) == byte_text(b),
    ensures
        a == b,
{
    let x = a as int;
    let y = b as int;
    let ta = byte_text(a);
    let tb = byte_text(b);
    if x < 10 {
        assert(ta.len() == 1);
        assert(ta[0] == digit_char(x) && tb[0] == digit_char(y));
        lemma_digit_char_is_injective(x, y);
    } else if x < 100 {
        assert(ta.len() == 2);
        lemma_digit_char_is_injective(x / 10, y / 10);
        lemma_digit_char_is_injective(x % 10, y % 10);
    } else {
        assert(ta.len() == 3);
        lemma_digit_char_is_injective(x / 100, y / 100);
        lemma_digit_char_is_injective(x / 10 % 10, y / 10 % 10);
        lemma_digit_char_is_injective(x % 10, y % 10);
    }
}

/// How the text of a sequence that is not empty ends: with the text of its
/// last byte, which follows a comma and a space if the sequence has more
/// than one byte, and then the text of all bytes before the last comes first.
proof fn lemma_joined_bytes_ends(s: Seq<u8>)
    requires
        s.len() > 0,
    ensures
        ({
            let t = joined_bytes(s);
            let k = byte_text(s.last()).len();
            &&& t.len() >= k
            &&& t.subrange(t.len() - k, t.len() as int) == byte_text(s.last())
            &&& s.len() == 1 ==> t.len() == k
            &&& s.len() >= 2 ==> {
                &&& t.len() >= k + 2
                &&& t[t.len() - k - 1] == ' '
                &&& t[t.len() - k - 2] == ','
                &&& t.subrange(0, t.len() - k - 2) == joined_bytes(s.drop_last())
            }
        }),
{
    reveal_strlit(", ");
}

/// Different byte sequences are written differently.
proof fn lemma_joined_bytes_is_injective(a: Seq<u8>, b: Seq<u8>)
    requires
        joined_bytes(a) == joined_bytes(b),
    ensures
        a == b,
    decreases a.len(),
{
    if a.len() == 0 || b.len() == 0 {
        if a.len() > 0 {
            lemma_joined_bytes_ends(a);
            lemma_byte_text_is_digits(a.last());
        }
        if b.len() > 0 {
            lemma_joined_bytes_ends(b);
            lemma_byte_text_is_digits(b.last());
        }
    } else {
        lemma_joined_bytes_ends(a);
        lemma_joined_bytes_ends(b);
        lemma_byte_text_is_digits(a.last());
        lemma_byte_text_is_digits(b.last());
        // The shorter of the two endings is preceded by a space or by nothing,
        // the longer has a digit in that place: so neither is shorter.
        assert(byte_text(a.last()).len() == byte_text(b.last()).len());
        lemma_byte_text_is_injective(a.last(), b.last());
        if a.len() > 1 && b.len() > 1 {
            lemma_joined_bytes_is_injective(a.drop_last(), b.drop_last());
            assert(b =~= b.drop_last().push(b.last()));
        }
    }
}

/// A trace line tells the bytes it records: byte sequences that are written
/// alike are the same.
pub proof fn lemma_bytes_text_is_injective(a: Seq<u8>, b: Seq<u8>)
    requires
        bytes_text(a) == bytes_text(b),
    ensures
        a == b,
{
    reveal_strlit("[");
    reveal_strlit("]");
    let ja = joined_bytes(a);
    let jb = joined_bytes(b);
    let ta = bytes_text(a);
    let tb = bytes_text(b);
    assert(ja =~= ta.subrange(1, ta.len() - 1));
    assert(jb =~= tb.subrange(1, tb.len() - 1));
    lemma_joined_bytes_is_injective(a, b);
}

/// The lines for the command and for the reply tell the bytes they record.
pub proof fn lemma_lines_tell_their_bytes(a: Seq<u8>, b: Seq<u8>)
    ensures
        sent_text(a) == sent_text(b) ==> a == b,
        received_text(a) == received_text(b) ==> a == b,
{
    reveal_strlit(">> ");
    reveal_strlit("<< ");
    if sent_text(a) == sent_text(b) {
        assert(bytes_text(a) =~= sent_text(a).subrange(3, sent_text(a).len() as int));
        assert(bytes_text(b) =~= sent_text(b).subrange(3, sent_text(b).len() as int));
        lemma_bytes_text_is_injective(a, b);
    }
    if received_text(a) == received_text(b) {
        assert(bytes_text(a) =~= received_text(a).subrange(3, received_text(a).len() as int));
        assert(bytes_text(b) =~= received_text(b).subrange(3, received_text(b).len() as int));
        lemma_bytes_text_is_injective(a, b);
    }
}

fn digit(d: u8) -> (s: &'static str)
    requires
        d < 10,
    ensures
        s@ == seq![digit_char(d as int)],
{
    proof {
        reveal_strlit("0");
        reveal_strlit("1");
        reveal_strlit("2");
        reveal_strlit("3");
        reveal_strlit("4");
        reveal_strlit("5");
        reveal_strlit("6");
        reveal_strlit("7");
        reveal_strlit("8");
        reveal_strlit("9");
    }
    let s = if d == 0 {
        "0"
    } else if d == 1 {
        "1"
    } else if d == 2 {
        "2"
    } else if d == 3 {
        "3"
    } else if d == 4 {
        "4"
    } else if d == 5 {
        "5"
    } else if d == 6 {
        "6"
    } else if d == 7 {
        "7"
    } else if d == 8 {
        "8"
    } else {
        "9"
    };
    s
}

fn append_byte(text: &mut String, b: u8)
    ensures
        final(text)@ == old(text)@ + byte_text(b),
{
    if b >= 100 {
        text.append(digit(b / 100));
    }
    if b >= 10 {
        text.append(digit(b / 10 % 10));
    }
    text.append(digit(b % 10));
}

fn append_bytes(text: &mut String, bytes: &[u8])
    ensures
        final(text)@ == old(text)@ + bytes_text(bytes@),
{
    text.append("[");
    let mut i: usize = 0;
    while i < bytes.len()
        invariant
            i <= bytes.len(),
            text@ == old(text)@ + "["@ + joined_bytes(bytes@.take(i as int)),
        decreases bytes.len() - i,
    {
        let ghost before = bytes@.take(i as int);
        let ghost after = bytes@.take(i + 1);
        assert(after.drop_last() =~= before);
        if i > 0 {
            text.append(", ");
        }
        append_byte(text, bytes[i]);
        i += 1;
    }
    assert(bytes@.take(i as int) =~= bytes@);
    text.append("]");
}

/// A byte sequence as it appears in a trace line.
pub fn render_bytes(bytes: &[u8]) -> (text: String)
    ensures
        text@ == bytes_text(bytes@),
{
    let mut text = String::new();
    append_bytes(&mut text, bytes);
    text
}

/// The line written before the endpoint is opened.
pub fn opening_line(endpoint: &str) -> (line: String)
    ensures
        line@ == opening_text(endpoint@),
{
    let mut line = String::from_str("attempting to open ");
    line.append(endpoint);
    line
}

/// The line that records the bytes of the command.
pub fn sent_line(bytes: &[u8]) -> (line: String)
    ensures
        line@ == sent_text(bytes@),
{
    let mut line = String::from_str(">> ");
    append_bytes(&mut line, bytes);
    line
}

/// The line that records the bytes of the reply.
pub fn received_line(bytes: &[u8]) -> (line: String)
    ensures
        line@ == received_text(bytes@),
{
    let mut line = String::from_str("<< ");
    append_bytes(&mut line, bytes);
    line
}

/// The line that records the reply as text.
pub fn decoded_line(text: &str) -> (line: String)
    ensures
        line@ == decoded_text(text@),
{
    let mut line = String::from_str("< ");
    line.append(text);
    line
}

/// The lines of one exchange, oldest first. A log only ever grows: a line
/// can be added at its end, and nothing in it can be changed or removed.
#[derive(Debug, PartialEq, Eq)]
pub struct TraceLog {
    lines: Vec<String>,
}

impl View for TraceLog {
    type V = Seq<Seq<char>>;

    closed spec fn view(&self) -> Seq<Seq<char>> {
        Seq::new(self.lines@.len(), |i: int| self.lines@[i]@)
    }
}

impl TraceLog {
    /// An empty log.
    pub fn new() -> (log: TraceLog)
        ensures
            log@ == Seq::<Seq<char>>::empty(),
    {
        let log = TraceLog { lines: Vec::new() };
        log
    }

    /// Adds a line at the end.
    pub fn push(&mut self, line: String)
        ensures
            final(self)@ == old(self)@.push(line@),
    {
        self.lines.push(line);
    }

    /// The lines, oldest first.
    pub fn lines(&self) -> (lines: &Vec<String>)
        ensures
            lines@.len() == self@.len(),
            forall|i: int| 0 <= i < lines@.len() ==> (#[trigger] lines@[i])@ == self@[i],
    {
        &self.lines
    }

    /// The whole log as one text, each line closed by a line feed.
    pub fn render(&self) -> (text: String)
        ensures
            text@ == rendered(self@),
    {
        let mut text = String::new();
        let mut i: usize = 0;
        while i < self.lines.len()
            invariant
                i <= self.lines@.len(),
                text@ == rendered(self@.take(i as int)),
            decreases self.lines@.len() - i,
        {
            let ghost after = self@.take(i + 1);
            assert(after.drop_last() =~= self@.take(i as int));
            text.append(self.lines[i].as_str());
            text.append("\n");
            i += 1;
        }
        assert(self@.take(i as int) =~= self@);
        text
    }
}

} // verus!
