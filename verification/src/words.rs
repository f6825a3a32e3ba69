//! Splitting a console line into words.
//!
//! Blanks separate words. A single or double quote opens a stretch that ends
//! at the next quote of the same kind; inside it blanks and the other kind
//! of quote are ordinary characters. The quotes themselves are dropped, and
//! a quoted stretch joins the word it touches. There are no escapes. A quote
//! that is never closed holds the rest of the line.

use vstd::prelude::*;
use vstd::string::*;
use crate::item::texts;

verus! {

/// The characters that separate words: space, tab, line feed, form feed and
/// carriage return.
pub open spec fn is_blank(c: char) -> bool {
    c == ' ' || c == '\t' || c == '\n' || c == '\x0C' || c == '\r'
}

/// The two quote characters.
pub open spec fn is_quote(c: char) -> bool {
    c == '"' || c == '\''
}

/// Where the scan stands.
pub enum Mode {
    /// Outside any word.
    Between,
    /// Inside a word, outside quotes.
    Word,
    /// Inside a stretch opened by this quote character.
    Quoted(char),
}

/// The scan after some prefix of the line: the words completed so far, the
/// characters of the word under way, and the mode.
pub struct Scan {
    pub words: Seq<Seq<char>>,
    pub word: Seq<char>,
    pub mode: Mode,
}

/// The scan before the first character.
pub open spec fn start() -> Scan {
    Scan { words: Seq::empty(), word: Seq::empty(), mode: Mode::Between }
}

/// The scan after one more character.
pub open spec fn step(s: Scan, c: char) -> Scan {
    match s.mode {
        Mode::Quoted(q) => if c == q {
            Scan { mode: Mode::Word, ..s }
        } else {
            Scan { word: s.word.push(c), ..s }
        },
        Mode::Word => if is_quote(c) {
            Scan { mode: Mode::Quoted(c), ..s }
        } else if is_blank(c) {
            Scan { words: s.words.push(s.word), word: Seq::empty(), mode: Mode::Between }
        } else {
            Scan { word: s.word.push(c), ..s }
        },
        Mode::Between => if is_quote(c) {
            Scan { mode: Mode::Quoted(c), ..s }
        } else if is_blank(c) {
            s
        } else {
            Scan { word: s.word.push(c), mode: Mode::Word, ..s }
        },
    }
}

/// The scan `s` carried on over `line`.
pub open spec fn scan_from(s: Scan, line: Seq<char>) -> Scan {
    line.fold_left(s, |s: Scan, c: char| step(s, c))
}

/// The scan after all of `line`.
pub open spec fn scan(line: Seq<char>) -> Scan {
    scan_from(start(), line)
}

/// The words once the line has ended: a word under way is completed, an
/// open quote is taken as closed.
pub open spec fn finish(s: Scan) -> Seq<Seq<char>> {
    match s.mode {
        Mode::Between => s.words,
        _ => s.words.push(s.word),
    }
}

/// The words of a line.
pub open spec fn words_of(line: Seq<char>) -> Seq<Seq<char>> {
    finish(scan(line))
}

/// Scanning one character more is one step more.
pub proof fn scan_push(line: Seq<char>, c: char)
    ensures
        scan(line.push(c)) == step(scan(line), c),
{
    scan_from_push(start(), line, c);
}

/// Carrying a scan on over one character more is one step more.
pub proof fn scan_from_push(s: Scan, line: Seq<char>, c: char)
    ensures
        scan_from(s, line.push(c)) == step(scan_from(s, line), c),
{
    assert(line.push(c).drop_last() =~= line);
}

/// Scanning two stretches in a row is scanning the second from where the
/// first ended.
pub proof fn scan_from_concat(s: Scan, a: Seq<char>, b: Seq<char>)
    ensures
        scan_from(s, a + b) == scan_from(scan_from(s, a), b),
    decreases b.len(),
{
    if b.len() == 0 {
        assert(a + b =~= a);
    } else {
        scan_from_concat(s, a, b.drop_last());
        assert(a + b =~= (a + b.drop_last()).push(b.last()));
        scan_from_push(s, a + b.drop_last(), b.last());
        assert(b =~= b.drop_last().push(b.last()));
        scan_from_push(scan_from(s, a), b.drop_last(), b.last());
    }
}

/// The scan `t` with the words `before` put in front of its own.
pub open spec fn after_words(before: Seq<Seq<char>>, t: Scan) -> Scan {
    Scan { words: before + t.words, ..t }
}

/// Words already completed take no part in what follows: a scan carried
/// on from between words is the scan of the rest, behind the words so far.
pub proof fn scan_from_between(before: Seq<Seq<char>>, line: Seq<char>)
    ensures
        scan_from(Scan { words: before, word: Seq::empty(), mode: Mode::Between }, line)
            == after_words(before, scan(line)),
    decreases line.len(),
{
    let from = Scan { words: before, word: Seq::empty(), mode: Mode::Between };
    if line.len() == 0 {
        assert(before + start().words =~= before);
    } else {
        let head = line.drop_last();
        let c = line.last();
        scan_from_between(before, head);
        assert(line =~= head.push(c));
        scan_from_push(from, head, c);
        scan_from_push(start(), head, c);
        let t = scan(head);
        assert((before + t.words).push(t.word) =~= before + t.words.push(t.word));
    }
}

/// Between words no word is under way.
pub proof fn between_has_no_word(line: Seq<char>)
    ensures
        scan(line).mode is Between ==> scan(line).word.len() == 0,
    decreases line.len(),
{
    if line.len() > 0 {
        between_has_no_word(line.drop_last());
        assert(line =~= line.drop_last().push(line.last()));
        scan_push(line.drop_last(), line.last());
    }
}

/// A blank outside quotes separates: the words of `a`, a blank and `b` are
/// the words of `a` followed by the words of `b`, as long as `a` leaves no
/// quote open.
pub proof fn blank_separates(a: Seq<char>, blank: char, b: Seq<char>)
    requires
        is_blank(blank),
        !(scan(a).mode is Quoted),
    ensures
        words_of(a.push(blank) + b) == words_of(a) + words_of(b),
{
    let before = words_of(a);
    let gap = Scan { words: before, word: Seq::empty(), mode: Mode::Between };
    scan_push(a, blank);
    between_has_no_word(a);
    assert(scan(a.push(blank)).word =~= gap.word);
    assert(scan(a.push(blank)) == gap);
    scan_from_concat(start(), a.push(blank), b);
    scan_from_between(before, b);
    let t = scan(b);
    assert((before + t.words).push(t.word) =~= before + t.words.push(t.word));
}

/// Inside quotes every character but the closing quote is taken as it is.
pub proof fn quoted_stretch(s: Scan, q: char, inner: Seq<char>)
    requires
        s.mode == Mode::Quoted(q),
        forall|i: int| 0 <= i < inner.len() ==> inner[i] != q,
    ensures
        scan_from(s, inner) == (Scan { word: s.word + inner, ..s }),
    decreases inner.len(),
{
    if inner.len() == 0 {
        assert(s.word + inner =~= s.word);
    } else {
        let head = inner.drop_last();
        quoted_stretch(s, q, head);
        assert(inner =~= head.push(inner.last()));
        scan_from_push(s, head, inner.last());
        assert((s.word + head).push(inner.last()) =~= s.word + inner);
    }
}

/// Outside quotes every character that is neither blank nor quote is taken
/// into the word under way.
pub proof fn plain_stretch(s: Scan, plain: Seq<char>)
    requires
        !(s.mode is Quoted),
        plain.len() > 0,
        forall|i: int| 0 <= i < plain.len() ==> !is_blank(plain[i]) && !is_quote(plain[i]),
    ensures
        scan_from(s, plain) == (Scan { word: s.word + plain, mode: Mode::Word, ..s }),
    decreases plain.len(),
{
    let head = plain.drop_last();
    let c = plain.last();
    assert(plain =~= head.push(c));
    scan_from_push(s, head, c);
    if head.len() == 0 {
        assert(s.word.push(c) =~= s.word + plain);
    } else {
        plain_stretch(s, head);
        assert((s.word + head).push(c) =~= s.word + plain);
    }
}

/// A stretch without blanks and quotes is one word.
pub proof fn plain_is_one_word(plain: Seq<char>)
    requires
        plain.len() > 0,
        forall|i: int| 0 <= i < plain.len() ==> !is_blank(plain[i]) && !is_quote(plain[i]),
    ensures
        words_of(plain) == seq![plain],
{
    plain_stretch(start(), plain);
    assert(Seq::<char>::empty() + plain =~= plain);
    assert(Seq::<Seq<char>>::empty().push(plain) =~= seq![plain]);
}

/// What stands between two quotes of one kind is one word, blanks and all,
/// as long as that quote does not occur in it.
pub proof fn quoted_is_one_word(q: char, inner: Seq<char>)
    requires
        is_quote(q),
        forall|i: int| 0 <= i < inner.len() ==> inner[i] != q,
    ensures
        words_of(seq![q] + inner + seq![q]) == seq![inner],
{
    let open = Scan { words: Seq::empty(), word: Seq::empty(), mode: Mode::Quoted(q) };
    assert(seq![q] =~= Seq::<char>::empty().push(q));
    scan_push(Seq::empty(), q);
    assert(scan(seq![q]) == open);
    scan_from_concat(start(), seq![q], inner);
    quoted_stretch(open, q, inner);
    assert(Seq::<char>::empty() + inner =~= inner);
    assert(seq![q] + inner + seq![q] =~= (seq![q] + inner).push(q));
    scan_push(seq![q] + inner, q);
    assert(Seq::<Seq<char>>::empty().push(inner) =~= seq![inner]);
}

/// The words of `line`, in order.
pub fn tokenize(line: &str) -> (words: Vec<String>)
    ensures
        texts(words@) == words_of(line@),
{
    let n = line.unicode_len();
    let mut words: Vec<String> = Vec::new();
    let mut word = String::new();
    let mut quote: Option<char> = None;
    let mut inside = false;
    let mut i: usize = 0;
    proof {
        assert(line@.take(0) =~= Seq::<char>::empty());
        assert(texts(words@) =~= Seq::<Seq<char>>::empty());
        assert(scan(Seq::<char>::empty()) == start());
    }
    while i < n
        invariant
            i <= n,
            n == line@.len(),
            scan(line@.take(i as int)) == (Scan {
                words: texts(words@),
                word: word@,
                mode: match quote {
                    Some(q) => Mode::Quoted(q),
                    None => if inside {
                        Mode::Word
                    } else {
                        Mode::Between
                    },
                },
            }),
        decreases n - i,
    {
        let c = line.get_char(i);
        proof {
            scan_push(line@.take(i as int), c);
            assert(line@.take(i as int).push(c) =~= line@.take(i + 1));
        }
        let ghost before = texts(words@);
        let ghost letters = word@;
        match quote {
            Some(q) => {
                if c == q {
                    quote = None;
                    inside = true;
                } else {
                    word.append(line.substring_char(i, i + 1));
                    assert(word@ =~= letters.push(c));
                }
            },
            None => {
                if c == '"' || c == '\'' {
                    quote = Some(c);
                } else if c == ' ' || c == '\t' || c == '\n' || c == '\x0C' || c == '\r' {
                    if inside {
                        words.push(word);
                        word = String::new();
                        inside = false;
                        assert(texts(words@) =~= before.push(letters));
                    }
                } else {
                    word.append(line.substring_char(i, i + 1));
                    inside = true;
                    assert(word@ =~= letters.push(c));
                }
            },
        }
        i += 1;
    }
    assert(line@.take(i as int) =~= line@);
    if inside || quote.is_some() {
        let ghost before = texts(words@);
        words.push(word);
        assert(texts(words@) =~= before.push(word@));
    }
    words
}

} // verus!
