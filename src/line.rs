//! Splitting an input line into words, and telling blank lines from commands.
use vstd::prelude::*;

verus! {

/// The word put in front of a line's words, where a command grammar expects
/// the program's name; the grammar ignores it.
pub const PROGRAM_NAME: &'static str = "repl-interface";

/// The characters of [`PROGRAM_NAME`].
pub open spec fn program_name() -> Seq<char> {
    seq!['r', 'e', 'p', 'l', '-', 'i', 'n', 't', 'e', 'r', 'f', 'a', 'c', 'e']
}

/// Whether `c` separates words: exactly the characters of Unicode's
/// White_Space property, as `char::is_whitespace` has them.
pub open spec fn is_separator(c: char) -> bool {
    ('\u{9}' <= c && c <= '\u{d}') || c == '\u{20}' || c == '\u{85}' || c == '\u{a0}'
        || c == '\u{1680}' || ('\u{2000}' <= c && c <= '\u{200a}') || c == '\u{2028}'
        || c == '\u{2029}' || c == '\u{202f}' || c == '\u{205f}' || c == '\u{3000}'
}

/// Reading `s` from the left: the words completed so far, and the word being
/// read when `s` ends (empty between words).
pub open spec fn scan(s: Seq<char>) -> (Seq<Seq<char>>, Seq<char>)
    decreases s.len(),
{
    if s.len() == 0 {
        (Seq::empty(), Seq::empty())
    } else {
        let (done, cur) = scan(s.drop_last());
        if !is_separator(s.last()) {
            (done, cur.push(s.last()))
        } else if cur.len() == 0 {
            (done, cur)
        } else {
            (done.push(cur), Seq::empty())
        }
    }
}

/// The words of `s`: its maximal runs of non-separator characters, in order.
pub open spec fn words(s: Seq<char>) -> Seq<Seq<char>> {
    let (done, cur) = scan(s);
    if cur.len() == 0 {
        done
    } else {
        done.push(cur)
    }
}

/// The first word of `s`, or the empty sequence when `s` holds none.
pub open spec fn first_word(s: Seq<char>) -> Seq<char> {
    if words(s).len() > 0 {
        words(s)[0]
    } else {
        Seq::empty()
    }
}

/// Whether `s` holds no word at all.
pub open spec fn is_blank(s: Seq<char>) -> bool {
    words(s).len() == 0
}

/// The token list handed to a command grammar for the line `s`.
pub open spec fn command_words(s: Seq<char>) -> Seq<Seq<char>> {
    seq![program_name()] + words(s)
}

/// The characters of each string in `v`.
pub open spec fn strings_view(v: Seq<String>) -> Seq<Seq<char>> {
    v.map_values(|w: String| w@)
}

/// The lowercase form of a string, as Unicode defines it.
pub uninterp spec fn lower_of(s: Seq<char>) -> Seq<char>;

/// Relies on str::to_lowercase: the lowercase form depends on the characters
/// alone, and the empty string stays empty.
#[verifier::external_body]
fn lowercase(s: &str) -> (r: String)
    ensures
        r@ == lower_of(s@),
        s@.len() == 0 ==> r@.len() == 0,
{
    s.to_lowercase()
}

/// The words of `line`: its maximal runs of non-separator characters.
pub fn split_words(line: &str) -> (r: Vec<String>)
    ensures
        strings_view(r@) == words(line@),
{
    let n = line.unicode_len();
    let mut out: Vec<String> = Vec::new();
    let mut start: usize = 0;
    let mut in_word = false;
    let mut i: usize = 0;
    while i < n
        invariant
            n == line@.len(),
            i <= n,
            start <= i,
            strings_view(out@) == scan(line@.take(i as int)).0,
            scan(line@.take(i as int)).1 == (if in_word {
                line@.subrange(start as int, i as int)
            } else {
                Seq::empty()
            }),
            in_word ==> start < i,
        decreases n - i,
    {
        let c = line.get_char(i);
        proof {
            assert(line@.take(i + 1).drop_last() =~= line@.take(i as int));
            assert(line@.take(i + 1).last() == c);
        }
        if !is_space(c) {
            if !in_word {
                start = i;
                in_word = true;
            }
            proof {
                assert(line@.subrange(start as int, i + 1) =~= line@.subrange(start as int, i as int).push(c));
            }
        } else if in_word {
            let w = String::from_str(line.substring_char(start, i));
            let ghost before = out@;
            out.push(w);
            proof {
                assert(strings_view(out@) =~= strings_view(before).push(w@));
            }
            in_word = false;
        }
        i = i + 1;
    }
    proof {
        assert(line@.take(n as int) =~= line@);
    }
    if in_word {
        let w = String::from_str(line.substring_char(start, n));
        let ghost before = out@;
        out.push(w);
        proof {
            assert(strings_view(out@) =~= strings_view(before).push(w@));
        }
    }
    out
}

/// Whether `c` separates words.
pub fn is_space(c: char) -> (r: bool)
    ensures
        r == is_separator(c),
{
    ('\u{9}' <= c && c <= '\u{d}') || c == '\u{20}' || c == '\u{85}' || c == '\u{a0}'
        || c == '\u{1680}' || ('\u{2000}' <= c && c <= '\u{200a}') || c == '\u{2028}'
        || c == '\u{2029}' || c == '\u{202f}' || c == '\u{205f}' || c == '\u{3000}'
}

/// What a line asks for, before the processor is consulted.
#[derive(Debug)]
pub enum LineClass {
    /// The line holds no word: nothing is to be done.
    Blank,
    /// The line holds a command, or a request to quit; the lowercase first
    /// word decides which.
    Candidate(String),
}

/// Tells a blank line from one that holds words, and gives the lowercase
/// first word of the latter.
pub fn classify_line(line: &str) -> (r: LineClass)
    ensures
        match r {
            LineClass::Blank => is_blank(line@),
            LineClass::Candidate(head) => !is_blank(line@) && head@ == lower_of(first_word(line@)),
        },
{
    let ws = split_words(line);
    if ws.len() == 0 {
        LineClass::Blank
    } else {
        let head = lowercase(ws[0].as_str());
        LineClass::Candidate(head)
    }
}

/// The token list that a command grammar is given for `line`: the program
/// name, then the words of the line.
pub fn command_tokens(line: &str) -> (r: Vec<String>)
    ensures
        strings_view(r@) == command_words(line@),
{
    let ws = split_words(line);
    let mut out: Vec<String> = Vec::new();
    out.push(String::from_str(PROGRAM_NAME));
    proof {
        reveal_strlit("repl-interface");
        assert(PROGRAM_NAME@ =~= program_name());
        assert(strings_view(out@) =~= seq![program_name()]);
    }
    let mut i: usize = 0;
    while i < ws.len()
        invariant
            i <= ws@.len(),
            strings_view(ws@) == words(line@),
            strings_view(out@) =~= seq![program_name()] + strings_view(ws@).take(i as int),
        decreases ws@.len() - i,
    {
        let ghost before = out@;
        out.push(ws[i].clone());
        proof {
            assert(strings_view(out@) =~= strings_view(before).push(ws@[i as int]@));
            assert(strings_view(ws@).take(i + 1) =~= strings_view(ws@).take(i as int).push(ws@[i as int]@));
        }
        i = i + 1;
    }
    proof {
        assert(strings_view(ws@).take(ws@.len() as int) =~= strings_view(ws@));
    }
    out
}

} // verus!
