//! Anchor slug derivation: spaces become hyphens, ASCII letters are folded to
//! lower case, a fixed punctuation class is stripped, and the canonical date
//! text is appended. The character class is a versioned constant: changing it
//! would change every previously generated anchor link.

use crate::date::{date_chars, serialize_naive_date, Date};
use crate::strutil::push_char;
use vstd::prelude::*;
use vstd::string::StringExecFns;

verus! {

/// Simple case folding: ASCII capital letters map to lower case, every other
/// character passes through unchanged.
pub open spec fn ascii_lower(c: char) -> char {
    if 65 <= c as int <= 90 {
        ((c as int + 32) as char)
    } else {
        c
    }
}

/// Normalizing one title character: the ASCII space and the full-width space
/// become a hyphen; everything else is case folded.
pub open spec fn slug_map_char(c: char) -> char {
    if c == ' ' || c == '　' {
        '-'
    } else {
        ascii_lower(c)
    }
}

/// The fixed punctuation class removed from slugs: a set of ASCII marks and a
/// set of full-width marks. Characters outside this class — hyphens and
/// underscores among them — are preserved.
pub open spec fn is_slug_strip(c: char) -> bool {
    ||| c == '!'
    ||| c == '@'
    ||| c == '#'
    ||| c == '$'
    ||| c == '%'
    ||| c == '^'
    ||| c == '&'
    ||| c == '*'
    ||| c == '('
    ||| c == ')'
    ||| c == '+'
    ||| c == '|'
    ||| c == '~'
    ||| c == '='
    ||| c == '`'
    ||| c == '['
    ||| c == ']'
    ||| c == '{'
    ||| c == '}'
    ||| c == ';'
    ||| c == '\''
    ||| c == '"'
    ||| c == ','
    ||| c == '.'
    ||| c == '<'
    ||| c == '>'
    ||| c == '?'
    ||| c == '！'
    ||| c == '＂'
    ||| c == '＃'
    ||| c == '＄'
    ||| c == '％'
    ||| c == '＆'
    ||| c == '＇'
    ||| c == '（'
    ||| c == '）'
    ||| c == '＊'
    ||| c == '＋'
    ||| c == '，'
    ||| c == '－'
    ||| c == '．'
    ||| c == '／'
    ||| c == '：'
    ||| c == '；'
    ||| c == '＜'
    ||| c == '＝'
    ||| c == '＞'
    ||| c == '？'
    ||| c == '＠'
    ||| c == '［'
    ||| c == '＼'
    ||| c == '］'
    ||| c == '＾'
    ||| c == '＿'
    ||| c == '｀'
    ||| c == '｛'
    ||| c == '｜'
    ||| c == '｝'
    ||| c == '～'
}

/// What one title character contributes to the slug: its normalized form,
/// unless that form falls in the stripped punctuation class.
pub open spec fn slug_step(c: char) -> Seq<char> {
    let m = slug_map_char(c);
    if is_slug_strip(m) {
        Seq::empty()
    } else {
        seq![m]
    }
}

/// The sanitized form of a whole title.
pub open spec fn slug_title_chars(s: Seq<char>) -> Seq<char>
    decreases s.len(),
{
    if s.len() == 0 {
        Seq::empty()
    } else {
        slug_title_chars(s.drop_last()) + slug_step(s.last())
    }
}

/// The anchor slug of a title and a date:
/// `"#" + sanitized title + "-" + canonical date text`.
pub open spec fn slug_chars(title: Seq<char>, d: Date) -> Seq<char> {
    seq!['#'] + slug_title_chars(title) + seq!['-'] + date_chars(d)
}

fn slug_map_char_exec(c: char) -> (r: char)
    ensures
        r == slug_map_char(c),
{
    if c == ' ' || c == '　' {
        '-'
    } else {
        let u = c as u32;
        if 65 <= u && u <= 90 {
            let b = (u as u8) + 32;
            b as char
        } else {
            c
        }
    }
}

fn is_slug_strip_exec(c: char) -> (r: bool)
    ensures
        r == is_slug_strip(c),
{
    match c {
        '!' | '@' | '#' | '$' | '%' | '^' | '&' | '*' | '(' | ')' | '+' | '|' | '~' | '=' | '`'
            | '[' | ']' | '{' | '}' | ';' | '\'' | '"' | ',' | '.' | '<' | '>' | '?' => true,
        '！' | '＂' | '＃' | '＄' | '％' | '＆' | '＇' | '（' | '）' | '＊' | '＋' | '，' | '－'
            | '．' | '／' | '：' | '；' | '＜' | '＝' | '＞' | '？' | '＠' | '［' | '＼' | '］'
            | '＾' | '＿' | '｀' | '｛' | '｜' | '｝' | '～' => true,
        _ => false,
    }
}

/// Derives the anchor slug of a title and a date, exactly as [`slug_chars`]
/// says. Total in the title: any character content is accepted, an all-stripped
/// title included.
pub fn make_anchor_link(title: &str, date: &Date) -> (r: String)
    requires
        date.valid(),
    ensures
        r@ == slug_chars(title@, *date),
{
    let mut s = String::new();
    push_char(&mut s, '#');
    proof {
        assert(title@.take(0) =~= Seq::<char>::empty());
        assert(s@ =~= seq!['#'] + slug_title_chars(title@.take(0)));
    }
    let n = title.unicode_len();
    let mut i: usize = 0;
    while i < n
        invariant
            i <= n,
            n == title@.len(),
            s@ == seq!['#'] + slug_title_chars(title@.take(i as int)),
        decreases n - i,
    {
        let c = title.get_char(i);
        let m = slug_map_char_exec(c);
        proof {
            assert(title@.take(i as int + 1).drop_last() =~= title@.take(i as int));
            assert(title@.take(i as int + 1).last() == title@[i as int]);
        }
        if !is_slug_strip_exec(m) {
            push_char(&mut s, m);
            proof {
                assert(s@ =~= seq!['#'] + slug_title_chars(title@.take(i as int + 1)));
            }
        } else {
            proof {
                assert(s@ =~= seq!['#'] + slug_title_chars(title@.take(i as int + 1)));
            }
        }
        i += 1;
    }
    proof {
        assert(title@.take(n as int) =~= title@);
    }
    push_char(&mut s, '-');
    let d = serialize_naive_date(date);
    s.append(d.as_str());
    proof {
        assert(s@ =~= slug_chars(title@, *date));
    }
    s
}

} // verus!
