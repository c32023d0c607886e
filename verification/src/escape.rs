//! XML text escaping. Free-text request parameters are escaped, never
//! rejected: the five XML entities stand in for the characters that would
//! otherwise break the envelope's structure.

use vstd::prelude::*;
use crate::strings::push_char;

verus! {

/// The wire form of one character of text content.
pub open spec fn entity_of(c: char) -> Seq<char> {
    match c {
        '&' => seq!['&', 'a', 'm', 'p', ';'],
        '<' => seq!['&', 'l', 't', ';'],
        '>' => seq!['&', 'g', 't', ';'],
        '"' => seq!['&', 'q', 'u', 'o', 't', ';'],
        '\'' => seq!['&', 'a', 'p', 'o', 's', ';'],
        _ => seq![c],
    }
}

/// The escaped form of a piece of text.
pub open spec fn escape_seq(s: Seq<char>) -> Seq<char>
    decreases s.len(),
{
    if s.len() == 0 {
        Seq::empty()
    } else {
        entity_of(s[0]) + escape_seq(s.skip(1))
    }
}

/// Prepends one unescaped character to an unescape result.
pub open spec fn unescape_cons(c: char, rest: Option<Seq<char>>) -> Option<Seq<char>> {
    match rest {
        Some(r) => Some(seq![c] + r),
        None => None,
    }
}

/// Reads escaped text back: each entity becomes its character, a bare
/// ampersand that starts no known entity is malformed.
pub open spec fn unescape_seq(s: Seq<char>) -> Option<Seq<char>>
    decreases s.len(),
{
    if s.len() == 0 {
        Some(Seq::empty())
    } else if s[0] == '&' {
        if s.len() >= 5 && s.subrange(0, 5) == entity_of('&') {
            unescape_cons('&', unescape_seq(s.skip(5)))
        } else if s.len() >= 4 && s.subrange(0, 4) == entity_of('<') {
            unescape_cons('<', unescape_seq(s.skip(4)))
        } else if s.len() >= 4 && s.subrange(0, 4) == entity_of('>') {
            unescape_cons('>', unescape_seq(s.skip(4)))
        } else if s.len() >= 6 && s.subrange(0, 6) == entity_of('"') {
            unescape_cons('"', unescape_seq(s.skip(6)))
        } else if s.len() >= 6 && s.subrange(0, 6) == entity_of('\'') {
            unescape_cons('\'', unescape_seq(s.skip(6)))
        } else {
            None
        }
    } else {
        unescape_cons(s[0], unescape_seq(s.skip(1)))
    }
}

/// Escaping one more character appends its entity.
proof fn lemma_escape_snoc(s: Seq<char>, c: char)
    ensures
        escape_seq(s.push(c)) == escape_seq(s) + entity_of(c),
    decreases s.len(),
{
    if s.len() == 0 {
        assert(s.push(c)[0] == c);
        assert(s.push(c).skip(1) =~= Seq::<char>::empty());
        assert(escape_seq(Seq::<char>::empty()) == Seq::<char>::empty());
        assert(escape_seq(s.push(c)) == entity_of(c) + escape_seq(s.push(c).skip(1)));
        assert(escape_seq(s.push(c)) =~= escape_seq(s) + entity_of(c));
    } else {
        lemma_escape_snoc(s.skip(1), c);
        assert(s.push(c).skip(1) =~= s.skip(1).push(c));
        assert(s.push(c)[0] == s[0]);
        assert(escape_seq(s.push(c)) == entity_of(s[0]) + escape_seq(s.skip(1).push(c)));
        assert(escape_seq(s) == entity_of(s[0]) + escape_seq(s.skip(1)));
        assert(escape_seq(s.push(c)) =~= escape_seq(s) + entity_of(c));
    }
}

/// Appends the escaped form of `s` to `out`.
pub fn push_escaped(out: &mut String, s: &str)
    ensures
        final(out)@ == old(out)@ + escape_seq(s@),
{
    let len = s.unicode_len();
    let mut i: usize = 0;
    proof {
        assert(s@.subrange(0, 0) =~= Seq::<char>::empty());
    }
    while i < len
        invariant
            i <= len == s@.len(),
            out@ == old(out)@ + escape_seq(s@.subrange(0, i as int)),
        decreases len - i,
    {
        let c = s.get_char(i);
        if c == '&' {
            proof {
                reveal_strlit("&amp;");
                assert("&amp;"@ =~= entity_of('&'));
            }
            out.append("&amp;");
        } else if c == '<' {
            proof {
                reveal_strlit("&lt;");
                assert("&lt;"@ =~= entity_of('<'));
            }
            out.append("&lt;");
        } else if c == '>' {
            proof {
                reveal_strlit("&gt;");
                assert("&gt;"@ =~= entity_of('>'));
            }
            out.append("&gt;");
        } else if c == '"' {
            proof {
                reveal_strlit("&quot;");
                assert("&quot;"@ =~= entity_of('"'));
            }
            out.append("&quot;");
        } else if c == '\'' {
            proof {
                reveal_strlit("&apos;");
                assert("&apos;"@ =~= entity_of('\''));
            }
            out.append("&apos;");
        } else {
            push_char(out, c);
            proof {
                assert(out@ =~= old(out)@ + escape_seq(s@.subrange(0, i as int)) + entity_of(c));
            }
        }
        proof {
            lemma_escape_snoc(s@.subrange(0, i as int), c);
            assert(s@.subrange(0, i + 1) =~= s@.subrange(0, i as int).push(c));
            assert(out@ =~= old(out)@ + escape_seq(s@.subrange(0, i + 1)));
        }
        i += 1;
    }
    proof {
        assert(s@.subrange(0, len as int) =~= s@);
    }
}

/// Escapes `s` into a fresh string.
pub fn escape_text(s: &str) -> (r: String)
    ensures
        r@ == escape_seq(s@),
{
    let mut out = String::new();
    push_escaped(&mut out, s);
    out
}

/// Escaping never loses text: reading the escaped form back yields the
/// original, character for character.
pub proof fn lemma_escape_round_trip(s: Seq<char>)
    ensures
        unescape_seq(escape_seq(s)) == Some(s),
    decreases s.len(),
{
    if s.len() == 0 {
        assert(escape_seq(s) =~= Seq::<char>::empty());
        assert(s =~= Seq::<char>::empty());
    } else {
        let c = s[0];
        let rest = s.skip(1);
        lemma_escape_round_trip(rest);
        let ent = entity_of(c);
        let e = escape_seq(s);
        let tail = escape_seq(rest);
        assert(e == ent + tail);
        assert(e.len() >= ent.len());
        assert(forall|t: int| 0 <= t < ent.len() ==> e[t] == ent[t]);
        assert(e.skip(ent.len() as int) =~= tail);
        if c == '&' {
            assert(e.subrange(0, 5) =~= ent);
            assert(seq!['&'] + rest =~= s);
        } else if c == '<' {
            assert(e[0] == '&');
            if e.len() >= 5 {
                assert(e.subrange(0, 5)[1] == e[1]);
                assert(e.subrange(0, 5) != entity_of('&'));
            }
            assert(e.subrange(0, 4) =~= ent);
            assert(seq!['<'] + rest =~= s);
        } else if c == '>' {
            assert(e[0] == '&');
            if e.len() >= 5 {
                assert(e.subrange(0, 5)[1] == e[1]);
                assert(e.subrange(0, 5) != entity_of('&'));
            }
            assert(e.subrange(0, 4)[1] == e[1]);
            assert(e.subrange(0, 4) != entity_of('<'));
            assert(e.subrange(0, 4) =~= ent);
            assert(seq!['>'] + rest =~= s);
        } else if c == '"' {
            assert(e[0] == '&');
            assert(e.subrange(0, 5)[1] == e[1]);
            assert(e.subrange(0, 5) != entity_of('&'));
            assert(e.subrange(0, 4)[1] == e[1]);
            assert(e.subrange(0, 4) != entity_of('<'));
            assert(e.subrange(0, 4) != entity_of('>'));
            assert(e.subrange(0, 6) =~= ent);
            assert(seq!['"'] + rest =~= s);
        } else if c == '\'' {
            assert(e[0] == '&');
            assert(e.subrange(0, 5)[2] == e[2]);
            assert(e.subrange(0, 5) != entity_of('&'));
            assert(e.subrange(0, 4)[1] == e[1]);
            assert(e.subrange(0, 4) != entity_of('<'));
            assert(e.subrange(0, 4) != entity_of('>'));
            assert(e.subrange(0, 6)[1] == e[1]);
            assert(e.subrange(0, 6) != entity_of('"'));
            assert(e.subrange(0, 6) =~= ent);
            assert(seq!['\''] + rest =~= s);
        } else {
            assert(e[0] == c);
            assert(e.skip(1) =~= tail);
            assert(seq![c] + rest =~= s);
        }
    }
}

} // verus!
