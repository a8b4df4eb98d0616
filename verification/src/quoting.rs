//! Identifier quoting: the single place where a table or column name is made
//! safe for interpolation into SQL text. Values never go through here; they
//! are always bound as statement parameters.
use vstd::prelude::*;

verus! {

/// The quoted form: a double quote, the identifier with every double quote
/// doubled, and a closing double quote.
pub open spec fn quoted(s: Seq<char>) -> Seq<char> {
    seq!['"'] + escaped_quotes(s) + seq!['"']
}

/// Every double quote in the sequence doubled; all other characters unchanged.
pub open spec fn escaped_quotes(s: Seq<char>) -> Seq<char>
    decreases s.len(),
{
    if s.len() == 0 {
        seq![]
    } else {
        escaped_quotes(s.drop_last()) + (if s.last() == '"' {
            seq!['"', '"']
        } else {
            seq![s.last()]
        })
    }
}

/// A character that needs no quoting: a letter, a digit, or an underscore.
pub open spec fn is_plain_char(c: char) -> bool {
    ('a' <= c && c <= 'z') || ('A' <= c && c <= 'Z') || ('0' <= c && c <= '9') || c == '_'
}

/// An identifier of plain characters only, which even the loose policy
/// leaves unquoted.
pub open spec fn is_plain_identifier(s: Seq<char>) -> bool {
    forall|i: int| 0 <= i < s.len() ==> is_plain_char(#[trigger] s[i])
}

/// Wrap an identifier in double quotes, doubling any embedded double quote,
/// so that it is safe to interpolate into SQL text whatever it holds: an
/// already plain identifier simply gains the two surrounding quotes.
pub fn quote_identifier(identifier: &str) -> (r: String)
    ensures
        r@ == quoted(identifier@),
        is_plain_identifier(identifier@) ==> r@ == seq!['"'] + identifier@ + seq!['"'],
{
    proof {
        if is_plain_identifier(identifier@) {
            assert(forall|i: int|
                0 <= i < identifier@.len() ==> #[trigger] identifier@[i] != '"');
            lemma_escaped_plain(identifier@);
        }
    }
    let n = identifier.unicode_len();
    let mut out = String::new();
    crate::strutil::push_char(&mut out, '"');
    let mut i: usize = 0;
    while i < n
        invariant
            n == identifier@.len(),
            i <= n,
            out@ == seq!['"'] + escaped_quotes(identifier@.subrange(0, i as int)),
        decreases n - i,
    {
        let c = identifier.get_char(i);
        proof {
            assert(identifier@.subrange(0, i + 1).drop_last() =~= identifier@.subrange(
                0,
                i as int,
            ));
        }
        if c == '"' {
            crate::strutil::push_char(&mut out, '"');
            crate::strutil::push_char(&mut out, '"');
        } else {
            crate::strutil::push_char(&mut out, c);
        }
        proof {
            assert(out@ =~= seq!['"'] + escaped_quotes(identifier@.subrange(0, i + 1)));
        }
        i = i + 1;
    }
    proof {
        assert(identifier@.subrange(0, n as int) =~= identifier@);
    }
    crate::strutil::push_char(&mut out, '"');
    proof {
        assert(out@ =~= quoted(identifier@));
    }
    out
}

/// The loose policy: quote only when some character is not plain; a pure
/// alphanumeric or underscore identifier passes through unchanged.
pub fn quote_identifier_if_needed(identifier: &str) -> (r: String)
    ensures
        is_plain_identifier(identifier@) ==> r@ == identifier@,
        !is_plain_identifier(identifier@) ==> r@ == quoted(identifier@),
{
    let n = identifier.unicode_len();
    let mut i: usize = 0;
    let mut plain = true;
    while i < n
        invariant
            n == identifier@.len(),
            i <= n,
            plain == (forall|j: int| 0 <= j < i ==> is_plain_char(#[trigger] identifier@[j])),
        decreases n - i,
    {
        let c = identifier.get_char(i);
        let c_plain = ('a' <= c && c <= 'z') || ('A' <= c && c <= 'Z') || ('0' <= c && c <= '9')
            || c == '_';
        plain = plain && c_plain;
        i = i + 1;
    }
    if plain {
        let mut out = String::new();
        out.append(identifier);
        out
    } else {
        quote_identifier(identifier)
    }
}

/// The inverse of quote escaping: every doubled double quote, read from the
/// end, collapsed back to one character.
pub open spec fn unescaped_quotes(t: Seq<char>) -> Seq<char>
    decreases t.len(),
{
    if t.len() == 0 {
        seq![]
    } else if t.len() >= 2 && t.last() == '"' && t[t.len() - 2] == '"' {
        unescaped_quotes(t.drop_last().drop_last()) + seq!['"']
    } else {
        unescaped_quotes(t.drop_last()) + seq![t.last()]
    }
}

/// Escaping loses nothing: collapsing the doubled quotes gives the identifier
/// back.
pub proof fn lemma_escape_round_trip(s: Seq<char>)
    ensures
        unescaped_quotes(escaped_quotes(s)) == s,
    decreases s.len(),
{
    if s.len() == 0 {
        assert(unescaped_quotes(escaped_quotes(s)) =~= s);
    } else {
        lemma_escape_round_trip(s.drop_last());
        let e = escaped_quotes(s);
        if s.last() == '"' {
            assert(e =~= escaped_quotes(s.drop_last()) + seq!['"', '"']);
            assert(e.drop_last().drop_last() =~= escaped_quotes(s.drop_last()));
            assert(unescaped_quotes(e) =~= s);
        } else {
            assert(e =~= escaped_quotes(s.drop_last()) + seq![s.last()]);
            assert(e.drop_last() =~= escaped_quotes(s.drop_last()));
            assert(unescaped_quotes(e) =~= s);
        }
    }
}

/// No two identifiers share a quoted form: the quoted text determines the
/// identifier, so interpolating quoted names can never conflate two of them.
pub proof fn lemma_quoting_injective(s1: Seq<char>, s2: Seq<char>)
    requires
        quoted(s1) == quoted(s2),
    ensures
        s1 == s2,
{
    let q = quoted(s1);
    assert(escaped_quotes(s1) =~= q.subrange(1, q.len() - 1));
    assert(escaped_quotes(s2) =~= q.subrange(1, q.len() - 1));
    lemma_escape_round_trip(s1);
    lemma_escape_round_trip(s2);
}

/// Escaping changes nothing in an identifier without double quotes.
proof fn lemma_escaped_plain(s: Seq<char>)
    requires
        forall|i: int| 0 <= i < s.len() ==> #[trigger] s[i] != '"',
    ensures
        escaped_quotes(s) == s,
    decreases s.len(),
{
    if s.len() == 0 {
        assert(escaped_quotes(s) =~= s);
    } else {
        lemma_escaped_plain(s.drop_last());
        assert(escaped_quotes(s) =~= s.drop_last() + seq![s.last()]);
        assert(s.drop_last() + seq![s.last()] =~= s);
    }
}

} // verus!
