//! Line endings.

use vstd::prelude::*;

verus! {

/// `s` with every carriage return that stands before a line feed taken
/// out. A carriage return before anything else stays.
pub open spec fn unix_newlines(s: Seq<char>) -> Seq<char>
    decreases s.len(),
{
    if s.len() == 0 {
        s
    } else if s[0] == '\r' && s.len() >= 2 && s[1] == '\n' {
        unix_newlines(s.subrange(1, s.len() as int))
    } else {
        seq![s[0]] + unix_newlines(s.subrange(1, s.len() as int))
    }
}

/// Turns the line endings of `text` into line feeds.
///
/// Trusted: `newline_converter::dos2unix` walks the characters of its
/// argument and leaves out each carriage return that a line feed
/// follows; everything else it keeps, in order.
#[verifier::external_body]
fn dos2unix(text: &str) -> (r: String)
    ensures
        r@ == unix_newlines(text@),
{
    newline_converter::dos2unix(text).into_owned()
}

/// `s` with line feeds for line endings and a line feed at its end.
pub open spec fn fixed_newlines(s: Seq<char>) -> Seq<char> {
    let u = unix_newlines(s);
    if u.len() > 0 && u.last() == '\n' {
        u
    } else {
        u.push('\n')
    }
}

/// Normalises the line endings of `text`: every line ends with a single
/// line feed, the last line too.
pub fn fix_newlines(text: &str) -> (r: String)
    ensures
        r@ == fixed_newlines(text@),
        r@.len() > 0,
        r@.last() == '\n',
{
    let u = dos2unix(text);
    let n = u.as_str().unicode_len();
    if n > 0 && u.as_str().get_char(n - 1) == '\n' {
        u
    } else {
        proof {
            reveal_strlit("\n");
            assert("\n"@ =~= seq!['\n']);
            assert(u@ + seq!['\n'] =~= u@.push('\n'));
        }
        u.concat("\n")
    }
}

/// A text without carriage returns keeps its line endings.
pub proof fn lemma_unix_newlines_plain(s: Seq<char>)
    requires
        forall|i: int| 0 <= i < s.len() ==> #[trigger] s[i] != '\r',
    ensures
        unix_newlines(s) == s,
    decreases s.len(),
{
    if s.len() > 0 {
        let t = s.subrange(1, s.len() as int);
        assert forall|i: int| 0 <= i < t.len() implies #[trigger] t[i] != '\r' by {
            assert(t[i] == s[i + 1]);
        }
        lemma_unix_newlines_plain(t);
        assert(s =~= seq![s[0]] + t);
    }
}

/// A text without carriage returns that ends with a line feed is
/// normal: fixing its line endings changes nothing.
pub proof fn lemma_fixed_newlines_plain(s: Seq<char>)
    requires
        forall|i: int| 0 <= i < s.len() ==> #[trigger] s[i] != '\r',
        s.len() > 0,
        s.last() == '\n',
    ensures
        fixed_newlines(s) == s,
{
    lemma_unix_newlines_plain(s);
}

} // verus!
