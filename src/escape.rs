use vstd::prelude::*;
use vstd::string::StrSliceExecFns;

verus! {

/// Whether a character is escaped: every character whose code lies between 1
/// and 126 may, and here always does, get a preceding backslash in MarkdownV2.
pub open spec fn needs_escape(c: char) -> bool {
    1 <= c as u32 && c as u32 <= 126
}

/// The escaped form of one character.
pub open spec fn escape_char(c: char) -> Seq<char> {
    if needs_escape(c) {
        seq!['\\', c]
    } else {
        seq![c]
    }
}

/// The escaped form of a whole text: each character escaped in turn.
pub open spec fn escaped(s: Seq<char>) -> Seq<char>
    decreases s.len(),
{
    if s.len() == 0 {
        Seq::empty()
    } else {
        escaped(s.drop_last()) + escape_char(s.last())
    }
}

/// Relies on String::push: appends one character.
#[verifier::external_body]
fn push_char(s: &mut String, c: char)
    ensures
        final(s)@ == old(s)@.push(c),
{
    s.push(c);
}

/// Escapes every character of `string` with code 1 to 126 by a backslash, so
/// that the text shows literally in a MarkdownV2 message.
pub fn markdown_escape(string: String) -> (r: String)
    ensures
        r@ == escaped(string@),
{
    let s: &str = string.as_str();
    let n: usize = s.unicode_len();
    let mut out = String::new();
    let mut i: usize = 0;
    while i < n
        invariant
            n == s@.len(),
            s@ == string@,
            i <= n,
            out@ == escaped(s@.subrange(0, i as int)),
        decreases n - i,
    {
        let c = s.get_char(i);
        proof {
            assert(s@.subrange(0, i + 1).drop_last() =~= s@.subrange(0, i as int));
        }
        if (1u32 <= c as u32) && (c as u32 <= 126u32) {
            push_char(&mut out, '\\');
        }
        push_char(&mut out, c);
        i = i + 1;
    }
    proof {
        assert(s@.subrange(0, n as int) =~= s@);
    }
    out
}

} // verus!
