//! Moving between strings and sequences of characters.

use vstd::prelude::*;
use vstd::string::StringExecFns;

verus! {

/// `String::push` appends exactly one character to the end of the string.
pub assume_specification[ String::push ](s: &mut String, ch: char)
    ensures
        final(s)@ == old(s)@.push(ch),
;

/// The characters of `s`, in order.
pub fn chars_of(s: &str) -> (out: Vec<char>)
    ensures
        out@ == s@,
{
    let mut out: Vec<char> = Vec::new();
    for c in it: s.chars()
        invariant
            out@ == it.seq().take(it.index() as int),
            it.seq() == s@,
    {
        out.push(c);
    }
    out
}

/// The string made of the characters of `chars`, in order.
pub fn text_of(chars: &Vec<char>) -> (out: String)
    ensures
        out@ == chars@,
{
    let mut out = String::new();
    let mut i: usize = 0;
    while i < chars.len()
        invariant
            i <= chars.len(),
            out@ == chars@.take(i as int),
        decreases chars.len() - i,
    {
        out.push(chars[i]);
        i += 1;
    }
    out
}

/// Two texts with a hyphen between them.
pub open spec fn hyphen_joined(a: Seq<char>, b: Seq<char>) -> Seq<char> {
    a.push('-') + b
}

/// The text of `a`, a hyphen, and the text of `b`.
pub fn joined(a: &String, b: &String) -> (out: String)
    ensures
        out@ == hyphen_joined(a@, b@),
{
    let mut out = a.clone();
    out.push('-');
    out.append(b.as_str());
    out
}

} // verus!
