//! Entry and texture names: 16 raw bytes, read as text up to the first
//! zero byte.  Bytes after the first zero are ignored even when they are
//! not zero.  For use as a filename component, `*` (the marker for
//! animated surfaces) is replaced with `#`.

use vstd::prelude::*;

verus! {

/// Relies on String::push: appends the given character to the end of the string.
#[verifier::external_body]
fn push_char(s: &mut String, c: char)
    ensures
        final(s)@ == old(s)@.push(c),
{
    s.push(c);
}

/// The index of the first zero byte of `s`, or `s.len()` when no byte is zero.
pub open spec fn name_end(s: Seq<u8>) -> int
    decreases s.len(),
{
    if s.len() == 0 {
        0
    } else if s[0] == 0 {
        0
    } else {
        1 + name_end(s.drop_first())
    }
}

/// `name_end` lands on the first zero byte: everything before it is
/// non-zero, and the byte there (when inside the sequence) is zero.
pub proof fn lemma_name_end(s: Seq<u8>)
    ensures
        0 <= name_end(s) <= s.len(),
        forall|j: int| 0 <= j < name_end(s) ==> s[j] != 0,
        name_end(s) < s.len() ==> s[name_end(s)] == 0,
    decreases s.len(),
{
    if s.len() == 0 {
    } else if s[0] == 0 {
    } else {
        lemma_name_end(s.drop_first());
        assert forall|j: int| 0 <= j < name_end(s) implies s[j] != 0 by {
            if j > 0 {
                assert(s.drop_first()[j - 1] != 0);
            }
        }
        if name_end(s) < s.len() {
            assert(s.drop_first()[name_end(s) - 1] == 0);
        }
    }
}

/// A position with only non-zero bytes before it and a zero byte (or the
/// end of the sequence) at it is exactly `name_end`.
pub proof fn lemma_name_end_is(s: Seq<u8>, i: int)
    requires
        0 <= i <= s.len(),
        forall|j: int| 0 <= j < i ==> s[j] != 0,
        i < s.len() ==> s[i] == 0,
    ensures
        name_end(s) == i,
{
    lemma_name_end(s);
    if name_end(s) < i {
        assert(s[name_end(s)] != 0);
    }
    if name_end(s) > i {
        assert(s[i] != 0);
    }
}

/// The characters of a raw name: the bytes before the first zero, each
/// read as the character with that code.
pub open spec fn trimmed_name(s: Seq<u8>) -> Seq<char> {
    s.take(name_end(s)).map(|_j: int, b: u8| b as char)
}

/// `*` becomes `#`; every other character stands.
pub open spec fn sanitized(c: char) -> char {
    if c == '*' {
        '#'
    } else {
        c
    }
}

/// The filename stem exported for a raw name: the trimmed name with every
/// `*` replaced by `#`.
pub open spec fn export_chars(s: Seq<u8>) -> Seq<char> {
    trimmed_name(s).map(|_j: int, c: char| sanitized(c))
}

/// The display text of a 16-byte name field: its bytes up to the first
/// zero, each as a character.
pub fn get_entry_name(bad: &[u8; 16]) -> (r: String)
    ensures
        r@ == trimmed_name(bad@),
{
    let mut out = String::new();
    let mut i: usize = 0;
    while i < 16 && bad[i] != 0
        invariant
            0 <= i <= 16,
            bad@.len() == 16,
            forall|j: int| 0 <= j < i ==> bad@[j] != 0,
            out@ == bad@.take(i as int).map(|_j: int, b: u8| b as char),
        decreases 16 - i,
    {
        push_char(&mut out, bad[i] as char);
        i = i + 1;
        assert(out@ =~= bad@.take(i as int).map(|_j: int, b: u8| b as char));
    }
    proof {
        lemma_name_end_is(bad@, i as int);
    }
    out
}

/// The filename stem for a 16-byte name field: the name up to the first
/// zero, with every `*` replaced by `#`.
pub fn export_name(bad: &[u8; 16]) -> (r: String)
    ensures
        r@ == export_chars(bad@),
{
    let mut out = String::new();
    let mut i: usize = 0;
    while i < 16 && bad[i] != 0
        invariant
            0 <= i <= 16,
            bad@.len() == 16,
            forall|j: int| 0 <= j < i ==> bad@[j] != 0,
            out@ == bad@.take(i as int).map(|_j: int, b: u8| sanitized(b as char)),
        decreases 16 - i,
    {
        let b = bad[i];
        // 42 is the code of `*`
        let c = if b == 42 {
            '#'
        } else {
            b as char
        };
        push_char(&mut out, c);
        i = i + 1;
        assert(out@ =~= bad@.take(i as int).map(|_j: int, b: u8| sanitized(b as char)));
    }
    proof {
        lemma_name_end_is(bad@, i as int);
        assert(export_chars(bad@) =~= bad@.take(i as int).map(
            |_j: int, b: u8| sanitized(b as char),
        ));
    }
    out
}

} // verus!
