//! The one rule by which the name of a field on the wire follows from its
//! identifier in this crate: `auditory_type` travels as `auditoryType`.

use vstd::prelude::*;

verus! {

/// `c` as a capital, where it is one of the small letters `a` to `z`;
/// otherwise `c`.
pub open spec fn upper(c: char) -> char {
    if 'a' <= c && c <= 'z' {
        ((c as u8) - 32) as char
    } else {
        c
    }
}

/// `c` as a small letter, where it is one of the capitals `A` to `Z`;
/// otherwise `c`.
pub open spec fn lower(c: char) -> char {
    if 'A' <= c && c <= 'Z' {
        ((c as u8) + 32) as char
    } else {
        c
    }
}

/// The camel-case form of an identifier. Underscores are dropped; the
/// character after an underscore is raised, but for the first one that is
/// kept, which is lowered; every other character stays.
pub open spec fn camel_case(name: Seq<char>) -> Seq<char>
    decreases name.len(),
{
    if name.len() == 0 {
        Seq::empty()
    } else {
        let head = name.drop_last();
        let c = name.last();
        let done = camel_case(head);
        if c == '_' {
            done
        } else if done.len() == 0 {
            done.push(lower(c))
        } else if head.len() > 0 && head.last() == '_' {
            done.push(upper(c))
        } else {
            done.push(c)
        }
    }
}

/// The name under which the field `field` travels.
pub fn wire_name(field: &str) -> (r: String)
    ensures
        r@ == camel_case(field@),
{
    let ghost s = field@;
    let mut out = String::new();
    let mut started = false;
    let mut raise = false;
    for c in it: field.chars()
        invariant
            it.seq() == s,
            s == field@,
            out@ == camel_case(s.take(it.index() as int)),
            started == (out@.len() > 0),
            raise == (it.index() > 0 && s[it.index() - 1] == '_'),
    {
        let ghost i = it.index() as int;
        proof {
            assert(c == s[i]);
            assert(s.take(i + 1).drop_last() == s.take(i));
            assert(s.take(i + 1).last() == c);
            if i > 0 {
                assert(s.take(i).last() == s[i - 1]);
            }
        }
        if c == '_' {
            raise = true;
        } else {
            if !started {
                out.push(to_lower(c));
                started = true;
            } else if raise {
                out.push(to_upper(c));
            } else {
                out.push(c);
            }
            raise = false;
        }
    }
    proof {
        assert(s.take(s.len() as int) == s);
    }
    out
}

/// The capital of a small letter, or the character itself.
pub fn to_upper(c: char) -> (r: char)
    ensures
        r == upper(c),
{
    if 'a' <= c && c <= 'z' {
        ((c as u8) - 32) as char
    } else {
        c
    }
}

/// The small letter of a capital, or the character itself.
pub fn to_lower(c: char) -> (r: char)
    ensures
        r == lower(c),
{
    if 'A' <= c && c <= 'Z' {
        ((c as u8) + 32) as char
    } else {
        c
    }
}

} // verus!
