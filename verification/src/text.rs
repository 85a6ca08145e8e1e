//! Strings: comparing two of them, and joining lines.

use vstd::prelude::*;
use vstd::string::StringExecFns;
use vstd::string::StringSliceAdditionalSpecFns;
use vstd::utf8::encode_utf8_decode_utf8;

verus! {

/// The characters of each string of a sequence.
pub open spec fn texts(lines: Seq<String>) -> Seq<Seq<char>> {
    lines.map_values(|line: String| line@)
}

/// The lines in their order, with `separator` between each two neighbours and
/// nowhere else.
pub open spec fn joined(lines: Seq<Seq<char>>, separator: Seq<char>) -> Seq<char>
    decreases lines.len(),
{
    if lines.len() == 0 {
        Seq::empty()
    } else if lines.len() == 1 {
        lines[0]
    } else {
        joined(lines.drop_last(), separator) + separator + lines.last()
    }
}

/// Lines that each hold a character join to the empty text only where there
/// is no line.
pub proof fn lemma_joined_len(lines: Seq<Seq<char>>, separator: Seq<char>)
    requires
        forall|i: int| 0 <= i < lines.len() ==> (#[trigger] lines[i]).len() > 0,
    ensures
        joined(lines, separator).len() == 0 <==> lines.len() == 0,
    decreases lines.len(),
{
    if lines.len() > 1 {
        lemma_joined_len(lines.drop_last(), separator);
    }
}

/// Whether two strings hold the same characters.
pub fn same_text(a: &str, b: &str) -> (r: bool)
    ensures
        r == (a@ == b@),
{
    let x = a.as_bytes();
    let y = b.as_bytes();
    proof {
        encode_utf8_decode_utf8(a@);
        encode_utf8_decode_utf8(b@);
    }
    if x.len() != y.len() {
        return false;
    }
    let mut i: usize = 0;
    while i < x.len()
        invariant
            i <= x@.len(),
            x@.len() == y@.len(),
            x@ == a.spec_bytes(),
            y@ == b.spec_bytes(),
            forall|j: int| 0 <= j < i ==> x@[j] == y@[j],
        decreases x@.len() - i,
    {
        if x[i] != y[i] {
            return false;
        }
        i += 1;
    }
    assert(x@ =~= y@);
    true
}

/// Joins `lines` with `separator` between them.
pub fn join_lines(lines: &Vec<String>, separator: &str) -> (r: String)
    ensures
        r@ == joined(texts(lines@), separator@),
{
    let mut out = String::new();
    let mut i: usize = 0;
    while i < lines.len()
        invariant
            i <= lines@.len(),
            out@ == joined(texts(lines@.take(i as int)), separator@),
        decreases lines@.len() - i,
    {
        let ghost before = texts(lines@.take(i as int));
        let ghost after = texts(lines@.take(i + 1));
        proof {
            assert(after.drop_last() =~= before);
            assert(after.last() == lines@[i as int]@);
        }
        if i > 0 {
            out.append(separator);
        }
        out.append(lines[i].as_str());
        proof {
            if i == 0 {
                assert(out@ =~= lines@[0]@);
            }
        }
        i += 1;
    }
    proof {
        assert(lines@.take(lines@.len() as int) =~= lines@);
    }
    out
}

} // verus!
