//! Character-level string helpers the protocol layer needs.

use vstd::prelude::*;

verus! {

/// Whether two strings hold the same characters.
pub fn str_eq(a: &str, b: &str) -> (r: bool)
    ensures
        r == (a@ == b@),
{
    let la = a.unicode_len();
    let lb = b.unicode_len();
    if la != lb {
        return false;
    }
    let mut i: usize = 0;
    while i < la
        invariant
            i <= la,
            la == a@.len(),
            la == b@.len(),
            forall|j: int| 0 <= j < i ==> a@[j] == b@[j],
        decreases la - i,
    {
        if a.get_char(i) != b.get_char(i) {
            return false;
        }
        i = i + 1;
    }
    proof {
        assert(a@ =~= b@);
    }
    true
}

/// `s` with every `<` replaced by `<lt>`, so that typed text cannot be taken
/// for a key-notation chord by the editor.
pub open spec fn spec_escape_lt(s: Seq<char>) -> Seq<char>
    decreases s.len(),
{
    if s.len() == 0 {
        Seq::empty()
    } else if s[0] == '<' {
        seq!['<', 'l', 't', '>'] + spec_escape_lt(s.skip(1))
    } else {
        seq![s[0]] + spec_escape_lt(s.skip(1))
    }
}

/// Escape `<` in text that is to be sent as editor input.
pub fn escape_lt(s: &str) -> (r: String)
    ensures
        r@ == spec_escape_lt(s@),
{
    let n = s.unicode_len();
    let mut r = String::new();
    let mut i: usize = 0;
    proof {
        assert(s@.skip(0) =~= s@);
        assert(r@ + spec_escape_lt(s@) =~= spec_escape_lt(s@));
    }
    while i < n
        invariant
            i <= n,
            n == s@.len(),
            r@ + spec_escape_lt(s@.skip(i as int)) == spec_escape_lt(s@),
        decreases n - i,
    {
        let c = s.get_char(i);
        let ghost r0 = r@;
        if c == '<' {
            r.append("<lt>");
            proof {
                reveal_strlit("<lt>");
                assert(r@ =~= r0 + seq!['<', 'l', 't', '>']);
            }
        } else {
            let one = s.substring_char(i, i + 1);
            r.append(one);
            proof {
                assert(one@ =~= seq![s@[i as int]]);
            }
        }
        proof {
            let rest = s@.skip(i as int);
            assert(rest[0] == s@[i as int]);
            assert(rest.skip(1) =~= s@.skip(i + 1 as int));
            if c == '<' {
                assert(r@ + spec_escape_lt(s@.skip(i + 1 as int)) =~= r0 + (seq!['<', 'l', 't', '>']
                    + spec_escape_lt(rest.skip(1))));
            } else {
                assert(r@ + spec_escape_lt(s@.skip(i + 1 as int)) =~= r0 + (seq![rest[0]]
                    + spec_escape_lt(rest.skip(1))));
            }
        }
        i = i + 1;
    }
    proof {
        assert(s@.skip(n as int) =~= Seq::<char>::empty());
        assert(r@ =~= r@ + spec_escape_lt(s@.skip(n as int)));
    }
    r
}

} // verus!
