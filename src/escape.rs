use vstd::prelude::*;

verus! {

/// `s` with every space replaced by `esc`, every other character kept.
pub open spec fn replace_spaces(s: Seq<char>, esc: Seq<char>) -> Seq<char>
    decreases s.len(),
{
    if s.len() == 0 {
        Seq::empty()
    } else {
        replace_spaces(s.drop_last(), esc) + piece(s.last(), esc)
    }
}

/// What a single character becomes under `replace_spaces`.
pub open spec fn piece(c: char, esc: Seq<char>) -> Seq<char> {
    if c == ' ' {
        esc
    } else {
        seq![c]
    }
}

/// Copies `path`, writing `esc` in place of each space, so that a shell
/// reads the path as one word.
pub fn escape_spaces(path: &str, esc: &str) -> (r: String)
    ensures
        r@ == replace_spaces(path@, esc@),
{
    let n = path.unicode_len();
    let mut out = String::new();
    let mut i: usize = 0;
    while i < n
        invariant
            n == path@.len(),
            i <= n,
            out@ == replace_spaces(path@.subrange(0, i as int), esc@),
        decreases n - i,
    {
        let c = path.get_char(i);
        if c == ' ' {
            out.append(esc);
        } else {
            out.append(path.substring_char(i, i + 1));
        }
        proof {
            let next = path@.subrange(0, i + 1);
            assert(next.drop_last() =~= path@.subrange(0, i as int));
            assert(path@.subrange(i as int, i + 1) =~= seq![c]);
        }
        i = i + 1;
    }
    proof {
        assert(path@.subrange(0, n as int) =~= path@);
    }
    out
}

/// Whether every space in `s` directly follows a backslash.
pub open spec fn spaces_follow_backslash(s: Seq<char>) -> bool {
    forall|i: int| 0 <= i < s.len() && #[trigger] s[i] == ' ' ==> i > 0 && s[i - 1] == '\\'
}

/// An escape for a space: it ends in a backslash and a space and holds no
/// other space.
pub open spec fn is_space_escape(esc: Seq<char>) -> bool {
    &&& esc.len() >= 2
    &&& esc[esc.len() - 1] == ' '
    &&& esc[esc.len() - 2] == '\\'
    &&& forall|j: int| 0 <= j < esc.len() - 1 ==> #[trigger] esc[j] != ' '
}

/// With a space escape, no space of the result stands bare: each one
/// directly follows a backslash.
pub proof fn lemma_no_bare_space(s: Seq<char>, esc: Seq<char>)
    requires
        is_space_escape(esc),
    ensures
        spaces_follow_backslash(replace_spaces(s, esc)),
    decreases s.len(),
{
    if s.len() > 0 {
        lemma_no_bare_space(s.drop_last(), esc);
        let a = replace_spaces(s.drop_last(), esc);
        let b = piece(s.last(), esc);
        let r = replace_spaces(s, esc);
        assert(r == a + b);
        assert forall|i: int| 0 <= i < r.len() && #[trigger] r[i] == ' ' implies i > 0 && r[i
            - 1] == '\\' by {
            if i < a.len() {
                assert(r[i] == a[i]);
                assert(r[i - 1] == a[i - 1]);
            } else {
                assert(r[i] == b[i - a.len()]);
                assert(b == esc);
                assert(i - a.len() == esc.len() - 1);
                assert(r[i - 1] == esc[esc.len() - 2]);
            }
        }
    }
}

} // verus!
