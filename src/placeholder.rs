//! Substitution of the actor-id placeholder in spawn arguments.
use vstd::prelude::*;
use vstd::string::*;

verus! {

/// The token that a spawn argument may hold in place of the new actor's id.
pub open spec fn actor_id_placeholder() -> Seq<char> {
    "{ACTOR_ID}"@
}

/// `s` with every occurrence of `pat` replaced by `rep`, scanning left to
/// right; the inserted text is never scanned again.
pub open spec fn substituted(s: Seq<char>, pat: Seq<char>, rep: Seq<char>) -> Seq<char>
    decreases s.len(),
{
    if s.len() == 0 || pat.len() == 0 {
        s
    } else if pat.len() <= s.len() && s.subrange(0, pat.len() as int) == pat {
        rep + substituted(s.subrange(pat.len() as int, s.len() as int), pat, rep)
    } else {
        seq![s[0]] + substituted(s.drop_first(), pat, rep)
    }
}

/// Replaces every occurrence of `pat` in `s` by `rep`; an empty `pat`
/// leaves `s` as it is.
pub fn replace_all(s: &str, pat: &str, rep: &str) -> (r: String)
    ensures
        r@ == substituted(s@, pat@, rep@),
{
    let n = s.unicode_len();
    let m = pat.unicode_len();
    if m == 0 {
        return s.to_owned();
    }
    let mut out = String::new();
    let mut i: usize = 0;
    assert(s@.subrange(0, n as int) =~= s@);
    assert(out@ + s@ =~= s@);
    while i < n
        invariant
            n == s@.len(),
            m == pat@.len(),
            m > 0,
            i <= n,
            out@ + substituted(s@.subrange(i as int, n as int), pat@, rep@)
                == substituted(s@, pat@, rep@),
        decreases n - i,
    {
        let ghost rest = s@.subrange(i as int, n as int);
        let hit = m <= n && i <= n - m && matches_at(s, pat, i, m);
        if hit {
            assert(rest.subrange(0, m as int) =~= s@.subrange(i as int, i + m));
            assert(rest.subrange(m as int, rest.len() as int) =~= s@.subrange(i + m, n as int));
            let ghost before = out@;
            out.append(rep);
            assert(out@ + substituted(s@.subrange(i + m, n as int), pat@, rep@)
                =~= before + (rep@ + substituted(s@.subrange(i + m, n as int), pat@, rep@)));
            i = i + m;
        } else {
            assert(!(m <= rest.len() && rest.subrange(0, m as int) == pat@)) by {
                if m <= rest.len() {
                    assert(rest.subrange(0, m as int) =~= s@.subrange(i as int, i + m));
                }
            }
            assert(rest.drop_first() =~= s@.subrange(i + 1, n as int));
            let ghost before = out@;
            let c = s.substring_char(i, i + 1);
            out.append(c);
            assert(c@ =~= seq![rest[0]]);
            assert(out@ + substituted(s@.subrange(i + 1, n as int), pat@, rep@)
                =~= before + (seq![rest[0]] + substituted(rest.drop_first(), pat@, rep@)));
            i = i + 1;
        }
    }
    assert(s@.subrange(n as int, n as int) =~= Seq::<char>::empty());
    assert(out@ =~= out@ + Seq::<char>::empty());
    out
}

/// Whether `pat` (of length `m`) occurs in `s` at position `i`.
fn matches_at(s: &str, pat: &str, i: usize, m: usize) -> (r: bool)
    requires
        m == pat@.len(),
        i + m <= s@.len(),
        s@.len() <= usize::MAX,
    ensures
        r == (s@.subrange(i as int, i + m) == pat@),
{
    let mut k: usize = 0;
    while k < m
        invariant
            m == pat@.len(),
            i + m <= s@.len(),
            s@.len() <= usize::MAX,
            k <= m,
            forall|j: int| 0 <= j < k ==> s@[i + j] == pat@[j],
        decreases m - k,
    {
        if s.get_char(i + k) != pat.get_char(k) {
            assert(s@.subrange(i as int, i + m)[k as int] != pat@[k as int]);
            return false;
        }
        k = k + 1;
    }
    assert(s@.subrange(i as int, i + m) =~= pat@);
    true
}

/// Replaces the placeholder in one spawn argument by the actor's id text.
pub fn substitute_actor_id(arg: &str, id_text: &str) -> (r: String)
    ensures
        r@ == substituted(arg@, actor_id_placeholder(), id_text@),
{
    proof {
        reveal_strlit("{ACTOR_ID}");
    }
    replace_all(arg, "{ACTOR_ID}", id_text)
}

/// An argument `id=` followed by the placeholder reaches the spawned process
/// as `id=` followed by the actor's id text, whatever that text is.
pub proof fn lemma_placeholder_after_prefix(id_text: Seq<char>)
    ensures
        substituted("id={ACTOR_ID}"@, actor_id_placeholder(), id_text) == "id="@ + id_text,
{
    reveal_strlit("id={ACTOR_ID}");
    reveal_strlit("{ACTOR_ID}");
    reveal_strlit("id=");
    let pat = actor_id_placeholder();
    let s0 = "id={ACTOR_ID}"@;
    let s1 = s0.drop_first();
    let s2 = s1.drop_first();
    let s3 = s2.drop_first();
    assert(s3 =~= pat);
    assert(s3.subrange(0, 10) =~= pat);
    assert(s3.subrange(10, 10) =~= Seq::<char>::empty());
    assert(substituted(s3.subrange(10, 10), pat, id_text) == Seq::<char>::empty());
    assert(substituted(s3, pat, id_text) == id_text + substituted(
        s3.subrange(10, 10),
        pat,
        id_text,
    ));
    assert(substituted(s3, pat, id_text) =~= id_text);
    assert(s2.subrange(0, 10) != pat) by {
        assert(s2.subrange(0, 10)[0] != pat[0]);
    }
    assert(s1.subrange(0, 10) != pat) by {
        assert(s1.subrange(0, 10)[0] != pat[0]);
    }
    assert(s0.subrange(0, 10) != pat) by {
        assert(s0.subrange(0, 10)[0] != pat[0]);
    }
    assert(substituted(s2, pat, id_text) == seq![s2[0]] + substituted(s3, pat, id_text));
    assert(substituted(s1, pat, id_text) == seq![s1[0]] + substituted(s2, pat, id_text));
    assert(substituted(s0, pat, id_text) == seq![s0[0]] + substituted(s1, pat, id_text));
    assert(substituted(s0, pat, id_text) =~= "id="@ + id_text);
}

} // verus!
