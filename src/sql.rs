use vstd::prelude::*;

verus! {

/// A string as the body of an SQL string literal: each single quote doubled,
/// every other character kept.
pub open spec fn quote_escaped(s: Seq<char>) -> Seq<char>
    decreases s.len(),
{
    if s.len() == 0 {
        Seq::empty()
    } else {
        quote_escaped(s.drop_last()) + if s.last() == '\'' {
            seq!['\'', '\'']
        } else {
            seq![s.last()]
        }
    }
}

proof fn lemma_escaped_plain_run(s: Seq<char>, start: int, k: int)
    requires
        0 <= start <= k <= s.len(),
        forall|j: int| start <= j < k ==> s[j] != '\'',
    ensures
        quote_escaped(s.subrange(0, k)) == quote_escaped(s.subrange(0, start)) + s.subrange(
            start,
            k,
        ),
    decreases k - start,
{
    if k == start {
        assert(s.subrange(start, k) =~= Seq::<char>::empty());
        assert(quote_escaped(s.subrange(0, start)) + Seq::<char>::empty() =~= quote_escaped(
            s.subrange(0, start),
        ));
    } else {
        lemma_escaped_plain_run(s, start, k - 1);
        assert(s.subrange(0, k).drop_last() =~= s.subrange(0, k - 1));
        assert(s.subrange(0, k).last() == s[k - 1]);
        assert(s.subrange(start, k - 1) + seq![s[k - 1]] =~= s.subrange(start, k));
    }
}

/// Appends `v` as the body of an SQL string literal.
pub fn push_quoted(out: &mut String, v: &str)
    ensures
        final(out)@ == old(out)@ + quote_escaped(v@),
{
    let n = v.unicode_len();
    let mut start: usize = 0;
    let mut i: usize = 0;
    while i < n
        invariant
            n == v@.len(),
            0 <= start <= i <= n,
            out@ == old(out)@ + quote_escaped(v@.subrange(0, start as int)),
            forall|j: int| start <= j < i ==> v@[j] != '\'',
        decreases n - i,
    {
        if v.get_char(i) == '\'' {
            proof {
                lemma_escaped_plain_run(v@, start as int, i as int);
                assert(v@.subrange(0, i + 1).drop_last() =~= v@.subrange(0, i as int));
                assert(v@.subrange(0, i + 1).last() == v@[i as int]);
            }
            out.append(v.substring_char(start, i + 1));
            out.append("'");
            proof {
                reveal_strlit("'");
                assert(v@.subrange(start as int, i + 1) =~= v@.subrange(start as int, i as int)
                    + seq!['\'']);
                assert(out@ =~= old(out)@ + quote_escaped(v@.subrange(0, i + 1)));
            }
            start = i + 1;
        }
        i = i + 1;
    }
    proof {
        lemma_escaped_plain_run(v@, start as int, n as int);
        assert(v@.subrange(0, n as int) =~= v@);
    }
    out.append(v.substring_char(start, n));
    assert(out@ =~= old(out)@ + quote_escaped(v@));
}

/// The SQL condition on user and resource: `TRUE` when both are empty, else
/// an equality on each non-empty one, joined by `AND`, with each id written as
/// a quoted SQL literal.
pub open spec fn user_resource_cond(user_id: Seq<char>, resource_id: Seq<char>) -> Seq<char> {
    if user_id.len() == 0 && resource_id.len() == 0 {
        "TRUE"@
    } else if user_id.len() == 0 {
        "resource_id = '"@ + quote_escaped(resource_id) + "'"@
    } else if resource_id.len() == 0 {
        "user_id = '"@ + quote_escaped(user_id) + "'"@
    } else {
        "user_id = '"@ + quote_escaped(user_id) + "' AND resource_id = '"@ + quote_escaped(
            resource_id,
        ) + "'"@
    }
}

/// Writes the SQL condition on user and resource.
pub fn get_user_resource_cond(user_id: &str, resource_id: &str) -> (r: String)
    ensures
        r@ == user_resource_cond(user_id@, resource_id@),
{
    let no_user = user_id.is_empty();
    let no_resource = resource_id.is_empty();
    if no_user && no_resource {
        return String::from_str("TRUE");
    }
    let mut s = String::new();
    if !no_user {
        s.append("user_id = '");
        push_quoted(&mut s, user_id);
        s.append("'");
        if !no_resource {
            s.append(" AND ");
        }
    }
    if !no_resource {
        s.append("resource_id = '");
        push_quoted(&mut s, resource_id);
        s.append("'");
    }
    proof {
        reveal_strlit(" AND ");
        reveal_strlit("' AND resource_id = '");
        reveal_strlit("'");
        reveal_strlit("resource_id = '");
    }
    assert(s@ =~= user_resource_cond(user_id@, resource_id@));
    s
}

} // verus!
