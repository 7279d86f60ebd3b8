//! Parsing of the launcher's argument blob.
//!
//! The process receives its arguments as one raw byte blob: tokens
//! separated by spaces and double quotes, padded at the end with NUL bytes.
//! Reading stops at the first NUL or at the declared length, whichever
//! comes first; the remainder splits on every space or quote, and empty
//! tokens are discarded.

use vstd::prelude::*;

verus! {

/// A byte that separates argument tokens: a space or a double quote.
pub open spec fn is_arg_delim(b: u8) -> bool {
    b == 32 || b == 34
}

/// The prefix of `s` before its first NUL byte — the bounded read of the
/// argument blob.
pub open spec fn spec_until_nul(s: Seq<u8>) -> Seq<u8>
    decreases s.len(),
{
    if s.len() == 0 || s[0] == 0 {
        seq![]
    } else {
        seq![s[0]] + spec_until_nul(s.skip(1))
    }
}

/// Splits `s` on delimiter bytes, accumulating the token built so far in
/// `cur`; a token is emitted when a delimiter or the end is reached, and
/// only when it is not empty.
pub open spec fn spec_tokens_acc(s: Seq<u8>, cur: Seq<u8>) -> Seq<Seq<u8>>
    decreases s.len(),
{
    if s.len() == 0 {
        if cur.len() == 0 {
            seq![]
        } else {
            seq![cur]
        }
    } else if is_arg_delim(s[0]) {
        if cur.len() == 0 {
            spec_tokens_acc(s.skip(1), seq![])
        } else {
            seq![cur] + spec_tokens_acc(s.skip(1), seq![])
        }
    } else {
        spec_tokens_acc(s.skip(1), cur.push(s[0]))
    }
}

/// The argument tokens of a raw blob: the part before the first NUL, split
/// on spaces and quotes, with empty tokens discarded.
pub open spec fn spec_arg_tokens(s: Seq<u8>) -> Seq<Seq<u8>> {
    spec_tokens_acc(spec_until_nul(s), seq![])
}

/// Shape of the bounded read: as long as the first `i` bytes of `s` are
/// non-NUL, the prefix before the first NUL agrees with `s` on them, and
/// ends exactly where the blob ends or the first NUL sits.
proof fn lemma_until_nul_prefix(s: Seq<u8>, i: int)
    requires
        0 <= i <= s.len(),
        forall|j: int| 0 <= j < i ==> s[j] != 0,
    ensures
        spec_until_nul(s).len() >= i,
        spec_until_nul(s).len() <= s.len(),
        forall|j: int| 0 <= j < i ==> spec_until_nul(s)[j] == s[j],
        (i == s.len() || s[i] == 0) ==> spec_until_nul(s).len() == i,
        (i < s.len() && s[i] != 0) ==> spec_until_nul(s).len() > i,
    decreases s.len(),
{
    if s.len() == 0 || s[0] == 0 {
    } else {
        lemma_until_nul_prefix(s.skip(1), if i == 0 {
            0
        } else {
            i - 1
        });
        assert forall|j: int| 0 <= j < i implies spec_until_nul(s)[j] == s[j] by {
            if j > 0 {
                assert(spec_until_nul(s.skip(1))[j - 1] == s.skip(1)[j - 1]);
            }
        }
        if i > 0 && i < s.len() {
            assert(s.skip(1)[i - 1] == s[i]);
        }
    }
}

/// Parses the launcher's raw argument blob into its tokens: the bytes
/// before the first NUL, split on every space and double quote, with empty
/// tokens discarded and their order kept.
pub fn parse_args(blob: &Vec<u8>) -> (r: Vec<Vec<u8>>)
    ensures
        r.deep_view() == spec_arg_tokens(blob@),
{
    let ghost u = spec_until_nul(blob@);
    let mut tokens: Vec<Vec<u8>> = Vec::new();
    let mut cur: Vec<u8> = Vec::new();
    let mut i: usize = 0;
    proof {
        assert(u.skip(0) =~= u);
        assert(tokens.deep_view() + spec_tokens_acc(u, cur@) =~= spec_tokens_acc(u, seq![]));
    }
    while i < blob.len() && *blob.get(i).unwrap() != 0
        invariant
            i <= blob@.len(),
            forall|j: int| 0 <= j < i ==> blob@[j] != 0,
            u == spec_until_nul(blob@),
            spec_tokens_acc(u, seq![]) == tokens.deep_view() + spec_tokens_acc(
                u.skip(i as int),
                cur@,
            ),
        decreases blob@.len() - i,
    {
        let b = blob[i];
        let ghost prev_tokens = tokens.deep_view();
        let ghost prev_cur = cur@;
        proof {
            lemma_until_nul_prefix(blob@, i + 1);
            assert(u.skip(i as int).len() > 0);
            assert(u.skip(i as int)[0] == u[i as int]);
            assert(u[i as int] == blob@[i as int]);
            assert(u.skip(i as int).skip(1) =~= u.skip(i + 1));
        }
        if b == 32 || b == 34 {
            if cur.len() > 0 {
                tokens.push(cur);
                cur = Vec::new();
                proof {
                    assert(cur@ =~= Seq::<u8>::empty());
                    assert(spec_tokens_acc(u.skip(i as int), prev_cur) == seq![prev_cur]
                        + spec_tokens_acc(u.skip(i + 1), seq![]));
                    assert(tokens.deep_view() =~~= prev_tokens.push(prev_cur));
                    assert(tokens.deep_view() + spec_tokens_acc(u.skip(i + 1), cur@)
                        =~= prev_tokens + spec_tokens_acc(u.skip(i as int), prev_cur));
                }
            } else {
                proof {
                    assert(cur@ =~= Seq::<u8>::empty());
                    assert(spec_tokens_acc(u.skip(i as int), prev_cur) == spec_tokens_acc(
                        u.skip(i + 1),
                        seq![],
                    ));
                }
            }
        } else {
            cur.push(b);
            proof {
                assert(cur@ == prev_cur.push(b));
                assert(spec_tokens_acc(u.skip(i as int), prev_cur) == spec_tokens_acc(
                    u.skip(i + 1),
                    cur@,
                ));
            }
        }
        i += 1;
    }
    proof {
        if i < blob.len() {
            assert(blob@[i as int] == 0);
        }
        lemma_until_nul_prefix(blob@, i as int);
        assert(u.len() == i);
        assert(u.skip(i as int) =~= Seq::<u8>::empty());
        assert(spec_tokens_acc(u.skip(i as int), cur@) == if cur@.len() == 0 {
            Seq::<Seq<u8>>::empty()
        } else {
            seq![cur@]
        });
    }
    if cur.len() > 0 {
        let ghost old_tokens = tokens.deep_view();
        let ghost emitted = cur@;
        tokens.push(cur);
        proof {
            assert(tokens.deep_view() =~~= old_tokens.push(emitted));
            assert(tokens.deep_view() =~= spec_tokens_acc(u, seq![]));
        }
    } else {
        proof {
            assert(tokens.deep_view() + Seq::<Seq<u8>>::empty() =~= tokens.deep_view());
        }
    }
    tokens
}

/// Helper for the emptiness law: a token is only ever emitted after the
/// guard that it is non-empty, whatever has accumulated so far.
proof fn lemma_acc_tokens_nonempty(s: Seq<u8>, cur: Seq<u8>)
    ensures
        forall|k: int|
            0 <= k < spec_tokens_acc(s, cur).len() ==> #[trigger] spec_tokens_acc(s, cur)[k].len()
                > 0,
    decreases s.len(),
{
    if s.len() == 0 {
    } else if is_arg_delim(s[0]) {
        lemma_acc_tokens_nonempty(s.skip(1), seq![]);
        if cur.len() == 0 {
            assert(spec_tokens_acc(s, cur) == spec_tokens_acc(s.skip(1), seq![]));
        } else {
            assert(spec_tokens_acc(s, cur) == seq![cur] + spec_tokens_acc(s.skip(1), seq![]));
            assert forall|k: int| 0 <= k < spec_tokens_acc(s, cur).len() implies #[trigger]
                spec_tokens_acc(s, cur)[k].len() > 0 by {
                if k > 0 {
                    assert(spec_tokens_acc(s, cur)[k] == spec_tokens_acc(s.skip(1), seq![])[k
                        - 1]);
                }
            }
        }
    } else {
        lemma_acc_tokens_nonempty(s.skip(1), cur.push(s[0]));
        assert(spec_tokens_acc(s, cur) == spec_tokens_acc(s.skip(1), cur.push(s[0])));
    }
}

/// Empty tokens are discarded: every token parsed from a blob has at least
/// one byte.
pub proof fn lemma_arg_tokens_nonempty(s: Seq<u8>)
    ensures
        forall|k: int|
            0 <= k < spec_arg_tokens(s).len() ==> #[trigger] spec_arg_tokens(s)[k].len() > 0,
{
    lemma_acc_tokens_nonempty(spec_until_nul(s), seq![]);
}

/// The bounded read never hands a NUL byte on: the prefix before the first
/// NUL contains none.
proof fn lemma_until_nul_no_nul(s: Seq<u8>)
    ensures
        forall|j: int| 0 <= j < spec_until_nul(s).len() ==> #[trigger] spec_until_nul(s)[j] != 0,
    decreases s.len(),
{
    if s.len() == 0 || s[0] == 0 {
    } else {
        lemma_until_nul_no_nul(s.skip(1));
        assert forall|j: int| 0 <= j < spec_until_nul(s).len() implies #[trigger] spec_until_nul(
            s,
        )[j] != 0 by {
            if j > 0 {
                assert(spec_until_nul(s)[j] == spec_until_nul(s.skip(1))[j - 1]);
            }
        }
    }
}

/// Helper for the cleanliness law: a byte enters a token only after the
/// test that it is no delimiter, and `s` carries no NUL to begin with.
proof fn lemma_acc_tokens_clean(s: Seq<u8>, cur: Seq<u8>)
    requires
        forall|p: int| 0 <= p < cur.len() ==> !is_arg_delim(#[trigger] cur[p]) && cur[p] != 0,
        forall|j: int| 0 <= j < s.len() ==> #[trigger] s[j] != 0,
    ensures
        forall|k: int, p: int|
            0 <= k < spec_tokens_acc(s, cur).len() && 0 <= p < spec_tokens_acc(s, cur)[k].len()
                ==> !is_arg_delim(#[trigger] spec_tokens_acc(s, cur)[k][p]) && spec_tokens_acc(
                s,
                cur,
            )[k][p] != 0,
    decreases s.len(),
{
    if s.len() == 0 {
    } else {
        assert forall|j: int| 0 <= j < s.skip(1).len() implies #[trigger] s.skip(1)[j] != 0 by {
            assert(s.skip(1)[j] == s[j + 1]);
        }
        if is_arg_delim(s[0]) {
            lemma_acc_tokens_clean(s.skip(1), seq![]);
            if cur.len() > 0 {
                assert(spec_tokens_acc(s, cur) == seq![cur] + spec_tokens_acc(
                    s.skip(1),
                    seq![],
                ));
                assert forall|k: int, p: int|
                    0 <= k < spec_tokens_acc(s, cur).len() && 0 <= p < spec_tokens_acc(
                        s,
                        cur,
                    )[k].len() implies !is_arg_delim(#[trigger] spec_tokens_acc(s, cur)[k][p])
                    && spec_tokens_acc(s, cur)[k][p] != 0 by {
                    if k > 0 {
                        assert(spec_tokens_acc(s, cur)[k] == spec_tokens_acc(s.skip(1), seq![])[k
                            - 1]);
                    }
                }
            }
        } else {
            assert(s[0] != 0);
            lemma_acc_tokens_clean(s.skip(1), cur.push(s[0]));
            assert(spec_tokens_acc(s, cur) == spec_tokens_acc(s.skip(1), cur.push(s[0])));
        }
    }
}

/// Cleanliness law: no parsed token holds a delimiter or a NUL byte — the
/// split really removes every space, quote and terminator.
pub proof fn lemma_arg_tokens_clean(s: Seq<u8>)
    ensures
        forall|k: int, p: int|
            0 <= k < spec_arg_tokens(s).len() && 0 <= p < spec_arg_tokens(s)[k].len()
                ==> !is_arg_delim(#[trigger] spec_arg_tokens(s)[k][p]) && spec_arg_tokens(
                s,
            )[k][p] != 0,
{
    lemma_until_nul_no_nul(s);
    lemma_acc_tokens_clean(spec_until_nul(s), seq![]);
}

/// The bytes of `s` that are no delimiters, in order.
pub open spec fn spec_kept_bytes(s: Seq<u8>) -> Seq<u8>
    decreases s.len(),
{
    if s.len() == 0 {
        seq![]
    } else if is_arg_delim(s[0]) {
        spec_kept_bytes(s.skip(1))
    } else {
        seq![s[0]] + spec_kept_bytes(s.skip(1))
    }
}

/// Helper for the concatenation law, generalised over the accumulated
/// token: flattening what the split emits gives the pending token followed
/// by every non-delimiter byte of `s`.
proof fn lemma_acc_tokens_concat(s: Seq<u8>, cur: Seq<u8>)
    ensures
        spec_tokens_acc(s, cur).flatten() == cur + spec_kept_bytes(s),
    decreases s.len(),
{
    if s.len() == 0 {
        if cur.len() == 0 {
            assert(spec_tokens_acc(s, cur).flatten() =~= cur + spec_kept_bytes(s));
        } else {
            let one = seq![cur];
            assert(one.first() == cur);
            assert(one.drop_first() =~= Seq::<Seq<u8>>::empty());
            assert(Seq::<Seq<u8>>::empty().flatten() == Seq::<u8>::empty());
            assert(one.flatten() == cur + Seq::<u8>::empty());
            assert(cur + Seq::<u8>::empty() =~= cur + spec_kept_bytes(s));
        }
    } else if is_arg_delim(s[0]) {
        lemma_acc_tokens_concat(s.skip(1), seq![]);
        if cur.len() == 0 {
            assert(cur + spec_kept_bytes(s) =~= seq![] + spec_kept_bytes(s.skip(1)));
        } else {
            let whole = seq![cur] + spec_tokens_acc(s.skip(1), seq![]);
            assert(spec_tokens_acc(s, cur) == whole);
            assert(whole.len() > 0);
            assert(whole.first() == cur);
            assert(whole.drop_first() =~= spec_tokens_acc(s.skip(1), seq![]));
            assert(whole.flatten() == cur + spec_tokens_acc(s.skip(1), seq![]).flatten());
            assert(cur + (seq![] + spec_kept_bytes(s.skip(1))) =~= cur + spec_kept_bytes(s));
        }
    } else {
        lemma_acc_tokens_concat(s.skip(1), cur.push(s[0]));
        assert(spec_tokens_acc(s, cur) == spec_tokens_acc(s.skip(1), cur.push(s[0])));
        assert(cur.push(s[0]) + spec_kept_bytes(s.skip(1)) =~= cur + spec_kept_bytes(s));
    }
}

/// Concatenation law: joining the parsed tokens in order gives exactly the
/// input up to its first NUL with every delimiter byte deleted — nothing is
/// lost, nothing is invented, and the order of the bytes is kept.
pub proof fn lemma_arg_tokens_concat(s: Seq<u8>)
    ensures
        spec_arg_tokens(s).flatten() == spec_kept_bytes(spec_until_nul(s)),
{
    lemma_acc_tokens_concat(spec_until_nul(s), seq![]);
    assert(Seq::<u8>::empty() + spec_kept_bytes(spec_until_nul(s)) =~= spec_kept_bytes(
        spec_until_nul(s),
    ));
}

} // verus!
