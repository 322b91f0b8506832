//! A counted sequence of items, each decoded where the previous one ended.
use vstd::prelude::*;

use crate::error::Error;

verus! {

/// A parser: the value at the start of a byte sequence and the bytes it takes.
pub type Parser<V> = spec_fn(Seq<u8>) -> Result<(V, nat), Error>;

/// `n` items parsed by `p` one after the other from the start of `s`, and the
/// bytes they take; the first error stops it.
pub open spec fn parse_many<V>(p: Parser<V>, s: Seq<u8>, n: nat) -> Result<(Seq<V>, nat), Error>
    decreases n,
{
    if n == 0 {
        Ok((Seq::empty(), 0))
    } else {
        match parse_many(p, s, (n - 1) as nat) {
            Err(e) => Err(e),
            Ok((items, k)) => match p(s.skip(k as int)) {
                Err(e) => Err(e),
                Ok((v, m)) => Ok((items.push(v), k + m)),
            },
        }
    }
}

/// Once an item fails, the whole sequence fails with the same error.
pub proof fn lemma_many_error_stops<V>(p: Parser<V>, s: Seq<u8>, i: nat, n: nat)
    requires
        i <= n,
        parse_many(p, s, i) is Err,
    ensures
        parse_many(p, s, n) == parse_many(p, s, i),
    decreases n,
{
    if n > i {
        lemma_many_error_stops(p, s, i, (n - 1) as nat);
    }
}

/// `p` fails only by running out of bytes.
pub open spec fn only_truncates<V>(p: Parser<V>) -> bool {
    forall|s: Seq<u8>| #[trigger] p(s) is Err ==> p(s)->Err_0 is TruncatedInput
}

/// `p` takes no more bytes than it is given, and reads nothing past them: a
/// prefix that holds all it takes gives the same result, a shorter one fails.
pub open spec fn reads_only_what_it_takes<V>(p: Parser<V>) -> bool {
    forall|s: Seq<u8>, m: int|
        #![trigger p(s), p(s.take(m))]
        p(s) is Ok && 0 <= m <= s.len() ==> {
            let n = p(s)->Ok_0.1;
            &&& n <= s.len()
            &&& m >= n ==> p(s.take(m)) == p(s)
            &&& m < n ==> p(s.take(m)) is Err
        }
}

/// A sequence of items fails only by running out of bytes when each item
/// does.
pub proof fn lemma_many_only_truncates<V>(p: Parser<V>, s: Seq<u8>, n: nat)
    requires
        only_truncates(p),
    ensures
        parse_many(p, s, n) is Err ==> parse_many(p, s, n)->Err_0 is TruncatedInput,
    decreases n,
{
    if n > 0 {
        lemma_many_only_truncates(p, s, (n - 1) as nat);
        if let Ok((_, k)) = parse_many(p, s, (n - 1) as nat) {
            assert(p(s.skip(k as int)) is Err ==> p(s.skip(k as int))->Err_0 is TruncatedInput);
        }
    }
}

/// A sequence of items reads nothing past what it takes when each item does:
/// cut short before its end it fails, cut at or after its end it is the same.
pub proof fn lemma_many_prefix<V>(p: Parser<V>, s: Seq<u8>, n: nat, m: int)
    requires
        reads_only_what_it_takes(p),
        parse_many(p, s, n) is Ok,
        0 <= m <= s.len(),
    ensures
        parse_many(p, s, n)->Ok_0.1 <= s.len(),
        m >= parse_many(p, s, n)->Ok_0.1 ==> parse_many(p, s.take(m), n) == parse_many(p, s, n),
        m < parse_many(p, s, n)->Ok_0.1 ==> parse_many(p, s.take(m), n) is Err,
    decreases n,
{
    if n > 0 {
        let k0 = parse_many(p, s, (n - 1) as nat)->Ok_0.1;
        lemma_many_prefix(p, s, (n - 1) as nat, m);
        lemma_many_prefix(p, s, (n - 1) as nat, s.len() as int);
        let rest = s.skip(k0 as int);
        assert(p(rest) is Ok);
        let len = p(rest)->Ok_0.1;
        assert(rest.take(rest.len() as int) =~= rest);
        assert(len <= rest.len());
        if m >= k0 {
            let cut = s.take(m);
            assert(cut.skip(k0 as int) =~= rest.take(m - k0));
            assert(p(rest) is Ok && 0 <= m - k0 <= rest.len());
            assert(p(rest.take(m - k0)) == p(rest) || p(rest.take(m - k0)) is Err);
        }
    }
}

} // verus!
