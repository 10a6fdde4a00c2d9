//! Consistent-overhead zero-elimination framing.
//!
//! A payload is transformed into an equivalent byte sequence that contains
//! no zero byte, so that a single zero can delimit frames on the wire.  The
//! payload is cut into blocks of at most 254 consecutive non-zero bytes;
//! each block is emitted behind a code byte holding the block length plus
//! one.  A code byte below 255 means the block was terminated by a zero of
//! the payload, which the decoder re-inserts; code byte 255 means the block
//! was cut only because of its length.  Encoding and decoding are proved
//! inverse to each other, and the encoder's output is proved zero-free.

use vstd::prelude::*;

verus! {

/// Number of leading non-zero bytes of `s`, capped at 254: the length of
/// the first block the encoder will emit.
pub open spec fn spec_block_len(s: Seq<u8>) -> nat
    decreases s.len(),
{
    if s.len() == 0 || s[0] == 0 {
        0
    } else if spec_block_len(s.skip(1)) + 1 >= 255 {
        254
    } else {
        spec_block_len(s.skip(1)) + 1
    }
}

/// Basic facts about the first block: it is at most 254 bytes, lies within
/// `s`, holds no zero, and a block that ends early ends on a zero.
pub proof fn lemma_block_len_props(s: Seq<u8>)
    ensures
        spec_block_len(s) <= s.len(),
        spec_block_len(s) <= 254,
        forall|j: int| 0 <= j < spec_block_len(s) ==> s[j] != 0,
        spec_block_len(s) < s.len() && spec_block_len(s) < 254 ==> s[spec_block_len(s) as int]
            == 0,
    decreases s.len(),
{
    if s.len() == 0 || s[0] == 0 {
    } else {
        lemma_block_len_props(s.skip(1));
        let k = spec_block_len(s) as int;
        assert forall|j: int| 0 <= j < k implies s[j] != 0 by {
            if j > 0 {
                assert(s.skip(1)[j - 1] == s[j]);
            }
        }
        if k < s.len() && k < 254 {
            assert(s.skip(1)[k - 1] == s[k]);
        }
    }
}

/// The first block is at least `k` bytes long whenever the first `k` bytes
/// are all non-zero.
proof fn lemma_block_len_at_least(s: Seq<u8>, k: int)
    requires
        0 <= k <= 254,
        k <= s.len(),
        forall|j: int| 0 <= j < k ==> s[j] != 0,
    ensures
        spec_block_len(s) >= k,
    decreases s.len(),
{
    if k > 0 {
        assert(s[0] != 0);
        assert forall|j: int| 0 <= j < k - 1 implies s.skip(1)[j] != 0 by {
            assert(s.skip(1)[j] == s[j + 1]);
        }
        lemma_block_len_at_least(s.skip(1), k - 1);
    }
}

/// A length with the three properties the encoder's scan establishes is the
/// block length.
pub proof fn lemma_block_len_converse(s: Seq<u8>, k: int)
    requires
        0 <= k <= 254,
        k <= s.len(),
        forall|j: int| 0 <= j < k ==> s[j] != 0,
        k == 254 || k == s.len() || s[k] == 0,
    ensures
        spec_block_len(s) == k,
    decreases s.len(),
{
    lemma_block_len_props(s);
    lemma_block_len_at_least(s, k);
    if spec_block_len(s) > k {
        assert(k < 254 && k < s.len());
        assert(s[k] == 0);
    }
}

/// Zero-elimination transform of `data`: code byte, block, and so on
/// recursively over the rest of the payload.
pub open spec fn spec_cobs_encode(data: Seq<u8>) -> Seq<u8>
    decreases data.len(),
    via spec_cobs_encode_decreases
{
    let k = spec_block_len(data) as int;
    if k == 254 {
        seq![255u8] + data.take(254) + spec_cobs_encode(data.skip(254))
    } else if k == data.len() {
        seq![(k + 1) as u8] + data
    } else {
        seq![(k + 1) as u8] + data.take(k) + spec_cobs_encode(data.skip(k + 1))
    }
}

#[via_fn]
proof fn spec_cobs_encode_decreases(data: Seq<u8>) {
    lemma_block_len_props(data);
}

/// Reverse transform; `None` exactly when `enc` is not the encoding of any
/// payload: a zero code byte, a zero inside a block, or a truncated block.
pub open spec fn spec_cobs_decode(enc: Seq<u8>) -> Option<Seq<u8>>
    decreases enc.len(),
{
    if enc.len() == 0 {
        Some(Seq::empty())
    } else {
        let c = enc[0] as int;
        if c == 0 {
            None
        } else if enc.len() < c {
            None
        } else if exists|j: int| 1 <= j < c && enc[j] == 0 {
            None
        } else {
            let block = enc.subrange(1, c);
            let rest = enc.skip(c);
            if rest.len() == 0 {
                Some(block)
            } else {
                match spec_cobs_decode(rest) {
                    None => None,
                    Some(tail) => Some(
                        block + (if c < 255 {
                            seq![0u8]
                        } else {
                            Seq::empty()
                        }) + tail,
                    ),
                }
            }
        }
    }
}

/// An encoding is never empty: even an empty payload encodes to one code
/// byte.
pub proof fn lemma_encode_nonempty(data: Seq<u8>)
    ensures
        spec_cobs_encode(data).len() >= 1,
{
}

/// The encoder's output contains no zero byte, so a zero unambiguously
/// delimits frames whatever the payload was.
pub proof fn lemma_encode_zero_free(data: Seq<u8>)
    ensures
        forall|i: int|
            0 <= i < spec_cobs_encode(data).len() ==> #[trigger] spec_cobs_encode(data)[i] != 0,
    decreases data.len(),
{
    lemma_block_len_props(data);
    let k = spec_block_len(data) as int;
    let enc = spec_cobs_encode(data);
    if k == 254 {
        lemma_encode_zero_free(data.skip(254));
        let rest = spec_cobs_encode(data.skip(254));
        assert forall|i: int| 0 <= i < enc.len() implies #[trigger] enc[i] != 0 by {
            if 1 <= i < 255 {
                assert(enc[i] == data.take(254)[i - 1]);
            } else if i >= 255 {
                assert(enc[i] == rest[i - 255]);
            }
        }
    } else if k == data.len() {
        assert forall|i: int| 0 <= i < enc.len() implies #[trigger] enc[i] != 0 by {
            if i >= 1 {
                assert(enc[i] == data[i - 1]);
            }
        }
    } else {
        lemma_encode_zero_free(data.skip(k + 1));
        let rest = spec_cobs_encode(data.skip(k + 1));
        assert forall|i: int| 0 <= i < enc.len() implies #[trigger] enc[i] != 0 by {
            if 1 <= i < k + 1 {
                assert(enc[i] == data.take(k)[i - 1]);
            } else if i >= k + 1 {
                assert(enc[i] == rest[i - (k + 1)]);
            }
        }
    }
}

/// A coarse size bound on the encoding, enough to show that an encoded
/// setpoint always fits the decoder's accumulation buffer.
pub proof fn lemma_encode_len_bound(data: Seq<u8>)
    ensures
        spec_cobs_encode(data).len() <= 2 * data.len() + 1,
    decreases data.len(),
{
    lemma_block_len_props(data);
    let k = spec_block_len(data) as int;
    if k == 254 {
        lemma_encode_len_bound(data.skip(254));
    } else if k == data.len() {
    } else {
        lemma_encode_len_bound(data.skip(k + 1));
    }
}

/// Decoding an encoded payload yields the payload back, for every payload.
pub proof fn lemma_cobs_round_trip(data: Seq<u8>)
    ensures
        spec_cobs_decode(spec_cobs_encode(data)) == Some(data),
    decreases data.len(),
{
    lemma_block_len_props(data);
    let k = spec_block_len(data) as int;
    let enc = spec_cobs_encode(data);
    if k == 254 {
        let rest = spec_cobs_encode(data.skip(254));
        lemma_cobs_round_trip(data.skip(254));
        lemma_encode_nonempty(data.skip(254));
        assert(enc[0] == 255);
        assert(forall|j: int| 1 <= j < 255 ==> enc[j] == data.take(254)[j - 1]);
        assert(forall|j: int| 1 <= j < 255 ==> enc[j] != 0);
        assert(!(exists|j: int| 1 <= j < 255 && enc[j] == 0));
        assert(enc.subrange(1, 255) =~= data.take(254));
        assert(enc.skip(255) =~= rest);
        assert(spec_cobs_decode(enc) == Some(data.take(254) + Seq::<u8>::empty() + data.skip(254)));
        assert(data.take(254) + Seq::<u8>::empty() + data.skip(254) =~= data);
    } else if k == data.len() {
        assert(enc[0] == k + 1);
        assert(enc.len() == k + 1);
        assert(forall|j: int| 1 <= j < k + 1 ==> enc[j] == data[j - 1]);
        assert(!(exists|j: int| 1 <= j < k + 1 && enc[j] == 0));
        assert(enc.subrange(1, k + 1) =~= data);
        assert(enc.skip(k + 1).len() == 0);
        assert(spec_cobs_decode(enc) == Some(data));
    } else {
        let rest = spec_cobs_encode(data.skip(k + 1));
        lemma_cobs_round_trip(data.skip(k + 1));
        lemma_encode_nonempty(data.skip(k + 1));
        assert(enc[0] == k + 1);
        assert(forall|j: int| 1 <= j < k + 1 ==> enc[j] == data.take(k)[j - 1]);
        assert(!(exists|j: int| 1 <= j < k + 1 && enc[j] == 0));
        assert(enc.subrange(1, k + 1) =~= data.take(k));
        assert(enc.skip(k + 1) =~= rest);
        assert(spec_cobs_decode(enc) == Some(data.take(k) + seq![0u8] + data.skip(k + 1)));
        assert(data.take(k) + seq![0u8] + data.skip(k + 1) =~= data);
    }
}

/// Apply the zero-elimination transform to `data`.
pub fn cobs_encode(data: &Vec<u8>) -> (out: Vec<u8>)
    ensures
        out@ == spec_cobs_encode(data@),
{
    let n: usize = data.len();
    let mut out: Vec<u8> = Vec::new();
    let mut i: usize = 0;
    assert(data@.skip(0) =~= data@);
    loop
        invariant
            i <= n,
            n == data@.len(),
            spec_cobs_encode(data@) == out@ + spec_cobs_encode(data@.skip(i as int)),
        ensures
            out@ == spec_cobs_encode(data@),
        decreases n - i,
    {
        let ghost suffix = data@.skip(i as int);
        let ghost out_pre = out@;
        let mut j: usize = i;
        while j < n && j - i < 254 && data[j] != 0
            invariant
                i <= j <= n,
                j - i <= 254,
                n == data@.len(),
                forall|t: int| i <= t < j ==> data@[t] != 0,
            decreases n - j,
        {
            j = j + 1;
        }
        let k: usize = j - i;
        proof {
            assert forall|t: int| 0 <= t < k implies suffix[t] != 0 by {
                assert(suffix[t] == data@[i + t]);
            }
            if k != 254 && j != n {
                assert(suffix[k as int] == data@[j as int]);
            }
            lemma_block_len_converse(suffix, k as int);
        }
        out.push((k + 1) as u8);
        let mut t: usize = i;
        while t < j
            invariant
                i <= t <= j <= n,
                n == data@.len(),
                out@ == out_pre + seq![(k + 1) as u8] + data@.subrange(i as int, t as int),
            decreases j - t,
        {
            out.push(data[t]);
            assert(out@ =~= out_pre + seq![(k + 1) as u8] + data@.subrange(i as int, t + 1));
            t = t + 1;
        }
        if k == 254 {
            proof {
                assert(suffix.take(254) =~= data@.subrange(i as int, j as int));
                assert(suffix.skip(254) =~= data@.skip(j as int));
                assert(spec_cobs_encode(suffix) == seq![255u8] + suffix.take(254)
                    + spec_cobs_encode(suffix.skip(254)));
                assert(out@ + spec_cobs_encode(data@.skip(j as int)) =~= out_pre
                    + spec_cobs_encode(suffix));
            }
            i = j;
        } else if j < n {
            proof {
                assert(suffix.take(k as int) =~= data@.subrange(i as int, j as int));
                assert(suffix.skip(k as int + 1) =~= data@.skip(j as int + 1));
                assert(spec_cobs_encode(suffix) == seq![(k + 1) as u8] + suffix.take(k as int)
                    + spec_cobs_encode(suffix.skip(k as int + 1)));
                assert(out@ + spec_cobs_encode(data@.skip(j as int + 1)) =~= out_pre
                    + spec_cobs_encode(suffix));
            }
            i = j + 1;
        } else {
            proof {
                assert(suffix =~= data@.subrange(i as int, j as int));
                assert(spec_cobs_encode(suffix) == seq![(k + 1) as u8] + suffix);
                assert(out@ =~= out_pre + spec_cobs_encode(suffix));
            }
            return out;
        }
    }
}

/// Reverse the zero-elimination transform; `None` when `enc` is malformed.
pub fn cobs_decode(enc: &Vec<u8>) -> (r: Option<Vec<u8>>)
    ensures
        r matches Some(d) ==> spec_cobs_decode(enc@) == Some(d@),
        (r is None) <==> (spec_cobs_decode(enc@) is None),
{
    let n: usize = enc.len();
    let mut out: Vec<u8> = Vec::new();
    let mut i: usize = 0;
    assert(enc@.skip(0) =~= enc@);
    loop
        invariant
            i <= n,
            n == enc@.len(),
            (match spec_cobs_decode(enc@.skip(i as int)) {
                Some(tail) => spec_cobs_decode(enc@) == Some(out@ + tail),
                None => spec_cobs_decode(enc@) is None,
            }),
        ensures
            i == n,
            spec_cobs_decode(enc@) == Some(out@),
        decreases n - i,
    {
        let ghost suffix = enc@.skip(i as int);
        if i == n {
            assert(out@ + suffix =~= out@);
            break ;
        }
        let c = enc[i];
        assert(suffix[0] == c);
        if c == 0 {
            return None;
        }
        let c_us = c as usize;
        if n - i < c_us {
            assert(suffix.len() < c as int);
            return None;
        }
        let ghost out_pre = out@;
        let mut t: usize = i + 1;
        while t < i + c_us
            invariant
                i + 1 <= t <= i + c_us,
                i + c_us <= n,
                n == enc@.len(),
                suffix == enc@.skip(i as int),
                c == enc@[i as int],
                c_us == c as usize,
                (match spec_cobs_decode(suffix) {
                    Some(tail) => spec_cobs_decode(enc@) == Some(out_pre + tail),
                    None => spec_cobs_decode(enc@) is None,
                }),
                out@ == out_pre + enc@.subrange(i as int + 1, t as int),
                forall|u: int| i + 1 <= u < t ==> enc@[u] != 0,
            decreases i + c_us - t,
        {
            let b = enc[t];
            if b == 0 {
                proof {
                    assert(suffix[t - i] == 0);
                    assert(1 <= t - i < c as int);
                    assert(spec_cobs_decode(suffix) is None);
                }
                return None;
            }
            out.push(b);
            assert(out@ =~= out_pre + enc@.subrange(i as int + 1, t + 1));
            t = t + 1;
        }
        proof {
            assert forall|j: int| 1 <= j < c as int implies suffix[j] != 0 by {
                assert(suffix[j] == enc@[i + j]);
            }
            assert(!(exists|j: int| 1 <= j < c as int && suffix[j] == 0));
            assert(suffix.subrange(1, c as int) =~= enc@.subrange(i as int + 1, i as int + c as int));
            assert(suffix.skip(c as int) =~= enc@.skip(i as int + c as int));
        }
        i = i + c_us;
        if c < 255 && i < n {
            out.push(0);
            assert(out@ =~= out_pre + suffix.subrange(1, c as int) + seq![0u8]);
        }
        proof {
            let rest = enc@.skip(i as int);
            let block = suffix.subrange(1, c as int);
            if rest.len() == 0 {
                assert(spec_cobs_decode(suffix) == Some(block));
                assert(out@ =~= out_pre + block);
                assert(out@ + rest =~= out@);
            } else {
                match spec_cobs_decode(rest) {
                    Some(tail) => {
                        if c < 255 {
                            assert(spec_cobs_decode(suffix) == Some(block + seq![0u8] + tail));
                            assert(out@ + tail =~= out_pre + (block + seq![0u8] + tail));
                        } else {
                            assert(spec_cobs_decode(suffix) == Some(
                                block + Seq::<u8>::empty() + tail,
                            ));
                            assert(out@ + tail =~= out_pre + (block + Seq::<u8>::empty() + tail));
                        }
                    },
                    None => {
                        assert(spec_cobs_decode(suffix) is None);
                    },
                }
            }
        }
    }
    Some(out)
}

} // verus!
