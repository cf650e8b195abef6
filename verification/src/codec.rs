//! The escrow record's persisted byte layout.
//!
//! A record is stored as exactly 112 bytes: the three 32-byte identifiers —
//! initializer, deposit holding, payout destination — followed by the two
//! amounts as 8-byte little-endian words. Encoding and decoding are proved
//! to be mutually inverse, so a stored record is recovered exactly.

use vstd::prelude::*;

use crate::accounts::EscrowAccount;
use crate::identity::Identity;

verus! {

/// The record's stored size in bytes: three identifiers and two amounts.
pub const RECORD_LEN: usize = 32 + 32 + 32 + 8 + 8;

/// The eight little-endian bytes of a 64-bit word.
pub open spec fn u64_le_bytes(x: u64) -> Seq<u8> {
    seq![
        (x & 0xff) as u8,
        ((x >> 8) & 0xff) as u8,
        ((x >> 16) & 0xff) as u8,
        ((x >> 24) & 0xff) as u8,
        ((x >> 32) & 0xff) as u8,
        ((x >> 40) & 0xff) as u8,
        ((x >> 48) & 0xff) as u8,
        ((x >> 56) & 0xff) as u8,
    ]
}

/// The 32 bytes of an identifier: its four words, little-endian, in order.
pub open spec fn identity_bytes(id: Identity) -> Seq<u8> {
    u64_le_bytes(id.w0) + u64_le_bytes(id.w1) + u64_le_bytes(id.w2) + u64_le_bytes(id.w3)
}

/// The record's 112 stored bytes.
pub open spec fn record_bytes(r: EscrowAccount) -> Seq<u8> {
    identity_bytes(r.initializer_key) + identity_bytes(r.initializer_deposit_token_account)
        + identity_bytes(r.initializer_receive_wallet_account) + u64_le_bytes(r.initializer_amount)
        + u64_le_bytes(r.taker_amount)
}

/// A word's byte encoding determines the word.
pub proof fn lemma_u64_le_bytes_injective(x: u64, y: u64)
    requires
        u64_le_bytes(x) == u64_le_bytes(y),
    ensures
        x == y,
{
    assert((x & 0xff) as u8 == (y & 0xff) as u8) by {
        assert(u64_le_bytes(x)[0] == u64_le_bytes(y)[0]);
    }
    assert(((x >> 8) & 0xff) as u8 == ((y >> 8) & 0xff) as u8) by {
        assert(u64_le_bytes(x)[1] == u64_le_bytes(y)[1]);
    }
    assert(((x >> 16) & 0xff) as u8 == ((y >> 16) & 0xff) as u8) by {
        assert(u64_le_bytes(x)[2] == u64_le_bytes(y)[2]);
    }
    assert(((x >> 24) & 0xff) as u8 == ((y >> 24) & 0xff) as u8) by {
        assert(u64_le_bytes(x)[3] == u64_le_bytes(y)[3]);
    }
    assert(((x >> 32) & 0xff) as u8 == ((y >> 32) & 0xff) as u8) by {
        assert(u64_le_bytes(x)[4] == u64_le_bytes(y)[4]);
    }
    assert(((x >> 40) & 0xff) as u8 == ((y >> 40) & 0xff) as u8) by {
        assert(u64_le_bytes(x)[5] == u64_le_bytes(y)[5]);
    }
    assert(((x >> 48) & 0xff) as u8 == ((y >> 48) & 0xff) as u8) by {
        assert(u64_le_bytes(x)[6] == u64_le_bytes(y)[6]);
    }
    assert(((x >> 56) & 0xff) as u8 == ((y >> 56) & 0xff) as u8) by {
        assert(u64_le_bytes(x)[7] == u64_le_bytes(y)[7]);
    }
    assert(x == y) by (bit_vector)
        requires
            (x & 0xff) as u8 == (y & 0xff) as u8,
            ((x >> 8) & 0xff) as u8 == ((y >> 8) & 0xff) as u8,
            ((x >> 16) & 0xff) as u8 == ((y >> 16) & 0xff) as u8,
            ((x >> 24) & 0xff) as u8 == ((y >> 24) & 0xff) as u8,
            ((x >> 32) & 0xff) as u8 == ((y >> 32) & 0xff) as u8,
            ((x >> 40) & 0xff) as u8 == ((y >> 40) & 0xff) as u8,
            ((x >> 48) & 0xff) as u8 == ((y >> 48) & 0xff) as u8,
            ((x >> 56) & 0xff) as u8 == ((y >> 56) & 0xff) as u8,
    ;
}

/// Append a word's eight little-endian bytes.
fn push_u64_le(out: &mut Vec<u8>, x: u64)
    ensures
        final(out)@ == old(out)@ + u64_le_bytes(x),
{
    out.push((x & 0xff) as u8);
    out.push(((x >> 8) & 0xff) as u8);
    out.push(((x >> 16) & 0xff) as u8);
    out.push(((x >> 24) & 0xff) as u8);
    out.push(((x >> 32) & 0xff) as u8);
    out.push(((x >> 40) & 0xff) as u8);
    out.push(((x >> 48) & 0xff) as u8);
    out.push(((x >> 56) & 0xff) as u8);
    proof {
        assert(out@ =~= old(out)@ + u64_le_bytes(x));
    }
}

/// Append an identifier's 32 bytes.
fn push_identity(out: &mut Vec<u8>, id: &Identity)
    ensures
        final(out)@ == old(out)@ + identity_bytes(*id),
{
    push_u64_le(out, id.w0);
    push_u64_le(out, id.w1);
    push_u64_le(out, id.w2);
    push_u64_le(out, id.w3);
    proof {
        assert(out@ =~= old(out)@ + identity_bytes(*id));
    }
}

/// Encode a record into its 112 stored bytes.
pub fn encode_record(r: &EscrowAccount) -> (out: Vec<u8>)
    ensures
        out@ == record_bytes(*r),
        out@.len() == RECORD_LEN,
{
    let mut out: Vec<u8> = Vec::new();
    push_identity(&mut out, &r.initializer_key);
    push_identity(&mut out, &r.initializer_deposit_token_account);
    push_identity(&mut out, &r.initializer_receive_wallet_account);
    push_u64_le(&mut out, r.initializer_amount);
    push_u64_le(&mut out, r.taker_amount);
    proof {
        assert(out@ =~= record_bytes(*r));
    }
    out
}

/// Read the little-endian word stored at `off`.
fn read_u64_le(b: &Vec<u8>, off: usize) -> (r: u64)
    requires
        off + 8 <= b@.len(),
    ensures
        u64_le_bytes(r) == b@.subrange(off as int, off as int + 8),
{
    let n = b.len();
    proof {
        // the vector's length fits in usize, so none of the eight indices overflows
        assert(off + 8 <= n);
    }
    let b0 = b[off];
    let b1 = b[off + 1];
    let b2 = b[off + 2];
    let b3 = b[off + 3];
    let b4 = b[off + 4];
    let b5 = b[off + 5];
    let b6 = b[off + 6];
    let b7 = b[off + 7];
    let r = (b0 as u64) | ((b1 as u64) << 8) | ((b2 as u64) << 16) | ((b3 as u64) << 24) | (
    (b4 as u64) << 32) | ((b5 as u64) << 40) | ((b6 as u64) << 48) | ((b7 as u64) << 56);
    proof {
        assert((r & 0xff) as u8 == b0 && ((r >> 8) & 0xff) as u8 == b1 && ((r >> 16) & 0xff) as u8
            == b2 && ((r >> 24) & 0xff) as u8 == b3 && ((r >> 32) & 0xff) as u8 == b4 && ((r >> 40)
            & 0xff) as u8 == b5 && ((r >> 48) & 0xff) as u8 == b6 && ((r >> 56) & 0xff) as u8 == b7)
            by (bit_vector)
            requires
                r == (b0 as u64) | ((b1 as u64) << 8) | ((b2 as u64) << 16) | ((b3 as u64) << 24)
                    | ((b4 as u64) << 32) | ((b5 as u64) << 40) | ((b6 as u64) << 48) | ((
                b7 as u64) << 56),
        ;
        assert(u64_le_bytes(r) =~= b@.subrange(off as int, off as int + 8));
    }
    r
}

/// Read the identifier stored at `off`.
fn read_identity(b: &Vec<u8>, off: usize) -> (r: Identity)
    requires
        off + 32 <= b@.len(),
    ensures
        identity_bytes(r) == b@.subrange(off as int, off as int + 32),
{
    let n = b.len();
    proof {
        // the vector's length fits in usize, so none of the four offsets overflows
        assert(off + 32 <= n);
    }
    let w0 = read_u64_le(b, off);
    let w1 = read_u64_le(b, off + 8);
    let w2 = read_u64_le(b, off + 16);
    let w3 = read_u64_le(b, off + 24);
    let r = Identity { w0, w1, w2, w3 };
    proof {
        assert(identity_bytes(r) =~= b@.subrange(off as int, off as int + 32));
    }
    r
}

/// Decode a record from its stored bytes. Exactly the byte strings that
/// [`encode_record`] produces are accepted: 112 bytes decode to the unique
/// record they encode, and any other length is refused.
pub fn decode_record(b: &Vec<u8>) -> (r: Option<EscrowAccount>)
    ensures
        b@.len() == RECORD_LEN ==> (r matches Some(rec) && record_bytes(rec) == b@),
        b@.len() != RECORD_LEN ==> r is None,
{
    if b.len() != RECORD_LEN {
        return None;
    }
    let initializer_key = read_identity(b, 0);
    let initializer_deposit_token_account = read_identity(b, 32);
    let initializer_receive_wallet_account = read_identity(b, 64);
    let initializer_amount = read_u64_le(b, 96);
    let taker_amount = read_u64_le(b, 104);
    let rec = EscrowAccount {
        initializer_key,
        initializer_deposit_token_account,
        initializer_receive_wallet_account,
        initializer_amount,
        taker_amount,
    };
    proof {
        assert(record_bytes(rec) =~= b@);
    }
    Some(rec)
}

/// A record's byte encoding determines the record: two records with the
/// same stored bytes are the same record.
pub proof fn lemma_record_bytes_injective(r1: EscrowAccount, r2: EscrowAccount)
    requires
        record_bytes(r1) == record_bytes(r2),
    ensures
        r1 == r2,
{
    lemma_record_bytes_parts(r1, r2);
    lemma_identity_bytes_injective(r1.initializer_key, r2.initializer_key);
    lemma_identity_bytes_injective(
        r1.initializer_deposit_token_account,
        r2.initializer_deposit_token_account,
    );
    lemma_identity_bytes_injective(
        r1.initializer_receive_wallet_account,
        r2.initializer_receive_wallet_account,
    );
    lemma_u64_le_bytes_injective(r1.initializer_amount, r2.initializer_amount);
    lemma_u64_le_bytes_injective(r1.taker_amount, r2.taker_amount);
}

/// A word's byte encoding has eight bytes.
proof fn lemma_u64_le_bytes_len(x: u64)
    ensures
        u64_le_bytes(x).len() == 8,
{
}

/// An identifier's byte encoding has 32 bytes.
proof fn lemma_identity_bytes_len(a: Identity)
    ensures
        identity_bytes(a).len() == 32,
{
    lemma_u64_le_bytes_len(a.w0);
    lemma_u64_le_bytes_len(a.w1);
    lemma_u64_le_bytes_len(a.w2);
    lemma_u64_le_bytes_len(a.w3);
}

/// Records with equal stored bytes agree on each stored field's encoding.
proof fn lemma_record_bytes_parts(r1: EscrowAccount, r2: EscrowAccount)
    requires
        record_bytes(r1) == record_bytes(r2),
    ensures
        identity_bytes(r1.initializer_key) == identity_bytes(r2.initializer_key),
        identity_bytes(r1.initializer_deposit_token_account) == identity_bytes(
            r2.initializer_deposit_token_account,
        ),
        identity_bytes(r1.initializer_receive_wallet_account) == identity_bytes(
            r2.initializer_receive_wallet_account,
        ),
        u64_le_bytes(r1.initializer_amount) == u64_le_bytes(r2.initializer_amount),
        u64_le_bytes(r1.taker_amount) == u64_le_bytes(r2.taker_amount),
{
    let i1 = identity_bytes(r1.initializer_key);
    let d1 = identity_bytes(r1.initializer_deposit_token_account);
    let v1 = identity_bytes(r1.initializer_receive_wallet_account);
    let a1 = u64_le_bytes(r1.initializer_amount);
    let t1 = u64_le_bytes(r1.taker_amount);
    let i2 = identity_bytes(r2.initializer_key);
    let d2 = identity_bytes(r2.initializer_deposit_token_account);
    let v2 = identity_bytes(r2.initializer_receive_wallet_account);
    let a2 = u64_le_bytes(r2.initializer_amount);
    let t2 = u64_le_bytes(r2.taker_amount);
    lemma_identity_bytes_len(r1.initializer_key);
    lemma_identity_bytes_len(r1.initializer_deposit_token_account);
    lemma_identity_bytes_len(r1.initializer_receive_wallet_account);
    lemma_u64_le_bytes_len(r1.initializer_amount);
    lemma_identity_bytes_len(r2.initializer_key);
    lemma_identity_bytes_len(r2.initializer_deposit_token_account);
    lemma_identity_bytes_len(r2.initializer_receive_wallet_account);
    lemma_u64_le_bytes_len(r2.initializer_amount);
    lemma_concat_injective(i1 + d1 + v1 + a1, t1, i2 + d2 + v2 + a2, t2);
    lemma_concat_injective(i1 + d1 + v1, a1, i2 + d2 + v2, a2);
    lemma_concat_injective(i1 + d1, v1, i2 + d2, v2);
    lemma_concat_injective(i1, d1, i2, d2);
}

/// Equal concatenations whose front parts have equal length have equal
/// parts.
proof fn lemma_concat_injective(s1: Seq<u8>, t1: Seq<u8>, s2: Seq<u8>, t2: Seq<u8>)
    requires
        s1 + t1 == s2 + t2,
        s1.len() == s2.len(),
    ensures
        s1 == s2,
        t1 == t2,
{
    assert((s1 + t1).len() == s1.len() + t1.len());
    assert((s2 + t2).len() == s2.len() + t2.len());
    assert(t1.len() == t2.len());
    assert(s1 =~= s2) by {
        assert forall|i: int| 0 <= i < s1.len() implies s1[i] == s2[i] by {
            assert((s1 + t1)[i] == s1[i]);
            assert((s2 + t2)[i] == s2[i]);
        }
    }
    assert(t1 =~= t2) by {
        assert forall|i: int| 0 <= i < t1.len() implies t1[i] == t2[i] by {
            assert((s1 + t1)[s1.len() + i] == t1[i]);
            assert((s2 + t2)[s2.len() + i] == t2[i]);
        }
    }
}

/// An identifier's byte encoding determines the identifier.
proof fn lemma_identity_bytes_injective(a: Identity, b: Identity)
    requires
        identity_bytes(a) == identity_bytes(b),
    ensures
        a == b,
{
    lemma_concat_injective(
        u64_le_bytes(a.w0) + u64_le_bytes(a.w1) + u64_le_bytes(a.w2),
        u64_le_bytes(a.w3),
        u64_le_bytes(b.w0) + u64_le_bytes(b.w1) + u64_le_bytes(b.w2),
        u64_le_bytes(b.w3),
    );
    lemma_concat_injective(
        u64_le_bytes(a.w0) + u64_le_bytes(a.w1),
        u64_le_bytes(a.w2),
        u64_le_bytes(b.w0) + u64_le_bytes(b.w1),
        u64_le_bytes(b.w2),
    );
    lemma_concat_injective(u64_le_bytes(a.w0), u64_le_bytes(a.w1), u64_le_bytes(b.w0), u64_le_bytes(b.w1));
    lemma_u64_le_bytes_injective(a.w0, b.w0);
    lemma_u64_le_bytes_injective(a.w1, b.w1);
    lemma_u64_le_bytes_injective(a.w2, b.w2);
    lemma_u64_le_bytes_injective(a.w3, b.w3);
}

} // verus!
