use vstd::prelude::*;
use vstd::string::*;
use vstd::utf8::{encode_utf8, decode_utf8, valid_utf8};
use crate::database::{v1, Process, ProcessModel};

verus! {

/// The version discriminator of the first record shape.
pub const VERSION_V1: u8 = 1;

/// `256^k`: one more than the largest value a `k`-byte field can carry.
pub open spec fn pow256(k: nat) -> nat
    decreases k,
{
    if k == 0 {
        1
    } else {
        256 * pow256((k - 1) as nat)
    }
}

/// The `k`-byte little-endian encoding of `n`.
pub open spec fn le_bytes(k: nat, n: nat) -> Seq<u8>
    decreases k,
{
    if k == 0 {
        Seq::empty()
    } else {
        seq![(n % 256) as u8] + le_bytes((k - 1) as nat, n / 256)
    }
}

/// The value a little-endian byte sequence denotes.
pub open spec fn le_value(s: Seq<u8>) -> nat
    decreases s.len(),
{
    if s.len() == 0 {
        0
    } else {
        s[0] as nat + 256 * le_value(s.drop_first())
    }
}

proof fn lemma_pow256_4()
    ensures
        pow256(4) == 0x1_0000_0000,
{
    assert(pow256(0) == 1);
    assert(pow256(1) == 256);
    assert(pow256(2) == 65536);
    assert(pow256(3) == 16777216);
    assert(pow256(4) == 4294967296);
}

proof fn lemma_le_bytes_len(k: nat, n: nat)
    ensures
        le_bytes(k, n).len() == k,
    decreases k,
{
    if k > 0 {
        lemma_le_bytes_len((k - 1) as nat, n / 256);
    }
}

proof fn lemma_le_roundtrip(k: nat, n: nat)
    requires
        n < pow256(k),
    ensures
        le_value(le_bytes(k, n)) == n,
    decreases k,
{
    if k > 0 {
        assert(n / 256 < pow256((k - 1) as nat)) by (nonlinear_arith)
            requires
                n < 256 * pow256((k - 1) as nat),
        ;
        lemma_le_roundtrip((k - 1) as nat, n / 256);
        assert(le_bytes(k, n).drop_first() =~= le_bytes((k - 1) as nat, n / 256));
    }
}

proof fn lemma_le_value_bound(s: Seq<u8>)
    ensures
        le_value(s) < pow256(s.len()),
    decreases s.len(),
{
    if s.len() > 0 {
        lemma_le_value_bound(s.drop_first());
    }
}

/// A string field on the wire: a four-byte little-endian byte count,
/// then the UTF-8 bytes of the text.
pub open spec fn enc_str(s: Seq<char>) -> Seq<u8> {
    le_bytes(4, encode_utf8(s).len()) + encode_utf8(s)
}

/// The wire form of the optional process id: a presence tag, then the
/// id itself when one is present.
pub open spec fn enc_pid(pid: Option<u32>) -> Seq<u8> {
    match pid {
        None => seq![0u8],
        Some(v) => seq![1u8] + le_bytes(4, v as nat),
    }
}

/// The complete wire encoding of a process record: the version tag,
/// the three path fields, and the optional process id.
pub open spec fn spec_encode(m: ProcessModel) -> Seq<u8> {
    seq![VERSION_V1] + enc_str(m.directory) + enc_str(m.stdout) + enc_str(m.stderr) + enc_pid(
        m.process_id,
    )
}

/// Whether each field of a record is small enough for its four-byte
/// length field. Every record a real machine can hold satisfies this.
pub open spec fn encodable(m: ProcessModel) -> bool {
    &&& encode_utf8(m.directory).len() < pow256(4)
    &&& encode_utf8(m.stdout).len() < pow256(4)
    &&& encode_utf8(m.stderr).len() < pow256(4)
}

/// Parses one string field from the front of `b`: the text and the
/// remaining bytes, or nothing if `b` does not start with one.
pub open spec fn dec_str(b: Seq<u8>) -> Option<(Seq<char>, Seq<u8>)> {
    if b.len() < 4 {
        None
    } else {
        let l = le_value(b.subrange(0, 4)) as int;
        if b.len() < 4 + l {
            None
        } else {
            let payload = b.subrange(4, 4 + l);
            if valid_utf8(payload) {
                Some((decode_utf8(payload), b.skip(4 + l)))
            } else {
                None
            }
        }
    }
}

/// Parses a complete record: the inverse of `spec_encode` on every byte
/// sequence that one produces, and `None` on any sequence that no record
/// of a known version encodes to.
pub open spec fn spec_decode(b: Seq<u8>) -> Option<ProcessModel> {
    if b.len() < 1 || b[0] != VERSION_V1 {
        None
    } else {
        match dec_str(b.skip(1)) {
            None => None,
            Some((directory, b1)) => match dec_str(b1) {
                None => None,
                Some((stdout, b2)) => match dec_str(b2) {
                    None => None,
                    Some((stderr, b3)) => if b3.len() == 1 && b3[0] == 0 {
                        Some(ProcessModel { directory, stdout, stderr, process_id: None })
                    } else if b3.len() == 5 && b3[0] == 1 {
                        Some(
                            ProcessModel {
                                directory,
                                stdout,
                                stderr,
                                process_id: Some(le_value(b3.skip(1)) as u32),
                            },
                        )
                    } else {
                        None
                    },
                },
            },
        }
    }
}

proof fn lemma_dec_str_of_enc(s: Seq<char>, rest: Seq<u8>)
    requires
        encode_utf8(s).len() < pow256(4),
    ensures
        dec_str(enc_str(s) + rest) == Some((s, rest)),
{
    broadcast use vstd::utf8::encode_utf8_valid_utf8;
    broadcast use vstd::utf8::encode_utf8_decode_utf8;

    let eb = encode_utf8(s);
    let b = enc_str(s) + rest;
    lemma_le_bytes_len(4, eb.len());
    assert(b.subrange(0, 4) =~= le_bytes(4, eb.len()));
    lemma_le_roundtrip(4, eb.len());
    let l = le_value(b.subrange(0, 4)) as int;
    assert(l == eb.len());
    assert(b.len() >= 4 + l);
    assert(b.subrange(4, 4 + l) =~= eb);
    assert(b.skip(4 + l) =~= rest);
}

/// Decoding is the exact inverse of encoding: every record that fits its
/// length fields is read back unchanged from its own wire form.
#[verifier::rlimit(60)]
pub proof fn lemma_codec_roundtrip(m: ProcessModel)
    requires
        encodable(m),
    ensures
        spec_decode(spec_encode(m)) == Some(m),
{
    let b = spec_encode(m);
    let tail1 = enc_str(m.stdout) + (enc_str(m.stderr) + enc_pid(m.process_id));
    let tail2 = enc_str(m.stderr) + enc_pid(m.process_id);
    assert(b[0] == VERSION_V1);
    assert(b.skip(1) =~= enc_str(m.directory) + tail1);
    lemma_dec_str_of_enc(m.directory, tail1);
    lemma_dec_str_of_enc(m.stdout, tail2);
    lemma_dec_str_of_enc(m.stderr, enc_pid(m.process_id));
    match m.process_id {
        None => {
            assert(spec_decode(b) == Some(m));
        },
        Some(v) => {
            let b3 = enc_pid(m.process_id);
            assert(b3.len() == 5) by {
                lemma_le_bytes_len(4, v as nat);
            }
            assert(b3[0] == 1);
            assert(b3.skip(1) =~= le_bytes(4, v as nat));
            assert(v < pow256(4)) by {
                lemma_pow256_4();
            }
            lemma_le_roundtrip(4, v as nat);
            assert(le_value(b3.skip(1)) as u32 == v);
            assert(spec_decode(b) == Some(m));
        },
    }
}

fn push_le4(out: &mut Vec<u8>, n: u64)
    requires
        n < 0x1_0000_0000,
    ensures
        final(out)@ == old(out)@ + le_bytes(4, n as nat),
{
    let b0 = (n % 256) as u8;
    let n1 = n / 256;
    let b1 = (n1 % 256) as u8;
    let n2 = n1 / 256;
    let b2 = (n2 % 256) as u8;
    let n3 = n2 / 256;
    let b3 = (n3 % 256) as u8;
    out.push(b0);
    out.push(b1);
    out.push(b2);
    out.push(b3);
    proof {
        assert(le_bytes(0, n3 as nat / 256) =~= Seq::<u8>::empty());
        assert(le_bytes(1, n3 as nat) =~= seq![b3]);
        assert(le_bytes(2, n2 as nat) =~= seq![b2] + le_bytes(1, n3 as nat));
        assert(le_bytes(3, n1 as nat) =~= seq![b1] + le_bytes(2, n2 as nat));
        assert(le_bytes(4, n as nat) =~= seq![b0] + le_bytes(3, n1 as nat));
        assert(out@ =~= old(out)@ + le_bytes(4, n as nat));
    }
}

fn push_string(out: &mut Vec<u8>, s: &String)
    requires
        encode_utf8(s@).len() < pow256(4),
    ensures
        final(out)@ == old(out)@ + enc_str(s@),
{
    let mut bytes = s.as_str().as_bytes_vec();
    proof {
        lemma_pow256_4();
    }
    push_le4(out, bytes.len() as u64);
    out.append(&mut bytes);
    assert(out@ =~= old(out)@ + enc_str(s@));
}

/// Produces the versioned wire encoding of a record.
pub fn encode_process(p: &Process) -> (r: Vec<u8>)
    requires
        encodable(p@),
    ensures
        r@ == spec_encode(p@),
{
    match p {
        Process::V1(v) => {
            let mut out: Vec<u8> = Vec::new();
            out.push(VERSION_V1);
            push_string(&mut out, &v.directory);
            push_string(&mut out, &v.stdout);
            push_string(&mut out, &v.stderr);
            match v.process_id {
                None => out.push(0u8),
                Some(id) => {
                    out.push(1u8);
                    push_le4(&mut out, id as u64);
                },
            }
            assert(out@ =~= spec_encode(p@));
            out
        },
    }
}

/// Relies on `String::from_utf8`: returns the text whose UTF-8 bytes were
/// given, and refuses byte sequences that are not valid UTF-8.
#[verifier::external_body]
fn string_from_utf8(bytes: Vec<u8>) -> (r: Option<String>)
    ensures
        match r {
            Some(s) => valid_utf8(bytes@) && s@ == decode_utf8(bytes@),
            None => !valid_utf8(bytes@),
        },
{
    String::from_utf8(bytes).ok()
}

proof fn lemma_le_value4(s: Seq<u8>)
    requires
        s.len() == 4,
    ensures
        le_value(s) == s[0] + 256 * (s[1] + 256 * (s[2] + 256 * (s[3] as nat))),
{
    let s1 = s.drop_first();
    let s2 = s1.drop_first();
    let s3 = s2.drop_first();
    assert(s3.drop_first().len() == 0);
    assert(le_value(s3.drop_first()) == 0);
    assert(le_value(s3) == s3[0]);
    assert(le_value(s2) == s2[0] + 256 * le_value(s3));
    assert(le_value(s1) == s1[0] + 256 * le_value(s2));
    assert(le_value(s) == s[0] + 256 * le_value(s1));
    assert(s1[0] == s[1] && s2[0] == s[2] && s3[0] == s[3]);
}

/// Reads the four-byte little-endian field at `pos`.
fn read_le4(bytes: &Vec<u8>, pos: usize) -> (r: u64)
    requires
        pos + 4 <= bytes@.len(),
    ensures
        r == le_value(bytes@.subrange(pos as int, pos + 4)),
        r < 0x1_0000_0000,
{
    let _blen = bytes.len();
    let b0 = bytes[pos] as u64;
    let b1 = bytes[pos + 1] as u64;
    let b2 = bytes[pos + 2] as u64;
    let b3 = bytes[pos + 3] as u64;
    let v = b0 + 256 * (b1 + 256 * (b2 + 256 * b3));
    proof {
        lemma_le_value4(bytes@.subrange(pos as int, pos + 4));
    }
    v
}

/// Parses the string field at `pos`, returning the text and the position
/// just past it.
fn read_string(bytes: &Vec<u8>, pos: usize) -> (r: Option<(String, usize)>)
    requires
        pos <= bytes@.len(),
    ensures
        match (r, dec_str(bytes@.skip(pos as int))) {
            (Some((s, p2)), Some((text, rest))) => {
                &&& s@ == text
                &&& pos <= p2 <= bytes@.len()
                &&& bytes@.skip(p2 as int) == rest
            },
            (None, None) => true,
            _ => false,
        },
{
    let ghost b = bytes@.skip(pos as int);
    if bytes.len() - pos < 4 {
        return None;
    }
    let l64 = read_le4(bytes, pos);
    proof {
        assert(b.subrange(0, 4) =~= bytes@.subrange(pos as int, pos + 4));
    }
    if ((bytes.len() - pos - 4) as u64) < l64 {
        proof {
            assert(b.len() < 4 + le_value(b.subrange(0, 4)));
        }
        return None;
    }
    let l = l64 as usize;
    let payload = vstd::slice::slice_to_vec(
        vstd::slice::slice_subrange(bytes.as_slice(), pos + 4, pos + 4 + l),
    );
    proof {
        assert(payload@ =~= b.subrange(4, 4 + l));
    }
    let p2 = pos + 4 + l;
    match string_from_utf8(payload) {
        Some(s) => {
            proof {
                assert(bytes@.skip(p2 as int) =~= b.skip(4 + l));
            }
            Some((s, p2))
        },
        None => None,
    }
}

/// Parses a versioned wire record; the exact executable counterpart of
/// [`spec_decode`].
pub fn decode_process(bytes: &Vec<u8>) -> (r: Option<Process>)
    ensures
        match (r, spec_decode(bytes@)) {
            (Some(p), Some(m)) => p@ == m,
            (None, None) => true,
            _ => false,
        },
{
    if bytes.len() < 1 {
        return None;
    }
    if bytes[0] != VERSION_V1 {
        return None;
    }
    let r1 = read_string(bytes, 1);
    proof {
        assert(bytes@.skip(1) == bytes@.skip(1int));
    }
    let (directory, pos1) = match r1 {
        Some(v) => v,
        None => {
            return None;
        },
    };
    let r2 = read_string(bytes, pos1);
    let (stdout, pos2) = match r2 {
        Some(v) => v,
        None => {
            return None;
        },
    };
    let r3 = read_string(bytes, pos2);
    let (stderr, pos3) = match r3 {
        Some(v) => v,
        None => {
            return None;
        },
    };
    let ghost b3 = bytes@.skip(pos3 as int);
    let remaining = bytes.len() - pos3;
    if remaining == 1 && bytes[pos3] == 0 {
        let p = Process::V1(
            v1::Process { directory, stdout, stderr, process_id: None },
        );
        return Some(p);
    }
    if remaining == 5 && bytes[pos3] == 1 {
        let id64 = read_le4(bytes, pos3 + 1);
        proof {
            assert(b3.skip(1) =~= bytes@.subrange(pos3 + 1, pos3 + 5));
            lemma_le_value_bound(b3.skip(1));
            lemma_pow256_4();
        }
        let id = id64 as u32;
        let p = Process::V1(
            v1::Process { directory, stdout, stderr, process_id: Some(id) },
        );
        return Some(p);
    }
    None
}

} // verus!
