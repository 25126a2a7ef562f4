//! Byte-exact wire shapes: an initial message is `sender_ik (32) ||
//! ephemeral_key (32) || otk_present (1) [|| otk (32)] || ciphertext`, and
//! a prekey bundle is `ik (32) || spk public (32) || spk signature (64) ||
//! otk_present (1) [|| otk (32)]`. Decoding accepts exactly the encodings
//! of well-formed values and rejects everything else with `BadEncoding`.

use crate::bundle::{
    append_bytes, copy_bytes, opt_view, Message, MessageView, PreKeyBundle, PreKeyBundleView,
    SignedPreKey,
};
use crate::errors::ProtocolError;
use vstd::prelude::*;

verus! {

/// The wire form of an optional 32-byte key: a presence byte, then the key
/// when present.
pub open spec fn spec_encode_opt_key(o: Option<Seq<u8>>) -> Seq<u8> {
    match o {
        None => seq![0u8],
        Some(k) => seq![1u8] + k,
    }
}

/// The wire form of an initial message.
pub open spec fn spec_encode_message(m: MessageView) -> Seq<u8> {
    m.sender_identity_key + m.ephemeral_key + spec_encode_opt_key(m.otk) + m.ciphertext
}

/// The wire form of a prekey bundle.
pub open spec fn spec_encode_bundle(b: PreKeyBundleView) -> Seq<u8> {
    b.identity_key + b.spk.pre_key + b.spk.signature + spec_encode_opt_key(b.otk)
}

/// Copies `len` bytes starting at `start`.
fn take_bytes(b: &Vec<u8>, start: usize, len: usize) -> (r: Vec<u8>)
    requires
        start + len <= b@.len(),
    ensures
        r@ == b@.subrange(start as int, start as int + len as int),
{
    let n = b.len();
    let mut out: Vec<u8> = Vec::new();
    let mut i: usize = 0;
    while i < len
        invariant
            0 <= i <= len,
            n == b@.len(),
            start + len <= n,
            out@ == b@.subrange(start as int, start as int + i as int),
        decreases len - i,
    {
        out.push(b[start + i]);
        proof {
            assert(out@ =~= b@.subrange(start as int, start as int + i + 1));
        }
        i = i + 1;
    }
    out
}

/// Appends the wire form of an optional key.
fn append_opt_key(buf: &mut Vec<u8>, o: &Option<Vec<u8>>)
    ensures
        final(buf)@ == old(buf)@ + spec_encode_opt_key(opt_view(*o)),
{
    match o {
        None => {
            buf.push(0u8);
            proof {
                assert(buf@ =~= old(buf)@ + seq![0u8]);
            }
        },
        Some(k) => {
            buf.push(1u8);
            append_bytes(buf, k);
            proof {
                assert(buf@ =~= old(buf)@ + (seq![1u8] + k@));
            }
        },
    }
}

/// Encodes an initial message into its wire form.
pub fn encode_message(m: &Message) -> (r: Vec<u8>)
    requires
        m@.wf(),
    ensures
        r@ == spec_encode_message(m@),
{
    let mut out = copy_bytes(&m.sender_identity_key);
    append_bytes(&mut out, &m.ephemeral_key);
    append_opt_key(&mut out, &m.otk);
    append_bytes(&mut out, &m.ciphertext);
    proof {
        assert(out@ =~= spec_encode_message(m@));
    }
    out
}

/// Encodes a prekey bundle into its wire form.
pub fn encode_bundle(b: &PreKeyBundle) -> (r: Vec<u8>)
    requires
        b@.wf(),
    ensures
        r@ == spec_encode_bundle(b@),
{
    let mut out = copy_bytes(&b.identity_key);
    append_bytes(&mut out, &b.spk.pre_key);
    append_bytes(&mut out, &b.spk.signature);
    append_opt_key(&mut out, &b.otk);
    proof {
        assert(out@ =~= spec_encode_bundle(b@));
    }
    out
}

/// Decodes an initial message from its wire form: accepts exactly the
/// encodings of well-formed messages, handing back the message whose
/// encoding the input is, and rejects anything else with `BadEncoding`.
pub fn decode_message(b: &Vec<u8>) -> (r: Result<Message, ProtocolError>)
    ensures
        r is Ok ==> r.unwrap()@.wf() && spec_encode_message(r.unwrap()@) == b@,
        r is Err ==> r.unwrap_err() == ProtocolError::BadEncoding,
        forall|m: MessageView| m.wf() && spec_encode_message(m) == b@ ==> r is Ok,
{
    if b.len() < 65 {
        proof {
            assert forall|m: MessageView| m.wf() && spec_encode_message(m) == b@ implies false by {
                assert(spec_encode_message(m).len() >= 65);
            }
        }
        return Err(ProtocolError::BadEncoding);
    }
    let sender_identity_key = take_bytes(b, 0, 32);
    let ephemeral_key = take_bytes(b, 32, 32);
    let flag = b[64];
    if flag == 0 {
        let ciphertext = take_bytes(b, 65, b.len() - 65);
        let message = Message { sender_identity_key, ephemeral_key, otk: None, ciphertext };
        proof {
            assert(spec_encode_message(message@) =~= b@);
        }
        Ok(message)
    } else if flag == 1 {
        if b.len() < 97 {
            proof {
                assert forall|m: MessageView|
                    m.wf() && spec_encode_message(m) == b@ implies false by {
                    if m.otk is Some {
                        assert(spec_encode_message(m).len() >= 97);
                    } else {
                        assert(spec_encode_message(m)[64] == 0);
                    }
                }
            }
            return Err(ProtocolError::BadEncoding);
        }
        let otk = take_bytes(b, 65, 32);
        let ciphertext = take_bytes(b, 97, b.len() - 97);
        let message = Message { sender_identity_key, ephemeral_key, otk: Some(otk), ciphertext };
        proof {
            assert(spec_encode_message(message@) =~= b@);
        }
        Ok(message)
    } else {
        proof {
            assert forall|m: MessageView| m.wf() && spec_encode_message(m) == b@ implies false by {
                if m.otk is Some {
                    assert(spec_encode_message(m)[64] == 1);
                } else {
                    assert(spec_encode_message(m)[64] == 0);
                }
            }
        }
        Err(ProtocolError::BadEncoding)
    }
}

/// Decodes a prekey bundle from its wire form: accepts exactly the
/// encodings of well-formed bundles and rejects anything else with
/// `BadEncoding`.
pub fn decode_bundle(b: &Vec<u8>) -> (r: Result<PreKeyBundle, ProtocolError>)
    ensures
        r is Ok ==> r.unwrap()@.wf() && spec_encode_bundle(r.unwrap()@) == b@,
        r is Err ==> r.unwrap_err() == ProtocolError::BadEncoding,
        forall|v: PreKeyBundleView| v.wf() && spec_encode_bundle(v) == b@ ==> r is Ok,
{
    if b.len() < 129 {
        proof {
            assert forall|v: PreKeyBundleView|
                v.wf() && spec_encode_bundle(v) == b@ implies false by {
                assert(spec_encode_bundle(v).len() >= 129);
            }
        }
        return Err(ProtocolError::BadEncoding);
    }
    let identity_key = take_bytes(b, 0, 32);
    let pre_key = take_bytes(b, 32, 32);
    let signature = take_bytes(b, 64, 64);
    let flag = b[128];
    if flag == 0 && b.len() == 129 {
        let bundle = PreKeyBundle {
            identity_key,
            otk: None,
            spk: SignedPreKey { pre_key, signature },
        };
        proof {
            assert(spec_encode_bundle(bundle@) =~= b@);
        }
        Ok(bundle)
    } else if flag == 1 && b.len() == 161 {
        let otk = take_bytes(b, 129, 32);
        let bundle = PreKeyBundle {
            identity_key,
            otk: Some(otk),
            spk: SignedPreKey { pre_key, signature },
        };
        proof {
            assert(spec_encode_bundle(bundle@) =~= b@);
        }
        Ok(bundle)
    } else {
        proof {
            assert forall|v: PreKeyBundleView|
                v.wf() && spec_encode_bundle(v) == b@ implies false by {
                if v.otk is Some {
                    assert(spec_encode_bundle(v)[128] == 1);
                    assert(spec_encode_bundle(v).len() == 161);
                } else {
                    assert(spec_encode_bundle(v)[128] == 0);
                    assert(spec_encode_bundle(v).len() == 129);
                }
            }
        }
        Err(ProtocolError::BadEncoding)
    }
}

/// The wire form determines the message: two well-formed messages with one
/// encoding are the same message, so decoding is the inverse of encoding.
pub proof fn lemma_message_codec_injective(a: MessageView, b: MessageView)
    requires
        a.wf(),
        b.wf(),
        spec_encode_message(a) == spec_encode_message(b),
    ensures
        a == b,
{
    let ea = spec_encode_message(a);
    let eb = spec_encode_message(b);
    if a.otk is Some {
        assert(ea[64] == 1);
    } else {
        assert(ea[64] == 0);
    }
    if b.otk is Some {
        assert(eb[64] == 1);
    } else {
        assert(eb[64] == 0);
    }
    assert(a.otk is Some <==> b.otk is Some);
    assert(a.sender_identity_key =~= b.sender_identity_key) by {
        assert forall|i: int| 0 <= i < 32 implies a.sender_identity_key[i]
            == b.sender_identity_key[i] by {
            assert(ea[i] == a.sender_identity_key[i]);
            assert(eb[i] == b.sender_identity_key[i]);
        }
    }
    assert(a.ephemeral_key =~= b.ephemeral_key) by {
        assert forall|i: int| 0 <= i < 32 implies a.ephemeral_key[i] == b.ephemeral_key[i] by {
            assert(ea[32 + i] == a.ephemeral_key[i]);
            assert(eb[32 + i] == b.ephemeral_key[i]);
        }
    }
    if a.otk is Some {
        assert(ea.len() == 97 + a.ciphertext.len());
        assert(a.otk.unwrap() =~= b.otk.unwrap()) by {
            assert forall|i: int| 0 <= i < 32 implies a.otk.unwrap()[i] == b.otk.unwrap()[i] by {
                assert(ea[65 + i] == a.otk.unwrap()[i]);
                assert(eb[65 + i] == b.otk.unwrap()[i]);
            }
        }
        assert(a.ciphertext =~= b.ciphertext) by {
            assert(a.ciphertext.len() == b.ciphertext.len());
            assert forall|i: int| 0 <= i < a.ciphertext.len() implies a.ciphertext[i]
                == b.ciphertext[i] by {
                assert(ea[97 + i] == a.ciphertext[i]);
                assert(eb[97 + i] == b.ciphertext[i]);
            }
        }
    } else {
        assert(ea.len() == 65 + a.ciphertext.len());
        assert(a.ciphertext =~= b.ciphertext) by {
            assert(a.ciphertext.len() == b.ciphertext.len());
            assert forall|i: int| 0 <= i < a.ciphertext.len() implies a.ciphertext[i]
                == b.ciphertext[i] by {
                assert(ea[65 + i] == a.ciphertext[i]);
                assert(eb[65 + i] == b.ciphertext[i]);
            }
        }
    }
}

} // verus!
