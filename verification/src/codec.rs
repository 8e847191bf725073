use vstd::prelude::*;
use vstd::string::StringSliceAdditionalSpecFns;

use crate::messages::ServerMessage;

verus! {

/// The decimal digits of `n`, most significant first.
pub open spec fn dec_digits(n: nat) -> Seq<u8>
    decreases n,
{
    if n < 10 {
        seq![('0' as u8 + n) as u8]
    } else {
        dec_digits(n / 10) + seq![('0' as u8 + n % 10) as u8]
    }
}

/// The wire rendering of one coordinate: a decimal integer with one
/// trailing zero decimal place, as the outbound format writes numbers.
pub open spec fn coord_bytes(v: int) -> Seq<u8> {
    (if v < 0 {
        seq!['-' as u8] + dec_digits((-v) as nat)
    } else {
        dec_digits(v as nat)
    }) + seq!['.' as u8, '0' as u8]
}

/// The outbound wire format: a UTF-8 JSON object with a discriminator
/// field naming the message kind and the payload fields after it.
pub open spec fn encoded(m: ServerMessage) -> Seq<u8> {
    match m {
        ServerMessage::PlayerUpdate { translation } => "{\"type\":\"PlayerUpdate\",\"translation\":{\"x\":".spec_bytes()
            + coord_bytes(translation.x as int) + ",\"y\":".spec_bytes() + coord_bytes(
            translation.y as int,
        ) + ",\"z\":".spec_bytes() + coord_bytes(translation.z as int) + "}}".spec_bytes(),
    }
}

/// Appends the UTF-8 bytes of `s` to `out`.
fn push_str_bytes(out: &mut Vec<u8>, s: &str)
    ensures
        final(out)@ == old(out)@ + s.spec_bytes(),
{
    let b = s.as_bytes();
    let mut i: usize = 0;
    while i < b.len()
        invariant
            i <= b@.len(),
            b@ == s.spec_bytes(),
            out@ =~= old(out)@ + b@.subrange(0, i as int),
        decreases b@.len() - i,
    {
        out.push(b[i]);
        i += 1;
        proof {
            assert(out@ =~= old(out)@ + b@.subrange(0, i as int));
        }
    }
    proof {
        assert(b@.subrange(0, b@.len() as int) =~= b@);
    }
}

/// Appends the decimal digits of `n`, most significant first.
fn push_dec(out: &mut Vec<u8>, n: u64)
    ensures
        final(out)@ == old(out)@ + dec_digits(n as nat),
    decreases n,
{
    if n < 10 {
        out.push('0' as u8 + n as u8);
        proof {
            assert(out@ =~= old(out)@ + dec_digits(n as nat));
        }
    } else {
        push_dec(out, n / 10);
        out.push('0' as u8 + (n % 10) as u8);
        proof {
            assert(out@ =~= old(out)@ + dec_digits(n as nat));
        }
    }
}

/// Appends the wire rendering of one coordinate.
fn push_coord(out: &mut Vec<u8>, v: i64)
    ensures
        final(out)@ == old(out)@ + coord_bytes(v as int),
{
    if v < 0 {
        out.push('-' as u8);
        let wide: i128 = -(v as i128);
        let magnitude: u64 = wide as u64;
        push_dec(out, magnitude);
    } else {
        push_dec(out, v as u64);
    }
    out.push('.' as u8);
    out.push('0' as u8);
    proof {
        assert(out@ =~= old(out)@ + coord_bytes(v as int));
    }
}

impl ServerMessage {
    /// Serializes this message to its outbound wire format.
    pub fn encode(&self) -> (r: Vec<u8>)
        ensures
            r@ == encoded(*self),
    {
        match self {
            ServerMessage::PlayerUpdate { translation } => {
                let mut out: Vec<u8> = Vec::new();
                push_str_bytes(&mut out, "{\"type\":\"PlayerUpdate\",\"translation\":{\"x\":");
                push_coord(&mut out, translation.x);
                push_str_bytes(&mut out, ",\"y\":");
                push_coord(&mut out, translation.y);
                push_str_bytes(&mut out, ",\"z\":");
                push_coord(&mut out, translation.z);
                push_str_bytes(&mut out, "}}");
                proof {
                    assert(out@ =~= encoded(*self));
                }
                out
            },
        }
    }
}

} // verus!
