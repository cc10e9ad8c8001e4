use vstd::prelude::*;

verus! {

/// The bytes of `"GET / HTTP/1.0\r\nHost: "`, the fixed opening of the
/// greeting line.
pub open spec fn greeting_prefix() -> Seq<u8> {
    seq![
        71u8, 69, 84, 32, 47, 32, 72, 84, 84, 80, 47, 49, 46, 48, 13, 10, 72, 111, 115, 116, 58,
        32,
    ]
}

/// The bytes of `"\r\n\r\n"`, the fixed close of the greeting line.
pub open spec fn greeting_suffix() -> Seq<u8> {
    seq![13u8, 10, 13, 10]
}

/// The framed greeting sent once after each handshake, before any relayed
/// byte: the fixed request line with `host` as the host header's value.
pub open spec fn greeting_of(host: Seq<u8>) -> Seq<u8> {
    greeting_prefix() + host + greeting_suffix()
}

/// The bytes of `"localhost"`, the name the remote certificate is expected
/// to be valid for and the value of the greeting's host header.
pub open spec fn localhost_bytes() -> Seq<u8> {
    seq![108u8, 111, 99, 97, 108, 104, 111, 115, 116]
}

/// The expected server name, as bytes.
pub fn localhost_name() -> (r: Vec<u8>)
    ensures
        r@ == localhost_bytes(),
{
    let mut v: Vec<u8> = Vec::new();
    v.push(108);
    v.push(111);
    v.push(99);
    v.push(97);
    v.push(108);
    v.push(104);
    v.push(111);
    v.push(115);
    v.push(116);
    proof {
        assert(v@ =~= localhost_bytes());
    }
    v
}

/// Append every byte of `src` to `dst`, in order.
fn push_bytes(dst: &mut Vec<u8>, src: &[u8])
    ensures
        final(dst)@ == old(dst)@ + src@,
{
    let n = src.len();
    for i in 0..n
        invariant
            n == src@.len(),
            dst@ == old(dst)@ + src@.take(i as int),
    {
        dst.push(src[i]);
        proof {
            assert(dst@ =~= old(dst)@ + src@.take(i + 1));
        }
    }
    proof {
        assert(old(dst)@ + src@.take(n as int) =~= old(dst)@ + src@);
    }
}

/// Build the greeting line for `host`: the fixed request line, the host
/// name, and the closing blank line.
pub fn build_greeting(host: &[u8]) -> (r: Vec<u8>)
    ensures
        r@ == greeting_of(host@),
{
    let mut out: Vec<u8> = Vec::new();
    out.push(71);
    out.push(69);
    out.push(84);
    out.push(32);
    out.push(47);
    out.push(32);
    out.push(72);
    out.push(84);
    out.push(84);
    out.push(80);
    out.push(47);
    out.push(49);
    out.push(46);
    out.push(48);
    out.push(13);
    out.push(10);
    out.push(72);
    out.push(111);
    out.push(115);
    out.push(116);
    out.push(58);
    out.push(32);
    proof {
        assert(out@ =~= greeting_prefix());
    }
    push_bytes(&mut out, host);
    out.push(13);
    out.push(10);
    out.push(13);
    out.push(10);
    proof {
        assert(out@ =~= greeting_of(host@));
    }
    out
}

} // verus!
