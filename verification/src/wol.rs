//! Wake-on-LAN magic-packet construction: six `0xFF` bytes followed by
//! the target hardware address repeated sixteen times, 102 bytes in all.

use vstd::prelude::*;
use crate::config::MacAddr;

verus! {

/// `mac` repeated `n` times, back to back.
pub open spec fn repeat_mac(mac: Seq<u8>, n: nat) -> Seq<u8>
    decreases n,
{
    if n == 0 {
        Seq::empty()
    } else {
        repeat_mac(mac, (n - 1) as nat) + mac
    }
}

/// The magic packet for a hardware address: six bytes of `0xFF`, then the
/// address sixteen times.
pub open spec fn magic_packet_spec(mac: Seq<u8>) -> Seq<u8> {
    seq![0xffu8, 0xffu8, 0xffu8, 0xffu8, 0xffu8, 0xffu8] + repeat_mac(mac, 16)
}

/// Length of `n` repetitions of a six-octet address.
pub proof fn lemma_repeat_mac_len(mac: Seq<u8>, n: nat)
    requires
        mac.len() == 6,
    ensures
        repeat_mac(mac, n).len() == 6 * n,
    decreases n,
{
    if n > 0 {
        lemma_repeat_mac_len(mac, (n - 1) as nat);
    }
}

/// Builds the magic packet for `mac`: a 102-byte datagram payload whose
/// contents are pinned, byte for byte, by `magic_packet_spec`.
pub fn magic_packet(mac: &MacAddr) -> (r: Vec<u8>)
    ensures
        r@ == magic_packet_spec(mac@),
        r@.len() == 102,
{
    let mut r: Vec<u8> = Vec::new();
    let mut i: usize = 0;
    while i < 6
        invariant
            i <= 6,
            r@ =~= seq![0xffu8, 0xffu8, 0xffu8, 0xffu8, 0xffu8, 0xffu8].take(i as int),
        decreases 6 - i,
    {
        r.push(0xff);
        i = i + 1;
    }
    assert(r@ =~= seq![0xffu8, 0xffu8, 0xffu8, 0xffu8, 0xffu8, 0xffu8]);
    let mut rep: usize = 0;
    while rep < 16
        invariant
            rep <= 16,
            r@ =~= seq![0xffu8, 0xffu8, 0xffu8, 0xffu8, 0xffu8, 0xffu8] + repeat_mac(
                mac@,
                rep as nat,
            ),
        decreases 16 - rep,
    {
        let ghost before = r@;
        let mut j: usize = 0;
        while j < 6
            invariant
                j <= 6,
                r@ =~= before + mac@.take(j as int),
            decreases 6 - j,
        {
            r.push(mac.octets[j]);
            j = j + 1;
        }
        assert(mac@.take(6) =~= mac@);
        assert(r@ =~= seq![0xffu8, 0xffu8, 0xffu8, 0xffu8, 0xffu8, 0xffu8] + repeat_mac(
            mac@,
            (rep + 1) as nat,
        ));
        rep = rep + 1;
    }
    proof {
        lemma_repeat_mac_len(mac@, 16);
    }
    r
}

} // verus!
