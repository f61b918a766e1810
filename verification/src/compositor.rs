//! The compositor probe: building the per-screen compositing selection name
//! and deciding, from the selection's current owner, whether a compositing
//! manager is running.

use vstd::prelude::*;

verus! {

/// The display server's null resource identifier.
pub const XID_NONE: u32 = 0;

/// The decimal digits of `n`, most significant first, as ASCII bytes.
/// No leading zeros: a single `b'0'` only for `n == 0`.
pub open spec fn decimal_bytes(n: nat) -> Seq<u8>
    decreases n,
{
    if n < 10 {
        seq![(48 + n) as u8]
    } else {
        decimal_bytes(n / 10).push((48 + n % 10) as u8)
    }
}

/// The ASCII bytes of the fixed prefix `_NET_WM_CM_S` of the per-screen
/// compositing selection name.
pub open spec fn selection_name_prefix() -> Seq<u8> {
    seq![95u8, 78u8, 69u8, 84u8, 95u8, 87u8, 77u8, 95u8, 67u8, 77u8, 95u8, 83u8]
}

/// The ASCII bytes of the compositing selection name for a screen:
/// `_NET_WM_CM_S` followed by the screen index in decimal.
pub open spec fn selection_name_bytes(screen_index: nat) -> Seq<u8> {
    selection_name_prefix() + decimal_bytes(screen_index)
}

/// The name of the compositing-manager selection for the given screen,
/// `_NET_WM_CM_S<screen_index>`, as ASCII bytes ready to be interned.
pub fn compositor_selection_name(screen_index: usize) -> (r: Vec<u8>)
    ensures
        r@ == selection_name_bytes(screen_index as nat),
{
    let mut digits: Vec<u8> = Vec::new();
    let mut n: usize = screen_index;
    while n >= 10
        invariant
            decimal_bytes(screen_index as nat) =~= decimal_bytes(n as nat) + digits@.reverse(),
        decreases n,
    {
        let d: u8 = (n % 10) as u8;
        digits.push(48 + d);
        proof {
            assert(decimal_bytes(n as nat) == decimal_bytes(n as nat / 10).push(
                (48 + n as nat % 10) as u8,
            ));
            assert(digits@.reverse() =~= seq![(48 + d) as u8] + digits@.drop_last().reverse());
        }
        n = n / 10;
    }
    let d: u8 = n as u8;
    digits.push(48 + d);
    proof {
        assert(digits@.reverse() =~= seq![(48 + d) as u8] + digits@.drop_last().reverse());
        assert(decimal_bytes(screen_index as nat) =~= digits@.reverse());
    }

    let mut r: Vec<u8> = Vec::new();
    r.push(95);
    r.push(78);
    r.push(69);
    r.push(84);
    r.push(95);
    r.push(87);
    r.push(77);
    r.push(95);
    r.push(67);
    r.push(77);
    r.push(95);
    r.push(83);
    proof {
        assert(r@ =~= selection_name_prefix());
    }
    let count: usize = digits.len();
    let mut i: usize = 0;
    while i < count
        invariant
            count == digits.len(),
            i <= count,
            decimal_bytes(screen_index as nat) =~= digits@.reverse(),
            r@ =~= selection_name_prefix() + digits@.reverse().take(i as int),
        decreases count - i,
    {
        let b: u8 = digits[count - 1 - i];
        r.push(b);
        proof {
            assert(digits@.reverse()[i as int] == b);
            assert(digits@.reverse().take(i + 1) =~= digits@.reverse().take(i as int).push(b));
        }
        i = i + 1;
    }
    proof {
        assert(digits@.reverse().take(count as int) =~= digits@.reverse());
        assert(r@ =~= selection_name_bytes(screen_index as nat));
    }
    r
}

/// Whether a compositing manager is running, given the current owner of the
/// screen's compositing selection: true iff the owner is not the null
/// identifier.
pub fn composite_manager_running(owner: u32) -> (r: bool)
    ensures
        r == (owner != XID_NONE),
{
    owner != XID_NONE
}

} // verus!
