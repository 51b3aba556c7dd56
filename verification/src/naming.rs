//! Partition naming: derive the device node of a numbered partition from the
//! base device path. Device families whose names carry a multi-queue or NVMe
//! marker take a `p` separator before the partition number; all others take
//! the number directly appended.

use vstd::prelude::*;
use crate::strutil::{contains_seq, contains_sub};

verus! {

/// The character that writes a decimal digit.
pub open spec fn digit_char(d: nat) -> char {
    if d == 0 {
        '0'
    } else if d == 1 {
        '1'
    } else if d == 2 {
        '2'
    } else if d == 3 {
        '3'
    } else if d == 4 {
        '4'
    } else if d == 5 {
        '5'
    } else if d == 6 {
        '6'
    } else if d == 7 {
        '7'
    } else if d == 8 {
        '8'
    } else {
        '9'
    }
}

/// The decimal digits of `n`, most significant first, with no leading zero.
pub open spec fn dec_digits(n: nat) -> Seq<char>
    decreases n,
{
    if n < 10 {
        seq![digit_char(n)]
    } else {
        dec_digits(n / 10) + seq![digit_char(n % 10)]
    }
}

/// Devices of these families suffix their partitions with a separator letter.
pub open spec fn needs_separator(device: Seq<char>) -> bool {
    contains_seq(device, "mmcblk"@) || contains_seq(device, "nvme"@)
}

/// The device-node path of partition `n` of `device`.
pub open spec fn spec_partition_name(device: Seq<char>, n: nat) -> Seq<char> {
    if needs_separator(device) {
        device + seq!['p'] + dec_digits(n)
    } else {
        device + dec_digits(n)
    }
}

/// The one-character string of a decimal digit.
fn digit_str(d: u8) -> (r: &'static str)
    requires
        d < 10,
    ensures
        r@ == seq![digit_char(d as nat)],
{
    if d == 0 {
        proof {
            reveal_strlit("0");
            assert("0"@ =~= seq![digit_char(0)]);
        }
        "0"
    } else if d == 1 {
        proof {
            reveal_strlit("1");
            assert("1"@ =~= seq![digit_char(1)]);
        }
        "1"
    } else if d == 2 {
        proof {
            reveal_strlit("2");
            assert("2"@ =~= seq![digit_char(2)]);
        }
        "2"
    } else if d == 3 {
        proof {
            reveal_strlit("3");
            assert("3"@ =~= seq![digit_char(3)]);
        }
        "3"
    } else if d == 4 {
        proof {
            reveal_strlit("4");
            assert("4"@ =~= seq![digit_char(4)]);
        }
        "4"
    } else if d == 5 {
        proof {
            reveal_strlit("5");
            assert("5"@ =~= seq![digit_char(5)]);
        }
        "5"
    } else if d == 6 {
        proof {
            reveal_strlit("6");
            assert("6"@ =~= seq![digit_char(6)]);
        }
        "6"
    } else if d == 7 {
        proof {
            reveal_strlit("7");
            assert("7"@ =~= seq![digit_char(7)]);
        }
        "7"
    } else if d == 8 {
        proof {
            reveal_strlit("8");
            assert("8"@ =~= seq![digit_char(8)]);
        }
        "8"
    } else {
        proof {
            reveal_strlit("9");
            assert("9"@ =~= seq![digit_char(9)]);
        }
        "9"
    }
}

/// Appends the decimal digits of `n` to `s`.
fn push_decimal(s: &mut String, n: u8)
    ensures
        final(s)@ == old(s)@ + dec_digits(n as nat),
    decreases n,
{
    if n >= 10 {
        push_decimal(s, n / 10);
    }
    s.append(digit_str(n % 10));
    proof {
        if n < 10 {
            assert(s@ =~= old(s)@ + dec_digits(n as nat));
        } else {
            assert(s@ =~= old(s)@ + dec_digits(n as nat));
        }
    }
}

/// The device-node path of partition `partition_number` of `device`.
pub fn get_partition_name(device: &str, partition_number: u8) -> (r: String)
    ensures
        r@ == spec_partition_name(device@, partition_number as nat),
{
    let mut s = String::from_str(device);
    if contains_sub(device, "mmcblk") || contains_sub(device, "nvme") {
        s.append("p");
        proof {
            reveal_strlit("p");
            assert(s@ =~= device@ + seq!['p']);
        }
        push_decimal(&mut s, partition_number);
        proof {
            assert(s@ =~= spec_partition_name(device@, partition_number as nat));
        }
        s
    } else {
        push_decimal(&mut s, partition_number);
        s
    }
}

/// The partition path always begins with the device path, and what follows it
/// is `p` and the decimal number when the device carries a recognized marker,
/// or the decimal number alone when it does not.
pub proof fn lemma_partition_name_shape(device: Seq<char>, n: nat)
    ensures
        spec_partition_name(device, n).take(device.len() as int) == device,
        needs_separator(device) ==> spec_partition_name(device, n).skip(device.len() as int)
            == seq!['p'] + dec_digits(n),
        !needs_separator(device) ==> spec_partition_name(device, n).skip(device.len() as int)
            == dec_digits(n),
{
    assert(spec_partition_name(device, n).take(device.len() as int) =~= device);
    if needs_separator(device) {
        assert(spec_partition_name(device, n).skip(device.len() as int)
            =~= seq!['p'] + dec_digits(n));
    } else {
        assert(spec_partition_name(device, n).skip(device.len() as int) =~= dec_digits(n));
    }
}

} // verus!
