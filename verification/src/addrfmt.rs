use vstd::prelude::*;
use vstd::string::*;

verus! {

/// The character for one hexadecimal (and so also decimal) digit.
pub open spec fn digit_char(d: u8) -> char {
    if d == 0 {
        '0'
    } else if d == 1 {
        '1'
    } else if d == 2 {
        '2'
    } else if d == 3 {
        '3'
    } else if d == 4 {
        '4'
    } else if d == 5 {
        '5'
    } else if d == 6 {
        '6'
    } else if d == 7 {
        '7'
    } else if d == 8 {
        '8'
    } else if d == 9 {
        '9'
    } else if d == 10 {
        'a'
    } else if d == 11 {
        'b'
    } else if d == 12 {
        'c'
    } else if d == 13 {
        'd'
    } else if d == 14 {
        'e'
    } else {
        'f'
    }
}

fn digit_str(d: u8) -> (r: &'static str)
    requires
        d < 16,
    ensures
        r@ == seq![digit_char(d)],
{
    proof {
        reveal_strlit("0");
        reveal_strlit("1");
        reveal_strlit("2");
        reveal_strlit("3");
        reveal_strlit("4");
        reveal_strlit("5");
        reveal_strlit("6");
        reveal_strlit("7");
        reveal_strlit("8");
        reveal_strlit("9");
        reveal_strlit("a");
        reveal_strlit("b");
        reveal_strlit("c");
        reveal_strlit("d");
        reveal_strlit("e");
        reveal_strlit("f");
        assert("0"@ =~= seq![digit_char(0)]);
        assert("1"@ =~= seq![digit_char(1)]);
        assert("2"@ =~= seq![digit_char(2)]);
        assert("3"@ =~= seq![digit_char(3)]);
        assert("4"@ =~= seq![digit_char(4)]);
        assert("5"@ =~= seq![digit_char(5)]);
        assert("6"@ =~= seq![digit_char(6)]);
        assert("7"@ =~= seq![digit_char(7)]);
        assert("8"@ =~= seq![digit_char(8)]);
        assert("9"@ =~= seq![digit_char(9)]);
        assert("a"@ =~= seq![digit_char(10)]);
        assert("b"@ =~= seq![digit_char(11)]);
        assert("c"@ =~= seq![digit_char(12)]);
        assert("d"@ =~= seq![digit_char(13)]);
        assert("e"@ =~= seq![digit_char(14)]);
        assert("f"@ =~= seq![digit_char(15)]);
    }
    if d == 0 {
        "0"
    } else if d == 1 {
        "1"
    } else if d == 2 {
        "2"
    } else if d == 3 {
        "3"
    } else if d == 4 {
        "4"
    } else if d == 5 {
        "5"
    } else if d == 6 {
        "6"
    } else if d == 7 {
        "7"
    } else if d == 8 {
        "8"
    } else if d == 9 {
        "9"
    } else if d == 10 {
        "a"
    } else if d == 11 {
        "b"
    } else if d == 12 {
        "c"
    } else if d == 13 {
        "d"
    } else if d == 14 {
        "e"
    } else {
        "f"
    }
}

/// Decimal notation of a byte, without leading zeros.
pub open spec fn dec_u8_seq(n: u8) -> Seq<char> {
    if n < 10 {
        seq![digit_char(n)]
    } else if n < 100 {
        seq![digit_char(n / 10), digit_char(n % 10)]
    } else {
        seq![digit_char(n / 100), digit_char((n / 10) % 10), digit_char(n % 10)]
    }
}

/// Formats a byte in decimal.
pub fn dec_u8_string(n: u8) -> (r: String)
    ensures
        r@ == dec_u8_seq(n),
{
    let mut s = String::new();
    if n >= 100 {
        s.append(digit_str(n / 100));
    }
    if n >= 10 {
        s.append(digit_str((n / 10) % 10));
    }
    s.append(digit_str(n % 10));
    proof {
        assert(s@ =~= dec_u8_seq(n));
    }
    s
}

/// Lowercase hexadecimal notation of a 16-bit group, without leading zeros.
pub open spec fn hex_u16_seq(n: u16) -> Seq<char> {
    if n < 16 {
        seq![digit_char(n as u8)]
    } else if n < 256 {
        seq![digit_char((n / 16) as u8), digit_char((n % 16) as u8)]
    } else if n < 4096 {
        seq![
            digit_char((n / 256) as u8),
            digit_char(((n / 16) % 16) as u8),
            digit_char((n % 16) as u8),
        ]
    } else {
        seq![
            digit_char((n / 4096) as u8),
            digit_char(((n / 256) % 16) as u8),
            digit_char(((n / 16) % 16) as u8),
            digit_char((n % 16) as u8),
        ]
    }
}

/// Formats a 16-bit group in lowercase hexadecimal.
pub fn hex_u16_string(n: u16) -> (r: String)
    ensures
        r@ == hex_u16_seq(n),
{
    let mut s = String::new();
    if n >= 4096 {
        s.append(digit_str((n / 4096) as u8));
    }
    if n >= 256 {
        s.append(digit_str(((n / 256) % 16) as u8));
    }
    if n >= 16 {
        s.append(digit_str(((n / 16) % 16) as u8));
    }
    s.append(digit_str((n % 16) as u8));
    proof {
        assert(s@ =~= hex_u16_seq(n));
    }
    s
}

/// The dotted-decimal text form of an IPv4 address.
pub open spec fn ipv4_addr_seq(a: [u8; 4]) -> Seq<char> {
    dec_u8_seq(a[0]) + seq!['.'] + dec_u8_seq(a[1]) + seq!['.'] + dec_u8_seq(a[2]) + seq!['.']
        + dec_u8_seq(a[3])
}

/// Formats an IPv4 address in dotted-decimal notation.
pub fn ipv4_addr_string(a: &[u8; 4]) -> (r: String)
    ensures
        r@ == ipv4_addr_seq(*a),
{
    proof {
        reveal_strlit(".");
    }
    let mut s = dec_u8_string(a[0]);
    s.append(".");
    let p1 = dec_u8_string(a[1]);
    s.append(p1.as_str());
    s.append(".");
    let p2 = dec_u8_string(a[2]);
    s.append(p2.as_str());
    s.append(".");
    let p3 = dec_u8_string(a[3]);
    s.append(p3.as_str());
    proof {
        assert(s@ =~= ipv4_addr_seq(*a));
    }
    s
}

/// The 16-bit group `i` (0 to 7) of an IPv6 address, read big-endian.
pub open spec fn ipv6_group(a: [u8; 16], i: int) -> u16 {
    ((a[2 * i] as int) * 256 + (a[2 * i + 1] as int)) as u16
}

/// The text form of an IPv6 address used here: all eight groups in lowercase
/// hexadecimal without leading zeros, separated by colons (no zero-run
/// compression).
pub open spec fn ipv6_addr_seq(a: [u8; 16]) -> Seq<char> {
    hex_u16_seq(ipv6_group(a, 0)) + seq![':'] + hex_u16_seq(ipv6_group(a, 1)) + seq![':']
        + hex_u16_seq(ipv6_group(a, 2)) + seq![':'] + hex_u16_seq(ipv6_group(a, 3)) + seq![':']
        + hex_u16_seq(ipv6_group(a, 4)) + seq![':'] + hex_u16_seq(ipv6_group(a, 5)) + seq![':']
        + hex_u16_seq(ipv6_group(a, 6)) + seq![':'] + hex_u16_seq(ipv6_group(a, 7))
}

fn ipv6_group_exec(a: &[u8; 16], i: usize) -> (g: u16)
    requires
        i < 8,
    ensures
        g == ipv6_group(*a, i as int),
{
    (a[2 * i] as u16) * 256 + (a[2 * i + 1] as u16)
}

/// Formats an IPv6 address as eight colon-separated hexadecimal groups.
pub fn ipv6_addr_string(a: &[u8; 16]) -> (r: String)
    ensures
        r@ == ipv6_addr_seq(*a),
{
    proof {
        reveal_strlit(":");
    }
    let mut s = hex_u16_string(ipv6_group_exec(a, 0));
    let g1 = hex_u16_string(ipv6_group_exec(a, 1));
    s.append(":");
    s.append(g1.as_str());
    let g2 = hex_u16_string(ipv6_group_exec(a, 2));
    s.append(":");
    s.append(g2.as_str());
    let g3 = hex_u16_string(ipv6_group_exec(a, 3));
    s.append(":");
    s.append(g3.as_str());
    let g4 = hex_u16_string(ipv6_group_exec(a, 4));
    s.append(":");
    s.append(g4.as_str());
    let g5 = hex_u16_string(ipv6_group_exec(a, 5));
    s.append(":");
    s.append(g5.as_str());
    let g6 = hex_u16_string(ipv6_group_exec(a, 6));
    s.append(":");
    s.append(g6.as_str());
    let g7 = hex_u16_string(ipv6_group_exec(a, 7));
    s.append(":");
    s.append(g7.as_str());
    proof {
        assert(s@ =~= ipv6_addr_seq(*a));
    }
    s
}

} // verus!
