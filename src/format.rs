use vstd::prelude::*;
use vstd::string::StringExecFns;

verus! {

/// The text `dd/mm/YYYY HH:MM` of the UTC time `secs` seconds after the Unix epoch.
pub uninterp spec fn ctime_text(secs: u32) -> Seq<char>;

/// Relies on chrono's `From<SystemTime> for DateTime<Utc>` and `DateTime::format`: the
/// UTC time is a function of the seconds alone, and so is its text.
#[verifier::external_body]
fn utc_minute_text(secs: u32) -> (r: String)
    ensures
        r@ == ctime_text(secs),
{
    let time = std::time::SystemTime::UNIX_EPOCH + std::time::Duration::from_secs(secs as u64);
    let dt: chrono::DateTime<chrono::Utc> = time.into();
    dt.format("%d/%m/%Y %H:%M").to_string()
}

/// Formats a COFF time stamp (seconds since the Unix epoch) as a UTC day and minute.
pub fn format_u32_as_ctime(ctime: u32) -> (r: String)
    ensures
        r@ == ctime_text(ctime),
{
    utc_minute_text(ctime)
}

/// The lower-case hexadecimal digit of `n`, for `n < 16`.
pub open spec fn hex_digit(n: int) -> char {
    "0123456789abcdef"@[n]
}

/// The hexadecimal digits of `v`, most significant first, without leading zeros (one
/// digit for zero).
pub open spec fn hex_digits(v: nat) -> Seq<char>
    decreases v,
{
    if v < 16 {
        seq![hex_digit(v as int)]
    } else {
        hex_digits(v / 16) + seq![hex_digit((v % 16) as int)]
    }
}

/// The `0x`-prefixed lower-case hexadecimal text of `v`.
pub open spec fn hex_text(v: u64) -> Seq<char> {
    seq!['0', 'x'] + hex_digits(v as nat)
}

fn digit_text(n: u64) -> (r: &'static str)
    requires
        n < 16,
    ensures
        r@ == seq![hex_digit(n as int)],
{
    proof {
        reveal_strlit("0123456789abcdef");
        reveal_strlit("0");
        reveal_strlit("1");
        reveal_strlit("2");
        reveal_strlit("3");
        reveal_strlit("4");
        reveal_strlit("5");
        reveal_strlit("6");
        reveal_strlit("7");
        reveal_strlit("8");
        reveal_strlit("9");
        reveal_strlit("a");
        reveal_strlit("b");
        reveal_strlit("c");
        reveal_strlit("d");
        reveal_strlit("e");
        reveal_strlit("f");
    }
    let r = match n {
        0 => "0",
        1 => "1",
        2 => "2",
        3 => "3",
        4 => "4",
        5 => "5",
        6 => "6",
        7 => "7",
        8 => "8",
        9 => "9",
        10 => "a",
        11 => "b",
        12 => "c",
        13 => "d",
        14 => "e",
        _ => "f",
    };
    assert(r@ =~= seq![hex_digit(n as int)]);
    r
}

fn push_hex_digits(s: &mut String, v: u64)
    ensures
        final(s)@ == old(s)@ + hex_digits(v as nat),
    decreases v,
{
    if v >= 16 {
        push_hex_digits(s, v / 16);
    }
    s.append(digit_text(v % 16));
    assert(s@ =~= old(s)@ + hex_digits(v as nat)) by {
        if v >= 16 {
            assert(hex_digits(v as nat) == hex_digits((v / 16) as nat) + seq![hex_digit((v % 16) as int)]);
        }
    }
}

/// The `0x`-prefixed lower-case hexadecimal text of `v`.
pub fn to_hex_text(v: u64) -> (r: String)
    ensures
        r@ == hex_text(v),
{
    proof {
        reveal_strlit("0x");
    }
    let mut s = String::from_str("0x");
    assert(s@ =~= seq!['0', 'x']);
    push_hex_digits(&mut s, v);
    s
}

} // verus!
