use vstd::prelude::*;
use vstd::string::StringExecFns;

verus! {

/// The decimal digit `d`, for `d < 10`.
pub open spec fn digit_char(d: nat) -> char {
    if d == 0 { '0' }
    else if d == 1 { '1' }
    else if d == 2 { '2' }
    else if d == 3 { '3' }
    else if d == 4 { '4' }
    else if d == 5 { '5' }
    else if d == 6 { '6' }
    else if d == 7 { '7' }
    else if d == 8 { '8' }
    else { '9' }
}

/// `n` written in decimal, without leading zeros.
pub open spec fn decimal_spec(n: nat) -> Seq<char>
    decreases n,
{
    if n < 10 {
        seq![digit_char(n)]
    } else {
        decimal_spec(n / 10) + seq![digit_char(n % 10)]
    }
}

/// The arguments of the probe command: from interface `interface`, `count`
/// echo requests, each waited for at most `timeout_secs` seconds, to `destination`.
pub open spec fn ping_arguments_spec(
    destination: Seq<char>,
    interface: Seq<char>,
    count: nat,
    timeout_secs: nat,
) -> Seq<Seq<char>> {
    seq![
        "-I"@,
        interface,
        "-c"@,
        decimal_spec(count),
        "-W"@,
        decimal_spec(timeout_secs),
        destination,
    ]
}

fn digit_str(d: u64) -> (r: &'static str)
    requires
        d < 10,
    ensures
        r@ == seq![digit_char(d as nat)],
{
    proof {
        reveal_strlit("0");
        reveal_strlit("1");
        reveal_strlit("2");
        reveal_strlit("3");
        reveal_strlit("4");
        reveal_strlit("5");
        reveal_strlit("6");
        reveal_strlit("7");
        reveal_strlit("8");
        reveal_strlit("9");
    }
    let r = if d == 0 { "0" }
    else if d == 1 { "1" }
    else if d == 2 { "2" }
    else if d == 3 { "3" }
    else if d == 4 { "4" }
    else if d == 5 { "5" }
    else if d == 6 { "6" }
    else if d == 7 { "7" }
    else if d == 8 { "8" }
    else { "9" };
    assert(r@ =~= seq![digit_char(d as nat)]);
    r
}

/// `n` written in decimal.
pub fn decimal(n: u64) -> (r: String)
    ensures
        r@ == decimal_spec(n as nat),
    decreases n,
{
    if n < 10 {
        String::from_str(digit_str(n))
    } else {
        let mut s = decimal(n / 10);
        s.append(digit_str(n % 10));
        s
    }
}

/// The arguments handed to the probe process (`ping`).
pub fn ping_arguments(destination: &str, interface: &str, count: u32, timeout_secs: u64) -> (r: Vec<String>)
    ensures
        r@.map_values(|a: String| a@) == ping_arguments_spec(destination@, interface@, count as nat, timeout_secs as nat),
{
    let mut r: Vec<String> = Vec::new();
    r.push(String::from_str("-I"));
    r.push(String::from_str(interface));
    r.push(String::from_str("-c"));
    r.push(decimal(count as u64));
    r.push(String::from_str("-W"));
    r.push(decimal(timeout_secs));
    r.push(String::from_str(destination));
    assert(r@.map_values(|a: String| a@) =~= ping_arguments_spec(destination@, interface@, count as nat, timeout_secs as nat));
    r
}

/// Where and how the WANs are probed.
pub struct ProbeConfig {
    /// The host that the probes are sent to.
    pub destination: String,
    /// How many echo requests one probe sends.
    pub count: u32,
    /// How long each echo request is waited for, in seconds.
    pub timeout_secs: u64,
}

impl Default for ProbeConfig {
    /// A public resolver's host, two requests, one second each.
    fn default() -> (r: ProbeConfig)
        ensures
            r.destination@ == "one.one.one.one"@,
            r.count == 2,
            r.timeout_secs == 1,
    {
        ProbeConfig { destination: String::from_str("one.one.one.one"), count: 2, timeout_secs: 1 }
    }
}

} // verus!
