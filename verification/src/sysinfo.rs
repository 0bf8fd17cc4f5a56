use crate::text::{decimal, parse_decimal, parse_usize, to_decimal, trim, trims_to};
use vstd::prelude::*;
use vstd::utf8::encode_utf8;

verus! {

/// The system information sent to the clients.
#[derive(Debug, Clone)]
pub struct SysInfo {
    pub uptime: usize,
    pub version: String,
    pub internal_ip: String,
    pub uptime_app: String,
    pub time_zone: String,
}

/// The text that stands for a value that could not be read.
pub open spec fn not_available() -> Seq<char> {
    seq!['N', '/', 'A']
}

/// The text of the internal ip address, from what its file held (`None` where it
/// could not be read): the trimmed contents where their length in bytes, as a
/// `usize`, exceeds one,
/// else "N/A".
pub open spec fn ip_text(contents: Option<Seq<char>>, res: Seq<char>) -> bool {
    let text = match contents {
        Some(c) => c,
        None => not_available(),
    };
    if encode_utf8(text).len() as usize > 1 {
        trims_to(text, res)
    } else {
        res == not_available()
    }
}

/// The part of `s` before its first `.`.
pub open spec fn before_first_dot(s: Seq<char>) -> Seq<char>
    recommends
        s.contains('.'),
{
    let k = choose|k: int| 0 <= k < s.len() && s[k] == '.' && forall|j: int| 0 <= j < k ==> s[j] != '.';
    s.take(k)
}

/// The seconds since boot that `/proc/uptime` holds: the whole part of its first
/// number, or 0 where that does not parse.
pub open spec fn uptime_seconds(contents: Seq<char>) -> usize
    recommends
        contents.contains('.'),
{
    match parse_usize(before_first_dot(contents)) {
        Some(v) => v,
        None => 0,
    }
}

fn not_available_string() -> (res: String)
    ensures
        res@ == not_available(),
{
    proof {
        reveal_strlit("N/A");
    }
    String::from_str("N/A")
}

impl SysInfo {
    /// The internal ip address from the contents of its file (`None` where it could
    /// not be read).
    pub fn get_ip(contents: Option<&str>) -> (res: String)
        ensures
            ip_text(
                match contents {
                    Some(c) => Some(c@),
                    None => None,
                },
                res@,
            ),
    {
        let na = not_available_string();
        let ip: &str = match contents {
            Some(c) => c,
            None => na.as_str(),
        };
        assert(ip@ == match contents {
            Some(c) => c@,
            None => not_available(),
        });
        if ip.len() > 1 {
            trim(ip)
        } else {
            not_available_string()
        }
    }

    /// The seconds since boot from the contents of `/proc/uptime`, whose first number
    /// has a decimal point.
    pub fn get_uptime(contents: &str) -> (res: usize)
        requires
            contents@.contains('.'),
        ensures
            res == uptime_seconds(contents@),
    {
        let len = contents.unicode_len();
        let mut k: usize = 0;
        while contents.get_char(k) != '.'
            invariant
                len == contents@.len(),
                contents@.contains('.'),
                k < len,
                forall|j: int| 0 <= j < k ==> contents@[j] != '.',
            decreases len - k,
        {
            k = k + 1;
            proof {
                if k == len {
                    let w = choose|w: int| 0 <= w < contents@.len() && contents@[w] == '.';
                    assert(contents@[w] != '.');
                }
            }
        }
        let prefix = contents.substring_char(0, k);
        proof {
            let s = contents@;
            let kk = choose|kk: int|
                0 <= kk < s.len() && s[kk] == '.' && forall|j: int| 0 <= j < kk ==> s[j] != '.';
            assert(0 <= k < s.len() && s[k as int] == '.' && forall|j: int| 0 <= j < k ==> s[j] != '.');
            if kk < k {
                assert(s[kk] != '.');
            }
            if k < kk {
                assert(s[k as int] != '.');
            }
            assert(prefix@ == s.take(k as int));
        }
        match parse_decimal(prefix) {
            Some(v) => v,
            None => 0,
        }
    }

    /// The system information, from the time zone's name, the contents of the ip
    /// address file, the seconds since boot, the seconds since the app started
    /// (`None` where the clock went backwards), and the app's version.
    pub fn new(
        time_zone: String,
        internal_ip: String,
        uptime: usize,
        app_uptime_secs: Option<u64>,
        version: String,
    ) -> (res: SysInfo)
        ensures
            res.time_zone@ == time_zone@,
            res.internal_ip@ == internal_ip@,
            res.uptime == uptime,
            res.uptime_app@ == match app_uptime_secs {
                Some(secs) => decimal(secs as nat),
                None => not_available(),
            },
            res.version@ == version@,
    {
        let uptime_app = match app_uptime_secs {
            Some(secs) => to_decimal(secs),
            None => not_available_string(),
        };
        SysInfo { uptime, version, internal_ip, uptime_app, time_zone }
    }
}

} // verus!
