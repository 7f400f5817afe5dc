//! File-size limits: the effective cap from the server's and the client's
//! settings, and the rejection message quoted in kilobytes.

use vstd::prelude::*;

use crate::config::ServerConfig;
use crate::proto::ClientConfig;
use crate::strutil::{spec_digit_char, spec_u64_dec, u64_to_string};

verus! {

/// The server-side cap, when enabled.
pub open spec fn spec_server_cap(cfg: ServerConfig) -> Option<u64> {
    if cfg.enable_server_side_file_size_limit {
        Some(cfg.max_server_side_file_size)
    } else {
        None
    }
}

/// The client-side cap: present only when the client enabled its limit and
/// supplied a maximum.
pub open spec fn spec_client_cap(client: ClientConfig) -> Option<u64> {
    if client.enableFileSizeLimit == Some(true) {
        client.maxFileSize
    } else {
        None
    }
}

/// The minimum of the present caps; no cap when both are absent.
pub open spec fn spec_effective_cap(server: Option<u64>, client: Option<u64>) -> Option<u64> {
    match (server, client) {
        (None, None) => None,
        (Some(s), None) => Some(s),
        (None, Some(c)) => Some(c),
        (Some(s), Some(c)) => Some(if s <= c {
            s
        } else {
            c
        }),
    }
}

/// A size passes when there is no effective cap or it does not exceed it.
pub open spec fn spec_size_accepted(size: u64, server: Option<u64>, client: Option<u64>) -> bool {
    match spec_effective_cap(server, client) {
        None => true,
        Some(cap) => size <= cap,
    }
}

/// Round-half-even division, the rounding used for the displayed sizes.
pub open spec fn spec_round_half_even(num: int, den: int) -> int {
    let q = num / den;
    let r = num % den;
    if 2 * r < den {
        q
    } else if 2 * r > den {
        q + 1
    } else if q % 2 == 0 {
        q
    } else {
        q + 1
    }
}

/// A byte count in kilobytes with one decimal digit, e.g. `4.9KB`.
pub open spec fn spec_kb(bytes: int) -> Seq<char> {
    let t = spec_round_half_even(bytes * 10, 1024);
    spec_u64_dec(t / 10) + seq!['.', spec_digit_char(t % 10)] + "KB"@
}

/// Format a byte count in kilobytes with one decimal digit.
pub fn kb(bytes: u64) -> (r: String)
    ensures
        r@ == spec_kb(bytes as int),
{
    let num: u128 = (bytes as u128) * 10;
    let q: u128 = num / 1024;
    let rem: u128 = num % 1024;
    let t: u128 = if 2 * rem < 1024 {
        q
    } else if 2 * rem > 1024 {
        q + 1
    } else if q % 2 == 0 {
        q
    } else {
        q + 1
    };
    assert(t as int == spec_round_half_even(bytes as int * 10, 1024));
    assert(t <= u64::MAX as u128);
    let t64: u64 = t as u64;
    let mut out = u64_to_string(t64 / 10);
    out.append(".");
    let frac = crate::strutil::u64_to_string(t64 % 10);
    out.append(frac.as_str());
    out.append("KB");
    proof {
        reveal_strlit(".");
        assert(spec_u64_dec((t64 % 10) as int) =~= seq![spec_digit_char(t as int % 10)]);
        assert(out@ =~= spec_kb(bytes as int));
    }
    out
}

/// The rejection line for an oversized file, naming whichever caps took
/// part in the decision.
pub open spec fn spec_size_reject_message(size: u64, server: Option<u64>, client: Option<
    u64,
>) -> Seq<char> {
    match (server, client) {
        (Some(s), Some(c)) => "文件过大 ("@ + spec_kb(size as int) + ")，已跳过（服务端限制："@
            + spec_kb(s as int) + "，客户端限制："@ + spec_kb(c as int) + "，生效："@ + spec_kb(
            spec_effective_cap(server, client)->0 as int,
        ) + "）"@,
        (Some(s), None) => "文件过大 ("@ + spec_kb(size as int) + ")，已跳过（服务端限制："@
            + spec_kb(s as int) + "）"@,
        (None, Some(c)) => "文件过大 ("@ + spec_kb(size as int) + ")，已跳过（客户端限制："@
            + spec_kb(c as int) + "）"@,
        (None, None) => Seq::empty(),
    }
}

/// Check `size` against the caps: `None` when accepted, otherwise the
/// rejection message.
pub fn validate_file_size(size: u64, client: &ClientConfig, cfg: &ServerConfig) -> (r: Option<
    String,
>)
    ensures
        r is None <==> spec_size_accepted(size, spec_server_cap(*cfg), spec_client_cap(*client)),
        r is Some ==> r->0@ == spec_size_reject_message(
            size,
            spec_server_cap(*cfg),
            spec_client_cap(*client),
        ),
{
    let server_limit: Option<u64> = if cfg.enable_server_side_file_size_limit {
        Some(cfg.max_server_side_file_size)
    } else {
        None
    };
    let client_limit: Option<u64> = match client.enableFileSizeLimit {
        Some(true) => client.maxFileSize,
        _ => None,
    };
    let effective: Option<u64> = match (server_limit, client_limit) {
        (None, None) => None,
        (Some(s), None) => Some(s),
        (None, Some(c)) => Some(c),
        (Some(s), Some(c)) => Some(if s <= c {
            s
        } else {
            c
        }),
    };
    let cap = match effective {
        None => {
            return None;
        },
        Some(cap) => cap,
    };
    if size <= cap {
        return None;
    }
    let mut msg: String = ("文件过大 (").to_owned();
    let size_kb = kb(size);
    msg.append(size_kb.as_str());
    match (server_limit, client_limit) {
        (Some(s), Some(c)) => {
            msg.append(")，已跳过（服务端限制：");
            let s_kb = kb(s);
            msg.append(s_kb.as_str());
            msg.append("，客户端限制：");
            let c_kb = kb(c);
            msg.append(c_kb.as_str());
            msg.append("，生效：");
            let e_kb = kb(cap);
            msg.append(e_kb.as_str());
            msg.append("）");
        },
        (Some(s), None) => {
            msg.append(")，已跳过（服务端限制：");
            let s_kb = kb(s);
            msg.append(s_kb.as_str());
            msg.append("）");
        },
        (None, Some(c)) => {
            msg.append(")，已跳过（客户端限制：");
            let c_kb = kb(c);
            msg.append(c_kb.as_str());
            msg.append("）");
        },
        (None, None) => {
            assert(false);
        },
    }
    proof {
        assert(msg@ =~= spec_size_reject_message(
            size,
            spec_server_cap(*cfg),
            spec_client_cap(*client),
        ));
    }
    Some(msg)
}

/// The acceptance law: with no caps present every size passes, and with
/// any caps present a size passes exactly when it is within every one of
/// them (that is, within the smallest).
pub proof fn law_size_limit_acceptance(size: u64, client: ClientConfig, cfg: ServerConfig)
    ensures
        spec_server_cap(cfg) is None && spec_client_cap(client) is None ==> spec_size_accepted(
            size,
            spec_server_cap(cfg),
            spec_client_cap(client),
        ),
        spec_size_accepted(size, spec_server_cap(cfg), spec_client_cap(client)) <==> ((
        spec_server_cap(cfg) is Some ==> size <= spec_server_cap(cfg)->0) && (spec_client_cap(
            client,
        ) is Some ==> size <= spec_client_cap(client)->0)),
{
}

} // verus!
