//! Choosing the LAN address a share or a transfer is announced on.
//!
//! The addresses themselves are found by asking the operating system (a
//! UDP socket's local address, or the adapter list on Windows); what this
//! module decides is which candidates are kept, how virtual adapters are
//! pushed to the back, and which address comes first.
use vstd::prelude::*;
use crate::text::{digits_value, is_digit, seq_starts_with, starts_with, str_eq, trim, views};

verus! {

/// The loopback address, used when nothing better was found.
pub const LOOPBACK: &'static str = "127.0.0.1";

/// The address Windows gives its own Mobile Hotspot adapter.
pub const WINDOWS_HOTSPOT_IP: &'static str = "192.168.137.1";

// ─── Reading a dotted address ───────────────────────────────────────────────

/// Index of the first `c` in `s`, or the length of `s` when there is none.
pub open spec fn index_of_char(s: Seq<char>, c: char) -> nat
    decreases s.len(),
{
    if s.len() == 0 || s[0] == c {
        0
    } else {
        1 + index_of_char(s.drop_first(), c)
    }
}

/// The second `'.'`-separated field of `ip` (`ip.split('.').nth(1)`).
pub open spec fn second_field(ip: Seq<char>) -> Option<Seq<char>> {
    let i = index_of_char(ip, '.');
    if i >= ip.len() {
        None
    } else {
        let rest = ip.skip((i + 1) as int);
        Some(rest.take(index_of_char(rest, '.') as int))
    }
}

/// `s` without one leading `+`, if it has one.
pub open spec fn unsigned_digits(s: Seq<char>) -> Seq<char> {
    if s.len() > 0 && s[0] == '+' {
        s.skip(1)
    } else {
        s
    }
}

/// Every character of `d` is an ASCII digit.
pub open spec fn all_digits(d: Seq<char>) -> bool {
    forall|i: int| 0 <= i < d.len() ==> #[trigger] is_digit(d[i])
}

/// What `u8::from_str` makes of `s`: an optional `+`, then one or more
/// ASCII digits whose value is at most 255.
pub open spec fn parse_u8_spec(s: Seq<char>) -> Option<nat> {
    let d = unsigned_digits(s);
    if d.len() == 0 || !all_digits(d) || digits_value(d) > 255 {
        None
    } else {
        Some(digits_value(d))
    }
}

/// An address of a virtual adapter: VirtualBox's host-only network
/// `192.168.56.x`, or the private block `172.16.x.x`–`172.31.x.x` that WSL2
/// and Hyper-V use.
pub open spec fn is_virtual(ip: Seq<char>) -> bool {
    ||| seq_starts_with(ip, "192.168.56."@)
    ||| (seq_starts_with(ip, "172."@) && match second_field(ip) {
        Some(f) => match parse_u8_spec(f) {
            Some(v) => 16 <= v <= 31,
            None => false,
        },
        None => false,
    })
}

proof fn lemma_index_of_char(s: Seq<char>, c: char, i: int)
    requires
        0 <= i <= s.len(),
        forall|j: int| 0 <= j < i ==> s[j] != c,
        i == s.len() || s[i] == c,
    ensures
        index_of_char(s, c) == i,
    decreases i,
{
    if i > 0 {
        let t = s.drop_first();
        assert forall|j: int| 0 <= j < i - 1 implies t[j] != c by {
            assert(t[j] == s[j + 1]);
        }
        if i - 1 < t.len() {
            assert(t[i - 1] == s[i]);
        }
        lemma_index_of_char(t, c, i - 1);
    }
}

/// Index of the first `c` in `s` at or after `from`.
fn find_char(s: &str, from: usize, c: char) -> (r: usize)
    requires
        from <= s@.len(),
    ensures
        from <= r <= s@.len(),
        r - from == index_of_char(s@.skip(from as int), c),
{
    let n = s.unicode_len();
    let mut i: usize = from;
    while i < n && s.get_char(i) != c
        invariant
            n == s@.len(),
            from <= i <= n,
            forall|j: int| from <= j < i ==> s@[j] != c,
        decreases n - i,
    {
        i = i + 1;
    }
    proof {
        let t = s@.skip(from as int);
        assert forall|j: int| 0 <= j < i - from implies t[j] != c by {
            assert(t[j] == s@[from + j]);
        }
        if i < n {
            assert(t[i - from] == s@[i as int]);
        }
        lemma_index_of_char(t, c, i - from);
    }
    i
}

/// The second `'.'`-separated field of an address, if it has a dot.
pub fn second_field_of(ip: &str) -> (r: Option<&str>)
    ensures
        match second_field(ip@) {
            Some(f) => r matches Some(t) && t@ == f,
            None => r is None,
        },
{
    let n = ip.unicode_len();
    let i = find_char(ip, 0, '.');
    assert(ip@.skip(0) =~= ip@);
    if i >= n {
        return None;
    }
    let j = find_char(ip, i + 1, '.');
    let f = ip.substring_char(i + 1, j);
    proof {
        let rest = ip@.skip((i + 1) as int);
        assert(f@ =~= rest.take(index_of_char(rest, '.') as int));
    }
    Some(f)
}

/// Parses a decimal `u8` as `u8::from_str` does.
pub fn parse_u8_text(s: &str) -> (r: Option<u8>)
    ensures
        match parse_u8_spec(s@) {
            Some(v) => r == Some(v as u8),
            None => r is None,
        },
{
    let n = s.unicode_len();
    let start: usize = if n > 0 && s.get_char(0) == '+' {
        1
    } else {
        0
    };
    let ghost d = unsigned_digits(s@);
    assert(d =~= s@.skip(start as int));
    if start >= n {
        return None;
    }
    let mut acc: u32 = 0;
    let mut big = false;
    let mut i: usize = start;
    while i < n
        invariant
            n == s@.len(),
            start <= i <= n,
            d == s@.skip(start as int),
            d == unsigned_digits(s@),
            forall|j: int| 0 <= j < i - start ==> #[trigger] is_digit(d[j]),
            !big ==> acc == digits_value(d.take(i - start)) && acc <= 255,
            big ==> digits_value(d.take(i - start)) > 255,
        decreases n - i,
    {
        let c = s.get_char(i);
        assert(d[i - start] == c);
        if !('0' <= c && c <= '9') {
            assert(!is_digit(d[i - start]));
            return None;
        }
        let k = i - start;
        assert(d.take(k + 1).drop_last() =~= d.take(k as int));
        assert(d.take(k + 1).last() == c);
        if !big {
            let v: u32 = acc * 10 + (c as u32 - '0' as u32);
            if v > 255 {
                big = true;
            } else {
                acc = v;
            }
        }
        i = i + 1;
    }
    assert(d.take(n - start) =~= d);
    if big {
        None
    } else {
        Some(acc as u8)
    }
}

/// Whether an address belongs to a virtual adapter (VirtualBox, WSL2,
/// Hyper-V).
pub fn is_virtual_ip(ip: &str) -> (r: bool)
    ensures
        r == is_virtual(ip@),
{
    if starts_with(ip, "192.168.56.") {
        return true;
    }
    if !starts_with(ip, "172.") {
        return false;
    }
    match second_field_of(ip) {
        Some(f) => match parse_u8_text(f) {
            Some(v) => 16 <= v && v <= 31,
            None => false,
        },
        None => false,
    }
}

// ─── Collecting candidates ──────────────────────────────────────────────────

/// Whether a candidate found through a local socket is kept: not the
/// loopback address and not already listed.
pub open spec fn socket_candidate_kept(ips: Seq<Seq<char>>, ip: Seq<char>) -> bool {
    ip != LOOPBACK@ && !ips.contains(ip)
}

/// Whether a line of the Windows adapter listing, once trimmed, is kept:
/// not empty, not loopback, not link-local and not already listed.
pub open spec fn adapter_line_kept(ips: Seq<Seq<char>>, line: Seq<char>) -> bool {
    let ip = crate::text::trim_spec(line);
    &&& ip.len() > 0
    &&& ip != LOOPBACK@
    &&& !seq_starts_with(ip, "169.254."@)
    &&& !ips.contains(ip)
}

fn listed(ips: &Vec<String>, ip: &str) -> (r: bool)
    ensures
        r == views(ips@).contains(ip@),
{
    let mut i: usize = 0;
    while i < ips.len()
        invariant
            i <= ips@.len(),
            forall|j: int| 0 <= j < i ==> ips@[j]@ != ip@,
        decreases ips@.len() - i,
    {
        if str_eq(ips[i].as_str(), ip) {
            assert(views(ips@)[i as int] == ip@);
            return true;
        }
        i = i + 1;
    }
    proof {
        if views(ips@).contains(ip@) {
            let k = choose|k: int| 0 <= k < views(ips@).len() && views(ips@)[k] == ip@;
            assert(ips@[k]@ == ip@);
        }
    }
    false
}

/// Adds an address found through a local socket, unless it is loopback or
/// already listed; returns whether it was added.
pub fn add_socket_candidate(ips: &mut Vec<String>, ip: &str) -> (r: bool)
    ensures
        r == socket_candidate_kept(views(old(ips)@), ip@),
        views(final(ips)@) == if r {
            views(old(ips)@).push(ip@)
        } else {
            views(old(ips)@)
        },
{
    let keep = !str_eq(ip, LOOPBACK) && !listed(ips, ip);
    if keep {
        ips.push(String::from_str(ip));
        assert(views(ips@) =~= views(old(ips)@).push(ip@));
    }
    keep
}

/// Adds an address from one line of the Windows adapter listing, trimmed,
/// unless it is empty, loopback, link-local or already listed; returns
/// whether it was added.
pub fn add_adapter_line(ips: &mut Vec<String>, line: &str) -> (r: bool)
    ensures
        r == adapter_line_kept(views(old(ips)@), line@),
        views(final(ips)@) == if r {
            views(old(ips)@).push(crate::text::trim_spec(line@))
        } else {
            views(old(ips)@)
        },
{
    let ip = trim(line);
    let keep = ip.unicode_len() > 0 && !str_eq(ip, LOOPBACK) && !starts_with(ip, "169.254.")
        && !listed(ips, ip);
    if keep {
        ips.push(String::from_str(ip));
        assert(views(ips@) =~= views(old(ips)@).push(ip@));
    }
    keep
}

/// The gateway-like targets probed, in order, when no address was found
/// otherwise: each of `192.168.`, `10.`, `172.` followed by each of `1.1`,
/// `137.1`, `56.1`, on port 80.
pub open spec fn probe_targets() -> Seq<Seq<char>> {
    seq![
        "192.168.1.1:80"@,
        "192.168.137.1:80"@,
        "192.168.56.1:80"@,
        "10.1.1:80"@,
        "10.137.1:80"@,
        "10.56.1:80"@,
        "172.1.1:80"@,
        "172.137.1:80"@,
        "172.56.1:80"@,
    ]
}

/// The fallback probe targets, in the order they are tried.
pub fn fallback_probe_targets() -> (r: Vec<String>)
    ensures
        views(r@) == probe_targets(),
{
    let bases: [&str; 3] = ["192.168.", "10.", "172."];
    let hosts: [&str; 3] = ["1.1", "137.1", "56.1"];
    let mut out: Vec<String> = Vec::new();
    let mut b: usize = 0;
    while b < 3
        invariant
            b <= 3,
            out@.len() == 3 * b,
            bases@ == seq!["192.168.", "10.", "172."],
            hosts@ == seq!["1.1", "137.1", "56.1"],
            forall|k: int|
                0 <= k < out@.len() ==> #[trigger] out@[k]@ == bases@[k / 3]@ + hosts@[k % 3]@
                    + ":80"@,
        decreases 3 - b,
    {
        let mut h: usize = 0;
        while h < 3
            invariant
                b < 3,
                h <= 3,
                out@.len() == 3 * b + h,
                bases@ == seq!["192.168.", "10.", "172."],
                hosts@ == seq!["1.1", "137.1", "56.1"],
                forall|k: int|
                    0 <= k < out@.len() ==> #[trigger] out@[k]@ == bases@[k / 3]@ + hosts@[k
                        % 3]@ + ":80"@,
            decreases 3 - h,
        {
            let mut t = String::from_str(bases[b]);
            t.append(hosts[h]);
            t.append(":80");
            let ghost k = out@.len() as int;
            out.push(t);
            assert(k / 3 == b && k % 3 == h);
            h = h + 1;
        }
        b = b + 1;
    }
    proof {
        reveal_strlit("192.168.");
        reveal_strlit("10.");
        reveal_strlit("172.");
        reveal_strlit("1.1");
        reveal_strlit("137.1");
        reveal_strlit("56.1");
        reveal_strlit(":80");
        reveal_strlit("192.168.1.1:80");
        reveal_strlit("192.168.137.1:80");
        reveal_strlit("192.168.56.1:80");
        reveal_strlit("10.1.1:80");
        reveal_strlit("10.137.1:80");
        reveal_strlit("10.56.1:80");
        reveal_strlit("172.1.1:80");
        reveal_strlit("172.137.1:80");
        reveal_strlit("172.56.1:80");
        assert forall|k: int| 0 <= k < 9 implies #[trigger] views(out@)[k] == probe_targets()[k] by {
            assert(views(out@)[k] == out@[k]@);
        }
    }
    assert(views(out@) =~= probe_targets());
    out
}

// ─── Ordering ───────────────────────────────────────────────────────────────

/// The test that an address is physical.
pub open spec fn physical_pred() -> spec_fn(Seq<char>) -> bool {
    |s: Seq<char>| !is_virtual(s)
}

/// The test that an address is virtual.
pub open spec fn virtual_pred() -> spec_fn(Seq<char>) -> bool {
    |s: Seq<char>| is_virtual(s)
}

/// The addresses that are not virtual, in their order.
pub open spec fn physical_ips(ips: Seq<Seq<char>>) -> Seq<Seq<char>> {
    ips.filter(physical_pred())
}

/// The virtual addresses, in their order.
pub open spec fn virtual_ips(ips: Seq<Seq<char>>) -> Seq<Seq<char>> {
    ips.filter(virtual_pred())
}

/// An address on the Windows Mobile Hotspot network.
pub open spec fn on_windows_hotspot(ip: Seq<char>) -> bool {
    seq_starts_with(ip, "192.168.137."@)
}

/// Index of the first address at or after `start` on the Windows hotspot
/// network.
pub open spec fn first_windows_hotspot(ips: Seq<Seq<char>>, start: int) -> Option<int>
    decreases ips.len() - start,
{
    if start < 0 || start >= ips.len() {
        None
    } else if on_windows_hotspot(ips[start]) {
        Some(start)
    } else {
        first_windows_hotspot(ips, start + 1)
    }
}

/// In hotspot mode the first address on the Windows hotspot network moves
/// to the front; when there is none, Windows still puts its hotspot address
/// first.
pub open spec fn hotspot_first(ips: Seq<Seq<char>>, hotspot_mode: bool, on_windows: bool) -> Seq<
    Seq<char>,
> {
    if !hotspot_mode {
        ips
    } else {
        match first_windows_hotspot(ips, 0) {
            Some(k) => seq![ips[k]] + ips.remove(k),
            None => if on_windows {
                seq![WINDOWS_HOTSPOT_IP@] + ips
            } else {
                ips
            },
        }
    }
}

/// The announced address list: physical adapters first, then virtual
/// ones, each in the order found; in hotspot mode the hotspot address
/// first; loopback alone when nothing is left.
pub open spec fn ordered_ips(ips: Seq<Seq<char>>, hotspot_mode: bool, on_windows: bool) -> Seq<
    Seq<char>,
> {
    let moved = hotspot_first(physical_ips(ips) + virtual_ips(ips), hotspot_mode, on_windows);
    if moved.len() == 0 {
        seq![LOOPBACK@]
    } else {
        moved
    }
}

/// Splits addresses into physical ones followed by virtual ones.
fn physical_then_virtual(ips: Vec<String>) -> (r: Vec<String>)
    ensures
        views(r@) == physical_ips(views(ips@)) + virtual_ips(views(ips@)),
{
    let ghost vs = views(ips@);
    let mut clean: Vec<String> = Vec::new();
    let mut virt: Vec<String> = Vec::new();
    let mut i: usize = 0;
    while i < ips.len()
        invariant
            i <= ips@.len(),
            vs == views(ips@),
            views(clean@) == physical_ips(vs.take(i as int)),
            views(virt@) == virtual_ips(vs.take(i as int)),
        decreases ips@.len() - i,
    {
        let ip = ips[i].clone();
        let v = is_virtual_ip(ip.as_str());
        proof {
            reveal(Seq::filter);
            assert(vs.take(i + 1).drop_last() =~= vs.take(i as int));
            assert(vs.take(i + 1).last() == ips@[i as int]@);
        }
        if v {
            virt.push(ip);
        } else {
            clean.push(ip);
        }
        proof {
            assert(views(clean@) =~= physical_ips(vs.take(i + 1)));
            assert(views(virt@) =~= virtual_ips(vs.take(i + 1)));
        }
        i = i + 1;
    }
    assert(vs.take(ips@.len() as int) =~= vs);
    clean.append(&mut virt);
    assert(views(clean@) =~= physical_ips(vs) + virtual_ips(vs));
    clean
}

/// Moves the first address on the Windows hotspot network to the front,
/// or puts the Windows hotspot address first when there is none and the
/// computer runs Windows.
fn put_hotspot_first(ips: Vec<String>, hotspot_mode: bool, on_windows: bool) -> (r: Vec<String>)
    ensures
        views(r@) == hotspot_first(views(ips@), hotspot_mode, on_windows),
{
    if !hotspot_mode {
        return ips;
    }
    let ghost vs = views(ips@);
    let mut ips = ips;
    let mut i: usize = 0;
    while i < ips.len() && !starts_with(ips[i].as_str(), "192.168.137.")
        invariant
            i <= ips@.len(),
            vs == views(ips@),
            first_windows_hotspot(vs, 0) == first_windows_hotspot(vs, i as int),
        decreases ips@.len() - i,
    {
        assert(vs[i as int] == ips@[i as int]@);
        i = i + 1;
    }
    if i < ips.len() {
        assert(vs[i as int] == ips@[i as int]@);
        assert(first_windows_hotspot(vs, i as int) == Some(i as int));
        let ip = ips.remove(i);
        assert(views(ips@) =~= vs.remove(i as int));
        let mut out: Vec<String> = Vec::new();
        out.push(ip);
        out.append(&mut ips);
        assert(views(out@) =~= seq![vs[i as int]] + vs.remove(i as int));
        out
    } else if on_windows {
        let mut out: Vec<String> = Vec::new();
        out.push(String::from_str(WINDOWS_HOTSPOT_IP));
        out.append(&mut ips);
        assert(views(out@) =~= seq![WINDOWS_HOTSPOT_IP@] + vs);
        out
    } else {
        ips
    }
}

/// Orders the addresses found on this computer for announcing: physical
/// adapters first and virtual ones (VirtualBox, WSL2, Hyper-V) after them,
/// each group in the order found; in hotspot mode the Windows hotspot
/// address first; loopback when nothing was found.
pub fn order_local_ips(ips: Vec<String>, hotspot_mode: bool, on_windows: bool) -> (r: Vec<String>)
    ensures
        views(r@) == ordered_ips(views(ips@), hotspot_mode, on_windows),
{
    let split = physical_then_virtual(ips);
    let mut moved = put_hotspot_first(split, hotspot_mode, on_windows);
    if moved.len() == 0 {
        moved.push(String::from_str(LOOPBACK));
        assert(views(moved@) =~= seq![LOOPBACK@]);
    }
    moved
}

/// Ordering never loses or invents an address: every address found is
/// announced, and every announced address was found, except the loopback
/// fallback and the Windows hotspot address.
pub proof fn lemma_ordering_keeps_addresses(ips: Seq<Seq<char>>, hotspot_mode: bool, on_windows: bool)
    ensures
        forall|a: Seq<char>| ips.contains(a) ==> ordered_ips(ips, hotspot_mode, on_windows).contains(a),
        forall|a: Seq<char>|
            ordered_ips(ips, hotspot_mode, on_windows).contains(a) ==> ips.contains(a) || a
                == LOOPBACK@ || a == WINDOWS_HOTSPOT_IP@,
        ips.len() > 0 ==> ordered_ips(ips, hotspot_mode, on_windows).len() >= ips.len(),
{
    let p = physical_pred();
    let q = virtual_pred();
    let base = physical_ips(ips) + virtual_ips(ips);
    lemma_filter_split(ips);
    assert forall|a: Seq<char>| ips.contains(a) implies base.contains(a) by {
        let k = choose|k: int| 0 <= k < ips.len() && ips[k] == a;
        if is_virtual(a) {
            ips.lemma_filter_contains(q, k);
            let j = choose|j: int| 0 <= j < virtual_ips(ips).len() && virtual_ips(ips)[j] == a;
            assert(base[physical_ips(ips).len() + j] == a);
        } else {
            ips.lemma_filter_contains(p, k);
            let j = choose|j: int| 0 <= j < physical_ips(ips).len() && physical_ips(ips)[j] == a;
            assert(base[j] == a);
        }
    }
    assert forall|a: Seq<char>| base.contains(a) implies ips.contains(a) by {
        let j = choose|j: int| 0 <= j < base.len() && base[j] == a;
        if j < physical_ips(ips).len() {
            assert(physical_ips(ips)[j] == a);
            ips.lemma_filter_contains_rev(p, a);
        } else {
            assert(virtual_ips(ips)[j - physical_ips(ips).len()] == a);
            ips.lemma_filter_contains_rev(q, a);
        }
    }
    let moved = hotspot_first(base, hotspot_mode, on_windows);
    if hotspot_mode {
        match first_windows_hotspot(base, 0) {
            Some(k) => {
                lemma_first_windows_hotspot_range(base, 0);
                assert forall|a: Seq<char>| base.contains(a) implies moved.contains(a) by {
                    let j = choose|j: int| 0 <= j < base.len() && base[j] == a;
                    if j == k {
                        assert(moved[0] == a);
                    } else if j < k {
                        assert(moved[j + 1] == a);
                    } else {
                        assert(moved[j] == a);
                    }
                }
                assert forall|a: Seq<char>| moved.contains(a) implies base.contains(a) by {
                    let j = choose|j: int| 0 <= j < moved.len() && moved[j] == a;
                    if j == 0 {
                        assert(base[k] == a);
                    } else if j - 1 < k {
                        assert(base[j - 1] == a);
                    } else {
                        assert(base[j] == a);
                    }
                }
            },
            None => {
                if on_windows {
                    assert forall|a: Seq<char>| base.contains(a) implies moved.contains(a) by {
                        let j = choose|j: int| 0 <= j < base.len() && base[j] == a;
                        assert(moved[j + 1] == a);
                    }
                    assert forall|a: Seq<char>| moved.contains(a) implies base.contains(a) || a
                        == WINDOWS_HOTSPOT_IP@ by {
                        let j = choose|j: int| 0 <= j < moved.len() && moved[j] == a;
                        if j > 0 {
                            assert(base[j - 1] == a);
                        }
                    }
                }
            },
        }
    }
    if moved.len() == 0 {
        assert(base.len() == 0);
        assert(ips.len() == 0) by {
            if ips.len() > 0 {
                assert(ips.contains(ips[0]));
            }
        }
    }
}

/// The found addresses split into physical and virtual ones, as many as there
/// were.
proof fn lemma_filter_split(ips: Seq<Seq<char>>)
    ensures
        physical_ips(ips).len() + virtual_ips(ips).len() == ips.len(),
    decreases ips.len(),
{
    reveal(Seq::filter);
    if ips.len() > 0 {
        lemma_filter_split(ips.drop_last());
    }
}

proof fn lemma_first_windows_hotspot_range(ips: Seq<Seq<char>>, start: int)
    requires
        0 <= start,
    ensures
        first_windows_hotspot(ips, start) matches Some(k) ==> start <= k < ips.len()
            && on_windows_hotspot(ips[k]),
    decreases ips.len() - start,
{
    if start < ips.len() && !on_windows_hotspot(ips[start]) {
        lemma_first_windows_hotspot_range(ips, start + 1);
    }
}

} // verus!
