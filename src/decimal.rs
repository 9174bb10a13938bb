//! Lines of ASCII decimal numbers, the text form of the clock save file.

use vstd::prelude::*;

verus! {

pub open spec fn is_digit_byte(c: u8) -> bool {
    0x30 <= c <= 0x39
}

/// The decimal digits of `n`, most significant first, without leading zeros.
pub open spec fn decimal(n: nat) -> Seq<u8>
    decreases n,
{
    if n < 10 {
        seq![(n + 0x30) as u8]
    } else {
        decimal(n / 10).push((n % 10 + 0x30) as u8)
    }
}

/// `ns` written one number per line, each line ended by a newline.
pub open spec fn decimal_lines(ns: Seq<nat>) -> Seq<u8>
    decreases ns.len(),
{
    if ns.len() == 0 {
        Seq::empty()
    } else {
        decimal_lines(ns.drop_last()) + decimal(ns.last()).push(0x0a)
    }
}

/// The state of a left-to-right scan: the numbers of the finished lines, the
/// value of the digits of the current line, and whether it has any.
pub type ScanState = (Seq<nat>, nat, bool);

/// Scans `s`: digits accumulate, a newline after at least one digit ends a
/// number; any other byte, an empty line, or a number of 2^64 or more fails.
pub open spec fn scan(s: Seq<u8>) -> Option<ScanState>
    decreases s.len(),
{
    if s.len() == 0 {
        Some((Seq::empty(), 0, false))
    } else {
        match scan(s.drop_last()) {
            None => None,
            Some(st) => scan_step(st, s.last()),
        }
    }
}

pub open spec fn scan_step(st: ScanState, c: u8) -> Option<ScanState> {
    if is_digit_byte(c) {
        let v = st.1 * 10 + (c - 0x30);
        if v < 0x1_0000_0000_0000_0000 {
            Some((st.0, v as nat, true))
        } else {
            None
        }
    } else if c == 0x0a && st.2 {
        Some((st.0.push(st.1), 0, false))
    } else {
        None
    }
}

/// The numbers of `s`, one per line; the last line may lack its newline.
pub open spec fn parse_lines(s: Seq<u8>) -> Option<Seq<nat>> {
    match scan(s) {
        None => None,
        Some(st) => if st.2 {
            Some(st.0.push(st.1))
        } else {
            Some(st.0)
        },
    }
}

pub proof fn lemma_scan_push(s: Seq<u8>, c: u8)
    ensures
        scan(s.push(c)) == match scan(s) {
            None => None,
            Some(st) => scan_step(st, c),
        },
{
    assert(s.push(c).drop_last() =~= s);
}

/// Once a scan fails, no more input revives it.
pub proof fn lemma_scan_fails_on(s: Seq<u8>, t: Seq<u8>)
    requires
        scan(s) is None,
    ensures
        scan(s + t) is None,
    decreases t.len(),
{
    if t.len() > 0 {
        lemma_scan_fails_on(s, t.drop_last());
        assert(s + t =~= (s + t.drop_last()).push(t.last()));
        lemma_scan_push(s + t.drop_last(), t.last());
    }
}

/// Scanning the digits of `n` after a line break adds up to `n`.
pub proof fn lemma_scan_decimal(p: Seq<u8>, fs: Seq<nat>, n: nat)
    requires
        scan(p) == Some::<ScanState>((fs, 0, false)),
        n < 0x1_0000_0000_0000_0000,
    ensures
        scan(p + decimal(n)) == Some::<ScanState>((fs, n, true)),
    decreases n,
{
    if n < 10 {
        assert(p + decimal(n) =~= p.push((n + 0x30) as u8));
        lemma_scan_push(p, (n + 0x30) as u8);
    } else {
        lemma_scan_decimal(p, fs, n / 10);
        assert(p + decimal(n) =~= (p + decimal(n / 10)).push((n % 10 + 0x30) as u8));
        lemma_scan_push(p + decimal(n / 10), (n % 10 + 0x30) as u8);
        assert((n / 10) * 10 + n % 10 == n) by (nonlinear_arith);
    }
}

/// Writing numbers below 2^64 as lines and scanning them gives them back.
pub proof fn lemma_lines_round_trip(ns: Seq<nat>)
    requires
        forall|i: int| 0 <= i < ns.len() ==> #[trigger] ns[i] < 0x1_0000_0000_0000_0000,
    ensures
        scan(decimal_lines(ns)) == Some::<ScanState>((ns, 0, false)),
        parse_lines(decimal_lines(ns)) == Some(ns),
    decreases ns.len(),
{
    if ns.len() == 0 {
    } else {
        let init = ns.drop_last();
        lemma_lines_round_trip(init);
        let p = decimal_lines(init);
        lemma_scan_decimal(p, init, ns.last());
        assert(decimal_lines(ns) =~= (p + decimal(ns.last())).push(0x0a));
        lemma_scan_push(p + decimal(ns.last()), 0x0a);
        assert(init.push(ns.last()) =~= ns);
    }
}

/// Appends the digits of `n` to `out`.
pub fn push_decimal(out: &mut Vec<u8>, n: u64)
    ensures
        final(out)@ == old(out)@ + decimal(n as nat),
    decreases n,
{
    if n < 10 {
        out.push((n + 0x30) as u8);
        assert(final(out)@ =~= old(out)@ + decimal(n as nat));
    } else {
        push_decimal(out, n / 10);
        out.push((n % 10 + 0x30) as u8);
        assert(final(out)@ =~= old(out)@ + decimal(n as nat));
    }
}

/// Writes `ns` one number per line.
pub fn encode_lines(ns: &Vec<u64>) -> (r: Vec<u8>)
    ensures
        r@ == decimal_lines(ns@.map_values(|v: u64| v as nat)),
{
    let mut out: Vec<u8> = Vec::new();
    let mut i: usize = 0;
    while i < ns.len()
        invariant
            i <= ns@.len(),
            out@ == decimal_lines(ns@.subrange(0, i as int).map_values(|v: u64| v as nat)),
        decreases ns@.len() - i,
    {
        let ghost before = out@;
        push_decimal(&mut out, ns[i]);
        out.push(0x0a);
        let ghost prefix = ns@.subrange(0, i as int).map_values(|v: u64| v as nat);
        let ghost next = ns@.subrange(0, i + 1).map_values(|v: u64| v as nat);
        assert(next.drop_last() =~= prefix);
        i = i + 1;
    }
    assert(ns@.subrange(0, ns@.len() as int) =~= ns@);
    out
}

/// Reads numbers written one per line.
pub fn decode_lines(data: &[u8]) -> (r: Option<Vec<u64>>)
    ensures
        match r {
            None => parse_lines(data@) is None,
            Some(v) => parse_lines(data@) == Some(v@.map_values(|x: u64| x as nat)),
        },
{
    let mut fields: Vec<u64> = Vec::new();
    let mut acc: u64 = 0;
    let mut any = false;
    let mut i: usize = 0;
    while i < data.len()
        invariant
            i <= data@.len(),
            scan(data@.subrange(0, i as int)) == Some::<ScanState>(
                (fields@.map_values(|x: u64| x as nat), acc as nat, any),
            ),
        decreases data@.len() - i,
    {
        let c = data[i];
        proof {
            lemma_scan_push(data@.subrange(0, i as int), c);
            assert(data@.subrange(0, i + 1) =~= data@.subrange(0, i as int).push(c));
        }
        if 0x30 <= c && c <= 0x39 {
            if acc > u64::MAX / 10 || (acc == u64::MAX / 10 && c - 0x30 > 5) {
                proof {
                    lemma_scan_fails_on(data@.subrange(0, i + 1), data@.subrange(i + 1, data@.len() as int));
                    assert(data@.subrange(0, i + 1) + data@.subrange(i + 1, data@.len() as int) =~= data@);
                }
                return None;
            }
            assert(acc * 10 + (c - 0x30) < 0x1_0000_0000_0000_0000) by (nonlinear_arith)
                requires
                    acc <= u64::MAX / 10,
                    acc == u64::MAX / 10 ==> c - 0x30 <= 5,
                    c - 0x30 <= 9,
            ;
            acc = acc * 10 + (c - 0x30) as u64;
            any = true;
        } else if c == 0x0a && any {
            let ghost before = fields@;
            fields.push(acc);
            assert(fields@.map_values(|x: u64| x as nat) =~= before.map_values(|x: u64| x as nat).push(
                acc as nat,
            ));
            acc = 0;
            any = false;
        } else {
            proof {
                lemma_scan_fails_on(data@.subrange(0, i + 1), data@.subrange(i + 1, data@.len() as int));
                assert(data@.subrange(0, i + 1) + data@.subrange(i + 1, data@.len() as int) =~= data@);
            }
            return None;
        }
        i = i + 1;
    }
    assert(data@.subrange(0, data@.len() as int) =~= data@);
    if any {
        let ghost before = fields@;
        fields.push(acc);
        assert(fields@.map_values(|x: u64| x as nat) =~= before.map_values(|x: u64| x as nat).push(
            acc as nat,
        ));
    }
    Some(fields)
}

} // verus!
