//! A text bar that shows how far a consumer has read into a partition, in
//! whole blocks and an eighth-block for the remainder.
use vstd::string::StringExecFns;
use vstd::prelude::*;

verus! {

/// `n` copies of `c`.
pub open spec fn repeat(c: char, n: nat) -> Seq<char> {
    Seq::new(n, |i: int| c)
}

/// The partial block for a remainder `rem` out of `max`: empty for none,
/// else the smallest eighth that is at least the fraction.
pub open spec fn last_block(rem: int, max: int) -> char {
    if rem == 0 {
        '░'
    } else if 8 * rem <= max {
        '▏'
    } else if 8 * rem <= 2 * max {
        '▎'
    } else if 8 * rem <= 3 * max {
        '▍'
    } else if 8 * rem <= 4 * max {
        '▌'
    } else if 8 * rem <= 5 * max {
        '▋'
    } else if 8 * rem <= 6 * max {
        '▊'
    } else if 8 * rem <= 7 * max {
        '▉'
    } else {
        '█'
    }
}

/// The bar for `offset` out of `max_offset`, `width` blocks wide. A
/// negative offset counts as 0 and a maximum below 1 as 1.
pub open spec fn bar(offset: int, max_offset: int, width: int) -> Seq<char> {
    let o = if offset < 0 { 0 } else { offset };
    let m = if max_offset < 1 { 1 } else { max_offset };
    let whole = (o * width) / m;
    let partial = whole != 0 && whole != width;
    let empty = width - whole - if partial { 1int } else { 0 };
    seq!['['] + repeat('█', whole as nat) + (if partial {
        seq![last_block((o * width) % m, m)]
    } else {
        seq![]
    }) + repeat('░', empty as nat) + seq![']']
}

fn block_str(rem: i128, max: i128) -> (r: &'static str)
    requires
        0 <= rem < max <= i64::MAX,
    ensures
        r@ == seq![last_block(rem as int, max as int)],
{
    proof {
        reveal_strlit("░");
        reveal_strlit("▏");
        reveal_strlit("▎");
        reveal_strlit("▍");
        reveal_strlit("▌");
        reveal_strlit("▋");
        reveal_strlit("▊");
        reveal_strlit("▉");
        reveal_strlit("█");
    }
    if rem == 0 {
        "░"
    } else if 8 * rem <= max {
        "▏"
    } else if 8 * rem <= 2 * max {
        "▎"
    } else if 8 * rem <= 3 * max {
        "▍"
    } else if 8 * rem <= 4 * max {
        "▌"
    } else if 8 * rem <= 5 * max {
        "▋"
    } else if 8 * rem <= 6 * max {
        "▊"
    } else if 8 * rem <= 7 * max {
        "▉"
    } else {
        "█"
    }
}

fn push_repeat(s: &mut String, block: &str, n: i64)
    requires
        block@.len() == 1,
        n >= 0,
    ensures
        final(s)@ == old(s)@ + repeat(block@[0], n as nat),
{
    let mut i: i64 = 0;
    while i < n
        invariant
            0 <= i <= n,
            block@.len() == 1,
            s@ == old(s)@ + repeat(block@[0], i as nat),
        decreases n - i,
    {
        s.append(block);
        assert(old(s)@ + repeat(block@[0], i as nat) + block@ =~= old(s)@ + repeat(
            block@[0],
            (i + 1) as nat,
        ));
        i = i + 1;
    }
}

/// The bar for `offset` out of `max_offset`, `width` blocks wide. The
/// offset may not pass the maximum, and the width may not be negative.
pub fn new(offset: i64, max_offset: i64, width: i64) -> (r: String)
    requires
        0 <= width,
        offset <= (if max_offset < 1 { 1 } else { max_offset }),
    ensures
        r@ == bar(offset as int, max_offset as int, width as int),
{
    let o: i128 = if offset < 0 { 0 } else { offset as i128 };
    let m: i128 = if max_offset < 1 { 1 } else { max_offset as i128 };
    let w: i128 = width as i128;
    assert(0 <= o * w <= m * w) by (nonlinear_arith)
        requires
            0 <= o <= m,
            0 <= w,
    ;
    assert(m * w <= i64::MAX as int * i64::MAX as int) by (nonlinear_arith)
        requires
            1 <= m <= i64::MAX,
            0 <= w <= i64::MAX,
    ;
    let scaled = o * w;
    let whole128 = scaled / m;
    assert(whole128 <= w) by (nonlinear_arith)
        requires
            whole128 == scaled / m,
            scaled <= m * w,
            m >= 1,
    ;
    let whole = whole128 as i64;
    let partial = whole != 0 && whole != width;
    let empty = width - whole - if partial { 1 } else { 0 };
    proof {
        reveal_strlit("[");
        reveal_strlit("]");
        reveal_strlit("█");
        reveal_strlit("░");
    }
    let mut r = String::from_str("[");
    push_repeat(&mut r, "█", whole);
    if partial {
        r.append(block_str(scaled % m, m));
    }
    push_repeat(&mut r, "░", empty);
    r.append("]");
    assert(r@ =~= bar(offset as int, max_offset as int, width as int));
    r
}

} // verus!
