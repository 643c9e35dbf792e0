//! Small text and list helpers for showing state: yes/no, padding, hex and
//! comma-separated numbers, flattening, and paging.
use vstd::prelude::*;
use vstd::string::StringExecFns;
use vstd::string::StringSliceAdditionalSpecFns;
use vstd::utf8::encode_utf8;

verus! {

/// `Yes` or `No`.
pub fn bool_yes_no(b: bool) -> (r: String)
    ensures
        r@ == (if b {
            seq!['Y', 'e', 's']
        } else {
            seq!['N', 'o']
        }),
{
    proof {
        reveal_strlit("Yes");
        reveal_strlit("No");
    }
    if b {
        String::from_str("Yes")
    } else {
        String::from_str("No")
    }
}

/// `n` spaces.
pub open spec fn spaces(n: nat) -> Seq<char> {
    Seq::new(n, |i: int| ' ')
}

/// `input` followed by spaces up to `width` bytes; an input as wide or wider
/// is returned as it is.
pub fn pad_right(input: &String, width: u16) -> (r: String)
    ensures
        r@ == input@ + spaces(
            if encode_utf8(input@).len() < width as int {
                (width as int - encode_utf8(input@).len()) as nat
            } else {
                0
            },
        ),
{
    let text = input.as_str();
    let len = text.as_bytes().len();
    assert(text.spec_bytes() == encode_utf8(text@));
    let pad: usize = if len < width as usize {
        width as usize - len
    } else {
        0
    };
    let mut r = input.clone();
    let mut i: usize = 0;
    let ghost n = encode_utf8(input@).len();
    assert(len == n);
    while i < pad
        invariant
            i <= pad,
            pad == (if n < width as int { (width as int - n) as nat } else { 0 }),
            r@ == input@ + spaces(i as nat),
        decreases pad - i,
    {
        proof {
            reveal_strlit(" ");
        }
        r.append(" ");
        assert(input@ + spaces(i as nat) + " "@ =~= input@ + spaces((i + 1) as nat));
        i = i + 1;
    }
    r
}

/// The upper-case hex digit of `d`.
pub open spec fn hex_digit(d: u8) -> char {
    if d < 10 {
        (('0' as u8) + d) as char
    } else {
        (('A' as u8) + d - 10) as char
    }
}

fn hex_digit_str(d: u8) -> (r: &'static str)
    requires
        d < 16,
    ensures
        r@ == seq![hex_digit(d)],
{
    proof {
        reveal_strlit("0");
        reveal_strlit("1");
        reveal_strlit("2");
        reveal_strlit("3");
        reveal_strlit("4");
        reveal_strlit("5");
        reveal_strlit("6");
        reveal_strlit("7");
        reveal_strlit("8");
        reveal_strlit("9");
        reveal_strlit("A");
        reveal_strlit("B");
        reveal_strlit("C");
        reveal_strlit("D");
        reveal_strlit("E");
        reveal_strlit("F");
    }
    match d {
        0 => "0",
        1 => "1",
        2 => "2",
        3 => "3",
        4 => "4",
        5 => "5",
        6 => "6",
        7 => "7",
        8 => "8",
        9 => "9",
        10 => "A",
        11 => "B",
        12 => "C",
        13 => "D",
        14 => "E",
        _ => "F",
    }
}

/// A byte as `0x` and two upper-case hex digits.
pub open spec fn hex_of(b: u8) -> Seq<char> {
    seq!['0', 'x', hex_digit(b / 16), hex_digit(b % 16)]
}

/// Each byte as `0x` and two upper-case hex digits.
pub fn to_hex_array(bytes: &Vec<u8>) -> (r: Vec<String>)
    ensures
        r@.len() == bytes@.len(),
        forall|i: int| 0 <= i < r@.len() ==> (#[trigger] r@[i])@ == hex_of(bytes@[i]),
{
    let mut out: Vec<String> = Vec::new();
    let mut i: usize = 0;
    while i < bytes.len()
        invariant
            i <= bytes@.len(),
            out@.len() == i,
            forall|k: int| 0 <= k < i ==> (#[trigger] out@[k])@ == hex_of(bytes@[k]),
        decreases bytes@.len() - i,
    {
        let b = bytes[i];
        proof {
            reveal_strlit("0x");
        }
        let mut s = String::from_str("0x");
        s.append(hex_digit_str(b / 16));
        s.append(hex_digit_str(b % 16));
        assert(s@ =~= hex_of(b));
        out.push(s);
        i = i + 1;
    }
    out
}

/// The decimal digits of `n`.
pub open spec fn digits_of(n: nat) -> Seq<char>
    decreases n,
{
    if n < 10 {
        seq![hex_digit(n as u8)]
    } else {
        digits_of(n / 10).push(hex_digit((n % 10) as u8))
    }
}

/// `v` in decimal, with a minus sign if negative.
pub open spec fn decimal(v: int) -> Seq<char> {
    if v < 0 {
        seq!['-'] + digits_of((-v) as nat)
    } else {
        digits_of(v as nat)
    }
}

fn push_digits(s: &mut String, n: u64)
    ensures
        final(s)@ == old(s)@ + digits_of(n as nat),
    decreases n,
{
    if n >= 10 {
        push_digits(s, n / 10);
    }
    let ghost mid = s@;
    s.append(hex_digit_str((n % 10) as u8));
    proof {
        if n >= 10 {
            assert(s@ =~= old(s)@ + digits_of(n as nat));
        } else {
            assert(n % 10 == n);
            assert(s@ =~= old(s)@ + digits_of(n as nat));
        }
    }
}

pub(crate) fn push_decimal(s: &mut String, v: i32)
    ensures
        final(s)@ == old(s)@ + decimal(v as int),
{
    proof {
        reveal_strlit("-");
    }
    if v < 0 {
        s.append("-");
        let n: u64 = (-(v as i64)) as u64;
        push_digits(s, n);
        assert(s@ =~= old(s)@ + decimal(v as int));
    } else {
        push_digits(s, v as u64);
    }
}

/// Numbers in decimal, separated by commas.
pub open spec fn csv(s: Seq<i32>) -> Seq<char>
    decreases s.len(),
{
    if s.len() == 0 {
        seq![]
    } else if s.len() == 1 {
        decimal(s[0] as int)
    } else {
        csv(s.drop_last()) + seq![','] + decimal(s.last() as int)
    }
}

/// A list written as comma-separated values.
pub trait VecToCSV {
    spec fn spec_csv(&self) -> Seq<char>;

    fn as_csv(&self) -> (r: String)
        ensures
            r@ == self.spec_csv(),
    ;
}

impl VecToCSV for Vec<i32> {
    open spec fn spec_csv(&self) -> Seq<char> {
        csv(self@)
    }

    fn as_csv(&self) -> (r: String) {
        let mut out = String::new();
        let mut i: usize = 0;
        while i < self.len()
            invariant
                i <= self@.len(),
                out@ == csv(self@.take(i as int)),
            decreases self@.len() - i,
        {
            let ghost before = out@;
            proof {
                reveal_strlit(",");
            }
            if i > 0 {
                out.append(",");
            }
            push_decimal(&mut out, self[i]);
            proof {
                assert(self@.take(i + 1).drop_last() =~= self@.take(i as int));
                if i == 0 {
                    assert(before =~= seq![]);
                    assert(out@ =~= csv(self@.take(i + 1)));
                } else {
                    assert(out@ =~= csv(self@.take(i + 1)));
                }
            }
            i = i + 1;
        }
        assert(self@.take(self@.len() as int) =~= self@);
        out
    }
}

/// Lists of lists joined into one.
pub trait Flatten<A> {
    spec fn spec_flatten(&self) -> Seq<A>;

    fn flatten(self) -> (r: Vec<A>)
        ensures
            r@ == self.spec_flatten(),
    ;
}

/// The inner lists one after another.
pub open spec fn concat_all<A>(s: Seq<Vec<A>>) -> Seq<A>
    decreases s.len(),
{
    if s.len() == 0 {
        seq![]
    } else {
        concat_all(s.drop_last()) + s.last()@
    }
}

impl<A> Flatten<A> for Vec<Vec<A>> {
    open spec fn spec_flatten(&self) -> Seq<A> {
        concat_all(self@)
    }

    fn flatten(self) -> (r: Vec<A>) {
        let ghost all = self@;
        let mut rest = self;
        let mut out: Vec<A> = Vec::new();
        let ghost mut k: int = 0;
        assert(all.take(0) =~= seq![]);
        assert(all.skip(0) =~= all);
        while rest.len() > 0
            invariant
                0 <= k <= all.len(),
                rest@ == all.skip(k),
                out@ == concat_all(all.take(k)),
            decreases rest@.len(),
        {
            let mut first = rest.remove(0);
            let ghost before = out@;
            out.append(&mut first);
            proof {
                assert(all.take(k + 1).drop_last() =~= all.take(k));
                assert(all.take(k + 1).last() == all[k]);
                assert(all.skip(k).remove(0) =~= all.skip(k + 1));
                k = k + 1;
            }
        }
        assert(all.take(all.len() as int) =~= all);
        out
    }
}

/// A list read a page at a time.
pub struct PagedVec<'a, A> {
    pub page_length: usize,
    pub vec: &'a Vec<A>,
}

impl<'a, A> PagedVec<'a, A> {
    pub fn from(vec: &'a Vec<A>, page_length: usize) -> (r: PagedVec<'a, A>)
        requires
            page_length > 0,
        ensures
            r.page_length == page_length,
            r.vec@ == vec@,
    {
        PagedVec { page_length, vec }
    }

    /// The page that holds entry `index`: the entry's place on the page, and
    /// the page's entries. There is none past the end of the list.
    pub fn page(&self, index: usize) -> (r: Option<(usize, Vec<&'a A>)>)
        requires
            self.page_length > 0,
        ensures
            ({
                let start = (index / self.page_length) * self.page_length;
                let len = self.vec@.len();
                if start < len {
                    let end = if start + self.page_length < len {
                        start + self.page_length
                    } else {
                        len as int
                    };
                    r matches Some((place, items)) && place == index % self.page_length
                        && items@.len() == end - start && forall|k: int|
                        0 <= k < items@.len() ==> *(#[trigger] items@[k]) == self.vec@[start + k]
                } else {
                    r is None
                }
            }),
    {
        let pl = self.page_length;
        let p = index / pl;
        assert(p * pl <= index) by (nonlinear_arith)
            requires
                p == index / pl,
                pl > 0,
        ;
        let start = p * pl;
        let len = self.vec.len();
        if start >= len {
            return None;
        }
        let end = if len - start > pl {
            start + pl
        } else {
            len
        };
        let mut items: Vec<&'a A> = Vec::new();
        let mut i = start;
        while i < end
            invariant
                start <= i <= end <= len,
                len == self.vec@.len(),
                items@.len() == i - start,
                forall|k: int| 0 <= k < items@.len() ==> *(#[trigger] items@[k]) == self.vec@[start + k],
            decreases end - i,
        {
            items.push(&self.vec[i]);
            i = i + 1;
        }
        Some((index % pl, items))
    }
}

} // verus!
