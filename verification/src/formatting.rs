//! Display formatting for uptime and memory figures.
use vstd::prelude::*;
use vstd::string::StringExecFns;
use crate::digits::{
    dec_seq, dec_string, dec_val, is_dec_digit, lemma_dec_seq_digits, lemma_dec_seq_val,
    lemma_two_digit_seq, two_digit_seq, two_digit_string,
};

verus! {

/// The uptime display for `seconds` since boot: hours (unbounded, at least
/// two digits) and minutes (exactly two digits), as in `01h 23m`.
pub open spec fn uptime_seq(seconds: nat) -> Seq<char> {
    two_digit_seq(seconds / 3600) + seq!['h', ' '] + two_digit_seq((seconds % 3600) / 60)
        + seq!['m']
}

/// The memory display for used and total kibibytes: whole mebibytes by
/// truncating division, as in `2000/8000 MB`.
pub open spec fn memory_seq(used_kib: nat, total_kib: nat) -> Seq<char> {
    dec_seq(used_kib / 1024) + seq!['/'] + dec_seq(total_kib / 1024) + seq![' ', 'M', 'B']
}

/// Renders uptime seconds as `HHh MMm`; the seconds remainder is dropped.
pub fn format_uptime(seconds: u64) -> (r: String)
    ensures
        r@ == uptime_seq(seconds as nat),
{
    let hours: u64 = seconds / 3600;
    let minutes: u64 = (seconds % 3600) / 60;
    let mut s = two_digit_string(hours);
    s.append("h ");
    let m = two_digit_string(minutes);
    s.append(m.as_str());
    s.append("m");
    proof {
        reveal_strlit("h ");
        reveal_strlit("m");
        assert(("h ")@ =~= seq!['h', ' ']);
        assert(("m")@ =~= seq!['m']);
        assert(s@ =~= uptime_seq(seconds as nat));
    }
    s
}

/// Renders used and total memory, both in kibibytes, as whole mebibytes.
pub fn format_memory(used_kib: u64, total_kib: u64) -> (r: String)
    ensures
        r@ == memory_seq(used_kib as nat, total_kib as nat),
{
    let mut s = dec_string(used_kib / 1024);
    s.append("/");
    let t = dec_string(total_kib / 1024);
    s.append(t.as_str());
    s.append(" MB");
    proof {
        reveal_strlit("/");
        reveal_strlit(" MB");
        assert(("/")@ =~= seq!['/']);
        assert((" MB")@ =~= seq![' ', 'M', 'B']);
        assert(s@ =~= memory_seq(used_kib as nat, total_kib as nat));
    }
    s
}

/// The uptime display always reads as digits, `h`, a space, exactly two
/// digits, and `m`; the leading digits read back as `seconds / 3600` and
/// the two middle digits as `(seconds % 3600) / 60`, which is below 60.
pub proof fn lemma_uptime_format(seconds: nat)
    ensures
        ({
            let s = uptime_seq(seconds);
            let hl = s.len() - 5;
            &&& s.len() >= 7
            &&& hl >= 2
            &&& (forall|i: int| 0 <= i < hl ==> is_dec_digit(#[trigger] s[i]))
            &&& s[hl] == 'h'
            &&& s[hl + 1] == ' '
            &&& is_dec_digit(s[hl + 2])
            &&& is_dec_digit(s[hl + 3])
            &&& s[hl + 4] == 'm'
            &&& dec_val(s.subrange(0, hl)) == seconds / 3600
            &&& dec_val(s.subrange(hl + 2, hl + 4)) == (seconds % 3600) / 60
            &&& (seconds % 3600) / 60 < 60
        }),
{
    let hours = seconds / 3600;
    let minutes = (seconds % 3600) / 60;
    assert(minutes < 60) by (nonlinear_arith)
        requires
            minutes == (seconds % 3600) / 60,
            seconds % 3600 < 3600,
    ;
    lemma_two_digit_seq(hours);
    lemma_two_digit_seq(minutes);
    let h = two_digit_seq(hours);
    let m = two_digit_seq(minutes);
    assert(m.len() == 2);
    let s = uptime_seq(seconds);
    let hl = s.len() - 5;
    assert(hl == h.len());
    assert(s.subrange(0, hl) =~= h);
    assert(s.subrange(hl + 2, hl + 4) =~= m);
}

/// The memory display is the used mebibytes in digits, a slash, the total
/// mebibytes in digits, and ` MB`; each digit group reads back as the
/// corresponding kibibyte figure divided by 1024, truncating.
pub proof fn lemma_memory_format(used_kib: nat, total_kib: nat)
    ensures
        ({
            let s = memory_seq(used_kib, total_kib);
            let ul = dec_seq(used_kib / 1024).len();
            &&& s.len() >= 6
            &&& 1 <= ul <= s.len() - 5
            &&& (forall|i: int| 0 <= i < ul ==> is_dec_digit(#[trigger] s[i]))
            &&& s[ul as int] == '/'
            &&& (forall|i: int| ul < i < s.len() - 3 ==> is_dec_digit(#[trigger] s[i]))
            &&& s[s.len() - 3] == ' '
            &&& s[s.len() - 2] == 'M'
            &&& s[s.len() - 1] == 'B'
            &&& dec_val(s.subrange(0, ul as int)) == used_kib / 1024
            &&& dec_val(s.subrange(ul + 1 as int, s.len() - 3)) == total_kib / 1024
        }),
{
    lemma_dec_seq_digits(used_kib / 1024);
    lemma_dec_seq_digits(total_kib / 1024);
    lemma_dec_seq_val(used_kib / 1024);
    lemma_dec_seq_val(total_kib / 1024);
    let u = dec_seq(used_kib / 1024);
    let t = dec_seq(total_kib / 1024);
    let s = memory_seq(used_kib, total_kib);
    let ul = u.len();
    assert(s.len() == u.len() + 1 + t.len() + 3);
    assert(s.subrange(0, ul as int) =~= u);
    assert(s.subrange(ul + 1 as int, s.len() - 3) =~= t);
}

} // verus!
