//! Request-scoped locations for compiled modules. Every request gets a path
//! of its own, so that concurrent compilations never write, read or remove
//! each other's output.
use vstd::prelude::*;

verus! {

/// The decimal digit `d`, for `d < 10`.
pub open spec fn digit_char(d: nat) -> char {
    if d == 0 {
        '0'
    } else if d == 1 {
        '1'
    } else if d == 2 {
        '2'
    } else if d == 3 {
        '3'
    } else if d == 4 {
        '4'
    } else if d == 5 {
        '5'
    } else if d == 6 {
        '6'
    } else if d == 7 {
        '7'
    } else if d == 8 {
        '8'
    } else {
        '9'
    }
}

/// The decimal numeral of `n`, without leading zeros.
pub open spec fn decimal(n: nat) -> Seq<char>
    decreases n,
{
    if n < 10 {
        seq![digit_char(n)]
    } else {
        decimal(n / 10).push(digit_char(n % 10))
    }
}

/// The path of the module compiled for request `seq` of service instance
/// `instance`, inside directory `dir`.
pub open spec fn artifact_path_spec(dir: Seq<char>, instance: nat, seq: nat) -> Seq<char> {
    dir + "/model-"@ + decimal(instance) + "-"@ + decimal(seq) + ".wasm"@
}

proof fn lemma_decimal_shape(n: nat)
    ensures
        decimal(n).len() >= 1,
        n >= 10 ==> decimal(n).len() >= 2,
        forall|i: int| 0 <= i < decimal(n).len() ==> decimal(n)[i] != '-',
    decreases n,
{
    if n >= 10 {
        lemma_decimal_shape(n / 10);
    }
}

proof fn lemma_decimal_injective(a: nat, b: nat)
    requires
        decimal(a) == decimal(b),
    ensures
        a == b,
    decreases a,
{
    if a >= 10 {
        lemma_decimal_shape(a / 10);
    }
    if b >= 10 {
        lemma_decimal_shape(b / 10);
    }
    if a >= 10 && b >= 10 {
        let (da, db) = (decimal(a), decimal(b));
        assert(da.drop_last() =~= decimal(a / 10));
        assert(db.drop_last() =~= decimal(b / 10));
        assert(da.last() == digit_char(a % 10));
        assert(db.last() == digit_char(b % 10));
        lemma_decimal_injective(a / 10, b / 10);
        assert(a % 10 == b % 10);
        assert(a == 10 * (a / 10) + a % 10);
        assert(b == 10 * (b / 10) + b % 10);
    } else if a < 10 && b < 10 {
        assert(decimal(a)[0] == digit_char(a));
        assert(decimal(b)[0] == digit_char(b));
    } else if a < 10 {
        assert(decimal(a).len() == 1);
        assert(decimal(b).len() == decimal(b / 10).len() + 1);
    } else {
        assert(decimal(b).len() == 1);
        assert(decimal(a).len() == decimal(a / 10).len() + 1);
    }
}

/// Two numerals joined by a hyphen determine both numerals.
proof fn lemma_split_at_hyphen(a1: nat, b1: Seq<char>, a2: nat, b2: Seq<char>)
    requires
        decimal(a1) + "-"@ + b1 == decimal(a2) + "-"@ + b2,
    ensures
        a1 == a2,
        b1 == b2,
{
    reveal_strlit("-");
    lemma_decimal_shape(a1);
    lemma_decimal_shape(a2);
    let (d1, d2) = (decimal(a1), decimal(a2));
    let (s1, s2) = (d1 + "-"@ + b1, d2 + "-"@ + b2);
    if d1.len() < d2.len() {
        assert(s1[d1.len() as int] == '-');
        assert(s2[d1.len() as int] == d2[d1.len() as int]);
    } else if d2.len() < d1.len() {
        assert(s2[d2.len() as int] == '-');
        assert(s1[d2.len() as int] == d1[d2.len() as int]);
    }
    assert(d1 =~= s1.subrange(0, d1.len() as int));
    assert(d2 =~= s2.subrange(0, d2.len() as int));
    lemma_decimal_injective(a1, a2);
    assert(b1 =~= s1.subrange(d1.len() + 1int, s1.len() as int));
    assert(b2 =~= s2.subrange(d2.len() + 1int, s2.len() as int));
}

/// Requests with different numbers, or of different service instances, get
/// different paths in the same directory: no two of them can overwrite,
/// read or remove each other's module.
pub proof fn lemma_distinct_requests_distinct_paths(
    dir: Seq<char>,
    instance1: nat,
    seq1: nat,
    instance2: nat,
    seq2: nat,
)
    requires
        instance1 != instance2 || seq1 != seq2,
    ensures
        artifact_path_spec(dir, instance1, seq1) != artifact_path_spec(dir, instance2, seq2),
{
    let head = dir + "/model-"@;
    let tail1 = decimal(instance1) + "-"@ + decimal(seq1);
    let tail2 = decimal(instance2) + "-"@ + decimal(seq2);
    let p1 = artifact_path_spec(dir, instance1, seq1);
    let p2 = artifact_path_spec(dir, instance2, seq2);
    assert(p1 =~= head + tail1 + ".wasm"@);
    assert(p2 =~= head + tail2 + ".wasm"@);
    if p1 == p2 {
        assert(tail1 =~= p1.subrange(head.len() as int, p1.len() - ".wasm"@.len()));
        assert(tail2 =~= p2.subrange(head.len() as int, p2.len() - ".wasm"@.len()));
        lemma_split_at_hyphen(instance1, decimal(seq1), instance2, decimal(seq2));
        lemma_decimal_injective(seq1, seq2);
    }
}

fn digit_str(d: u64) -> (r: &'static str)
    requires
        d < 10,
    ensures
        r@ == seq![digit_char(d as nat)],
{
    proof {
        reveal_strlit("0");
        reveal_strlit("1");
        reveal_strlit("2");
        reveal_strlit("3");
        reveal_strlit("4");
        reveal_strlit("5");
        reveal_strlit("6");
        reveal_strlit("7");
        reveal_strlit("8");
        reveal_strlit("9");
    }
    let r = match d {
        0 => "0",
        1 => "1",
        2 => "2",
        3 => "3",
        4 => "4",
        5 => "5",
        6 => "6",
        7 => "7",
        8 => "8",
        _ => "9",
    };
    assert(r@ =~= seq![digit_char(d as nat)]);
    r
}

/// Appends the decimal numeral of `n` to `out`.
pub fn push_decimal(out: &mut String, n: u64)
    ensures
        final(out)@ == old(out)@ + decimal(n as nat),
    decreases n,
{
    if n < 10 {
        out.append(digit_str(n));
    } else {
        push_decimal(out, n / 10);
        out.append(digit_str(n % 10));
        assert(final(out)@ =~= old(out)@ + decimal(n as nat));
    }
}

/// The path of the module compiled for request `seq` of service instance
/// `instance`, inside directory `dir`.
pub fn artifact_path(dir: &str, instance: u64, seq: u64) -> (r: String)
    ensures
        r@ == artifact_path_spec(dir@, instance as nat, seq as nat),
{
    let mut p = String::from_str(dir);
    p.append("/model-");
    push_decimal(&mut p, instance);
    p.append("-");
    push_decimal(&mut p, seq);
    p.append(".wasm");
    p
}

/// Hands out request-scoped module paths for one service instance. The
/// instance number tells apart processes that share a directory; the
/// request number is never handed out twice.
#[derive(Debug)]
pub struct ArtifactNames {
    pub instance: u64,
    pub next: u64,
}

impl ArtifactNames {
    pub fn new(instance: u64) -> (r: ArtifactNames)
        ensures
            r.instance == instance,
            r.next == 0,
    {
        ArtifactNames { instance, next: 0 }
    }

    /// A fresh path in `dir` for the next request, or `None` once every
    /// request number has been handed out.
    pub fn issue(&mut self, dir: &str) -> (r: Option<String>)
        ensures
            final(self).instance == old(self).instance,
            old(self).next == u64::MAX <==> r is None,
            old(self).next == u64::MAX ==> *final(self) == *old(self),
            r matches Some(p) ==> {
                &&& p@ == artifact_path_spec(dir@, old(self).instance as nat, old(self).next as nat)
                &&& final(self).next == old(self).next + 1
            },
    {
        if self.next == u64::MAX {
            None
        } else {
            let p = artifact_path(dir, self.instance, self.next);
            self.next = self.next + 1;
            Some(p)
        }
    }
}

} // verus!
