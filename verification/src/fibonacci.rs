//! Fibonacci numbers as the Fibonacci search uses them.
use vstd::prelude::*;

verus! {

/// The Fibonacci numbers in the convention of the search: `F(0) = F(1) = 1`.
pub open spec fn fib(n: nat) -> nat
    decreases n,
{
    if n <= 1 {
        1
    } else {
        fib((n - 1) as nat) + fib((n - 2) as nat)
    }
}

/// The largest limit for which every number the generator produces fits in a
/// `u64`: `F(92)`, the largest Fibonacci number below `2^64`.
pub const FIB_LIMIT_MAX: u64 = 12200160415121876738u64;

/// `F(92)` is `FIB_LIMIT_MAX`, computed one number at a time.
pub proof fn lemma_fib_limit_max()
    ensures
        fib(92) == FIB_LIMIT_MAX,
{
    assert(fib(0) == 1);
    assert(fib(1) == 1);
    assert(fib(2) == 2);
    assert(fib(3) == 3);
    assert(fib(4) == 5);
    assert(fib(5) == 8);
    assert(fib(6) == 13);
    assert(fib(7) == 21);
    assert(fib(8) == 34);
    assert(fib(9) == 55);
    assert(fib(10) == 89);
    assert(fib(11) == 144);
    assert(fib(12) == 233);
    assert(fib(13) == 377);
    assert(fib(14) == 610);
    assert(fib(15) == 987);
    assert(fib(16) == 1597);
    assert(fib(17) == 2584);
    assert(fib(18) == 4181);
    assert(fib(19) == 6765);
    assert(fib(20) == 10946);
    assert(fib(21) == 17711);
    assert(fib(22) == 28657);
    assert(fib(23) == 46368);
    assert(fib(24) == 75025);
    assert(fib(25) == 121393);
    assert(fib(26) == 196418);
    assert(fib(27) == 317811);
    assert(fib(28) == 514229);
    assert(fib(29) == 832040);
    assert(fib(30) == 1346269);
    assert(fib(31) == 2178309);
    assert(fib(32) == 3524578);
    assert(fib(33) == 5702887);
    assert(fib(34) == 9227465);
    assert(fib(35) == 14930352);
    assert(fib(36) == 24157817);
    assert(fib(37) == 39088169);
    assert(fib(38) == 63245986);
    assert(fib(39) == 102334155);
    assert(fib(40) == 165580141);
    assert(fib(41) == 267914296);
    assert(fib(42) == 433494437);
    assert(fib(43) == 701408733);
    assert(fib(44) == 1134903170);
    assert(fib(45) == 1836311903);
    assert(fib(46) == 2971215073);
    assert(fib(47) == 4807526976);
    assert(fib(48) == 7778742049);
    assert(fib(49) == 12586269025);
    assert(fib(50) == 20365011074);
    assert(fib(51) == 32951280099);
    assert(fib(52) == 53316291173);
    assert(fib(53) == 86267571272);
    assert(fib(54) == 139583862445);
    assert(fib(55) == 225851433717);
    assert(fib(56) == 365435296162);
    assert(fib(57) == 591286729879);
    assert(fib(58) == 956722026041);
    assert(fib(59) == 1548008755920);
    assert(fib(60) == 2504730781961);
    assert(fib(61) == 4052739537881);
    assert(fib(62) == 6557470319842);
    assert(fib(63) == 10610209857723);
    assert(fib(64) == 17167680177565);
    assert(fib(65) == 27777890035288);
    assert(fib(66) == 44945570212853);
    assert(fib(67) == 72723460248141);
    assert(fib(68) == 117669030460994);
    assert(fib(69) == 190392490709135);
    assert(fib(70) == 308061521170129);
    assert(fib(71) == 498454011879264);
    assert(fib(72) == 806515533049393);
    assert(fib(73) == 1304969544928657);
    assert(fib(74) == 2111485077978050);
    assert(fib(75) == 3416454622906707);
    assert(fib(76) == 5527939700884757);
    assert(fib(77) == 8944394323791464);
    assert(fib(78) == 14472334024676221);
    assert(fib(79) == 23416728348467685);
    assert(fib(80) == 37889062373143906);
    assert(fib(81) == 61305790721611591);
    assert(fib(82) == 99194853094755497);
    assert(fib(83) == 160500643816367088);
    assert(fib(84) == 259695496911122585);
    assert(fib(85) == 420196140727489673);
    assert(fib(86) == 679891637638612258);
    assert(fib(87) == 1100087778366101931);
    assert(fib(88) == 1779979416004714189);
    assert(fib(89) == 2880067194370816120);
    assert(fib(90) == 4660046610375530309);
    assert(fib(91) == 7540113804746346429);
    assert(fib(92) == 12200160415121876738);
}

/// `F` never decreases, and grows strictly from index 1 on.
pub proof fn lemma_fib_monotone(i: nat, j: nat)
    requires
        i <= j,
    ensures
        fib(i) <= fib(j),
        1 <= i < j ==> fib(i) < fib(j),
    decreases j,
{
    if i < j {
        lemma_fib_monotone(i, (j - 1) as nat);
        if j >= 2 {
            assert(fib(j) == fib((j - 1) as nat) + fib((j - 2) as nat));
            lemma_fib_positive((j - 2) as nat);
        }
    }
}

/// Every Fibonacci number is at least 1.
pub proof fn lemma_fib_positive(n: nat)
    ensures
        fib(n) >= 1,
    decreases n,
{
    if n >= 2 {
        lemma_fib_positive((n - 1) as nat);
        lemma_fib_positive((n - 2) as nat);
    }
}

/// Generates `F(0), F(1), ...` up to and including the first number that is
/// not smaller than `limit`; at least `F(0)` and `F(1)` are always produced.
pub fn get_fibonacci_n(limit: u64) -> (fibs: Vec<u64>)
    requires
        limit <= FIB_LIMIT_MAX,
    ensures
        fibs.len() >= 2,
        forall|i: int| 0 <= i < fibs.len() ==> fibs[i] == fib(i as nat),
        fibs[fibs.len() - 1] >= limit,
        forall|i: int| 1 <= i < fibs.len() - 1 ==> fibs[i] < limit,
{
    let mut fibs: Vec<u64> = Vec::new();
    fibs.push(1);
    fibs.push(1);
    assert(fib(1) == 1);
    while fibs[fibs.len() - 1] < limit
        invariant
            limit <= FIB_LIMIT_MAX,
            fibs.len() >= 2,
            forall|i: int| 0 <= i < fibs.len() ==> fibs[i] == fib(i as nat),
            forall|i: int| 1 <= i < fibs.len() - 1 ==> fibs[i] < limit,
        decreases u64::MAX - fibs[fibs.len() - 1],
    {
        let len = fibs.len();
        let last = fibs[len - 1];
        let prev = fibs[len - 2];
        proof {
            lemma_fib_monotone((len - 2) as nat, (len - 1) as nat);
            lemma_fib_positive((len - 2) as nat);
            assert(fib(len as nat) == fib((len - 1) as nat) + fib((len - 2) as nat));
            // F(len - 1) < limit <= F(92), so len <= 92 and F(len) <= F(92).
            lemma_fib_limit_max();
            if len > 92 {
                lemma_fib_monotone(92, (len - 1) as nat);
            }
            lemma_fib_monotone(len as nat, 92);
        }
        let next = last + prev;
        fibs.push(next);
    }
    fibs
}

} // verus!
